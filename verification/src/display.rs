//! Writes a value out in the unit of the system that suits it best.

use vstd::prelude::*;
use crate::dimensions::Dimension;
use crate::number::Number;
use crate::superscript::{power_text, push_power};
use crate::system::{BaseUnits, UnitSystem};
use crate::text::{push_str, string_of};
use crate::units::{Unit, Value};

verus! {

/// How far the factor of `unit` is from `target`.
pub open spec fn distance<N: Number>(unit: Unit<N>, target: N) -> N {
    unit.factor.spec_minus(target).spec_abs()
}

/// The place of the unit among `entries` in which a value in the unit `like` is written
/// out: of the units with the dimension of `like`, the one whose factor is nearest to that
/// of `like`, and of several that are equally near the first. `None` where no unit has the
/// dimension.
///
/// A unit takes the place of an earlier one only where its distance is less; so the answer
/// is the nearest unit wherever the numbers of this system order those distances.
pub open spec fn best_match<N: Number>(entries: Seq<(Seq<char>, Unit<N>)>, like: Unit<N>) -> Option<
    int,
>
    decreases entries.len(),
{
    if entries.len() == 0 {
        None
    } else {
        let last = entries.len() - 1;
        let before = best_match(entries.drop_last(), like);
        if entries[last].1.dimension != like.dimension {
            before
        } else {
            match before {
                Some(i) => if distance(entries[last].1, like.factor).spec_less(
                    distance(entries[i].1, like.factor),
                ) {
                    Some(last)
                } else {
                    Some(i)
                },
                None => Some(last),
            }
        }
    }
}

/// The dimension `d` in the base units `base`: each base unit whose exponent is not zero,
/// with the exponent behind it in superscript glyphs.
pub open spec fn base_suffix(base: BaseUnits, d: Dimension) -> Seq<char> {
    power_text(base.mass@, d.mass) + power_text(base.length@, d.length) + power_text(
        base.time@,
        d.time,
    ) + power_text(base.current@, d.current) + power_text(base.temperature@, d.temperature)
        + power_text(base.substance_amount@, d.substance_amount) + power_text(
        base.luminous_intensity@,
        d.luminous_intensity,
    )
}

/// The text of the value `val` in a system with the units `entries` and the base units
/// `base`: where a unit of the system has the dimension of the value, the magnitude in the
/// best such unit, a space and the symbol of that unit; else the magnitude in base units, a
/// space and the dimension in base units.
pub open spec fn rendered<N: Number>(
    entries: Seq<(Seq<char>, Unit<N>)>,
    base: BaseUnits,
    val: Value<N>,
) -> Seq<char> {
    match best_match(entries, val.1) {
        Some(i) => val.0.spec_times(val.1.factor.spec_over(entries[i].1.factor)).spec_render()
            + seq![' '] + entries[i].0,
        None => val.0.spec_times(val.1.factor).spec_render() + seq![' '] + base_suffix(
            base,
            val.1.dimension,
        ),
    }
}

/// The best match is a place among the entries, of a unit with the dimension asked for, and
/// there is one wherever a unit has that dimension.
pub proof fn lemma_best_match_in_range<N: Number>(entries: Seq<(Seq<char>, Unit<N>)>, like: Unit<N>)
    ensures
        match best_match(entries, like) {
            Some(i) => 0 <= i < entries.len() && entries[i].1.dimension == like.dimension,
            None => forall|j: int|
                0 <= j < entries.len() ==> (#[trigger] entries[j]).1.dimension != like.dimension,
        },
    decreases entries.len(),
{
    if entries.len() > 0 {
        lemma_best_match_in_range(entries.drop_last(), like);
        if best_match(entries, like) is None {
            assert forall|j: int| 0 <= j < entries.len() implies (#[trigger] entries[j]).1.dimension
                != like.dimension by {
                if j < entries.len() - 1 {
                    assert(entries.drop_last()[j] == entries[j]);
                }
            }
        }
    }
}

/// Whether the numbers of this type are ordered as the points of a line are: of two
/// numbers at most one is less than the other, and a number that is less than another is
/// less than any third number or greater than it.
pub open spec fn orders_numbers<N: Number>() -> bool {
    &&& forall|a: N, b: N| #[trigger] a.spec_less(b) ==> !b.spec_less(a)
    &&& forall|a: N, b: N, c: N| #[trigger]
        a.spec_less(c) ==> #[trigger] a.spec_less(b) || b.spec_less(c)
}

/// Where the numbers are ordered, the best match is the nearest unit of the dimension: no
/// unit of that dimension is nearer, and every earlier one is farther.
pub proof fn lemma_best_match_is_nearest<N: Number>(entries: Seq<(Seq<char>, Unit<N>)>, like: Unit<N>)
    requires
        orders_numbers::<N>(),
    ensures
        best_match(entries, like) matches Some(i) ==> {
            &&& forall|j: int|
                0 <= j < entries.len() && (#[trigger] entries[j]).1.dimension == like.dimension
                    ==> !distance(entries[j].1, like.factor).spec_less(
                    distance(entries[i].1, like.factor),
                )
            &&& forall|j: int|
                0 <= j < i && (#[trigger] entries[j]).1.dimension == like.dimension ==> distance(
                    entries[i].1,
                    like.factor,
                ).spec_less(distance(entries[j].1, like.factor))
        },
    decreases entries.len(),
{
    if entries.len() > 0 {
        let last = entries.len() - 1;
        let front = entries.drop_last();
        lemma_best_match_is_nearest(front, like);
        lemma_best_match_in_range(front, like);
        lemma_best_match_in_range(entries, like);
        if entries[last].1.dimension == like.dimension {
            let d_last = distance(entries[last].1, like.factor);
            match best_match(front, like) {
                Some(b) => {
                    let d_b = distance(entries[b].1, like.factor);
                    assert(front[b] == entries[b]);
                    if d_last.spec_less(d_b) {
                        assert(!d_b.spec_less(d_last));
                        assert forall|j: int|
                            0 <= j < entries.len() && (#[trigger] entries[j]).1.dimension
                                == like.dimension implies !distance(
                            entries[j].1,
                            like.factor,
                        ).spec_less(d_last) by {
                            let d_j = distance(entries[j].1, like.factor);
                            if j < last {
                                assert(front[j] == entries[j]);
                                assert(!d_j.spec_less(d_b));
                                if d_j.spec_less(d_last) {
                                    assert(d_j.spec_less(d_b) || d_b.spec_less(d_last));
                                }
                            }
                        }
                        assert forall|j: int|
                            0 <= j < last && (#[trigger] entries[j]).1.dimension
                                == like.dimension implies d_last.spec_less(
                            distance(entries[j].1, like.factor),
                        ) by {
                            let d_j = distance(entries[j].1, like.factor);
                            assert(front[j] == entries[j]);
                            assert(!d_j.spec_less(d_b));
                            assert(d_last.spec_less(d_j) || d_j.spec_less(d_b));
                        }
                    } else {
                        assert forall|j: int|
                            0 <= j < entries.len() && (#[trigger] entries[j]).1.dimension
                                == like.dimension implies !distance(
                            entries[j].1,
                            like.factor,
                        ).spec_less(d_b) by {
                            if j < last {
                                assert(front[j] == entries[j]);
                            }
                        }
                        assert forall|j: int|
                            0 <= j < b && (#[trigger] entries[j]).1.dimension
                                == like.dimension implies d_b.spec_less(
                            distance(entries[j].1, like.factor),
                        ) by {
                            assert(front[j] == entries[j]);
                        }
                    }
                },
                None => {
                    assert forall|j: int|
                        0 <= j < entries.len() && (#[trigger] entries[j]).1.dimension
                            == like.dimension implies !distance(
                        entries[j].1,
                        like.factor,
                    ).spec_less(d_last) by {
                        if j < last {
                            assert(front[j] == entries[j]);
                        }
                    }
                    assert forall|j: int|
                        0 <= j < last && (#[trigger] entries[j]).1.dimension
                            == like.dimension implies d_last.spec_less(
                        distance(entries[j].1, like.factor),
                    ) by {
                        assert(front[j] == entries[j]);
                    }
                },
            }
        } else {
            match best_match(front, like) {
                Some(b) => {
                    assert(front[b] == entries[b]);
                    assert forall|j: int|
                        0 <= j < entries.len() && (#[trigger] entries[j]).1.dimension
                            == like.dimension implies !distance(
                        entries[j].1,
                        like.factor,
                    ).spec_less(distance(entries[b].1, like.factor)) by {
                        assert(front[j] == entries[j]);
                    }
                    assert forall|j: int|
                        0 <= j < b && (#[trigger] entries[j]).1.dimension
                            == like.dimension implies distance(entries[b].1, like.factor).spec_less(
                        distance(entries[j].1, like.factor),
                    ) by {
                        assert(front[j] == entries[j]);
                    }
                },
                None => {},
            }
        }
    }
}

/// A value together with the system in whose units it is to be written out.
pub struct UnitDisplay<'a, N: Number> {
    val: &'a Value<N>,
    sys: &'a UnitSystem<N>,
}

/// A `UnitDisplay` of `val` in the units of `sys`.
pub fn make_display<'a, N: Number>(sys: &'a UnitSystem<N>, val: &'a Value<N>) -> (r: UnitDisplay<
    'a,
    N,
>)
    ensures
        r.value() == *val,
        r.system() == *sys,
{
    UnitDisplay { val, sys }
}

impl<'a, N: Number> UnitDisplay<'a, N> {
    /// The value that is written out.
    pub closed spec fn value(&self) -> Value<N> {
        *self.val
    }

    /// The system in whose units the value is written out.
    pub closed spec fn system(&self) -> UnitSystem<N> {
        *self.sys
    }

    /// The place of the unit in which the value is written out, if the system has one of
    /// its dimension.
    fn best(&self) -> (r: Option<usize>)
        ensures
            match r {
                Some(i) => best_match(self.system().entries(), self.value().1) == Some(i as int)
                    && i < self.system().entries().len(),
                None => best_match(self.system().entries(), self.value().1) is None,
            },
    {
        let like = self.val.1;
        let ghost entries = self.sys.entries();
        let n = self.sys.len();
        let mut best: Option<usize> = None;
        let mut i: usize = 0;
        assert(entries.take(0) =~= Seq::empty());
        while i < n
            invariant
                i <= n == entries.len(),
                entries == self.sys.entries(),
                like == self.val.1,
                match best {
                    Some(b) => best_match(entries.take(i as int), like) == Some(b as int) && b < i,
                    None => best_match(entries.take(i as int), like) is None,
                },
            decreases n - i,
        {
            proof {
                assert(entries.take(i + 1).drop_last() =~= entries.take(i as int));
                assert(entries.take(i + 1)[i as int] == entries[i as int]);
            }
            let unit = self.sys.unit_at(i);
            if unit.dimension == like.dimension {
                best = match best {
                    Some(b) => {
                        let held = self.sys.unit_at(b);
                        assert(entries.take(i + 1)[b as int] == entries[b as int]);
                        if unit.factor.minus(like.factor).abs().less(
                            held.factor.minus(like.factor).abs(),
                        ) {
                            Some(i)
                        } else {
                            Some(b)
                        }
                    },
                    None => Some(i),
                };
            }
            i += 1;
        }
        assert(entries.take(n as int) =~= entries);
        best
    }

    /// The value as text: its magnitude in the best unit of the system, a space, and the
    /// symbol of that unit; or, where the system has no unit of its dimension, its magnitude
    /// in base units, a space, and its dimension in base units.
    pub fn to_string(&self) -> (r: String)
        ensures
            r@ == rendered(self.system().entries(), self.system().base(), self.value()),
    {
        let val = *self.val;
        let mut out: Vec<char> = Vec::new();
        assert(out@ =~= Seq::empty());
        match self.best() {
            Some(i) => {
                let unit = self.sys.unit_at(i);
                let number = val.0.times(val.1.factor.over(unit.factor)).render();
                push_str(&mut out, number.as_str());
                out.push(' ');
                let symbol = self.sys.symbol_at(i);
                let mut k: usize = 0;
                let ghost head = out@;
                assert(out@ =~= head + symbol@.take(0));
                while k < symbol.len()
                    invariant
                        k <= symbol.len(),
                        out@ == head + symbol@.take(k as int),
                    decreases symbol.len() - k,
                {
                    out.push(symbol[k]);
                    k += 1;
                    assert(out@ =~= head + symbol@.take(k as int));
                }
                assert(symbol@.take(k as int) =~= symbol@);
                assert(out@ =~= rendered(
                    self.system().entries(),
                    self.system().base(),
                    self.value(),
                ));
            },
            None => {
                let base = self.sys.base();
                let d = val.1.dimension;
                let number = val.0.times(val.1.factor).render();
                push_str(&mut out, number.as_str());
                out.push(' ');
                let ghost head = out@;
                push_power(&mut out, base.mass, d.mass);
                push_power(&mut out, base.length, d.length);
                push_power(&mut out, base.time, d.time);
                push_power(&mut out, base.current, d.current);
                push_power(&mut out, base.temperature, d.temperature);
                push_power(&mut out, base.substance_amount, d.substance_amount);
                push_power(&mut out, base.luminous_intensity, d.luminous_intensity);
                assert(out@ =~= head + base_suffix(base, d));
                assert(out@ =~= rendered(
                    self.system().entries(),
                    self.system().base(),
                    self.value(),
                ));
            },
        }
        string_of(&out)
    }
}

impl<N: Number> UnitSystem<N> {
    /// Returns a `UnitDisplay` used to display a value
    pub fn display<'a>(&'a self, val: &'a Value<N>) -> (r: UnitDisplay<'a, N>)
        ensures
            r.value() == *val,
            r.system() == *self,
    {
        make_display(self, val)
    }
}

} // verus!
