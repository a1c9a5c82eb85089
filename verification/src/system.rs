//! A system of units: the symbols of its units, in the order in which they were added.

use vstd::prelude::*;
use crate::dimensions::{Dimension, Quantity};
use crate::number::Number;
use crate::table::{as_map, distinct_symbols, with_entry, Table};
use crate::text::chars_of;
use crate::units::Unit;

verus! {

/// The base units for each dimension
#[derive(Debug, Clone, Copy)]
pub struct BaseUnits {
    /// Base unit for length
    pub length: &'static str,
    /// Base unit for time
    pub time: &'static str,
    /// Base unit for mass
    pub mass: &'static str,
    /// Base unit for current
    pub current: &'static str,
    /// Base unit for temperature
    pub temperature: &'static str,
    /// Base unit for amount of substance
    pub substance_amount: &'static str,
    /// Base unit for luminous intensity
    pub luminous_intensity: &'static str,
}

impl BaseUnits {
    /// The base units of SI: metres, seconds, kilogrammes, amperes, kelvin, moles, candelas.
    pub open spec fn spec_si() -> BaseUnits {
        BaseUnits {
            length: "m",
            time: "s",
            mass: "kg",
            current: "A",
            temperature: "K",
            substance_amount: "mol",
            luminous_intensity: "cd",
        }
    }

    /// The base units of SI: metres, seconds, kilogrammes, amperes, kelvin, moles, candelas.
    #[verifier::when_used_as_spec(spec_si)]
    pub fn si() -> (r: BaseUnits)
        ensures
            r == BaseUnits::spec_si(),
    {
        BaseUnits {
            length: "m",
            time: "s",
            mass: "kg",
            current: "A",
            temperature: "K",
            substance_amount: "mol",
            luminous_intensity: "cd",
        }
    }
}

/// The unit of the quantity `q` in base units: its factor is one.
pub open spec fn base_unit<N: Number>(q: Quantity) -> Unit<N> {
    Unit { dimension: q.dimension(), factor: N::spec_one() }
}

/// The unit of the quantity `q` that is `n` base units large.
pub open spec fn multiple<N: Number>(q: Quantity, n: i32) -> Unit<N> {
    Unit { dimension: q.dimension(), factor: N::spec_from_i32(n) }
}

/// The unit of the quantity `q` that is the `n`th part of a base unit.
pub open spec fn fraction<N: Number>(q: Quantity, n: i32) -> Unit<N> {
    Unit { dimension: q.dimension(), factor: N::spec_one().spec_over(N::spec_from_i32(n)) }
}

/// The entries of a system that holds the base units alone: one unit of factor one for each
/// base dimension, under the symbol that `base` gives it.
pub open spec fn base_entries<N: Number>(base: BaseUnits) -> Seq<(Seq<char>, Unit<N>)> {
    let e = Seq::empty();
    let e = with_entry(e, base.length@, base_unit(Quantity::Length));
    let e = with_entry(e, base.time@, base_unit(Quantity::Time));
    let e = with_entry(e, base.mass@, base_unit(Quantity::Mass));
    let e = with_entry(e, base.current@, base_unit(Quantity::Current));
    let e = with_entry(e, base.temperature@, base_unit(Quantity::Temperature));
    let e = with_entry(e, base.substance_amount@, base_unit(Quantity::AmountOfSubstance));
    let e = with_entry(e, base.luminous_intensity@, base_unit(Quantity::LuminousIntensity));
    e
}

/// The entries of the system of SI units: the base units, and the named units derived from
/// them that this crate knows.
pub open spec fn si_entries<N: Number>() -> Seq<(Seq<char>, Unit<N>)> {
    let e = base_entries(BaseUnits::si());
    let e = with_entry(e, "J"@, base_unit(Quantity::Energy));
    let e = with_entry(e, "min"@, multiple(Quantity::Time, 60));
    let e = with_entry(e, "h"@, multiple(Quantity::Time, 3600));
    let e = with_entry(e, "km"@, multiple(Quantity::Length, 1000));
    let e = with_entry(e, "g"@, fraction(Quantity::Mass, 1000));
    let e = with_entry(e, "Hz"@, base_unit(Quantity::Frequency));
    let e = with_entry(e, "L"@, fraction(Quantity::Volume, 1000));
    let e = with_entry(e, "mL"@, fraction(Quantity::Volume, 1000000));
    let e = with_entry(e, "M"@, multiple(Quantity::Concentration, 1000));
    let e = with_entry(e, "N"@, base_unit(Quantity::Force));
    let e = with_entry(e, "kN"@, multiple(Quantity::Force, 1000));
    let e = with_entry(e, "W"@, base_unit(Quantity::Power));
    let e = with_entry(e, "V"@, base_unit(Quantity::Voltage));
    let e = with_entry(e, "mA"@, fraction(Quantity::Current, 1000));
    let e = with_entry(e, "Ω"@, base_unit(Quantity::Resistance));
    let e = with_entry(e, "C"@, base_unit(Quantity::Charge));
    let e = with_entry(e, "Pa"@, base_unit(Quantity::Pressure));
    e
}

/// A collection of units and their ratios to each other
///
/// Used for writing and reading units from and to strings
pub struct UnitSystem<N: Number> {
    base: BaseUnits,
    units: Table<Unit<N>>,
}

impl<N: Number> View for UnitSystem<N> {
    type V = Map<Seq<char>, Unit<N>>;

    /// The units of the system by their symbols.
    closed spec fn view(&self) -> Map<Seq<char>, Unit<N>> {
        as_map(self.entries())
    }
}

impl<N: Number> UnitSystem<N> {
    /// The symbols and units of the system, in the order in which the symbols were first
    /// registered.
    pub closed spec fn entries(self) -> Seq<(Seq<char>, Unit<N>)> {
        self.units.entries()
    }

    /// The set of base units for this system
    pub closed spec fn spec_base(&self) -> BaseUnits {
        self.base
    }

    /// The set of base units for this system
    #[verifier::when_used_as_spec(spec_base)]
    pub fn base(&self) -> (r: BaseUnits)
        ensures
            r == self.spec_base(),
    {
        self.base
    }

    /// The view of a system is the map of its entries.
    pub proof fn lemma_entries(self)
        ensures
            self@ == as_map(self.entries()),
    {
    }

    /// The number of units in the system.
    pub fn len(&self) -> (n: usize)
        ensures
            n == self.entries().len(),
            distinct_symbols(self.entries()),
    {
        self.units.len()
    }

    /// The symbol of the unit at place `i`.
    pub(crate) fn symbol_at(&self, i: usize) -> (r: &Vec<char>)
        requires
            i < self.entries().len(),
        ensures
            r@ == self.entries()[i as int].0,
    {
        self.units.symbol_at(i)
    }

    /// The unit at place `i`.
    pub(crate) fn unit_at(&self, i: usize) -> (r: Unit<N>)
        requires
            i < self.entries().len(),
        ensures
            r == self.entries()[i as int].1,
    {
        self.units.value_at(i)
    }

    /// The unit registered as `symbol`, if there is one.
    pub fn lookup(&self, symbol: &Vec<char>) -> (r: Option<Unit<N>>)
        ensures
            r == (if self@.contains_key(symbol@) {
                Some(self@[symbol@])
            } else {
                None
            }),
    {
        proof {
            self.units.lemma_entries();
        }
        self.units.get(symbol)
    }

    /// A system without units, with the given base.
    fn empty(base: BaseUnits) -> (r: Self)
        ensures
            r.base() == base,
            r.entries() == Seq::<(Seq<char>, Unit<N>)>::empty(),
    {
        UnitSystem { base, units: Table::new() }
    }

    /// Creates a new `UnitSystem` from a base; `cap` is the number of further units that the
    /// caller expects to add, and changes nothing in what the system holds.
    pub fn new_base_with_cap(base: BaseUnits, cap: usize) -> (r: Self)
        ensures
            r.base() == base,
            r.entries() == base_entries::<N>(base),
    {
        let _ = cap;
        let mut units = Self::empty(base);
        units.add_unit(base.length, Unit::new(Quantity::Length.dimension()));
        units.add_unit(base.time, Unit::new(Quantity::Time.dimension()));
        units.add_unit(base.mass, Unit::new(Quantity::Mass.dimension()));
        units.add_unit(base.current, Unit::new(Quantity::Current.dimension()));
        units.add_unit(base.temperature, Unit::new(Quantity::Temperature.dimension()));
        units.add_unit(base.substance_amount, Unit::new(Quantity::AmountOfSubstance.dimension()));
        units.add_unit(
            base.luminous_intensity,
            Unit::new(Quantity::LuminousIntensity.dimension()),
        );
        units
    }

    /// Creates a system with SI units
    pub fn si() -> (r: Self)
        ensures
            r.base() == BaseUnits::si(),
            r.entries() == si_entries::<N>(),
    {
        let mut ret = Self::new_base_with_cap(BaseUnits::si(), 16);
        let thousand = N::from_i32(1000);
        let thousandth = N::one().over(thousand);
        let millionth = N::one().over(N::from_i32(1000000));
        ret.add_unit("J", Unit::new(Quantity::Energy.dimension()));
        ret.add_unit("min", Unit::with_factor(Quantity::Time.dimension(), N::from_i32(60)));
        ret.add_unit("h", Unit::with_factor(Quantity::Time.dimension(), N::from_i32(3600)));
        ret.add_unit("km", Unit::with_factor(Quantity::Length.dimension(), thousand));
        ret.add_unit("g", Unit::with_factor(Quantity::Mass.dimension(), thousandth));
        ret.add_unit("Hz", Unit::new(Quantity::Frequency.dimension()));
        ret.add_unit("L", Unit::with_factor(Quantity::Volume.dimension(), thousandth));
        ret.add_unit("mL", Unit::with_factor(Quantity::Volume.dimension(), millionth));
        ret.add_unit("M", Unit::with_factor(Quantity::Concentration.dimension(), thousand));
        ret.add_unit("N", Unit::new(Quantity::Force.dimension()));
        ret.add_unit("kN", Unit::with_factor(Quantity::Force.dimension(), thousand));
        ret.add_unit("W", Unit::new(Quantity::Power.dimension()));
        ret.add_unit("V", Unit::new(Quantity::Voltage.dimension()));
        ret.add_unit("mA", Unit::with_factor(Quantity::Current.dimension(), thousandth));
        ret.add_unit("Ω", Unit::new(Quantity::Resistance.dimension()));
        ret.add_unit("C", Unit::new(Quantity::Charge.dimension()));
        ret.add_unit("Pa", Unit::new(Quantity::Pressure.dimension()));
        ret
    }

    /// Add a unit to the system
    ///
    /// A unit that had the symbol before is replaced and returned.
    pub fn add_unit(&mut self, name: &str, unit: Unit<N>) -> (r: Option<Unit<N>>)
        ensures
            final(self).base() == old(self).base(),
            final(self).entries() == with_entry(old(self).entries(), name@, unit),
            final(self)@ == old(self)@.insert(name@, unit),
            r == (if old(self)@.contains_key(name@) {
                Some(old(self)@[name@])
            } else {
                None
            }),
    {
        proof {
            self.units.lemma_entries();
        }
        let r = self.units.insert(chars_of(name), unit);
        proof {
            self.units.lemma_entries();
        }
        r
    }

    /// Returns the unit with the given name if it exists
    ///
    /// This can only take units that aren't composite (i.e m, C, s, etc., but not m³, m/s or s^-1)
    pub fn get_unit(&self, name: &str) -> (r: Option<Unit<N>>)
        ensures
            r == (if self@.contains_key(name@) {
                Some(self@[name@])
            } else {
                None
            }),
    {
        let symbol = chars_of(name);
        self.lookup(&symbol)
    }

    /// The unit with the given name, which the system holds.
    pub fn index(&self, name: &str) -> (r: Unit<N>)
        requires
            self@.contains_key(name@),
        ensures
            r == self@[name@],
    {
        let symbol = chars_of(name);
        match self.lookup(&symbol) {
            Some(unit) => unit,
            None => Unit::new(Dimension::nul()),
        }
    }
}

} // verus!
