//! A table of values by symbol, which keeps the order in which the symbols were entered.

use vstd::prelude::*;
use crate::text::same_chars;

verus! {

/// Whether no symbol occurs twice in `entries`.
pub open spec fn distinct_symbols<V>(entries: Seq<(Seq<char>, V)>) -> bool {
    forall|i: int, j: int|
        0 <= i < j < entries.len() ==> (#[trigger] entries[i]).0 != (#[trigger] entries[j]).0
}

/// Whether `symbol` occurs in `entries`.
pub open spec fn has_symbol<V>(entries: Seq<(Seq<char>, V)>, symbol: Seq<char>) -> bool {
    exists|i: int| 0 <= i < entries.len() && (#[trigger] entries[i]).0 == symbol
}

/// The place of `symbol` in `entries`, where it occurs.
pub open spec fn place_of<V>(entries: Seq<(Seq<char>, V)>, symbol: Seq<char>) -> int {
    choose|i: int| 0 <= i < entries.len() && (#[trigger] entries[i]).0 == symbol
}

/// The entries as a map from symbol to value.
pub open spec fn as_map<V>(entries: Seq<(Seq<char>, V)>) -> Map<Seq<char>, V> {
    Map::new(
        |symbol: Seq<char>| has_symbol(entries, symbol),
        |symbol: Seq<char>| entries[place_of(entries, symbol)].1,
    )
}

/// The entries after `value` has been entered as `symbol`: in the place of the value that
/// had the symbol before, or at the end where the symbol is new.
pub open spec fn with_entry<V>(
    entries: Seq<(Seq<char>, V)>,
    symbol: Seq<char>,
    value: V,
) -> Seq<(Seq<char>, V)> {
    if has_symbol(entries, symbol) {
        entries.update(place_of(entries, symbol), (symbol, value))
    } else {
        entries.push((symbol, value))
    }
}

/// Among entries with distinct symbols, the map gives each symbol the value listed with it.
pub proof fn lemma_as_map_at<V>(entries: Seq<(Seq<char>, V)>, i: int)
    requires
        distinct_symbols(entries),
        0 <= i < entries.len(),
    ensures
        has_symbol(entries, entries[i].0),
        place_of(entries, entries[i].0) == i,
        as_map(entries).contains_key(entries[i].0),
        as_map(entries)[entries[i].0] == entries[i].1,
{
    let j = place_of(entries, entries[i].0);
    assert(0 <= j < entries.len() && entries[j].0 == entries[i].0);
    if j < i {
        assert(entries[j].0 != entries[i].0);
    } else if i < j {
        assert(entries[i].0 != entries[j].0);
    }
}

/// Entering a value keeps the symbols distinct and is an insertion into the map.
pub proof fn lemma_with_entry<V>(
    entries: Seq<(Seq<char>, V)>,
    symbol: Seq<char>,
    value: V,
)
    requires
        distinct_symbols(entries),
    ensures
        distinct_symbols(with_entry(entries, symbol, value)),
        as_map(with_entry(entries, symbol, value)) == as_map(entries).insert(symbol, value),
{
    let after = with_entry(entries, symbol, value);
    if has_symbol(entries, symbol) {
        let p = place_of(entries, symbol);
        assert(after.len() == entries.len());
        assert forall|i: int| 0 <= i < after.len() implies (#[trigger] after[i]).0
            == entries[i].0 by {}
        assert forall|i: int, j: int| 0 <= i < j < after.len() implies (#[trigger] after[i]).0 != (
        #[trigger] after[j]).0 by {
            assert(entries[i].0 != entries[j].0);
        }
        assert forall|s: Seq<char>| has_symbol(after, s) == has_symbol(entries, s) by {
            if has_symbol(entries, s) {
                let i = place_of(entries, s);
                assert(after[i].0 == s);
            }
            if has_symbol(after, s) {
                let i = place_of(after, s);
                assert(entries[i].0 == s);
            }
        }
        assert forall|s: Seq<char>| has_symbol(after, s) implies #[trigger] as_map(after)[s]
            == as_map(entries).insert(symbol, value)[s] by {
            let i = place_of(after, s);
            lemma_as_map_at(after, i);
            lemma_as_map_at(entries, i);
        }
        assert(as_map(after) =~= as_map(entries).insert(symbol, value));
    } else {
        let n = entries.len() as int;
        assert forall|i: int, j: int| 0 <= i < j < after.len() implies (#[trigger] after[i]).0 != (
        #[trigger] after[j]).0 by {
            if j < n {
                assert(entries[i].0 != entries[j].0);
            } else {
                assert(entries[i].0 != symbol);
            }
        }
        assert(after[n].0 == symbol);
        assert forall|s: Seq<char>| has_symbol(after, s) == (s == symbol || has_symbol(entries, s)) by {
            if has_symbol(entries, s) {
                let i = place_of(entries, s);
                assert(after[i].0 == s);
            }
            if has_symbol(after, s) {
                let i = place_of(after, s);
                if i < n {
                    assert(entries[i].0 == s);
                }
            }
        }
        assert forall|s: Seq<char>| has_symbol(after, s) implies #[trigger] as_map(after)[s]
            == as_map(entries).insert(symbol, value)[s] by {
            let i = place_of(after, s);
            lemma_as_map_at(after, i);
            if i < n {
                lemma_as_map_at(entries, i);
            }
        }
        assert(as_map(after) =~= as_map(entries).insert(symbol, value));
    }
}

/// Values by their symbols. No symbol occurs twice; a value entered under a symbol that the
/// table holds takes the place of the value before it.
pub struct Table<V: Copy> {
    symbols: Vec<Vec<char>>,
    values: Vec<V>,
}

impl<V: Copy> View for Table<V> {
    type V = Map<Seq<char>, V>;

    /// The values of the table by their symbols.
    closed spec fn view(&self) -> Map<Seq<char>, V> {
        as_map(self.entries())
    }
}

impl<V: Copy> Table<V> {
    #[verifier::type_invariant]
    spec fn well_formed(self) -> bool {
        &&& self.symbols.len() == self.values.len()
        &&& distinct_symbols(self.entries())
    }

    /// The symbols and values of the table, in the order in which the symbols were first
    /// entered.
    pub closed spec fn entries(self) -> Seq<(Seq<char>, V)> {
        Seq::new(self.symbols.len() as nat, |i: int| (self.symbols[i]@, self.values[i]))
    }

    /// The view of a table is the map of its entries.
    pub proof fn lemma_entries(self)
        ensures
            self@ == as_map(self.entries()),
    {
    }

    /// A table without entries.
    pub fn new() -> (r: Self)
        ensures
            r.entries() == Seq::<(Seq<char>, V)>::empty(),
            r@ == Map::<Seq<char>, V>::empty(),
    {
        let r = Table { symbols: Vec::new(), values: Vec::new() };
        assert(r.entries() =~= Seq::<(Seq<char>, V)>::empty());
        assert(r@ =~= Map::<Seq<char>, V>::empty());
        r
    }

    /// The number of entries.
    pub fn len(&self) -> (n: usize)
        ensures
            n == self.entries().len(),
            distinct_symbols(self.entries()),
    {
        proof {
            use_type_invariant(self);
        }
        self.symbols.len()
    }

    /// The symbol at place `i`.
    pub(crate) fn symbol_at(&self, i: usize) -> (r: &Vec<char>)
        requires
            i < self.entries().len(),
        ensures
            r@ == self.entries()[i as int].0,
    {
        proof {
            use_type_invariant(self);
        }
        &self.symbols[i]
    }

    /// The value at place `i`.
    pub(crate) fn value_at(&self, i: usize) -> (r: V)
        requires
            i < self.entries().len(),
        ensures
            r == self.entries()[i as int].1,
    {
        proof {
            use_type_invariant(self);
        }
        self.values[i]
    }

    /// The place of `symbol` among the entries, if the table holds it.
    fn position(&self, symbol: &Vec<char>) -> (r: Option<usize>)
        ensures
            match r {
                Some(i) => i < self.entries().len() && self.entries()[i as int].0 == symbol@
                    && has_symbol(self.entries(), symbol@) && place_of(self.entries(), symbol@)
                    == i,
                None => !has_symbol(self.entries(), symbol@),
            },
    {
        proof {
            use_type_invariant(self);
        }
        let mut i: usize = 0;
        while i < self.symbols.len()
            invariant
                i <= self.symbols.len() == self.values.len(),
                distinct_symbols(self.entries()),
                forall|j: int| 0 <= j < i ==> (#[trigger] self.entries()[j]).0 != symbol@,
            decreases self.symbols.len() - i,
        {
            if same_chars(&self.symbols[i], symbol) {
                proof {
                    lemma_as_map_at(self.entries(), i as int);
                }
                return Some(i);
            }
            i += 1;
        }
        None
    }

    /// The value entered as `symbol`, if there is one.
    pub fn get(&self, symbol: &Vec<char>) -> (r: Option<V>)
        ensures
            r == (if self@.contains_key(symbol@) {
                Some(self@[symbol@])
            } else {
                None
            }),
    {
        proof {
            use_type_invariant(self);
        }
        match self.position(symbol) {
            Some(i) => {
                proof {
                    lemma_as_map_at(self.entries(), i as int);
                }
                Some(self.values[i])
            },
            None => None,
        }
    }

    /// Enters `value` as `symbol`, and returns the value that had the symbol before.
    pub fn insert(&mut self, symbol: Vec<char>, value: V) -> (r: Option<V>)
        ensures
            final(self).entries() == with_entry(old(self).entries(), symbol@, value),
            final(self)@ == old(self)@.insert(symbol@, value),
            r == (if old(self)@.contains_key(symbol@) {
                Some(old(self)@[symbol@])
            } else {
                None
            }),
    {
        proof {
            use_type_invariant(&*self);
            lemma_with_entry(self.entries(), symbol@, value);
        }
        let found = self.position(&symbol);
        let mut taken = Table::new();
        core::mem::swap(self, &mut taken);
        let Table { mut symbols, mut values } = taken;
        let previous = match found {
            Some(i) => {
                proof {
                    lemma_as_map_at(old(self).entries(), i as int);
                }
                let previous = values[i];
                values.set(i, value);
                Some(previous)
            },
            None => {
                symbols.push(symbol);
                values.push(value);
                None
            },
        };
        let ghost after = Seq::new(symbols.len() as nat, |i: int| (symbols[i]@, values[i]));
        assert(after =~= with_entry(old(self).entries(), symbol@, value));
        *self = Table { symbols, values };
        assert(self.entries() =~= after);
        previous
    }
}

} // verus!
