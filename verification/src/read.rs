//! Reads units and values from their notation, such as `kg m/s²` or `30 mL`.
//!
//! A unit expression is a row of terms. A term is the symbol of a unit of the system with
//! an optional whole exponent behind it, written in ASCII or in superscripts; a `/` before a
//! term inverts that term and no other. Terms are separated by spaces, `*` or `·`; a `^`
//! may stand before an exponent and means nothing.

use vstd::prelude::*;
use crate::dimensions::Dimension;
use crate::number::Number;
use crate::superscript::{super_to_num, super_to_num_spec};
use crate::system::UnitSystem;
use crate::text::{
    all_digits, char_is_alphabetic, char_is_numeric, char_is_whitespace, chars_of, digits_value,
    parse_digits, string_of,
};
use crate::units::{lemma_first_power_onto_identity, Unit, UnitError, Value};

verus! {

/// The exponent that `s` denotes: an optional minus sign and at least one ASCII digit, of a
/// value that an `i16` holds. `None` for any other text.
pub open spec fn exponent_of(s: Seq<char>) -> Option<i16> {
    if s.len() > 0 && s[0] == '-' {
        let digits = s.skip(1);
        if digits.len() > 0 && all_digits(digits) && digits_value(digits) <= 0x8000 {
            Some((-digits_value(digits)) as i16)
        } else {
            None
        }
    } else if s.len() > 0 && all_digits(s) && digits_value(s) <= 0x7fff {
        Some(digits_value(s) as i16)
    } else {
        None
    }
}

/// The state of the scanner between two characters.
pub struct Scan<N: Number> {
    /// The symbol of the term that is being read
    pub symbol: Seq<char>,
    /// The exponent of that term, as far as it has been read
    pub exponent: Seq<char>,
    /// Whether the scanner is in the exponent of the term, and not in its symbol
    pub in_exponent: bool,
    /// Whether a `/` has been read since the term before this one ended
    pub inverted: bool,
    /// The product of the terms that have ended
    pub unit: Unit<N>,
}

/// The state of the scanner before the first character.
pub open spec fn start<N: Number>() -> Scan<N> {
    Scan {
        symbol: Seq::empty(),
        exponent: Seq::empty(),
        in_exponent: false,
        inverted: false,
        unit: Unit::identity(),
    }
}

/// The exponent `e` of a term, negated where the term is inverted.
pub open spec fn signed_exponent(e: i16, inverted: bool) -> i16 {
    if inverted {
        0i16.wrapping_sub(e)
    } else {
        e
    }
}

/// The state after the term that is being read has ended: its symbol is looked up, the unit
/// found is raised to the exponent of the term, a missing exponent being 1 and that of an
/// inverted term being negated, and the result is multiplied onto the product.
pub open spec fn close_term<N: Number>(units: Map<Seq<char>, Unit<N>>, st: Scan<N>) -> Result<
    Scan<N>,
    UnitError,
> {
    let exponent = if st.in_exponent {
        exponent_of(st.exponent)
    } else {
        Some(1i16)
    };
    match exponent {
        None => Err(UnitError::MalformedExponent),
        Some(e) => if units.contains_key(st.symbol) {
            Ok(
                Scan {
                    symbol: Seq::empty(),
                    exponent: Seq::empty(),
                    in_exponent: false,
                    inverted: false,
                    unit: st.unit.compose(
                        units[st.symbol].power(signed_exponent(e, st.inverted)),
                    ),
                },
            )
        } else {
            Err(UnitError::UnknownUnit)
        },
    }
}

/// The state after the character `c`, which is a space, a `/`, or a character of a term.
pub open spec fn step<N: Number>(units: Map<Seq<char>, Unit<N>>, st: Scan<N>, c: char) -> Result<
    Scan<N>,
    UnitError,
> {
    if st.symbol.len() == 0 && c == ' ' {
        Ok(st)
    } else if c == '/' {
        Ok(Scan { inverted: true, ..st })
    } else if !st.in_exponent {
        if c == ' ' {
            close_term(units, st)
        } else if char_is_alphabetic(c) {
            Ok(Scan { symbol: st.symbol.push(c), ..st })
        } else if c == '-' || char_is_numeric(c) {
            Ok(Scan { in_exponent: true, exponent: st.exponent.push(c), ..st })
        } else {
            Err(UnitError::UnknownUnit)
        }
    } else {
        if c == '-' || char_is_numeric(c) {
            Ok(Scan { exponent: st.exponent.push(c), ..st })
        } else if char_is_alphabetic(c) || c == ' ' {
            match close_term(units, st) {
                Ok(next) => if c == ' ' {
                    Ok(next)
                } else {
                    Ok(Scan { symbol: seq![c], ..next })
                },
                Err(e) => Err(e),
            }
        } else {
            Err(UnitError::MalformedExponent)
        }
    }
}

/// A space for the signs that separate terms as a space does, `*` and `·`; every other
/// character is itself.
pub open spec fn separated(c: char) -> char {
    if c == '*' || c == '·' {
        ' '
    } else {
        c
    }
}

/// The state after the character `c` of the text: a `/` ends the term before it and inverts
/// the next, a `^` is passed over, a superscript counts as its ASCII character, and a
/// separator as a space.
pub open spec fn feed<N: Number>(units: Map<Seq<char>, Unit<N>>, st: Scan<N>, c: char) -> Result<
    Scan<N>,
    UnitError,
> {
    if c == '/' {
        match step(units, st, ' ') {
            Ok(ended) => step(units, ended, '/'),
            Err(e) => Err(e),
        }
    } else if c == '^' {
        Ok(st)
    } else {
        step(units, st, separated(super_to_num_spec(c)))
    }
}

/// The state after the characters of `text`, read from left to right.
pub open spec fn scan<N: Number>(units: Map<Seq<char>, Unit<N>>, st: Scan<N>, text: Seq<char>) -> Result<
    Scan<N>,
    UnitError,
>
    decreases text.len(),
{
    if text.len() == 0 {
        Ok(st)
    } else {
        match feed(units, st, text[0]) {
            Ok(next) => scan(units, next, text.drop_first()),
            Err(e) => Err(e),
        }
    }
}

/// The unit that `text` denotes among `units`: the product of its terms, once a space behind
/// the text has ended the last of them.
pub open spec fn parse_unit<N: Number>(units: Map<Seq<char>, Unit<N>>, text: Seq<char>) -> Result<
    Unit<N>,
    UnitError,
> {
    match scan(units, start(), text) {
        Ok(st) => match step(units, st, ' ') {
            Ok(end) => Ok(end.unit),
            Err(e) => Err(e),
        },
        Err(e) => Err(e),
    }
}

/// Whether `c` can stand in a symbol that is read back as it is written: a letter that is
/// no superscript and none of the signs of the notation.
pub open spec fn is_symbol_char(c: char) -> bool {
    &&& char_is_alphabetic(c)
    &&& super_to_num_spec(c) == c
    &&& c != ' ' && c != '/' && c != '^' && c != '*' && c != '·'
}

/// Whether `s` is a symbol that is read back as it is written: at least one character, and
/// letters only.
pub open spec fn is_plain_symbol(s: Seq<char>) -> bool {
    s.len() > 0 && forall|i: int| 0 <= i < s.len() ==> is_symbol_char(#[trigger] s[i])
}

/// While the scanner is in a symbol, letters are added to the symbol and change nothing
/// else.
pub proof fn lemma_scan_letters<N: Number>(
    units: Map<Seq<char>, Unit<N>>,
    st: Scan<N>,
    text: Seq<char>,
)
    requires
        !st.in_exponent,
        forall|i: int| 0 <= i < text.len() ==> is_symbol_char(#[trigger] text[i]),
    ensures
        scan(units, st, text) == Ok::<Scan<N>, UnitError>(
            Scan { symbol: st.symbol + text, ..st },
        ),
    decreases text.len(),
{
    if text.len() == 0 {
        assert(st.symbol + text =~= st.symbol);
    } else {
        let c = text[0];
        assert(is_symbol_char(c));
        let next = Scan { symbol: st.symbol.push(c), ..st };
        assert(feed(units, st, c) == Ok::<Scan<N>, UnitError>(next));
        assert forall|i: int| 0 <= i < text.drop_first().len() implies is_symbol_char(
            #[trigger] text.drop_first()[i],
        ) by {
            assert(text.drop_first()[i] == text[i + 1]);
        }
        lemma_scan_letters(units, next, text.drop_first());
        assert(next.symbol + text.drop_first() =~= st.symbol + text);
    }
}

/// The symbol of a unit of the system, read as a unit expression, is that unit raised to
/// the power one and multiplied onto the unit of a dimensionless quantity.
pub proof fn lemma_symbol_reads_as_first_power<N: Number>(
    units: Map<Seq<char>, Unit<N>>,
    symbol: Seq<char>,
)
    requires
        units.contains_key(symbol),
        is_plain_symbol(symbol),
    ensures
        parse_unit(units, symbol) == Ok::<Unit<N>, UnitError>(
            Unit::<N>::identity().compose(units[symbol].power(1)),
        ),
{
    lemma_scan_letters(units, start::<N>(), symbol);
    assert(Seq::<char>::empty() + symbol =~= symbol);
}

/// Round trip: the symbol of a unit of the system, read as a unit expression, is that unit,
/// wherever the factor of the unit to the power one is the factor, and one times the factor
/// is the factor.
pub proof fn lemma_symbol_round_trip<N: Number>(units: Map<Seq<char>, Unit<N>>, symbol: Seq<char>)
    requires
        units.contains_key(symbol),
        is_plain_symbol(symbol),
        units[symbol].factor.spec_powi(1) == units[symbol].factor,
        N::spec_one().spec_times(units[symbol].factor) == units[symbol].factor,
    ensures
        parse_unit(units, symbol) == Ok::<Unit<N>, UnitError>(units[symbol]),
{
    lemma_symbol_reads_as_first_power(units, symbol);
    lemma_first_power_onto_identity(units[symbol]);
}

/// A superscript in a unit expression reads as its ASCII character does, and a `^` reads as
/// nothing: the scanner moves alike over a character and over its ASCII form.
pub proof fn lemma_feed_ignores_notation<N: Number>(
    units: Map<Seq<char>, Unit<N>>,
    st: Scan<N>,
    c: char,
)
    ensures
        feed(units, st, c) == feed(units, st, super_to_num_spec(c)),
        feed(units, st, '^') == Ok::<Scan<N>, UnitError>(st),
        feed(units, st, '*') == feed(units, st, ' '),
        feed(units, st, '·') == feed(units, st, ' '),
{
}

/// Superscript and ASCII notation are equivalent: a unit expression reads as the same
/// expression with every superscript replaced by its ASCII character.
pub proof fn lemma_superscripts_read_as_ascii<N: Number>(
    units: Map<Seq<char>, Unit<N>>,
    text: Seq<char>,
)
    ensures
        parse_unit(units, text) == parse_unit(
            units,
            text.map_values(|c: char| super_to_num_spec(c)),
        ),
{
    lemma_scan_superscripts(units, start::<N>(), text);
}

proof fn lemma_scan_superscripts<N: Number>(
    units: Map<Seq<char>, Unit<N>>,
    st: Scan<N>,
    text: Seq<char>,
)
    ensures
        scan(units, st, text) == scan(units, st, text.map_values(|c: char| super_to_num_spec(c))),
    decreases text.len(),
{
    let plain = text.map_values(|c: char| super_to_num_spec(c));
    if text.len() > 0 {
        lemma_feed_ignores_notation(units, st, text[0]);
        assert(plain[0] == super_to_num_spec(text[0]));
        assert(plain.drop_first() =~= text.drop_first().map_values(
            |c: char| super_to_num_spec(c),
        ));
        match feed(units, st, text[0]) {
            Ok(next) => lemma_scan_superscripts(units, next, text.drop_first()),
            Err(_) => {},
        }
    }
}

/// Reads an exponent: an optional minus sign and ASCII digits.
pub fn parse_exponent(text: &Vec<char>) -> (r: Option<i16>)
    ensures
        r == exponent_of(text@),
{
    if text.len() == 0 {
        return None;
    }
    if text[0] == '-' {
        match parse_digits(text, 1, 0x8000) {
            Some(value) => Some((-(value as i32)) as i16),
            None => None,
        }
    } else {
        assert(text@.skip(0) =~= text@);
        match parse_digits(text, 0, 0x7fff) {
            Some(value) => Some(value as i16),
            None => None,
        }
    }
}

/// The scanner's state as it is held while a text is read.
struct Scanner<N: Number> {
    symbol: Vec<char>,
    exponent: Vec<char>,
    in_exponent: bool,
    inverted: bool,
    unit: Unit<N>,
}

impl<N: Number> View for Scanner<N> {
    type V = Scan<N>;

    closed spec fn view(&self) -> Scan<N> {
        Scan {
            symbol: self.symbol@,
            exponent: self.exponent@,
            in_exponent: self.in_exponent,
            inverted: self.inverted,
            unit: self.unit,
        }
    }
}

/// The outcome of a move of the scanner, as a state of the model.
spec fn viewed<N: Number>(r: Result<Scanner<N>, UnitError>) -> Result<Scan<N>, UnitError> {
    match r {
        Ok(st) => Ok(st@),
        Err(e) => Err(e),
    }
}

/// Ends the term that is being read and multiplies its unit onto the product.
fn end_term<N: Number>(sys: &UnitSystem<N>, st: Scanner<N>) -> (r: Result<Scanner<N>, UnitError>)
    ensures
        viewed(r) == close_term(sys@, st@),
{
    let exponent: i16 = if st.in_exponent {
        match parse_exponent(&st.exponent) {
            Some(e) => e,
            None => { return Err(UnitError::MalformedExponent); },
        }
    } else {
        1
    };
    let found = match sys.lookup(&st.symbol) {
        Some(found) => found,
        None => { return Err(UnitError::UnknownUnit); },
    };
    let signed: i16 = if st.inverted {
        0i16.wrapping_sub(exponent)
    } else {
        exponent
    };
    Ok(
        Scanner {
            symbol: Vec::new(),
            exponent: Vec::new(),
            in_exponent: false,
            inverted: false,
            unit: st.unit + found * signed,
        },
    )
}

/// Moves the scanner over one character that is a space, a `/` or a character of a term.
fn advance<N: Number>(sys: &UnitSystem<N>, st: Scanner<N>, c: char) -> (r: Result<
    Scanner<N>,
    UnitError,
>)
    ensures
        viewed(r) == step(sys@, st@, c),
{
    let mut st = st;
    if st.symbol.len() == 0 && c == ' ' {
        Ok(st)
    } else if c == '/' {
        st.inverted = true;
        Ok(st)
    } else if !st.in_exponent {
        if c == ' ' {
            end_term(sys, st)
        } else if c.is_alphabetic() {
            st.symbol.push(c);
            Ok(st)
        } else if c == '-' || c.is_numeric() {
            st.in_exponent = true;
            st.exponent.push(c);
            Ok(st)
        } else {
            Err(UnitError::UnknownUnit)
        }
    } else {
        if c == '-' || c.is_numeric() {
            st.exponent.push(c);
            Ok(st)
        } else if c.is_alphabetic() || c == ' ' {
            match end_term(sys, st) {
                Ok(next) => {
                    let mut next = next;
                    if c != ' ' {
                        next.symbol.push(c);
                        assert(next.symbol@ =~= seq![c]);
                    }
                    Ok(next)
                },
                Err(e) => Err(e),
            }
        } else {
            Err(UnitError::MalformedExponent)
        }
    }
}

/// Moves the scanner over one character of the text.
fn take_char<N: Number>(sys: &UnitSystem<N>, st: Scanner<N>, c: char) -> (r: Result<
    Scanner<N>,
    UnitError,
>)
    ensures
        viewed(r) == feed(sys@, st@, c),
{
    if c == '/' {
        match advance(sys, st, ' ') {
            Ok(ended) => advance(sys, ended, '/'),
            Err(e) => Err(e),
        }
    } else if c == '^' {
        Ok(st)
    } else {
        let plain = super_to_num(c);
        let c = if plain == '*' || plain == '·' {
            ' '
        } else {
            plain
        };
        advance(sys, st, c)
    }
}

/// Reads the unit expression that starts at place `from` of `chars`.
pub fn parse_unit_chars<N: Number>(sys: &UnitSystem<N>, chars: &Vec<char>, from: usize) -> (r:
    Result<Unit<N>, UnitError>)
    requires
        from <= chars.len(),
    ensures
        r == parse_unit(sys@, chars@.skip(from as int)),
{
    let mut st: Scanner<N> = Scanner {
        symbol: Vec::new(),
        exponent: Vec::new(),
        in_exponent: false,
        inverted: false,
        unit: Unit::new(Dimension::nul()),
    };
    let mut i: usize = from;
    while i < chars.len()
        invariant
            from <= i <= chars.len(),
            scan(sys@, start(), chars@.skip(from as int)) == scan(sys@, st@, chars@.skip(i as int)),
        decreases chars.len() - i,
    {
        proof {
            assert(chars@.skip(i as int)[0] == chars@[i as int]);
            assert(chars@.skip(i as int).drop_first() =~= chars@.skip(i + 1));
        }
        st = match take_char(sys, st, chars[i]) {
            Ok(next) => next,
            Err(e) => { return Err(e); },
        };
        i += 1;
    }
    match advance(sys, st, ' ') {
        Ok(end) => Ok(end.unit),
        Err(e) => Err(e),
    }
}

/// Reads a unit expression such as `kg m/s²`, and says what is wrong with one that cannot be
/// read: a symbol that the system does not hold, or a character that no symbol can hold, is
/// an unknown unit; an exponent that is no whole number, or too large, or that is followed by
/// a character that neither continues nor ends it, is a malformed exponent.
pub fn parse_unit_expression<N: Number>(sys: &UnitSystem<N>, s: &str) -> (r: Result<
    Unit<N>,
    UnitError,
>)
    ensures
        r == parse_unit(sys@, s@),
{
    let chars = chars_of(s);
    assert(chars@.skip(0) =~= chars@);
    parse_unit_chars(sys, &chars, 0)
}

/// Returns a composite unit from a string, or `None` where the string cannot be read.
pub fn unit_from_str<N: Number>(sys: &UnitSystem<N>, s: &str) -> (r: Option<Unit<N>>)
    ensures
        r == (match parse_unit(sys@, s@) {
            Ok(unit) => Some(unit),
            Err(_) => None,
        }),
{
    match parse_unit_expression(sys, s) {
        Ok(unit) => Some(unit),
        Err(_) => None,
    }
}

/// The place of the first white space in `text`, or the length of `text` if it has none.
pub open spec fn first_whitespace(text: Seq<char>) -> int
    decreases text.len(),
{
    if text.len() == 0 || char_is_whitespace(text[0]) {
        0
    } else {
        1 + first_whitespace(text.drop_first())
    }
}

/// The value that `text` denotes among `units`: the number before the first white space,
/// in the unit that the rest of the text denotes.
pub open spec fn parse_value<N: Number>(units: Map<Seq<char>, Unit<N>>, text: Seq<char>) -> Result<
    Value<N>,
    UnitError,
> {
    let at = first_whitespace(text);
    match N::spec_parse(text.take(at)) {
        Some(magnitude) => match parse_unit(units, text.skip(at)) {
            Ok(unit) => Ok(Value(magnitude, unit)),
            Err(e) => Err(e),
        },
        None => Err(UnitError::MalformedValue),
    }
}

/// Reads a value such as `30 mL`: a number, then white space and a unit expression. Says
/// what is wrong with one that cannot be read: a text that does not start with a number is a
/// malformed value; the rest is as for a unit expression.
pub fn parse_value_expression<N: Number>(sys: &UnitSystem<N>, s: &str) -> (r: Result<
    Value<N>,
    UnitError,
>)
    ensures
        r == parse_value(sys@, s@),
{
    let chars = chars_of(s);
    parse_value_chars(sys, &chars)
}

/// Reads the value that the characters `chars` denote.
pub fn parse_value_chars<N: Number>(sys: &UnitSystem<N>, chars: &Vec<char>) -> (r: Result<
    Value<N>,
    UnitError,
>)
    ensures
        r == parse_value(sys@, chars@),
{
    let mut at: usize = 0;
    assert(chars@.skip(0) =~= chars@);
    while at < chars.len() && !chars[at].is_whitespace()
        invariant
            at <= chars.len(),
            first_whitespace(chars@) == at + first_whitespace(chars@.skip(at as int)),
        decreases chars.len() - at,
    {
        proof {
            assert(chars@.skip(at as int)[0] == chars@[at as int]);
            assert(chars@.skip(at as int).drop_first() =~= chars@.skip(at + 1));
        }
        at += 1;
    }
    proof {
        if at < chars.len() {
            assert(chars@.skip(at as int)[0] == chars@[at as int]);
        }
    }
    let mut number: Vec<char> = Vec::new();
    let mut k: usize = 0;
    while k < at
        invariant
            k <= at <= chars.len(),
            number@ == chars@.take(k as int),
        decreases at - k,
    {
        number.push(chars[k]);
        k += 1;
        assert(number@ =~= chars@.take(k as int));
    }
    let number = string_of(&number);
    let magnitude: N = match N::parse(number.as_str()) {
        Some(magnitude) => magnitude,
        None => { return Err(UnitError::MalformedValue); },
    };
    match parse_unit_chars(sys, chars, at) {
        Ok(unit) => Ok(Value(magnitude, unit)),
        Err(e) => Err(e),
    }
}

/// Returns a value from a string, or `None` where the string cannot be read.
pub fn value_from_str<N: Number>(sys: &UnitSystem<N>, s: &str) -> (r: Option<Value<N>>)
    ensures
        r == (match parse_value(sys@, s@) {
            Ok(value) => Some(value),
            Err(_) => None,
        }),
{
    match parse_value_expression(sys, s) {
        Ok(value) => Some(value),
        Err(_) => None,
    }
}

impl<N: Number> UnitSystem<N> {
    /// Returns a composite unit from a string
    ///
    /// E.g `"m²"` should return a `Unit` for m, if it exists, squared
    pub fn unit_from_str(&self, s: &str) -> (r: Option<Unit<N>>)
        ensures
            r == (match parse_unit(self@, s@) {
                Ok(unit) => Some(unit),
                Err(_) => None,
            }),
    {
        unit_from_str(self, s)
    }

    /// Returns a value with the given composite unit from a string if the units exist
    pub fn val(&self, val: N, unit_str: &str) -> (r: Option<Value<N>>)
        ensures
            r == (match parse_unit(self@, unit_str@) {
                Ok(unit) => Some(Value(val, unit)),
                Err(_) => None,
            }),
    {
        match self.unit_from_str(unit_str) {
            Some(unit) => Some(Value(val, unit)),
            None => None,
        }
    }

    /// Returns a value from a string
    pub fn val_s(&self, value: &str) -> (r: Option<Value<N>>)
        ensures
            r == (match parse_value(self@, value@) {
                Ok(value) => Some(value),
                Err(_) => None,
            }),
    {
        value_from_str(self, value)
    }

    /// Casts a `Value` to the one given
    ///
    /// `unit` may be composite. It must be readable and have the dimension of `val`.
    pub fn as_(&self, val: Value<N>, unit: &str) -> (r: Value<N>)
        requires
            parse_unit(self@, unit@) is Ok,
            parse_unit(self@, unit@)->Ok_0.dimension == val.1.dimension,
        ensures
            r == val.converted(parse_unit(self@, unit@)->Ok_0),
    {
        match self.unit_from_str(unit) {
            Some(target) => self.cast(val, &target),
            None => val,
        }
    }

    /// Casts a `Value` to the one given
    ///
    /// `unit` must have the dimension of `val`.
    pub fn cast(&self, val: Value<N>, unit: &Unit<N>) -> (r: Value<N>)
        requires
            val.1.dimension == unit.dimension,
        ensures
            r == val.converted(*unit),
    {
        Value(val.0.times(val.1.factor.over(unit.factor)), *unit)
    }

    /// Casts a `Value` to the given unit, or says that their dimensions differ.
    pub fn checked_cast(&self, val: Value<N>, unit: &Unit<N>) -> (r: Result<Value<N>, UnitError>)
        ensures
            val.1.dimension == unit.dimension ==> r == Ok::<Value<N>, UnitError>(
                val.converted(*unit),
            ),
            val.1.dimension != unit.dimension ==> r == Err::<Value<N>, UnitError>(
                UnitError::DimensionMismatch,
            ),
    {
        if val.1.dimension == unit.dimension {
            Ok(self.cast(val, unit))
        } else {
            Err(UnitError::DimensionMismatch)
        }
    }
}

} // verus!
