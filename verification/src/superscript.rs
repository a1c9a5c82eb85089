//! The mapping between ASCII digits and the minus sign and their superscript glyphs.

use vstd::prelude::*;
use crate::text::{chars_of, decimal, push_decimal, string_of};

verus! {

/// The superscript glyph of an ASCII digit or minus sign; every other character is itself.
pub open spec fn num_to_super_spec(c: char) -> char {
    match c {
        '-' => '⁻',
        '0' => '⁰',
        '1' => '¹',
        '2' => '²',
        '3' => '³',
        '4' => '⁴',
        '5' => '⁵',
        '6' => '⁶',
        '7' => '⁷',
        '8' => '⁸',
        '9' => '⁹',
        c => c,
    }
}

/// The ASCII digit or minus sign of a superscript glyph; every other character is itself.
pub open spec fn super_to_num_spec(c: char) -> char {
    match c {
        '⁻' => '-',
        '⁰' => '0',
        '¹' => '1',
        '²' => '2',
        '³' => '3',
        '⁴' => '4',
        '⁵' => '5',
        '⁶' => '6',
        '⁷' => '7',
        '⁸' => '8',
        '⁹' => '9',
        c => c,
    }
}

/// Whether `c` is one of the eleven superscript glyphs.
pub open spec fn is_superscript(c: char) -> bool {
    c == '⁻' || c == '⁰' || c == '¹' || c == '²' || c == '³' || c == '⁴' || c == '⁵' || c == '⁶'
        || c == '⁷' || c == '⁸' || c == '⁹'
}

/// Whether `c` is an ASCII digit or the ASCII minus sign.
pub open spec fn is_plain_exponent_char(c: char) -> bool {
    c == '-' || ('0' <= c && c <= '9')
}

/// The two mappings undo each other on the characters that they change: a digit or minus
/// sign comes back from its superscript, and a superscript from its digit or minus sign.
pub proof fn lemma_superscripts_are_a_bijection(c: char)
    ensures
        is_plain_exponent_char(c) ==> is_superscript(num_to_super_spec(c)) && super_to_num_spec(
            num_to_super_spec(c),
        ) == c,
        is_superscript(c) ==> is_plain_exponent_char(super_to_num_spec(c)) && num_to_super_spec(
            super_to_num_spec(c),
        ) == c,
        !is_plain_exponent_char(c) ==> num_to_super_spec(c) == c,
        !is_superscript(c) ==> super_to_num_spec(c) == c,
{
}

pub fn num_to_super(c: char) -> (r: char)
    ensures
        r == num_to_super_spec(c),
{
    match c {
        '-' => '⁻',
        '0' => '⁰',
        '1' => '¹',
        '2' => '²',
        '3' => '³',
        '4' => '⁴',
        '5' => '⁵',
        '6' => '⁶',
        '7' => '⁷',
        '8' => '⁸',
        '9' => '⁹',
        c => c,
    }
}

pub fn super_to_num(c: char) -> (r: char)
    ensures
        r == super_to_num_spec(c),
{
    match c {
        '⁻' => '-',
        '⁰' => '0',
        '¹' => '1',
        '²' => '2',
        '³' => '3',
        '⁴' => '4',
        '⁵' => '5',
        '⁶' => '6',
        '⁷' => '7',
        '⁸' => '8',
        '⁹' => '9',
        c => c,
    }
}

/// The whole number `n` written in superscript glyphs.
pub open spec fn superscript_of(n: int) -> Seq<char> {
    decimal(n).map_values(|c: char| num_to_super_spec(c))
}

/// What a factor of a unit or of a dimension looks like: nothing for the exponent zero, else
/// the label with the exponent behind it in superscript glyphs.
pub open spec fn power_text(label: Seq<char>, exponent: i16) -> Seq<char> {
    if exponent == 0 {
        Seq::empty()
    } else {
        label + superscript_of(exponent as int)
    }
}

/// Appends `label` with `exponent` in superscript glyphs to `out`, unless the exponent is
/// zero.
pub fn push_power(out: &mut Vec<char>, label: &str, exponent: i16)
    ensures
        final(out)@ == old(out)@ + power_text(label@, exponent),
{
    if exponent != 0 {
        let mut digits: Vec<char> = Vec::new();
        push_decimal(&mut digits, exponent);
        assert(digits@ =~= decimal(exponent as int));
        crate::text::push_str(out, label);
        let ghost labelled = out@;
        let mut i: usize = 0;
        while i < digits.len()
            invariant
                i <= digits.len(),
                out@ == labelled + digits@.take(i as int).map_values(
                    |c: char| num_to_super_spec(c),
                ),
            decreases digits.len() - i,
        {
            out.push(num_to_super(digits[i]));
            i += 1;
            assert(out@ =~= labelled + digits@.take(i as int).map_values(
                |c: char| num_to_super_spec(c),
            ));
        }
        assert(digits@.take(i as int) =~= digits@);
        assert(out@ =~= old(out)@ + power_text(label@, exponent));
    } else {
        assert(out@ =~= old(out)@ + power_text(label@, exponent));
    }
}

/// Replaces every ASCII digit and minus sign of `src` by its superscript glyph.
pub fn to_superscript(src: &str) -> (r: String)
    ensures
        r@ == src@.map_values(|c: char| num_to_super_spec(c)),
{
    let chars = chars_of(src);
    let mut out: Vec<char> = Vec::new();
    let mut i: usize = 0;
    while i < chars.len()
        invariant
            i <= chars.len(),
            out@ == chars@.take(i as int).map_values(|c: char| num_to_super_spec(c)),
        decreases chars.len() - i,
    {
        out.push(num_to_super(chars[i]));
        i += 1;
        assert(out@ =~= chars@.take(i as int).map_values(|c: char| num_to_super_spec(c)));
    }
    assert(chars@.take(i as int) =~= chars@);
    string_of(&out)
}

/// Replaces every superscript glyph of `src` by its ASCII digit or minus sign.
pub fn superscript_to_number(src: &str) -> (r: String)
    ensures
        r@ == src@.map_values(|c: char| super_to_num_spec(c)),
{
    let chars = chars_of(src);
    let mut out: Vec<char> = Vec::new();
    let mut i: usize = 0;
    while i < chars.len()
        invariant
            i <= chars.len(),
            out@ == chars@.take(i as int).map_values(|c: char| super_to_num_spec(c)),
        decreases chars.len() - i,
    {
        out.push(super_to_num(chars[i]));
        i += 1;
        assert(out@ =~= chars@.take(i as int).map_values(|c: char| super_to_num_spec(c)));
    }
    assert(chars@.take(i as int) =~= chars@);
    string_of(&out)
}

} // verus!
