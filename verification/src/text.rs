//! Conversions between strings and vectors of characters.

use vstd::prelude::*;

verus! {

/// `String::push` appends one character to the end of the string.
pub assume_specification[ String::push ](s: &mut String, c: char)
    ensures
        final(s)@ == old(s)@.push(c),
;

/// Whether `char::is_whitespace` holds of `c`: whether `c` has the Unicode property White_Space.
pub uninterp spec fn char_is_whitespace(c: char) -> bool;

/// Whether `char::is_alphabetic` holds of `c`: whether `c` has the Unicode property Alphabetic.
pub uninterp spec fn char_is_alphabetic(c: char) -> bool;

/// Whether `char::is_numeric` holds of `c`: whether `c` is in one of the Unicode number categories.
pub uninterp spec fn char_is_numeric(c: char) -> bool;

/// `char::is_whitespace` looks `c` up in a fixed table of Unicode, so its answer depends on `c` alone.
pub assume_specification[ char::is_whitespace ](c: char) -> (r: bool)
    ensures
        r == char_is_whitespace(c),
;

/// `char::is_alphabetic` looks `c` up in a fixed table of Unicode, so its answer depends on `c` alone.
pub assume_specification[ char::is_alphabetic ](c: char) -> (r: bool)
    ensures
        r == char_is_alphabetic(c),
;

/// `char::is_numeric` looks `c` up in a fixed table of Unicode, so its answer depends on `c` alone.
pub assume_specification[ char::is_numeric ](c: char) -> (r: bool)
    ensures
        r == char_is_numeric(c),
;

/// The characters of `s`, in order.
pub fn chars_of(s: &str) -> (v: Vec<char>)
    ensures
        v@ == s@,
{
    let mut v: Vec<char> = Vec::new();
    for c in it: s.chars()
        invariant
            it.seq() == s@,
            v@ == it.seq().take(it.index()),
    {
        v.push(c);
        assert(v@ =~= it.seq().take(it.index() + 1));
    }
    assert(v@ =~= s@);
    v
}

/// The string made of the characters of `v`, in order.
pub fn string_of(v: &Vec<char>) -> (s: String)
    ensures
        s@ == v@,
{
    let mut s = String::new();
    let mut i: usize = 0;
    while i < v.len()
        invariant
            i <= v.len(),
            s@ == v@.take(i as int),
        decreases v.len() - i,
    {
        s.push(v[i]);
        i += 1;
        assert(s@ =~= v@.take(i as int));
    }
    assert(v@.take(i as int) =~= v@);
    s
}

/// Whether `a` and `b` hold the same characters.
pub fn same_chars(a: &Vec<char>, b: &Vec<char>) -> (r: bool)
    ensures
        r == (a@ == b@),
{
    if a.len() != b.len() {
        return false;
    }
    let mut i: usize = 0;
    while i < a.len()
        invariant
            i <= a.len() == b.len(),
            forall|j: int| 0 <= j < i ==> a@[j] == b@[j],
        decreases a.len() - i,
    {
        if a[i] != b[i] {
            return false;
        }
        i += 1;
    }
    assert(a@ =~= b@);
    true
}

/// The words of `s` behind the word `current` that is being read: a white space ends the
/// word, and every other character is added to it.
pub open spec fn words_from(s: Seq<char>, current: Seq<char>) -> Seq<Seq<char>>
    decreases s.len(),
{
    if s.len() == 0 {
        if current.len() == 0 {
            Seq::empty()
        } else {
            seq![current]
        }
    } else if char_is_whitespace(s[0]) {
        if current.len() == 0 {
            words_from(s.drop_first(), current)
        } else {
            seq![current] + words_from(s.drop_first(), Seq::empty())
        }
    } else {
        words_from(s.drop_first(), current.push(s[0]))
    }
}

/// The words of `s`: its longest parts without white space, in order.
pub open spec fn words_of(s: Seq<char>) -> Seq<Seq<char>> {
    words_from(s, Seq::empty())
}

/// The words `words` in a row, with one space between each two.
pub open spec fn joined(words: Seq<Seq<char>>) -> Seq<char>
    decreases words.len(),
{
    if words.len() == 0 {
        Seq::empty()
    } else if words.len() == 1 {
        words[0]
    } else {
        joined(words.drop_last()) + seq![' '] + words.last()
    }
}

/// The words of `text` as their characters.
pub open spec fn word_views(words: Seq<Vec<char>>) -> Seq<Seq<char>> {
    words.map_values(|w: Vec<char>| w@)
}

/// Splits `text` into its words.
pub fn split_words(text: &Vec<char>) -> (r: Vec<Vec<char>>)
    ensures
        word_views(r@) == words_of(text@),
{
    let mut words: Vec<Vec<char>> = Vec::new();
    let mut current: Vec<char> = Vec::new();
    let mut i: usize = 0;
    assert(text@.skip(0) =~= text@);
    assert(word_views(words@) + words_from(text@, current@) =~= words_of(text@));
    while i < text.len()
        invariant
            i <= text.len(),
            words_of(text@) == word_views(words@) + words_from(text@.skip(i as int), current@),
        decreases text.len() - i,
    {
        let c = text[i];
        proof {
            assert(text@.skip(i as int)[0] == c);
            assert(text@.skip(i as int).drop_first() =~= text@.skip(i + 1));
        }
        if c.is_whitespace() {
            if current.len() > 0 {
                let ghost before = words@;
                let ghost word = current@;
                words.push(current);
                current = Vec::new();
                proof {
                    assert(word_views(words@) =~= word_views(before).push(word));
                    assert(word_views(words@) + words_from(text@.skip(i + 1), current@)
                        =~= word_views(before) + (seq![word] + words_from(
                        text@.skip(i + 1),
                        Seq::empty(),
                    )));
                }
            }
        } else {
            current.push(c);
        }
        i += 1;
    }
    if current.len() > 0 {
        let ghost before = words@;
        let ghost word = current@;
        words.push(current);
        proof {
            assert(word_views(words@) =~= word_views(before).push(word));
            assert(word_views(words@) =~= word_views(before) + seq![word]);
        }
    } else {
        assert(word_views(words@) + Seq::<Seq<char>>::empty() =~= word_views(words@));
    }
    words
}

/// Joins the words of `words` from place `from` on, with one space between each two.
pub fn join_words(words: &Vec<Vec<char>>, from: usize) -> (r: Vec<char>)
    requires
        from <= words.len(),
    ensures
        r@ == joined(word_views(words@).skip(from as int)),
{
    let ghost rest = word_views(words@).skip(from as int);
    let mut out: Vec<char> = Vec::new();
    let mut i: usize = from;
    assert(rest.take(0) =~= Seq::<Seq<char>>::empty());
    assert(out@ =~= joined(rest.take(0)));
    while i < words.len()
        invariant
            from <= i <= words.len(),
            rest == word_views(words@).skip(from as int),
            out@ == joined(rest.take(i - from)),
        decreases words.len() - i,
    {
        let ghost head = out@;
        if i > from {
            out.push(' ');
        }
        let word = &words[i];
        let ghost spaced = out@;
        let mut k: usize = 0;
        assert(out@ =~= spaced + word@.take(0));
        while k < word.len()
            invariant
                k <= word.len(),
                out@ == spaced + word@.take(k as int),
            decreases word.len() - k,
        {
            out.push(word[k]);
            k += 1;
            assert(out@ =~= spaced + word@.take(k as int));
        }
        proof {
            assert(word@.take(k as int) =~= word@);
            let next = rest.take(i + 1 - from);
            assert(next.last() == word@);
            assert(next.drop_last() =~= rest.take(i - from));
            if i > from {
                assert(out@ =~= joined(next.drop_last()) + seq![' '] + next.last());
            } else {
                assert(out@ =~= next[0]);
            }
        }
        i += 1;
    }
    assert(rest.take(words.len() - from) =~= rest);
    out
}

/// The ASCII digit of the number `d`, which is less than ten.
pub open spec fn digit_char(d: int) -> char {
    ('0' as int + d) as char
}

/// The decimal digits of `n`, the most significant first, without leading zeros.
pub open spec fn digits_of(n: nat) -> Seq<char>
    decreases n,
{
    if n < 10 {
        seq![digit_char(n as int)]
    } else {
        digits_of(n / 10).push(digit_char((n % 10) as int))
    }
}

/// The whole number `n` written in decimal, with a minus sign before a negative one.
pub open spec fn decimal(n: int) -> Seq<char> {
    if n < 0 {
        seq!['-'] + digits_of((-n) as nat)
    } else {
        digits_of(n as nat)
    }
}

/// Appends the decimal digits of `n` to `out`.
fn push_digits(out: &mut Vec<char>, n: u32)
    ensures
        final(out)@ == old(out)@ + digits_of(n as nat),
    decreases n,
{
    if n >= 10 {
        push_digits(out, n / 10);
    }
    let d = match n % 10 {
        0 => '0',
        1 => '1',
        2 => '2',
        3 => '3',
        4 => '4',
        5 => '5',
        6 => '6',
        7 => '7',
        8 => '8',
        _ => '9',
    };
    assert(d == digit_char((n % 10) as int));
    out.push(d);
    proof {
        if n >= 10 {
            assert(out@ =~= old(out)@ + digits_of((n / 10) as nat).push(d));
        } else {
            assert(out@ =~= old(out)@ + seq![d]);
        }
    }
}

/// Appends the whole number `n`, written in decimal, to `out`.
pub fn push_decimal(out: &mut Vec<char>, n: i16)
    ensures
        final(out)@ == old(out)@ + decimal(n as int),
{
    let wide: i32 = n as i32;
    if wide < 0 {
        out.push('-');
        push_digits(out, (-wide) as u32);
        assert(out@ =~= old(out)@ + decimal(n as int));
    } else {
        push_digits(out, wide as u32);
    }
}

/// Appends the characters of `s` to `out`.
pub fn push_str(out: &mut Vec<char>, s: &str)
    ensures
        final(out)@ == old(out)@ + s@,
{
    let chars = chars_of(s);
    let mut i: usize = 0;
    assert(out@ =~= old(out)@ + chars@.take(0));
    while i < chars.len()
        invariant
            i <= chars.len(),
            out@ == old(out)@ + chars@.take(i as int),
        decreases chars.len() - i,
    {
        out.push(chars[i]);
        i += 1;
        assert(out@ =~= old(out)@ + chars@.take(i as int));
    }
    assert(chars@.take(i as int) =~= chars@);
}

/// The number that a row of ASCII digits denotes; of a row with other characters, nothing
/// is said.
pub open spec fn digits_value(s: Seq<char>) -> int
    decreases s.len(),
{
    if s.len() == 0 {
        0
    } else {
        digits_value(s.drop_last()) * 10 + (s.last() as int - '0' as int)
    }
}

/// Whether every character of `s` is an ASCII digit.
pub open spec fn all_digits(s: Seq<char>) -> bool {
    forall|i: int| 0 <= i < s.len() ==> '0' <= #[trigger] s[i] <= '9'
}

/// The value of the ASCII digit `c`.
fn digit(c: char) -> (r: Option<u8>)
    ensures
        match r {
            Some(d) => '0' <= c <= '9' && d == c as int - '0' as int,
            None => !('0' <= c <= '9'),
        },
{
    match c {
        '0' => Some(0),
        '1' => Some(1),
        '2' => Some(2),
        '3' => Some(3),
        '4' => Some(4),
        '5' => Some(5),
        '6' => Some(6),
        '7' => Some(7),
        '8' => Some(8),
        '9' => Some(9),
        _ => None,
    }
}

/// A row of digits denotes no negative number.
pub proof fn lemma_digits_nonnegative(s: Seq<char>)
    requires
        all_digits(s),
    ensures
        0 <= digits_value(s),
    decreases s.len(),
{
    if s.len() > 0 {
        assert(all_digits(s.drop_last())) by {
            assert forall|i: int| 0 <= i < s.drop_last().len() implies '0'
                <= #[trigger] s.drop_last()[i] <= '9' by {
                assert(s.drop_last()[i] == s[i]);
            }
        }
        lemma_digits_nonnegative(s.drop_last());
    }
}

/// A row of digits denotes at least what any of its beginnings denotes.
pub proof fn lemma_digits_grow(s: Seq<char>, k: int)
    requires
        all_digits(s),
        0 <= k <= s.len(),
    ensures
        0 <= digits_value(s.take(k)) <= digits_value(s),
    decreases s.len() - k,
{
    if k == s.len() {
        assert(s.take(k) =~= s);
        lemma_digits_nonnegative(s);
    } else {
        lemma_digits_grow(s, k + 1);
        assert(s.take(k + 1).drop_last() =~= s.take(k));
        assert(s.take(k + 1).last() == s[k]);
        assert(all_digits(s.take(k))) by {
            assert forall|i: int| 0 <= i < k implies '0' <= #[trigger] s.take(k)[i] <= '9' by {
                assert(s.take(k)[i] == s[i]);
            }
        }
        lemma_digits_nonnegative(s.take(k));
    }
}

/// Reads the row of ASCII digits that `text` holds from place `from` to its end: the number
/// that it denotes, or `None` where that part is empty, holds another character, or denotes
/// more than `limit`.
pub fn parse_digits(text: &Vec<char>, from: usize, limit: u32) -> (r: Option<u32>)
    requires
        from <= text.len(),
    ensures
        match r {
            Some(value) => from < text.len() && all_digits(text@.skip(from as int)) && value
                == digits_value(text@.skip(from as int)) && value <= limit,
            None => !(from < text.len() && all_digits(text@.skip(from as int)) && digits_value(
                text@.skip(from as int),
            ) <= limit),
        },
{
    let n = text.len();
    if from == n {
        return None;
    }
    let ghost digits = text@.skip(from as int);
    let mut value: u64 = 0;
    let mut i: usize = from;
    while i < n
        invariant
            from <= i <= n == text.len(),
            from < n,
            digits == text@.skip(from as int),
            all_digits(digits.take(i - from)),
            value == digits_value(digits.take(i - from)),
            0 <= value <= limit,
        decreases n - i,
    {
        let d = match digit(text[i]) {
            Some(d) => d,
            None => {
                assert(digits[i - from] == text@[i as int]);
                return None;
            },
        };
        proof {
            assert(digits[i - from] == text@[i as int]);
            assert(digits.take(i + 1 - from).drop_last() =~= digits.take(i - from));
            assert(digits.take(i + 1 - from).last() == digits[i - from]);
            assert(all_digits(digits.take(i + 1 - from))) by {
                assert forall|j: int| 0 <= j < i + 1 - from implies '0'
                    <= #[trigger] digits.take(i + 1 - from)[j] <= '9' by {
                    if j < i - from {
                        assert(digits.take(i - from)[j] == digits[j]);
                    }
                }
            }
        }
        value = value * 10 + d as u64;
        if value > limit as u64 {
            proof {
                if all_digits(digits) {
                    lemma_digits_grow(digits, i + 1 - from);
                }
            }
            return None;
        }
        i += 1;
    }
    proof {
        assert(digits.take(n - from) =~= digits);
    }
    Some(value as u32)
}

} // verus!
