//! Splits a line of an expression into its tokens: operators, runs of superscripts, and operands.

use vstd::prelude::*;
use crate::superscript::is_superscript;
use crate::text::{char_is_whitespace, chars_of, string_of};

verus! {

/// The four kinds of character that the tokeniser tells apart.
#[derive(Debug, PartialEq, Eq, Structural, Copy, Clone)]
pub enum Class {
    /// An operator or bracket, which is a token by itself
    Token,
    /// A superscript digit or minus sign; a run of them is one token
    Power,
    /// Any other visible character; a run of them is one token
    Symbol,
    /// White space, which separates tokens and belongs to none
    Whitespace,
}

/// The kind of `c`.
pub open spec fn class_of(c: char) -> Class {
    if c == '+' || c == '-' || c == '/' || c == '^' || c == '*' || c == '(' || c == ')' || c == '=' {
        Class::Token
    } else if is_superscript(c) {
        Class::Power
    } else if char_is_whitespace(c) {
        Class::Whitespace
    } else {
        Class::Symbol
    }
}

pub fn classify(c: char) -> (r: Class)
    ensures
        r == class_of(c),
{
    match c {
        '+' | '-' | '/' | '^' | '*' | '(' | ')' | '=' => Class::Token,
        '⁻' | '⁰' | '¹' | '²' | '³' | '⁴' | '⁵' | '⁶' | '⁷' | '⁸' | '⁹' => Class::Power,
        _ => if c.is_whitespace() {
            Class::Whitespace
        } else {
            Class::Symbol
        },
    }
}

/// The length of the longest prefix of `s` whose characters are all of the kind `class`.
pub open spec fn run_len(s: Seq<char>, class: Class) -> nat
    decreases s.len(),
{
    if s.len() > 0 && class_of(s[0]) == class {
        1 + run_len(s.drop_first(), class)
    } else {
        0
    }
}

/// The first token of `s`, if it holds one, and what is left of `s` behind it.
///
/// White space before a token is skipped. An operator is a token by itself. A superscript
/// starts a token that runs as far as superscripts follow. Any other character starts an
/// operand, which runs up to the next operator, superscript or white space; one white space
/// that ends an operand is taken with it.
pub open spec fn next_token(s: Seq<char>) -> (Option<Seq<char>>, Seq<char>)
    decreases s.len(),
{
    if s.len() == 0 {
        (None, s)
    } else {
        match class_of(s[0]) {
            Class::Whitespace => next_token(s.drop_first()),
            Class::Token => (Some(s.take(1)), s.skip(1)),
            Class::Power => {
                let n = 1 + run_len(s.skip(1), Class::Power);
                (Some(s.take(n as int)), s.skip(n as int))
            },
            Class::Symbol => {
                let n = 1 + run_len(s.skip(1), Class::Symbol);
                let rest = s.skip(n as int);
                if rest.len() > 0 && class_of(rest[0]) == Class::Whitespace {
                    (Some(s.take(n as int)), rest.skip(1))
                } else {
                    (Some(s.take(n as int)), rest)
                }
            },
        }
    }
}

/// A run never reaches past the end of the text.
pub proof fn lemma_run_len_bound(s: Seq<char>, class: Class)
    ensures
        run_len(s, class) <= s.len(),
    decreases s.len(),
{
    if s.len() > 0 && class_of(s[0]) == class {
        lemma_run_len_bound(s.drop_first(), class);
    }
}

/// Taking a token leaves a suffix of the text, and a shorter one where a token was found.
pub proof fn lemma_next_token_shrinks(s: Seq<char>)
    ensures
        next_token(s).1.len() <= s.len(),
        next_token(s).0 is Some ==> next_token(s).1.len() < s.len(),
        next_token(s).0 is Some ==> next_token(s).0->0.len() > 0,
        next_token(s).0 is None ==> next_token(s).1.len() == 0,
    decreases s.len(),
{
    if s.len() > 0 {
        match class_of(s[0]) {
            Class::Whitespace => lemma_next_token_shrinks(s.drop_first()),
            Class::Token => {},
            Class::Power => lemma_run_len_bound(s.skip(1), Class::Power),
            Class::Symbol => lemma_run_len_bound(s.skip(1), Class::Symbol),
        }
    }
}

/// Walking a run one character at a time: where the character at `i` is of the kind, the run
/// from `i` is one longer than the run from `i + 1`; where it is not, or `i` is the end, the
/// run from `i` is empty.
proof fn lemma_run_step(s: Seq<char>, i: int, class: Class)
    requires
        0 <= i <= s.len(),
    ensures
        i < s.len() && class_of(s[i]) == class ==> run_len(s.skip(i), class) == 1 + run_len(
            s.skip(i + 1),
            class,
        ),
        i == s.len() || class_of(s[i]) != class ==> run_len(s.skip(i), class) == 0,
{
    if i < s.len() {
        assert(s.skip(i)[0] == s[i]);
        assert(s.skip(i).drop_first() =~= s.skip(i + 1));
    }
}

/// A cursor over the characters of a line, which hands out one token at a time.
pub struct Tokeniser {
    chars: Vec<char>,
    pos: usize,
}

impl View for Tokeniser {
    type V = Seq<char>;

    /// The characters that have not been read yet.
    closed spec fn view(&self) -> Seq<char> {
        self.chars@.skip(self.pos as int)
    }
}

impl Tokeniser {
    #[verifier::type_invariant]
    spec fn in_bounds(self) -> bool {
        self.pos <= self.chars.len()
    }

    /// A tokeniser at the start of `s`.
    pub fn new(s: &str) -> (t: Tokeniser)
        ensures
            t@ == s@,
    {
        let chars = chars_of(s);
        assert(chars@.skip(0) =~= chars@);
        Tokeniser { chars, pos: 0 }
    }

    /// The next token as characters, or `None` at the end of the line.
    pub fn next_chars(&mut self) -> (r: Option<Vec<char>>)
        ensures
            (match r {
                Some(t) => Some(t@),
                None => None,
            }) == next_token(old(self)@).0,
            final(self)@ == next_token(old(self)@).1,
    {
        proof {
            use_type_invariant(&*self);
        }
        let ghost all = self.chars@;
        let n = self.chars.len();
        let mut i: usize = self.pos;
        while i < n && classify(self.chars[i]) == Class::Whitespace
            invariant
                self.chars@ == all,
                n == all.len(),
                old(self).pos <= i <= n,
                next_token(all.skip(old(self).pos as int)) == next_token(all.skip(i as int)),
            decreases n - i,
        {
            proof {
                assert(all.skip(i as int)[0] == all[i as int]);
                assert(all.skip(i as int).drop_first() =~= all.skip(i + 1));
            }
            i += 1;
        }
        let start = i;
        let ghost rest = all.skip(start as int);
        if start >= n {
            self.pos = n;
            assert(rest.len() == 0);
            return None;
        }
        assert(rest[0] == all[start as int]);
        assert(rest.skip(1) =~= all.skip(start + 1));
        let class = classify(self.chars[start]);
        let mut end: usize = start + 1;
        if class == Class::Power || class == Class::Symbol {
            while end < n && classify(self.chars[end]) == class
                invariant
                    self.chars@ == all,
                    n == all.len(),
                    start < end <= n,
                    run_len(all.skip(start + 1), class) == (end - start - 1) + run_len(
                        all.skip(end as int),
                        class,
                    ),
                decreases n - end,
            {
                proof {
                    lemma_run_step(all, end as int, class);
                }
                end += 1;
            }
            proof {
                lemma_run_step(all, end as int, class);
            }
        }
        let mut token: Vec<char> = Vec::new();
        let mut k: usize = start;
        while k < end
            invariant
                self.chars@ == all,
                start <= k <= end <= n,
                n == all.len(),
                token@ == all.subrange(start as int, k as int),
            decreases end - k,
        {
            token.push(self.chars[k]);
            k += 1;
            assert(token@ =~= all.subrange(start as int, k as int));
        }
        assert(all.subrange(start as int, end as int) =~= rest.take(end - start));
        assert(all.skip(end as int) =~= rest.skip(end - start));
        if class == Class::Symbol && end < n && classify(self.chars[end]) == Class::Whitespace {
            assert(all.skip(end as int)[0] == all[end as int]);
            assert(all.skip(end + 1) =~= all.skip(end as int).skip(1));
            self.pos = end + 1;
        } else {
            self.pos = end;
        }
        Some(token)
    }

    /// The next token, or `None` at the end of the line.
    pub fn next(&mut self) -> (r: Option<String>)
        ensures
            (match r {
                Some(t) => Some(t@),
                None => None,
            }) == next_token(old(self)@).0,
            final(self)@ == next_token(old(self)@).1,
    {
        match self.next_chars() {
            Some(t) => Some(string_of(&t)),
            None => None,
        }
    }
}

} // verus!
