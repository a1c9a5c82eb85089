//! Rewrites an expression from infix to postfix notation with a stack of operators.

use vstd::prelude::*;
use crate::superscript::is_superscript;
use crate::text::{char_is_whitespace, string_of};
use crate::tokeniser::{lemma_next_token_shrinks, next_token, Tokeniser};

verus! {

/// Whether `c` is an operator, a bracket or a superscript.
pub open spec fn is_op_spec(c: char) -> bool {
    c == '+' || c == '-' || c == '*' || c == '/' || c == '^' || c == '(' || c == ')'
        || is_superscript(c)
}

/// Whether the operator `op`, on top of the stack, stays there when the operator `o` arrives.
pub open spec fn lower_precedence_spec(op: char, o: char) -> bool {
    if op == '=' {
        false
    } else if op == '+' || op == '-' {
        o != '+' && o != '-'
    } else if op == '*' || op == '/' {
        o == '^' || o == '('
    } else if is_superscript(op) || op == '^' {
        o == '('
    } else {
        op == '('
    }
}

pub fn is_op(c: char) -> (r: bool)
    ensures
        r == is_op_spec(c),
{
    match c {
        '+' | '-' | '*' | '/' | '^' | '(' | ')' => true,
        '⁻' | '⁰' | '¹' | '²' | '³' | '⁴' | '⁵' | '⁶' | '⁷' | '⁸' | '⁹' => true,
        _ => false,
    }
}

pub fn lower_precedence(op: char, o: char) -> (r: bool)
    ensures
        r == lower_precedence_spec(op, o),
{
    match op {
        '=' => false,
        '+' | '-' => o != '+' && o != '-',
        '*' | '/' => o == '^' || o == '(',
        '⁻' | '⁰' | '¹' | '²' | '³' | '⁴' | '⁵' | '⁶' | '⁷' | '⁸' | '⁹' | '^' => o == '(',
        '(' => true,
        _ => false,
    }
}

/// Whether the token `t` is an operator: one character of one byte that is an operator.
pub open spec fn is_operator_token(t: Seq<char>) -> bool {
    t.len() == 1 && t[0] <= '\x7f' && is_op_spec(t[0])
}

/// The stack and the output after the operators that do not stay below `c` have moved from
/// the top of the stack to the output, each behind a space.
pub open spec fn unwind(stack: Seq<char>, out: Seq<char>, c: char) -> (Seq<char>, Seq<char>)
    decreases stack.len(),
{
    if stack.len() == 0 || lower_precedence_spec(stack.last(), c) {
        (stack, out)
    } else {
        unwind(stack.drop_last(), out.push(' ').push(stack.last()), c)
    }
}

/// The stack and the output after a closing bracket: the operators above the innermost
/// opening bracket move to the output, and that bracket is dropped. `None` where the stack
/// holds no opening bracket.
pub open spec fn close_bracket(stack: Seq<char>, out: Seq<char>) -> Option<(Seq<char>, Seq<char>)>
    decreases stack.len(),
{
    if stack.len() == 0 {
        None
    } else if stack.last() == '(' {
        Some((stack.drop_last(), out))
    } else {
        close_bracket(stack.drop_last(), out.push(' ').push(stack.last()))
    }
}

/// The stack and the output after the token `t` has been taken.
pub open spec fn take_token(stack: Seq<char>, out: Seq<char>, t: Seq<char>) -> Option<
    (Seq<char>, Seq<char>),
> {
    if is_operator_token(t) {
        let (below, moved) = unwind(stack, out, t[0]);
        if t[0] == ')' {
            close_bracket(below, moved)
        } else {
            Some((below.push(t[0]), moved))
        }
    } else if t.len() == 1 && t[0] == ' ' {
        Some((stack, out))
    } else {
        Some((stack, out.push(' ') + t))
    }
}

/// The stack and the output after every token of `s` has been taken, in order.
pub open spec fn take_all(s: Seq<char>, stack: Seq<char>, out: Seq<char>) -> Option<
    (Seq<char>, Seq<char>),
>
    decreases s.len(),
{
    match next_token(s) {
        (Some(t), rest) => {
            if rest.len() < s.len() {
                match take_token(stack, out, t) {
                    Some((stack1, out1)) => take_all(rest, stack1, out1),
                    None => None,
                }
            } else {
                None
            }
        },
        (None, _) => Some((stack, out)),
    }
}

/// The output after the operators left on the stack have been added, from the bottom of the
/// stack up, each behind a space.
pub open spec fn flush(stack: Seq<char>, out: Seq<char>) -> Seq<char>
    decreases stack.len(),
{
    if stack.len() == 0 {
        out
    } else {
        flush(stack.drop_first(), out.push(' ').push(stack[0]))
    }
}

/// `s` without the white space at its start.
pub open spec fn trim_start(s: Seq<char>) -> Seq<char>
    decreases s.len(),
{
    if s.len() > 0 && char_is_whitespace(s[0]) {
        trim_start(s.drop_first())
    } else {
        s
    }
}

/// `s` without the white space at its end.
pub open spec fn trim_end(s: Seq<char>) -> Seq<char>
    decreases s.len(),
{
    if s.len() > 0 && char_is_whitespace(s.last()) {
        trim_end(s.drop_last())
    } else {
        s
    }
}

/// `s` without the white space at its start and at its end.
pub open spec fn trim(s: Seq<char>) -> Seq<char> {
    trim_end(trim_start(s))
}

/// The postfix form of the expression `infix`, or `None` where a closing bracket has no
/// opening bracket before it.
pub open spec fn postfix_of(infix: Seq<char>) -> Option<Seq<char>> {
    match take_all(infix, Seq::empty(), Seq::empty()) {
        Some((stack, out)) => Some(trim(flush(stack, out))),
        None => None,
    }
}

/// The characters of `v` without the white space at the start and at the end.
pub fn trimmed(v: &Vec<char>) -> (r: Vec<char>)
    ensures
        r@ == trim(v@),
{
    let n = v.len();
    let mut start: usize = 0;
    assert(v@.skip(0) =~= v@);
    while start < n && v[start].is_whitespace()
        invariant
            start <= n == v.len(),
            trim_start(v@) == trim_start(v@.skip(start as int)),
        decreases n - start,
    {
        assert(v@.skip(start as int)[0] == v@[start as int]);
        assert(v@.skip(start as int).drop_first() =~= v@.skip(start + 1));
        start += 1;
    }
    assert(start < n ==> v@.skip(start as int)[0] == v@[start as int]);
    assert(trim_start(v@) == v@.skip(start as int));
    let mut end: usize = n;
    while end > start && v[end - 1].is_whitespace()
        invariant
            start <= end <= n == v.len(),
            trim(v@) == trim_end(v@.subrange(start as int, end as int)),
        decreases end,
    {
        assert(v@.subrange(start as int, end as int).last() == v@[end - 1]);
        assert(v@.subrange(start as int, end as int).drop_last() =~= v@.subrange(
            start as int,
            end - 1,
        ));
        end -= 1;
    }
    assert(end > start ==> v@.subrange(start as int, end as int).last() == v@[end - 1]);
    assert(trim(v@) == v@.subrange(start as int, end as int));
    let mut r: Vec<char> = Vec::new();
    let mut k: usize = start;
    while k < end
        invariant
            start <= k <= end <= v.len(),
            r@ == v@.subrange(start as int, k as int),
        decreases end - k,
    {
        r.push(v[k]);
        k += 1;
        assert(r@ =~= v@.subrange(start as int, k as int));
    }
    r
}

/// Moves the operators that do not stay below `c` from the top of the stack to the output.
fn unwind_onto(stack: &mut Vec<char>, out: &mut Vec<char>, c: char)
    ensures
        (final(stack)@, final(out)@) == unwind(old(stack)@, old(out)@, c),
{
    while stack.len() > 0 && !lower_precedence(stack[stack.len() - 1], c)
        invariant
            unwind(old(stack)@, old(out)@, c) == unwind(stack@, out@, c),
        decreases stack.len(),
    {
        let op = stack.pop().unwrap();
        out.push(' ');
        out.push(op);
    }
}

/// Moves the operators above the innermost opening bracket to the output and drops the
/// bracket; returns `false`, with the stack emptied, where there is no such bracket.
fn close_onto(stack: &mut Vec<char>, out: &mut Vec<char>) -> (found: bool)
    ensures
        match close_bracket(old(stack)@, old(out)@) {
            Some((below, moved)) => found && final(stack)@ == below && final(out)@ == moved,
            None => !found,
        },
{
    loop
        invariant
            close_bracket(old(stack)@, old(out)@) == close_bracket(stack@, out@),
        decreases stack.len(),
    {
        let operator = match stack.pop() {
            Some(operator) => operator,
            None => { return false; },
        };
        if operator == '(' {
            return true;
        }
        out.push(' ');
        out.push(operator);
    }
}

/// Takes one token: an operator goes to the stack, an operand to the output. Returns `false`
/// where the token is a closing bracket without an opening one.
fn take_onto(stack: &mut Vec<char>, out: &mut Vec<char>, token: &Vec<char>) -> (taken: bool)
    requires
        token@.len() > 0,
    ensures
        match take_token(old(stack)@, old(out)@, token@) {
            Some((stack1, out1)) => taken && final(stack)@ == stack1 && final(out)@ == out1,
            None => !taken,
        },
{
    let c = token[0];
    if token.len() == 1 && c <= '\x7f' && is_op(c) {
        unwind_onto(stack, out, c);
        if c == ')' {
            close_onto(stack, out)
        } else {
            stack.push(c);
            true
        }
    } else if token.len() == 1 && c == ' ' {
        true
    } else {
        out.push(' ');
        let mut k: usize = 0;
        while k < token.len()
            invariant
                k <= token.len(),
                out@ == old(out)@.push(' ') + token@.take(k as int),
            decreases token.len() - k,
        {
            out.push(token[k]);
            k += 1;
            assert(out@ =~= old(out)@.push(' ') + token@.take(k as int));
        }
        assert(token@.take(k as int) =~= token@);
        true
    }
}

/// Rewrites the expression `infix` in postfix notation: operands and operators separated by
/// single spaces, each operator behind its operands.
///
/// Returns `None` where a closing bracket has no opening bracket before it.
pub fn infix_to_postfix(infix: &str) -> (r: Option<String>)
    ensures
        (match r {
            Some(s) => Some(s@),
            None => None,
        }) == postfix_of(infix@),
{
    let mut operator_stack: Vec<char> = Vec::new();
    let mut postfix: Vec<char> = Vec::new();
    let mut tokens = Tokeniser::new(infix);
    loop
        invariant_except_break
            take_all(infix@, Seq::empty(), Seq::empty()) == take_all(
                tokens@,
                operator_stack@,
                postfix@,
            ),
        ensures
            take_all(infix@, Seq::empty(), Seq::empty()) == Some((operator_stack@, postfix@)),
        decreases tokens@.len(),
    {
        proof {
            lemma_next_token_shrinks(tokens@);
        }
        let token = match tokens.next_chars() {
            Some(token) => token,
            None => { break ; },
        };
        if !take_onto(&mut operator_stack, &mut postfix, &token) {
            return None;
        }
    }
    let ghost out_end = postfix@;
    let mut k: usize = 0;
    assert(operator_stack@.skip(0) =~= operator_stack@);
    while k < operator_stack.len()
        invariant
            k <= operator_stack.len(),
            flush(operator_stack@, out_end) == flush(operator_stack@.skip(k as int), postfix@),
        decreases operator_stack.len() - k,
    {
        assert(operator_stack@.skip(k as int)[0] == operator_stack@[k as int]);
        assert(operator_stack@.skip(k as int).drop_first() =~= operator_stack@.skip(k + 1));
        postfix.push(' ');
        postfix.push(operator_stack[k]);
        k += 1;
    }
    let r = trimmed(&postfix);
    Some(string_of(&r))
}

} // verus!
