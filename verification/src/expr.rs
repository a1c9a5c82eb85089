//! Expressions over values: the tree of an expression, its operators, and the postfix form
//! of a line of tokens.

use vstd::prelude::*;
use vstd::std_specs::ops::{AddSpecImpl, DivSpecImpl, MulSpecImpl, SubSpecImpl};
use core::ops::{Add, Div, Mul, Sub};
use crate::superscript::{is_plain_exponent_char, super_to_num, super_to_num_spec};
use crate::text::{all_digits, chars_of, digits_value, parse_digits};
use crate::tokeniser::{lemma_next_token_shrinks, next_token, Tokeniser};

verus! {

/// An expression over named values.
pub enum Expr {
    /// The sum of two expressions
    Add(Box<Expr>, Box<Expr>),
    /// The difference of two expressions
    Sub(Box<Expr>, Box<Expr>),
    /// The product of two expressions
    Mul(Box<Expr>, Box<Expr>),
    /// The quotient of two expressions
    Div(Box<Expr>, Box<Expr>),
    /// An expression raised to a whole power
    Pow(Box<Expr>, i32),
    /// The statement that two expressions are equal
    Equal(Box<Expr>, Box<Expr>),
    /// A named function applied to an expression
    Func(String, Box<Expr>),
    /// A value, by its name or as a number
    Val(String),
}

impl AddSpecImpl for Expr {
    open spec fn obeys_add_spec() -> bool {
        true
    }

    open spec fn add_req(self, rhs: Expr) -> bool {
        true
    }

    open spec fn add_spec(self, rhs: Expr) -> Expr {
        Expr::Add(Box::new(self), Box::new(rhs))
    }
}

impl Add for Expr {
    type Output = Expr;

    fn add(self, rhs: Expr) -> (r: Expr) {
        Expr::Add(Box::new(self), Box::new(rhs))
    }
}

impl SubSpecImpl for Expr {
    open spec fn obeys_sub_spec() -> bool {
        true
    }

    open spec fn sub_req(self, rhs: Expr) -> bool {
        true
    }

    open spec fn sub_spec(self, rhs: Expr) -> Expr {
        Expr::Sub(Box::new(self), Box::new(rhs))
    }
}

impl Sub for Expr {
    type Output = Expr;

    fn sub(self, rhs: Expr) -> (r: Expr) {
        Expr::Sub(Box::new(self), Box::new(rhs))
    }
}

impl MulSpecImpl for Expr {
    open spec fn obeys_mul_spec() -> bool {
        true
    }

    open spec fn mul_req(self, rhs: Expr) -> bool {
        true
    }

    open spec fn mul_spec(self, rhs: Expr) -> Expr {
        Expr::Mul(Box::new(self), Box::new(rhs))
    }
}

impl Mul for Expr {
    type Output = Expr;

    fn mul(self, rhs: Expr) -> (r: Expr) {
        Expr::Mul(Box::new(self), Box::new(rhs))
    }
}

impl DivSpecImpl for Expr {
    open spec fn obeys_div_spec() -> bool {
        true
    }

    open spec fn div_req(self, rhs: Expr) -> bool {
        true
    }

    open spec fn div_spec(self, rhs: Expr) -> Expr {
        Expr::Div(Box::new(self), Box::new(rhs))
    }
}

impl Div for Expr {
    type Output = Expr;

    fn div(self, rhs: Expr) -> (r: Expr) {
        Expr::Div(Box::new(self), Box::new(rhs))
    }
}

/// An operator or bracket of an expression.
#[derive(Debug, PartialEq, Eq, Structural, Clone, Copy)]
pub enum Operator {
    /// `+`
    Add,
    /// `-`
    Sub,
    /// `*`
    Mul,
    /// `/`
    Div,
    /// `^`
    Pow,
    /// `=`, `==` or `:=`
    Eq,
    /// `(`
    LBracket,
    /// `)`
    RBracket,
    /// A power written in superscripts, such as `²`
    Powi(i32),
}

/// The whole number that `s` denotes: an optional sign and at least one ASCII digit, of a
/// value that an `i32` holds. `None` for any other text.
pub open spec fn whole_of(s: Seq<char>) -> Option<i32> {
    if s.len() > 0 && s[0] == '-' {
        let digits = s.skip(1);
        if digits.len() > 0 && all_digits(digits) && digits_value(digits) <= 0x8000_0000 {
            Some((-digits_value(digits)) as i32)
        } else {
            None
        }
    } else if s.len() > 0 && s[0] == '+' {
        let digits = s.skip(1);
        if digits.len() > 0 && all_digits(digits) && digits_value(digits) <= 0x7fff_ffff {
            Some(digits_value(digits) as i32)
        } else {
            None
        }
    } else if s.len() > 0 && all_digits(s) && digits_value(s) <= 0x7fff_ffff {
        Some(digits_value(s) as i32)
    } else {
        None
    }
}

/// The power that the token `s` denotes: a whole number written in superscripts. A token
/// with an ASCII digit or minus sign is no power.
pub open spec fn power_of(s: Seq<char>) -> Option<i32> {
    if exists|i: int| 0 <= i < s.len() && is_plain_exponent_char(#[trigger] s[i]) {
        None
    } else {
        whole_of(s.map_values(|c: char| super_to_num_spec(c)))
    }
}

/// Reads a whole number: an optional sign and ASCII digits.
pub fn parse_whole(text: &Vec<char>) -> (r: Option<i32>)
    ensures
        r == whole_of(text@),
{
    if text.len() == 0 {
        return None;
    }
    if text[0] == '-' {
        match parse_digits(text, 1, 0x8000_0000) {
            Some(value) => Some((-(value as i64)) as i32),
            None => None,
        }
    } else if text[0] == '+' {
        match parse_digits(text, 1, 0x7fff_ffff) {
            Some(value) => Some(value as i32),
            None => None,
        }
    } else {
        assert(text@.skip(0) =~= text@);
        match parse_digits(text, 0, 0x7fff_ffff) {
            Some(value) => Some(value as i32),
            None => None,
        }
    }
}

/// Reads a power written in superscripts.
pub fn power(s: &str) -> (r: Option<i32>)
    ensures
        r == power_of(s@),
{
    let chars = chars_of(s);
    let mut plain: Vec<char> = Vec::new();
    let mut i: usize = 0;
    while i < chars.len()
        invariant
            i <= chars.len(),
            chars@ == s@,
            forall|j: int| 0 <= j < i ==> !is_plain_exponent_char(#[trigger] chars@[j]),
            plain@ == chars@.take(i as int).map_values(|c: char| super_to_num_spec(c)),
        decreases chars.len() - i,
    {
        let c = chars[i];
        if c == '-' || (c >= '0' && c <= '9') {
            assert(is_plain_exponent_char(s@[i as int]));
            return None;
        }
        plain.push(super_to_num(c));
        i += 1;
        assert(plain@ =~= chars@.take(i as int).map_values(|c: char| super_to_num_spec(c)));
    }
    assert(chars@.take(i as int) =~= chars@);
    parse_whole(&plain)
}

/// Whether `s` is the one character `c`.
pub open spec fn is_one(s: Seq<char>, c: char) -> bool {
    s.len() == 1 && s[0] == c
}

/// Whether `s` is the two characters `a` and `b`.
pub open spec fn is_two(s: Seq<char>, a: char, b: char) -> bool {
    s.len() == 2 && s[0] == a && s[1] == b
}

/// The operator that the token `s` denotes, if it denotes one.
pub open spec fn operator_of(s: Seq<char>) -> Option<Operator> {
    if is_one(s, '+') {
        Some(Operator::Add)
    } else if is_one(s, '-') {
        Some(Operator::Sub)
    } else if is_one(s, '*') {
        Some(Operator::Mul)
    } else if is_one(s, '/') {
        Some(Operator::Div)
    } else if is_one(s, '(') {
        Some(Operator::LBracket)
    } else if is_one(s, ')') {
        Some(Operator::RBracket)
    } else if is_one(s, '^') {
        Some(Operator::Pow)
    } else if is_one(s, '=') || is_two(s, '=', '=') || is_two(s, ':', '=') {
        Some(Operator::Eq)
    } else {
        match power_of(s) {
            Some(n) => Some(Operator::Powi(n)),
            None => None,
        }
    }
}

impl Operator {
    /// How tightly the operator binds: one that binds more tightly than the operator on top
    /// of the stack is put above it.
    pub open spec fn spec_precedence(&self) -> u8 {
        match *self {
            Operator::Eq => 0,
            Operator::Add | Operator::Sub => 1,
            Operator::Mul => 2,
            Operator::Div => 3,
            Operator::Pow => 4,
            Operator::Powi(_) => 5,
            Operator::RBracket => 10,
            Operator::LBracket => 0,
        }
    }

    /// Reads an operator.
    pub fn from_str(s: &str) -> (r: Option<Operator>)
        ensures
            r == operator_of(s@),
    {
        let chars = chars_of(s);
        let n = chars.len();
        if n == 1 && chars[0] == '+' {
            Some(Operator::Add)
        } else if n == 1 && chars[0] == '-' {
            Some(Operator::Sub)
        } else if n == 1 && chars[0] == '*' {
            Some(Operator::Mul)
        } else if n == 1 && chars[0] == '/' {
            Some(Operator::Div)
        } else if n == 1 && chars[0] == '(' {
            Some(Operator::LBracket)
        } else if n == 1 && chars[0] == ')' {
            Some(Operator::RBracket)
        } else if n == 1 && chars[0] == '^' {
            Some(Operator::Pow)
        } else if (n == 1 && chars[0] == '=') || (n == 2 && chars[0] == '=' && chars[1] == '=') || (
        n == 2 && chars[0] == ':' && chars[1] == '=') {
            Some(Operator::Eq)
        } else {
            match power(s) {
                Some(n) => Some(Operator::Powi(n)),
                None => None,
            }
        }
    }

    /// How tightly the operator binds.
    #[verifier::when_used_as_spec(spec_precedence)]
    pub fn precedence(&self) -> (r: u8)
        ensures
            r == self.spec_precedence(),
    {
        match *self {
            Operator::Eq => 0,
            Operator::Add | Operator::Sub => 1,
            Operator::Mul => 2,
            Operator::Div => 3,
            Operator::Pow => 4,
            Operator::Powi(_) => 5,
            Operator::RBracket => 10,
            Operator::LBracket => 0,
        }
    }
}

/// An item of the postfix form of an expression.
#[derive(Debug, PartialEq, Eq)]
pub enum Arg {
    /// An operator
    Op(Operator),
    /// An operand
    Val(String),
}

impl Clone for Arg {
    fn clone(&self) -> (r: Self)
        ensures
            r@ == self@,
    {
        match self {
            Arg::Op(op) => Arg::Op(*op),
            Arg::Val(s) => Arg::Val(s.clone()),
        }
    }
}

/// An item of the postfix form, with the text of an operand as its characters.
pub enum Item {
    /// An operator
    Op(Operator),
    /// An operand
    Val(Seq<char>),
}

impl View for Arg {
    type V = Item;

    open spec fn view(&self) -> Item {
        match *self {
            Arg::Op(op) => Item::Op(op),
            Arg::Val(s) => Item::Val(s@),
        }
    }
}

/// The operators of `stack` as items, in order.
pub open spec fn as_items(stack: Seq<Operator>) -> Seq<Item> {
    stack.map_values(|op: Operator| Item::Op(op))
}

/// The stack and the output after the operators that `op` does not bind more tightly than
/// have moved from the top of the stack to the output.
pub open spec fn settle(stack: Seq<Operator>, out: Seq<Item>, op: Operator) -> (
    Seq<Operator>,
    Seq<Item>,
)
    decreases stack.len(),
{
    if stack.len() == 0 || op.precedence() > stack.last().precedence() {
        (stack, out)
    } else {
        settle(stack.drop_last(), out.push(Item::Op(stack.last())), op)
    }
}

/// The stack and the output after a closing bracket: the operators above the innermost
/// opening bracket move to the output, and that bracket is dropped. `None` where the stack
/// holds no opening bracket.
pub open spec fn close(stack: Seq<Operator>, out: Seq<Item>) -> Option<(Seq<Operator>, Seq<Item>)>
    decreases stack.len(),
{
    if stack.len() == 0 {
        None
    } else if stack.last() == Operator::LBracket {
        Some((stack.drop_last(), out))
    } else {
        close(stack.drop_last(), out.push(Item::Op(stack.last())))
    }
}

/// The stack and the output after the token `t` has been placed: an operator on the stack,
/// an operand in the output.
pub open spec fn place(stack: Seq<Operator>, out: Seq<Item>, t: Seq<char>) -> Option<
    (Seq<Operator>, Seq<Item>),
> {
    match operator_of(t) {
        Some(op) => {
            let (below, moved) = settle(stack, out, op);
            if op == Operator::RBracket {
                close(below, moved)
            } else {
                Some((below.push(op), moved))
            }
        },
        None => Some((stack, out.push(Item::Val(t)))),
    }
}

/// The stack and the output after every token of `s` has been placed, in order.
pub open spec fn place_all(s: Seq<char>, stack: Seq<Operator>, out: Seq<Item>) -> Option<
    (Seq<Operator>, Seq<Item>),
>
    decreases s.len(),
{
    match next_token(s) {
        (Some(t), rest) => {
            if rest.len() < s.len() {
                match place(stack, out, t) {
                    Some((stack1, out1)) => place_all(rest, stack1, out1),
                    None => None,
                }
            } else {
                None
            }
        },
        (None, _) => Some((stack, out)),
    }
}

/// The postfix form of the line `s`: its operands and operators, each operator behind its
/// operands; the operators left on the stack at the end follow from the bottom of the stack
/// up. `None` where a closing bracket has no opening bracket before it.
pub open spec fn postfix_items(s: Seq<char>) -> Option<Seq<Item>> {
    match place_all(s, Seq::empty(), Seq::empty()) {
        Some((stack, out)) => Some(out + as_items(stack)),
        None => None,
    }
}

/// The items of `args`, in order.
pub open spec fn items_of(args: Seq<Arg>) -> Seq<Item> {
    args.map_values(|a: Arg| a@)
}

fn settle_onto(stack: &mut Vec<Operator>, out: &mut Vec<Arg>, op: Operator)
    ensures
        (final(stack)@, items_of(final(out)@)) == settle(old(stack)@, items_of(old(out)@), op),
{
    while stack.len() > 0 && !(op.precedence() > stack[stack.len() - 1].precedence())
        invariant
            settle(old(stack)@, items_of(old(out)@), op) == settle(stack@, items_of(out@), op),
        decreases stack.len(),
    {
        let ghost before = out@;
        let other = stack.pop().unwrap();
        out.push(Arg::Op(other));
        assert(items_of(out@) =~= items_of(before).push(Item::Op(other)));
    }
}

fn close_onto(stack: &mut Vec<Operator>, out: &mut Vec<Arg>) -> (found: bool)
    ensures
        match close(old(stack)@, items_of(old(out)@)) {
            Some((below, moved)) => found && final(stack)@ == below && items_of(final(out)@)
                == moved,
            None => !found,
        },
{
    loop
        invariant
            close(old(stack)@, items_of(old(out)@)) == close(stack@, items_of(out@)),
        decreases stack.len(),
    {
        let operator = match stack.pop() {
            Some(operator) => operator,
            None => { return false; },
        };
        if operator == Operator::LBracket {
            return true;
        }
        let ghost before = out@;
        out.push(Arg::Op(operator));
        assert(items_of(out@) =~= items_of(before).push(Item::Op(operator)));
    }
}

fn place_onto(stack: &mut Vec<Operator>, out: &mut Vec<Arg>, token: String) -> (placed: bool)
    ensures
        match place(old(stack)@, items_of(old(out)@), token@) {
            Some((stack1, out1)) => placed && final(stack)@ == stack1 && items_of(final(out)@)
                == out1,
            None => !placed,
        },
{
    match Operator::from_str(token.as_str()) {
        Some(op) => {
            settle_onto(stack, out, op);
            if op == Operator::RBracket {
                close_onto(stack, out)
            } else {
                stack.push(op);
                true
            }
        },
        None => {
            let ghost before = out@;
            out.push(Arg::Val(token));
            assert(items_of(out@) =~= items_of(before).push(Item::Val(token@)));
            true
        },
    }
}

impl Expr {
    /// This expression raised to the power `rhs`.
    pub fn powi(self, rhs: i32) -> (r: Expr)
        ensures
            r == Expr::Pow(Box::new(self), rhs),
    {
        Expr::Pow(Box::new(self), rhs)
    }

    /// The statement that this expression equals `rhs`.
    pub fn eq(self, rhs: Expr) -> (r: Expr)
        ensures
            r == Expr::Equal(Box::new(self), Box::new(rhs)),
    {
        Expr::Equal(Box::new(self), Box::new(rhs))
    }

    /// The function `f` applied to this expression.
    pub fn func(self, f: String) -> (r: Expr)
        ensures
            r == Expr::Func(f, Box::new(self)),
    {
        Expr::Func(f, Box::new(self))
    }

    /// The postfix form of the tokens that `tokens` still holds.
    pub fn postfix(tokens: Tokeniser) -> (r: Option<Vec<Arg>>)
        ensures
            (match r {
                Some(args) => Some(items_of(args@)),
                None => None,
            }) == postfix_items(tokens@),
    {
        let mut rest = tokens;
        let mut operator_stack: Vec<Operator> = Vec::new();
        let mut postfix: Vec<Arg> = Vec::new();
        assert(items_of(postfix@) =~= Seq::empty());
        loop
            invariant_except_break
                place_all(tokens@, Seq::empty(), Seq::empty()) == place_all(
                    rest@,
                    operator_stack@,
                    items_of(postfix@),
                ),
            ensures
                place_all(tokens@, Seq::empty(), Seq::empty()) == Some(
                    (operator_stack@, items_of(postfix@)),
                ),
            decreases rest@.len(),
        {
            proof {
                lemma_next_token_shrinks(rest@);
            }
            let token = match rest.next() {
                Some(token) => token,
                None => { break ; },
            };
            if !place_onto(&mut operator_stack, &mut postfix, token) {
                return None;
            }
        }
        let ghost out_end = items_of(postfix@);
        let mut k: usize = 0;
        assert(out_end + as_items(operator_stack@.take(0)) =~= out_end);
        while k < operator_stack.len()
            invariant
                k <= operator_stack.len(),
                items_of(postfix@) == out_end + as_items(operator_stack@.take(k as int)),
            decreases operator_stack.len() - k,
        {
            let ghost before = postfix@;
            let op = operator_stack[k];
            postfix.push(Arg::Op(op));
            proof {
                assert(items_of(postfix@) =~= items_of(before).push(Item::Op(op)));
                assert(as_items(operator_stack@.take(k + 1)) =~= as_items(
                    operator_stack@.take(k as int),
                ).push(Item::Op(op)));
            }
            k += 1;
        }
        assert(operator_stack@.take(k as int) =~= operator_stack@);
        Some(postfix)
    }

    /// The expression that the tokens denote. The tokens are brought into postfix form, from
    /// which no tree is built: the answer is `None` for every line.
    pub fn new(tokens: Tokeniser) -> (r: Option<Expr>)
        ensures
            r is None,
    {
        let _ = Expr::postfix(tokens);
        None
    }

    /// The expression that the line `s` denotes; see `new`.
    pub fn from_str(s: &str) -> (r: Option<Expr>)
        ensures
            r is None,
    {
        Expr::new(Tokeniser::new(s))
    }
}

} // verus!
