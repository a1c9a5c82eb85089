//! The commands of a calculator on values with units: what a line asks for, and what the
//! evaluation of an expression over variables gives.

use vstd::prelude::*;
use crate::expr::{is_one, is_two, parse_whole, whole_of};
use crate::number::Number;
use crate::read::{parse_value, parse_value_chars};
use crate::system::UnitSystem;
use crate::table::Table;
use crate::text::{
    char_is_alphabetic, chars_of, join_words, joined, split_words, string_of, word_views,
    words_of,
};
use crate::units::{Unit, Value};

verus! {

/// An operation on two operands, each a variable by its name or a number.
#[derive(Debug, PartialEq, Eq)]
pub enum Eval {
    /// The sum of the operands
    Add(String, String),
    /// The difference of the operands
    Sub(String, String),
    /// The product of the operands
    Mul(String, String),
    /// The quotient of the operands
    Div(String, String),
    /// The first operand raised to the power that the second denotes
    Pow(String, String),
    /// The function named first, applied to the variable named second
    Func(String, String),
}

/// An `Eval` with its names as characters.
pub enum EvalText {
    /// The sum of the operands
    Add(Seq<char>, Seq<char>),
    /// The difference of the operands
    Sub(Seq<char>, Seq<char>),
    /// The product of the operands
    Mul(Seq<char>, Seq<char>),
    /// The quotient of the operands
    Div(Seq<char>, Seq<char>),
    /// The first operand raised to the power that the second denotes
    Pow(Seq<char>, Seq<char>),
    /// The function named first, applied to the variable named second
    Func(Seq<char>, Seq<char>),
}

impl View for Eval {
    type V = EvalText;

    open spec fn view(&self) -> EvalText {
        match *self {
            Eval::Add(a, b) => EvalText::Add(a@, b@),
            Eval::Sub(a, b) => EvalText::Sub(a@, b@),
            Eval::Mul(a, b) => EvalText::Mul(a@, b@),
            Eval::Div(a, b) => EvalText::Div(a@, b@),
            Eval::Pow(a, b) => EvalText::Pow(a@, b@),
            Eval::Func(a, b) => EvalText::Func(a@, b@),
        }
    }
}

/// What a line asks the calculator to do.
#[derive(Debug, PartialEq)]
pub enum Command<N: Number> {
    /// Give the variable the value
    Define(String, Value<N>),
    /// Evaluate and show the result
    Eval(Eval),
    /// Show the variable
    Inspect(String),
    /// Evaluate, show the result and give it to the variable
    Assign(String, Eval),
}

/// A `Command` with its names as characters.
pub enum CommandText<N: Number> {
    /// Give the variable the value
    Define(Seq<char>, Value<N>),
    /// Evaluate and show the result
    Eval(EvalText),
    /// Show the variable
    Inspect(Seq<char>),
    /// Evaluate, show the result and give it to the variable
    Assign(Seq<char>, EvalText),
}

impl<N: Number> View for Command<N> {
    type V = CommandText<N>;

    open spec fn view(&self) -> CommandText<N> {
        match *self {
            Command::Define(name, value) => CommandText::Define(name@, value),
            Command::Eval(eval) => CommandText::Eval(eval@),
            Command::Inspect(name) => CommandText::Inspect(name@),
            Command::Assign(name, eval) => CommandText::Assign(name@, eval@),
        }
    }
}

/// Whether every character of `s` is a letter.
pub open spec fn all_alphabetic(s: Seq<char>) -> bool {
    forall|i: int| 0 <= i < s.len() ==> char_is_alphabetic(#[trigger] s[i])
}

/// Whether the word `w` assigns: `=` or `:=`.
pub open spec fn assigns(w: Seq<char>) -> bool {
    is_one(w, '=') || is_two(w, ':', '=')
}

/// The operation that the words ask for, if they ask for one: an operand, an operator and
/// an operand, or the name of a function and a variable.
pub open spec fn eval_of(words: Seq<Seq<char>>) -> Option<EvalText> {
    if words.len() < 2 || assigns(words[1]) || is_one(words[1], '?') {
        None
    } else if is_one(words[1], '+') {
        if words.len() >= 3 {
            Some(EvalText::Add(words[0], words[2]))
        } else {
            None
        }
    } else if is_one(words[1], '-') {
        if words.len() >= 3 {
            Some(EvalText::Sub(words[0], words[2]))
        } else {
            None
        }
    } else if is_one(words[1], '*') {
        if words.len() >= 3 {
            Some(EvalText::Mul(words[0], words[2]))
        } else {
            None
        }
    } else if is_one(words[1], '/') {
        if words.len() >= 3 {
            Some(EvalText::Div(words[0], words[2]))
        } else {
            None
        }
    } else if is_one(words[1], '^') {
        if words.len() >= 3 {
            Some(EvalText::Pow(words[0], words[2]))
        } else {
            None
        }
    } else if all_alphabetic(words[0]) {
        Some(EvalText::Func(words[0], words[1]))
    } else {
        None
    }
}

/// The command that the line `text` denotes, if it denotes one.
///
/// Behind a name and `=` or `:=` stands an operation, whose result the name is assigned, or
/// else a value, as which the name is defined. A name and `?` inspect the variable. Any other
/// line is an operation to evaluate.
pub open spec fn command_of<N: Number>(units: Map<Seq<char>, Unit<N>>, text: Seq<char>) -> Option<
    CommandText<N>,
> {
    let words = words_of(text);
    if words.len() < 2 {
        None
    } else if assigns(words[1]) {
        let rest = joined(words.skip(2));
        match eval_of(words_of(rest)) {
            Some(eval) => Some(CommandText::Assign(words[0], eval)),
            None => match parse_value(units, rest) {
                Ok(value) => Some(CommandText::Define(words[0], value)),
                Err(_) => None,
            },
        }
    } else if is_one(words[1], '?') {
        Some(CommandText::Inspect(words[0]))
    } else {
        match eval_of(words) {
            Some(eval) => Some(CommandText::Eval(eval)),
            None => None,
        }
    }
}

/// The view of an operation, if there is one.
pub open spec fn eval_text(r: Option<Eval>) -> Option<EvalText> {
    match r {
        Some(eval) => Some(eval@),
        None => None,
    }
}

/// The view of a command, if there is one.
pub open spec fn command_text<N: Number>(r: Option<Command<N>>) -> Option<CommandText<N>> {
    match r {
        Some(command) => Some(command@),
        None => None,
    }
}

fn is_char(w: &Vec<char>, c: char) -> (r: bool)
    ensures
        r == is_one(w@, c),
{
    w.len() == 1 && w[0] == c
}

fn is_assignment(w: &Vec<char>) -> (r: bool)
    ensures
        r == assigns(w@),
{
    is_char(w, '=') || (w.len() == 2 && w[0] == ':' && w[1] == '=')
}

fn is_alphabetic_word(w: &Vec<char>) -> (r: bool)
    ensures
        r == all_alphabetic(w@),
{
    let mut i: usize = 0;
    while i < w.len()
        invariant
            i <= w.len(),
            forall|j: int| 0 <= j < i ==> char_is_alphabetic(#[trigger] w@[j]),
        decreases w.len() - i,
    {
        if !w[i].is_alphabetic() {
            return false;
        }
        i += 1;
    }
    true
}

/// The operation that the words ask for, if they ask for one.
pub fn words_to_eval(words: &Vec<Vec<char>>) -> (r: Option<Eval>)
    ensures
        eval_text(r) == eval_of(word_views(words@)),
{
    if words.len() < 2 {
        return None;
    }
    let op = &words[1];
    assert(word_views(words@)[0] == words@[0]@);
    assert(word_views(words@)[1] == words@[1]@);
    if is_assignment(op) || is_char(op, '?') {
        return None;
    }
    let binary = is_char(op, '+') || is_char(op, '-') || is_char(op, '*') || is_char(op, '/')
        || is_char(op, '^');
    if binary {
        if words.len() < 3 {
            return None;
        }
        assert(word_views(words@)[2] == words@[2]@);
        let a = string_of(&words[0]);
        let b = string_of(&words[2]);
        if is_char(op, '+') {
            Some(Eval::Add(a, b))
        } else if is_char(op, '-') {
            Some(Eval::Sub(a, b))
        } else if is_char(op, '*') {
            Some(Eval::Mul(a, b))
        } else if is_char(op, '/') {
            Some(Eval::Div(a, b))
        } else {
            Some(Eval::Pow(a, b))
        }
    } else if is_alphabetic_word(&words[0]) {
        Some(Eval::Func(string_of(&words[0]), string_of(op)))
    } else {
        None
    }
}

/// Reads a line of the calculator.
pub fn line_to_command<N: Number>(s: &str, si: &UnitSystem<N>) -> (r: Option<Command<N>>)
    ensures
        command_text(r) == command_of(si@, s@),
{
    let chars = chars_of(s);
    let words = split_words(&chars);
    if words.len() < 2 {
        return None;
    }
    assert(word_views(words@)[0] == words@[0]@);
    assert(word_views(words@)[1] == words@[1]@);
    if is_assignment(&words[1]) {
        let rest = join_words(&words, 2);
        let rest_words = split_words(&rest);
        match words_to_eval(&rest_words) {
            Some(eval) => Some(Command::Assign(string_of(&words[0]), eval)),
            None => match parse_value_chars(si, &rest) {
                Ok(value) => Some(Command::Define(string_of(&words[0]), value)),
                Err(_) => None,
            },
        }
    } else if is_char(&words[1], '?') {
        Some(Command::Inspect(string_of(&words[0])))
    } else {
        match words_to_eval(&words) {
            Some(eval) => Some(Command::Eval(eval)),
            None => None,
        }
    }
}

/// What the evaluation of an operation gives.
#[derive(Debug, PartialEq)]
pub enum Outcome<N: Number> {
    /// The result
    Value(Value<N>),
    /// The function of this name is to be applied to this value
    Apply(String, Value<N>),
    /// The operands of a sum or a difference have different dimensions
    Mismatch,
    /// An operand is neither a variable nor a number, or a power is no whole number
    Unknown,
}

/// An `Outcome` with its name as characters.
pub enum OutcomeText<N: Number> {
    /// The result
    Value(Value<N>),
    /// The function of this name is to be applied to this value
    Apply(Seq<char>, Value<N>),
    /// The operands of a sum or a difference have different dimensions
    Mismatch,
    /// An operand is neither a variable nor a number, or a power is no whole number
    Unknown,
}

impl<N: Number> View for Outcome<N> {
    type V = OutcomeText<N>;

    open spec fn view(&self) -> OutcomeText<N> {
        match *self {
            Outcome::Value(value) => OutcomeText::Value(value),
            Outcome::Apply(name, value) => OutcomeText::Apply(name@, value),
            Outcome::Mismatch => OutcomeText::Mismatch,
            Outcome::Unknown => OutcomeText::Unknown,
        }
    }
}

/// The value of the operand `name`: that of the variable of this name, or else the number
/// that the name denotes, without a dimension.
pub open spec fn operand<N: Number>(vars: Map<Seq<char>, Value<N>>, name: Seq<char>) -> Option<
    Value<N>,
> {
    if vars.contains_key(name) {
        Some(vars[name])
    } else {
        match N::spec_parse(name) {
            Some(number) => Some(Value(number, Unit::identity())),
            None => None,
        }
    }
}

/// The power that `s` denotes: a whole number that an `i16` holds.
pub open spec fn small_whole(s: Seq<char>) -> Option<i16> {
    match whole_of(s) {
        Some(n) => if i16::MIN <= n <= i16::MAX {
            Some(n as i16)
        } else {
            None
        },
        None => None,
    }
}

/// What two operands give once both are known, or `Unknown` where one is not.
pub open spec fn combined<N: Number>(
    vars: Map<Seq<char>, Value<N>>,
    a: Seq<char>,
    b: Seq<char>,
    combine: spec_fn(Value<N>, Value<N>) -> OutcomeText<N>,
) -> OutcomeText<N> {
    match operand(vars, a) {
        Some(x) => match operand(vars, b) {
            Some(y) => combine(x, y),
            None => OutcomeText::Unknown,
        },
        None => OutcomeText::Unknown,
    }
}

/// What the operation `eval` gives over the variables `vars`.
///
/// A sum or a difference asks for operands of one dimension. A power raises the magnitude
/// and the unit of its first operand. A function is not applied here: its name is handed
/// back with the value of its variable.
pub open spec fn outcome_of<N: Number>(eval: EvalText, vars: Map<Seq<char>, Value<N>>) -> OutcomeText<
    N,
> {
    match eval {
        EvalText::Add(a, b) => combined(
            vars,
            a,
            b,
            |x: Value<N>, y: Value<N>|
                if x.1.dimension == y.1.dimension {
                    OutcomeText::Value(x.sum(y))
                } else {
                    OutcomeText::Mismatch
                },
        ),
        EvalText::Sub(a, b) => combined(
            vars,
            a,
            b,
            |x: Value<N>, y: Value<N>|
                if x.1.dimension == y.1.dimension {
                    OutcomeText::Value(x.difference(y))
                } else {
                    OutcomeText::Mismatch
                },
        ),
        EvalText::Mul(a, b) => combined(
            vars,
            a,
            b,
            |x: Value<N>, y: Value<N>| OutcomeText::Value(x.product(y)),
        ),
        EvalText::Div(a, b) => combined(
            vars,
            a,
            b,
            |x: Value<N>, y: Value<N>| OutcomeText::Value(x.quotient(y)),
        ),
        EvalText::Pow(a, b) => match small_whole(b) {
            Some(n) => match operand(vars, a) {
                Some(x) => OutcomeText::Value(Value(x.0.spec_powi(n as i32), x.1.power(n))),
                None => OutcomeText::Unknown,
            },
            None => OutcomeText::Unknown,
        },
        EvalText::Func(f, b) => if vars.contains_key(b) {
            OutcomeText::Apply(f, vars[b])
        } else {
            OutcomeText::Unknown
        },
    }
}

/// The value of an operand: a variable, or else a number.
fn get_or_eval<N: Number>(vars: &Table<Value<N>>, name: &String) -> (r: Option<Value<N>>)
    ensures
        r == operand(vars@, name@),
{
    let chars = chars_of(name.as_str());
    match vars.get(&chars) {
        Some(value) => Some(value),
        None => match N::parse(name.as_str()) {
            Some(number) => Some(Value(number, Unit::new(crate::dimensions::Dimension::nul()))),
            None => None,
        },
    }
}

/// Reads a power: a whole number that an `i16` holds.
fn parse_small_whole(s: &String) -> (r: Option<i16>)
    ensures
        r == small_whole(s@),
{
    let chars = chars_of(s.as_str());
    match parse_whole(&chars) {
        Some(n) => if -0x8000 <= n && n <= 0x7fff {
            Some(n as i16)
        } else {
            None
        },
        None => None,
    }
}

/// Evaluates an operation over the variables `vars`.
pub fn evaluate<N: Number>(eval: Eval, vars: &Table<Value<N>>) -> (r: Outcome<N>)
    ensures
        r@ == outcome_of(eval@, vars@),
{
    match eval {
        Eval::Add(a, b) => {
            let x = match get_or_eval(vars, &a) {
                Some(x) => x,
                None => { return Outcome::Unknown; },
            };
            let y = match get_or_eval(vars, &b) {
                Some(y) => y,
                None => { return Outcome::Unknown; },
            };
            if x.1.dimension == y.1.dimension {
                Outcome::Value(x + y)
            } else {
                Outcome::Mismatch
            }
        },
        Eval::Sub(a, b) => {
            let x = match get_or_eval(vars, &a) {
                Some(x) => x,
                None => { return Outcome::Unknown; },
            };
            let y = match get_or_eval(vars, &b) {
                Some(y) => y,
                None => { return Outcome::Unknown; },
            };
            if x.1.dimension == y.1.dimension {
                Outcome::Value(x - y)
            } else {
                Outcome::Mismatch
            }
        },
        Eval::Mul(a, b) => {
            let x = match get_or_eval(vars, &a) {
                Some(x) => x,
                None => { return Outcome::Unknown; },
            };
            let y = match get_or_eval(vars, &b) {
                Some(y) => y,
                None => { return Outcome::Unknown; },
            };
            Outcome::Value(x * y)
        },
        Eval::Div(a, b) => {
            let x = match get_or_eval(vars, &a) {
                Some(x) => x,
                None => { return Outcome::Unknown; },
            };
            let y = match get_or_eval(vars, &b) {
                Some(y) => y,
                None => { return Outcome::Unknown; },
            };
            Outcome::Value(x / y)
        },
        Eval::Pow(a, b) => {
            let n = match parse_small_whole(&b) {
                Some(n) => n,
                None => { return Outcome::Unknown; },
            };
            match get_or_eval(vars, &a) {
                Some(x) => Outcome::Value(Value(x.0.powi(n as i32), x.1 * n)),
                None => Outcome::Unknown,
            }
        },
        Eval::Func(f, b) => {
            let chars = chars_of(b.as_str());
            match vars.get(&chars) {
                Some(value) => Outcome::Apply(f, value),
                None => Outcome::Unknown,
            }
        },
    }
}

} // verus!
