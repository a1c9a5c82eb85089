use unit_maths::text::{join_words, split_words};
use unit_maths::{
    evaluate, line_to_command, Command, Dimension, Eval, Number, Outcome, Quantity, Table, Unit,
    UnitSystem, Value,
};

#[derive(Debug, Clone, Copy, PartialEq)]
struct Real(f64);

impl Number for Real {
    fn one() -> Self {
        Real(1.0)
    }

    fn from_i32(n: i32) -> Self {
        Real(f64::from(n))
    }

    fn plus(self, rhs: Self) -> Self {
        Real(self.0 + rhs.0)
    }

    fn minus(self, rhs: Self) -> Self {
        Real(self.0 - rhs.0)
    }

    fn times(self, rhs: Self) -> Self {
        Real(self.0 * rhs.0)
    }

    fn over(self, rhs: Self) -> Self {
        Real(self.0 / rhs.0)
    }

    fn powi(self, n: i32) -> Self {
        Real(self.0.powi(n))
    }

    fn abs(self) -> Self {
        Real(self.0.abs())
    }

    fn less(self, rhs: Self) -> bool {
        self.0 < rhs.0
    }

    fn same(self, rhs: Self) -> bool {
        self.0 == rhs.0
    }

    fn parse(text: &str) -> Option<Self> {
        text.parse().ok().map(Real)
    }

    fn render(self) -> String {
        format!("{}", self.0)
    }
}

fn si() -> UnitSystem<Real> {
    UnitSystem::si()
}

fn chars(s: &str) -> Vec<char> {
    s.chars().collect()
}

fn text(s: &str) -> String {
    s.to_string()
}

fn variables() -> Table<Value<Real>> {
    let si = si();
    let mut vars = Table::new();
    assert_eq!(vars.insert(chars("v"), si.val_s("30 mL").unwrap()), None);
    assert_eq!(vars.insert(chars("c"), si.val_s("0.1 M").unwrap()), None);
    assert_eq!(vars.insert(chars("t"), si.val_s("2 min").unwrap()), None);
    vars
}

#[test]
fn lines_that_define_and_assign() {
    let si = si();
    assert_eq!(
        line_to_command("x = 30 mL", &si),
        Some(Command::Define(text("x"), Value(Real(30.0), si.index("mL"))))
    );
    assert_eq!(
        line_to_command("  x   :=   2.5   kg   m/s²  ", &si),
        Some(Command::Define(text("x"), si.val_s("2.5 kg m/s²").unwrap()))
    );
    assert_eq!(
        line_to_command("z = x * y", &si),
        Some(Command::Assign(text("z"), Eval::Mul(text("x"), text("y"))))
    );
    assert_eq!(
        line_to_command("z = p x", &si),
        Some(Command::Assign(text("z"), Eval::Func(text("p"), text("x"))))
    );
    assert_eq!(line_to_command("x = 30 furlong", &si), None);
    assert_eq!(line_to_command("x =", &si), None);
    assert_eq!(line_to_command("x = y = 3 m", &si), None);
    assert_eq!(line_to_command("x = y ?", &si), None);
}

#[test]
fn lines_that_evaluate_and_inspect() {
    let si = si();
    assert_eq!(line_to_command("x ?", &si), Some(Command::Inspect(text("x"))));
    assert_eq!(line_to_command("a + b", &si), Some(Command::Eval(Eval::Add(text("a"), text("b")))));
    assert_eq!(line_to_command("a - b", &si), Some(Command::Eval(Eval::Sub(text("a"), text("b")))));
    assert_eq!(line_to_command("a * 2", &si), Some(Command::Eval(Eval::Mul(text("a"), text("2")))));
    assert_eq!(line_to_command("a / b c", &si), Some(Command::Eval(Eval::Div(text("a"), text("b")))));
    assert_eq!(line_to_command("a ^ -2", &si), Some(Command::Eval(Eval::Pow(text("a"), text("-2")))));
    assert_eq!(line_to_command("p x", &si), Some(Command::Eval(Eval::Func(text("p"), text("x")))));
    assert_eq!(line_to_command("a +", &si), None);
    assert_eq!(line_to_command("a", &si), None);
    assert_eq!(line_to_command("", &si), None);
    assert_eq!(line_to_command("   ", &si), None);
    assert_eq!(line_to_command("2 x", &si), None);
    assert_eq!(line_to_command("stop", &si), None);
}

#[test]
fn evaluation_over_variables() {
    let si = si();
    let vars = variables();
    let v = si.val_s("30 mL").unwrap();
    let c = si.val_s("0.1 M").unwrap();
    assert_eq!(evaluate(Eval::Mul(text("v"), text("c")), &vars), Outcome::Value(v * c));
    assert_eq!(evaluate(Eval::Div(text("v"), text("c")), &vars), Outcome::Value(v / c));
    assert_eq!(evaluate(Eval::Add(text("v"), text("v")), &vars), Outcome::Value(Value(Real(60.0), v.1)));
    assert_eq!(evaluate(Eval::Sub(text("v"), text("v")), &vars), Outcome::Value(Value(Real(0.0), v.1)));
    assert_eq!(
        evaluate(Eval::Mul(text("v"), text("2")), &vars),
        Outcome::Value(Value(Real(60.0), Unit { dimension: Quantity::Volume.dimension(), factor: Real(1e-6) }))
    );
    assert_eq!(
        evaluate(Eval::Add(text("1"), text("2")), &vars),
        Outcome::Value(Value(Real(3.0), Unit::new(Dimension::nul())))
    );
    assert_eq!(evaluate(Eval::Add(text("v"), text("t")), &vars), Outcome::Mismatch);
    assert_eq!(evaluate(Eval::Sub(text("v"), text("1")), &vars), Outcome::Mismatch);
    assert_eq!(evaluate(Eval::Add(text("v"), text("w")), &vars), Outcome::Unknown);
    assert_eq!(evaluate(Eval::Mul(text("w"), text("v")), &vars), Outcome::Unknown);
}

#[test]
fn powers_and_functions() {
    let si = si();
    let vars = variables();
    let t = si.val_s("2 min").unwrap();
    assert_eq!(
        evaluate(Eval::Pow(text("t"), text("2")), &vars),
        Outcome::Value(Value(Real(4.0), t.1 * 2))
    );
    assert_eq!(
        evaluate(Eval::Pow(text("t"), text("+2")), &vars),
        Outcome::Value(Value(Real(4.0), t.1 * 2))
    );
    assert_eq!(
        evaluate(Eval::Pow(text("t"), text("-1")), &vars),
        Outcome::Value(Value(Real(0.5), t.1 * -1))
    );
    assert_eq!(evaluate(Eval::Pow(text("t"), text("x")), &vars), Outcome::Unknown);
    assert_eq!(evaluate(Eval::Pow(text("t"), text("40000")), &vars), Outcome::Unknown);
    assert_eq!(evaluate(Eval::Pow(text("t"), text("1.5")), &vars), Outcome::Unknown);
    assert_eq!(evaluate(Eval::Pow(text("w"), text("2")), &vars), Outcome::Unknown);
    assert_eq!(
        evaluate(Eval::Func(text("p"), text("c")), &vars),
        Outcome::Apply(text("p"), si.val_s("0.1 M").unwrap())
    );
    assert_eq!(evaluate(Eval::Func(text("p"), text("w")), &vars), Outcome::Unknown);
    assert_eq!(evaluate(Eval::Func(text("p"), text("2")), &vars), Outcome::Unknown);
}

#[test]
fn a_table_keeps_one_value_for_each_symbol() {
    let mut table: Table<i32> = Table::new();
    assert_eq!(table.len(), 0);
    assert_eq!(table.get(&chars("a")), None);
    assert_eq!(table.insert(chars("a"), 1), None);
    assert_eq!(table.insert(chars("b"), 2), None);
    assert_eq!(table.insert(chars("a"), 3), Some(1));
    assert_eq!(table.len(), 2);
    assert_eq!(table.get(&chars("a")), Some(3));
    assert_eq!(table.get(&chars("b")), Some(2));
    assert_eq!(table.get(&chars("")), None);
}

#[test]
fn words_are_split_and_joined() {
    let words = split_words(&chars("  a  bc\td \n"));
    assert_eq!(words, vec![chars("a"), chars("bc"), chars("d")]);
    assert_eq!(join_words(&words, 0), chars("a bc d"));
    assert_eq!(join_words(&words, 1), chars("bc d"));
    assert_eq!(join_words(&words, 2), chars("d"));
    assert_eq!(join_words(&words, 3), chars(""));
    assert_eq!(split_words(&chars("")), Vec::<Vec<char>>::new());
    assert_eq!(split_words(&chars("   ")), Vec::<Vec<char>>::new());
}
