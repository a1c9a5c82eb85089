use unit_maths::expr::power;
use unit_maths::infix::trimmed;
use unit_maths::tokeniser::{classify, Class};
use unit_maths::{infix_to_postfix, Arg, Expr, Operator, Tokeniser};

fn tokens(s: &str) -> Vec<String> {
    let mut t = Tokeniser::new(s);
    let mut out = Vec::new();
    while let Some(token) = t.next() {
        out.push(token);
    }
    out
}

#[test]
fn tokens_of_an_expression() {
    assert_eq!(tokens("a+b"), vec!["a", "+", "b"]);
    assert_eq!(tokens("  12.5 * (x - y)^2 "), vec!["12.5", "*", "(", "x", "-", "y", ")", "^", "2"]);
    assert_eq!(tokens("x²⁻¹ y"), vec!["x", "²⁻¹", "y"]);
    assert_eq!(tokens("a := b"), vec!["a", ":", "=", "b"]);
    assert_eq!(tokens(""), Vec::<String>::new());
    assert_eq!(tokens(" \t\n"), Vec::<String>::new());
    assert_eq!(tokens("ab cd"), vec!["ab", "cd"]);
}

#[test]
fn postfix_of_simple_expressions() {
    assert_eq!(infix_to_postfix("a + b"), Some("a b +".to_string()));
    assert_eq!(infix_to_postfix("a + b * c"), Some("a b c + *".to_string()));
    assert_eq!(infix_to_postfix("a * b + c"), Some("a b * c +".to_string()));
    assert_eq!(infix_to_postfix("(a + b) * c"), Some("a b + c *".to_string()));
    assert_eq!(infix_to_postfix("x"), Some("x".to_string()));
    assert_eq!(infix_to_postfix(""), Some("".to_string()));
    assert_eq!(infix_to_postfix("x²"), Some("x ²".to_string()));
}

#[test]
fn a_closing_bracket_needs_an_opening_one() {
    assert_eq!(infix_to_postfix("a + b)"), None);
    assert_eq!(infix_to_postfix(")"), None);
}

#[test]
fn operators_from_text() {
    assert_eq!(Operator::from_str("+"), Some(Operator::Add));
    assert_eq!(Operator::from_str("-"), Some(Operator::Sub));
    assert_eq!(Operator::from_str("*"), Some(Operator::Mul));
    assert_eq!(Operator::from_str("/"), Some(Operator::Div));
    assert_eq!(Operator::from_str("("), Some(Operator::LBracket));
    assert_eq!(Operator::from_str(")"), Some(Operator::RBracket));
    assert_eq!(Operator::from_str("^"), Some(Operator::Pow));
    assert_eq!(Operator::from_str("="), Some(Operator::Eq));
    assert_eq!(Operator::from_str("=="), Some(Operator::Eq));
    assert_eq!(Operator::from_str(":="), Some(Operator::Eq));
    assert_eq!(Operator::from_str("²"), Some(Operator::Powi(2)));
    assert_eq!(Operator::from_str("⁻¹²"), Some(Operator::Powi(-12)));
    assert_eq!(Operator::from_str("x"), None);
    assert_eq!(Operator::from_str("2"), None);
    assert_eq!(Operator::from_str("-2"), None);
    assert_eq!(Operator::from_str(""), None);
    assert_eq!(Operator::from_str("++"), None);
}

#[test]
fn powers_are_written_in_superscripts() {
    assert_eq!(power("²"), Some(2));
    assert_eq!(power("⁻³"), Some(-3));
    assert_eq!(power("¹⁰"), Some(10));
    assert_eq!(power("⁰⁰⁷"), Some(7));
    assert_eq!(power("²¹⁴⁷⁴⁸³⁶⁴⁷"), Some(i32::MAX));
    assert_eq!(power("⁻²¹⁴⁷⁴⁸³⁶⁴⁸"), Some(i32::MIN));
    assert_eq!(power("²¹⁴⁷⁴⁸³⁶⁴⁸"), None);
    assert_eq!(power("⁻²¹⁴⁷⁴⁸³⁶⁴⁹"), None);
    assert_eq!(power("+²"), Some(2));
    assert_eq!(power("2"), None);
    assert_eq!(power("-²"), None);
    assert_eq!(power("⁻"), None);
    assert_eq!(power("²⁻"), None);
    assert_eq!(power(""), None);
    assert_eq!(power("x²"), None);
}

#[test]
fn precedence_of_operators() {
    assert_eq!(Operator::Eq.precedence(), 0);
    assert_eq!(Operator::Add.precedence(), 1);
    assert_eq!(Operator::Sub.precedence(), 1);
    assert_eq!(Operator::Mul.precedence(), 2);
    assert_eq!(Operator::Div.precedence(), 3);
    assert_eq!(Operator::Pow.precedence(), 4);
    assert_eq!(Operator::Powi(3).precedence(), 5);
    assert_eq!(Operator::RBracket.precedence(), 10);
    assert_eq!(Operator::LBracket.precedence(), 0);
}

#[test]
fn postfix_items_of_a_line() {
    let val = |s: &str| Arg::Val(s.to_string());
    assert_eq!(
        Expr::postfix(Tokeniser::new("a * b + c")),
        Some(vec![val("a"), val("b"), Arg::Op(Operator::Mul), val("c"), Arg::Op(Operator::Add)])
    );
    assert_eq!(
        Expr::postfix(Tokeniser::new("a + b * c")),
        Some(vec![val("a"), val("b"), val("c"), Arg::Op(Operator::Add), Arg::Op(Operator::Mul)])
    );
    assert_eq!(
        Expr::postfix(Tokeniser::new("x² - y")),
        Some(vec![val("x"), Arg::Op(Operator::Powi(2)), val("y"), Arg::Op(Operator::Sub)])
    );
    assert_eq!(Expr::postfix(Tokeniser::new("")), Some(vec![]));
    assert_eq!(Expr::postfix(Tokeniser::new("a )")), None);
    assert_eq!(
        Expr::postfix(Tokeniser::new("( a )")),
        Some(vec![val("a")])
    );
}

#[test]
fn no_tree_is_built() {
    assert!(Expr::from_str("a + b").is_none());
    assert!(Expr::from_str("").is_none());
    assert!(Expr::new(Tokeniser::new("(a")).is_none());
}

#[test]
fn expressions_are_built_by_operators() {
    let a = || Expr::Val("a".to_string());
    let b = || Expr::Val("b".to_string());
    assert!(matches!(a() + b(), Expr::Add(_, _)));
    assert!(matches!(a() - b(), Expr::Sub(_, _)));
    assert!(matches!(a() * b(), Expr::Mul(_, _)));
    assert!(matches!(a() / b(), Expr::Div(_, _)));
    assert!(matches!(a().powi(3), Expr::Pow(_, 3)));
    assert!(matches!(a().eq(b()), Expr::Equal(_, _)));
    match a().func("p".to_string()) {
        Expr::Func(name, inner) => {
            assert_eq!(name, "p");
            assert!(matches!(*inner, Expr::Val(_)));
        }
        _ => panic!("not a function"),
    }
}

#[test]
fn postfix_keeps_unicode_operands_and_trims() {
    assert_eq!(infix_to_postfix("  α + β  "), Some("α β +".to_string()));
    assert_eq!(infix_to_postfix("a = b"), Some("a = b".to_string()));
    assert_eq!(infix_to_postfix("a ^ b * c"), Some("a b ^ c *".to_string()));
    assert_eq!(infix_to_postfix("a - b - c"), Some("a b - c -".to_string()));
    assert_eq!(infix_to_postfix("(a"), Some("a (".to_string()));
}

#[test]
fn trimming_and_classes() {
    let chars = |s: &str| s.chars().collect::<Vec<char>>();
    assert_eq!(trimmed(&chars("  a b \t\n")), chars("a b"));
    assert_eq!(trimmed(&chars("   ")), chars(""));
    assert_eq!(trimmed(&chars("")), chars(""));
    assert_eq!(trimmed(&chars("ab")), chars("ab"));
    assert_eq!(classify('+'), Class::Token);
    assert_eq!(classify('='), Class::Token);
    assert_eq!(classify('²'), Class::Power);
    assert_eq!(classify('⁻'), Class::Power);
    assert_eq!(classify(' '), Class::Whitespace);
    assert_eq!(classify('\u{a0}'), Class::Whitespace);
    assert_eq!(classify('x'), Class::Symbol);
    assert_eq!(classify('7'), Class::Symbol);
}
