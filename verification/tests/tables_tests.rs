use markov_simulator::errors::{CodeError, IdentifierNotFoundError, ScanError, SyntaxError, TypeError, ValueError};
use markov_simulator::expression::{Expr, Expression, LiteralExpression, Number, Value, VariableExpression};
use markov_simulator::generator::Generator;
use markov_simulator::markov::ModelType as ChainType;
use markov_simulator::parser::ModelType;
use markov_simulator::simulator::Simulator;
use markov_simulator::tables::ModelTables;
use markov_simulator::token::{Literal, Token, TokenType};

fn numeral(text: &str) -> Number {
    Number::Numeral(String::from(text))
}

fn numeral_text(v: &Value) -> String {
    match v {
        Value::Number(Number::Numeral(t)) => t.clone(),
        _ => String::from("?"),
    }
}

#[test]
fn lookup_gives_the_last_value_added() {
    let mut t = ModelTables::new();
    let x = String::from("$x");
    let y = String::from("$y");
    t.add_variable(&x, Value::Number(numeral("1")));
    t.add_variable(&y, Value::Number(numeral("2")));
    t.add_variable(&x, Value::Number(numeral("3")));
    assert_eq!(numeral_text(&t.lookup_variable(&x).ok().unwrap()), "3");
    assert_eq!(numeral_text(&t.lookup_variable(&y).ok().unwrap()), "2");
    assert!(matches!(t.lookup_variable(&String::from("$z")), Err(true)));
}

#[test]
fn adding_a_state_twice_keeps_one() {
    let mut t = ModelTables::new();
    let a = String::from("a");
    let b = String::from("b");
    t.add_node(&a);
    t.add_node(&b);
    t.add_node(&a);
    assert_eq!(t.state_count(), 2);
    assert_eq!(t.state_index(&a), Some(0));
    assert_eq!(t.state_index(&b), Some(1));
    assert_eq!(t.state_name(0), "a");
    assert_eq!(t.state_name(1), "b");
    assert!(t.initial_value(0).is_none());
    assert!(t.initial_value(1).is_none());
}

#[test]
fn transitions_and_initial_values() {
    let mut t = ModelTables::new();
    let a = String::from("a");
    let b = String::from("b");
    t.add_node(&a);
    t.add_node(&b);
    t.set_transition(&b, &a, numeral("0.1"));
    t.set_transition(&b, &a, numeral("0.2"));
    let list = t.transition_list();
    let last = list.iter().rev().find(|(c, n, _)| *c == 1 && *n == 0).unwrap();
    assert!(matches!(&last.2, Number::Numeral(s) if s == "0.2"));
    assert!(t.initialize_node(&b, numeral("1")));
    assert!(!t.initialize_node(&String::from("c"), numeral("1")));
    assert!(t.initial_value(0).is_none());
    assert!(matches!(t.initial_value(1), Some(Number::Numeral(s)) if s == "1"));
    assert_eq!(t.state_name(1), "b");
}

#[test]
fn generator_collects_tables() {
    let mut g = Generator::new(ModelType::Ctmc);
    let a = String::from("a");
    g.add_node(&a);
    g.add_variable(&String::from("$r"), Value::Number(numeral("4")));
    g.set_transition(&a, &a, numeral("0"));
    assert!(g.initialize_node(&a, numeral("1")));
    assert_eq!(g.model_type(), ModelType::Ctmc);
    assert_eq!(g.tables().state_count(), 1);
    assert_eq!(numeral_text(&g.lookup_variable(&String::from("$r")).ok().unwrap()), "4");
    assert!(matches!(g.lookup_variable(&String::from("$s")), Err(true)));
}

#[test]
fn simulator_tables_by_hand() {
    let mut s = Simulator::empty(ChainType::Dtmc);
    let a = String::from("a");
    s.add_node(&a);
    s.set_transition(&a, &a, numeral("1"));
    assert!(s.initialize_node(&a, numeral("1")));
    assert!(!s.initialize_node(&String::from("b"), numeral("1")));
    assert_eq!(s.tables().transition_list().len(), 1);
}

#[test]
fn error_texts() {
    let token = Token::new(TokenType::Identifier, String::from("x1"), Literal::Null, 12, 305);
    assert_eq!(ScanError::new(3, 40, String::from("@"), "Invalid character(s)").what(), "@ at 3:40, Invalid character(s)");
    assert_eq!(SyntaxError::new(&token, "Expect ')'").what(), "Syntax Error! x1 at 12:305, Expect ')' ");
    assert_eq!(
        TypeError::new(String::from("Float"), String::from("Boolean")).what(),
        "Type Error: expected Float but given Boolean"
    );
    assert_eq!(IdentifierNotFoundError::new(&token).what(), "Error: name x1 at 12:305 not found");
    assert_eq!(ValueError::new(0, 9).what(), "Value Error: no number at 0:9");
}

#[test]
fn literal_without_number_is_a_value_error() {
    let token = Token::new(TokenType::Value, String::from("x"), Literal::Null, 3, 4);
    let mut sim = Simulator::empty(ChainType::Dtmc);
    let e = LiteralExpression::new(token);
    match e.eval(&mut sim) {
        Err(err) => assert_eq!(err.what(), "Value Error: no number at 3:4"),
        Ok(_) => panic!("expected an error"),
    }
}

#[test]
fn variable_expression_reads_the_simulator() {
    let mut sim = Simulator::empty(ChainType::Dtmc);
    sim.add_variable(&String::from("$v"), Value::Number(numeral("0.3")));
    let token = Token::new(TokenType::Variable, String::from("$v"), Literal::Null, 0, 0);
    let e = Expr::Variable(VariableExpression::new(token));
    assert_eq!(numeral_text(&e.eval(&mut sim).ok().unwrap()), "0.3");
}
