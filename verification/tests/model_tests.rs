use markov_simulator::command::Command;
use markov_simulator::errors::{CodeError, RunError};
use markov_simulator::expression::{Number, Value};
use markov_simulator::markov::ModelType as ChainType;
use markov_simulator::parser::{ModelType, Parser};
use markov_simulator::scanner::Reader;
use markov_simulator::simulator::Simulator;

const EXAMPLE: &str = "dtmc

def:
    $p = 0.5
    $q = 1 - $p

model:
    a -> ($p) b, ($q) c
    b -> (1) b
    c -> (0.25 * 2) a, (0.5) c

init:
    a = 1
";

fn value(n: &Number) -> f64 {
    match n {
        Number::Numeral(text) => text.parse::<f64>().unwrap(),
        Number::Neg(a) => -value(a),
        Number::Add(a, b) => value(a) + value(b),
        Number::Sub(a, b) => value(a) - value(b),
        Number::Mul(a, b) => value(a) * value(b),
        Number::Div(a, b) => value(a) / value(b),
    }
}

fn build(source: &str) -> Result<Simulator, String> {
    let mut reader = Reader::new(String::from(source));
    let tokens = reader.scan().map_err(|e| e.what())?;
    let mut parser = Parser::new(tokens);
    let (model_type, defs, model, inits) = parser.parse().map_err(|e| e.what())?;
    Simulator::new(model_type.chain_type(), defs, model, inits).map_err(|e| e.what())
}

fn state_names(sim: &Simulator) -> Vec<String> {
    let t = sim.tables();
    (0..t.state_count()).map(|i| t.state_name(i).clone()).collect()
}

fn initial_values(sim: &Simulator) -> Vec<Option<f64>> {
    let t = sim.tables();
    (0..t.state_count()).map(|i| t.initial_value(i).as_ref().map(value)).collect()
}

fn transition(sim: &Simulator, from: usize, to: usize) -> Option<f64> {
    let mut found = None;
    for (c, n, v) in sim.tables().transition_list().iter() {
        if *c == from && *n == to {
            found = Some(value(v));
        }
    }
    found
}

#[test]
fn builds_the_readme_example() {
    let sim = match build(EXAMPLE) {
        Ok(s) => s,
        Err(e) => panic!("{}", e),
    };
    assert_eq!(sim.model_type(), ChainType::Dtmc);
    assert_eq!(state_names(&sim), vec!["a", "b", "c"]);
    assert_eq!(transition(&sim, 0, 1), Some(0.5));
    assert_eq!(transition(&sim, 0, 2), Some(0.5));
    assert_eq!(transition(&sim, 1, 1), Some(1.0));
    assert_eq!(transition(&sim, 2, 0), Some(0.5));
    assert_eq!(transition(&sim, 2, 2), Some(0.5));
    assert_eq!(transition(&sim, 1, 0), None);
    let init = initial_values(&sim);
    assert_eq!(init, vec![Some(1.0), None, None]);
    assert_eq!(sim.initial_state(), 0);
    assert_eq!(sim.steps(), 0);
}

#[test]
fn state_names_and_numbers() {
    let mut sim = build(EXAMPLE).ok().unwrap();
    assert_eq!(sim.state_name(2), "c");
    assert_eq!(sim.state_index(&String::from("b")), Some(1));
    assert_eq!(sim.state_index(&String::from("z")), None);
    sim.record_step();
    sim.record_step();
    assert_eq!(sim.steps(), 2);
    sim.reset_steps();
    assert_eq!(sim.steps(), 0);
}

#[test]
fn variables_keep_their_arithmetic() {
    let mut sim = build(EXAMPLE).ok().unwrap();
    match sim.lookup_variable(&String::from("$q")) {
        Ok(Value::Number(Number::Sub(a, b))) => {
            assert!(matches!(*a, Number::Numeral(ref t) if t == "1"));
            assert!(matches!(*b, Number::Numeral(ref t) if t == "0.5"));
        },
        _ => panic!("$q should be 1 - 0.5"),
    }
    assert!(matches!(sim.lookup_variable(&String::from("$r")), Err(true)));
}

#[test]
fn parses_model_type_and_grouping() {
    let src = "ctmc\nmodel:\na -> (-(2 + 1) / 3) b\n";
    let sim = build(src).ok().unwrap();
    assert_eq!(sim.model_type(), ChainType::Ctmc);
    assert_eq!(transition(&sim, 0, 1), Some(-1.0));
}

#[test]
fn later_transition_to_a_state_replaces_the_earlier() {
    let src = "dtmc\nmodel:\na -> ($nothing) b, (0.75) b\n";
    let sim = build(src).ok().unwrap();
    assert_eq!(transition(&sim, 0, 1), Some(0.75));
    assert_eq!(sim.tables().state_count(), 2);
}

#[test]
fn later_section_replaces_earlier() {
    let src = "dtmc\ninit:\na = 0.5\nmodel:\na -> (1) a\ninit:\na = 0.25\n";
    let sim = build(src).ok().unwrap();
    let init = initial_values(&sim);
    assert_eq!(init, vec![Some(0.25)]);
}

#[test]
fn unknown_state_in_init_is_ignored() {
    let src = "dtmc\nmodel:\na -> (1) a\ninit:\nz = 1\n";
    let sim = build(src).ok().unwrap();
    let init = initial_values(&sim);
    assert_eq!(init, vec![None]);
}

#[test]
fn missing_model_type() {
    assert_eq!(build("model:\n").err().unwrap(), "Syntax Error! model at 0:0, Expect model type (ctmc or dtmc) ");
}

#[test]
fn missing_line_break_after_model_type() {
    assert_eq!(build("dtmc model:").err().unwrap(), "Syntax Error! model at 0:5, Expect new line after model type ");
}

#[test]
fn missing_colon_after_section_name() {
    assert_eq!(build("dtmc\nmodel\n").err().unwrap(), "Syntax Error! \n at 1:5, Expect ':' after section name ");
}

#[test]
fn unknown_section_name() {
    assert_eq!(build("dtmc\nstates:\n").err().unwrap(), "Syntax Error! states at 1:0, Expected section name ");
}

#[test]
fn missing_closing_paren() {
    assert_eq!(build("dtmc\nmodel:\na -> (1 b\n").err().unwrap(), "Syntax Error! b at 2:8, Expect ')' ");
}

#[test]
fn missing_comma_between_transitions() {
    assert_eq!(build("dtmc\nmodel:\na -> (1) b (1) c\n").err().unwrap(), "Syntax Error! ( at 2:11, Expect ',' between transition ");
}

#[test]
fn variable_declaration_needs_a_variable() {
    assert_eq!(build("dtmc\ndef:\np = 1\n").err().unwrap(), "Syntax Error! p at 2:0, Expect variable name ");
}

#[test]
fn operand_must_be_a_value() {
    assert_eq!(build("dtmc\ndef:\n$p = +\n").err().unwrap(), "Syntax Error! + at 2:5, Expect variable or literal value ");
}

#[test]
fn unparsed_second_operator_is_an_error() {
    assert_eq!(build("dtmc\ndef:\n$p = 1 + 2 + 3\n").err().unwrap(), "Syntax Error! + at 2:11, Expect new line after variable declaration ");
}

#[test]
fn undefined_variable() {
    assert_eq!(build("dtmc\nmodel:\na -> ($x) b\n").err().unwrap(), "Error: name $x at 2:6 not found");
}

#[test]
fn undefined_variable_in_definitions() {
    match build("dtmc\ndef:\n$a = $b\n") {
        Err(e) => assert_eq!(e, "Error: name $b at 2:5 not found"),
        Ok(_) => panic!("expected an error"),
    }
}

#[test]
fn boolean_operand_is_a_type_error() {
    let mut reader = Reader::new(String::from("dtmc\ndef:\n$c = $b * 2\n"));
    let tokens = reader.scan().ok().unwrap();
    let mut parser = Parser::new(tokens);
    let (_, defs, model, inits) = parser.parse().ok().unwrap();
    let mut sim = Simulator::empty(ChainType::Dtmc);
    sim.add_variable(&String::from("$b"), Value::Boolean(true));
    let r = defs.run(&mut sim);
    match r {
        Err(RunError::Type(e)) => assert_eq!(e.what(), "Type Error: expected Number but given Boolean"),
        _ => panic!("expected a type error"),
    }
    assert!(model.run(&mut sim).is_ok());
    assert!(inits.run(&mut sim).is_ok());
}

#[test]
fn boolean_rate_is_a_type_error() {
    let mut reader = Reader::new(String::from("dtmc\nmodel:\na -> ($b) b\n"));
    let tokens = reader.scan().ok().unwrap();
    let mut parser = Parser::new(tokens);
    let (_, _, model, _) = parser.parse().ok().unwrap();
    let mut sim = Simulator::empty(ChainType::Dtmc);
    sim.add_variable(&String::from("$b"), Value::Boolean(false));
    match model.run(&mut sim) {
        Err(e) => assert_eq!(e.what(), "Type Error: expected Float but given Boolean"),
        Ok(_) => panic!("expected a type error"),
    }
    assert_eq!(sim.tables().state_count(), 2);
}

#[test]
fn model_type_names_the_chain() {
    assert_eq!(ModelType::Ctmc.chain_type(), ChainType::Ctmc);
    assert_eq!(ModelType::Dtmc.chain_type(), ChainType::Dtmc);
}

#[test]
fn parsing_stops_at_the_first_end_token() {
    let sim = build("dtmc\nmodel:\na -> (1) a\n\0 trailing words").ok().unwrap();
    assert_eq!(sim.tables().state_count(), 1);
}

#[test]
fn empty_specification_after_model_type() {
    let sim = build("ctmc\n").ok().unwrap();
    assert_eq!(sim.tables().state_count(), 0);
    assert_eq!(sim.model_type(), ChainType::Ctmc);
}

#[test]
fn init_section_before_model_still_sets_values() {
    let src = "dtmc\ninit:\nb = 1\nmodel:\na -> (1) b\nb -> (1) b\n";
    let sim = build(src).ok().unwrap();
    assert_eq!(state_names(&sim), vec!["a", "b"]);
    assert_eq!(initial_values(&sim), vec![None, Some(1.0)]);
}

#[test]
fn readme_names_with_underscores() {
    let src = "dtmc\n\ndef:\n    $p = 0.5\n\nmodel:\n    node_a -> ($p) node_b, (1 - $p) node_a\n    node_b -> (1) node_b\n\ninit:\n    node_a = 1\n";
    let sim = match build(src) {
        Ok(s) => s,
        Err(e) => panic!("{}", e),
    };
    assert_eq!(state_names(&sim), vec!["node_a", "node_b"]);
    assert_eq!(transition(&sim, 0, 1), Some(0.5));
    assert_eq!(transition(&sim, 0, 0), Some(0.5));
    assert_eq!(transition(&sim, 1, 1), Some(1.0));
    assert_eq!(initial_values(&sim), vec![Some(1.0), None]);
}
