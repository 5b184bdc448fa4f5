use markov_simulator::errors::CodeError;
use markov_simulator::scanner::Reader;
use markov_simulator::token::{Literal, Token, TokenType};

fn scan(source: &str) -> Vec<Token> {
    let mut reader = Reader::new(String::from(source));
    match reader.scan() {
        Ok(tokens) => tokens,
        Err(e) => panic!("unexpected scan error: {}", e.what()),
    }
}

fn kinds(tokens: &[Token]) -> Vec<TokenType> {
    tokens.iter().map(|t| t.token_type).collect()
}

#[test]
fn scans_symbols_and_keywords() {
    let tokens = scan("dtmc ctmc def model init ( ) : , = + - * / ->");
    assert_eq!(
        kinds(&tokens),
        vec![
            TokenType::Dtmc,
            TokenType::Ctmc,
            TokenType::Def,
            TokenType::Model,
            TokenType::Init,
            TokenType::LeftParen,
            TokenType::RightParen,
            TokenType::Colon,
            TokenType::Comma,
            TokenType::Equal,
            TokenType::Plus,
            TokenType::Minus,
            TokenType::Mult,
            TokenType::Div,
            TokenType::Arrow,
            TokenType::Eof,
        ]
    );
    assert_eq!(tokens[14].lexeme, "->");
}

#[test]
fn ends_with_one_empty_end_token() {
    let tokens = scan("a");
    assert_eq!(tokens.len(), 2);
    assert_eq!(tokens[1].token_type, TokenType::Eof);
    assert_eq!(tokens[1].lexeme, "");
    assert_eq!(tokens[1].line, 0);
    assert_eq!(tokens[1].pos, 1);
    let empty = scan("");
    assert_eq!(kinds(&empty), vec![TokenType::Eof]);
}

#[test]
fn collapses_line_breaks_and_drops_blanks() {
    let tokens = scan("a\n\n \n\t\r\nb\n");
    assert_eq!(
        kinds(&tokens),
        vec![TokenType::Identifier, TokenType::NewLine, TokenType::Identifier, TokenType::NewLine, TokenType::Eof]
    );
    assert_eq!(tokens[2].line, 4);
    assert_eq!(tokens[2].pos, 0);
    assert_eq!(tokens[4].line, 5);
}

#[test]
fn reads_variables_with_positions() {
    let tokens = scan("  $rate_1 = 2");
    assert_eq!(tokens[0].token_type, TokenType::Variable);
    assert_eq!(tokens[0].lexeme, "$rate_1");
    assert_eq!(tokens[0].line, 0);
    assert_eq!(tokens[0].pos, 2);
    assert!(matches!(tokens[0].literal, Literal::Null));
    assert_eq!(tokens[1].pos, 10);
    assert_eq!(tokens[2].pos, 12);
}

#[test]
fn reads_numbers_with_their_numeral() {
    let tokens = scan("0.25 12 7");
    assert_eq!(tokens[0].token_type, TokenType::Value);
    assert_eq!(tokens[0].lexeme, "0.25");
    assert!(matches!(&tokens[0].literal, Literal::Float(n) if n == "0.25"));
    assert_eq!(tokens[1].lexeme, "12");
    assert_eq!(tokens[2].lexeme, "7");
}

#[test]
fn number_then_dot_without_digit_is_an_error() {
    let mut reader = Reader::new(String::from("3.x"));
    match reader.scan() {
        Ok(_) => panic!("a lone dot is not a token"),
        Err(e) => assert_eq!(e.what(), ". at 0:1, Invalid character(s)"),
    }
}

#[test]
fn words_use_unicode_letters_and_digits() {
    let tokens = scan("état a٣");
    assert_eq!(tokens[0].token_type, TokenType::Identifier);
    assert_eq!(tokens[0].lexeme, "état");
    assert_eq!(tokens[1].lexeme, "a٣");
}

#[test]
fn non_ascii_digit_cannot_start_a_token() {
    let mut reader = Reader::new(String::from("x\n٣"));
    match reader.scan() {
        Ok(_) => panic!("expected an error"),
        Err(e) => assert_eq!(e.what(), "٣ at 1:0, Invalid character(s)"),
    }
}

#[test]
fn dollar_needs_a_name() {
    let mut reader = Reader::new(String::from("$ x"));
    match reader.scan() {
        Ok(_) => panic!("expected an error"),
        Err(e) => assert_eq!(e.what(), "$ at 0:0, Expect an identifier after $"),
    }
}

#[test]
fn minus_without_arrow() {
    let tokens = scan("a - b");
    assert_eq!(kinds(&tokens), vec![TokenType::Identifier, TokenType::Minus, TokenType::Identifier, TokenType::Eof]);
    assert_eq!(tokens[1].lexeme, "-");
}

#[test]
fn scan_token_reads_one_token() {
    let mut reader = Reader::new(String::from("(x"));
    let first = reader.scan_token();
    assert!(matches!(first, Ok(ref t) if t.token_type == TokenType::LeftParen && t.lexeme == "("));
}

#[test]
fn map_keyword_knows_three_words() {
    assert_eq!(Token::map_keyword("dtmc"), TokenType::Dtmc);
    assert_eq!(Token::map_keyword("ctmc"), TokenType::Ctmc);
    assert_eq!(Token::map_keyword("init"), TokenType::Init);
    assert_eq!(Token::map_keyword("model"), TokenType::Identifier);
}

#[test]
fn numbers_take_ascii_digits_only() {
    let mut reader = Reader::new(String::from("1½"));
    match reader.scan() {
        Ok(_) => panic!("½ is not a digit of a number"),
        Err(e) => assert_eq!(e.what(), "½ at 0:1, Invalid character(s)"),
    }
}

#[test]
fn number_token_stops_before_a_non_ascii_numeric() {
    let mut reader = Reader::new(String::from("1½"));
    match reader.scan_token() {
        Ok(t) => {
            assert_eq!(t.token_type, TokenType::Value);
            assert_eq!(t.lexeme, "1");
            assert!(matches!(&t.literal, Literal::Float(n) if n == "1"));
            assert_eq!((t.line, t.pos), (0, 0));
        }
        Err(e) => panic!("unexpected scan error: {}", e.what()),
    }
}

#[test]
fn identifiers_take_underscores() {
    let tokens = scan("node_a");
    assert_eq!(tokens.len(), 2);
    assert_eq!(tokens[0].token_type, TokenType::Identifier);
    assert_eq!(tokens[0].lexeme, "node_a");
    assert!(matches!(tokens[0].literal, Literal::Null));
    assert_eq!((tokens[0].line, tokens[0].pos), (0, 0));
    assert_eq!(tokens[1].token_type, TokenType::Eof);
    assert_eq!(tokens[1].lexeme, "");
    assert_eq!((tokens[1].line, tokens[1].pos), (0, 6));
    let tokens = scan("node_name_1 -> s_2");
    assert_eq!(tokens[0].lexeme, "node_name_1");
    assert_eq!(tokens[2].lexeme, "s_2");
}

#[test]
fn nul_character_is_an_end_token() {
    let tokens = scan("a\0b");
    assert_eq!(kinds(&tokens), vec![TokenType::Identifier, TokenType::Eof, TokenType::Identifier, TokenType::Eof]);
    assert_eq!(tokens[1].lexeme, "\0");
}
