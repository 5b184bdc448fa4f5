use vstd::prelude::*;

verus! {

/// The kinds of token that the scanner produces.
#[derive(Debug, PartialEq, Eq, Clone, Copy, Structural)]
pub enum TokenType {
    // Model types
    Dtmc,
    Ctmc,
    // Spaces
    NewLine,
    Skip,
    // Symbols
    Arrow,
    Comma,
    LeftParen,
    RightParen,
    Equal,
    Colon,
    // Arithmetic
    Plus,
    Minus,
    Mult,
    Div,
    // Keywords
    Init,
    Def,
    Model,
    // Values
    Variable,
    Identifier,
    Value,
    // End of input
    Eof,
}

/// The literal carried by a token.
///
/// A numeric literal keeps its decimal numeral exactly as written; the
/// numeral is read as a binary floating-point number only where the Markov
/// chain is built, outside this library.
#[derive(Debug)]
pub enum Literal {
    Null,
    Float(String),
    Name(String),
}

/// Mathematical model of a `Literal`.
#[verifier::ext_equal]
pub enum LiteralModel {
    Null,
    Float(Seq<char>),
    Name(Seq<char>),
}

impl View for Literal {
    type V = LiteralModel;

    open spec fn view(&self) -> LiteralModel {
        match self {
            Literal::Null => LiteralModel::Null,
            Literal::Float(s) => LiteralModel::Float(s@),
            Literal::Name(s) => LiteralModel::Name(s@),
        }
    }
}

impl Clone for Literal {
    fn clone(&self) -> (r: Self)
        ensures
            r == *self,
    {
        match self {
            Literal::Null => Literal::Null,
            Literal::Float(s) => Literal::Float(s.clone()),
            Literal::Name(s) => Literal::Name(s.clone()),
        }
    }
}

/// A token: its kind, its text, its literal, and where it starts
/// (line and column, both counted from 0).
#[derive(Debug)]
pub struct Token {
    pub token_type: TokenType,
    pub lexeme: String,
    pub literal: Literal,
    pub line: usize,
    pub pos: usize,
}

/// Mathematical model of a `Token`.
#[verifier::ext_equal]
pub struct TokenModel {
    pub kind: TokenType,
    pub lexeme: Seq<char>,
    pub literal: LiteralModel,
    pub line: nat,
    pub pos: nat,
}

impl View for Token {
    type V = TokenModel;

    open spec fn view(&self) -> TokenModel {
        TokenModel {
            kind: self.token_type,
            lexeme: self.lexeme@,
            literal: self.literal@,
            line: self.line as nat,
            pos: self.pos as nat,
        }
    }
}

/// The models of a sequence of tokens.
pub open spec fn token_models(ts: Seq<Token>) -> Seq<TokenModel> {
    ts.map_values(|t: Token| t@)
}

/// The token kind that `map_keyword` gives a word.
pub open spec fn keyword_kind(word: Seq<char>) -> TokenType {
    if word == "dtmc"@ {
        TokenType::Dtmc
    } else if word == "ctmc"@ {
        TokenType::Ctmc
    } else if word == "init"@ {
        TokenType::Init
    } else {
        TokenType::Identifier
    }
}

impl Clone for Token {
    fn clone(&self) -> (r: Self)
        ensures
            r == *self,
    {
        Token {
            token_type: self.token_type,
            lexeme: self.lexeme.clone(),
            literal: self.literal.clone(),
            line: self.line,
            pos: self.pos,
        }
    }
}

impl Token {
    pub fn new(token_type: TokenType, lexeme: String, literal: Literal, line: usize, pos: usize) -> (r: Self)
        ensures
            r.token_type == token_type,
            r.lexeme == lexeme,
            r.literal == literal,
            r.line == line,
            r.pos == pos,
    {
        Token { token_type, lexeme, literal, line, pos }
    }

    /// The kind of a word: `dtmc`, `ctmc` and `init` are keywords, any other
    /// word is an identifier.
    pub fn map_keyword(keyword: &str) -> (r: TokenType)
        ensures
            r == keyword_kind(keyword@),
    {
        let word = String::from_str(keyword);
        if word == String::from_str("dtmc") {
            TokenType::Dtmc
        } else if word == String::from_str("ctmc") {
            TokenType::Ctmc
        } else if word == String::from_str("init") {
            TokenType::Init
        } else {
            TokenType::Identifier
        }
    }
}

} // verus!
