use vstd::prelude::*;
use crate::text::{decimal, decimal_string};
use crate::token::Token;

verus! {

/// An error that can describe itself in one line.
pub trait CodeError {
    fn what(&self) -> String;
}

/// The model of an error located at a token: where it is, the text found
/// there, and what was expected.
#[verifier::ext_equal]
pub struct Diagnostic {
    pub line: nat,
    pub pos: nat,
    pub lexeme: Seq<char>,
    pub msg: Seq<char>,
}

/// `"{lexeme} at {line}:{pos}"`
pub open spec fn located(lexeme: Seq<char>, line: nat, pos: nat) -> Seq<char> {
    lexeme + " at "@ + decimal(line) + ":"@ + decimal(pos)
}

/// A character the scanner cannot read.
pub struct ScanError {
    line: usize,
    pos: usize,
    lexeme: String,
    msg: &'static str,
}

impl View for ScanError {
    type V = Diagnostic;

    closed spec fn view(&self) -> Diagnostic {
        Diagnostic { line: self.line as nat, pos: self.pos as nat, lexeme: self.lexeme@, msg: self.msg@ }
    }
}

impl ScanError {
    pub fn new(line: usize, pos: usize, lexeme: String, msg: &'static str) -> (r: Self)
        ensures
            r@ == (Diagnostic { line: line as nat, pos: pos as nat, lexeme: lexeme@, msg: msg@ }),
    {
        ScanError { line, pos, msg, lexeme }
    }
}

/// The text of a scan error.
pub open spec fn scan_error_text(d: Diagnostic) -> Seq<char> {
    located(d.lexeme, d.line, d.pos) + ", "@ + d.msg
}

impl CodeError for ScanError {
    fn what(&self) -> (r: String)
        ensures
            r@ == scan_error_text(self@),
    {
        let mut s = self.lexeme.clone();
        s.append(" at ");
        s.append(decimal_string(self.line).as_str());
        s.append(":");
        s.append(decimal_string(self.pos).as_str());
        s.append(", ");
        s.append(self.msg);
        s
    }
}

/// A token the parser did not expect.
pub struct SyntaxError {
    line: usize,
    pos: usize,
    lexeme: String,
    msg: &'static str,
}

impl View for SyntaxError {
    type V = Diagnostic;

    closed spec fn view(&self) -> Diagnostic {
        Diagnostic { line: self.line as nat, pos: self.pos as nat, lexeme: self.lexeme@, msg: self.msg@ }
    }
}

/// The diagnostic for an unexpected token.
pub open spec fn syntax_diagnostic(line: nat, pos: nat, lexeme: Seq<char>, msg: Seq<char>) -> Diagnostic {
    Diagnostic { line, pos, lexeme, msg }
}

impl SyntaxError {
    pub fn new(token: &Token, msg: &'static str) -> (r: Self)
        ensures
            r@ == syntax_diagnostic(token@.line, token@.pos, token@.lexeme, msg@),
    {
        SyntaxError { line: token.line, pos: token.pos, lexeme: token.lexeme.clone(), msg }
    }
}

/// The text of a syntax error.
pub open spec fn syntax_error_text(d: Diagnostic) -> Seq<char> {
    "Syntax Error! "@ + located(d.lexeme, d.line, d.pos) + ", "@ + d.msg + " "@
}

impl CodeError for SyntaxError {
    fn what(&self) -> (r: String)
        ensures
            r@ == syntax_error_text(self@),
    {
        let mut s = String::from_str("Syntax Error! ");
        s.append(self.lexeme.as_str());
        s.append(" at ");
        s.append(decimal_string(self.line).as_str());
        s.append(":");
        s.append(decimal_string(self.pos).as_str());
        s.append(", ");
        s.append(self.msg);
        s.append(" ");
        s
    }
}

/// A value of one type where another was expected.
pub struct TypeError {
    expected: String,
    given: String,
}

/// The model of a type error: the expected and the given type's names.
#[verifier::ext_equal]
pub struct TypeMismatch {
    pub expected: Seq<char>,
    pub given: Seq<char>,
}

impl View for TypeError {
    type V = TypeMismatch;

    closed spec fn view(&self) -> TypeMismatch {
        TypeMismatch { expected: self.expected@, given: self.given@ }
    }
}

impl TypeError {
    pub fn new(expected: String, given: String) -> (r: Self)
        ensures
            r@ == (TypeMismatch { expected: expected@, given: given@ }),
    {
        TypeError { expected, given }
    }
}

/// The text of a type error.
pub open spec fn type_error_text(t: TypeMismatch) -> Seq<char> {
    "Type Error: expected "@ + t.expected + " but given "@ + t.given
}

impl CodeError for TypeError {
    fn what(&self) -> (r: String)
        ensures
            r@ == type_error_text(self@),
    {
        let mut s = String::from_str("Type Error: expected ");
        s.append(self.expected.as_str());
        s.append(" but given ");
        s.append(self.given.as_str());
        s
    }
}

/// A name that nothing defines.
pub struct IdentifierNotFoundError {
    identifier: String,
    line: usize,
    pos: usize,
}

/// The model of a missing name: the name and where it stands.
#[verifier::ext_equal]
pub struct MissingName {
    pub identifier: Seq<char>,
    pub line: nat,
    pub pos: nat,
}

impl View for IdentifierNotFoundError {
    type V = MissingName;

    closed spec fn view(&self) -> MissingName {
        MissingName { identifier: self.identifier@, line: self.line as nat, pos: self.pos as nat }
    }
}

impl IdentifierNotFoundError {
    pub fn new(name: &Token) -> (r: Self)
        ensures
            r@ == (MissingName { identifier: name@.lexeme, line: name@.line, pos: name@.pos }),
    {
        IdentifierNotFoundError { identifier: name.lexeme.clone(), line: name.line, pos: name.pos }
    }
}

/// The text of a missing-name error.
pub open spec fn missing_name_text(m: MissingName) -> Seq<char> {
    "Error: name "@ + located(m.identifier, m.line, m.pos) + " not found"@
}

impl CodeError for IdentifierNotFoundError {
    fn what(&self) -> (r: String)
        ensures
            r@ == missing_name_text(self@),
    {
        let mut s = String::from_str("Error: name ");
        s.append(self.identifier.as_str());
        s.append(" at ");
        s.append(decimal_string(self.line).as_str());
        s.append(":");
        s.append(decimal_string(self.pos).as_str());
        s.append(" not found");
        s
    }
}

/// A literal that carries no number, found where a number was expected.
pub struct ValueError {
    line: usize,
    pos: usize,
}

/// The model of a value error: where the literal stands.
pub struct Place {
    pub line: nat,
    pub pos: nat,
}

impl View for ValueError {
    type V = Place;

    closed spec fn view(&self) -> Place {
        Place { line: self.line as nat, pos: self.pos as nat }
    }
}

impl ValueError {
    pub fn new(line: usize, pos: usize) -> (r: Self)
        ensures
            r@ == (Place { line: line as nat, pos: pos as nat }),
    {
        ValueError { line, pos }
    }
}

/// The text of a value error.
pub open spec fn value_error_text(p: Place) -> Seq<char> {
    "Value Error: no number at "@ + decimal(p.line) + ":"@ + decimal(p.pos)
}

impl CodeError for ValueError {
    fn what(&self) -> (r: String)
        ensures
            r@ == value_error_text(self@),
    {
        let mut s = String::from_str("Value Error: no number at ");
        s.append(decimal_string(self.line).as_str());
        s.append(":");
        s.append(decimal_string(self.pos).as_str());
        s
    }
}


/// An error met while running a model specification.
pub enum RunError {
    Syntax(SyntaxError),
    Type(TypeError),
    NotFound(IdentifierNotFoundError),
    Value(ValueError),
}

/// Mathematical model of a `RunError`.
#[verifier::ext_equal]
pub enum RunErrorModel {
    Syntax(Diagnostic),
    Type(TypeMismatch),
    NotFound(MissingName),
    Value(Place),
}

impl View for RunError {
    type V = RunErrorModel;

    open spec fn view(&self) -> RunErrorModel {
        match self {
            RunError::Syntax(e) => RunErrorModel::Syntax(e@),
            RunError::Type(e) => RunErrorModel::Type(e@),
            RunError::NotFound(e) => RunErrorModel::NotFound(e@),
            RunError::Value(e) => RunErrorModel::Value(e@),
        }
    }
}

/// The text of a run error.
pub open spec fn run_error_text(e: RunErrorModel) -> Seq<char> {
    match e {
        RunErrorModel::Syntax(d) => syntax_error_text(d),
        RunErrorModel::Type(t) => type_error_text(t),
        RunErrorModel::NotFound(m) => missing_name_text(m),
        RunErrorModel::Value(p) => value_error_text(p),
    }
}

impl CodeError for RunError {
    fn what(&self) -> (r: String)
        ensures
            r@ == run_error_text(self@),
    {
        match self {
            RunError::Syntax(e) => e.what(),
            RunError::Type(e) => e.what(),
            RunError::NotFound(e) => e.what(),
            RunError::Value(e) => e.what(),
        }
    }
}

} // verus!
