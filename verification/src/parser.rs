use vstd::prelude::*;
use crate::command::{
    DefCommand, InitCommand, InitModel, Initialization, ModelCommand, Section, TransitionDeclaration,
    TransitionModel, VarDeclModel, VarDeclaration, put,
};
use crate::errors::{Diagnostic, SyntaxError, syntax_diagnostic};
use crate::expression::{
    BinaryExpression, Expr, ExprModel, GroupingExpression, LiteralExpression, UnaryExpression,
    VariableExpression,
};
use crate::token::{Token, TokenModel, TokenType, token_models};

verus! {

/// The kind of Markov chain that a specification declares.
#[derive(Debug, PartialEq, Eq, Clone, Copy, Structural)]
pub enum ModelType {
    Ctmc,
    Dtmc,
}

/// The kind of chain a declared model type names.
pub open spec fn chain_kind(m: ModelType) -> crate::markov::ModelType {
    match m {
        ModelType::Ctmc => crate::markov::ModelType::Ctmc,
        ModelType::Dtmc => crate::markov::ModelType::Dtmc,
    }
}

impl ModelType {
    /// The kind of chain this model type names.
    pub fn chain_type(self) -> (r: crate::markov::ModelType)
        ensures
            r == chain_kind(self),
    {
        match self {
            ModelType::Ctmc => crate::markov::ModelType::Ctmc,
            ModelType::Dtmc => crate::markov::ModelType::Dtmc,
        }
    }
}

/// What a parse gives where it succeeds: the value read and the number of
/// tokens read; where it fails, the error at the token that stopped it.
pub type Parsed<T> = Result<(T, nat), Diagnostic>;

/// The kind of the token at an index (the end, past the last token).
pub open spec fn kind_at(ts: Seq<TokenModel>, i: nat) -> TokenType {
    if i < ts.len() {
        ts[i as int].kind
    } else {
        TokenType::Eof
    }
}

/// The number of tokens from an index on.
pub open spec fn remaining(ts: Seq<TokenModel>, i: nat) -> nat {
    if i < ts.len() {
        (ts.len() - i) as nat
    } else {
        0
    }
}

/// The error reported at the token at an index.
pub open spec fn error_at(ts: Seq<TokenModel>, i: nat, msg: Seq<char>) -> Diagnostic {
    syntax_diagnostic(ts[i as int].line, ts[i as int].pos, ts[i as int].lexeme, msg)
}

/// A parse moved `k` tokens further on.
pub open spec fn shifted<T>(r: Parsed<T>, k: nat) -> Parsed<T> {
    match r {
        Ok((v, n)) => Ok((v, n + k)),
        Err(e) => Err(e),
    }
}

/// Reading one token of the given kind.
pub open spec fn consume(ts: Seq<TokenModel>, i: nat, kind: TokenType, msg: Seq<char>) -> Parsed<TokenModel> {
    if kind_at(ts, i) == kind {
        Ok((ts[i as int], 1))
    } else {
        Err(error_at(ts, i, msg))
    }
}

/// `expression: term`
pub open spec fn parse_expression(ts: Seq<TokenModel>, i: nat) -> Parsed<ExprModel>
    decreases remaining(ts, i), 5nat,
{
    parse_term(ts, i)
}

/// `term: factor [(+ | -) factor]?`
pub open spec fn parse_term(ts: Seq<TokenModel>, i: nat) -> Parsed<ExprModel>
    decreases remaining(ts, i), 4nat,
{
    match parse_factor(ts, i) {
        Err(e) => Err(e),
        Ok((left, n)) => {
            let j = i + n;
            if kind_at(ts, j) == TokenType::Plus || kind_at(ts, j) == TokenType::Minus {
                match parse_factor(ts, j + 1) {
                    Err(e) => Err(e),
                    Ok((right, m)) => Ok((ExprModel::Binary(ts[j as int], Box::new(left), Box::new(right)), n + 1 + m)),
                }
            } else {
                Ok((left, n))
            }
        },
    }
}

/// `factor: unary [(* | /) unary]?`
pub open spec fn parse_factor(ts: Seq<TokenModel>, i: nat) -> Parsed<ExprModel>
    decreases remaining(ts, i), 3nat,
{
    match parse_unary(ts, i) {
        Err(e) => Err(e),
        Ok((left, n)) => {
            let j = i + n;
            if kind_at(ts, j) == TokenType::Mult || kind_at(ts, j) == TokenType::Div {
                match parse_unary(ts, j + 1) {
                    Err(e) => Err(e),
                    Ok((right, m)) => Ok((ExprModel::Binary(ts[j as int], Box::new(left), Box::new(right)), n + 1 + m)),
                }
            } else {
                Ok((left, n))
            }
        },
    }
}

/// `unary: [-]? primary`
pub open spec fn parse_unary(ts: Seq<TokenModel>, i: nat) -> Parsed<ExprModel>
    decreases remaining(ts, i), 2nat,
{
    if kind_at(ts, i) == TokenType::Minus {
        match parse_primary(ts, i + 1) {
            Err(e) => Err(e),
            Ok((right, m)) => Ok((ExprModel::Unary(ts[i as int], Box::new(right)), 1 + m)),
        }
    } else {
        parse_primary(ts, i)
    }
}

/// `primary: ( expression ) | number | variable`
pub open spec fn parse_primary(ts: Seq<TokenModel>, i: nat) -> Parsed<ExprModel>
    decreases remaining(ts, i), 1nat,
{
    if kind_at(ts, i) == TokenType::LeftParen {
        match parse_grouping(ts, i + 1) {
            Err(e) => Err(e),
            Ok((g, m)) => Ok((g, 1 + m)),
        }
    } else {
        parse_literal(ts, i)
    }
}

/// A number or a variable.
pub open spec fn parse_literal(ts: Seq<TokenModel>, i: nat) -> Parsed<ExprModel> {
    let t = ts[i as int];
    if t.kind == TokenType::Variable {
        Ok((ExprModel::Variable(t), 1))
    } else if t.kind == TokenType::Value {
        Ok((ExprModel::Literal(t), 1))
    } else {
        Err(error_at(ts, i, "Expect variable or literal value"@))
    }
}

/// The inside of `( expression )`, after the `(`.
pub open spec fn parse_grouping(ts: Seq<TokenModel>, i: nat) -> Parsed<ExprModel>
    decreases remaining(ts, i), 6nat,
{
    match parse_expression(ts, i) {
        Err(e) => Err(e),
        Ok((e, n)) => match consume(ts, i + n, TokenType::RightParen, "Expect closing ')' after an expression"@) {
            Err(d) => Err(d),
            Ok((_, m)) => Ok((ExprModel::Grouping(Box::new(e)), n + m)),
        },
    }
}


/// The number of line breaks from an index on.
pub open spec fn skip_newlines(ts: Seq<TokenModel>, i: nat) -> nat
    decreases remaining(ts, i),
{
    if kind_at(ts, i) == TokenType::NewLine {
        1 + skip_newlines(ts, i + 1)
    } else {
        0
    }
}

/// One line break, if one stands at the index.
pub open spec fn skip_newline(ts: Seq<TokenModel>, i: nat) -> nat {
    if kind_at(ts, i) == TokenType::NewLine {
        1
    } else {
        0
    }
}

/// Whether a token ends a section: a section name or the end.
pub open spec fn is_section_end(kind: TokenType) -> bool {
    kind == TokenType::Def || kind == TokenType::Init || kind == TokenType::Model || kind == TokenType::Eof
}

/// `$variable = expression` and a line break.
pub open spec fn parse_var_decl(ts: Seq<TokenModel>, i: nat) -> Parsed<VarDeclModel> {
    match consume(ts, i, TokenType::Variable, "Expect variable name"@) {
        Err(d) => Err(d),
        Ok((name, a)) => match consume(ts, i + a, TokenType::Equal, "Expect '=' after variable name"@) {
            Err(d) => Err(d),
            Ok((_, b)) => match parse_expression(ts, i + a + b) {
                Err(d) => Err(d),
                Ok((val, c)) => match consume(ts, i + a + b + c, TokenType::NewLine, "Expect new line after variable declaration"@) {
                    Err(d) => Err(d),
                    Ok((_, e)) => Ok((VarDeclModel { name, val }, a + b + c + e)),
                },
            },
        },
    }
}

/// The declarations of a `def` section, up to the next section or the end;
/// `acc` holds those read before.
pub open spec fn parse_defs(ts: Seq<TokenModel>, i: nat, acc: Seq<VarDeclModel>) -> Parsed<Seq<VarDeclModel>>
    decreases remaining(ts, i),
{
    if is_section_end(kind_at(ts, i)) {
        Ok((acc, 0))
    } else {
        let a = skip_newlines(ts, i);
        match parse_var_decl(ts, i + a) {
            Err(d) => Err(d),
            Ok((decl, b)) => {
                let c = skip_newline(ts, i + a + b);
                shifted(parse_defs(ts, i + a + b + c, acc.push(decl)), a + b + c)
            },
        }
    }
}

/// The transitions of a declaration, after its arrow:
/// `(expression) state [, (expression) state]*`, up to a line break;
/// `t` holds those read before.
pub open spec fn parse_targets(ts: Seq<TokenModel>, i: nat, t: TransitionModel) -> Parsed<TransitionModel>
    decreases remaining(ts, i),
{
    match consume(ts, i, TokenType::LeftParen, "Expect '('"@) {
        Err(d) => Err(d),
        Ok((_, a)) => match parse_expression(ts, i + a) {
            Err(d) => Err(d),
            Ok((e, b)) => match consume(ts, i + a + b, TokenType::RightParen, "Expect ')'"@) {
                Err(d) => Err(d),
                Ok((_, c)) => match consume(ts, i + a + b + c, TokenType::Identifier, "Expect next state after transition rate/problability"@) {
                    Err(d) => Err(d),
                    Ok((next, d)) => {
                        let t2 = TransitionModel { next: put(t.next, next.lexeme, e), ..t };
                        let k = i + a + b + c + d;
                        if kind_at(ts, k) == TokenType::NewLine {
                            Ok((t2, a + b + c + d))
                        } else {
                            match consume(ts, k, TokenType::Comma, "Expect ',' between transition"@) {
                                Err(x) => Err(x),
                                Ok((_, f)) => shifted(parse_targets(ts, k + f, t2), a + b + c + d + f),
                            }
                        }
                    },
                },
            },
        },
    }
}

/// `state -> (expression) state, ...`, without the line break that ends it.
pub open spec fn parse_transition(ts: Seq<TokenModel>, i: nat) -> Parsed<TransitionModel> {
    match consume(ts, i, TokenType::Identifier, "Expect start node"@) {
        Err(d) => Err(d),
        Ok((start, a)) => match consume(ts, i + a, TokenType::Arrow, "Expect arrow after start node"@) {
            Err(d) => Err(d),
            Ok((_, b)) => shifted(parse_targets(ts, i + a + b, TransitionModel { current: start, next: seq![] }), a + b),
        },
    }
}

/// The declarations of a `model` section; `acc` holds those read before.
pub open spec fn parse_transitions(ts: Seq<TokenModel>, i: nat, acc: Seq<TransitionModel>) -> Parsed<Seq<TransitionModel>>
    decreases remaining(ts, i),
{
    if is_section_end(kind_at(ts, i)) {
        Ok((acc, 0))
    } else {
        let a = skip_newlines(ts, i);
        match parse_transition(ts, i + a) {
            Err(d) => Err(d),
            Ok((decl, b)) => {
                let c = skip_newline(ts, i + a + b);
                shifted(parse_transitions(ts, i + a + b + c, acc.push(decl)), a + b + c)
            },
        }
    }
}

/// `state = expression` and a line break.
pub open spec fn parse_init(ts: Seq<TokenModel>, i: nat) -> Parsed<InitModel> {
    match consume(ts, i, TokenType::Identifier, "Expect node name in initialization"@) {
        Err(d) => Err(d),
        Ok((name, a)) => match consume(ts, i + a, TokenType::Equal, "Expect '=' after node name"@) {
            Err(d) => Err(d),
            Ok((_, b)) => match parse_expression(ts, i + a + b) {
                Err(d) => Err(d),
                Ok((value, c)) => match consume(ts, i + a + b + c, TokenType::NewLine, "Expect new line after each declaration"@) {
                    Err(d) => Err(d),
                    Ok((_, e)) => Ok((InitModel { name, value }, a + b + c + e)),
                },
            },
        },
    }
}

/// The initializations of an `init` section; `acc` holds those read before.
pub open spec fn parse_inits(ts: Seq<TokenModel>, i: nat, acc: Seq<InitModel>) -> Parsed<Seq<InitModel>>
    decreases remaining(ts, i),
{
    if is_section_end(kind_at(ts, i)) {
        Ok((acc, 0))
    } else {
        let a = skip_newlines(ts, i);
        match parse_init(ts, i + a) {
            Err(d) => Err(d),
            Ok((init, b)) => {
                let c = skip_newline(ts, i + a + b);
                shifted(parse_inits(ts, i + a + b + c, acc.push(init)), a + b + c)
            },
        }
    }
}

/// Mathematical model of a parsed specification.
#[verifier::ext_equal]
pub struct ProgramModel {
    pub model_type: ModelType,
    pub defs: Seq<VarDeclModel>,
    pub transitions: Seq<TransitionModel>,
    pub inits: Seq<InitModel>,
}

/// A section after its name (of the given kind): a `:`, line breaks, and
/// its statements, which replace those of an earlier section of the name.
#[verifier::opaque]
pub open spec fn parse_section(ts: Seq<TokenModel>, i: nat, kind: TokenType, p: ProgramModel) -> Parsed<ProgramModel> {
    match consume(ts, i, TokenType::Colon, "Expect ':' after section name"@) {
        Err(d) => Err(d),
        Ok((_, a)) => {
            let b = skip_newlines(ts, i + a);
            let k = i + a + b;
            if kind == TokenType::Def {
                match parse_defs(ts, k, seq![]) {
                    Err(d) => Err(d),
                    Ok((ds, c)) => Ok((ProgramModel { defs: ds, ..p }, a + b + c)),
                }
            } else if kind == TokenType::Init {
                match parse_inits(ts, k, seq![]) {
                    Err(d) => Err(d),
                    Ok((is, c)) => Ok((ProgramModel { inits: is, ..p }, a + b + c)),
                }
            } else {
                match parse_transitions(ts, k, seq![]) {
                    Err(d) => Err(d),
                    Ok((trs, c)) => Ok((ProgramModel { transitions: trs, ..p }, a + b + c)),
                }
            }
        },
    }
}

/// The sections of a specification, up to the end; line breaks between
/// them are skipped; `p` holds what was read before. The sections may come
/// in any order and any number of times: each one read replaces what an
/// earlier section of its name gave. The simulator runs them in the order
/// `def`, `model`, `init` whatever their order here, so an `init` section
/// written before `model` still finds the states that `model` declares.
pub open spec fn parse_sections(ts: Seq<TokenModel>, i: nat, p: ProgramModel) -> Parsed<ProgramModel>
    decreases remaining(ts, i),
{
    if kind_at(ts, i) == TokenType::Eof {
        Ok((p, 0))
    } else {
        let kind = ts[i as int].kind;
        if kind == TokenType::Def || kind == TokenType::Init || kind == TokenType::Model {
            match parse_section(ts, i + 1, kind, p) {
                Err(d) => Err(d),
                Ok((q, n)) => shifted(parse_sections(ts, i + 1 + n, q), 1 + n),
            }
        } else if kind == TokenType::NewLine {
            shifted(parse_sections(ts, i + 1, p), 1)
        } else {
            Err(error_at(ts, i, "Expected section name"@))
        }
    }
}

/// A whole specification: the model type, a line break, then the sections.
pub open spec fn parse_program(ts: Seq<TokenModel>, i: nat) -> Parsed<ProgramModel> {
    let kind = ts[i as int].kind;
    if kind == TokenType::Ctmc || kind == TokenType::Dtmc {
        let model_type = if kind == TokenType::Ctmc { ModelType::Ctmc } else { ModelType::Dtmc };
        match consume(ts, i + 1, TokenType::NewLine, "Expect new line after model type"@) {
            Err(d) => Err(d),
            Ok((_, a)) => shifted(
                parse_sections(ts, i + 1 + a, ProgramModel { model_type, defs: seq![], transitions: seq![], inits: seq![] }),
                1 + a,
            ),
        }
    } else {
        Err(error_at(ts, i, "Expect model type (ctmc or dtmc)"@))
    }
}

/// Mathematical model of a `Parser`: the tokens and the index of the next one.
#[verifier::ext_equal]
pub struct ParserModel {
    pub tokens: Seq<TokenModel>,
    pub current: nat,
}

/// Whether an end token stands at index `i` or after it.
#[verifier::opaque]
pub open spec fn eof_from(ts: Seq<TokenModel>, i: nat) -> bool {
    exists|j: int| i <= j < ts.len() && (#[trigger] ts[j]).kind == TokenType::Eof
}

impl ParserModel {
    /// The parser stands on a token, and an end token is still ahead of it
    /// (or is the token it stands on).
    pub open spec fn wf(self) -> bool {
        &&& self.current < self.tokens.len()
        &&& eof_from(self.tokens, self.current)
    }
}

/// Whether an exec result agrees with a parse: the same value, read from
/// `start` up to `end`, or the same error.
pub open spec fn agrees<T>(r: Result<T, Diagnostic>, start: nat, end: nat, p: Parsed<T>) -> bool {
    match p {
        Ok((v, n)) => r == Ok::<T, Diagnostic>(v) && end == start + n,
        Err(d) => r == Err::<T, Diagnostic>(d),
    }
}

pub open spec fn expr_result(r: Result<Expr, SyntaxError>) -> Result<ExprModel, Diagnostic> {
    match r {
        Ok(e) => Ok(e@),
        Err(d) => Err(d@),
    }
}

pub open spec fn token_result(r: Result<Token, SyntaxError>) -> Result<TokenModel, Diagnostic> {
    match r {
        Ok(t) => Ok(t@),
        Err(d) => Err(d@),
    }
}


pub open spec fn var_decl_result(r: Result<VarDeclaration, SyntaxError>) -> Result<VarDeclModel, Diagnostic> {
    match r {
        Ok(d) => Ok(d@),
        Err(e) => Err(e@),
    }
}

pub open spec fn defs_result(r: Result<DefCommand, SyntaxError>) -> Result<Seq<VarDeclModel>, Diagnostic> {
    match r {
        Ok(d) => Ok(d@),
        Err(e) => Err(e@),
    }
}

pub open spec fn transition_result(r: Result<TransitionDeclaration, SyntaxError>) -> Result<TransitionModel, Diagnostic> {
    match r {
        Ok(d) => Ok(d@),
        Err(e) => Err(e@),
    }
}

pub open spec fn transitions_result(r: Result<ModelCommand, SyntaxError>) -> Result<Seq<TransitionModel>, Diagnostic> {
    match r {
        Ok(d) => Ok(d@),
        Err(e) => Err(e@),
    }
}

pub open spec fn init_result(r: Result<Initialization, SyntaxError>) -> Result<InitModel, Diagnostic> {
    match r {
        Ok(d) => Ok(d@),
        Err(e) => Err(e@),
    }
}

pub open spec fn inits_result(r: Result<InitCommand, SyntaxError>) -> Result<Seq<InitModel>, Diagnostic> {
    match r {
        Ok(d) => Ok(d@),
        Err(e) => Err(e@),
    }
}

pub open spec fn model_type_result(r: Result<ModelType, SyntaxError>) -> Result<ModelType, Diagnostic> {
    match r {
        Ok(m) => Ok(m),
        Err(e) => Err(e@),
    }
}

/// The model of a parsed specification.
pub open spec fn program_model(p: (ModelType, DefCommand, ModelCommand, InitCommand)) -> ProgramModel {
    ProgramModel { model_type: p.0, defs: p.1@, transitions: p.2@, inits: p.3@ }
}

pub open spec fn program_result(r: Result<(ModelType, DefCommand, ModelCommand, InitCommand), SyntaxError>) -> Result<ProgramModel, Diagnostic> {
    match r {
        Ok(p) => Ok(program_model(p)),
        Err(e) => Err(e@),
    }
}

/// Parses tokens into the three sections of a model specification.
pub struct Parser {
    tokens: Vec<Token>,
    current: usize,
}

impl View for Parser {
    type V = ParserModel;

    closed spec fn view(&self) -> ParserModel {
        ParserModel { tokens: token_models(self.tokens@), current: self.current as nat }
    }
}

impl Parser {
    pub fn new(tokens: Vec<Token>) -> (r: Self)
        ensures
            r@ == (ParserModel { tokens: token_models(tokens@), current: 0 }),
    {
        Parser { tokens, current: 0 }
    }

    fn peek(&self) -> (t: &Token)
        requires
            self@.current < self@.tokens.len(),
        ensures
            t@ == self@.tokens[self@.current as int],
    {
        &self.tokens[self.current]
    }

    fn check(&self, kind: TokenType) -> (r: bool)
        requires
            self@.current < self@.tokens.len(),
        ensures
            r == (kind_at(self@.tokens, self@.current) == kind),
    {
        self.peek().token_type == kind
    }

    fn advance(&mut self) -> (t: Token)
        requires
            old(self)@.wf(),
        ensures
            t@ == old(self)@.tokens[old(self)@.current as int],
            final(self)@ == (ParserModel { current: old(self)@.current + 1, ..old(self)@ }),
            t@.kind != TokenType::Eof ==> final(self)@.wf(),
    {
        let t = self.tokens[self.current].clone();
        let ghost ts = self@.tokens;
        let ghost i = self@.current;
        assert(self.current < self.tokens.len());
        self.current += 1;
        proof {
            reveal(eof_from);
            if t@.kind != TokenType::Eof {
                let j = choose|j: int| i <= j < ts.len() && (#[trigger] ts[j]).kind == TokenType::Eof;
                assert(i + 1 <= j);
                assert(ts[j].kind == TokenType::Eof);
            }
        }
        t
    }

    fn consume(&mut self, kind: TokenType, expect: &'static str) -> (r: Result<Token, SyntaxError>)
        requires
            old(self)@.wf(),
            kind != TokenType::Eof,
        ensures
            final(self)@.tokens == old(self)@.tokens,
            agrees(token_result(r), old(self)@.current, final(self)@.current, consume(old(self)@.tokens, old(self)@.current, kind, expect@)),
            final(self)@.wf(),
    {
        if !self.check(kind) {
            Err(SyntaxError::new(self.peek(), expect))
        } else {
            Ok(self.advance())
        }
    }
}

impl Parser {
    fn parse_expression(&mut self) -> (r: Result<Expr, SyntaxError>)
        requires
            old(self)@.wf(),
        ensures
            final(self)@.tokens == old(self)@.tokens,
            agrees(expr_result(r), old(self)@.current, final(self)@.current, parse_expression(old(self)@.tokens, old(self)@.current)),
            r is Ok ==> final(self)@.wf(),
        decreases remaining(old(self)@.tokens, old(self)@.current), 5nat,
    {
        self.parse_term()
    }

    fn parse_term(&mut self) -> (r: Result<Expr, SyntaxError>)
        requires
            old(self)@.wf(),
        ensures
            final(self)@.tokens == old(self)@.tokens,
            agrees(expr_result(r), old(self)@.current, final(self)@.current, parse_term(old(self)@.tokens, old(self)@.current)),
            r is Ok ==> final(self)@.wf(),
        decreases remaining(old(self)@.tokens, old(self)@.current), 4nat,
    {
        let left = match self.parse_factor() {
            Ok(e) => e,
            Err(d) => {
                return Err(d);
            },
        };
        if !(self.check(TokenType::Plus) || self.check(TokenType::Minus)) {
            return Ok(left);
        }
        let op = self.advance();
        let right = match self.parse_factor() {
            Ok(e) => e,
            Err(d) => {
                return Err(d);
            },
        };
        Ok(Expr::Binary(BinaryExpression::new(op, Box::new(left), Box::new(right))))
    }

    fn parse_factor(&mut self) -> (r: Result<Expr, SyntaxError>)
        requires
            old(self)@.wf(),
        ensures
            final(self)@.tokens == old(self)@.tokens,
            agrees(expr_result(r), old(self)@.current, final(self)@.current, parse_factor(old(self)@.tokens, old(self)@.current)),
            r is Ok ==> final(self)@.wf(),
        decreases remaining(old(self)@.tokens, old(self)@.current), 3nat,
    {
        let left = match self.parse_unary() {
            Ok(e) => e,
            Err(d) => {
                return Err(d);
            },
        };
        if !(self.check(TokenType::Mult) || self.check(TokenType::Div)) {
            return Ok(left);
        }
        let op = self.advance();
        let right = match self.parse_unary() {
            Ok(e) => e,
            Err(d) => {
                return Err(d);
            },
        };
        Ok(Expr::Binary(BinaryExpression::new(op, Box::new(left), Box::new(right))))
    }

    fn parse_unary(&mut self) -> (r: Result<Expr, SyntaxError>)
        requires
            old(self)@.wf(),
        ensures
            final(self)@.tokens == old(self)@.tokens,
            agrees(expr_result(r), old(self)@.current, final(self)@.current, parse_unary(old(self)@.tokens, old(self)@.current)),
            r is Ok ==> final(self)@.wf(),
        decreases remaining(old(self)@.tokens, old(self)@.current), 2nat,
    {
        if !self.check(TokenType::Minus) {
            self.parse_primary()
        } else {
            let op = self.advance();
            let right = match self.parse_primary() {
                Ok(e) => e,
                Err(d) => {
                    return Err(d);
                },
            };
            Ok(Expr::Unary(UnaryExpression::new(op, Box::new(right))))
        }
    }

    fn parse_primary(&mut self) -> (r: Result<Expr, SyntaxError>)
        requires
            old(self)@.wf(),
        ensures
            final(self)@.tokens == old(self)@.tokens,
            agrees(expr_result(r), old(self)@.current, final(self)@.current, parse_primary(old(self)@.tokens, old(self)@.current)),
            r is Ok ==> final(self)@.wf(),
        decreases remaining(old(self)@.tokens, old(self)@.current), 1nat,
    {
        if self.check(TokenType::LeftParen) {
            self.advance();
            self.parse_grouping()
        } else {
            self.parse_literal()
        }
    }

    /// Parses a number or a variable.
    fn parse_literal(&mut self) -> (r: Result<Expr, SyntaxError>)
        requires
            old(self)@.wf(),
        ensures
            final(self)@.tokens == old(self)@.tokens,
            agrees(expr_result(r), old(self)@.current, final(self)@.current, parse_literal(old(self)@.tokens, old(self)@.current)),
            r is Ok ==> final(self)@.wf(),
    {
        let token = self.advance();
        match token.token_type {
            TokenType::Variable => Ok(Expr::Variable(VariableExpression::new(token))),
            TokenType::Value => Ok(Expr::Literal(LiteralExpression::new(token))),
            _ => Err(SyntaxError::new(&token, "Expect variable or literal value")),
        }
    }

    fn parse_grouping(&mut self) -> (r: Result<Expr, SyntaxError>)
        requires
            old(self)@.wf(),
        ensures
            final(self)@.tokens == old(self)@.tokens,
            agrees(expr_result(r), old(self)@.current, final(self)@.current, parse_grouping(old(self)@.tokens, old(self)@.current)),
            r is Ok ==> final(self)@.wf(),
        decreases remaining(old(self)@.tokens, old(self)@.current), 6nat,
    {
        let expr = match self.parse_expression() {
            Ok(e) => e,
            Err(d) => {
                return Err(d);
            },
        };
        match self.consume(TokenType::RightParen, "Expect closing ')' after an expression") {
            Ok(_) => Ok(Expr::Grouping(GroupingExpression::new(Box::new(expr)))),
            Err(d) => Err(d),
        }
    }
}


impl Parser {
    fn is_section_end(&self) -> (r: bool)
        requires
            self@.current < self@.tokens.len(),
        ensures
            r == is_section_end(kind_at(self@.tokens, self@.current)),
    {
        self.check(TokenType::Def) || self.check(TokenType::Init) || self.check(TokenType::Model) || self.check(TokenType::Eof)
    }

    /// Reads on past line breaks.
    fn skip_newlines(&mut self)
        requires
            old(self)@.wf(),
        ensures
            final(self)@ == (ParserModel {
                current: old(self)@.current + skip_newlines(old(self)@.tokens, old(self)@.current),
                ..old(self)@
            }),
            final(self)@.wf(),
    {
        let ghost start = self@.current;
        while self.check(TokenType::NewLine)
            invariant
                self@.wf(),
                self@.tokens == old(self)@.tokens,
                start == old(self)@.current,
                start <= self@.current,
                skip_newlines(self@.tokens, start) == (self@.current - start) + skip_newlines(self@.tokens, self@.current),
            decreases remaining(self@.tokens, self@.current),
        {
            self.advance();
        }
    }

    /// Reads one line break, if one stands next.
    fn skip_newline(&mut self)
        requires
            old(self)@.wf(),
        ensures
            final(self)@ == (ParserModel {
                current: old(self)@.current + skip_newline(old(self)@.tokens, old(self)@.current),
                ..old(self)@
            }),
            final(self)@.wf(),
    {
        if self.check(TokenType::NewLine) {
            self.advance();
        }
    }

    fn read_model_type(&mut self) -> (r: Result<ModelType, SyntaxError>)
        requires
            old(self)@.wf(),
        ensures
            final(self)@.tokens == old(self)@.tokens,
            final(self)@.current == old(self)@.current + 1,
            model_type_result(r) == ({
                let kind = old(self)@.tokens[old(self)@.current as int].kind;
                if kind == TokenType::Ctmc {
                    Ok(ModelType::Ctmc)
                } else if kind == TokenType::Dtmc {
                    Ok(ModelType::Dtmc)
                } else {
                    Err(error_at(old(self)@.tokens, old(self)@.current, "Expect model type (ctmc or dtmc)"@))
                }
            }),
            r is Ok ==> final(self)@.wf(),
    {
        let token = self.advance();
        match token.token_type {
            TokenType::Ctmc => Ok(ModelType::Ctmc),
            TokenType::Dtmc => Ok(ModelType::Dtmc),
            _ => Err(SyntaxError::new(&token, "Expect model type (ctmc or dtmc)")),
        }
    }

    fn scan_var_decl(&mut self) -> (r: Result<VarDeclaration, SyntaxError>)
        requires
            old(self)@.wf(),
        ensures
            final(self)@.tokens == old(self)@.tokens,
            agrees(var_decl_result(r), old(self)@.current, final(self)@.current, parse_var_decl(old(self)@.tokens, old(self)@.current)),
            r is Ok ==> final(self)@.wf(),
    {
        let var_name = match self.consume(TokenType::Variable, "Expect variable name") {
            Ok(t) => t,
            Err(d) => {
                return Err(d);
            },
        };
        match self.consume(TokenType::Equal, "Expect '=' after variable name") {
            Ok(_) => {},
            Err(d) => {
                return Err(d);
            },
        }
        let val = match self.parse_expression() {
            Ok(e) => e,
            Err(d) => {
                return Err(d);
            },
        };
        match self.consume(TokenType::NewLine, "Expect new line after variable declaration") {
            Ok(_) => {},
            Err(d) => {
                return Err(d);
            },
        }
        Ok(VarDeclaration::new(var_name, val))
    }

    fn scan_def_section(&mut self) -> (r: Result<DefCommand, SyntaxError>)
        requires
            old(self)@.wf(),
        ensures
            final(self)@.tokens == old(self)@.tokens,
            agrees(defs_result(r), old(self)@.current, final(self)@.current, parse_defs(old(self)@.tokens, old(self)@.current, seq![])),
            r is Ok ==> final(self)@.wf(),
    {
        let ghost ts = self@.tokens;
        let ghost start = self@.current;
        let mut def = DefCommand::new();
        while !self.is_section_end()
            invariant
                self@.wf(),
                self@.tokens == ts,
                ts == old(self)@.tokens,
                start == old(self)@.current,
                start <= self@.current,
                parse_defs(ts, start, seq![]) == shifted(parse_defs(ts, self@.current, def@), (self@.current - start) as nat),
            decreases remaining(ts, self@.current),
        {
            self.skip_newlines();
            match self.scan_var_decl() {
                Ok(cmd) => {
                    self.skip_newline();
                    def.push(cmd);
                },
                Err(err) => {
                    return Err(err);
                },
            }
        }
        Ok(def)
    }

    fn scan_transition_decl(&mut self) -> (r: Result<TransitionDeclaration, SyntaxError>)
        requires
            old(self)@.wf(),
        ensures
            final(self)@.tokens == old(self)@.tokens,
            agrees(transition_result(r), old(self)@.current, final(self)@.current, parse_transition(old(self)@.tokens, old(self)@.current)),
            r is Ok ==> final(self)@.wf(),
    {
        let ghost ts = self@.tokens;
        let start = match self.consume(TokenType::Identifier, "Expect start node") {
            Ok(t) => t,
            Err(d) => {
                return Err(d);
            },
        };
        match self.consume(TokenType::Arrow, "Expect arrow after start node") {
            Ok(_) => {},
            Err(d) => {
                return Err(d);
            },
        }
        let ghost loop_start = self@.current;
        let mut transitions = TransitionDeclaration::new(start);
        let ghost first = transitions@;
        loop
            invariant
                self@.wf(),
                self@.tokens == ts,
                ts == old(self)@.tokens,
                loop_start == old(self)@.current + 2,
                loop_start <= self@.current,
                parse_transition(ts, old(self)@.current) == shifted(parse_targets(ts, loop_start, first), 2),
                parse_targets(ts, loop_start, first) == shifted(parse_targets(ts, self@.current, transitions@), (self@.current - loop_start) as nat),
            decreases remaining(ts, self@.current),
        {
            match self.consume(TokenType::LeftParen, "Expect '('") {
                Ok(_) => {},
                Err(d) => {
                    return Err(d);
                },
            }
            let expr = match self.parse_expression() {
                Ok(e) => e,
                Err(d) => {
                    return Err(d);
                },
            };
            match self.consume(TokenType::RightParen, "Expect ')'") {
                Ok(_) => {},
                Err(d) => {
                    return Err(d);
                },
            }
            let next_node = match self.consume(TokenType::Identifier, "Expect next state after transition rate/problability") {
                Ok(t) => t,
                Err(d) => {
                    return Err(d);
                },
            };
            transitions.push(next_node, expr);
            if self.check(TokenType::NewLine) {
                return Ok(transitions);
            }
            match self.consume(TokenType::Comma, "Expect ',' between transition") {
                Ok(_) => {},
                Err(d) => {
                    return Err(d);
                },
            }
        }
    }

    #[verifier::rlimit(30)]
    fn scan_model_section(&mut self) -> (r: Result<ModelCommand, SyntaxError>)
        requires
            old(self)@.wf(),
        ensures
            final(self)@.tokens == old(self)@.tokens,
            agrees(transitions_result(r), old(self)@.current, final(self)@.current, parse_transitions(old(self)@.tokens, old(self)@.current, seq![])),
            r is Ok ==> final(self)@.wf(),
    {
        let ghost ts = self@.tokens;
        let ghost start = self@.current;
        let mut model = ModelCommand::new();
        while !self.is_section_end()
            invariant
                self@.wf(),
                self@.tokens == ts,
                ts == old(self)@.tokens,
                start == old(self)@.current,
                start <= self@.current,
                parse_transitions(ts, start, seq![]) == shifted(parse_transitions(ts, self@.current, model@), (self@.current - start) as nat),
            decreases remaining(ts, self@.current),
        {
            self.skip_newlines();
            match self.scan_transition_decl() {
                Ok(cmd) => {
                    self.skip_newline();
                    model.push(cmd);
                },
                Err(err) => {
                    return Err(err);
                },
            }
        }
        Ok(model)
    }

    fn scan_init(&mut self) -> (r: Result<Initialization, SyntaxError>)
        requires
            old(self)@.wf(),
        ensures
            final(self)@.tokens == old(self)@.tokens,
            agrees(init_result(r), old(self)@.current, final(self)@.current, parse_init(old(self)@.tokens, old(self)@.current)),
            r is Ok ==> final(self)@.wf(),
    {
        let node_name = match self.consume(TokenType::Identifier, "Expect node name in initialization") {
            Ok(t) => t,
            Err(d) => {
                return Err(d);
            },
        };
        match self.consume(TokenType::Equal, "Expect '=' after node name") {
            Ok(_) => {},
            Err(d) => {
                return Err(d);
            },
        }
        let expr = match self.parse_expression() {
            Ok(e) => e,
            Err(d) => {
                return Err(d);
            },
        };
        match self.consume(TokenType::NewLine, "Expect new line after each declaration") {
            Ok(_) => {},
            Err(d) => {
                return Err(d);
            },
        }
        Ok(Initialization::new(node_name, expr))
    }

    fn scan_init_section(&mut self) -> (r: Result<InitCommand, SyntaxError>)
        requires
            old(self)@.wf(),
        ensures
            final(self)@.tokens == old(self)@.tokens,
            agrees(inits_result(r), old(self)@.current, final(self)@.current, parse_inits(old(self)@.tokens, old(self)@.current, seq![])),
            r is Ok ==> final(self)@.wf(),
    {
        let ghost ts = self@.tokens;
        let ghost start = self@.current;
        let mut inits = InitCommand::new();
        while !self.is_section_end()
            invariant
                self@.wf(),
                self@.tokens == ts,
                ts == old(self)@.tokens,
                start == old(self)@.current,
                start <= self@.current,
                parse_inits(ts, start, seq![]) == shifted(parse_inits(ts, self@.current, inits@), (self@.current - start) as nat),
            decreases remaining(ts, self@.current),
        {
            self.skip_newlines();
            match self.scan_init() {
                Ok(cmd) => {
                    self.skip_newline();
                    inits.push(cmd);
                },
                Err(err) => {
                    return Err(err);
                },
            }
        }
        Ok(inits)
    }
}


impl Parser {
    /// Reads a named section into the section of its name.
    fn scan_named_section(
        &mut self,
        Ghost(model_type): Ghost<ModelType>,
        defs: &mut DefCommand,
        model: &mut ModelCommand,
        inits: &mut InitCommand,
    ) -> (r: Result<(), SyntaxError>)
        requires
            old(self)@.wf(),
            ({
                let kind = kind_at(old(self)@.tokens, old(self)@.current);
                kind == TokenType::Def || kind == TokenType::Init || kind == TokenType::Model
            }),
        ensures
            final(self)@.tokens == old(self)@.tokens,
            r is Ok ==> final(self)@.wf(),
            ({
                let before = ProgramModel { model_type, defs: old(defs)@, transitions: old(model)@, inits: old(inits)@ };
                let after = ProgramModel { model_type, defs: final(defs)@, transitions: final(model)@, inits: final(inits)@ };
                match parse_section(old(self)@.tokens, old(self)@.current + 1, kind_at(old(self)@.tokens, old(self)@.current), before) {
                    Ok((q, n)) => r is Ok && q == after && final(self)@.current == old(self)@.current + 1 + n,
                    Err(d) => r matches Err(e) && e@ == d,
                }
            }),
    {
        reveal(parse_section);
        let token = self.advance();
        match self.consume(TokenType::Colon, "Expect ':' after section name") {
            Ok(_) => {},
            Err(d) => {
                return Err(d);
            },
        }
        self.skip_newlines();
        if token.token_type == TokenType::Def {
            match self.scan_def_section() {
                Ok(section) => {
                    *defs = section;
                },
                Err(err) => {
                    return Err(err);
                },
            }
        } else if token.token_type == TokenType::Init {
            match self.scan_init_section() {
                Ok(section) => {
                    *inits = section;
                },
                Err(err) => {
                    return Err(err);
                },
            }
        } else {
            match self.scan_model_section() {
                Ok(section) => {
                    *model = section;
                },
                Err(err) => {
                    return Err(err);
                },
            }
        }
        Ok(())
    }

    /// Parses a whole specification: the model type, a line break, then its
    /// sections, in any order (a later section of a name replaces an
    /// earlier one), up to the first end token.
    pub fn parse(&mut self) -> (r: Result<(ModelType, DefCommand, ModelCommand, InitCommand), SyntaxError>)
        requires
            old(self)@.wf(),
        ensures
            final(self)@.tokens == old(self)@.tokens,
            agrees(program_result(r), old(self)@.current, final(self)@.current, parse_program(old(self)@.tokens, old(self)@.current)),
    {
        let ghost ts = self@.tokens;
        let model_type = match self.read_model_type() {
            Ok(m) => m,
            Err(d) => {
                return Err(d);
            },
        };
        let mut def_section = DefCommand::new();
        let mut model_section = ModelCommand::new();
        let mut init_section = InitCommand::new();
        match self.consume(TokenType::NewLine, "Expect new line after model type") {
            Ok(_) => {},
            Err(d) => {
                return Err(d);
            },
        }
        let ghost start = self@.current;
        let ghost first = ProgramModel { model_type, defs: seq![], transitions: seq![], inits: seq![] };
        while !self.check(TokenType::Eof)
            invariant
                self@.wf(),
                self@.tokens == ts,
                ts == old(self)@.tokens,
                start == old(self)@.current + 2,
                start <= self@.current,
                parse_program(ts, old(self)@.current) == shifted(parse_sections(ts, start, first), 2),
                parse_sections(ts, start, first) == shifted(
                    parse_sections(ts, self@.current, program_model((model_type, def_section, model_section, init_section))),
                    (self@.current - start) as nat,
                ),
            decreases remaining(ts, self@.current),
        {
            let kind = self.peek().token_type;
            if kind == TokenType::Def || kind == TokenType::Init || kind == TokenType::Model {
                match self.scan_named_section(Ghost(model_type), &mut def_section, &mut model_section, &mut init_section) {
                    Ok(_) => {},
                    Err(err) => {
                        return Err(err);
                    },
                }
            } else if kind == TokenType::NewLine {
                self.advance();
            } else {
                return Err(SyntaxError::new(self.peek(), "Expected section name"));
            }
        }
        Ok((model_type, def_section, model_section, init_section))
    }
}

} // verus!
