use vstd::prelude::*;
use crate::errors::{
    IdentifierNotFoundError, MissingName, Place, RunError, RunErrorModel, SyntaxError, TypeError,
    TypeMismatch, ValueError, syntax_diagnostic,
};
use crate::simulator::Simulator;
use crate::token::{Literal, LiteralModel, Token, TokenModel, TokenType};

verus! {

/// A number, held as the arithmetic over decimal numerals that computes it.
///
/// The arithmetic is done in binary floating point where the Markov chain is
/// built, outside this library; here each number records exactly which
/// numerals and which operations, in which order, make it.
#[derive(Debug)]
pub enum Number {
    Numeral(String),
    Neg(Box<Number>),
    Add(Box<Number>, Box<Number>),
    Sub(Box<Number>, Box<Number>),
    Mul(Box<Number>, Box<Number>),
    Div(Box<Number>, Box<Number>),
}

/// Mathematical model of a `Number`.
#[verifier::ext_equal]
pub enum NumberModel {
    Numeral(Seq<char>),
    Neg(Box<NumberModel>),
    Add(Box<NumberModel>, Box<NumberModel>),
    Sub(Box<NumberModel>, Box<NumberModel>),
    Mul(Box<NumberModel>, Box<NumberModel>),
    Div(Box<NumberModel>, Box<NumberModel>),
}

pub open spec fn number_model(n: Number) -> NumberModel
    decreases n,
{
    match n {
        Number::Numeral(s) => NumberModel::Numeral(s@),
        Number::Neg(a) => NumberModel::Neg(Box::new(number_model(*a))),
        Number::Add(a, b) => NumberModel::Add(Box::new(number_model(*a)), Box::new(number_model(*b))),
        Number::Sub(a, b) => NumberModel::Sub(Box::new(number_model(*a)), Box::new(number_model(*b))),
        Number::Mul(a, b) => NumberModel::Mul(Box::new(number_model(*a)), Box::new(number_model(*b))),
        Number::Div(a, b) => NumberModel::Div(Box::new(number_model(*a)), Box::new(number_model(*b))),
    }
}

impl View for Number {
    type V = NumberModel;

    open spec fn view(&self) -> NumberModel {
        number_model(*self)
    }
}

impl Number {
    /// A copy of the number.
    pub fn copy(&self) -> (r: Number)
        ensures
            r == *self,
        decreases self,
    {
        match self {
            Number::Numeral(s) => Number::Numeral(s.clone()),
            Number::Neg(a) => Number::Neg(Box::new((**a).copy())),
            Number::Add(a, b) => Number::Add(Box::new((**a).copy()), Box::new((**b).copy())),
            Number::Sub(a, b) => Number::Sub(Box::new((**a).copy()), Box::new((**b).copy())),
            Number::Mul(a, b) => Number::Mul(Box::new((**a).copy()), Box::new((**b).copy())),
            Number::Div(a, b) => Number::Div(Box::new((**a).copy()), Box::new((**b).copy())),
        }
    }
}

impl Clone for Number {
    fn clone(&self) -> (r: Self)
        ensures
            r == *self,
    {
        self.copy()
    }
}

/// The value of an expression.
#[derive(Debug)]
pub enum Value {
    Number(Number),
    Boolean(bool),
}

/// Mathematical model of a `Value`.
#[verifier::ext_equal]
pub enum ValueModel {
    Number(NumberModel),
    Boolean(bool),
}

impl View for Value {
    type V = ValueModel;

    open spec fn view(&self) -> ValueModel {
        match self {
            Value::Number(n) => ValueModel::Number(n@),
            Value::Boolean(b) => ValueModel::Boolean(*b),
        }
    }
}

impl Clone for Value {
    fn clone(&self) -> (r: Self)
        ensures
            r == *self,
    {
        match self {
            Value::Number(n) => Value::Number(n.copy()),
            Value::Boolean(b) => Value::Boolean(*b),
        }
    }
}

/// A numeric literal.
pub struct LiteralExpression {
    token: Token,
}

/// A `$` variable.
pub struct VariableExpression {
    name: Token,
}

/// An expression in parentheses.
pub struct GroupingExpression {
    expression: Box<Expr>,
}

/// Two operands and an operator between them.
pub struct BinaryExpression {
    operator: Token,
    left: Box<Expr>,
    right: Box<Expr>,
}

/// An operator before an operand.
pub struct UnaryExpression {
    operator: Token,
    right: Box<Expr>,
}

/// An expression of the specification language.
pub enum Expr {
    Literal(LiteralExpression),
    Variable(VariableExpression),
    Grouping(GroupingExpression),
    Binary(BinaryExpression),
    Unary(UnaryExpression),
}

/// Mathematical model of an `Expr`.
#[verifier::ext_equal]
pub enum ExprModel {
    Literal(TokenModel),
    Variable(TokenModel),
    Grouping(Box<ExprModel>),
    Binary(TokenModel, Box<ExprModel>, Box<ExprModel>),
    Unary(TokenModel, Box<ExprModel>),
}

pub closed spec fn expr_model(e: Expr) -> ExprModel
    decreases e,
{
    match e {
        Expr::Literal(l) => ExprModel::Literal(l.token@),
        Expr::Variable(v) => ExprModel::Variable(v.name@),
        Expr::Grouping(g) => ExprModel::Grouping(Box::new(expr_model(*g.expression))),
        Expr::Binary(b) => ExprModel::Binary(b.operator@, Box::new(expr_model(*b.left)), Box::new(expr_model(*b.right))),
        Expr::Unary(u) => ExprModel::Unary(u.operator@, Box::new(expr_model(*u.right))),
    }
}

impl View for Expr {
    type V = ExprModel;

    open spec fn view(&self) -> ExprModel {
        expr_model(*self)
    }
}


impl View for LiteralExpression {
    type V = ExprModel;

    closed spec fn view(&self) -> ExprModel {
        ExprModel::Literal(self.token@)
    }
}

impl View for VariableExpression {
    type V = ExprModel;

    closed spec fn view(&self) -> ExprModel {
        ExprModel::Variable(self.name@)
    }
}

impl View for GroupingExpression {
    type V = ExprModel;

    closed spec fn view(&self) -> ExprModel {
        ExprModel::Grouping(Box::new(expr_model(*self.expression)))
    }
}

impl View for BinaryExpression {
    type V = ExprModel;

    closed spec fn view(&self) -> ExprModel {
        ExprModel::Binary(self.operator@, Box::new(expr_model(*self.left)), Box::new(expr_model(*self.right)))
    }
}

impl View for UnaryExpression {
    type V = ExprModel;

    closed spec fn view(&self) -> ExprModel {
        ExprModel::Unary(self.operator@, Box::new(expr_model(*self.right)))
    }
}

impl LiteralExpression {
    pub fn new(token: Token) -> (r: Self)
        ensures
            r@ == ExprModel::Literal(token@),
            Expr::Literal(r)@ == r@,
    {
        LiteralExpression { token }
    }
}

impl VariableExpression {
    pub fn new(token: Token) -> (r: Self)
        ensures
            r@ == ExprModel::Variable(token@),
            Expr::Variable(r)@ == r@,
    {
        VariableExpression { name: token }
    }
}

impl GroupingExpression {
    pub fn new(expr: Box<Expr>) -> (r: Self)
        ensures
            r@ == ExprModel::Grouping(Box::new(expr@)),
            Expr::Grouping(r)@ == r@,
    {
        GroupingExpression { expression: expr }
    }
}

impl BinaryExpression {
    pub fn new(operator: Token, left: Box<Expr>, right: Box<Expr>) -> (r: Self)
        ensures
            r@ == ExprModel::Binary(operator@, Box::new(left@), Box::new(right@)),
            Expr::Binary(r)@ == r@,
    {
        BinaryExpression { operator, left, right }
    }
}

impl UnaryExpression {
    pub fn new(operator: Token, right: Box<Expr>) -> (r: Self)
        ensures
            r@ == ExprModel::Unary(operator@, Box::new(right@)),
            Expr::Unary(r)@ == r@,
    {
        UnaryExpression { operator, right }
    }
}

/// The error for an operand that is not a number.
pub open spec fn number_expected() -> RunErrorModel {
    RunErrorModel::Type(TypeMismatch { expected: "Number"@, given: "Boolean"@ })
}

/// The error for a token that is not an operator where one stands.
pub open spec fn invalid_operator(op: TokenModel) -> RunErrorModel {
    RunErrorModel::Syntax(syntax_diagnostic(op.line, op.pos, op.lexeme, "Invalid operator"@))
}

/// Whether a token kind is one of the four arithmetic operators.
pub open spec fn is_arithmetic(kind: TokenType) -> bool {
    kind == TokenType::Plus || kind == TokenType::Minus || kind == TokenType::Mult || kind == TokenType::Div
}

/// The number that an arithmetic operator makes of two numbers.
pub open spec fn arithmetic(kind: TokenType, x: NumberModel, y: NumberModel) -> NumberModel {
    if kind == TokenType::Plus {
        NumberModel::Add(Box::new(x), Box::new(y))
    } else if kind == TokenType::Minus {
        NumberModel::Sub(Box::new(x), Box::new(y))
    } else if kind == TokenType::Mult {
        NumberModel::Mul(Box::new(x), Box::new(y))
    } else {
        NumberModel::Div(Box::new(x), Box::new(y))
    }
}

/// The value of an operator applied to two values.
pub open spec fn binary_value(op: TokenModel, a: ValueModel, b: ValueModel) -> Result<ValueModel, RunErrorModel> {
    if is_arithmetic(op.kind) {
        match (a, b) {
            (ValueModel::Number(x), ValueModel::Number(y)) => Ok(ValueModel::Number(arithmetic(op.kind, x, y))),
            _ => Err(number_expected()),
        }
    } else {
        Err(invalid_operator(op))
    }
}

/// The value of an operator applied to one value.
pub open spec fn unary_value(op: TokenModel, a: ValueModel) -> Result<ValueModel, RunErrorModel> {
    if op.kind == TokenType::Minus {
        match a {
            ValueModel::Number(x) => Ok(ValueModel::Number(NumberModel::Neg(Box::new(x)))),
            _ => Err(number_expected()),
        }
    } else {
        Err(invalid_operator(op))
    }
}

/// The value of an expression where the variables have the given values:
/// operands are evaluated left to right, and the first error met is the
/// result.
pub open spec fn eval_expr(e: ExprModel, vars: Map<Seq<char>, ValueModel>) -> Result<ValueModel, RunErrorModel>
    decreases e,
{
    match e {
        ExprModel::Literal(t) => match t.literal {
            LiteralModel::Float(numeral) => Ok(ValueModel::Number(NumberModel::Numeral(numeral))),
            _ => Err(RunErrorModel::Value(Place { line: t.line, pos: t.pos })),
        },
        ExprModel::Variable(t) => {
            if vars.contains_key(t.lexeme) {
                Ok(vars[t.lexeme])
            } else {
                Err(RunErrorModel::NotFound(MissingName { identifier: t.lexeme, line: t.line, pos: t.pos }))
            }
        },
        ExprModel::Grouping(inner) => eval_expr(*inner, vars),
        ExprModel::Binary(op, left, right) => match eval_expr(*left, vars) {
            Err(err) => Err(err),
            Ok(a) => match eval_expr(*right, vars) {
                Err(err) => Err(err),
                Ok(b) => binary_value(op, a, b),
            },
        },
        ExprModel::Unary(op, right) => match eval_expr(*right, vars) {
            Err(err) => Err(err),
            Ok(a) => unary_value(op, a),
        },
    }
}

/// The result of an evaluation, as a model.
pub open spec fn value_result(r: Result<Value, RunError>) -> Result<ValueModel, RunErrorModel> {
    match r {
        Ok(v) => Ok(v@),
        Err(e) => Err(e@),
    }
}

/// The error for an operand that is not a number.
fn number_expected_error() -> (r: RunError)
    ensures
        r@ == number_expected(),
{
    RunError::Type(TypeError::new(String::from_str("Number"), String::from_str("Boolean")))
}

/// Applies an arithmetic operator to two values.
fn numeric_binary(operator: &Token, left: Value, right: Value) -> (r: Result<Value, RunError>)
    ensures
        value_result(r) == binary_value(operator@, left@, right@),
{
    let kind = operator.token_type;
    if kind == TokenType::Plus || kind == TokenType::Minus || kind == TokenType::Mult || kind == TokenType::Div {
        match (left, right) {
            (Value::Number(a), Value::Number(b)) => {
                let n = if kind == TokenType::Plus {
                    Number::Add(Box::new(a), Box::new(b))
                } else if kind == TokenType::Minus {
                    Number::Sub(Box::new(a), Box::new(b))
                } else if kind == TokenType::Mult {
                    Number::Mul(Box::new(a), Box::new(b))
                } else {
                    Number::Div(Box::new(a), Box::new(b))
                };
                Ok(Value::Number(n))
            },
            _ => Err(number_expected_error()),
        }
    } else {
        Err(RunError::Syntax(SyntaxError::new(operator, "Invalid operator")))
    }
}

/// Evaluates expressions against the variables of a simulator.
pub trait Expression {
    fn eval(&self, simulator: &mut Simulator) -> Result<Value, RunError>;
}

impl Expr {
    /// The value of the expression, with the simulator's variables.
    pub fn evaluate(&self, simulator: &mut Simulator) -> (r: Result<Value, RunError>)
        ensures
            *final(simulator) == *old(simulator),
            value_result(r) == eval_expr(self@, old(simulator)@.tables.variables),
        decreases self,
    {
        match self {
            Expr::Literal(l) => l.evaluate(simulator),
            Expr::Variable(v) => v.evaluate(simulator),
            Expr::Grouping(g) => g.evaluate(simulator),
            Expr::Binary(b) => b.evaluate(simulator),
            Expr::Unary(u) => u.evaluate(simulator),
        }
    }
}

impl LiteralExpression {
    pub fn evaluate(&self, simulator: &mut Simulator) -> (r: Result<Value, RunError>)
        ensures
            *final(simulator) == *old(simulator),
            value_result(r) == eval_expr(self@, old(simulator)@.tables.variables),
    {
        match &self.token.literal {
            Literal::Float(f) => Ok(Value::Number(Number::Numeral(f.clone()))),
            _ => Err(RunError::Value(ValueError::new(self.token.line, self.token.pos))),
        }
    }
}

impl VariableExpression {
    pub fn evaluate(&self, simulator: &mut Simulator) -> (r: Result<Value, RunError>)
        ensures
            *final(simulator) == *old(simulator),
            value_result(r) == eval_expr(self@, old(simulator)@.tables.variables),
    {
        match simulator.lookup_variable(&self.name.lexeme) {
            Ok(val) => Ok(val),
            Err(_) => Err(RunError::NotFound(IdentifierNotFoundError::new(&self.name))),
        }
    }
}

impl GroupingExpression {
    pub fn evaluate(&self, simulator: &mut Simulator) -> (r: Result<Value, RunError>)
        ensures
            *final(simulator) == *old(simulator),
            value_result(r) == eval_expr(self@, old(simulator)@.tables.variables),
        decreases self,
    {
        self.expression.evaluate(simulator)
    }
}

impl BinaryExpression {
    pub fn evaluate(&self, simulator: &mut Simulator) -> (r: Result<Value, RunError>)
        ensures
            *final(simulator) == *old(simulator),
            value_result(r) == eval_expr(self@, old(simulator)@.tables.variables),
        decreases self,
    {
        let left = match self.left.evaluate(simulator) {
            Ok(v) => v,
            Err(err) => {
                return Err(err);
            },
        };
        let right = match self.right.evaluate(simulator) {
            Ok(v) => v,
            Err(err) => {
                return Err(err);
            },
        };
        numeric_binary(&self.operator, left, right)
    }
}

impl UnaryExpression {
    pub fn evaluate(&self, simulator: &mut Simulator) -> (r: Result<Value, RunError>)
        ensures
            *final(simulator) == *old(simulator),
            value_result(r) == eval_expr(self@, old(simulator)@.tables.variables),
        decreases self,
    {
        let right = match self.right.evaluate(simulator) {
            Ok(v) => v,
            Err(err) => {
                return Err(err);
            },
        };
        if self.operator.token_type == TokenType::Minus {
            match right {
                Value::Number(a) => Ok(Value::Number(Number::Neg(Box::new(a)))),
                _ => Err(number_expected_error()),
            }
        } else {
            Err(RunError::Syntax(SyntaxError::new(&self.operator, "Invalid operator")))
        }
    }
}

impl Expression for Expr {
    fn eval(&self, simulator: &mut Simulator) -> (r: Result<Value, RunError>)
        ensures
            *final(simulator) == *old(simulator),
            value_result(r) == eval_expr(self@, old(simulator)@.tables.variables),
    {
        self.evaluate(simulator)
    }
}

impl Expression for LiteralExpression {
    fn eval(&self, simulator: &mut Simulator) -> (r: Result<Value, RunError>)
        ensures
            *final(simulator) == *old(simulator),
            value_result(r) == eval_expr(self@, old(simulator)@.tables.variables),
    {
        self.evaluate(simulator)
    }
}

impl Expression for VariableExpression {
    fn eval(&self, simulator: &mut Simulator) -> (r: Result<Value, RunError>)
        ensures
            *final(simulator) == *old(simulator),
            value_result(r) == eval_expr(self@, old(simulator)@.tables.variables),
    {
        self.evaluate(simulator)
    }
}

impl Expression for GroupingExpression {
    fn eval(&self, simulator: &mut Simulator) -> (r: Result<Value, RunError>)
        ensures
            *final(simulator) == *old(simulator),
            value_result(r) == eval_expr(self@, old(simulator)@.tables.variables),
    {
        self.evaluate(simulator)
    }
}

impl Expression for BinaryExpression {
    fn eval(&self, simulator: &mut Simulator) -> (r: Result<Value, RunError>)
        ensures
            *final(simulator) == *old(simulator),
            value_result(r) == eval_expr(self@, old(simulator)@.tables.variables),
    {
        self.evaluate(simulator)
    }
}

impl Expression for UnaryExpression {
    fn eval(&self, simulator: &mut Simulator) -> (r: Result<Value, RunError>)
        ensures
            *final(simulator) == *old(simulator),
            value_result(r) == eval_expr(self@, old(simulator)@.tables.variables),
    {
        self.evaluate(simulator)
    }
}

} // verus!
