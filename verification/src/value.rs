//! Runtime values, the operators of the language on them, and the requests
//! that stand for what only the host can compute.

use vstd::prelude::*;
use crate::ast::{AST, AstView};
use crate::error::InterpreterError;
use crate::text::{int_text, int_to_string};
use crate::token::{Token, TokenView};

verus! {

/// A double-precision number, held as its IEEE 754 bit pattern. The library
/// never computes on it: every operation that involves one is a `Request`.
#[derive(Debug, Clone, Copy, PartialEq, Eq, Structural)]
pub struct Float {
    pub bits: u64,
}

/// A value of the language.
#[derive(Debug, PartialEq)]
pub enum Value {
    Int(i32),
    Float(Float),
    Bool(bool),
    /// A user function: an owned copy of its declaration.
    Function(AST),
    /// A native callable of the host, referred to by its registered name.
    BuiltinFunction(String),
    Nothing,
}

/// A value as contracts see it.
pub enum ValueView {
    Int(i32),
    Float(Float),
    Bool(bool),
    Function(AstView),
    BuiltinFunction(Seq<char>),
    Nothing,
}

impl View for Value {
    type V = ValueView;

    open spec fn view(&self) -> ValueView {
        match self {
            Value::Int(a) => ValueView::Int(*a),
            Value::Float(a) => ValueView::Float(*a),
            Value::Bool(a) => ValueView::Bool(*a),
            Value::Function(declaration) => ValueView::Function(declaration@),
            Value::BuiltinFunction(name) => ValueView::BuiltinFunction(name@),
            Value::Nothing => ValueView::Nothing,
        }
    }
}

impl Clone for Value {
    fn clone(&self) -> (r: Self)
        ensures
            r@ == self@,
    {
        match self {
            Value::Int(a) => Value::Int(*a),
            Value::Float(a) => Value::Float(*a),
            Value::Bool(a) => Value::Bool(*a),
            Value::Function(declaration) => Value::Function(declaration.clone()),
            Value::BuiltinFunction(name) => Value::BuiltinFunction(name.clone()),
            Value::Nothing => Value::Nothing,
        }
    }
}

/// A computation that needs floating-point arithmetic or a native callable.
/// The host performs it and hands the result back as a value.
#[derive(Debug, PartialEq)]
pub enum Request {
    /// Read the number that the text of a floating-point literal writes.
    Literal { text: String },
    /// Apply a unary operator to a floating-point operand.
    Unary { op: Token, operand: Value },
    /// Apply a binary operator to two numbers, one of them at least
    /// floating-point, or divide two integers.
    Binary { op: Token, left: Value, right: Value },
    /// Call the native callable registered under `name` on one argument.
    Call { name: String, argument: Value },
}

/// A request as contracts see it.
pub enum RequestView {
    Literal { text: Seq<char> },
    Unary { op: TokenView, operand: ValueView },
    Binary { op: TokenView, left: ValueView, right: ValueView },
    Call { name: Seq<char>, argument: ValueView },
}

impl View for Request {
    type V = RequestView;

    open spec fn view(&self) -> RequestView {
        match self {
            Request::Literal { text } => RequestView::Literal { text: text@ },
            Request::Unary { op, operand } => RequestView::Unary { op: op@, operand: operand@ },
            Request::Binary { op, left, right } => RequestView::Binary {
                op: op@,
                left: left@,
                right: right@,
            },
            Request::Call { name, argument } => RequestView::Call { name: name@, argument: argument@ },
        }
    }
}

impl Clone for Request {
    fn clone(&self) -> (r: Self)
        ensures
            r@ == self@,
    {
        match self {
            Request::Literal { text } => Request::Literal { text: text.clone() },
            Request::Unary { op, operand } => Request::Unary { op: op.clone(), operand: operand.clone() },
            Request::Binary { op, left, right } => Request::Binary {
                op: op.clone(),
                left: left.clone(),
                right: right.clone(),
            },
            Request::Call { name, argument } => Request::Call {
                name: name.clone(),
                argument: argument.clone(),
            },
        }
    }
}

/// What applying an operator gives: a value, or a request whose answer is
/// the value.
#[derive(Debug, PartialEq)]
pub enum Computed {
    Value(Value),
    Request(Request),
}

/// The result of an operator as contracts see it.
pub enum ComputedView {
    Value(ValueView),
    Request(RequestView),
}

impl View for Computed {
    type V = ComputedView;

    open spec fn view(&self) -> ComputedView {
        match self {
            Computed::Value(v) => ComputedView::Value(v@),
            Computed::Request(r) => ComputedView::Request(r@),
        }
    }
}

/// The view of an operator's outcome, failure included.
pub open spec fn outcome_view(r: Result<Computed, InterpreterError>) -> Result<
    ComputedView,
    InterpreterError,
> {
    match r {
        Ok(c) => Ok(c@),
        Err(e) => Err(e),
    }
}

/// The view of a value or a failure.
pub open spec fn value_outcome_view(r: Result<Value, InterpreterError>) -> Result<
    ValueView,
    InterpreterError,
> {
    match r {
        Ok(v) => Ok(v@),
        Err(e) => Err(e),
    }
}

impl ValueView {
    /// An integer or a floating-point number.
    pub open spec fn is_number(self) -> bool {
        self is Int || self is Float
    }

    /// The integer `v` as a value, or an overflow if it leaves the 32-bit
    /// range.
    pub open spec fn checked(v: int) -> Result<ComputedView, InterpreterError> {
        if i32::MIN <= v <= i32::MAX {
            Ok(ComputedView::Value(ValueView::Int(v as i32)))
        } else {
            Err(InterpreterError::Overflow)
        }
    }

    /// What the host is asked when `op` meets two numbers that the library
    /// does not combine itself; an invalid operand if one is no number.
    pub open spec fn deferred(op: TokenView, left: ValueView, right: ValueView) -> Result<
        ComputedView,
        InterpreterError,
    > {
        if left.is_number() && right.is_number() {
            Ok(ComputedView::Request(RequestView::Binary { op, left, right }))
        } else {
            Err(InterpreterError::InvalidOperand)
        }
    }

    /// `self + other`: the exact sum of two integers, a request for any other
    /// pair of numbers.
    pub open spec fn add(self, other: ValueView) -> Result<ComputedView, InterpreterError> {
        match (self, other) {
            (ValueView::Int(a), ValueView::Int(b)) => Self::checked(a + b),
            _ => Self::deferred(TokenView::PLUS, self, other),
        }
    }

    /// `self - other`.
    pub open spec fn sub(self, other: ValueView) -> Result<ComputedView, InterpreterError> {
        match (self, other) {
            (ValueView::Int(a), ValueView::Int(b)) => Self::checked(a - b),
            _ => Self::deferred(TokenView::MINUS, self, other),
        }
    }

    /// `self * other`.
    pub open spec fn mul(self, other: ValueView) -> Result<ComputedView, InterpreterError> {
        match (self, other) {
            (ValueView::Int(a), ValueView::Int(b)) => Self::checked(a * b),
            _ => Self::deferred(TokenView::MUL, self, other),
        }
    }

    /// `self / other`: always a request, two integers included, so that the
    /// quotient is a floating-point number whatever the operands are.
    pub open spec fn div(self, other: ValueView) -> Result<ComputedView, InterpreterError> {
        Self::deferred(TokenView::DIV, self, other)
    }

    /// `-self`.
    pub open spec fn neg(self) -> Result<ComputedView, InterpreterError> {
        match self {
            ValueView::Int(a) => Self::checked(-a),
            ValueView::Float(_) => Ok(
                ComputedView::Request(RequestView::Unary { op: TokenView::MINUS, operand: self }),
            ),
            _ => Err(InterpreterError::InvalidOperand),
        }
    }

    /// `not self`: defined on truth values only.
    pub open spec fn not(self) -> Result<ValueView, InterpreterError> {
        match self {
            ValueView::Bool(a) => Ok(ValueView::Bool(!a)),
            _ => Err(InterpreterError::InvalidOperand),
        }
    }

    /// `self == other` when `negated` is false, `self != other` when it is
    /// true: decided here for two integers and for two truth values.
    pub open spec fn eq(self, other: ValueView, negated: bool) -> Result<
        ComputedView,
        InterpreterError,
    > {
        match (self, other) {
            (ValueView::Int(a), ValueView::Int(b)) => Ok(
                ComputedView::Value(ValueView::Bool((a == b) != negated)),
            ),
            (ValueView::Bool(a), ValueView::Bool(b)) => Ok(
                ComputedView::Value(ValueView::Bool((a == b) != negated)),
            ),
            _ => Self::deferred(if negated { TokenView::NE } else { TokenView::EQ }, self, other),
        }
    }

    /// What the ordering operator `op` says of two integers.
    pub open spec fn ordered(op: TokenView, a: int, b: int) -> bool {
        match op {
            TokenView::LE => a <= b,
            TokenView::GE => a >= b,
            TokenView::LT => a < b,
            _ => a > b,
        }
    }

    /// `self op other` for one of the four ordering operators: decided here
    /// for two integers.
    pub open spec fn compare(self, op: TokenView, other: ValueView) -> Result<
        ComputedView,
        InterpreterError,
    > {
        if !(op is LE || op is GE || op is LT || op is GT) {
            Err(InterpreterError::MalformedTree)
        } else {
            match (self, other) {
                (ValueView::Int(a), ValueView::Int(b)) => Ok(
                    ComputedView::Value(ValueView::Bool(Self::ordered(op, a as int, b as int))),
                ),
                _ => Self::deferred(op, self, other),
            }
        }
    }

    /// `self or other` when `conjunction` is false, `self and other` when it
    /// is true: defined on two truth values only.
    pub open spec fn logical(self, other: ValueView, conjunction: bool) -> Result<
        ComputedView,
        InterpreterError,
    > {
        match (self, other) {
            (ValueView::Bool(a), ValueView::Bool(b)) => Ok(
                ComputedView::Value(ValueView::Bool(if conjunction { a && b } else { a || b })),
            ),
            _ => Err(InterpreterError::InvalidOperand),
        }
    }

    /// The binary operator `op` applied to `left` and `right`.
    pub open spec fn binary(op: TokenView, left: ValueView, right: ValueView) -> Result<
        ComputedView,
        InterpreterError,
    > {
        match op {
            TokenView::PLUS => left.add(right),
            TokenView::MINUS => left.sub(right),
            TokenView::MUL => left.mul(right),
            TokenView::DIV => left.div(right),
            TokenView::EQ => left.eq(right, false),
            TokenView::NE => left.eq(right, true),
            TokenView::LE => left.compare(op, right),
            TokenView::GE => left.compare(op, right),
            TokenView::LT => left.compare(op, right),
            TokenView::GT => left.compare(op, right),
            TokenView::OR => left.logical(right, false),
            TokenView::AND => left.logical(right, true),
            _ => Err(InterpreterError::MalformedTree),
        }
    }

    /// The text that displays the value; nothing for a floating-point
    /// number, which only the host can format.
    pub open spec fn to_string(self) -> Option<Seq<char>> {
        match self {
            ValueView::Int(a) => Some(int_text(a as int)),
            ValueView::Float(_) => None,
            ValueView::Bool(true) => Some("true"@),
            ValueView::Bool(false) => Some("false"@),
            ValueView::Function(_) => Some("Function"@),
            ValueView::BuiltinFunction(_) => Some("BuiltinFunction"@),
            ValueView::Nothing => Some(""@),
        }
    }
}

impl RequestView {
    /// The value that the answer `answer` to this request stands for.
    ///
    /// Arithmetic must be answered by a floating-point number and a
    /// comparison by a truth value. A literal is answered by the number it
    /// writes, or by `Nothing` where its text writes none. A native callable may
    /// return any value.
    pub open spec fn resolve(self, answer: ValueView) -> Result<ValueView, InterpreterError> {
        match self {
            RequestView::Literal { .. } => match answer {
                ValueView::Float(_) => Ok(answer),
                ValueView::Nothing => Err(InterpreterError::MalformedLiteral),
                _ => Err(InterpreterError::UnexpectedAnswer),
            },
            RequestView::Unary { .. } => if answer is Float {
                Ok(answer)
            } else {
                Err(InterpreterError::UnexpectedAnswer)
            },
            RequestView::Binary { op, .. } => {
                let arithmetic = op is PLUS || op is MINUS || op is MUL || op is DIV;
                if (arithmetic && answer is Float) || (!arithmetic && answer is Bool) {
                    Ok(answer)
                } else {
                    Err(InterpreterError::UnexpectedAnswer)
                }
            },
            RequestView::Call { .. } => Ok(answer),
        }
    }
}

impl Request {
    /// Checks the host's answer against the request and hands it on as the
    /// value of the computation.
    pub fn resolve(&self, answer: Value) -> (r: Result<Value, InterpreterError>)
        ensures
            value_outcome_view(r) == self@.resolve(answer@),
    {
        match self {
            Request::Literal { .. } => match answer {
                Value::Float(_) => Ok(answer),
                Value::Nothing => Err(InterpreterError::MalformedLiteral),
                _ => Err(InterpreterError::UnexpectedAnswer),
            },
            Request::Unary { .. } => match answer {
                Value::Float(_) => Ok(answer),
                _ => Err(InterpreterError::UnexpectedAnswer),
            },
            Request::Binary { op, .. } => {
                let arithmetic = match op {
                    Token::PLUS => true,
                    Token::MINUS => true,
                    Token::MUL => true,
                    Token::DIV => true,
                    _ => false,
                };
                match answer {
                    Value::Float(_) => if arithmetic {
                        Ok(answer)
                    } else {
                        Err(InterpreterError::UnexpectedAnswer)
                    },
                    Value::Bool(_) => if arithmetic {
                        Err(InterpreterError::UnexpectedAnswer)
                    } else {
                        Ok(answer)
                    },
                    _ => Err(InterpreterError::UnexpectedAnswer),
                }
            },
            Request::Call { .. } => Ok(answer),
        }
    }
}

impl Value {
    fn is_number(&self) -> (r: bool)
        ensures
            r == self@.is_number(),
    {
        match self {
            Value::Int(_) => true,
            Value::Float(_) => true,
            _ => false,
        }
    }

    fn checked(v: i64) -> (r: Result<Computed, InterpreterError>)
        ensures
            outcome_view(r) == ValueView::checked(v as int),
    {
        if v < -0x8000_0000 || v > 0x7fff_ffff {
            Err(InterpreterError::Overflow)
        } else {
            Ok(Computed::Value(Value::Int(v as i32)))
        }
    }

    fn deferred(op: Token, left: Value, right: Value) -> (r: Result<Computed, InterpreterError>)
        ensures
            outcome_view(r) == ValueView::deferred(op@, left@, right@),
    {
        if left.is_number() && right.is_number() {
            Ok(Computed::Request(Request::Binary { op, left, right }))
        } else {
            Err(InterpreterError::InvalidOperand)
        }
    }

    /// `self + other`.
    pub fn add(self, other: Value) -> (r: Result<Computed, InterpreterError>)
        ensures
            outcome_view(r) == self@.add(other@),
    {
        match (&self, &other) {
            (Value::Int(a), Value::Int(b)) => Self::checked(*a as i64 + *b as i64),
            _ => Self::deferred(Token::PLUS, self, other),
        }
    }

    /// `self - other`.
    pub fn sub(self, other: Value) -> (r: Result<Computed, InterpreterError>)
        ensures
            outcome_view(r) == self@.sub(other@),
    {
        match (&self, &other) {
            (Value::Int(a), Value::Int(b)) => Self::checked(*a as i64 - *b as i64),
            _ => Self::deferred(Token::MINUS, self, other),
        }
    }

    /// `self * other`.
    pub fn mul(self, other: Value) -> (r: Result<Computed, InterpreterError>)
        ensures
            outcome_view(r) == self@.mul(other@),
    {
        match (&self, &other) {
            (Value::Int(a), Value::Int(b)) => {
                let x: i64 = *a as i64;
                let y: i64 = *b as i64;
                assert(-0x8000_0000 * 0x8000_0000 <= x * y <= 0x8000_0000 * 0x8000_0000)
                    by (nonlinear_arith)
                    requires
                        -0x8000_0000 <= x <= 0x7fff_ffff,
                        -0x8000_0000 <= y <= 0x7fff_ffff,
                ;
                Self::checked(x * y)
            },
            _ => Self::deferred(Token::MUL, self, other),
        }
    }

    /// `self / other`.
    pub fn div(self, other: Value) -> (r: Result<Computed, InterpreterError>)
        ensures
            outcome_view(r) == self@.div(other@),
    {
        Self::deferred(Token::DIV, self, other)
    }

    /// `-self`.
    pub fn neg(self) -> (r: Result<Computed, InterpreterError>)
        ensures
            outcome_view(r) == self@.neg(),
    {
        match self {
            Value::Int(a) => Self::checked(-(a as i64)),
            Value::Float(_) => Ok(Computed::Request(Request::Unary { op: Token::MINUS, operand: self })),
            _ => Err(InterpreterError::InvalidOperand),
        }
    }

    /// `not self`.
    pub fn not(self) -> (r: Result<Value, InterpreterError>)
        ensures
            value_outcome_view(r) == self@.not(),
    {
        match self {
            Value::Bool(a) => Ok(Value::Bool(!a)),
            _ => Err(InterpreterError::InvalidOperand),
        }
    }

    /// `self == other`, or `self != other` when `negated` is set.
    pub fn eq(self, other: Value, negated: bool) -> (r: Result<Computed, InterpreterError>)
        ensures
            outcome_view(r) == self@.eq(other@, negated),
    {
        match (&self, &other) {
            (Value::Int(a), Value::Int(b)) => Ok(Computed::Value(Value::Bool((*a == *b) != negated))),
            (Value::Bool(a), Value::Bool(b)) => Ok(
                Computed::Value(Value::Bool((*a == *b) != negated)),
            ),
            _ => Self::deferred(if negated { Token::NE } else { Token::EQ }, self, other),
        }
    }

    /// `self op other` for one of `<=`, `>=`, `<` and `>`.
    pub fn compare(self, op: Token, other: Value) -> (r: Result<Computed, InterpreterError>)
        ensures
            outcome_view(r) == self@.compare(op@, other@),
    {
        match op {
            Token::LE => {},
            Token::GE => {},
            Token::LT => {},
            Token::GT => {},
            _ => {
                return Err(InterpreterError::MalformedTree);
            },
        }
        match (&self, &other) {
            (Value::Int(a), Value::Int(b)) => {
                let holds = match op {
                    Token::LE => *a <= *b,
                    Token::GE => *a >= *b,
                    Token::LT => *a < *b,
                    _ => *a > *b,
                };
                Ok(Computed::Value(Value::Bool(holds)))
            },
            _ => Self::deferred(op, self, other),
        }
    }

    /// `self or other`, or `self and other` when `conjunction` is set.
    pub fn logical(self, other: Value, conjunction: bool) -> (r: Result<Computed, InterpreterError>)
        ensures
            outcome_view(r) == self@.logical(other@, conjunction),
    {
        match (self, other) {
            (Value::Bool(a), Value::Bool(b)) => Ok(
                Computed::Value(Value::Bool(if conjunction { a && b } else { a || b })),
            ),
            _ => Err(InterpreterError::InvalidOperand),
        }
    }

    /// Applies the binary operator `op`.
    pub fn binary(op: Token, left: Value, right: Value) -> (r: Result<Computed, InterpreterError>)
        ensures
            outcome_view(r) == ValueView::binary(op@, left@, right@),
    {
        match op {
            Token::PLUS => left.add(right),
            Token::MINUS => left.sub(right),
            Token::MUL => left.mul(right),
            Token::DIV => left.div(right),
            Token::EQ => left.eq(right, false),
            Token::NE => left.eq(right, true),
            Token::LE => left.compare(op, right),
            Token::GE => left.compare(op, right),
            Token::LT => left.compare(op, right),
            Token::GT => left.compare(op, right),
            Token::OR => left.logical(right, false),
            Token::AND => left.logical(right, true),
            _ => Err(InterpreterError::MalformedTree),
        }
    }

    /// The text that displays the value: integers in decimal, truth values
    /// as `true` and `false`, absence as the empty text, functions under a
    /// fixed label. A floating-point number has none here.
    pub fn to_string(&self) -> (r: Option<String>)
        ensures
            r is Some == self@.to_string() is Some,
            r matches Some(text) ==> self@.to_string() == Some(text@),
    {
        match self {
            Value::Int(a) => Some(int_to_string(*a)),
            Value::Float(_) => None,
            Value::Bool(true) => Some(String::from_str("true")),
            Value::Bool(false) => Some(String::from_str("false")),
            Value::Function(_) => Some(String::from_str("Function")),
            Value::BuiltinFunction(_) => Some(String::from_str("BuiltinFunction")),
            Value::Nothing => Some(String::from_str("")),
        }
    }
}

} // verus!
