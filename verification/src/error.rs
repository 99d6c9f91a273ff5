//! The kinds of failure that lexing, parsing and evaluation report.

use vstd::prelude::*;

verus! {

/// Why a source text could not be turned into tokens.
#[derive(Debug, Clone, Copy, PartialEq, Eq, Structural)]
pub enum LexicalError {
    /// A character that starts no token (a lone `!` among them).
    UnrecognizedCharacter,
    /// A line whose leading spaces are not a multiple of the indentation unit.
    BadIndentation,
}

/// Why a token sequence is not a program.
#[derive(Debug, Clone, Copy, PartialEq, Eq, Structural)]
pub enum SyntaxError {
    /// A token other than the one the grammar requires at this point.
    UnexpectedToken,
    /// An opening parenthesis whose closing parenthesis is missing.
    UnmatchedParenthesis,
    /// A statement that begins with a token no expression can start with.
    MalformedStatement,
}

/// Why evaluation of a syntax tree stopped.
#[derive(Debug, Clone, Copy, PartialEq, Eq, Structural)]
pub enum InterpreterError {
    /// A name with no binding in the current scope.
    UnboundVariable,
    /// A call whose target is bound to something that is no function.
    NotCallable,
    /// A call with more or fewer arguments than the callee takes.
    WrongArgumentCount,
    /// An operator applied to operands of kinds it does not accept.
    InvalidOperand,
    /// An assignment whose left-hand side is not a variable.
    InvalidAssignmentTarget,
    /// A literal whose text denotes no value of its kind.
    MalformedLiteral,
    /// A tree of a shape the parser never builds.
    MalformedTree,
    /// A parameter whose name is already bound in the callee's scope.
    DuplicateParameter,
    /// An integer result outside the 32-bit range.
    Overflow,
    /// The evaluation used up its budget of steps.
    StepLimit,
    /// The host answered a request with a value of the wrong kind.
    UnexpectedAnswer,
}

/// Any failure of the pipeline, tagged with the stage that raised it.
#[derive(Debug, Clone, Copy, PartialEq, Eq, Structural)]
pub enum Error {
    Lexical(LexicalError),
    Syntax(SyntaxError),
    Interpreter(InterpreterError),
}

} // verus!
