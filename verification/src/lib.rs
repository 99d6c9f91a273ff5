//! Interpreter for the `bjørn` language: a lexer, a recursive-descent parser
//! and a tree-walking evaluator, each with a machine-checked contract.
//!
//! The library computes on integers, truth values and functions. It holds
//! floating-point numbers as bit patterns and never computes on them:
//! whatever needs floating-point arithmetic, and every call of a native
//! callable, is handed to the host as a [`value::Request`]. A run is a pure
//! function of the source text and of the answers supplied so far.

pub mod ast;
pub mod builtins;
pub mod error;
pub mod grammar;
pub mod grapheme;
pub mod interpreter;
pub mod laws;
pub mod lexer;
pub mod memory;
pub mod parser;
pub mod semantics;
pub mod text;
pub mod token;
pub mod value;

use vstd::prelude::*;
use crate::ast::AST;
use crate::error::Error;
use crate::grammar::{Parse, program};
use crate::grapheme::source_graphemes;
use crate::interpreter::{
    Interpreter, Progress, ProgressView, STEP_LIMIT, fresh_context, initial, report,
    reported, value_views,
};
use crate::lexer::{Lexer, Scanned, scan_from, token_views};
use crate::parser::{Parser, stream_of};
use crate::semantics::{Context, run};
use crate::token::Token;
use crate::value::Value;

verus! {

/// All the tokens of the source text `input`, read from its start at
/// indentation level zero.
pub open spec fn scanned(input: Seq<char>) -> Scanned {
    scan_from(source_graphemes(input), 0, 0)
}

/// The syntax tree of the source text `input`.
pub open spec fn parsed(input: Seq<char>) -> Parse {
    program(stream_of(scanned(input)), 0)
}

/// What running the source text `input` reports when the host has given
/// `answers` so far.
pub open spec fn interpreted(input: Seq<char>, answers: Seq<crate::value::ValueView>) -> Result<
    ProgressView,
    Error,
> {
    match parsed(input) {
        Ok(tree) => report(
            run(
                Context { answers, ..fresh_context() },
                tree.value,
                initial(STEP_LIMIT as nat),
            ).outcome,
        ),
        Err(e) => Err(e),
    }
}

/// `r` is what scanning `input` gives: all its tokens, or the failure that
/// ended them.
pub open spec fn scans(input: Seq<char>, r: Result<Vec<Token>, Error>) -> bool {
    match scanned(input).failure {
        None => r matches Ok(tokens) && token_views(tokens@) == scanned(input).tokens,
        Some(e) => r == Err::<Vec<Token>, Error>(Error::Lexical(e)),
    }
}

/// Lexical analysis only: the tokens of `input`, in order.
pub fn scan(input: &str) -> (r: Result<Vec<Token>, Error>)
    ensures
        scans(input@, r),
{
    let mut lexer = Lexer::new(input);
    let (tokens, failure) = lexer.drain();
    match failure {
        None => Ok(tokens),
        Some(e) => Err(Error::Lexical(e)),
    }
}

/// Lexical and syntactic analysis: the `Program` node of `input`.
pub fn parse(input: &str) -> (r: Result<AST, Error>)
    ensures
        match parsed(input@) {
            Ok(tree) => r matches Ok(node) && node@ == tree.value,
            Err(e) => r == Err::<AST, Error>(e),
        },
{
    let mut parser = Parser::new(Lexer::new(input));
    parser.parse()
}

/// Runs the program `input` from its start, with the answers that the host
/// has given to the requests of earlier runs, oldest first.
///
/// The run ends with the value of the last statement, or with the first
/// request that `answers` does not settle: answer it, add the answer to the
/// list and run again.
pub fn interpret(input: &str, answers: Vec<Value>) -> (r: Result<Progress, Error>)
    ensures
        reported(r) == interpreted(input@, value_views(answers@)),
{
    let mut interpreter = Interpreter::new(Parser::new(Lexer::new(input)));
    interpreter.supply_all(answers);
    interpreter.interpret()
}

} // verus!
