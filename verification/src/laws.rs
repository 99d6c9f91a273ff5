//! What holds of the language whatever the program: laws of the operators,
//! of the memory and of scanning.

use vstd::prelude::*;
use crate::ast::AstView;
use crate::grammar::{Stream, program, program_items};
use crate::error::{Error, InterpreterError};
use crate::memory::{MemoryView, ScopeView, lookup, store};
use crate::semantics::{Context, State, Stop, eval, eval_binary};
use crate::token::{Token, TokenView};
use crate::value::{ComputedView, RequestView, ValueView};
use crate::lexer::token_views;
use crate::scans;

verus! {

/// The view of what scanning gave: the tokens, or the failure.
pub open spec fn scan_view(r: Result<Vec<Token>, Error>) -> Result<Seq<TokenView>, Error> {
    match r {
        Ok(tokens) => Ok(token_views(tokens@)),
        Err(e) => Err(e),
    }
}

/// Scanning is a function of the text: two scans of the same text give the
/// same tokens, or fail alike.
pub proof fn law_scan_is_repeatable(
    input: Seq<char>,
    first: Result<Vec<Token>, Error>,
    second: Result<Vec<Token>, Error>,
)
    requires
        scans(input, first),
        scans(input, second),
    ensures
        scan_view(first) == scan_view(second),
{
}

/// A program is read to the end of its tokens: parsing stops nowhere but at
/// the end-of-stream token.
pub proof fn law_program_items_end_at_eof(s: Stream, i: nat, acc: Seq<AstView>)
    ensures
        program_items(s, i, acc) matches Ok(items) ==> s.at(i + items.used) == Ok::<
            TokenView,
            Error,
        >(TokenView::EOF),
    decreases s.left(i),
{
    reveal_with_fuel(program_items, 1);
    match s.at(i) {
        Ok(TokenView::EOF) => {},
        Ok(TokenView::NEWLINE) => {
            law_program_items_end_at_eof(s, i + 1, acc);
        },
        Ok(_) => {
            match crate::grammar::statement(s, i) {
                Ok(st) => {
                    if st.used > 0 {
                        law_program_items_end_at_eof(s, i + st.used, acc.push(st.value));
                    }
                },
                Err(_) => {},
            }
        },
        Err(_) => {},
    }
}

/// Parsing gives one `Program` node that covers all the tokens up to the
/// end-of-stream token.
pub proof fn law_program_covers_the_stream(s: Stream, i: nat)
    ensures
        program(s, i) matches Ok(tree) ==> tree.value is Program && s.at(i + tree.used) == Ok::<
            TokenView,
            Error,
        >(TokenView::EOF),
{
    law_program_items_end_at_eof(s, i, Seq::empty());
}

/// Division asks the host whatever the operands are, two integers
/// included, and only a floating-point number is accepted as the quotient.
pub proof fn law_division_is_floating_point(left: ValueView, right: ValueView, answer: ValueView)
    requires
        left.is_number(),
        right.is_number(),
    ensures
        left.div(right) == Ok::<ComputedView, InterpreterError>(
            ComputedView::Request(RequestView::Binary { op: TokenView::DIV, left, right }),
        ),
        (RequestView::Binary { op: TokenView::DIV, left, right }).resolve(answer) is Ok ==> answer
            is Float,
{
}

/// Whatever the host answers, the quotient of two integer literals is a
/// floating-point number or nothing at all: never an integer.
pub proof fn law_integer_quotient_is_float(ctx: Context, a: Seq<char>, b: Seq<char>, s: State)
    ensures
        eval(
            ctx,
            AstView::BinaryOperation {
                left: Box::new(AstView::IntNumber { token: TokenView::INT(a) }),
                op: TokenView::DIV,
                right: Box::new(AstView::IntNumber { token: TokenView::INT(b) }),
            },
            s,
        ).outcome matches Ok(v) ==> v is Float,
{
    reveal_with_fuel(eval, 3);
    reveal_with_fuel(eval_binary, 2);
}

/// Arithmetic refuses an operand that is no number.
pub proof fn law_arithmetic_needs_numbers(op: TokenView, left: ValueView, right: ValueView)
    requires
        op is PLUS || op is MINUS || op is MUL || op is DIV,
        !left.is_number() || !right.is_number(),
    ensures
        ValueView::binary(op, left, right) == Err::<ComputedView, InterpreterError>(
            InterpreterError::InvalidOperand,
        ),
{
}

/// `or` and `and` refuse an operand that is no truth value.
pub proof fn law_logic_needs_truth_values(op: TokenView, left: ValueView, right: ValueView)
    requires
        op is OR || op is AND,
        !(left is Bool) || !(right is Bool),
    ensures
        ValueView::binary(op, left, right) == Err::<ComputedView, InterpreterError>(
            InterpreterError::InvalidOperand,
        ),
{
}

/// `not` refuses an operand that is no truth value.
pub proof fn law_not_needs_a_truth_value(operand: ValueView)
    requires
        !(operand is Bool),
    ensures
        operand.not() == Err::<ValueView, InterpreterError>(InterpreterError::InvalidOperand),
{
}

/// Comparisons refuse a truth value beside a number.
pub proof fn law_comparison_needs_like_kinds(op: TokenView, truth: bool, number: ValueView)
    requires
        op is EQ || op is NE || op is LE || op is GE || op is LT || op is GT,
        number.is_number(),
    ensures
        ValueView::binary(op, ValueView::Bool(truth), number) == Err::<
            ComputedView,
            InterpreterError,
        >(InterpreterError::InvalidOperand),
        ValueView::binary(op, number, ValueView::Bool(truth)) == Err::<
            ComputedView,
            InterpreterError,
        >(InterpreterError::InvalidOperand),
{
}

/// A new scope hides every scope below it: a lookup finds what the new
/// scope binds, and nothing else.
pub proof fn law_scopes_are_isolated(m: MemoryView, frame: ScopeView, key: Seq<char>)
    ensures
        lookup(m.push(frame), key) == (if frame.contains_key(key) {
            Some(frame[key])
        } else {
            None
        }),
{
}

/// A binding made in the current scope leaves every scope below it as it
/// was, and is gone when the scope is left.
pub proof fn law_bindings_stay_in_their_scope(
    m: MemoryView,
    frame: ScopeView,
    key: Seq<char>,
    value: ValueView,
)
    ensures
        store(m.push(frame), key, value) == m.push(frame.insert(key, value)),
        store(m.push(frame), key, value).drop_last() == m,
{
    assert(store(m.push(frame), key, value) =~= m.push(frame.insert(key, value)));
    assert(m.push(frame.insert(key, value)).drop_last() =~= m);
}

/// A function body does not see the variables of its caller: a name that
/// the current scope does not bind, and that names no native callable, is
/// unbound, whatever the scopes below hold.
pub proof fn law_unbound_in_new_scope(
    ctx: Context,
    m: MemoryView,
    frame: ScopeView,
    name: Seq<char>,
    s: State,
)
    requires
        s.steps > 0,
        s.memory == m.push(frame),
        !frame.contains_key(name),
        !ctx.builtins.contains_key(name),
    ensures
        eval(ctx, AstView::Variable { id: TokenView::ID(name) }, s).outcome == Err::<
            ValueView,
            Stop,
        >(Stop::Failed(InterpreterError::UnboundVariable)),
{
}

} // verus!
