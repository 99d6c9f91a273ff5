//! What evaluation means: a function from a syntax tree, a memory and the
//! answers of the host to a value, a request or a failure.
//!
//! Evaluation is a pure function of its inputs. Whatever needs the host (a
//! floating-point operation, a native callable) is looked up in the list of
//! answers given so far, in the order in which evaluation meets it. Where the
//! list runs out, evaluation stops with the request it could not settle.

use vstd::prelude::*;
use crate::ast::AstView;
use crate::error::InterpreterError;
use crate::memory::{MemoryView, ScopeView, erase, lookup, store};
use crate::text::decimal_text;
use crate::token::TokenView;
use crate::value::{ComputedView, RequestView, ValueView};

verus! {

/// What stays the same throughout one evaluation.
pub struct Context {
    /// The native callables of the host, by name.
    pub builtins: ScopeView,
    /// The answers that the host has given so far, oldest first.
    pub answers: Seq<ValueView>,
}

/// What evaluation changes as it goes.
pub struct State {
    pub memory: MemoryView,
    /// How many answers have been used.
    pub asked: nat,
    /// How many steps may still be taken.
    pub steps: nat,
}

/// Why evaluation stopped before it had a value.
pub enum Stop {
    /// The host has not answered this request yet.
    Pending(RequestView),
    Failed(InterpreterError),
}

/// The value of a node, or why there is none, and the state afterwards.
pub struct Evaluated {
    pub outcome: Result<ValueView, Stop>,
    pub state: State,
}

/// The scope that a call builds from its arguments, or why there is none,
/// and the state afterwards.
pub struct Arguments {
    pub outcome: Result<ScopeView, Stop>,
    pub state: State,
}

pub open spec fn done(value: ValueView, state: State) -> Evaluated {
    Evaluated { outcome: Ok(value), state }
}

pub open spec fn fail(error: InterpreterError, state: State) -> Evaluated {
    Evaluated { outcome: Err(Stop::Failed(error)), state }
}

/// The state `s` with no more steps left than `bound`.
pub open spec fn within(s: State, bound: nat) -> State {
    State { steps: if s.steps <= bound { s.steps } else { bound }, ..s }
}

/// The name under which the argument at position `i` waits in a new scope.
pub open spec fn index_name(i: nat) -> Seq<char> {
    decimal_text(i)
}

/// What `name` refers to: its binding in the current scope, else the native
/// callable registered under it.
pub open spec fn find(ctx: Context, memory: MemoryView, name: Seq<char>) -> Option<ValueView> {
    match lookup(memory, name) {
        Some(v) => Some(v),
        None => if ctx.builtins.contains_key(name) {
            Some(ctx.builtins[name])
        } else {
            None
        },
    }
}

/// Turns the result of an operator into a value: a request is settled by the
/// next answer of the host, and is left pending if there is none.
pub open spec fn settle(
    ctx: Context,
    computed: Result<ComputedView, InterpreterError>,
    s: State,
) -> Evaluated {
    match computed {
        Err(e) => fail(e, s),
        Ok(ComputedView::Value(v)) => done(v, s),
        Ok(ComputedView::Request(request)) => if s.asked < ctx.answers.len() {
            let next = State { asked: s.asked + 1, ..s };
            match request.resolve(ctx.answers[s.asked as int]) {
                Ok(v) => done(v, next),
                Err(e) => fail(e, next),
            }
        } else {
            Evaluated { outcome: Err(Stop::Pending(request)), state: s }
        },
    }
}

/// The memory `m` after the function declarations among `children`, from
/// position `i` on, are bound in its current scope, each under its name.
pub open spec fn hoist(children: Seq<AstView>, i: nat, m: MemoryView) -> Result<
    MemoryView,
    InterpreterError,
>
    decreases children.len() - i,
{
    if i >= children.len() {
        Ok(m)
    } else {
        match children[i as int] {
            AstView::FunctionDeclaration { identifier, .. } => match identifier {
                TokenView::ID(name) => hoist(
                    children,
                    i + 1,
                    store(m, name, ValueView::Function(children[i as int])),
                ),
                _ => Err(InterpreterError::MalformedTree),
            },
            _ => hoist(children, i + 1, m),
        }
    }
}

/// The memory `m` after the functions that `tree` declares are bound in its
/// current scope: those at the top level of a program; for a declaration,
/// the function itself and those at the top level of its body.
pub open spec fn load_functions(tree: AstView, m: MemoryView) -> Result<
    MemoryView,
    InterpreterError,
> {
    match tree {
        AstView::Program { children } => hoist(children, 0, m),
        AstView::FunctionDeclaration { identifier, body, .. } => match identifier {
            TokenView::ID(name) => {
                let own = store(m, name, ValueView::Function(tree));
                match *body {
                    AstView::Bloc { children } => hoist(children, 0, own),
                    _ => Ok(own),
                }
            },
            _ => Err(InterpreterError::MalformedTree),
        },
        _ => Ok(m),
    }
}

/// The memory `m` after the arguments that wait under their positions, from
/// position `i` on, are bound to the names of `parameters`.
pub open spec fn bind(parameters: Seq<AstView>, i: nat, m: MemoryView) -> Result<
    MemoryView,
    InterpreterError,
>
    decreases parameters.len() - i,
{
    if i >= parameters.len() {
        Ok(m)
    } else {
        match parameters[i as int] {
            AstView::Parameter { parameter } => match *parameter {
                AstView::Variable { id: TokenView::ID(name) } => match lookup(m, index_name(i)) {
                    None => Err(InterpreterError::WrongArgumentCount),
                    Some(value) => {
                        let taken = erase(m, index_name(i));
                        if lookup(taken, name) is Some {
                            Err(InterpreterError::DuplicateParameter)
                        } else {
                            bind(parameters, i + 1, store(taken, name, value))
                        }
                    },
                },
                _ => Err(InterpreterError::MalformedTree),
            },
            _ => Err(InterpreterError::MalformedTree),
        }
    }
}

/// The value of `node` in state `s`. Every node costs one step.
pub open spec fn eval(ctx: Context, node: AstView, s: State) -> Evaluated
    decreases s.steps, 0nat, 0nat,
{
    if s.steps == 0 {
        fail(InterpreterError::StepLimit, s)
    } else {
        let s = State { steps: (s.steps - 1) as nat, ..s };
        match node {
            AstView::Program { children } => eval_program(ctx, children, 0, ValueView::Nothing, s),
            AstView::Bloc { children } => eval_bloc(ctx, children, 0, s),
            AstView::IfStatement { if_compound, else_if_compounds, else_compound } => eval_if(
                ctx,
                *if_compound.0,
                *if_compound.1,
                else_if_compounds,
                *else_compound,
                s,
            ),
            AstView::WhileStatement { condition, bloc } => eval_while(ctx, *condition, *bloc, s),
            AstView::FunctionDeclaration { parameters, body, .. } => match bind(
                parameters,
                0,
                s.memory,
            ) {
                Ok(m) => eval(ctx, *body, State { memory: m, ..s }),
                Err(e) => fail(e, s),
            },
            AstView::Parameter { parameter } => eval(ctx, *parameter, s),
            AstView::ReturnStatement { expression } => eval(ctx, *expression, s),
            AstView::Assignment { left, right } => eval_assignment(ctx, *left, *right, s),
            AstView::BinaryOperation { left, op, right } => eval_binary(ctx, *left, op, *right, s),
            AstView::UnaryOperation { op, right } => eval_unary(ctx, op, *right, s),
            AstView::IntNumber { token } => match token.integer() {
                Some(i) => done(ValueView::Int(i), s),
                None => fail(InterpreterError::MalformedLiteral, s),
            },
            AstView::FloatNumber { token } => match token {
                TokenView::FLOAT(text) => settle(
                    ctx,
                    Ok(ComputedView::Request(RequestView::Literal { text })),
                    s,
                ),
                _ => fail(InterpreterError::MalformedLiteral, s),
            },
            AstView::Boolean { token } => match token.boolean() {
                Some(b) => done(ValueView::Bool(b), s),
                None => fail(InterpreterError::MalformedLiteral, s),
            },
            AstView::FunctionCall { identifier, arguments } => eval_call(ctx, identifier, arguments, s),
            AstView::Variable { id } => match id {
                TokenView::ID(name) => match find(ctx, s.memory, name) {
                    Some(v) => done(v, s),
                    None => fail(InterpreterError::UnboundVariable, s),
                },
                _ => fail(InterpreterError::MalformedTree, s),
            },
            AstView::Empty => done(ValueView::Nothing, s),
        }
    }
}

/// The statements of a program from position `i` on, in order. Function
/// declarations are passed over. The value is that of the last statement
/// evaluated; `last` if there is none.
pub open spec fn eval_program(
    ctx: Context,
    children: Seq<AstView>,
    i: nat,
    last: ValueView,
    s: State,
) -> Evaluated
    decreases s.steps, 1nat, children.len() - i,
{
    if i >= children.len() {
        done(last, s)
    } else if children[i as int] is FunctionDeclaration {
        eval_program(ctx, children, i + 1, last, s)
    } else {
        let r = eval(ctx, children[i as int], s);
        match r.outcome {
            Ok(v) => eval_program(ctx, children, i + 1, v, within(r.state, s.steps)),
            Err(_) => r,
        }
    }
}

/// The statements of a block from position `i` on, in order. The block ends
/// with the value of the first return statement it reaches, or with the
/// value of the first `if` or `while` statement that gives one. Function
/// declarations are passed over. A block that runs to its end has no value.
pub open spec fn eval_bloc(ctx: Context, children: Seq<AstView>, i: nat, s: State) -> Evaluated
    decreases s.steps, 1nat, children.len() - i,
{
    if i >= children.len() {
        done(ValueView::Nothing, s)
    } else if children[i as int] is FunctionDeclaration {
        eval_bloc(ctx, children, i + 1, s)
    } else {
        let child = children[i as int];
        let r = eval(ctx, child, s);
        match r.outcome {
            Ok(v) => if child is ReturnStatement {
                r
            } else if (child is IfStatement || child is WhileStatement) && !(v is Nothing) {
                r
            } else {
                eval_bloc(ctx, children, i + 1, within(r.state, s.steps))
            },
            Err(_) => r,
        }
    }
}

/// An `if` statement: the block of the first condition that holds, among
/// the primary one and those of the `else if` branches in order; the `else`
/// block if none holds. A condition must be a truth value.
pub open spec fn eval_if(
    ctx: Context,
    condition: AstView,
    bloc: AstView,
    else_if_compounds: Seq<(AstView, AstView)>,
    else_compound: AstView,
    s: State,
) -> Evaluated
    decreases s.steps, 2nat, 0nat,
{
    let r = eval(ctx, condition, s);
    match r.outcome {
        Ok(ValueView::Bool(true)) => eval(ctx, bloc, within(r.state, s.steps)),
        Ok(ValueView::Bool(false)) => eval_else_ifs(
            ctx,
            else_if_compounds,
            0,
            else_compound,
            within(r.state, s.steps),
        ),
        Ok(_) => fail(InterpreterError::InvalidOperand, r.state),
        Err(_) => r,
    }
}

/// The `else if` branches from position `i` on, then the `else` block.
pub open spec fn eval_else_ifs(
    ctx: Context,
    compounds: Seq<(AstView, AstView)>,
    i: nat,
    else_compound: AstView,
    s: State,
) -> Evaluated
    decreases s.steps, 1nat, compounds.len() - i,
{
    if i >= compounds.len() {
        eval(ctx, else_compound, s)
    } else {
        let r = eval(ctx, compounds[i as int].0, s);
        match r.outcome {
            Ok(ValueView::Bool(true)) => eval(ctx, compounds[i as int].1, within(r.state, s.steps)),
            Ok(ValueView::Bool(false)) => eval_else_ifs(
                ctx,
                compounds,
                i + 1,
                else_compound,
                within(r.state, s.steps),
            ),
            Ok(_) => fail(InterpreterError::InvalidOperand, r.state),
            Err(_) => r,
        }
    }
}

/// A `while` statement: the condition is evaluated before each round, and
/// the loop ends when it is false, or with the value of the first round
/// that gives one. Each round costs one step of its own.
pub open spec fn eval_while(ctx: Context, condition: AstView, bloc: AstView, s: State) -> Evaluated
    decreases s.steps, 1nat, 0nat,
{
    if s.steps == 0 {
        fail(InterpreterError::StepLimit, s)
    } else {
        let s = State { steps: (s.steps - 1) as nat, ..s };
        let r = eval(ctx, condition, s);
        match r.outcome {
            Ok(ValueView::Bool(true)) => {
                let round = eval(ctx, bloc, within(r.state, s.steps));
                match round.outcome {
                    Ok(ValueView::Nothing) => eval_while(
                        ctx,
                        condition,
                        bloc,
                        within(round.state, s.steps),
                    ),
                    _ => round,
                }
            },
            Ok(ValueView::Bool(false)) => done(ValueView::Nothing, r.state),
            Ok(_) => fail(InterpreterError::InvalidOperand, r.state),
            Err(_) => r,
        }
    }
}

/// An assignment: the target must be a variable; the value of the right-hand
/// side is bound to its name in the current scope. It has no value itself.
pub open spec fn eval_assignment(ctx: Context, left: AstView, right: AstView, s: State) -> Evaluated
    decreases s.steps, 1nat, 0nat,
{
    match left {
        AstView::Variable { id: TokenView::ID(name) } => {
            let r = eval(ctx, right, s);
            match r.outcome {
                Ok(v) => done(
                    ValueView::Nothing,
                    State { memory: store(r.state.memory, name, v), ..r.state },
                ),
                Err(_) => r,
            }
        },
        _ => fail(InterpreterError::InvalidAssignmentTarget, s),
    }
}

/// The tokens that stand for a binary operator.
pub open spec fn is_binary_operator(op: TokenView) -> bool {
    op is PLUS || op is MINUS || op is MUL || op is DIV || op is EQ || op is NE || op is LE
        || op is GE || op is LT || op is GT || op is OR || op is AND
}

/// A binary operation: both operands are evaluated, the left one first, then
/// the operator is applied.
pub open spec fn eval_binary(
    ctx: Context,
    left: AstView,
    op: TokenView,
    right: AstView,
    s: State,
) -> Evaluated
    decreases s.steps, 1nat, 0nat,
{
    if !is_binary_operator(op) {
        fail(InterpreterError::MalformedTree, s)
    } else {
        let l = eval(ctx, left, s);
        match l.outcome {
            Ok(a) => {
                let r = eval(ctx, right, within(l.state, s.steps));
                match r.outcome {
                    Ok(b) => settle(ctx, ValueView::binary(op, a, b), r.state),
                    Err(_) => r,
                }
            },
            Err(_) => l,
        }
    }
}

/// A unary operation: `+` leaves its operand as it is, `-` negates a number,
/// `not` negates a truth value.
pub open spec fn eval_unary(ctx: Context, op: TokenView, right: AstView, s: State) -> Evaluated
    decreases s.steps, 1nat, 0nat,
{
    match op {
        TokenView::PLUS => eval(ctx, right, s),
        TokenView::MINUS => {
            let r = eval(ctx, right, s);
            match r.outcome {
                Ok(v) => settle(ctx, v.neg(), r.state),
                Err(_) => r,
            }
        },
        TokenView::NOT => {
            let r = eval(ctx, right, s);
            match r.outcome {
                Ok(v) => match v.not() {
                    Ok(negated) => done(negated, r.state),
                    Err(e) => fail(e, r.state),
                },
                Err(_) => r,
            }
        },
        _ => fail(InterpreterError::MalformedTree, s),
    }
}

/// The arguments of a call from position `i` on, evaluated in order in the
/// caller's scope and added to `frame`, each under its position.
pub open spec fn eval_arguments(
    ctx: Context,
    arguments: Seq<AstView>,
    i: nat,
    frame: ScopeView,
    s: State,
) -> Arguments
    decreases s.steps, 1nat, arguments.len() - i,
{
    if i >= arguments.len() {
        Arguments { outcome: Ok(frame), state: s }
    } else {
        let r = eval(ctx, arguments[i as int], s);
        match r.outcome {
            Ok(v) => eval_arguments(
                ctx,
                arguments,
                i + 1,
                frame.insert(index_name(i), v),
                within(r.state, s.steps),
            ),
            Err(stop) => Arguments { outcome: Err(stop), state: r.state },
        }
    }
}

/// A call. The target is looked up by name. For a user function, the
/// arguments are counted, then evaluated in the caller's scope; a new scope
/// holds them under their positions; the function and those that its body
/// declares are bound in it; the declaration is evaluated, which binds the
/// parameters and runs the body; the scope is left. A native callable takes
/// one argument, and the host supplies what it returns.
pub open spec fn eval_call(
    ctx: Context,
    identifier: TokenView,
    arguments: Seq<AstView>,
    s: State,
) -> Evaluated
    decreases s.steps, 2nat, 0nat,
{
    match identifier {
        TokenView::ID(name) => match find(ctx, s.memory, name) {
            Some(ValueView::Function(declaration)) => match declaration {
                AstView::FunctionDeclaration { parameters, .. } => if arguments.len()
                    != parameters.len() {
                    fail(InterpreterError::WrongArgumentCount, s)
                } else {
                    let a = eval_arguments(ctx, arguments, 0, Map::empty(), s);
                    match a.outcome {
                        Ok(frame) => match load_functions(declaration, a.state.memory.push(frame)) {
                            Ok(m) => {
                                let r = eval(
                                    ctx,
                                    declaration,
                                    State { memory: m, ..within(a.state, s.steps) },
                                );
                                match r.outcome {
                                    Ok(v) => done(
                                        v,
                                        State { memory: r.state.memory.drop_last(), ..r.state },
                                    ),
                                    Err(_) => r,
                                }
                            },
                            Err(e) => fail(e, a.state),
                        },
                        Err(stop) => Evaluated { outcome: Err(stop), state: a.state },
                    }
                },
                _ => fail(InterpreterError::MalformedTree, s),
            },
            Some(ValueView::BuiltinFunction(builtin)) => if arguments.len() != 1 {
                fail(InterpreterError::WrongArgumentCount, s)
            } else {
                let r = eval(ctx, arguments[0], s);
                match r.outcome {
                    Ok(v) => settle(
                        ctx,
                        Ok(ComputedView::Request(RequestView::Call { name: builtin, argument: v })),
                        r.state,
                    ),
                    Err(_) => r,
                }
            },
            Some(_) => fail(InterpreterError::NotCallable, s),
            None => fail(InterpreterError::UnboundVariable, s),
        },
        _ => fail(InterpreterError::MalformedTree, s),
    }
}

/// A whole run: the functions that `tree` declares are bound, then `tree`
/// is evaluated.
pub open spec fn run(ctx: Context, tree: AstView, s: State) -> Evaluated {
    match load_functions(tree, s.memory) {
        Ok(m) => eval(ctx, tree, State { memory: m, ..s }),
        Err(e) => fail(e, s),
    }
}

} // verus!
