//! The evaluator: walks a syntax tree against a memory.

use vstd::prelude::*;
use crate::ast::{AST, AstView, boxed_trees, compound_trees, trees};
use crate::builtins::{BuiltinsHandler, with_defaults};
use crate::error::{Error, InterpreterError};
use crate::grammar::{Parse, program};
use crate::memory::{Memory, Scope, ScopeView};
use crate::parser::Parser;
use crate::semantics::{
    Context, Evaluated, State, Stop, bind, eval, eval_arguments, eval_assignment,
    eval_binary, eval_bloc, eval_call, eval_else_ifs, eval_if, eval_program, eval_unary,
    eval_while, find, hoist, load_functions, run, settle,
};
use crate::text::decimal;
use crate::token::Token;
use crate::value::{Computed, Request, RequestView, Value, ValueView, outcome_view};

verus! {

/// Why a walk stopped before it had a value.
#[derive(Debug, PartialEq)]
pub enum Interruption {
    /// The host has not answered this request yet.
    Pending(Request),
    Failed(InterpreterError),
}

/// How far a run got.
#[derive(Debug, PartialEq)]
pub enum Progress {
    /// The program ran to its end, with this value.
    Finished(Value),
    /// The program needs the host's answer to this request. Supply it and
    /// run again.
    Pending(Request),
}

/// How far a run got, as contracts see it.
pub enum ProgressView {
    Finished(ValueView),
    Pending(RequestView),
}

impl View for Progress {
    type V = ProgressView;

    open spec fn view(&self) -> ProgressView {
        match self {
            Progress::Finished(v) => ProgressView::Finished(v@),
            Progress::Pending(r) => ProgressView::Pending(r@),
        }
    }
}

/// The view of a walk's result.
pub open spec fn walked(r: Result<Value, Interruption>) -> Result<ValueView, Stop> {
    match r {
        Ok(v) => Ok(v@),
        Err(Interruption::Pending(request)) => Err(Stop::Pending(request@)),
        Err(Interruption::Failed(e)) => Err(Stop::Failed(e)),
    }
}

/// The view of a run's result.
pub open spec fn reported(r: Result<Progress, Error>) -> Result<ProgressView, Error> {
    match r {
        Ok(p) => Ok(p@),
        Err(e) => Err(e),
    }
}

/// What a run reports for the outcome of an evaluation.
pub open spec fn report(outcome: Result<ValueView, Stop>) -> Result<ProgressView, Error> {
    match outcome {
        Ok(v) => Ok(ProgressView::Finished(v)),
        Err(Stop::Pending(request)) => Ok(ProgressView::Pending(request)),
        Err(Stop::Failed(e)) => Err(Error::Interpreter(e)),
    }
}

/// How many steps a run may take unless the host sets another limit.
pub const STEP_LIMIT: u64 = 0xffff_ffff_ffff_ffff;

/// The program that parsing gave, or why there is none.
pub open spec fn parsed_program(p: Parse) -> Result<AstView, Error> {
    match p {
        Ok(parsed) => Ok(parsed.value),
        Err(e) => Err(e),
    }
}

/// The registry and the answers with which an interpreter starts.
pub open spec fn fresh_context() -> Context {
    Context { builtins: with_defaults(Map::empty()), answers: Seq::<ValueView>::empty() }
}

/// The state in which every run starts: one empty scope, no answer used.
pub open spec fn initial(limit: nat) -> State {
    State { memory: seq![Map::<Seq<char>, ValueView>::empty()], asked: 0, steps: limit }
}

/// The views of a list of values, in order.
pub open spec fn value_views(values: Seq<Value>) -> Seq<ValueView> {
    values.map_values(|v: Value| v@)
}

/// Evaluates one program. It holds the program, the answers that the host
/// has supplied, and the memory of the latest run.
pub struct Interpreter {
    program: Option<AST>,
    failure: Option<Error>,
    /// The memory as the latest run left it.
    pub memory: Memory,
    builtins: BuiltinsHandler,
    answers: Vec<Value>,
    asked: usize,
    steps: u64,
    limit: u64,
}

impl Interpreter {
    /// The program, or why there is none.
    pub closed spec fn program(&self) -> Result<AstView, Error> {
        match (self.program, self.failure) {
            (Some(tree), None) => Ok(tree@),
            (_, Some(e)) => Err(e),
            (None, None) => Ok(AstView::Empty),
        }
    }

    /// The registry and the answers supplied so far.
    pub closed spec fn context(&self) -> Context {
        Context { builtins: self.builtins.builtins@, answers: value_views(self.answers@) }
    }

    /// How many steps a run may take.
    pub closed spec fn limit(&self) -> nat {
        self.limit as nat
    }

    /// The memory, the number of answers used and the steps left.
    pub closed spec fn state(&self) -> State {
        State { memory: self.memory@, asked: self.asked as nat, steps: self.steps as nat }
    }

    /// The interpreter is ready to run.
    pub closed spec fn wf(&self) -> bool {
        &&& self.memory.wf()
        &&& self.failure is None ==> self.program is Some
    }

    /// What a run reports: the failure that left the interpreter without a
    /// program, or the outcome of evaluating the program from the initial
    /// state with the answers supplied so far.
    pub open spec fn result(&self) -> Result<ProgressView, Error> {
        match self.program() {
            Ok(tree) => report(run(self.context(), tree, initial(self.limit())).outcome),
            Err(e) => Err(e),
        }
    }

    spec fn fixed(&self) -> (Option<AST>, Option<Error>, u64) {
        (self.program, self.failure, self.limit)
    }

    /// How the interpreter stands after a walk that the semantics describes
    /// as `e`, having started as `before`.
    spec fn follows(&self, before: &Interpreter, r: Result<Value, Interruption>, e: Evaluated) -> bool {
        &&& walked(r) == e.outcome
        &&& r is Ok ==> self.state() == e.state
        &&& r is Ok ==> self.state().memory.len() == before.state().memory.len()
        &&& self.state().steps <= before.state().steps
        &&& self.context() == before.context()
        &&& self.fixed() == before.fixed()
        &&& self.memory.wf()
    }

    /// An interpreter for the program that `parser` reads, with the default
    /// native callables and no answers yet. The program is parsed at once;
    /// if that fails, every run reports the failure.
    pub fn new(parser: Parser) -> (r: Interpreter)
        requires
            parser.wf(),
        ensures
            r.wf(),
            r.program() == parsed_program(program(parser.stream(), parser.position())),
            r.limit() == STEP_LIMIT,
            r.context() == fresh_context(),
    {
        let mut parser = parser;
        match parser.parse() {
            Ok(tree) => Self::with_program(tree, STEP_LIMIT),
            Err(e) => Self::with_failure(e, STEP_LIMIT),
        }
    }

    /// An interpreter for `program`, with the default native callables, no
    /// answers yet, and `limit` steps for each run.
    pub fn with_program(program: AST, limit: u64) -> (r: Interpreter)
        ensures
            r.wf(),
            r.program() == Ok::<AstView, Error>(program@),
            r.limit() == limit,
            r.context() == fresh_context(),
    {
        let mut builtins = BuiltinsHandler::new();
        builtins.register_builtins();
        let r = Interpreter {
            program: Some(program),
            failure: None,
            memory: Memory::new(Scope::new()),
            builtins,
            answers: Vec::new(),
            asked: 0,
            steps: limit,
            limit,
        };
        proof {
            assert(r.context().answers =~= Seq::<ValueView>::empty());
        }
        r
    }

    /// An interpreter that has no program: every run reports `failure`.
    pub fn with_failure(failure: Error, limit: u64) -> (r: Interpreter)
        ensures
            r.wf(),
            r.program() == Err::<AstView, Error>(failure),
            r.limit() == limit,
            r.context() == fresh_context(),
    {
        let mut builtins = BuiltinsHandler::new();
        builtins.register_builtins();
        let r = Interpreter {
            program: None,
            failure: Some(failure),
            memory: Memory::new(Scope::new()),
            builtins,
            answers: Vec::new(),
            asked: 0,
            steps: limit,
            limit,
        };
        proof {
            assert(r.context().answers =~= Seq::<ValueView>::empty());
        }
        r
    }

    /// Hands over the host's answer to the request that the latest run
    /// reported as pending.
    pub fn supply(&mut self, answer: Value)
        requires
            old(self).wf(),
        ensures
            final(self).wf(),
            final(self).program() == old(self).program(),
            final(self).limit() == old(self).limit(),
            final(self).context() == (Context {
                answers: old(self).context().answers.push(answer@),
                ..old(self).context()
            }),
    {
        self.answers.push(answer);
        proof {
            assert(self.context().answers =~= old(self).context().answers.push(answer@));
        }
    }

    /// Replaces the answers supplied so far by `answers`.
    pub fn supply_all(&mut self, answers: Vec<Value>)
        requires
            old(self).wf(),
        ensures
            final(self).wf(),
            final(self).program() == old(self).program(),
            final(self).limit() == old(self).limit(),
            final(self).context() == (Context {
                answers: value_views(answers@),
                ..old(self).context()
            }),
    {
        self.answers = answers;
    }

    /// Sets how many steps each run may take.
    pub fn set_limit(&mut self, limit: u64)
        requires
            old(self).wf(),
        ensures
            final(self).wf(),
            final(self).program() == old(self).program(),
            final(self).limit() == limit,
            final(self).context() == old(self).context(),
    {
        self.limit = limit;
    }

    fn settle(&mut self, computed: Result<Computed, InterpreterError>) -> (r: Result<
        Value,
        Interruption,
    >)
        requires
            old(self).memory.wf(),
        ensures
            final(self).follows(
                old(self),
                r,
                settle(old(self).context(), outcome_view(computed), old(self).state()),
            ),
    {
        match computed {
            Err(e) => Err(Interruption::Failed(e)),
            Ok(Computed::Value(v)) => Ok(v),
            Ok(Computed::Request(request)) => {
                if self.asked < self.answers.len() {
                    let answer = self.answers[self.asked].clone();
                    self.asked = self.asked + 1;
                    match request.resolve(answer) {
                        Ok(v) => Ok(v),
                        Err(e) => Err(Interruption::Failed(e)),
                    }
                } else {
                    Err(Interruption::Pending(request))
                }
            },
        }
    }

    fn find(&self, name: &String) -> (r: Option<Value>)
        requires
            self.memory.wf(),
        ensures
            crate::memory::optional_view(r) == find(self.context(), self.state().memory, name@),
    {
        match self.memory.get(name.clone()) {
            Some(v) => Some(v.clone()),
            None => match self.builtins.builtins.get(name.as_str()) {
                Some(v) => Some(v.clone()),
                None => None,
            },
        }
    }

    fn hoist(&mut self, children: &Vec<Box<AST>>) -> (r: Result<(), InterpreterError>)
        requires
            old(self).memory.wf(),
        ensures
            match hoist(boxed_trees(*children), 0, old(self).state().memory) {
                Ok(m) => r is Ok && final(self).state() == (State { memory: m, ..old(self).state() }),
                Err(e) => r == Err::<(), InterpreterError>(e),
            },
            final(self).state().memory.len() == old(self).state().memory.len(),
            final(self).state().steps == old(self).state().steps,
            final(self).context() == old(self).context(),
            final(self).fixed() == old(self).fixed(),
            final(self).memory.wf(),
    {
        let ghost kids = boxed_trees(*children);
        let ghost start = self.state().memory;
        let mut i: usize = 0;
        while i < children.len()
            invariant
                i <= children.len(),
                kids == boxed_trees(*children),
                start == old(self).state().memory,
                self.memory.wf(),
                self.state() == (State { memory: self.state().memory, ..old(self).state() }),
                self.state().memory.len() == start.len(),
                self.context() == old(self).context(),
                self.fixed() == old(self).fixed(),
                hoist(kids, 0, start) == hoist(kids, i as nat, self.state().memory),
            decreases children.len() - i,
        {
            let child: &AST = &*children[i];
            assert(kids[i as int] == child@);
            match child {
                AST::FunctionDeclaration { identifier, .. } => match identifier {
                    Token::ID(name) => {
                        let _ = self.memory.insert(name.clone(), Value::Function(child.clone()));
                    },
                    _ => {
                        return Err(InterpreterError::MalformedTree);
                    },
                },
                _ => {},
            }
            i += 1;
        }
        Ok(())
    }

    fn load_functions(&mut self, tree: &AST) -> (r: Result<(), InterpreterError>)
        requires
            old(self).memory.wf(),
        ensures
            match load_functions(tree@, old(self).state().memory) {
                Ok(m) => r is Ok && final(self).state() == (State { memory: m, ..old(self).state() }),
                Err(e) => r == Err::<(), InterpreterError>(e),
            },
            final(self).state().memory.len() == old(self).state().memory.len(),
            final(self).state().steps == old(self).state().steps,
            final(self).context() == old(self).context(),
            final(self).fixed() == old(self).fixed(),
            final(self).memory.wf(),
    {
        match tree {
            AST::Program { children } => self.hoist(children),
            AST::FunctionDeclaration { identifier, body, .. } => match identifier {
                Token::ID(name) => {
                    let _ = self.memory.insert(name.clone(), Value::Function(tree.clone()));
                    assert(tree@->FunctionDeclaration_body == (**body)@);
                    match &**body {
                        AST::Bloc { children } => {
                            assert((**body)@ == AstView::Bloc { children: boxed_trees(*children) });
                            self.hoist(children)
                        },
                        _ => Ok(()),
                    }
                },
                _ => Err(InterpreterError::MalformedTree),
            },
            _ => Ok(()),
        }
    }

    fn bind(&mut self, parameters: &Vec<AST>) -> (r: Result<(), InterpreterError>)
        requires
            old(self).memory.wf(),
        ensures
            match bind(trees(*parameters), 0, old(self).state().memory) {
                Ok(m) => r is Ok && final(self).state() == (State { memory: m, ..old(self).state() }),
                Err(e) => r == Err::<(), InterpreterError>(e),
            },
            final(self).state().memory.len() == old(self).state().memory.len(),
            final(self).state().steps == old(self).state().steps,
            final(self).context() == old(self).context(),
            final(self).fixed() == old(self).fixed(),
            final(self).memory.wf(),
    {
        let ghost names = trees(*parameters);
        let ghost start = self.state().memory;
        let mut i: usize = 0;
        while i < parameters.len()
            invariant
                i <= parameters.len(),
                names == trees(*parameters),
                start == old(self).state().memory,
                self.memory.wf(),
                self.state() == (State { memory: self.state().memory, ..old(self).state() }),
                self.state().memory.len() == start.len(),
                self.context() == old(self).context(),
                self.fixed() == old(self).fixed(),
                bind(names, 0, start) == bind(names, i as nat, self.state().memory),
            decreases parameters.len() - i,
        {
            assert(names[i as int] == parameters[i as int]@);
            let name: &String = match &parameters[i] {
                AST::Parameter { parameter } => match &**parameter {
                    AST::Variable { id } => match id {
                        Token::ID(name) => {
                            assert((**parameter)@ == AstView::Variable { id: id@ });
                            name
                        },
                        _ => {
                            assert((**parameter)@ == AstView::Variable { id: id@ });
                            return Err(InterpreterError::MalformedTree);
                        },
                    },
                    _ => {
                        assert(!((**parameter)@ is Variable));
                        return Err(InterpreterError::MalformedTree);
                    },
                },
                _ => {
                    return Err(InterpreterError::MalformedTree);
                },
            };
            let value = match self.memory.remove(decimal(i as u64)) {
                Some(value) => value,
                None => {
                    return Err(InterpreterError::WrongArgumentCount);
                },
            };
            if self.memory.get(name.clone()).is_some() {
                return Err(InterpreterError::DuplicateParameter);
            }
            let _ = self.memory.insert(name.clone(), value);
            i += 1;
        }
        Ok(())
    }

    /// Evaluates `tree` in the current memory.
    fn visit(&mut self, tree: &AST) -> (r: Result<Value, Interruption>)
        requires
            old(self).memory.wf(),
        ensures
            final(self).follows(old(self), r, eval(old(self).context(), tree@, old(self).state())),
        decreases old(self).state().steps, 0nat, 0nat,
    {
        if self.steps == 0 {
            return Err(Interruption::Failed(InterpreterError::StepLimit));
        }
        self.steps = self.steps - 1;
        match tree {
            AST::Program { children } => self.visit_program(children),
            AST::Bloc { children } => self.visit_bloc(children),
            AST::IfStatement { if_compound, else_if_compounds, else_compound } => self.visit_if(
                &*if_compound.0,
                &*if_compound.1,
                else_if_compounds,
                &**else_compound,
            ),
            AST::WhileStatement { condition, bloc } => self.visit_while(&**condition, &**bloc),
            AST::FunctionDeclaration { parameters, body, .. } => match self.bind(parameters) {
                Ok(()) => self.visit(&**body),
                Err(e) => Err(Interruption::Failed(e)),
            },
            AST::Parameter { parameter } => self.visit(&**parameter),
            AST::ReturnStatement { expression } => self.visit(&**expression),
            AST::Assignment { left, right } => self.visit_assignment(&**left, &**right),
            AST::BinaryOperation { left, op, right } => self.visit_binary(&**left, op, &**right),
            AST::UnaryOperation { op, right } => self.visit_unary(op, &**right),
            AST::IntNumber { token } => match token.integer() {
                Some(i) => Ok(Value::Int(i)),
                None => Err(Interruption::Failed(InterpreterError::MalformedLiteral)),
            },
            AST::FloatNumber { token } => match token {
                Token::FLOAT(text) => self.settle(
                    Ok(Computed::Request(Request::Literal { text: text.clone() })),
                ),
                _ => Err(Interruption::Failed(InterpreterError::MalformedLiteral)),
            },
            AST::Boolean { token } => match token.boolean() {
                Some(b) => Ok(Value::Bool(b)),
                None => Err(Interruption::Failed(InterpreterError::MalformedLiteral)),
            },
            AST::FunctionCall { identifier, arguments } => self.visit_call(identifier, arguments),
            AST::Variable { id } => match id {
                Token::ID(name) => match self.find(name) {
                    Some(v) => Ok(v),
                    None => Err(Interruption::Failed(InterpreterError::UnboundVariable)),
                },
                _ => Err(Interruption::Failed(InterpreterError::MalformedTree)),
            },
            AST::Empty => Ok(Value::Nothing),
        }
    }

    fn visit_program(&mut self, children: &Vec<Box<AST>>) -> (r: Result<Value, Interruption>)
        requires
            old(self).memory.wf(),
        ensures
            final(self).follows(
                old(self),
                r,
                eval_program(
                    old(self).context(),
                    boxed_trees(*children),
                    0,
                    ValueView::Nothing,
                    old(self).state(),
                ),
            ),
        decreases old(self).state().steps, 1nat, children.len(),
    {
        let ghost ctx = self.context();
        let ghost kids = boxed_trees(*children);
        let ghost start = self.state();
        let mut last = Value::Nothing;
        let mut i: usize = 0;
        while i < children.len()
            invariant
                i <= children.len(),
                kids == boxed_trees(*children),
                ctx == old(self).context(),
                start == old(self).state(),
                self.memory.wf(),
                self.context() == ctx,
                self.fixed() == old(self).fixed(),
                self.state().steps <= start.steps,
                self.state().memory.len() == start.memory.len(),
                eval_program(ctx, kids, 0, ValueView::Nothing, start) == eval_program(
                    ctx,
                    kids,
                    i as nat,
                    last@,
                    self.state(),
                ),
            decreases children.len() - i,
        {
            let child: &AST = &*children[i];
            assert(kids[i as int] == child@);
            match child {
                AST::FunctionDeclaration { .. } => {},
                _ => {
                    match self.visit(child) {
                        Ok(v) => {
                            last = v;
                        },
                        Err(stop) => {
                            return Err(stop);
                        },
                    }
                },
            }
            i += 1;
        }
        Ok(last)
    }

    fn visit_bloc(&mut self, children: &Vec<Box<AST>>) -> (r: Result<Value, Interruption>)
        requires
            old(self).memory.wf(),
        ensures
            final(self).follows(
                old(self),
                r,
                eval_bloc(old(self).context(), boxed_trees(*children), 0, old(self).state()),
            ),
        decreases old(self).state().steps, 1nat, children.len(),
    {
        let ghost ctx = self.context();
        let ghost kids = boxed_trees(*children);
        let ghost start = self.state();
        let mut i: usize = 0;
        while i < children.len()
            invariant
                i <= children.len(),
                kids == boxed_trees(*children),
                ctx == old(self).context(),
                start == old(self).state(),
                self.memory.wf(),
                self.context() == ctx,
                self.fixed() == old(self).fixed(),
                self.state().steps <= start.steps,
                self.state().memory.len() == start.memory.len(),
                eval_bloc(ctx, kids, 0, start) == eval_bloc(ctx, kids, i as nat, self.state()),
            decreases children.len() - i,
        {
            let child: &AST = &*children[i];
            assert(kids[i as int] == child@);
            match child {
                AST::FunctionDeclaration { .. } => {},
                AST::ReturnStatement { .. } => {
                    return self.visit(child);
                },
                AST::IfStatement { .. } => {
                    match self.visit(child) {
                        Ok(Value::Nothing) => {},
                        other => {
                            return other;
                        },
                    }
                },
                AST::WhileStatement { .. } => {
                    match self.visit(child) {
                        Ok(Value::Nothing) => {},
                        other => {
                            return other;
                        },
                    }
                },
                _ => {
                    match self.visit(child) {
                        Ok(_) => {},
                        Err(stop) => {
                            return Err(stop);
                        },
                    }
                },
            }
            i += 1;
        }
        Ok(Value::Nothing)
    }

    fn visit_if(
        &mut self,
        condition: &AST,
        bloc: &AST,
        else_if_compounds: &Vec<(Box<AST>, Box<AST>)>,
        else_compound: &AST,
    ) -> (r: Result<Value, Interruption>)
        requires
            old(self).memory.wf(),
        ensures
            final(self).follows(
                old(self),
                r,
                eval_if(
                    old(self).context(),
                    condition@,
                    bloc@,
                    compound_trees(*else_if_compounds),
                    else_compound@,
                    old(self).state(),
                ),
            ),
        decreases old(self).state().steps, 2nat, 0nat,
    {
        match self.visit(condition) {
            Ok(Value::Bool(true)) => self.visit(bloc),
            Ok(Value::Bool(false)) => self.visit_else_ifs(else_if_compounds, else_compound),
            Ok(_) => Err(Interruption::Failed(InterpreterError::InvalidOperand)),
            Err(stop) => Err(stop),
        }
    }

    fn visit_else_ifs(
        &mut self,
        compounds: &Vec<(Box<AST>, Box<AST>)>,
        else_compound: &AST,
    ) -> (r: Result<Value, Interruption>)
        requires
            old(self).memory.wf(),
        ensures
            final(self).follows(
                old(self),
                r,
                eval_else_ifs(
                    old(self).context(),
                    compound_trees(*compounds),
                    0,
                    else_compound@,
                    old(self).state(),
                ),
            ),
        decreases old(self).state().steps, 1nat, compounds.len(),
    {
        let ghost ctx = self.context();
        let ghost pairs = compound_trees(*compounds);
        let ghost start = self.state();
        let mut i: usize = 0;
        while i < compounds.len()
            invariant
                i <= compounds.len(),
                pairs == compound_trees(*compounds),
                ctx == old(self).context(),
                start == old(self).state(),
                self.memory.wf(),
                self.context() == ctx,
                self.fixed() == old(self).fixed(),
                self.state().steps <= start.steps,
                self.state().memory.len() == start.memory.len(),
                eval_else_ifs(ctx, pairs, 0, else_compound@, start) == eval_else_ifs(
                    ctx,
                    pairs,
                    i as nat,
                    else_compound@,
                    self.state(),
                ),
            decreases compounds.len() - i,
        {
            assert(pairs[i as int] == (compounds[i as int].0@, compounds[i as int].1@));
            match self.visit(&*compounds[i].0) {
                Ok(Value::Bool(true)) => {
                    return self.visit(&*compounds[i].1);
                },
                Ok(Value::Bool(false)) => {},
                Ok(_) => {
                    return Err(Interruption::Failed(InterpreterError::InvalidOperand));
                },
                Err(stop) => {
                    return Err(stop);
                },
            }
            i += 1;
        }
        self.visit(else_compound)
    }

    fn visit_while(&mut self, condition: &AST, bloc: &AST) -> (r: Result<Value, Interruption>)
        requires
            old(self).memory.wf(),
        ensures
            final(self).follows(
                old(self),
                r,
                eval_while(old(self).context(), condition@, bloc@, old(self).state()),
            ),
        decreases old(self).state().steps, 1nat, 0nat,
    {
        let ghost ctx = self.context();
        let ghost start = self.state();
        loop
            invariant
                ctx == old(self).context(),
                start == old(self).state(),
                self.memory.wf(),
                self.context() == ctx,
                self.fixed() == old(self).fixed(),
                self.state().steps <= start.steps,
                self.state().memory.len() == start.memory.len(),
                eval_while(ctx, condition@, bloc@, start) == eval_while(
                    ctx,
                    condition@,
                    bloc@,
                    self.state(),
                ),
            decreases self.steps,
        {
            if self.steps == 0 {
                return Err(Interruption::Failed(InterpreterError::StepLimit));
            }
            self.steps = self.steps - 1;
            match self.visit(condition) {
                Ok(Value::Bool(true)) => {
                    match self.visit(bloc) {
                        Ok(Value::Nothing) => {},
                        other => {
                            return other;
                        },
                    }
                },
                Ok(Value::Bool(false)) => {
                    return Ok(Value::Nothing);
                },
                Ok(_) => {
                    return Err(Interruption::Failed(InterpreterError::InvalidOperand));
                },
                Err(stop) => {
                    return Err(stop);
                },
            }
        }
    }

    fn visit_assignment(&mut self, left: &AST, right: &AST) -> (r: Result<Value, Interruption>)
        requires
            old(self).memory.wf(),
        ensures
            final(self).follows(
                old(self),
                r,
                eval_assignment(old(self).context(), left@, right@, old(self).state()),
            ),
        decreases old(self).state().steps, 1nat, 0nat,
    {
        let name: &String = match left {
            AST::Variable { id } => match id {
                Token::ID(name) => name,
                _ => {
                    return Err(Interruption::Failed(InterpreterError::InvalidAssignmentTarget));
                },
            },
            _ => {
                return Err(Interruption::Failed(InterpreterError::InvalidAssignmentTarget));
            },
        };
        match self.visit(right) {
            Ok(v) => {
                let _ = self.memory.insert(name.clone(), v);
                Ok(Value::Nothing)
            },
            Err(stop) => Err(stop),
        }
    }

    fn visit_binary(&mut self, left: &AST, op: &Token, right: &AST) -> (r: Result<
        Value,
        Interruption,
    >)
        requires
            old(self).memory.wf(),
        ensures
            final(self).follows(
                old(self),
                r,
                eval_binary(old(self).context(), left@, op@, right@, old(self).state()),
            ),
        decreases old(self).state().steps, 1nat, 0nat,
    {
        let known = match op {
            Token::PLUS => true,
            Token::MINUS => true,
            Token::MUL => true,
            Token::DIV => true,
            Token::EQ => true,
            Token::NE => true,
            Token::LE => true,
            Token::GE => true,
            Token::LT => true,
            Token::GT => true,
            Token::OR => true,
            Token::AND => true,
            _ => false,
        };
        if !known {
            return Err(Interruption::Failed(InterpreterError::MalformedTree));
        }
        let a = match self.visit(left) {
            Ok(a) => a,
            Err(stop) => {
                return Err(stop);
            },
        };
        let b = match self.visit(right) {
            Ok(b) => b,
            Err(stop) => {
                return Err(stop);
            },
        };
        self.settle(Value::binary(op.clone(), a, b))
    }

    fn visit_unary(&mut self, op: &Token, right: &AST) -> (r: Result<Value, Interruption>)
        requires
            old(self).memory.wf(),
        ensures
            final(self).follows(
                old(self),
                r,
                eval_unary(old(self).context(), op@, right@, old(self).state()),
            ),
        decreases old(self).state().steps, 1nat, 0nat,
    {
        match op {
            Token::PLUS => self.visit(right),
            Token::MINUS => match self.visit(right) {
                Ok(v) => self.settle(v.neg()),
                Err(stop) => Err(stop),
            },
            Token::NOT => match self.visit(right) {
                Ok(v) => match v.not() {
                    Ok(negated) => Ok(negated),
                    Err(e) => Err(Interruption::Failed(e)),
                },
                Err(stop) => Err(stop),
            },
            _ => Err(Interruption::Failed(InterpreterError::MalformedTree)),
        }
    }

    fn visit_arguments(&mut self, arguments: &Vec<AST>) -> (r: Result<Scope, Interruption>)
        requires
            old(self).memory.wf(),
        ensures
            ({
                let a = eval_arguments(
                    old(self).context(),
                    trees(*arguments),
                    0,
                    Map::empty(),
                    old(self).state(),
                );
                &&& match r {
                    Ok(frame) => a.outcome == Ok::<ScopeView, Stop>(frame@) && final(self).state()
                        == a.state && final(self).state().memory.len()
                        == old(self).state().memory.len(),
                    Err(Interruption::Pending(request)) => a.outcome == Err::<ScopeView, Stop>(
                        Stop::Pending(request@),
                    ),
                    Err(Interruption::Failed(e)) => a.outcome == Err::<ScopeView, Stop>(
                        Stop::Failed(e),
                    ),
                }
                &&& final(self).state().steps <= old(self).state().steps
                &&& final(self).context() == old(self).context()
                &&& final(self).fixed() == old(self).fixed()
                &&& final(self).memory.wf()
            }),
        decreases old(self).state().steps, 1nat, arguments.len(),
    {
        let ghost ctx = self.context();
        let ghost items = trees(*arguments);
        let ghost start = self.state();
        let mut frame = Scope::new();
        let mut i: usize = 0;
        while i < arguments.len()
            invariant
                i <= arguments.len(),
                items == trees(*arguments),
                ctx == old(self).context(),
                start == old(self).state(),
                self.memory.wf(),
                self.context() == ctx,
                self.fixed() == old(self).fixed(),
                self.state().steps <= start.steps,
                self.state().memory.len() == start.memory.len(),
                eval_arguments(ctx, items, 0, Map::empty(), start) == eval_arguments(
                    ctx,
                    items,
                    i as nat,
                    frame@,
                    self.state(),
                ),
            decreases arguments.len() - i,
        {
            assert(items[i as int] == arguments[i as int]@);
            match self.visit(&arguments[i]) {
                Ok(v) => {
                    frame.insert(decimal(i as u64), v);
                },
                Err(stop) => {
                    return Err(stop);
                },
            }
            i += 1;
        }
        Ok(frame)
    }

    fn visit_call(&mut self, identifier: &Token, arguments: &Vec<AST>) -> (r: Result<
        Value,
        Interruption,
    >)
        requires
            old(self).memory.wf(),
        ensures
            final(self).follows(
                old(self),
                r,
                eval_call(old(self).context(), identifier@, trees(*arguments), old(self).state()),
            ),
        decreases old(self).state().steps, 2nat, 0nat,
    {
        let name: &String = match identifier {
            Token::ID(name) => name,
            _ => {
                return Err(Interruption::Failed(InterpreterError::MalformedTree));
            },
        };
        match self.find(name) {
            Some(Value::Function(declaration)) => {
                assert(find(self.context(), self.state().memory, name@) == Some(
                    ValueView::Function(declaration@),
                ));
                let count = match &declaration {
                    AST::FunctionDeclaration { parameters, .. } => {
                        assert(declaration@->parameters == trees(*parameters));
                        parameters.len()
                    },
                    _ => {
                        return Err(Interruption::Failed(InterpreterError::MalformedTree));
                    },
                };
                if arguments.len() != count {
                    return Err(Interruption::Failed(InterpreterError::WrongArgumentCount));
                }
                let frame = match self.visit_arguments(arguments) {
                    Ok(frame) => frame,
                    Err(stop) => {
                        return Err(stop);
                    },
                };
                self.memory.push_scope(frame);
                match self.load_functions(&declaration) {
                    Ok(()) => {},
                    Err(e) => {
                        return Err(Interruption::Failed(e));
                    },
                }
                match self.visit(&declaration) {
                    Ok(v) => {
                        let _ = self.memory.pop_scope();
                        Ok(v)
                    },
                    Err(stop) => Err(stop),
                }
            },
            Some(Value::BuiltinFunction(builtin)) => {
                if arguments.len() != 1 {
                    return Err(Interruption::Failed(InterpreterError::WrongArgumentCount));
                }
                assert(trees(*arguments)[0] == arguments[0]@);
                match self.visit(&arguments[0]) {
                    Ok(v) => self.settle(
                        Ok(Computed::Request(Request::Call { name: builtin, argument: v })),
                    ),
                    Err(stop) => Err(stop),
                }
            },
            Some(_) => Err(Interruption::Failed(InterpreterError::NotCallable)),
            None => Err(Interruption::Failed(InterpreterError::UnboundVariable)),
        }
    }

    /// Runs the program from the start, with the answers supplied so far.
    ///
    /// The run ends with the value of the program, with the first request
    /// that no answer settles yet, or with a failure.
    pub fn interpret(&mut self) -> (r: Result<Progress, Error>)
        requires
            old(self).wf(),
        ensures
            reported(r) == old(self).result(),
            final(self).wf(),
            final(self).program() == old(self).program(),
            final(self).context() == old(self).context(),
            final(self).limit() == old(self).limit(),
            r matches Ok(Progress::Finished(_)) ==> old(self).program() matches Ok(tree)
                && final(self).state().memory == run(
                old(self).context(),
                tree,
                initial(old(self).limit()),
            ).state.memory,
    {
        match self.failure {
            Some(e) => {
                return Err(e);
            },
            None => {},
        }
        self.memory = Memory::new(Scope::new());
        self.asked = 0;
        self.steps = self.limit;
        let program = self.program.take();
        let tree = program.unwrap();
        let loaded = self.load_functions(&tree);
        let walk = match loaded {
            Ok(()) => self.visit(&tree),
            Err(e) => Err(Interruption::Failed(e)),
        };
        self.program = Some(tree);
        match walk {
            Ok(v) => Ok(Progress::Finished(v)),
            Err(Interruption::Pending(request)) => Ok(Progress::Pending(request)),
            Err(Interruption::Failed(e)) => Err(Error::Interpreter(e)),
        }
    }
}

} // verus!
