//! The syntax tree that the parser builds and the evaluator walks.

use vstd::prelude::*;
use crate::token::{Token, TokenView};

verus! {

/// A node of the syntax tree. Every node owns its children.
#[derive(Debug, PartialEq)]
pub enum AST {
    Program { children: Vec<Box<AST>> },
    Bloc { children: Vec<Box<AST>> },
    IfStatement {
        if_compound: (Box<AST>, Box<AST>),
        else_if_compounds: Vec<(Box<AST>, Box<AST>)>,
        else_compound: Box<AST>,
    },
    WhileStatement { condition: Box<AST>, bloc: Box<AST> },
    FunctionDeclaration { identifier: Token, parameters: Vec<AST>, body: Box<AST> },
    Parameter { parameter: Box<AST> },
    ReturnStatement { expression: Box<AST> },
    Assignment { left: Box<AST>, right: Box<AST> },
    BinaryOperation { left: Box<AST>, op: Token, right: Box<AST> },
    UnaryOperation { op: Token, right: Box<AST> },
    IntNumber { token: Token },
    FloatNumber { token: Token },
    Boolean { token: Token },
    FunctionCall { identifier: Token, arguments: Vec<AST> },
    Variable { id: Token },
    Empty,
}

/// A syntax tree as contracts see it: the same shapes, with sequences for
/// lists and token views for tokens.
pub enum AstView {
    Program { children: Seq<AstView> },
    Bloc { children: Seq<AstView> },
    IfStatement {
        if_compound: (Box<AstView>, Box<AstView>),
        else_if_compounds: Seq<(AstView, AstView)>,
        else_compound: Box<AstView>,
    },
    WhileStatement { condition: Box<AstView>, bloc: Box<AstView> },
    FunctionDeclaration { identifier: TokenView, parameters: Seq<AstView>, body: Box<AstView> },
    Parameter { parameter: Box<AstView> },
    ReturnStatement { expression: Box<AstView> },
    Assignment { left: Box<AstView>, right: Box<AstView> },
    BinaryOperation { left: Box<AstView>, op: TokenView, right: Box<AstView> },
    UnaryOperation { op: TokenView, right: Box<AstView> },
    IntNumber { token: TokenView },
    FloatNumber { token: TokenView },
    Boolean { token: TokenView },
    FunctionCall { identifier: TokenView, arguments: Seq<AstView> },
    Variable { id: TokenView },
    Empty,
}

/// The views of a list of boxed nodes, in order.
pub open spec fn boxed_trees(nodes: Vec<Box<AST>>) -> Seq<AstView>
    decreases nodes,
{
    Seq::new(
        nodes@.len(),
        |i: int|
            if 0 <= i < nodes@.len() {
                tree_of(*nodes@[i])
            } else {
                AstView::Empty
            },
    )
}

/// The views of a list of nodes, in order.
pub open spec fn trees(nodes: Vec<AST>) -> Seq<AstView>
    decreases nodes,
{
    Seq::new(
        nodes@.len(),
        |i: int|
            if 0 <= i < nodes@.len() {
                tree_of(nodes@[i])
            } else {
                AstView::Empty
            },
    )
}

/// The views of a list of condition and block pairs, in order.
pub open spec fn compound_trees(pairs: Vec<(Box<AST>, Box<AST>)>) -> Seq<(AstView, AstView)>
    decreases pairs,
{
    Seq::new(
        pairs@.len(),
        |i: int|
            if 0 <= i < pairs@.len() {
                (tree_of(*pairs@[i].0), tree_of(*pairs@[i].1))
            } else {
                (AstView::Empty, AstView::Empty)
            },
    )
}

/// The view of a node.
pub open spec fn tree_of(node: AST) -> AstView
    decreases node,
{
    match node {
        AST::Program { children } => AstView::Program { children: boxed_trees(children) },
        AST::Bloc { children } => AstView::Bloc { children: boxed_trees(children) },
        AST::IfStatement { if_compound, else_if_compounds, else_compound } => AstView::IfStatement {
            if_compound: (Box::new(tree_of(*if_compound.0)), Box::new(tree_of(*if_compound.1))),
            else_if_compounds: compound_trees(else_if_compounds),
            else_compound: Box::new(tree_of(*else_compound)),
        },
        AST::WhileStatement { condition, bloc } => AstView::WhileStatement {
            condition: Box::new(tree_of(*condition)),
            bloc: Box::new(tree_of(*bloc)),
        },
        AST::FunctionDeclaration { identifier, parameters, body } => AstView::FunctionDeclaration {
            identifier: identifier@,
            parameters: trees(parameters),
            body: Box::new(tree_of(*body)),
        },
        AST::Parameter { parameter } => AstView::Parameter { parameter: Box::new(tree_of(*parameter)) },
        AST::ReturnStatement { expression } => AstView::ReturnStatement {
            expression: Box::new(tree_of(*expression)),
        },
        AST::Assignment { left, right } => AstView::Assignment {
            left: Box::new(tree_of(*left)),
            right: Box::new(tree_of(*right)),
        },
        AST::BinaryOperation { left, op, right } => AstView::BinaryOperation {
            left: Box::new(tree_of(*left)),
            op: op@,
            right: Box::new(tree_of(*right)),
        },
        AST::UnaryOperation { op, right } => AstView::UnaryOperation {
            op: op@,
            right: Box::new(tree_of(*right)),
        },
        AST::IntNumber { token } => AstView::IntNumber { token: token@ },
        AST::FloatNumber { token } => AstView::FloatNumber { token: token@ },
        AST::Boolean { token } => AstView::Boolean { token: token@ },
        AST::FunctionCall { identifier, arguments } => AstView::FunctionCall {
            identifier: identifier@,
            arguments: trees(arguments),
        },
        AST::Variable { id } => AstView::Variable { id: id@ },
        AST::Empty => AstView::Empty,
    }
}

impl View for AST {
    type V = AstView;

    open spec fn view(&self) -> AstView {
        tree_of(*self)
    }
}

impl AST {
    fn clone_boxed(&self, nodes: &Vec<Box<AST>>) -> (r: Vec<Box<AST>>)
        requires
            forall|i: int| 0 <= i < nodes@.len() ==> decreases_to!(self => nodes@[i]),
        ensures
            boxed_trees(r) == boxed_trees(*nodes),
        decreases self, 0nat,
    {
        let mut copy: Vec<Box<AST>> = Vec::new();
        let mut i: usize = 0;
        while i < nodes.len()
            invariant
                forall|i: int| 0 <= i < nodes@.len() ==> decreases_to!(self => nodes@[i]),
                i <= nodes.len(),
                copy.len() == i,
                forall|j: int| 0 <= j < i ==> tree_of(*copy@[j]) == tree_of(*nodes@[j]),
            decreases nodes.len() - i,
        {
            let c: AST = (&*nodes[i]).clone();
            copy.push(Box::new(c));
            i += 1;
        }
        proof {
            assert(boxed_trees(copy) =~= boxed_trees(*nodes));
        }
        copy
    }

    fn clone_list(&self, nodes: &Vec<AST>) -> (r: Vec<AST>)
        requires
            forall|i: int| 0 <= i < nodes@.len() ==> decreases_to!(self => nodes@[i]),
        ensures
            trees(r) == trees(*nodes),
        decreases self, 0nat,
    {
        let mut copy: Vec<AST> = Vec::new();
        let mut i: usize = 0;
        while i < nodes.len()
            invariant
                forall|i: int| 0 <= i < nodes@.len() ==> decreases_to!(self => nodes@[i]),
                i <= nodes.len(),
                copy.len() == i,
                forall|j: int| 0 <= j < i ==> tree_of(copy@[j]) == tree_of(nodes@[j]),
            decreases nodes.len() - i,
        {
            let c: AST = nodes[i].clone();
            copy.push(c);
            i += 1;
        }
        proof {
            assert(trees(copy) =~= trees(*nodes));
        }
        copy
    }
}

impl Clone for AST {
    /// A deep copy: a tree with the same view.
    fn clone(&self) -> (r: Self)
        ensures
            r@ == self@,
        decreases self, 1nat,
    {
        match self {
            AST::Program { children } => AST::Program { children: self.clone_boxed(children) },
            AST::Bloc { children } => AST::Bloc { children: self.clone_boxed(children) },
            AST::IfStatement { if_compound, else_if_compounds, else_compound } => {
                let condition: AST = (&*if_compound.0).clone();
                let bloc: AST = (&*if_compound.1).clone();
                let mut copy: Vec<(Box<AST>, Box<AST>)> = Vec::new();
                let mut i: usize = 0;
                while i < else_if_compounds.len()
                    invariant
                        self is IfStatement,
                        self->else_if_compounds == *else_if_compounds,
                        i <= else_if_compounds.len(),
                        copy.len() == i,
                        forall|j: int|
                            0 <= j < i ==> tree_of(*copy@[j].0) == tree_of(*else_if_compounds@[j].0)
                                && tree_of(*copy@[j].1) == tree_of(*else_if_compounds@[j].1),
                    decreases else_if_compounds.len() - i,
                {
                    let c: AST = (&*else_if_compounds[i].0).clone();
                    let b: AST = (&*else_if_compounds[i].1).clone();
                    copy.push((Box::new(c), Box::new(b)));
                    i += 1;
                }
                proof {
                    assert(compound_trees(copy) =~= compound_trees(*else_if_compounds));
                }
                let otherwise: AST = (&**else_compound).clone();
                AST::IfStatement {
                    if_compound: (Box::new(condition), Box::new(bloc)),
                    else_if_compounds: copy,
                    else_compound: Box::new(otherwise),
                }
            },
            AST::WhileStatement { condition, bloc } => {
                let c: AST = (&**condition).clone();
                let b: AST = (&**bloc).clone();
                AST::WhileStatement { condition: Box::new(c), bloc: Box::new(b) }
            },
            AST::FunctionDeclaration { identifier, parameters, body } => {
                let b: AST = (&**body).clone();
                AST::FunctionDeclaration {
                    identifier: identifier.clone(),
                    parameters: self.clone_list(parameters),
                    body: Box::new(b),
                }
            },
            AST::Parameter { parameter } => {
                let p: AST = (&**parameter).clone();
                AST::Parameter { parameter: Box::new(p) }
            },
            AST::ReturnStatement { expression } => {
                let e: AST = (&**expression).clone();
                AST::ReturnStatement { expression: Box::new(e) }
            },
            AST::Assignment { left, right } => {
                let l: AST = (&**left).clone();
                let r: AST = (&**right).clone();
                AST::Assignment { left: Box::new(l), right: Box::new(r) }
            },
            AST::BinaryOperation { left, op, right } => {
                let l: AST = (&**left).clone();
                let r: AST = (&**right).clone();
                AST::BinaryOperation { left: Box::new(l), op: op.clone(), right: Box::new(r) }
            },
            AST::UnaryOperation { op, right } => {
                let r: AST = (&**right).clone();
                AST::UnaryOperation { op: op.clone(), right: Box::new(r) }
            },
            AST::IntNumber { token } => AST::IntNumber { token: token.clone() },
            AST::FloatNumber { token } => AST::FloatNumber { token: token.clone() },
            AST::Boolean { token } => AST::Boolean { token: token.clone() },
            AST::FunctionCall { identifier, arguments } => AST::FunctionCall {
                identifier: identifier.clone(),
                arguments: self.clone_list(arguments),
            },
            AST::Variable { id } => AST::Variable { id: id.clone() },
            AST::Empty => AST::Empty,
        }
    }
}

} // verus!
