//! The grammar of the language, as functions from a token stream and a
//! position to a syntax tree and the number of tokens it took.
//!
//! ```text
//! program              := (NEWLINE | statement)* EOF
//! statement            := compound_statement | simple_statement
//! compound_statement   := if_statement | while_statement | function_declaration
//! if_statement         := IF logical_or COLON block
//!                         (ELSE IF logical_or COLON block)* (ELSE COLON block)?
//! while_statement      := WHILE logical_or COLON block
//! function_declaration := DEF ID '(' (ID (',' ID)*)? ')' COLON block
//! block                := NEWLINE INDENT statement+ (DEDENT NEWLINE? | EOF)
//! simple_statement     := (return_statement | expression_statement)
//!                         (NEWLINE | before DEDENT | EOF)
//! return_statement     := RETURN logical_or
//! expression_statement := logical_or ('=' logical_or)?
//! logical_or           := logical_and ('or' logical_and)*
//! logical_and          := logical_not ('and' logical_not)*
//! logical_not          := 'not' logical_not | comparison
//! comparison           := expr (('==' | '!=' | '<=' | '>=' | '<' | '>') term)*
//! expr                 := term (('+' | '-') term)*
//! term                 := atom (('*' | '/') atom)*
//! atom                 := INT | FLOAT | BOOL | '(' expr ')' | ('+' | '-') atom
//!                       | ID '(' (logical_or (',' logical_or)*)? ')' | ID | EOF
//! ```
//!
//! The right operand of a comparison is a `term`, so no sum can follow a
//! comparison operator: `1 < 2 * 3` compares 1 with 6, and `1 < 2 + 3` is
//! refused. At the end of the stream an atom is the empty node.

use vstd::prelude::*;
use crate::ast::AstView;
use crate::error::{Error, LexicalError, SyntaxError};
use crate::token::TokenView;

verus! {

/// The tokens of a text, and the failure that ended them if there was one.
pub struct Stream {
    pub tokens: Seq<TokenView>,
    pub failure: Option<LexicalError>,
}

/// What a rule read and how many tokens it took.
pub struct Parsed<T> {
    pub value: T,
    pub used: nat,
}

/// The result of a rule that gives a node.
pub type Parse = Result<Parsed<AstView>, Error>;

/// The result of a rule that gives a list of nodes.
pub type ParseList = Result<Parsed<Seq<AstView>>, Error>;

/// The `else if` branches and the `else` block of an `if` statement.
pub struct Branches {
    pub else_ifs: Seq<(AstView, AstView)>,
    pub otherwise: AstView,
}

impl Stream {
    /// The token at position `i`. Behind the last token stands the failure
    /// that ended the stream, or else the end-of-stream token, for ever.
    pub open spec fn at(self, i: nat) -> Result<TokenView, Error> {
        if i < self.tokens.len() {
            Ok(self.tokens[i as int])
        } else {
            match self.failure {
                Some(e) => Err(Error::Lexical(e)),
                None => Ok(TokenView::EOF),
            }
        }
    }

    /// How many tokens taking the one at position `i` uses up: one, or none
    /// at the end of the stream.
    pub open spec fn step(self, i: nat) -> nat {
        if i < self.tokens.len() {
            1
        } else {
            0
        }
    }

    /// How many tokens stand at or behind position `i`.
    pub open spec fn left(self, i: nat) -> nat {
        if i <= self.tokens.len() {
            (self.tokens.len() - i) as nat
        } else {
            0
        }
    }

    /// Takes the token at position `i`, which must be `token`.
    pub open spec fn expect(self, i: nat, token: TokenView, otherwise: SyntaxError) -> Result<
        nat,
        Error,
    > {
        match self.at(i) {
            Ok(found) => if found == token {
                Ok(self.step(i))
            } else {
                Err(Error::Syntax(otherwise))
            },
            Err(e) => Err(e),
        }
    }
}

/// The result `p` of a rule that began `by` tokens behind the start.
pub open spec fn shift<T>(p: Result<Parsed<T>, Error>, by: nat) -> Result<Parsed<T>, Error> {
    match p {
        Ok(parsed) => Ok(Parsed { value: parsed.value, used: by + parsed.used }),
        Err(e) => Err(e),
    }
}

pub open spec fn found(node: AstView, used: nat) -> Parse {
    Ok(Parsed { value: node, used })
}

pub open spec fn binary(left: AstView, op: TokenView, right: AstView) -> AstView {
    AstView::BinaryOperation { left: Box::new(left), op, right: Box::new(right) }
}

/// `program := (NEWLINE | statement)* EOF`, from position `i` on, `acc`
/// being the statements read so far.
#[verifier::opaque]
pub open spec fn program_items(s: Stream, i: nat, acc: Seq<AstView>) -> ParseList
    decreases s.left(i), 30nat,
{
    match s.at(i) {
        Err(e) => Err(e),
        Ok(TokenView::EOF) => Ok(Parsed { value: acc, used: 0 }),
        Ok(TokenView::NEWLINE) => shift(program_items(s, i + 1, acc), 1),
        Ok(_) => match statement(s, i) {
            Err(e) => Err(e),
            Ok(st) => if st.used == 0 {
                Err(Error::Syntax(SyntaxError::MalformedStatement))
            } else {
                shift(program_items(s, i + st.used, acc.push(st.value)), st.used)
            },
        },
    }
}

/// The whole program: one `Program` node over all the statements.
pub open spec fn program(s: Stream, i: nat) -> Parse {
    program_node(program_items(s, i, Seq::empty()))
}

/// The program whose statements are `items`.
pub open spec fn program_node(items: ParseList) -> Parse {
    match items {
        Ok(items) => found(AstView::Program { children: items.value }, items.used),
        Err(e) => Err(e),
    }
}

/// `statement := compound_statement | simple_statement`
#[verifier::opaque]
pub open spec fn statement(s: Stream, i: nat) -> Parse
    decreases s.left(i), 28nat,
{
    match s.at(i) {
        Err(e) => Err(e),
        Ok(TokenView::IF) => compound_statement(s, i),
        Ok(TokenView::WHILE) => compound_statement(s, i),
        Ok(TokenView::DEF) => compound_statement(s, i),
        Ok(_) => simple_statement(s, i),
    }
}

/// `compound_statement := if_statement | while_statement | function_declaration`
#[verifier::opaque]
pub open spec fn compound_statement(s: Stream, i: nat) -> Parse
    decreases s.left(i), 27nat,
{
    match s.at(i) {
        Err(e) => Err(e),
        Ok(TokenView::IF) => if_statement(s, i),
        Ok(TokenView::WHILE) => while_statement(s, i),
        Ok(TokenView::DEF) => function_declaration(s, i),
        Ok(_) => Err(Error::Syntax(SyntaxError::UnexpectedToken)),
    }
}

/// A condition, a colon and a block, from position `i` on.
#[verifier::opaque]
pub open spec fn compound(s: Stream, i: nat) -> Result<Parsed<(AstView, AstView)>, Error>
    decreases s.left(i), 25nat,
{
    match logical_or_expr(s, i) {
        Err(e) => Err(e),
        Ok(condition) => match s.expect(
            i + condition.used,
            TokenView::COLON,
            SyntaxError::UnexpectedToken,
        ) {
            Err(e) => Err(e),
            Ok(colon) => match bloc(s, i + condition.used + colon) {
                Err(e) => Err(e),
                Ok(body) => Ok(
                    Parsed {
                        value: (condition.value, body.value),
                        used: condition.used + colon + body.used,
                    },
                ),
            },
        },
    }
}

/// The `if` statement of the primary branch `first` and the other branches
/// `rest`.
pub open spec fn if_node(first: (AstView, AstView), rest: Result<Parsed<Branches>, Error>) -> Parse {
    match rest {
        Err(e) => Err(e),
        Ok(rest) => found(
            AstView::IfStatement {
                if_compound: (Box::new(first.0), Box::new(first.1)),
                else_if_compounds: rest.value.else_ifs,
                else_compound: Box::new(rest.value.otherwise),
            },
            rest.used,
        ),
    }
}

/// `if_statement := IF logical_or COLON block (ELSE IF logical_or COLON block)*
/// (ELSE COLON block)?`
#[verifier::opaque]
pub open spec fn if_statement(s: Stream, i: nat) -> Parse
    decreases s.left(i), 26nat,
{
    match s.expect(i, TokenView::IF, SyntaxError::UnexpectedToken) {
        Err(e) => Err(e),
        Ok(_) => match compound(s, i + 1) {
            Err(e) => Err(e),
            Ok(first) => if_node(
                first.value,
                shift(else_branches(s, i + 1 + first.used, Seq::empty()), 1 + first.used),
            ),
        },
    }
}

/// `(ELSE IF logical_or COLON block)* (ELSE COLON block)?`, from position
/// `i` on, `acc` being the `else if` branches read so far. Without an
/// `else` block the empty node stands in its place.
#[verifier::opaque]
pub open spec fn else_branches(s: Stream, i: nat, acc: Seq<(AstView, AstView)>) -> Result<
    Parsed<Branches>,
    Error,
>
    decreases s.left(i), 27nat,
{
    match s.at(i) {
        Err(e) => Err(e),
        Ok(TokenView::ELSE) => match s.at(i + 1) {
            Err(e) => Err(e),
            Ok(TokenView::IF) => match compound(s, i + 2) {
                Err(e) => Err(e),
                Ok(branch) => shift(
                    else_branches(s, i + 2 + branch.used, acc.push(branch.value)),
                    2 + branch.used,
                ),
            },
            Ok(_) => match s.expect(i + 1, TokenView::COLON, SyntaxError::UnexpectedToken) {
                Err(e) => Err(e),
                Ok(_) => match bloc(s, i + 2) {
                    Err(e) => Err(e),
                    Ok(body) => Ok(
                        Parsed {
                            value: Branches { else_ifs: acc, otherwise: body.value },
                            used: 2 + body.used,
                        },
                    ),
                },
            },
        },
        Ok(_) => Ok(Parsed { value: Branches { else_ifs: acc, otherwise: AstView::Empty }, used: 0 }),
    }
}

/// `while_statement := WHILE logical_or COLON block`
#[verifier::opaque]
pub open spec fn while_statement(s: Stream, i: nat) -> Parse
    decreases s.left(i), 26nat,
{
    match s.expect(i, TokenView::WHILE, SyntaxError::UnexpectedToken) {
        Err(e) => Err(e),
        Ok(_) => match compound(s, i + 1) {
            Err(e) => Err(e),
            Ok(body) => found(
                AstView::WhileStatement {
                    condition: Box::new(body.value.0),
                    bloc: Box::new(body.value.1),
                },
                1 + body.used,
            ),
        },
    }
}

/// `(ID (',' ID)*)? ')'`: the parameters of a declaration and the closing
/// parenthesis, from position `i` on, `acc` being the parameters read so
/// far.
#[verifier::opaque]
pub open spec fn parameters(s: Stream, i: nat, acc: Seq<AstView>) -> ParseList
    decreases s.left(i),
{
    match s.at(i) {
        Err(e) => Err(e),
        Ok(TokenView::RPAREN) => if acc.len() == 0 {
            Ok(Parsed { value: acc, used: 1 })
        } else {
            Err(Error::Syntax(SyntaxError::UnexpectedToken))
        },
        Ok(TokenView::ID(name)) => {
            let parameter = AstView::Parameter {
                parameter: Box::new(AstView::Variable { id: TokenView::ID(name) }),
            };
            match s.at(i + 1) {
                Err(e) => Err(e),
                Ok(TokenView::COMMA) => shift(parameters(s, i + 2, acc.push(parameter)), 2),
                Ok(TokenView::RPAREN) => Ok(Parsed { value: acc.push(parameter), used: 2 }),
                Ok(_) => Err(Error::Syntax(SyntaxError::UnexpectedToken)),
            }
        },
        Ok(_) => Err(Error::Syntax(SyntaxError::UnexpectedToken)),
    }
}

/// `function_declaration := DEF ID '(' (ID (',' ID)*)? ')' COLON block`
#[verifier::opaque]
pub open spec fn function_declaration(s: Stream, i: nat) -> Parse
    decreases s.left(i), 26nat,
{
    match s.expect(i, TokenView::DEF, SyntaxError::UnexpectedToken) {
        Err(e) => Err(e),
        Ok(_) => match s.at(i + 1) {
            Err(e) => Err(e),
            Ok(TokenView::ID(name)) => match s.expect(
                i + 2,
                TokenView::LPAREN,
                SyntaxError::UnexpectedToken,
            ) {
                Err(e) => Err(e),
                Ok(_) => match parameters(s, i + 3, Seq::empty()) {
                    Err(e) => Err(e),
                    Ok(list) => match s.expect(
                        i + 3 + list.used,
                        TokenView::COLON,
                        SyntaxError::UnexpectedToken,
                    ) {
                        Err(e) => Err(e),
                        Ok(colon) => match bloc(s, i + 3 + list.used + colon) {
                            Err(e) => Err(e),
                            Ok(body) => found(
                                AstView::FunctionDeclaration {
                                    identifier: TokenView::ID(name),
                                    parameters: list.value,
                                    body: Box::new(body.value),
                                },
                                3 + list.used + colon + body.used,
                            ),
                        },
                    },
                },
            },
            Ok(_) => Err(Error::Syntax(SyntaxError::UnexpectedToken)),
        },
    }
}

/// The statements of a block from position `i` on, up to the `DEDENT` or
/// the end of the stream that closes it, `acc` being those read so far.
/// There must be one at least.
#[verifier::opaque]
pub open spec fn bloc_items(s: Stream, i: nat, acc: Seq<AstView>) -> ParseList
    decreases s.left(i), 30nat,
{
    match s.at(i) {
        Err(e) => Err(e),
        Ok(token) => if token is DEDENT || token is EOF {
            if acc.len() == 0 {
                Err(Error::Syntax(SyntaxError::MalformedStatement))
            } else {
                Ok(Parsed { value: acc, used: 0 })
            }
        } else {
            match statement(s, i) {
                Err(e) => Err(e),
                Ok(st) => if st.used == 0 {
                    Err(Error::Syntax(SyntaxError::MalformedStatement))
                } else {
                    shift(bloc_items(s, i + st.used, acc.push(st.value)), st.used)
                },
            }
        },
    }
}

/// How many tokens close a block at position `i`: a `DEDENT` and the
/// `NEWLINE` behind it if there is one, or nothing at the end of the
/// stream.
pub open spec fn bloc_end(s: Stream, i: nat) -> Result<nat, Error> {
    match s.at(i) {
        Err(e) => Err(e),
        Ok(TokenView::DEDENT) => match s.at(i + 1) {
            Err(e) => Err(e),
            Ok(TokenView::NEWLINE) => Ok(2),
            Ok(_) => Ok(1),
        },
        Ok(TokenView::EOF) => Ok(s.step(i)),
        Ok(_) => Err(Error::Syntax(SyntaxError::UnexpectedToken)),
    }
}

/// The block that began at position `i` and whose statements are `items`.
pub open spec fn close_bloc(s: Stream, i: nat, items: ParseList) -> Parse {
    match items {
        Err(e) => Err(e),
        Ok(items) => match bloc_end(s, i + items.used) {
            Err(e) => Err(e),
            Ok(end) => found(AstView::Bloc { children: items.value }, items.used + end),
        },
    }
}

/// `block := NEWLINE INDENT statement+ (DEDENT NEWLINE? | EOF)`
#[verifier::opaque]
pub open spec fn bloc(s: Stream, i: nat) -> Parse
    decreases s.left(i), 31nat,
{
    match s.expect(i, TokenView::NEWLINE, SyntaxError::UnexpectedToken) {
        Err(e) => Err(e),
        Ok(newline) => match s.expect(i + newline, TokenView::INDENT, SyntaxError::UnexpectedToken) {
            Err(e) => Err(e),
            Ok(indent) => close_bloc(
                s,
                i,
                shift(bloc_items(s, i + newline + indent, Seq::empty()), newline + indent),
            ),
        },
    }
}

/// How many tokens end a simple statement at position `i`: a `NEWLINE`, or
/// nothing before a `DEDENT` and at the end of the stream.
pub open spec fn statement_end(s: Stream, i: nat) -> Result<nat, Error> {
    match s.at(i) {
        Err(e) => Err(e),
        Ok(TokenView::EOF) => Ok(0),
        Ok(TokenView::DEDENT) => Ok(0),
        Ok(TokenView::NEWLINE) => Ok(1),
        Ok(_) => Err(Error::Syntax(SyntaxError::UnexpectedToken)),
    }
}

/// `simple_statement := (return_statement | expression_statement)
/// (NEWLINE | before DEDENT | EOF)`
#[verifier::opaque]
pub open spec fn simple_statement(s: Stream, i: nat) -> Parse
    decreases s.left(i), 27nat,
{
    let node = match s.at(i) {
        Err(e) => Err(e),
        Ok(TokenView::RETURN) => return_statement(s, i),
        Ok(_) => expression_statement(s, i),
    };
    match node {
        Err(e) => Err(e),
        Ok(st) => match statement_end(s, i + st.used) {
            Err(e) => Err(e),
            Ok(end) => found(st.value, st.used + end),
        },
    }
}

/// `return_statement := RETURN logical_or`
#[verifier::opaque]
pub open spec fn return_statement(s: Stream, i: nat) -> Parse
    decreases s.left(i), 26nat,
{
    match s.expect(i, TokenView::RETURN, SyntaxError::UnexpectedToken) {
        Err(e) => Err(e),
        Ok(_) => match logical_or_expr(s, i + 1) {
            Err(e) => Err(e),
            Ok(value) => found(
                AstView::ReturnStatement { expression: Box::new(value.value) },
                1 + value.used,
            ),
        },
    }
}

/// `expression_statement := logical_or ('=' logical_or)?`
#[verifier::opaque]
pub open spec fn expression_statement(s: Stream, i: nat) -> Parse
    decreases s.left(i), 26nat,
{
    match logical_or_expr(s, i) {
        Err(e) => Err(e),
        Ok(left) => match s.at(i + left.used) {
            Err(e) => Err(e),
            Ok(TokenView::ASSIGN) => match logical_or_expr(s, i + left.used + 1) {
                Err(e) => Err(e),
                Ok(right) => found(
                    AstView::Assignment {
                        left: Box::new(left.value),
                        right: Box::new(right.value),
                    },
                    left.used + 1 + right.used,
                ),
            },
            Ok(_) => Ok(left),
        },
    }
}

/// `logical_or := logical_and ('or' logical_and)*`
#[verifier::opaque]
pub open spec fn logical_or_expr(s: Stream, i: nat) -> Parse
    decreases s.left(i), 24nat,
{
    match logical_and_expr(s, i) {
        Err(e) => Err(e),
        Ok(first) => shift(logical_or_rest(s, i + first.used, first.value), first.used),
    }
}

/// `('or' logical_and)*` behind the operand `left`.
#[verifier::opaque]
pub open spec fn logical_or_rest(s: Stream, i: nat, left: AstView) -> Parse
    decreases s.left(i), 23nat,
{
    match s.at(i) {
        Err(e) => Err(e),
        Ok(TokenView::OR) => match logical_and_expr(s, i + 1) {
            Err(e) => Err(e),
            Ok(right) => shift(
                logical_or_rest(s, i + 1 + right.used, binary(left, TokenView::OR, right.value)),
                1 + right.used,
            ),
        },
        Ok(_) => found(left, 0),
    }
}

/// `logical_and := logical_not ('and' logical_not)*`
#[verifier::opaque]
pub open spec fn logical_and_expr(s: Stream, i: nat) -> Parse
    decreases s.left(i), 22nat,
{
    match logical_not_expr(s, i) {
        Err(e) => Err(e),
        Ok(first) => shift(logical_and_rest(s, i + first.used, first.value), first.used),
    }
}

/// `('and' logical_not)*` behind the operand `left`.
#[verifier::opaque]
pub open spec fn logical_and_rest(s: Stream, i: nat, left: AstView) -> Parse
    decreases s.left(i), 21nat,
{
    match s.at(i) {
        Err(e) => Err(e),
        Ok(TokenView::AND) => match logical_not_expr(s, i + 1) {
            Err(e) => Err(e),
            Ok(right) => shift(
                logical_and_rest(s, i + 1 + right.used, binary(left, TokenView::AND, right.value)),
                1 + right.used,
            ),
        },
        Ok(_) => found(left, 0),
    }
}

/// `logical_not := 'not' logical_not | comparison`
#[verifier::opaque]
pub open spec fn logical_not_expr(s: Stream, i: nat) -> Parse
    decreases s.left(i), 20nat,
{
    match s.at(i) {
        Err(e) => Err(e),
        Ok(TokenView::NOT) => match logical_not_expr(s, i + 1) {
            Err(e) => Err(e),
            Ok(right) => found(
                AstView::UnaryOperation { op: TokenView::NOT, right: Box::new(right.value) },
                1 + right.used,
            ),
        },
        Ok(_) => comparison(s, i),
    }
}

/// The six comparison operators.
pub open spec fn is_comparison(token: TokenView) -> bool {
    token is EQ || token is NE || token is LE || token is GE || token is LT || token is GT
}

/// `comparison := expr (('==' | '!=' | '<=' | '>=' | '<' | '>') term)*`
#[verifier::opaque]
pub open spec fn comparison(s: Stream, i: nat) -> Parse
    decreases s.left(i), 19nat,
{
    match expr(s, i) {
        Err(e) => Err(e),
        Ok(first) => shift(comparison_rest(s, i + first.used, first.value), first.used),
    }
}

/// The comparison operators and their right operands behind `left`.
#[verifier::opaque]
pub open spec fn comparison_rest(s: Stream, i: nat, left: AstView) -> Parse
    decreases s.left(i), 18nat,
{
    match s.at(i) {
        Err(e) => Err(e),
        Ok(op) => if is_comparison(op) {
            match term(s, i + 1) {
                Err(e) => Err(e),
                Ok(right) => shift(
                    comparison_rest(s, i + 1 + right.used, binary(left, op, right.value)),
                    1 + right.used,
                ),
            }
        } else {
            found(left, 0)
        },
    }
}

/// `expr := term (('+' | '-') term)*`
#[verifier::opaque]
pub open spec fn expr(s: Stream, i: nat) -> Parse
    decreases s.left(i), 17nat,
{
    match term(s, i) {
        Err(e) => Err(e),
        Ok(first) => shift(expr_rest(s, i + first.used, first.value), first.used),
    }
}

/// `(('+' | '-') term)*` behind the operand `left`.
#[verifier::opaque]
pub open spec fn expr_rest(s: Stream, i: nat, left: AstView) -> Parse
    decreases s.left(i), 16nat,
{
    match s.at(i) {
        Err(e) => Err(e),
        Ok(op) => if op is PLUS || op is MINUS {
            match term(s, i + 1) {
                Err(e) => Err(e),
                Ok(right) => shift(
                    expr_rest(s, i + 1 + right.used, binary(left, op, right.value)),
                    1 + right.used,
                ),
            }
        } else {
            found(left, 0)
        },
    }
}

/// `term := atom (('*' | '/') atom)*`
#[verifier::opaque]
pub open spec fn term(s: Stream, i: nat) -> Parse
    decreases s.left(i), 15nat,
{
    match atom(s, i) {
        Err(e) => Err(e),
        Ok(first) => shift(term_rest(s, i + first.used, first.value), first.used),
    }
}

/// `(('*' | '/') atom)*` behind the operand `left`.
#[verifier::opaque]
pub open spec fn term_rest(s: Stream, i: nat, left: AstView) -> Parse
    decreases s.left(i), 14nat,
{
    match s.at(i) {
        Err(e) => Err(e),
        Ok(op) => if op is MUL || op is DIV {
            match atom(s, i + 1) {
                Err(e) => Err(e),
                Ok(right) => shift(
                    term_rest(s, i + 1 + right.used, binary(left, op, right.value)),
                    1 + right.used,
                ),
            }
        } else {
            found(left, 0)
        },
    }
}

/// `(logical_or (',' logical_or)*)? ')'`: the arguments of a call and the
/// closing parenthesis, from position `i` on, `acc` being the arguments
/// read so far.
#[verifier::opaque]
pub open spec fn arguments(s: Stream, i: nat, acc: Seq<AstView>) -> ParseList
    decreases s.left(i), 32nat,
{
    match s.at(i) {
        Err(e) => Err(e),
        Ok(first) => if first is RPAREN && acc.len() == 0 {
            Ok(Parsed { value: acc, used: 1 })
        } else {
            match logical_or_expr(s, i) {
                Err(e) => Err(e),
                Ok(argument) => match s.at(i + argument.used) {
                    Err(e) => Err(e),
                    Ok(TokenView::COMMA) => shift(
                        arguments(s, i + argument.used + 1, acc.push(argument.value)),
                        argument.used + 1,
                    ),
                    Ok(TokenView::RPAREN) => Ok(
                        Parsed { value: acc.push(argument.value), used: argument.used + 1 },
                    ),
                    Ok(_) => Err(Error::Syntax(SyntaxError::UnexpectedToken)),
                },
            }
        },
    }
}

/// `atom := INT | FLOAT | BOOL | '(' expr ')' | ('+' | '-') atom
/// | ID '(' arguments ')' | ID | EOF`
#[verifier::opaque]
pub open spec fn atom(s: Stream, i: nat) -> Parse
    decreases s.left(i), 13nat,
{
    match s.at(i) {
        Err(e) => Err(e),
        Ok(token) => match token {
            TokenView::INT(_) => found(AstView::IntNumber { token }, 1),
            TokenView::FLOAT(_) => found(AstView::FloatNumber { token }, 1),
            TokenView::BOOL(_) => found(AstView::Boolean { token }, 1),
            TokenView::LPAREN => match expr(s, i + 1) {
                Err(e) => Err(e),
                Ok(inner) => match s.expect(
                    i + 1 + inner.used,
                    TokenView::RPAREN,
                    SyntaxError::UnmatchedParenthesis,
                ) {
                    Err(e) => Err(e),
                    Ok(close) => found(inner.value, 1 + inner.used + close),
                },
            },
            TokenView::PLUS => match atom(s, i + 1) {
                Err(e) => Err(e),
                Ok(right) => found(
                    AstView::UnaryOperation { op: token, right: Box::new(right.value) },
                    1 + right.used,
                ),
            },
            TokenView::MINUS => match atom(s, i + 1) {
                Err(e) => Err(e),
                Ok(right) => found(
                    AstView::UnaryOperation { op: token, right: Box::new(right.value) },
                    1 + right.used,
                ),
            },
            TokenView::ID(_) => match s.at(i + 1) {
                Err(e) => Err(e),
                Ok(TokenView::LPAREN) => match arguments(s, i + 2, Seq::empty()) {
                    Err(e) => Err(e),
                    Ok(list) => found(
                        AstView::FunctionCall { identifier: token, arguments: list.value },
                        2 + list.used,
                    ),
                },
                Ok(_) => found(AstView::Variable { id: token }, 1),
            },
            TokenView::EOF => found(AstView::Empty, s.step(i)),
            _ => Err(Error::Syntax(SyntaxError::MalformedStatement)),
        },
    }
}

} // verus!
