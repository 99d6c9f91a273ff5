//! The parser: recursive descent over the tokens of one text, with one
//! token of lookahead.

use vstd::prelude::*;
use crate::ast::{AST, AstView, boxed_trees, compound_trees, trees};
use crate::error::{Error, LexicalError, SyntaxError};
use crate::grammar::{
    Parse, ParseList, Stream, arguments, atom, bloc, bloc_items, close_bloc, comparison,
    comparison_rest, compound, compound_statement, else_branches, expr, expr_rest,
    expression_statement, function_declaration, if_node, if_statement, logical_and_expr,
    logical_and_rest, logical_not_expr, logical_or_expr, logical_or_rest, parameters, program,
    program_items, return_statement, shift, simple_statement, statement, term,
    term_rest, while_statement,
};
use crate::lexer::{Lexer, Scanned, scan_from, token_views};
use crate::token::{Token, TokenView};

verus! {

/// The stream that the parser reads when the lexer gave `scanned`.
pub open spec fn stream_of(scanned: Scanned) -> Stream {
    Stream { tokens: scanned.tokens, failure: scanned.failure }
}

/// A parser over the tokens of one text.
pub struct Parser {
    tokens: Vec<Token>,
    failure: Option<LexicalError>,
    position: usize,
    end: Token,
}

impl Parser {
    /// The tokens of the text and the failure that ended them, if any.
    pub closed spec fn stream(&self) -> Stream {
        Stream { tokens: token_views(self.tokens@), failure: self.failure }
    }

    /// How many tokens have been read.
    pub closed spec fn position(&self) -> nat {
        self.position as nat
    }

    /// How many tokens are left to read.
    pub closed spec fn remaining(&self) -> nat {
        (self.tokens.len() - self.position) as nat
    }

    /// The position lies within the stream.
    pub closed spec fn wf(&self) -> bool {
        &&& self.position <= self.tokens.len()
        &&& self.end@ == TokenView::EOF
    }

    /// How the parser stands after a rule that the grammar describes as
    /// `p`, having started as `before`.
    pub open spec fn parsed(&self, before: &Parser, r: Result<AST, Error>, p: Parse) -> bool {
        &&& self.wf()
        &&& self.stream() == before.stream()
        &&& self.position() >= before.position()
        &&& match p {
            Ok(parsed) => r matches Ok(node) && node@ == parsed.value && self.position()
                == before.position() + parsed.used,
            Err(e) => r == Err::<AST, Error>(e),
        }
    }

    spec fn listed(&self, before: &Parser, r: Result<Vec<AST>, Error>, p: ParseList) -> bool {
        &&& self.wf()
        &&& self.stream() == before.stream()
        &&& self.position() >= before.position()
        &&& match p {
            Ok(parsed) => r matches Ok(nodes) && trees(nodes) == parsed.value && self.position()
                == before.position() + parsed.used,
            Err(e) => r == Err::<Vec<AST>, Error>(e),
        }
    }

    /// A parser at the start of all the tokens that `lexer` still has to
    /// give. Where the lexer fails, the tokens before the failure are kept,
    /// and the failure is reported when parsing reaches their end.
    pub fn new(lexer: Lexer) -> (r: Parser)
        requires
            lexer.wf(),
        ensures
            r.wf(),
            r.position() == 0,
            r.stream() == stream_of(scan_from(lexer.graphemes(), lexer.position(), lexer.level())),
    {
        let mut lexer = lexer;
        let (tokens, failure) = lexer.drain();
        Parser { tokens, failure, position: 0, end: Token::EOF }
    }

    /// A parser at the start of `tokens`.
    pub fn from_tokens(tokens: Vec<Token>) -> (r: Parser)
        ensures
            r.wf(),
            r.position() == 0,
            r.stream() == (Stream { tokens: token_views(tokens@), failure: None }),
    {
        Parser { tokens, failure: None, position: 0, end: Token::EOF }
    }

    /// The next token, which stays.
    fn peek(&self) -> (r: Result<&Token, Error>)
        requires
            self.wf(),
        ensures
            match self.stream().at(self.position()) {
                Ok(token) => r matches Ok(found) && found@ == token,
                Err(e) => r == Err::<&Token, Error>(e),
            },
    {
        if self.position < self.tokens.len() {
            Ok(&self.tokens[self.position])
        } else {
            match self.failure {
                Some(e) => Err(Error::Lexical(e)),
                None => Ok(&self.end),
            }
        }
    }

    /// Tells whether the next token is `token`.
    fn looking_at(&self, token: &Token) -> (r: Result<bool, Error>)
        requires
            self.wf(),
        ensures
            match self.stream().at(self.position()) {
                Ok(found) => r == Ok::<bool, Error>(found == token@),
                Err(e) => r == Err::<bool, Error>(e),
            },
    {
        match self.peek() {
            Ok(found) => Ok(found.same(token)),
            Err(e) => Err(e),
        }
    }

    /// Takes the next token. With a `verification`, the token must be that
    /// one.
    fn process(&mut self, verification: Option<Token>) -> (r: Result<Token, Error>)
        requires
            old(self).wf(),
        ensures
            final(self).wf(),
            final(self).stream() == old(self).stream(),
            final(self).position() >= old(self).position(),
            match old(self).stream().at(old(self).position()) {
                Ok(token) => if verification matches Some(expected) && expected@ != token {
                    r == Err::<Token, Error>(Error::Syntax(SyntaxError::UnexpectedToken))
                } else {
                    r matches Ok(taken) && taken@ == token && final(self).position() == old(
                        self).position() + old(self).stream().step(old(self).position())
                },
                Err(e) => r == Err::<Token, Error>(e),
            },
    {
        let next = match self.peek() {
            Ok(token) => token.clone(),
            Err(e) => {
                return Err(e);
            },
        };
        match verification {
            Some(expected) => {
                if !next.same(&expected) {
                    return Err(Error::Syntax(SyntaxError::UnexpectedToken));
                }
            },
            None => {},
        }
        if self.position < self.tokens.len() {
            self.position = self.position + 1;
        }
        Ok(next)
    }

    /// Takes the next token, which must be `token`; `otherwise` is the
    /// failure if it is another.
    fn take(&mut self, token: Token, otherwise: SyntaxError) -> (r: Result<(), Error>)
        requires
            old(self).wf(),
        ensures
            final(self).wf(),
            final(self).stream() == old(self).stream(),
            final(self).position() >= old(self).position(),
            match old(self).stream().expect(old(self).position(), token@, otherwise) {
                Ok(used) => r is Ok && final(self).position() == old(self).position() + used,
                Err(e) => r == Err::<(), Error>(e),
            },
    {
        match self.process(Some(token)) {
            Ok(_) => Ok(()),
            Err(Error::Syntax(_)) => Err(Error::Syntax(otherwise)),
            Err(e) => Err(e),
        }
    }

    fn binary(left: AST, op: Token, right: AST) -> (r: AST)
        ensures
            r@ == crate::grammar::binary(left@, op@, right@),
    {
        AST::BinaryOperation { left: Box::new(left), op, right: Box::new(right) }
    }

    /// program: (NEWLINE | statement)* EOF
    #[verifier::spinoff_prover]
    fn program(&mut self) -> (r: Result<AST, Error>)
        requires
            old(self).wf(),
        ensures
            final(self).parsed(old(self), r, program(old(self).stream(), old(self).position())),
    {
        let ghost s = self.stream();
        let ghost start = self.position();
        let mut children: Vec<Box<AST>> = Vec::new();
        proof {
            assert(boxed_trees(children) =~= Seq::<AstView>::empty());
        }
        loop
            invariant
                self.wf(),
                self.stream() == s,
                s == old(self).stream(),
                start == old(self).position(),
                start <= self.position(),
                program_items(s, start, Seq::empty()) == shift(
                    program_items(s, self.position(), boxed_trees(children)),
                    (self.position() - start) as nat,
                ),
            decreases self.remaining(),
        {
            proof {
                reveal_with_fuel(program_items, 1);
                reveal_with_fuel(statement, 1);
            }
            let kind: u8 = match self.peek() {
                Ok(Token::EOF) => 0,
                Ok(Token::NEWLINE) => 1,
                Ok(_) => 2,
                Err(e) => {
                    return Err(e);
                },
            };
            if kind == 0 {
                return Ok(AST::Program { children });
            }
            if kind == 1 {
                match self.process(None) {
                    Ok(_) => {},
                    Err(e) => {
                        return Err(e);
                    },
                }
            } else {
                let here = self.position;
                let node = match self.statement() {
                    Ok(node) => node,
                    Err(e) => {
                        return Err(e);
                    },
                };
                if self.position == here {
                    return Err(Error::Syntax(SyntaxError::MalformedStatement));
                }
                let ghost before = boxed_trees(children);
                let ghost added = node@;
                children.push(Box::new(node));
                proof {
                    assert(boxed_trees(children) =~= before.push(added));
                }
            }
        }
    }

    /// statement: compound_statement | simple_statement
    #[verifier::spinoff_prover]
    fn statement(&mut self) -> (r: Result<AST, Error>)
        requires
            old(self).wf(),
        ensures
            final(self).parsed(old(self), r, statement(old(self).stream(), old(self).position())),
        decreases old(self).remaining(), 28nat,
    {
        proof {
            reveal_with_fuel(statement, 1);
            reveal_with_fuel(compound_statement, 1);
            reveal_with_fuel(simple_statement, 1);
        }
        let compound = match self.peek() {
            Ok(Token::IF) => true,
            Ok(Token::WHILE) => true,
            Ok(Token::DEF) => true,
            Ok(_) => false,
            Err(e) => {
                return Err(e);
            },
        };
        if compound {
            self.compound_statement()
        } else {
            self.simple_statement()
        }
    }

    /// compound_statement: if_statement | while_statement | function_declaration
    #[verifier::spinoff_prover]
    fn compound_statement(&mut self) -> (r: Result<AST, Error>)
        requires
            old(self).wf(),
        ensures
            final(self).parsed(
                old(self),
                r,
                compound_statement(old(self).stream(), old(self).position()),
            ),
        decreases old(self).remaining(), 27nat,
    {
        proof {
            reveal_with_fuel(compound_statement, 1);
            reveal_with_fuel(if_statement, 1);
            reveal_with_fuel(while_statement, 1);
            reveal_with_fuel(function_declaration, 1);
        }
        let kind: u8 = match self.peek() {
            Ok(Token::IF) => 0,
            Ok(Token::WHILE) => 1,
            Ok(Token::DEF) => 2,
            Ok(_) => 3,
            Err(e) => {
                return Err(e);
            },
        };
        if kind == 0 {
            self.if_statement()
        } else if kind == 1 {
            self.while_statement()
        } else if kind == 2 {
            self.function_declaration()
        } else {
            Err(Error::Syntax(SyntaxError::UnexpectedToken))
        }
    }

    /// A condition, a colon and a block.
    #[verifier::spinoff_prover]
    fn compound(&mut self) -> (r: Result<(AST, AST), Error>)
        requires
            old(self).wf(),
        ensures
            final(self).wf(),
            final(self).stream() == old(self).stream(),
            final(self).position() >= old(self).position(),
            match compound(old(self).stream(), old(self).position()) {
                Ok(parsed) => r matches Ok(pair) && (pair.0@, pair.1@) == parsed.value && final(
                    self).position() == old(self).position() + parsed.used,
                Err(e) => r == Err::<(AST, AST), Error>(e),
            },
        decreases old(self).remaining(), 25nat,
    {
        proof {
            reveal_with_fuel(compound, 1);
            reveal_with_fuel(logical_or_expr, 1);
            reveal_with_fuel(bloc, 1);
        }
        let condition = match self.logical_or_expr() {
            Ok(node) => node,
            Err(e) => {
                return Err(e);
            },
        };
        match self.take(Token::COLON, SyntaxError::UnexpectedToken) {
            Ok(()) => {},
            Err(e) => {
                return Err(e);
            },
        }
        match self.bloc() {
            Ok(body) => Ok((condition, body)),
            Err(e) => Err(e),
        }
    }

    /// if_statement: 'if' logical_or_expr ':' bloc
    /// ('else' 'if' logical_or_expr ':' bloc)* ['else' ':' bloc]
    #[verifier::spinoff_prover]
    fn if_statement(&mut self) -> (r: Result<AST, Error>)
        requires
            old(self).wf(),
        ensures
            final(self).parsed(old(self), r, if_statement(old(self).stream(), old(self).position())),
        decreases old(self).remaining(), 26nat,
    {
        proof {
            reveal_with_fuel(if_statement, 1);
            reveal_with_fuel(compound, 1);
            reveal_with_fuel(else_branches, 1);
            reveal_with_fuel(bloc, 1);
        }
        let ghost s = self.stream();
        let ghost start = self.position();
        match self.take(Token::IF, SyntaxError::UnexpectedToken) {
            Ok(()) => {},
            Err(e) => {
                return Err(e);
            },
        }
        let (if_condition, if_bloc) = match self.compound() {
            Ok(pair) => pair,
            Err(e) => {
                return Err(e);
            },
        };
        let mut else_if_compounds: Vec<(Box<AST>, Box<AST>)> = Vec::new();
        proof {
            assert(compound_trees(else_if_compounds) =~= Seq::<(AstView, AstView)>::empty());
        }
        loop
            invariant
                self.wf(),
                self.stream() == s,
                s == old(self).stream(),
                start == old(self).position(),
                start < self.position(),
                if_statement(s, start) == if_node(
                    (if_condition@, if_bloc@),
                    shift(
                        else_branches(s, self.position(), compound_trees(else_if_compounds)),
                        (self.position() - start) as nat,
                    ),
                ),
            decreases self.remaining(),
        {
            proof {
                reveal_with_fuel(if_statement, 1);
                reveal_with_fuel(compound, 1);
                reveal_with_fuel(else_branches, 1);
                reveal_with_fuel(bloc, 1);
            }
            let at_else = match self.looking_at(&Token::ELSE) {
                Ok(b) => b,
                Err(e) => {
                    return Err(e);
                },
            };
            if !at_else {
                let else_compound = AST::Empty;
                assert(else_compound@ == AstView::Empty);
                return Ok(
                    AST::IfStatement {
                        if_compound: (Box::new(if_condition), Box::new(if_bloc)),
                        else_if_compounds,
                        else_compound: Box::new(else_compound),
                    },
                );
            }
            match self.process(None) {
                Ok(_) => {},
                Err(e) => {
                    return Err(e);
                },
            }
            let at_if = match self.looking_at(&Token::IF) {
                Ok(b) => b,
                Err(e) => {
                    return Err(e);
                },
            };
            if at_if {
                match self.process(None) {
                    Ok(_) => {},
                    Err(e) => {
                        return Err(e);
                    },
                }
                let (condition, body) = match self.compound() {
                    Ok(pair) => pair,
                    Err(e) => {
                        return Err(e);
                    },
                };
                let ghost before = compound_trees(else_if_compounds);
                let ghost added = (condition@, body@);
                else_if_compounds.push((Box::new(condition), Box::new(body)));
                proof {
                    assert(compound_trees(else_if_compounds) =~= before.push(added));
                }
            } else {
                match self.take(Token::COLON, SyntaxError::UnexpectedToken) {
                    Ok(()) => {},
                    Err(e) => {
                        return Err(e);
                    },
                }
                let else_compound = match self.bloc() {
                    Ok(body) => body,
                    Err(e) => {
                        return Err(e);
                    },
                };
                return Ok(
                    AST::IfStatement {
                        if_compound: (Box::new(if_condition), Box::new(if_bloc)),
                        else_if_compounds,
                        else_compound: Box::new(else_compound),
                    },
                );
            }
        }
    }

    /// while_statement: 'while' logical_or_expr ':' bloc
    #[verifier::spinoff_prover]
    fn while_statement(&mut self) -> (r: Result<AST, Error>)
        requires
            old(self).wf(),
        ensures
            final(self).parsed(
                old(self),
                r,
                while_statement(old(self).stream(), old(self).position()),
            ),
        decreases old(self).remaining(), 26nat,
    {
        proof {
            reveal_with_fuel(while_statement, 1);
            reveal_with_fuel(compound, 1);
        }
        match self.take(Token::WHILE, SyntaxError::UnexpectedToken) {
            Ok(()) => {},
            Err(e) => {
                return Err(e);
            },
        }
        match self.compound() {
            Ok((condition, body)) => Ok(
                AST::WhileStatement { condition: Box::new(condition), bloc: Box::new(body) },
            ),
            Err(e) => Err(e),
        }
    }

    /// The parameters of a declaration and the closing parenthesis.
    #[verifier::spinoff_prover]
    fn parameters(&mut self) -> (r: Result<Vec<AST>, Error>)
        requires
            old(self).wf(),
        ensures
            final(self).listed(
                old(self),
                r,
                parameters(old(self).stream(), old(self).position(), Seq::empty()),
            ),
    {
        let ghost s = self.stream();
        let ghost start = self.position();
        let mut list: Vec<AST> = Vec::new();
        proof {
            assert(trees(list) =~= Seq::<AstView>::empty());
        }
        loop
            invariant
                self.wf(),
                self.stream() == s,
                s == old(self).stream(),
                start == old(self).position(),
                start <= self.position(),
                parameters(s, start, Seq::empty()) == shift(
                    parameters(s, self.position(), trees(list)),
                    (self.position() - start) as nat,
                ),
            decreases self.remaining(),
        {
            proof {
                reveal_with_fuel(parameters, 1);
            }
            let kind: u8 = match self.peek() {
                Ok(Token::RPAREN) => 0,
                Ok(Token::ID(_)) => 1,
                Ok(_) => 2,
                Err(e) => {
                    return Err(e);
                },
            };
            if kind == 2 || (kind == 0 && list.len() != 0) {
                return Err(Error::Syntax(SyntaxError::UnexpectedToken));
            }
            let token = match self.process(None) {
                Ok(token) => token,
                Err(e) => {
                    return Err(e);
                },
            };
            if kind == 0 {
                return Ok(list);
            }
            let ghost name = token@;
            let variable = AST::Variable { id: token };
            assert(variable@ == AstView::Variable { id: name });
            let parameter = AST::Parameter { parameter: Box::new(variable) };
            assert(parameter@ == AstView::Parameter {
                parameter: Box::new(AstView::Variable { id: name }),
            });
            let ghost before = trees(list);
            let ghost added = parameter@;
            let next: u8 = match self.peek() {
                Ok(Token::COMMA) => 0,
                Ok(Token::RPAREN) => 1,
                Ok(_) => 2,
                Err(e) => {
                    return Err(e);
                },
            };
            if next == 2 {
                return Err(Error::Syntax(SyntaxError::UnexpectedToken));
            }
            list.push(parameter);
            proof {
                assert(trees(list) =~= before.push(added));
            }
            match self.process(None) {
                Ok(_) => {},
                Err(e) => {
                    return Err(e);
                },
            }
            if next == 1 {
                return Ok(list);
            }
        }
    }

    /// function_declaration: 'def' ID '(' [ID (',' ID)*] ')' ':' bloc
    #[verifier::spinoff_prover]
    fn function_declaration(&mut self) -> (r: Result<AST, Error>)
        requires
            old(self).wf(),
        ensures
            final(self).parsed(
                old(self),
                r,
                function_declaration(old(self).stream(), old(self).position()),
            ),
        decreases old(self).remaining(), 26nat,
    {
        proof {
            reveal_with_fuel(function_declaration, 1);
            reveal_with_fuel(parameters, 1);
            reveal_with_fuel(bloc, 1);
        }
        match self.take(Token::DEF, SyntaxError::UnexpectedToken) {
            Ok(()) => {},
            Err(e) => {
                return Err(e);
            },
        }
        let named = match self.peek() {
            Ok(Token::ID(_)) => true,
            Ok(_) => false,
            Err(e) => {
                return Err(e);
            },
        };
        if !named {
            return Err(Error::Syntax(SyntaxError::UnexpectedToken));
        }
        let identifier = match self.process(None) {
            Ok(token) => token,
            Err(e) => {
                return Err(e);
            },
        };
        match self.take(Token::LPAREN, SyntaxError::UnexpectedToken) {
            Ok(()) => {},
            Err(e) => {
                return Err(e);
            },
        }
        let parameters = match self.parameters() {
            Ok(list) => list,
            Err(e) => {
                return Err(e);
            },
        };
        match self.take(Token::COLON, SyntaxError::UnexpectedToken) {
            Ok(()) => {},
            Err(e) => {
                return Err(e);
            },
        }
        match self.bloc() {
            Ok(body) => Ok(AST::FunctionDeclaration { identifier, parameters, body: Box::new(body) }),
            Err(e) => Err(e),
        }
    }

    /// bloc: NEWLINE INDENT statement+ (DEDENT [NEWLINE] | EOF)
    #[verifier::spinoff_prover]
    fn bloc(&mut self) -> (r: Result<AST, Error>)
        requires
            old(self).wf(),
        ensures
            final(self).parsed(old(self), r, bloc(old(self).stream(), old(self).position())),
        decreases old(self).remaining(), 31nat,
    {
        proof {
            reveal_with_fuel(bloc, 1);
            reveal_with_fuel(bloc_items, 1);
            reveal_with_fuel(statement, 1);
        }
        let ghost s = self.stream();
        let ghost start = self.position();
        match self.take(Token::NEWLINE, SyntaxError::UnexpectedToken) {
            Ok(()) => {},
            Err(e) => {
                return Err(e);
            },
        }
        match self.take(Token::INDENT, SyntaxError::UnexpectedToken) {
            Ok(()) => {},
            Err(e) => {
                return Err(e);
            },
        }
        let mut children: Vec<Box<AST>> = Vec::new();
        proof {
            assert(boxed_trees(children) =~= Seq::<AstView>::empty());
        }
        loop
            invariant
                self.wf(),
                self.stream() == s,
                s == old(self).stream(),
                start == old(self).position(),
                start <= self.position(),
                bloc(s, start) == close_bloc(
                    s,
                    start,
                    shift(
                        bloc_items(s, self.position(), boxed_trees(children)),
                        (self.position() - start) as nat,
                    ),
                ),
            decreases self.remaining(),
        {
            proof {
                reveal_with_fuel(bloc, 1);
                reveal_with_fuel(bloc_items, 1);
                reveal_with_fuel(statement, 1);
            }
            let kind: u8 = match self.peek() {
                Ok(Token::DEDENT) => 0,
                Ok(Token::EOF) => 1,
                Ok(_) => 2,
                Err(e) => {
                    return Err(e);
                },
            };
            if kind == 2 {
                let here = self.position;
                let node = match self.statement() {
                    Ok(node) => node,
                    Err(e) => {
                        return Err(e);
                    },
                };
                if self.position == here {
                    return Err(Error::Syntax(SyntaxError::MalformedStatement));
                }
                let ghost before = boxed_trees(children);
                let ghost added = node@;
                children.push(Box::new(node));
                proof {
                    assert(boxed_trees(children) =~= before.push(added));
                }
            } else {
                if children.len() == 0 {
                    return Err(Error::Syntax(SyntaxError::MalformedStatement));
                }
                match self.process(None) {
                    Ok(_) => {},
                    Err(e) => {
                        return Err(e);
                    },
                }
                if kind == 0 {
                    let at_newline = match self.looking_at(&Token::NEWLINE) {
                        Ok(b) => b,
                        Err(e) => {
                            return Err(e);
                        },
                    };
                    if at_newline {
                        match self.process(None) {
                            Ok(_) => {},
                            Err(e) => {
                                return Err(e);
                            },
                        }
                    }
                }
                return Ok(AST::Bloc { children });
            }
        }
    }

    /// simple_statement: (return_statement | expression_statement) [NEWLINE]
    #[verifier::spinoff_prover]
    fn simple_statement(&mut self) -> (r: Result<AST, Error>)
        requires
            old(self).wf(),
        ensures
            final(self).parsed(
                old(self),
                r,
                simple_statement(old(self).stream(), old(self).position()),
            ),
        decreases old(self).remaining(), 27nat,
    {
        proof {
            reveal_with_fuel(simple_statement, 1);
            reveal_with_fuel(return_statement, 1);
            reveal_with_fuel(expression_statement, 1);
        }
        let returning = match self.looking_at(&Token::RETURN) {
            Ok(b) => b,
            Err(e) => {
                return Err(e);
            },
        };
        let node = if returning {
            self.return_statement()
        } else {
            self.expression_statement()
        };
        let node = match node {
            Ok(node) => node,
            Err(e) => {
                return Err(e);
            },
        };
        let kind: u8 = match self.peek() {
            Ok(Token::EOF) => 0,
            Ok(Token::DEDENT) => 0,
            Ok(Token::NEWLINE) => 1,
            Ok(_) => 2,
            Err(e) => {
                return Err(e);
            },
        };
        if kind == 0 {
            Ok(node)
        } else if kind == 1 {
            match self.process(None) {
                Ok(_) => Ok(node),
                Err(e) => Err(e),
            }
        } else {
            Err(Error::Syntax(SyntaxError::UnexpectedToken))
        }
    }

    /// return_statement: 'return' logical_or_expr
    #[verifier::spinoff_prover]
    fn return_statement(&mut self) -> (r: Result<AST, Error>)
        requires
            old(self).wf(),
        ensures
            final(self).parsed(
                old(self),
                r,
                return_statement(old(self).stream(), old(self).position()),
            ),
        decreases old(self).remaining(), 26nat,
    {
        proof {
            reveal_with_fuel(return_statement, 1);
            reveal_with_fuel(logical_or_expr, 1);
        }
        match self.take(Token::RETURN, SyntaxError::UnexpectedToken) {
            Ok(()) => {},
            Err(e) => {
                return Err(e);
            },
        }
        match self.logical_or_expr() {
            Ok(value) => Ok(AST::ReturnStatement { expression: Box::new(value) }),
            Err(e) => Err(e),
        }
    }

    /// expression_statement: logical_or_expr ['=' logical_or_expr]
    #[verifier::spinoff_prover]
    fn expression_statement(&mut self) -> (r: Result<AST, Error>)
        requires
            old(self).wf(),
        ensures
            final(self).parsed(
                old(self),
                r,
                expression_statement(old(self).stream(), old(self).position()),
            ),
        decreases old(self).remaining(), 26nat,
    {
        proof {
            reveal_with_fuel(expression_statement, 1);
            reveal_with_fuel(logical_or_expr, 1);
        }
        let node = match self.logical_or_expr() {
            Ok(node) => node,
            Err(e) => {
                return Err(e);
            },
        };
        let assigning = match self.looking_at(&Token::ASSIGN) {
            Ok(b) => b,
            Err(e) => {
                return Err(e);
            },
        };
        if assigning {
            match self.process(None) {
                Ok(_) => {},
                Err(e) => {
                    return Err(e);
                },
            }
            match self.logical_or_expr() {
                Ok(right) => Ok(AST::Assignment { left: Box::new(node), right: Box::new(right) }),
                Err(e) => Err(e),
            }
        } else {
            Ok(node)
        }
    }

    /// logical_or_expr: logical_and_expr ('or' logical_and_expr)*
    #[verifier::spinoff_prover]
    fn logical_or_expr(&mut self) -> (r: Result<AST, Error>)
        requires
            old(self).wf(),
        ensures
            final(self).parsed(old(self), r, logical_or_expr(old(self).stream(), old(self).position())),
        decreases old(self).remaining(), 24nat,
    {
        proof {
            reveal_with_fuel(logical_or_expr, 1);
            reveal_with_fuel(logical_or_rest, 1);
            reveal_with_fuel(logical_and_expr, 1);
        }
        let ghost s = self.stream();
        let ghost start = self.position();
        let mut node = match self.logical_and_expr() {
            Ok(node) => node,
            Err(e) => {
                return Err(e);
            },
        };
        loop
            invariant
                self.wf(),
                self.stream() == s,
                s == old(self).stream(),
                start == old(self).position(),
                start <= self.position(),
                logical_or_expr(s, start) == shift(
                    logical_or_rest(s, self.position(), node@),
                    (self.position() - start) as nat,
                ),
            decreases self.remaining(),
        {
            proof {
                reveal_with_fuel(logical_or_expr, 1);
                reveal_with_fuel(logical_or_rest, 1);
                reveal_with_fuel(logical_and_expr, 1);
            }
            let more = match self.looking_at(&Token::OR) {
                Ok(b) => b,
                Err(e) => {
                    return Err(e);
                },
            };
            if !more {
                return Ok(node);
            }
            let op = match self.process(None) {
                Ok(op) => op,
                Err(e) => {
                    return Err(e);
                },
            };
            let right = match self.logical_and_expr() {
                Ok(right) => right,
                Err(e) => {
                    return Err(e);
                },
            };
            node = Self::binary(node, op, right);
        }
    }

    /// logical_and_expr: logical_not_expr ('and' logical_not_expr)*
    #[verifier::spinoff_prover]
    fn logical_and_expr(&mut self) -> (r: Result<AST, Error>)
        requires
            old(self).wf(),
        ensures
            final(self).parsed(old(self), r, logical_and_expr(old(self).stream(), old(self).position())),
        decreases old(self).remaining(), 22nat,
    {
        proof {
            reveal_with_fuel(logical_and_expr, 1);
            reveal_with_fuel(logical_and_rest, 1);
            reveal_with_fuel(logical_not_expr, 1);
        }
        let ghost s = self.stream();
        let ghost start = self.position();
        let mut node = match self.logical_not_expr() {
            Ok(node) => node,
            Err(e) => {
                return Err(e);
            },
        };
        loop
            invariant
                self.wf(),
                self.stream() == s,
                s == old(self).stream(),
                start == old(self).position(),
                start <= self.position(),
                logical_and_expr(s, start) == shift(
                    logical_and_rest(s, self.position(), node@),
                    (self.position() - start) as nat,
                ),
            decreases self.remaining(),
        {
            proof {
                reveal_with_fuel(logical_and_expr, 1);
                reveal_with_fuel(logical_and_rest, 1);
                reveal_with_fuel(logical_not_expr, 1);
            }
            let more = match self.looking_at(&Token::AND) {
                Ok(b) => b,
                Err(e) => {
                    return Err(e);
                },
            };
            if !more {
                return Ok(node);
            }
            let op = match self.process(None) {
                Ok(op) => op,
                Err(e) => {
                    return Err(e);
                },
            };
            let right = match self.logical_not_expr() {
                Ok(right) => right,
                Err(e) => {
                    return Err(e);
                },
            };
            node = Self::binary(node, op, right);
        }
    }

    /// logical_not_expr: 'not' logical_not_expr | comparison
    #[verifier::spinoff_prover]
    fn logical_not_expr(&mut self) -> (r: Result<AST, Error>)
        requires
            old(self).wf(),
        ensures
            final(self).parsed(
                old(self),
                r,
                logical_not_expr(old(self).stream(), old(self).position()),
            ),
        decreases old(self).remaining(), 20nat,
    {
        proof {
            reveal_with_fuel(logical_not_expr, 1);
            reveal_with_fuel(comparison, 1);
        }
        let negating = match self.looking_at(&Token::NOT) {
            Ok(b) => b,
            Err(e) => {
                return Err(e);
            },
        };
        if negating {
            let op = match self.process(None) {
                Ok(op) => op,
                Err(e) => {
                    return Err(e);
                },
            };
            match self.logical_not_expr() {
                Ok(right) => Ok(AST::UnaryOperation { op, right: Box::new(right) }),
                Err(e) => Err(e),
            }
        } else {
            self.comparison()
        }
    }

    /// comparison: expr (('==' | '!=' | '<=' | '>=' | '<' | '>') term)*
    #[verifier::spinoff_prover]
    fn comparison(&mut self) -> (r: Result<AST, Error>)
        requires
            old(self).wf(),
        ensures
            final(self).parsed(old(self), r, comparison(old(self).stream(), old(self).position())),
        decreases old(self).remaining(), 19nat,
    {
        proof {
            reveal_with_fuel(comparison, 1);
            reveal_with_fuel(comparison_rest, 1);
            reveal_with_fuel(expr, 1);
            reveal_with_fuel(term, 1);
        }
        let ghost s = self.stream();
        let ghost start = self.position();
        let mut node = match self.expr() {
            Ok(node) => node,
            Err(e) => {
                return Err(e);
            },
        };
        loop
            invariant
                self.wf(),
                self.stream() == s,
                s == old(self).stream(),
                start == old(self).position(),
                start <= self.position(),
                comparison(s, start) == shift(
                    comparison_rest(s, self.position(), node@),
                    (self.position() - start) as nat,
                ),
            decreases self.remaining(),
        {
            proof {
                reveal_with_fuel(comparison, 1);
                reveal_with_fuel(comparison_rest, 1);
                reveal_with_fuel(expr, 1);
                reveal_with_fuel(term, 1);
            }
            let more = match self.peek() {
                Ok(Token::EQ) => true,
                Ok(Token::NE) => true,
                Ok(Token::LE) => true,
                Ok(Token::GE) => true,
                Ok(Token::LT) => true,
                Ok(Token::GT) => true,
                Ok(_) => false,
                Err(e) => {
                    return Err(e);
                },
            };
            if !more {
                return Ok(node);
            }
            let op = match self.process(None) {
                Ok(op) => op,
                Err(e) => {
                    return Err(e);
                },
            };
            let right = match self.term() {
                Ok(right) => right,
                Err(e) => {
                    return Err(e);
                },
            };
            node = Self::binary(node, op, right);
        }
    }

    /// expr: term (('+' | '-') term)*
    #[verifier::spinoff_prover]
    fn expr(&mut self) -> (r: Result<AST, Error>)
        requires
            old(self).wf(),
        ensures
            final(self).parsed(old(self), r, expr(old(self).stream(), old(self).position())),
        decreases old(self).remaining(), 17nat,
    {
        proof {
            reveal_with_fuel(expr, 1);
            reveal_with_fuel(expr_rest, 1);
            reveal_with_fuel(term, 1);
        }
        let ghost s = self.stream();
        let ghost start = self.position();
        let mut node = match self.term() {
            Ok(node) => node,
            Err(e) => {
                return Err(e);
            },
        };
        loop
            invariant
                self.wf(),
                self.stream() == s,
                s == old(self).stream(),
                start == old(self).position(),
                start <= self.position(),
                expr(s, start) == shift(
                    expr_rest(s, self.position(), node@),
                    (self.position() - start) as nat,
                ),
            decreases self.remaining(),
        {
            proof {
                reveal_with_fuel(expr, 1);
                reveal_with_fuel(expr_rest, 1);
                reveal_with_fuel(term, 1);
            }
            let more = match self.peek() {
                Ok(Token::PLUS) => true,
                Ok(Token::MINUS) => true,
                Ok(_) => false,
                Err(e) => {
                    return Err(e);
                },
            };
            if !more {
                return Ok(node);
            }
            let op = match self.process(None) {
                Ok(op) => op,
                Err(e) => {
                    return Err(e);
                },
            };
            let right = match self.term() {
                Ok(right) => right,
                Err(e) => {
                    return Err(e);
                },
            };
            node = Self::binary(node, op, right);
        }
    }

    /// term: atom (('*' | '/') atom)*
    #[verifier::spinoff_prover]
    fn term(&mut self) -> (r: Result<AST, Error>)
        requires
            old(self).wf(),
        ensures
            final(self).parsed(old(self), r, term(old(self).stream(), old(self).position())),
        decreases old(self).remaining(), 15nat,
    {
        proof {
            reveal_with_fuel(term, 1);
            reveal_with_fuel(term_rest, 1);
            reveal_with_fuel(atom, 1);
        }
        let ghost s = self.stream();
        let ghost start = self.position();
        let mut node = match self.atom() {
            Ok(node) => node,
            Err(e) => {
                return Err(e);
            },
        };
        loop
            invariant
                self.wf(),
                self.stream() == s,
                s == old(self).stream(),
                start == old(self).position(),
                start <= self.position(),
                term(s, start) == shift(
                    term_rest(s, self.position(), node@),
                    (self.position() - start) as nat,
                ),
            decreases self.remaining(),
        {
            proof {
                reveal_with_fuel(term, 1);
                reveal_with_fuel(term_rest, 1);
                reveal_with_fuel(atom, 1);
            }
            let more = match self.peek() {
                Ok(Token::MUL) => true,
                Ok(Token::DIV) => true,
                Ok(_) => false,
                Err(e) => {
                    return Err(e);
                },
            };
            if !more {
                return Ok(node);
            }
            let op = match self.process(None) {
                Ok(op) => op,
                Err(e) => {
                    return Err(e);
                },
            };
            let right = match self.atom() {
                Ok(right) => right,
                Err(e) => {
                    return Err(e);
                },
            };
            node = Self::binary(node, op, right);
        }
    }

    /// The arguments of a call and the closing parenthesis.
    #[verifier::spinoff_prover]
    fn arguments(&mut self) -> (r: Result<Vec<AST>, Error>)
        requires
            old(self).wf(),
        ensures
            final(self).listed(
                old(self),
                r,
                arguments(old(self).stream(), old(self).position(), Seq::empty()),
            ),
        decreases old(self).remaining(), 32nat,
    {
        let ghost s = self.stream();
        let ghost start = self.position();
        let mut list: Vec<AST> = Vec::new();
        proof {
            assert(trees(list) =~= Seq::<AstView>::empty());
        }
        loop
            invariant
                self.wf(),
                self.stream() == s,
                s == old(self).stream(),
                start == old(self).position(),
                start <= self.position(),
                arguments(s, start, Seq::empty()) == shift(
                    arguments(s, self.position(), trees(list)),
                    (self.position() - start) as nat,
                ),
            decreases self.remaining(),
        {
            proof {
                reveal_with_fuel(arguments, 1);
                reveal_with_fuel(logical_or_expr, 1);
            }
            let closing = match self.looking_at(&Token::RPAREN) {
                Ok(b) => b,
                Err(e) => {
                    return Err(e);
                },
            };
            if closing && list.len() == 0 {
                match self.process(None) {
                    Ok(_) => {
                        return Ok(list);
                    },
                    Err(e) => {
                        return Err(e);
                    },
                }
            }
            let argument = match self.logical_or_expr() {
                Ok(node) => node,
                Err(e) => {
                    return Err(e);
                },
            };
            let ghost before = trees(list);
            let ghost added = argument@;
            let next: u8 = match self.peek() {
                Ok(Token::COMMA) => 0,
                Ok(Token::RPAREN) => 1,
                Ok(_) => 2,
                Err(e) => {
                    return Err(e);
                },
            };
            if next == 2 {
                return Err(Error::Syntax(SyntaxError::UnexpectedToken));
            }
            list.push(argument);
            proof {
                assert(trees(list) =~= before.push(added));
            }
            match self.process(None) {
                Ok(_) => {},
                Err(e) => {
                    return Err(e);
                },
            }
            if next == 1 {
                return Ok(list);
            }
        }
    }

    /// atom: INT | FLOAT | BOOL | '(' expr ')' | ('+' | '-') atom
    ///     | ID '(' arguments ')' | ID
    #[verifier::spinoff_prover]
    fn atom(&mut self) -> (r: Result<AST, Error>)
        requires
            old(self).wf(),
        ensures
            final(self).parsed(old(self), r, atom(old(self).stream(), old(self).position())),
        decreases old(self).remaining(), 13nat,
    {
        proof {
            reveal_with_fuel(atom, 1);
            reveal_with_fuel(expr, 1);
            reveal_with_fuel(arguments, 1);
        }
        let token = match self.process(None) {
            Ok(token) => token,
            Err(e) => {
                return Err(e);
            },
        };
        match token {
            Token::INT(_) => Ok(AST::IntNumber { token }),
            Token::FLOAT(_) => Ok(AST::FloatNumber { token }),
            Token::BOOL(_) => Ok(AST::Boolean { token }),
            Token::LPAREN => {
                let inner = match self.expr() {
                    Ok(node) => node,
                    Err(e) => {
                        return Err(e);
                    },
                };
                match self.take(Token::RPAREN, SyntaxError::UnmatchedParenthesis) {
                    Ok(()) => Ok(inner),
                    Err(e) => Err(e),
                }
            },
            Token::PLUS => match self.atom() {
                Ok(right) => Ok(AST::UnaryOperation { op: token, right: Box::new(right) }),
                Err(e) => Err(e),
            },
            Token::MINUS => match self.atom() {
                Ok(right) => Ok(AST::UnaryOperation { op: token, right: Box::new(right) }),
                Err(e) => Err(e),
            },
            Token::ID(_) => {
                let calling = match self.looking_at(&Token::LPAREN) {
                    Ok(b) => b,
                    Err(e) => {
                        return Err(e);
                    },
                };
                if calling {
                    match self.process(None) {
                        Ok(_) => {},
                        Err(e) => {
                            return Err(e);
                        },
                    }
                    match self.arguments() {
                        Ok(arguments) => Ok(AST::FunctionCall { identifier: token, arguments }),
                        Err(e) => Err(e),
                    }
                } else {
                    Ok(AST::Variable { id: token })
                }
            },
            Token::EOF => Ok(AST::Empty),
            _ => Err(Error::Syntax(SyntaxError::MalformedStatement)),
        }
    }

    /// Reads the whole program: one `Program` node over its statements. A
    /// failure leaves the parser where it was.
    pub fn parse(&mut self) -> (r: Result<AST, Error>)
        requires
            old(self).wf(),
        ensures
            final(self).parsed(old(self), r, program(old(self).stream(), old(self).position())),
            r is Err ==> final(self).position() == old(self).position(),
    {
        let start = self.position;
        match self.program() {
            Ok(tree) => Ok(tree),
            Err(e) => {
                self.position = start;
                Err(e)
            },
        }
    }
}

} // verus!
