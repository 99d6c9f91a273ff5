use bjorn::ast::AST;
use bjorn::builtins::BuiltinsHandler;
use bjorn::error::{Error, InterpreterError, LexicalError, SyntaxError};
use bjorn::grapheme::{segment, Grapheme};
use bjorn::interpreter::{Interpreter, Progress};
use bjorn::lexer::Lexer;
use bjorn::memory::{Memory, Scope};
use bjorn::parser::Parser;
use bjorn::text::{decimal, int_to_string, is_char, parse_i32, same_text};
use bjorn::token::Token;
use bjorn::value::{Computed, Float, Request, Value};
use bjorn::{interpret, parse, scan};

const TWO: Float = Float { bits: 0x4000_0000_0000_0000 };
const HALF: Float = Float { bits: 0x3fe0_0000_0000_0000 };

fn finished(input: &str) -> Value {
    match interpret(input, Vec::new()) {
        Ok(Progress::Finished(value)) => value,
        other => panic!("{:?}", other),
    }
}

fn failure(input: &str) -> Error {
    match interpret(input, Vec::new()) {
        Err(e) => e,
        other => panic!("{:?}", other),
    }
}

fn literal(a: i32) -> Box<AST> {
    Box::new(AST::IntNumber { token: Token::INT(a.to_string()) })
}

#[test]
fn integer_literals_read_as_std_reads_them() {
    let texts = [
        "0", "1", "007", "+5", "-5", "-0", "2147483647", "2147483648", "-2147483648",
        "-2147483649", "99999999999999999999", "", "+", "-", "1a", "a1", " 1", "1 ", "1_0", "--1",
        "+-1", "١", "1.0", "0000000000000000000000000000001",
    ];
    for text in texts {
        assert_eq!(parse_i32(text), text.parse::<i32>().ok(), "{:?}", text);
        assert_eq!(Token::INT(String::from(text)).integer(), text.parse::<i32>().ok());
    }
    assert_eq!(parse_i32("-2147483648"), Some(i32::MIN));
    assert_eq!(parse_i32("2147483648"), None);
}

#[test]
fn integers_are_written_as_std_writes_them() {
    for v in [0, 1, -1, 9, 10, 11, 99, 100, -100, 12345, i32::MAX, i32::MIN, i32::MIN + 1] {
        assert_eq!(int_to_string(v), v.to_string());
    }
    for n in [0u64, 7, 10, 1234567890123456789, u64::MAX] {
        assert_eq!(decimal(n), n.to_string());
    }
}

#[test]
fn text_comparisons() {
    assert!(is_char("\n", '\n'));
    assert!(!is_char("\r\n", '\n'));
    assert!(!is_char("", ' '));
    assert!(!is_char("ab", 'a'));
    assert!(same_text("while", "while"));
    assert!(!same_text("while", "whil"));
    assert!(!same_text("whilf", "while"));
    assert!(same_text("", ""));
}

#[test]
fn token_payloads() {
    assert_eq!(Token::INT(String::from("42")).integer(), Some(42));
    assert_eq!(Token::ID(String::from("42")).integer(), None);
    assert_eq!(Token::BOOL(true).boolean(), Some(true));
    assert_eq!(Token::BOOL(false).boolean(), Some(false));
    assert_eq!(Token::INT(String::from("1")).boolean(), None);
    assert_eq!(Token::ID(String::from("x")).identifier(), Some(String::from("x")));
    assert_eq!(Token::EOF.identifier(), None);
    assert!(Token::ID(String::from("x")).same(&Token::ID(String::from("x"))));
    assert!(!Token::ID(String::from("x")).same(&Token::ID(String::from("y"))));
    assert!(!Token::ID(String::from("1")).same(&Token::INT(String::from("1"))));
    assert!(Token::PLUS.same(&Token::PLUS));
    assert!(!Token::PLUS.same(&Token::MINUS));
    assert_eq!(Token::FLOAT(String::from("1.5")).clone(), Token::FLOAT(String::from("1.5")));
}

#[test]
fn clusters_are_cut_and_classified() {
    let clusters = segment("a1e\u{301}\r\n_ ");
    let texts: Vec<&str> = clusters.iter().map(|g| g.text.as_str()).collect();
    assert_eq!(texts, vec!["a", "1", "e\u{301}", "\r\n", "_", " "]);
    let digits: Vec<bool> = clusters.iter().map(|g| g.digit).collect();
    assert_eq!(digits, vec![false, true, false, false, false, false]);
    let letters: Vec<bool> = clusters.iter().map(|g| g.letter).collect();
    assert_eq!(letters, vec![true, false, true, false, false, false]);
    let words: Vec<bool> = clusters.iter().map(|g| g.word).collect();
    assert_eq!(words, vec![true, true, true, false, true, false]);
    let odd = Grapheme::classify(String::from("ø"));
    assert_eq!((odd.digit, odd.letter, odd.word), (false, false, true));
    let arabic = Grapheme::classify(String::from("٣"));
    assert_eq!((arabic.digit, arabic.letter, arabic.word), (true, false, true));
}

#[test]
fn combining_characters_stay_in_their_identifier() {
    assert_eq!(scan("e\u{301}t\u{e9}").unwrap(), vec![Token::ID(String::from("e\u{301}t\u{e9}"))]);
}

#[test]
fn lexer_reads_hand_made_clusters() {
    let cluster = |text: &str, digit: bool, letter: bool, word: bool| Grapheme {
        text: String::from(text),
        digit,
        letter,
        word,
    };
    let mut lexer = Lexer::from_graphemes(vec![
        cluster("x", false, true, true),
        cluster("1", true, false, true),
        cluster(" ", false, false, false),
        cluster("<", false, false, false),
        cluster("=", false, false, false),
        cluster("7", true, false, true),
        cluster(".", false, false, false),
        cluster("5", true, false, true),
    ]);
    assert_eq!(lexer.next(), Ok(Some(vec![Token::ID(String::from("x1"))])));
    assert_eq!(lexer.next(), Ok(Some(vec![Token::LE])));
    assert_eq!(lexer.next(), Ok(Some(vec![Token::FLOAT(String::from("7.5"))])));
    assert_eq!(lexer.next(), Ok(None));
    assert_eq!(lexer.next(), Ok(None));
}

#[test]
fn keywords_and_punctuation() {
    assert_eq!(
        scan("if else while def return : , ifx").unwrap(),
        vec![
            Token::IF,
            Token::ELSE,
            Token::WHILE,
            Token::DEF,
            Token::RETURN,
            Token::COLON,
            Token::COMMA,
            Token::ID(String::from("ifx")),
        ]
    );
}

#[test]
fn numbers_keep_their_text() {
    assert_eq!(scan("1.50").unwrap(), vec![Token::FLOAT(String::from("1.50"))]);
    assert_eq!(scan("1."), Err(Error::Lexical(LexicalError::UnrecognizedCharacter)));
    assert_eq!(scan("1.x"), Err(Error::Lexical(LexicalError::UnrecognizedCharacter)));
    assert_eq!(scan("007").unwrap(), vec![Token::INT(String::from("007"))]);
    assert_eq!(
        scan("1.5 2.0").unwrap(),
        vec![Token::FLOAT(String::from("1.5")), Token::FLOAT(String::from("2.0"))]
    );
    assert_eq!(scan("1.2.3"), Err(Error::Lexical(LexicalError::UnrecognizedCharacter)));
}

#[test]
fn comments_end_at_the_line_feed() {
    assert_eq!(
        scan("1 # one\n2").unwrap(),
        vec![Token::INT(String::from("1")), Token::NEWLINE, Token::INT(String::from("2"))]
    );
    assert_eq!(scan("# only\n").unwrap(), vec![Token::NEWLINE]);
}

#[test]
fn indentation_at_the_end_of_the_text() {
    assert_eq!(scan("a\n   ").unwrap(), vec![Token::ID(String::from("a")), Token::NEWLINE]);
    assert_eq!(
        scan("a\n        b").unwrap(),
        vec![
            Token::ID(String::from("a")),
            Token::NEWLINE,
            Token::INDENT,
            Token::INDENT,
            Token::ID(String::from("b")),
        ]
    );
}

#[test]
fn lexical_errors() {
    assert_eq!(scan("§"), Err(Error::Lexical(LexicalError::UnrecognizedCharacter)));
    assert_eq!(scan("1 ! 2"), Err(Error::Lexical(LexicalError::UnrecognizedCharacter)));
    assert_eq!(scan("a\r\nb"), Err(Error::Lexical(LexicalError::UnrecognizedCharacter)));
    assert_eq!(scan("a\n  b"), Err(Error::Lexical(LexicalError::BadIndentation)));
    assert_eq!(scan("a\n     b"), Err(Error::Lexical(LexicalError::BadIndentation)));
    assert_eq!(parse("a\n  b"), Err(Error::Lexical(LexicalError::BadIndentation)));
    assert_eq!(failure("1 + §"), Error::Lexical(LexicalError::UnrecognizedCharacter));
}

#[test]
fn a_failure_is_final() {
    let mut lexer = Lexer::new("1 § 2");
    assert_eq!(lexer.next(), Ok(Some(vec![Token::INT(String::from("1"))])));
    assert_eq!(lexer.next(), Err(LexicalError::UnrecognizedCharacter));
    assert_eq!(lexer.next(), Err(LexicalError::UnrecognizedCharacter));
    assert_eq!(lexer.drain(), (vec![], Some(LexicalError::UnrecognizedCharacter)));
    let mut parser = Parser::new(Lexer::new("1 + )"));
    assert_eq!(parser.parse(), Err(Error::Syntax(SyntaxError::MalformedStatement)));
    assert_eq!(parser.parse(), Err(Error::Syntax(SyntaxError::MalformedStatement)));
}

#[test]
fn syntax_errors() {
    assert_eq!(parse("if true 1"), Err(Error::Syntax(SyntaxError::UnexpectedToken)));
    assert_eq!(parse("1 2"), Err(Error::Syntax(SyntaxError::UnexpectedToken)));
    assert_eq!(parse("x = y = 1"), Err(Error::Syntax(SyntaxError::UnexpectedToken)));
    assert_eq!(parse("1 < 2 + 3"), Err(Error::Syntax(SyntaxError::UnexpectedToken)));
    assert_eq!(parse("def f(x,):\n    1"), Err(Error::Syntax(SyntaxError::UnexpectedToken)));
    assert_eq!(parse("(1"), Err(Error::Syntax(SyntaxError::UnmatchedParenthesis)));
    assert_eq!(parse("(1 2)"), Err(Error::Syntax(SyntaxError::UnmatchedParenthesis)));
    assert_eq!(parse(")"), Err(Error::Syntax(SyntaxError::MalformedStatement)));
    assert_eq!(parse("1 + :"), Err(Error::Syntax(SyntaxError::MalformedStatement)));
    assert_eq!(finished("return"), Value::Nothing);
}

#[test]
fn the_first_failure_on_the_way_is_reported() {
    assert_eq!(parse(") §"), Err(Error::Syntax(SyntaxError::MalformedStatement)));
    assert_eq!(parse("1 §"), Err(Error::Lexical(LexicalError::UnrecognizedCharacter)));
}

#[test]
fn parser_reads_hand_made_tokens() {
    let mut parser = Parser::from_tokens(vec![
        Token::INT(String::from("1")),
        Token::LT,
        Token::INT(String::from("2")),
        Token::MUL,
        Token::INT(String::from("3")),
    ]);
    assert_eq!(
        parser.parse(),
        Ok(AST::Program {
            children: vec![Box::new(AST::BinaryOperation {
                left: literal(1),
                op: Token::LT,
                right: Box::new(AST::BinaryOperation { left: literal(2), op: Token::MUL, right: literal(3) }),
            })]
        })
    );
    assert_eq!(parser.parse(), Ok(AST::Program { children: vec![] }));
}

#[test]
fn dangling_operator_takes_the_empty_node() {
    assert_eq!(
        parse("1 +"),
        Ok(AST::Program {
            children: vec![Box::new(AST::BinaryOperation {
                left: literal(1),
                op: Token::PLUS,
                right: Box::new(AST::Empty),
            })]
        })
    );
    assert_eq!(failure("1 +"), Error::Interpreter(InterpreterError::InvalidOperand));
}

#[test]
fn declarations_and_calls_are_parsed() {
    let x = || AST::Variable { id: Token::ID(String::from("x")) };
    assert_eq!(
        parse("def f(x, y):\n    return x\nf(1, 2)"),
        Ok(AST::Program {
            children: vec![
                Box::new(AST::FunctionDeclaration {
                    identifier: Token::ID(String::from("f")),
                    parameters: vec![
                        AST::Parameter { parameter: Box::new(x()) },
                        AST::Parameter {
                            parameter: Box::new(AST::Variable { id: Token::ID(String::from("y")) }),
                        },
                    ],
                    body: Box::new(AST::Bloc {
                        children: vec![Box::new(AST::ReturnStatement { expression: Box::new(x()) })],
                    }),
                }),
                Box::new(AST::FunctionCall {
                    identifier: Token::ID(String::from("f")),
                    arguments: vec![*literal(1), *literal(2)],
                }),
            ]
        })
    );
    assert_eq!(
        parse("f()"),
        Ok(AST::Program {
            children: vec![Box::new(AST::FunctionCall {
                identifier: Token::ID(String::from("f")),
                arguments: vec![],
            })]
        })
    );
}

#[test]
fn else_if_branches_are_parsed() {
    let truth = |b: bool| Box::new(AST::Boolean { token: Token::BOOL(b) });
    let block = |a: i32| Box::new(AST::Bloc { children: vec![literal(a)] });
    assert_eq!(
        parse("if false:\n    1\nelse if true:\n    2\nelse:\n    3\n"),
        Ok(AST::Program {
            children: vec![Box::new(AST::IfStatement {
                if_compound: (truth(false), block(1)),
                else_if_compounds: vec![(truth(true), block(2))],
                else_compound: block(3),
            })]
        })
    );
}

#[test]
fn tree_copies_are_equal() {
    let tree = parse("def f(x):\n    if x < 1:\n        return 1.5\n    else if x == 2:\n        return -x\n    while not x > 3:\n        x = x + 1\n    return f(x, true)\nf(1)").unwrap();
    assert_eq!(tree.clone(), tree);
}

#[test]
fn values_are_displayed() {
    assert_eq!(Value::Int(-12).to_string(), Some(String::from("-12")));
    assert_eq!(Value::Int(i32::MIN).to_string(), Some(String::from("-2147483648")));
    assert_eq!(Value::Bool(true).to_string(), Some(String::from("true")));
    assert_eq!(Value::Bool(false).to_string(), Some(String::from("false")));
    assert_eq!(Value::Nothing.to_string(), Some(String::new()));
    assert_eq!(Value::Function(AST::Empty).to_string(), Some(String::from("Function")));
    assert_eq!(
        Value::BuiltinFunction(String::from("print")).to_string(),
        Some(String::from("BuiltinFunction"))
    );
    assert_eq!(Value::Float(TWO).to_string(), None);
}

#[test]
fn integer_arithmetic_is_exact() {
    assert_eq!(Value::Int(2).add(Value::Int(3)), Ok(Computed::Value(Value::Int(5))));
    assert_eq!(Value::Int(2).sub(Value::Int(3)), Ok(Computed::Value(Value::Int(-1))));
    assert_eq!(Value::Int(-4).mul(Value::Int(3)), Ok(Computed::Value(Value::Int(-12))));
    assert_eq!(Value::Int(7).neg(), Ok(Computed::Value(Value::Int(-7))));
    assert_eq!(Value::Int(i32::MAX).add(Value::Int(1)), Err(InterpreterError::Overflow));
    assert_eq!(Value::Int(i32::MIN).sub(Value::Int(1)), Err(InterpreterError::Overflow));
    assert_eq!(Value::Int(65536).mul(Value::Int(32768)), Err(InterpreterError::Overflow));
    assert_eq!(
        Value::Int(-65536).mul(Value::Int(32768)),
        Ok(Computed::Value(Value::Int(i32::MIN)))
    );
    assert_eq!(Value::Int(i32::MIN).neg(), Err(InterpreterError::Overflow));
}

#[test]
fn floating_point_work_is_requested() {
    assert_eq!(
        Value::Int(4).div(Value::Int(2)),
        Ok(Computed::Request(Request::Binary {
            op: Token::DIV,
            left: Value::Int(4),
            right: Value::Int(2),
        }))
    );
    assert_eq!(
        Value::Float(TWO).add(Value::Int(1)),
        Ok(Computed::Request(Request::Binary {
            op: Token::PLUS,
            left: Value::Float(TWO),
            right: Value::Int(1),
        }))
    );
    assert_eq!(
        Value::Int(1).eq(Value::Float(TWO), true),
        Ok(Computed::Request(Request::Binary {
            op: Token::NE,
            left: Value::Int(1),
            right: Value::Float(TWO),
        }))
    );
    assert_eq!(
        Value::Float(HALF).compare(Token::GE, Value::Float(TWO)),
        Ok(Computed::Request(Request::Binary {
            op: Token::GE,
            left: Value::Float(HALF),
            right: Value::Float(TWO),
        }))
    );
    assert_eq!(
        Value::Float(TWO).neg(),
        Ok(Computed::Request(Request::Unary { op: Token::MINUS, operand: Value::Float(TWO) }))
    );
}

#[test]
fn comparisons_of_integers_and_truth_values() {
    let truth = |b: bool| Ok(Computed::Value(Value::Bool(b)));
    assert_eq!(Value::Int(1).eq(Value::Int(1), false), truth(true));
    assert_eq!(Value::Int(1).eq(Value::Int(1), true), truth(false));
    assert_eq!(Value::Bool(true).eq(Value::Bool(false), false), truth(false));
    assert_eq!(Value::Bool(true).eq(Value::Bool(false), true), truth(true));
    assert_eq!(Value::Int(1).compare(Token::LE, Value::Int(1)), truth(true));
    assert_eq!(Value::Int(1).compare(Token::LT, Value::Int(1)), truth(false));
    assert_eq!(Value::Int(2).compare(Token::GT, Value::Int(1)), truth(true));
    assert_eq!(Value::Int(0).compare(Token::GE, Value::Int(1)), truth(false));
    assert_eq!(
        Value::Int(0).compare(Token::PLUS, Value::Int(1)),
        Err(InterpreterError::MalformedTree)
    );
    assert_eq!(
        Value::Bool(true).compare(Token::LT, Value::Bool(false)),
        Err(InterpreterError::InvalidOperand)
    );
    assert_eq!(Value::Nothing.eq(Value::Nothing, false), Err(InterpreterError::InvalidOperand));
}

#[test]
fn operators_refuse_the_wrong_kinds() {
    for op in [Token::PLUS, Token::MINUS, Token::MUL, Token::DIV] {
        assert_eq!(
            Value::binary(op.clone(), Value::Bool(true), Value::Int(1)),
            Err(InterpreterError::InvalidOperand)
        );
        assert_eq!(
            Value::binary(op.clone(), Value::Float(TWO), Value::Nothing),
            Err(InterpreterError::InvalidOperand)
        );
    }
    for op in [Token::OR, Token::AND] {
        assert_eq!(
            Value::binary(op.clone(), Value::Int(1), Value::Int(1)),
            Err(InterpreterError::InvalidOperand)
        );
        assert_eq!(
            Value::binary(op.clone(), Value::Bool(true), Value::Float(TWO)),
            Err(InterpreterError::InvalidOperand)
        );
    }
    assert_eq!(Value::Int(1).not(), Err(InterpreterError::InvalidOperand));
    assert_eq!(Value::Bool(true).not(), Ok(Value::Bool(false)));
    assert_eq!(Value::Bool(true).neg(), Err(InterpreterError::InvalidOperand));
    assert_eq!(
        Value::binary(Token::COLON, Value::Int(1), Value::Int(1)),
        Err(InterpreterError::MalformedTree)
    );
    assert_eq!(failure("true + 1"), Error::Interpreter(InterpreterError::InvalidOperand));
    assert_eq!(failure("1 or 1"), Error::Interpreter(InterpreterError::InvalidOperand));
    assert_eq!(failure("not 1"), Error::Interpreter(InterpreterError::InvalidOperand));
    assert_eq!(failure("true < 1"), Error::Interpreter(InterpreterError::InvalidOperand));
    assert_eq!(failure("if 1:\n    2\n"), Error::Interpreter(InterpreterError::InvalidOperand));
    assert_eq!(failure("while 1:\n    2\n"), Error::Interpreter(InterpreterError::InvalidOperand));
}

#[test]
fn answers_are_checked_against_their_request() {
    let sum = Request::Binary { op: Token::PLUS, left: Value::Float(TWO), right: Value::Int(1) };
    assert_eq!(sum.resolve(Value::Float(HALF)), Ok(Value::Float(HALF)));
    assert_eq!(sum.resolve(Value::Bool(true)), Err(InterpreterError::UnexpectedAnswer));
    assert_eq!(sum.resolve(Value::Int(3)), Err(InterpreterError::UnexpectedAnswer));
    let less = Request::Binary { op: Token::LT, left: Value::Float(TWO), right: Value::Int(1) };
    assert_eq!(less.resolve(Value::Bool(false)), Ok(Value::Bool(false)));
    assert_eq!(less.resolve(Value::Float(HALF)), Err(InterpreterError::UnexpectedAnswer));
    let literal = Request::Literal { text: String::from("0.5") };
    assert_eq!(literal.resolve(Value::Float(HALF)), Ok(Value::Float(HALF)));
    assert_eq!(literal.resolve(Value::Nothing), Err(InterpreterError::MalformedLiteral));
    assert_eq!(literal.resolve(Value::Int(1)), Err(InterpreterError::UnexpectedAnswer));
    let negation = Request::Unary { op: Token::MINUS, operand: Value::Float(TWO) };
    assert_eq!(negation.resolve(Value::Float(HALF)), Ok(Value::Float(HALF)));
    assert_eq!(negation.resolve(Value::Nothing), Err(InterpreterError::UnexpectedAnswer));
    let call = Request::Call { name: String::from("print"), argument: Value::Int(1) };
    assert_eq!(call.resolve(Value::Nothing), Ok(Value::Nothing));
    assert_eq!(call.resolve(Value::Int(2)), Ok(Value::Int(2)));
    assert_eq!(call.clone(), call);
}

#[test]
fn memory_reads_and_writes_the_current_scope_only() {
    let mut memory = Memory::new(Scope::new());
    assert_eq!(memory.depth(), 1);
    assert_eq!(memory.insert(String::from("a"), Value::Int(1)), None);
    assert_eq!(memory.insert(String::from("a"), Value::Int(2)), Some(Value::Int(1)));
    assert_eq!(memory.get(String::from("a")), Some(&Value::Int(2)));
    let mut frame = Scope::new();
    frame.insert(String::from("b"), Value::Bool(true));
    assert!(frame.contains_key("b"));
    memory.push_scope(frame);
    assert_eq!(memory.depth(), 2);
    assert_eq!(memory.get(String::from("a")), None);
    assert_eq!(memory.get(String::from("b")), Some(&Value::Bool(true)));
    assert_eq!(memory.insert(String::from("a"), Value::Int(3)), None);
    assert_eq!(memory.remove(String::from("b")), Some(Value::Bool(true)));
    assert_eq!(memory.remove(String::from("b")), None);
    assert_eq!(memory.current_scope().unwrap().get("a"), Some(&Value::Int(3)));
    memory.current_scope_mut().unwrap().insert(String::from("c"), Value::Int(9));
    assert_eq!(memory.get(String::from("c")), Some(&Value::Int(9)));
    memory.current_scope_mut().unwrap().remove("c");
    assert_eq!(memory.get(String::from("c")), None);
    let top = memory.pop_scope().unwrap();
    assert_eq!(top.get("a"), Some(&Value::Int(3)));
    assert!(!top.contains_key("b"));
    assert_eq!(memory.get(String::from("a")), Some(&Value::Int(2)));
    assert!(memory.pop_scope().is_none());
    assert_eq!(memory.depth(), 1);
    assert_eq!(memory.get(String::from("a")), Some(&Value::Int(2)));
}

#[test]
fn the_registry_names_print() {
    let mut registry = BuiltinsHandler::new();
    assert!(!registry.builtins.contains_key("print"));
    registry.register_builtins();
    assert_eq!(
        registry.builtins.get("print"),
        Some(&Value::BuiltinFunction(String::from("print")))
    );
}

#[test]
fn a_run_stops_at_the_first_unanswered_request() {
    let division = Request::Binary { op: Token::DIV, left: Value::Int(4), right: Value::Int(2) };
    assert_eq!(interpret("4 / 2", vec![]), Ok(Progress::Pending(division)));
    assert_eq!(interpret("4 / 2", vec![Value::Float(TWO)]), Ok(Progress::Finished(Value::Float(TWO))));
    assert_eq!(
        interpret("4 / 2", vec![Value::Int(2)]),
        Err(Error::Interpreter(InterpreterError::UnexpectedAnswer))
    );
    assert_eq!(
        interpret("0.5 + 2", vec![]),
        Ok(Progress::Pending(Request::Literal { text: String::from("0.5") }))
    );
    assert_eq!(
        interpret("0.5 + 2", vec![Value::Float(HALF)]),
        Ok(Progress::Pending(Request::Binary {
            op: Token::PLUS,
            left: Value::Float(HALF),
            right: Value::Int(2),
        }))
    );
    assert_eq!(
        interpret("0.5 + 2", vec![Value::Float(HALF), Value::Float(TWO)]),
        Ok(Progress::Finished(Value::Float(TWO)))
    );
    assert_eq!(
        interpret("0.5 + 2", vec![Value::Nothing]),
        Err(Error::Interpreter(InterpreterError::MalformedLiteral))
    );
    assert_eq!(
        interpret("print(1 + 1)", vec![]),
        Ok(Progress::Pending(Request::Call { name: String::from("print"), argument: Value::Int(2) }))
    );
    assert_eq!(interpret("print(1 + 1)", vec![Value::Nothing]), Ok(Progress::Finished(Value::Nothing)));
    assert_eq!(interpret("print", vec![]), Ok(Progress::Finished(Value::BuiltinFunction(String::from("print")))));
}

#[test]
fn supplying_answers_one_by_one() {
    let mut interpreter = Interpreter::new(Parser::new(Lexer::new("x = 1 / 2\nx < 2")));
    assert_eq!(
        interpreter.interpret(),
        Ok(Progress::Pending(Request::Binary { op: Token::DIV, left: Value::Int(1), right: Value::Int(2) }))
    );
    interpreter.supply(Value::Float(HALF));
    assert_eq!(
        interpreter.interpret(),
        Ok(Progress::Pending(Request::Binary {
            op: Token::LT,
            left: Value::Float(HALF),
            right: Value::Int(2),
        }))
    );
    interpreter.supply(Value::Bool(true));
    assert_eq!(interpreter.interpret(), Ok(Progress::Finished(Value::Bool(true))));
    assert_eq!(interpreter.memory.get(String::from("x")), Some(&Value::Float(HALF)));
    assert_eq!(interpreter.interpret(), Ok(Progress::Finished(Value::Bool(true))));
    interpreter.supply_all(vec![]);
    assert!(matches!(interpreter.interpret(), Ok(Progress::Pending(_))));
}

#[test]
fn interpreter_errors() {
    let error = |kind: InterpreterError| Error::Interpreter(kind);
    assert_eq!(failure("a"), error(InterpreterError::UnboundVariable));
    assert_eq!(failure("f(1)"), error(InterpreterError::UnboundVariable));
    assert_eq!(failure("a = 1\na()"), error(InterpreterError::NotCallable));
    assert_eq!(failure("def f(x):\n    return x\nf()"), error(InterpreterError::WrongArgumentCount));
    assert_eq!(failure("def f():\n    return 1\nf(1)"), error(InterpreterError::WrongArgumentCount));
    assert_eq!(failure("print()"), error(InterpreterError::WrongArgumentCount));
    assert_eq!(failure("print(1, 2)"), error(InterpreterError::WrongArgumentCount));
    assert_eq!(failure("1 = 2"), error(InterpreterError::InvalidAssignmentTarget));
    assert_eq!(failure("99999999999"), error(InterpreterError::MalformedLiteral));
    assert_eq!(failure("١"), error(InterpreterError::MalformedLiteral));
    assert_eq!(
        failure("def f(x, x):\n    return x\nf(1, 2)"),
        error(InterpreterError::DuplicateParameter)
    );
    assert_eq!(failure("def f(f):\n    return f\nf(1)"), error(InterpreterError::DuplicateParameter));
    assert_eq!(failure("2147483647 + 1"), error(InterpreterError::Overflow));
    assert_eq!(failure("-2147483647 - 2"), error(InterpreterError::Overflow));
    assert_eq!(failure("65536 * 65536"), error(InterpreterError::Overflow));
}

#[test]
fn malformed_trees_are_refused() {
    let run = |tree: AST| Interpreter::with_program(tree, 1000).interpret();
    let error = Err(Error::Interpreter(InterpreterError::MalformedTree));
    assert_eq!(run(AST::BinaryOperation { left: literal(1), op: Token::COLON, right: literal(2) }), error);
    assert_eq!(run(AST::UnaryOperation { op: Token::MUL, right: literal(2) }), error);
    assert_eq!(run(AST::Variable { id: Token::INT(String::from("1")) }), error);
    assert_eq!(run(AST::FunctionCall { identifier: Token::PLUS, arguments: vec![] }), error);
    assert_eq!(
        run(AST::Program {
            children: vec![Box::new(AST::FunctionDeclaration {
                identifier: Token::PLUS,
                parameters: vec![],
                body: Box::new(AST::Empty),
            })]
        }),
        error
    );
    assert_eq!(
        run(AST::Boolean { token: Token::PLUS }),
        Err(Error::Interpreter(InterpreterError::MalformedLiteral))
    );
    assert_eq!(
        run(AST::Assignment { left: Box::new(AST::Variable { id: Token::PLUS }), right: literal(1) }),
        Err(Error::Interpreter(InterpreterError::InvalidAssignmentTarget))
    );
    assert_eq!(run(AST::Empty), Ok(Progress::Finished(Value::Nothing)));
    assert_eq!(run(*literal(7)), Ok(Progress::Finished(Value::Int(7))));
    assert_eq!(
        Interpreter::with_failure(Error::Syntax(SyntaxError::UnexpectedToken), 10).interpret(),
        Err(Error::Syntax(SyntaxError::UnexpectedToken))
    );
}

#[test]
fn a_run_ends_when_its_steps_are_used_up() {
    let mut interpreter = Interpreter::new(Parser::new(Lexer::new("while true:\n    1\n")));
    interpreter.set_limit(1000);
    assert_eq!(interpreter.interpret(), Err(Error::Interpreter(InterpreterError::StepLimit)));
    let mut interpreter = Interpreter::new(Parser::new(Lexer::new("1 + 2")));
    interpreter.set_limit(3);
    assert_eq!(interpreter.interpret(), Err(Error::Interpreter(InterpreterError::StepLimit)));
    interpreter.set_limit(4);
    assert_eq!(interpreter.interpret(), Ok(Progress::Finished(Value::Int(3))));
    interpreter.set_limit(0);
    assert_eq!(interpreter.interpret(), Err(Error::Interpreter(InterpreterError::StepLimit)));
}

#[test]
fn operator_precedence() {
    assert_eq!(finished("2 + 2 * 3"), Value::Int(8));
    assert_eq!(finished("(2 + 2) * 3"), Value::Int(12));
    assert_eq!(finished("1 < 2 * 3"), Value::Bool(true));
    assert_eq!(finished("not 1 == 2"), Value::Bool(true));
    assert_eq!(finished("true or false and false"), Value::Bool(true));
    assert_eq!(finished("2 - 3 - 4"), Value::Int(-5));
}

#[test]
fn unary_chaining() {
    assert_eq!(finished("--2"), Value::Int(2));
    assert_eq!(finished("+-2"), Value::Int(-2));
    assert_eq!(finished("+true"), Value::Bool(true));
    assert_eq!(finished("not not true"), Value::Bool(true));
}

#[test]
fn a_function_does_not_see_the_variables_of_its_caller() {
    assert_eq!(
        failure("a = 1\ndef f():\n    return a\nf()"),
        Error::Interpreter(InterpreterError::UnboundVariable)
    );
    assert_eq!(finished("a = 1\ndef f(a):\n    return a + 1\nf(a)"), Value::Int(2));
    assert_eq!(finished("a = 1\ndef f(b):\n    a = b\n    return a\nf(5)\na"), Value::Int(1));
}

#[test]
fn return_escapes_loops_and_branches() {
    assert_eq!(
        finished("def test(i):\n    while i < 2:\n        i = i + 1\n    return i\ntest(0)"),
        Value::Int(2)
    );
    assert_eq!(
        finished("def f(i):\n    while true:\n        if i > 3:\n            return i\n        i = i + 1\n    return 0\nf(0)"),
        Value::Int(4)
    );
    assert_eq!(finished("def f():\n    return 1\n    return 2\nf()"), Value::Int(1));
    assert_eq!(finished("def f():\n    1\nf()"), Value::Nothing);
}

#[test]
fn branches_are_tried_in_order() {
    let program = |a: &str, b: &str| {
        format!("x = 0\nif {}:\n    x = 1\nelse if {}:\n    x = 2\nelse if true:\n    x = 3\nelse:\n    x = 4\nx", a, b)
    };
    assert_eq!(finished(&program("true", "true")), Value::Int(1));
    assert_eq!(finished(&program("false", "true")), Value::Int(2));
    assert_eq!(finished(&program("false", "false")), Value::Int(3));
    assert_eq!(finished("if true:\n    a = 1\nelse:\n    a = 2\na"), Value::Int(1));
    assert_eq!(finished("if false:\n    a = 1\nelse:\n    a = 2\na"), Value::Int(2));
    assert_eq!(finished("if false:\n    a = 1\n"), Value::Nothing);
}

#[test]
fn functions_call_themselves_and_their_helpers() {
    assert_eq!(
        finished("def fact(n):\n    if n <= 1:\n        return 1\n    return n * fact(n - 1)\nfact(5)"),
        Value::Int(120)
    );
    assert_eq!(
        finished("def outer(x):\n    def inner(y):\n        return y + 1\n    return inner(x)\nouter(1)"),
        Value::Int(2)
    );
    assert_eq!(
        failure("def outer(x):\n    def inner(y):\n        return y + 1\n    return inner(x)\ninner(1)"),
        Error::Interpreter(InterpreterError::UnboundVariable)
    );
    assert_eq!(
        failure("def g():\n    return 1\ndef f():\n    return g()\nf()"),
        Error::Interpreter(InterpreterError::UnboundVariable)
    );
    assert_eq!(finished("f(2)\ndef f(x):\n    return x * 2\n"), Value::Int(4));
    assert!(matches!(finished("def f():\n    return 1\nf"), Value::Function(_)));
}

#[test]
fn the_value_of_a_program_is_that_of_its_last_statement() {
    assert_eq!(finished(""), Value::Nothing);
    assert_eq!(finished("\n\n"), Value::Nothing);
    assert_eq!(finished("1\n2"), Value::Int(2));
    assert_eq!(finished("1\na = 2"), Value::Nothing);
    assert_eq!(finished("1\ndef f():\n    return 2\n"), Value::Int(1));
    assert_eq!(finished("# nothing"), Value::Nothing);
}

#[test]
fn scanning_twice_gives_the_same_tokens() {
    let text = "def f(x):\n    return x + 1.5 # comment\nf(2) != 3";
    assert_eq!(scan(text), scan(text));
    assert_eq!(scan("a\n  b"), scan("a\n  b"));
    let mut lexer = Lexer::new(text);
    let first = lexer.drain();
    assert_eq!(lexer.drain(), (vec![], None));
    assert_eq!(Lexer::new(text).drain(), first);
    assert_eq!(first.1, None);
    assert_eq!(Ok(first.0), scan(text));
}
