use bjorn::scan;
use bjorn::token::Token;

fn scan_generator(input: &str) -> Vec<Token> {
    scan(input).unwrap()
}

#[test]
#[should_panic]
fn invalid_input() {
    // Must change if `§` is valid one day
    scan_generator("§");
}

#[test]
fn whitespace() {
    let scan = scan_generator(" ");
    assert_eq!(scan, vec!());
}

#[test]
fn lf() {
    let scan = scan_generator("\n");
    assert_eq!(scan, vec!(Token::NEWLINE));
}

#[test]
fn indentation() {
    let scan = scan_generator("a\n    b\n    c\nd");
    assert_eq!(scan, vec![
        Token::ID(String::from("a")),
        Token::NEWLINE,
        Token::INDENT,
        Token::ID(String::from("b")),
        Token::NEWLINE,
        Token::ID(String::from("c")),
        Token::DEDENT,
        Token::NEWLINE,
        Token::ID(String::from("d")),
        ])
}

#[test]
fn indentation_multiple() {
    let scan = scan_generator("a\n    b\n        c\nd");
    assert_eq!(scan, vec![
        Token::ID(String::from("a")),
        Token::NEWLINE,
        Token::INDENT,
        Token::ID(String::from("b")),
        Token::NEWLINE,
        Token::INDENT,
        Token::ID(String::from("c")),
        Token::DEDENT,
        Token::DEDENT,
        Token::NEWLINE,
        Token::ID(String::from("d")),
        ])
}

#[test]
fn comment() {
    let scan = scan_generator("# 2+2");
    assert_eq!(scan, vec!());
}

#[test]
fn integer_number() {
    let scan = scan_generator("1");
    assert_eq!(scan, vec!(Token::INT(String::from("1"))));
}

#[test]
fn float_number() {
    let scan = scan_generator("1.0");
    assert_eq!(scan, vec!(Token::FLOAT(String::from("1.0"))));
}

#[test]
fn plus_operand() {
    let scan = scan_generator("+");
    assert_eq!(scan, vec!(Token::PLUS));
}

#[test]
fn minus_operand() {
    let scan = scan_generator("-");
    assert_eq!(scan, vec!(Token::MINUS));
}

#[test]
fn mul_operand() {
    let scan = scan_generator("*");
    assert_eq!(scan, vec!(Token::MUL));
}

#[test]
fn div_operand() {
    let scan = scan_generator("/");
    assert_eq!(scan, vec!(Token::DIV));
}

#[test]
fn parenthesis() {
    let scan = scan_generator("(1)");
    assert_eq!(scan, vec!(
        Token::LPAREN,
        Token::INT(String::from("1")),
        Token::RPAREN,
    ));
}

#[test]
fn assign() {
    let scan = scan_generator("=");
    assert_eq!(scan, vec!(Token::ASSIGN));
}

#[test]
fn boolean_true() {
    let scan = scan_generator("true");
    assert_eq!(scan, vec!(Token::BOOL(true)));
}

#[test]
fn boolean_false() {
    let scan = scan_generator("false");
    assert_eq!(scan, vec!(Token::BOOL(false)));
}

#[test]
fn id() {
    let scan = scan_generator("bjørn");
    assert_eq!(scan, vec!(Token::ID(String::from("bjørn"))));
}

#[test]
fn lexer_comparison_eq() {
    let scan = scan_generator("==");
    assert_eq!(scan, vec!(Token::EQ));
}

#[test]
fn lexer_comparison_ne() {
    let scan = scan_generator("!=");
    assert_eq!(scan, vec!(Token::NE));
}

#[test]
fn lexer_comparison_le() {
    let scan = scan_generator("<=");
    assert_eq!(scan, vec!(Token::LE));
}

#[test]
fn lexer_comparison_ge() {
    let scan = scan_generator(">=");
    assert_eq!(scan, vec!(Token::GE));
}

#[test]
fn lexer_comparison_lt() {
    let scan = scan_generator("<");
    assert_eq!(scan, vec!(Token::LT));
}

#[test]
fn lexer_comparison_gt() {
    let scan = scan_generator(">");
    assert_eq!(scan, vec!(Token::GT));
}

#[test]
fn lexer_logical_or_operation() {
    let scan = scan_generator("or");
    assert_eq!(scan, vec!(Token::OR));
}

#[test]
fn lexer_logical_and_operation() {
    let scan = scan_generator("and");
    assert_eq!(scan, vec!(Token::AND));
}

#[test]
fn lexer_logical_not_operation() {
    let scan = scan_generator("not");
    assert_eq!(scan, vec!(Token::NOT));
}
