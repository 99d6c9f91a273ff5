use bjorn::interpreter::{Interpreter, Progress};
use bjorn::lexer::Lexer;
use bjorn::parser::Parser;
use bjorn::token::Token;
use bjorn::value::{Float, Request, Value};

fn number(value: &Value) -> f64 {
    match value {
        Value::Int(a) => *a as f64,
        Value::Float(a) => f64::from_bits(a.bits),
        other => panic!("not a number: {:?}", other),
    }
}

fn float(x: f64) -> Value {
    Value::Float(Float { bits: x.to_bits() })
}

fn display(value: &Value) -> String {
    match value {
        Value::Float(a) => f64::from_bits(a.bits).to_string(),
        other => other.to_string().unwrap(),
    }
}

fn answer(request: &Request) -> Value {
    match request {
        Request::Literal { text } => match text.parse::<f64>() {
            Ok(x) => float(x),
            Err(_) => Value::Nothing,
        },
        Request::Unary { operand, .. } => float(-number(operand)),
        Request::Binary { op, left, right } => {
            let (a, b) = (number(left), number(right));
            match op {
                Token::PLUS => float(a + b),
                Token::MINUS => float(a - b),
                Token::MUL => float(a * b),
                Token::DIV => float(a / b),
                Token::EQ => Value::Bool(a == b),
                Token::NE => Value::Bool(a != b),
                Token::LE => Value::Bool(a <= b),
                Token::GE => Value::Bool(a >= b),
                Token::LT => Value::Bool(a < b),
                Token::GT => Value::Bool(a > b),
                other => panic!("not an operator: {:?}", other),
            }
        },
        Request::Call { argument, .. } => {
            println!("{}", display(argument));
            Value::Nothing
        },
    }
}

fn interpret(input: &str) -> String {
    let mut interpreter = Interpreter::new(Parser::new(Lexer::new(input)));
    loop {
        match interpreter.interpret() {
            Ok(Progress::Finished(value)) => return display(&value),
            Ok(Progress::Pending(request)) => interpreter.supply(answer(&request)),
            Err(e) => panic!("{:?}", e),
        }
    }
}

#[test]
fn library_entrypoint() {
    assert_eq!(interpret(""), "")
}

#[test]
fn builtin_print() {
    interpret("print(1)");
}

#[test]
#[should_panic]
fn builtin_print_wrong_parameters() {
    interpret("print()");
    interpret("print(1, 2)");
}

#[test]
fn valid_comparisons() {
    // Equal
    assert_eq!(interpret("1 == 1"), String::from("true"));
    assert_eq!(interpret("1 == 2"), String::from("false"));
    assert_eq!(interpret("1.0 == 1"), String::from("true"));
    assert_eq!(interpret("1 == 1.0"), String::from("true"));
    assert_eq!(interpret("1.0 == 2"), String::from("false"));
    assert_eq!(interpret("1 == 2.0"), String::from("false"));

    assert_eq!(interpret("true == true"), String::from("true"));
    assert_eq!(interpret("false == true"), String::from("false"));
    assert_eq!(interpret("true == false"), String::from("false"));
    assert_eq!(interpret("false == false"), String::from("true"));

    // Not Equal
    assert_eq!(interpret("1 != 1"), String::from("false"));
    assert_eq!(interpret("1 != 2"), String::from("true"));
    assert_eq!(interpret("1.0 != 1"), String::from("false"));
    assert_eq!(interpret("1 != 1.0"), String::from("false"));
    assert_eq!(interpret("1.0 != 2"), String::from("true"));
    assert_eq!(interpret("1 != 2.0"), String::from("true"));

    assert_eq!(interpret("true != true"), String::from("false"));
    assert_eq!(interpret("false != true"), String::from("true"));
    assert_eq!(interpret("true != false"), String::from("true"));
    assert_eq!(interpret("false != false"), String::from("false"));

    // Lower or Equal
    assert_eq!(interpret("1 <= 2"), String::from("true"));
    assert_eq!(interpret("1 <= 1"), String::from("true"));
    assert_eq!(interpret("2 <= 1"), String::from("false"));
    assert_eq!(interpret("1.0 <= 2"), String::from("true"));
    assert_eq!(interpret("1.0 <= 1"), String::from("true"));
    assert_eq!(interpret("2.0 <= 1"), String::from("false"));
    assert_eq!(interpret("1 <= 2.0"), String::from("true"));
    assert_eq!(interpret("1 <= 1.0"), String::from("true"));
    assert_eq!(interpret("2 <= 1.0"), String::from("false"));
    assert_eq!(interpret("1.0 <= 2.0"), String::from("true"));
    assert_eq!(interpret("1.0 <= 1.0"), String::from("true"));
    assert_eq!(interpret("2.0 <= 1.0"), String::from("false"));

    // Greater or Equal
    assert_eq!(interpret("2 >= 1"), String::from("true"));
    assert_eq!(interpret("1 >= 1"), String::from("true"));
    assert_eq!(interpret("1 >= 2"), String::from("false"));
    assert_eq!(interpret("2.0 >= 1"), String::from("true"));
    assert_eq!(interpret("1.0 >= 1"), String::from("true"));
    assert_eq!(interpret("1.0 >= 2"), String::from("false"));
    assert_eq!(interpret("2 >= 1.0"), String::from("true"));
    assert_eq!(interpret("1 >= 1.0"), String::from("true"));
    assert_eq!(interpret("1 >= 2.0"), String::from("false"));
    assert_eq!(interpret("2.0 >= 1.0"), String::from("true"));
    assert_eq!(interpret("1.0 >= 1.0"), String::from("true"));
    assert_eq!(interpret("1.0 >= 2.0"), String::from("false"));

    // Lower Than
    assert_eq!(interpret("1 < 2"), String::from("true"));
    assert_eq!(interpret("1 < 1"), String::from("false"));
    assert_eq!(interpret("2 < 1"), String::from("false"));
    assert_eq!(interpret("1.0 < 2"), String::from("true"));
    assert_eq!(interpret("1.0 < 1"), String::from("false"));
    assert_eq!(interpret("2.0 < 1"), String::from("false"));
    assert_eq!(interpret("1 < 2.0"), String::from("true"));
    assert_eq!(interpret("1 < 1.0"), String::from("false"));
    assert_eq!(interpret("2 < 1.0"), String::from("false"));
    assert_eq!(interpret("1.0 < 2.0"), String::from("true"));
    assert_eq!(interpret("1.0 < 1.0"), String::from("false"));
    assert_eq!(interpret("2.0 < 1.0"), String::from("false"));

    // Greater Than
    assert_eq!(interpret("2 > 1"), String::from("true"));
    assert_eq!(interpret("1 > 1"), String::from("false"));
    assert_eq!(interpret("1 > 2"), String::from("false"));
    assert_eq!(interpret("1.0 > 2"), String::from("false"));
    assert_eq!(interpret("1.0 > 1"), String::from("false"));
    assert_eq!(interpret("2.0 > 1"), String::from("true"));
    assert_eq!(interpret("1 > 2.0"), String::from("false"));
    assert_eq!(interpret("1 > 1.0"), String::from("false"));
    assert_eq!(interpret("2 > 1.0"), String::from("true"));
    assert_eq!(interpret("1.0 > 2.0"), String::from("false"));
    assert_eq!(interpret("1.0 > 1.0"), String::from("false"));
    assert_eq!(interpret("2.0 > 1.0"), String::from("true"));
}

#[test]
#[should_panic]
fn invalid_comparisons() {

    let operands = vec!["==", "!=", "<=", ">=", "<", ">"];

    for op in operands {
        interpret(&format!("true {} 1", op));
        interpret(&format!("1 {} true", op));
        interpret(&format!("true {} 1.0", op));
        interpret(&format!("1.0 {} true", op));
        interpret(&format!("false {} 1", op));
        interpret(&format!("1 {} false", op));
        interpret(&format!("false {} 1.0", op));
        interpret(&format!("1.0 {} false", op));
    }



}

#[test]
fn control_flows_if_statement() {
    assert_eq!(interpret("if true:\n    a = 1\nelse:\n    a = 2\na"), String::from("1"));
}

#[test]
fn control_flows_while_statement() {
    assert_eq!(interpret("i = 0\nwhile i < 2:\n    i = i + 1\ni"), String::from("2"))
}

#[test]
fn expressions_empty_statement() {
    assert_eq!(interpret(""), String::from(""));
}

#[test]
fn statements_with_integers() {
    assert_eq!(interpret("2 + 2"), String::from("4"));
    assert_eq!(interpret("2 - 2"), String::from("0"));
    assert_eq!(interpret("2 + 2 - 3"), String::from("1"));
    assert_eq!(interpret("2 * 2"), String::from("4"));
    assert_eq!(interpret("2 + 2 * 3"), String::from("8"));
    assert_eq!(interpret("2 / 2"), String::from("1"));
    assert_eq!(interpret("2 / 2 * 2"), String::from("2"));
}

#[test]
fn statements_with_floats() {
    assert_eq!(interpret("2.0 + 2.0"), String::from("4"));
    assert_eq!(interpret("2.0 - 2.0"), String::from("0"));
    assert_eq!(interpret("2.5 + 2.5 - 3.5"), String::from("1.5"));
    assert_eq!(interpret("2.0 * 2.0"), String::from("4"));
    assert_eq!(interpret("2.5 + 2.5 * 3"), String::from("10"));
    assert_eq!(interpret("2.0 / 2.0"), String::from("1"));
    assert_eq!(interpret("2.0 / 2.0 * 2.5"), String::from("2.5"));
    assert_eq!(interpret("2.0 + 2"), String::from("4"));
    assert_eq!(interpret("2.5 + 2"), String::from("4.5"));
    assert_eq!(interpret("2 + 2.5"), String::from("4.5"));
    assert_eq!(interpret("4.0 - 2"), String::from("2"));
    assert_eq!(interpret("4 - 2.0"), String::from("2"));
    assert_eq!(interpret("4.0 * 2"), String::from("8"));
    assert_eq!(interpret("3 * 1.5"), String::from("4.5"));
    assert_eq!(interpret("4.0 / 2"), String::from("2"));
    assert_eq!(interpret("4 / 2.0"), String::from("2"));
    assert_eq!(interpret("5 / 2.0"), String::from("2.5"));
}

#[test]
fn statements_with_unary_expressions() {
    assert_eq!(interpret("+2 + +2"), String::from("4"));
    assert_eq!(interpret("+2 + -2"), String::from("0"));
    assert_eq!(interpret("-2 + +2"), String::from("0"));
    assert_eq!(interpret("-2 + -2"), String::from("-4"));
    assert_eq!(interpret("++2"), String::from("2"));
    assert_eq!(interpret("-+2"), String::from("-2"));
    assert_eq!(interpret("+-2"), String::from("-2"));
    assert_eq!(interpret("--2"), String::from("2"));
}

#[test]
#[should_panic]
fn statements_with_booleans() {

    let operands = vec!("+", "-", "*", "/");

    for op in operands {
        // with integers
        interpret(&format!("1 {} true", op));
        interpret(&format!("1 {} false", op));
        interpret(&format!("true {} 1", op));
        interpret(&format!("false {} 1", op));

        // with Floats
        interpret(&format!("1.0 {} true", op));
        interpret(&format!("1.0 {} false", op));
        interpret(&format!("true {} 1.0", op));
        interpret(&format!("false {} 1.0", op));

        // with boolean
        interpret(&format!("true {} true", op));
        interpret(&format!("true {} false", op));
        interpret(&format!("false {} true", op));
        interpret(&format!("false {} false", op));
    }
}

#[test]
fn statements_with_comparison_expressions() {
    // Equal
    assert_eq!(interpret("1 == 1"), String::from("true"));
    assert_eq!(interpret("1 == 2"), String::from("false"));
    assert_eq!(interpret("1.0 == 1"), String::from("true"));
    assert_eq!(interpret("1 == 1.0"), String::from("true"));
    assert_eq!(interpret("1.0 == 2"), String::from("false"));
    assert_eq!(interpret("1 == 2.0"), String::from("false"));

    // Not Equal
    assert_eq!(interpret("1 != 1"), String::from("false"));
    assert_eq!(interpret("1 != 2"), String::from("true"));
    assert_eq!(interpret("1.0 != 1"), String::from("false"));
    assert_eq!(interpret("1 != 1.0"), String::from("false"));
    assert_eq!(interpret("1.0 != 2"), String::from("true"));
    assert_eq!(interpret("1 != 2.0"), String::from("true"));

    // Lower or Equal
    assert_eq!(interpret("1 <= 2"), String::from("true"));
    assert_eq!(interpret("1 <= 1"), String::from("true"));
    assert_eq!(interpret("2 <= 1"), String::from("false"));
    assert_eq!(interpret("1.0 <= 2"), String::from("true"));
    assert_eq!(interpret("1.0 <= 1"), String::from("true"));
    assert_eq!(interpret("2.0 <= 1"), String::from("false"));
    assert_eq!(interpret("1 <= 2.0"), String::from("true"));
    assert_eq!(interpret("1 <= 1.0"), String::from("true"));
    assert_eq!(interpret("2 <= 1.0"), String::from("false"));
    assert_eq!(interpret("1.0 <= 2.0"), String::from("true"));
    assert_eq!(interpret("1.0 <= 1.0"), String::from("true"));
    assert_eq!(interpret("2.0 <= 1.0"), String::from("false"));

    // Greater or Equal
    assert_eq!(interpret("2 >= 1"), String::from("true"));
    assert_eq!(interpret("1 >= 1"), String::from("true"));
    assert_eq!(interpret("1 >= 2"), String::from("false"));
    assert_eq!(interpret("2.0 >= 1"), String::from("true"));
    assert_eq!(interpret("1.0 >= 1"), String::from("true"));
    assert_eq!(interpret("1.0 >= 2"), String::from("false"));
    assert_eq!(interpret("2 >= 1.0"), String::from("true"));
    assert_eq!(interpret("1 >= 1.0"), String::from("true"));
    assert_eq!(interpret("1 >= 2.0"), String::from("false"));
    assert_eq!(interpret("2.0 >= 1.0"), String::from("true"));
    assert_eq!(interpret("1.0 >= 1.0"), String::from("true"));
    assert_eq!(interpret("1.0 >= 2.0"), String::from("false"));

    // Lower Than
    assert_eq!(interpret("1 < 2"), String::from("true"));
    assert_eq!(interpret("1 < 1"), String::from("false"));
    assert_eq!(interpret("2 < 1"), String::from("false"));
    assert_eq!(interpret("1.0 < 2"), String::from("true"));
    assert_eq!(interpret("1.0 < 1"), String::from("false"));
    assert_eq!(interpret("2.0 < 1"), String::from("false"));
    assert_eq!(interpret("1 < 2.0"), String::from("true"));
    assert_eq!(interpret("1 < 1.0"), String::from("false"));
    assert_eq!(interpret("2 < 1.0"), String::from("false"));
    assert_eq!(interpret("1.0 < 2.0"), String::from("true"));
    assert_eq!(interpret("1.0 < 1.0"), String::from("false"));
    assert_eq!(interpret("2.0 < 1.0"), String::from("false"));

    // Greater Than
    assert_eq!(interpret("2 > 1"), String::from("true"));
    assert_eq!(interpret("1 > 1"), String::from("false"));
    assert_eq!(interpret("1 > 2"), String::from("false"));
    assert_eq!(interpret("1.0 < 2"), String::from("true"));
    assert_eq!(interpret("1.0 < 1"), String::from("false"));
    assert_eq!(interpret("2.0 < 1"), String::from("false"));
    assert_eq!(interpret("1 < 2.0"), String::from("true"));
    assert_eq!(interpret("1 < 1.0"), String::from("false"));
    assert_eq!(interpret("2 < 1.0"), String::from("false"));
    assert_eq!(interpret("1.0 < 2.0"), String::from("true"));
    assert_eq!(interpret("1.0 < 1.0"), String::from("false"));
    assert_eq!(interpret("2.0 < 1.0"), String::from("false"));
}

#[test]
fn function_calls() {
    assert_eq!(interpret("def test():\n    return 1\ntest()"), String::from("1"));
    assert_eq!(interpret("def test(x):\n    return x\ntest(1)"), String::from("1"));
    assert_eq!(
        interpret("def test(x, y):\n    return x + y\ntest(1, 2)"),
        String::from("3")
    );
    assert_eq!(
        interpret("def test():\n    if true:\n        return 1\n    else:\n        return 2\ntest()"),
        String::from("1")
    );
    assert_eq!(
        interpret("def test(i):\n    while i < 2:\n        i = i + 1\n    return i\ntest(0)"),
        String::from("2")
    );
}

#[test]
fn operations_empty_statement() {
    assert_eq!(interpret(""), String::from(""));
}

#[test]
fn operations_with_integers() {
    assert_eq!(interpret("2 + 2"), String::from("4"));
    assert_eq!(interpret("2 - 2"), String::from("0"));
    assert_eq!(interpret("2 + 2 - 3"), String::from("1"));
    assert_eq!(interpret("2 * 2"), String::from("4"));
    assert_eq!(interpret("2 + 2 * 3"), String::from("8"));
    assert_eq!(interpret("2 / 2"), String::from("1"));
    assert_eq!(interpret("2 / 2 * 2"), String::from("2"));
}

#[test]
fn operations_with_floats() {
    assert_eq!(interpret("2.0 + 2.0"), String::from("4"));
    assert_eq!(interpret("2.0 - 2.0"), String::from("0"));
    assert_eq!(interpret("2.5 + 2.5 - 3.5"), String::from("1.5"));
    assert_eq!(interpret("2.0 * 2.0"), String::from("4"));
    assert_eq!(interpret("2.5 + 2.5 * 3"), String::from("10"));
    assert_eq!(interpret("2.0 / 2.0"), String::from("1"));
    assert_eq!(interpret("2.0 / 2.0 * 2.5"), String::from("2.5"));
    assert_eq!(interpret("2.0 + 2"), String::from("4"));
    assert_eq!(interpret("2.5 + 2"), String::from("4.5"));
    assert_eq!(interpret("2 + 2.5"), String::from("4.5"));
    assert_eq!(interpret("4.0 - 2"), String::from("2"));
    assert_eq!(interpret("4 - 2.0"), String::from("2"));
    assert_eq!(interpret("4.0 * 2"), String::from("8"));
    assert_eq!(interpret("3 * 1.5"), String::from("4.5"));
    assert_eq!(interpret("4.0 / 2"), String::from("2"));
    assert_eq!(interpret("4 / 2.0"), String::from("2"));
    assert_eq!(interpret("5 / 2.0"), String::from("2.5"));
}

#[test]
fn operations_with_unary_expressions() {
    assert_eq!(interpret("+2 + +2"), String::from("4"));
    assert_eq!(interpret("+2 + -2"), String::from("0"));
    assert_eq!(interpret("-2 + +2"), String::from("0"));
    assert_eq!(interpret("-2 + -2"), String::from("-4"));
    assert_eq!(interpret("++2"), String::from("2"));
    assert_eq!(interpret("-+2"), String::from("-2"));
    assert_eq!(interpret("+-2"), String::from("-2"));
    assert_eq!(interpret("--2"), String::from("2"));
}

#[test]
fn operations_logical_with_boolean() {
    // OR
    assert_eq!(interpret("true or true"), String::from("true"));
    assert_eq!(interpret("true or false"), String::from("true"));
    assert_eq!(interpret("false or true"), String::from("true"));
    assert_eq!(interpret("false or false"), String::from("false"));

    // AND
    assert_eq!(interpret("true and true"), String::from("true"));
    assert_eq!(interpret("true and false"), String::from("false"));
    assert_eq!(interpret("false and true"), String::from("false"));
    assert_eq!(interpret("false and false"), String::from("false"));

    // NOT
    assert_eq!(interpret("not true"), String::from("false"));
    assert_eq!(interpret("not false"), String::from("true"));
}

#[test]
#[should_panic]
fn invalid_operations_with_booleans() {

    let operands = vec!("+", "-", "*", "/");

    for op in operands {
        // with integers
        interpret(&format!("1 {} true", op));
        interpret(&format!("1 {} false", op));
        interpret(&format!("true {} 1", op));
        interpret(&format!("false {} 1", op));

        // with Floats
        interpret(&format!("1.0 {} true", op));
        interpret(&format!("1.0 {} false", op));
        interpret(&format!("true {} 1.0", op));
        interpret(&format!("false {} 1.0", op));

        // with boolean
        interpret(&format!("true {} true", op));
        interpret(&format!("true {} false", op));
        interpret(&format!("false {} true", op));
        interpret(&format!("false {} false", op));
    }
}

#[test]
#[should_panic]
fn invalid_logical_operations_with_numbers() {

    // OR and AND
    let operands = vec!("or", "and");
    for op in operands {
        // with integers and floats
        interpret(&format!("1 {} 1", op));
        interpret(&format!("1 {} 1.0", op));
        interpret(&format!("1.0 {} 1", op));
        interpret(&format!("1.0 {} 1.0", op));

        // with integers and Booleans
        interpret(&format!("1 {} true", op));
        interpret(&format!("1 {} false", op));
        interpret(&format!("true {} 1", op));
        interpret(&format!("false {} 1", op));

        // with Floats and Boolean
        interpret(&format!("1.0 {} true", op));
        interpret(&format!("1.0 {} false", op));
        interpret(&format!("true {} 1.0", op));
        interpret(&format!("false {} 1.0", op));
    }

    // NOT
    interpret("not 1");
    interpret("not 1.0");

}
