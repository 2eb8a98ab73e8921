//! Value semantics: truthiness, equality, operators, numeric text, and
//! display forms.

use lox_eval::diag::ErrKind;
use lox_eval::numtext::i64_to_string;
use lox_eval::numtext::parse_number;
use lox_eval::token::TokenKind;
use lox_eval::value::Value;
use lox_eval::value::apply_binary_op;
use lox_eval::value::apply_unary_op;
use lox_eval::value::display_value;
use lox_eval::value::value_eq;

fn s(x: &str) -> String {
    x.to_string()
}

#[test]
fn truthiness_nil_and_false_are_falsy() {
    assert!(!Value::Nil.truth());
    assert!(!Value::Boolean(false).truth());
}

#[test]
fn truthiness_zero_empty_string_and_true_are_truthy() {
    assert!(Value::Number(0).truth());
    assert!(Value::String(s("")).truth());
    assert!(Value::Boolean(true).truth());
}

#[test]
fn equality_has_no_cross_type_coercion() {
    assert!(!value_eq(&Value::Number(1), &Value::String(s("1"))));
    assert!(value_eq(&Value::Number(1), &Value::Number(1)));
    assert!(!value_eq(&Value::Number(1), &Value::Number(2)));
    assert!(value_eq(&Value::Nil, &Value::Nil));
    assert!(!value_eq(&Value::Nil, &Value::Boolean(false)));
    assert!(value_eq(&Value::String(s("ab")), &Value::String(s("ab"))));
}

#[test]
fn plus_adds_numbers_and_concatenates_strings() {
    let r = apply_binary_op(TokenKind::Plus, &Value::Number(1), &Value::Number(1));
    assert!(matches!(r, Ok(Value::Number(2))));
    let r = apply_binary_op(TokenKind::Plus, &Value::String(s("a")), &Value::String(s("b")));
    match r {
        Ok(Value::String(x)) => assert_eq!(x.as_str(), "ab"),
        _ => panic!("expected a string"),
    }
    let r = apply_binary_op(TokenKind::Plus, &Value::Number(1), &Value::String(s("a")));
    assert!(matches!(r, Err(ErrKind::RuntimeType)));
}

#[test]
fn arithmetic_and_comparison_require_numbers() {
    let r = apply_binary_op(TokenKind::Star, &Value::Number(6), &Value::Number(7));
    assert!(matches!(r, Ok(Value::Number(42))));
    let r = apply_binary_op(TokenKind::Minus, &Value::Number(5), &Value::Number(8));
    assert!(matches!(r, Ok(Value::Number(-3))));
    let r = apply_binary_op(TokenKind::Slash, &Value::Number(10), &Value::Number(3));
    assert!(matches!(r, Ok(Value::Number(3))));
    let r = apply_binary_op(TokenKind::Slash, &Value::Number(1), &Value::Number(0));
    assert!(matches!(r, Err(ErrKind::DivisionByZero)));
    let r = apply_binary_op(TokenKind::Less, &Value::Number(1), &Value::Number(2));
    assert!(matches!(r, Ok(Value::Boolean(true))));
    let r = apply_binary_op(TokenKind::GreaterEqual, &Value::Number(1), &Value::Number(2));
    assert!(matches!(r, Ok(Value::Boolean(false))));
    let r = apply_binary_op(TokenKind::Star, &Value::String(s("x")), &Value::Number(2));
    assert!(matches!(r, Err(ErrKind::RuntimeType)));
}

#[test]
fn unary_operators() {
    let r = apply_unary_op(TokenKind::Minus, &Value::Number(5));
    assert!(matches!(r, Ok(Value::Number(-5))));
    let r = apply_unary_op(TokenKind::Minus, &Value::String(s("5")));
    assert!(matches!(r, Err(ErrKind::RuntimeType)));
    let r = apply_unary_op(TokenKind::Bang, &Value::Nil);
    assert!(matches!(r, Ok(Value::Boolean(true))));
    let r = apply_unary_op(TokenKind::Bang, &Value::Number(0));
    assert!(matches!(r, Ok(Value::Boolean(false))));
}

#[test]
fn parse_number_accepts_valid_numeric_text() {
    assert_eq!(parse_number("123"), Some(123));
    assert_eq!(parse_number("-5"), Some(-5));
    assert_eq!(parse_number("007"), Some(7));
    assert_eq!(parse_number("0"), Some(0));
    assert_eq!(parse_number("9223372036854775807"), Some(i64::MAX));
    assert_eq!(parse_number("-9223372036854775808"), Some(i64::MIN));
}

#[test]
fn parse_number_rejects_malformed_text() {
    assert_eq!(parse_number(""), None);
    assert_eq!(parse_number("-"), None);
    assert_eq!(parse_number("abc"), None);
    assert_eq!(parse_number("1.5"), None);
    assert_eq!(parse_number(" 1"), None);
    assert_eq!(parse_number("9223372036854775808"), None);
    assert_eq!(parse_number("-9223372036854775809"), None);
}

#[test]
fn numbers_render_in_decimal() {
    assert_eq!(i64_to_string(0).as_str(), "0");
    assert_eq!(i64_to_string(42).as_str(), "42");
    assert_eq!(i64_to_string(-42).as_str(), "-42");
    assert_eq!(i64_to_string(i64::MIN).as_str(), "-9223372036854775808");
}

#[test]
fn display_forms() {
    assert_eq!(display_value(&Value::Number(2)).as_str(), "2");
    assert_eq!(display_value(&Value::String(s("hi"))).as_str(), "hi");
    assert_eq!(display_value(&Value::Boolean(true)).as_str(), "true");
    assert_eq!(display_value(&Value::Boolean(false)).as_str(), "false");
    assert_eq!(display_value(&Value::Nil).as_str(), "NIL");
}
