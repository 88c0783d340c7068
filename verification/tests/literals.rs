use leo_compiler::ast;
use leo_compiler::literal::{parse_bool, parse_unsigned};
use leo_compiler::types::{Expression, Integer};

fn s(text: &str) -> String {
    text.to_string()
}

#[test]
fn unsigned_plain_digits() {
    assert_eq!(parse_unsigned(&s("42"), u32::MAX as u64), Some(42));
    assert_eq!(parse_unsigned(&s("0"), u32::MAX as u64), Some(0));
    assert_eq!(parse_unsigned(&s("007"), u32::MAX as u64), Some(7));
}

#[test]
fn unsigned_leading_plus() {
    assert_eq!(parse_unsigned(&s("+7"), u32::MAX as u64), Some(7));
    assert_eq!(parse_unsigned(&s("+"), u32::MAX as u64), None);
    assert_eq!(parse_unsigned(&s("++7"), u32::MAX as u64), None);
}

#[test]
fn unsigned_rejects_non_digits() {
    assert_eq!(parse_unsigned(&s(""), u32::MAX as u64), None);
    assert_eq!(parse_unsigned(&s("12a"), u32::MAX as u64), None);
    assert_eq!(parse_unsigned(&s("-1"), u32::MAX as u64), None);
    assert_eq!(parse_unsigned(&s(" 1"), u32::MAX as u64), None);
}

#[test]
fn unsigned_bounds() {
    assert_eq!(parse_unsigned(&s("4294967295"), u32::MAX as u64), Some(4294967295));
    assert_eq!(parse_unsigned(&s("4294967296"), u32::MAX as u64), None);
    assert_eq!(parse_unsigned(&s("18446744073709551615"), u64::MAX), Some(u64::MAX));
    assert_eq!(parse_unsigned(&s("18446744073709551616"), u64::MAX), None);
    assert_eq!(parse_unsigned(&s("99999999999999999999999"), u64::MAX), None);
}

#[test]
fn unsigned_agrees_with_str_parse() {
    for text in ["0", "1", "+12", "4294967295", "4294967296", "", "+", "x", "1_0", "0042"] {
        let expected = text.parse::<u32>().ok().map(|v| v as u64);
        assert_eq!(parse_unsigned(&s(text), u32::MAX as u64), expected, "{}", text);
    }
}

#[test]
fn booleans() {
    assert_eq!(parse_bool(&s("true")), Some(true));
    assert_eq!(parse_bool(&s("false")), Some(false));
    assert_eq!(parse_bool(&s("True")), None);
    assert_eq!(parse_bool(&s("")), None);
}

#[test]
fn get_count_reads_u32_literal() {
    let count = ast::Value::U32(ast::U32 { number: ast::Number { value: s("16") } });
    assert_eq!(Expression::<u64>::get_count(&count), 16);
}

#[test]
fn u32_literal_expression() {
    let literal = ast::U32 { number: ast::Number { value: s("12") } };
    assert_eq!(Expression::<u64>::from_u32(&literal), Expression::Integer(Integer::U32(12)));
}
