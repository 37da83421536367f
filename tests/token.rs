use cqi_rs::token::{parse_command, parse_line, parse_num_type, parse_string, parse_token};
use cqi_rs::value::Value;

#[test]
fn command_tokens() {
    assert_eq!(parse_command("CTRL_PING"), Some(Value::Word(0x1104)));
    assert_eq!(parse_token("CL_ID2STR"), Some(Value::Word(0x1405)));
    assert_eq!(parse_command("PING"), None);
}

#[test]
fn number_tokens() {
    assert_eq!(parse_num_type("12"), Some(Value::Byte(12)));
    assert_eq!(parse_num_type("+12"), Some(Value::Byte(12)));
    assert_eq!(parse_num_type("255:byte"), Some(Value::Byte(255)));
    assert_eq!(parse_num_type("256"), None);
    assert_eq!(parse_num_type("0x1F:word"), Some(Value::Word(31)));
    assert_eq!(parse_num_type("0xffff:word"), Some(Value::Word(0xffff)));
    assert_eq!(parse_num_type("65536:word"), None);
    assert_eq!(parse_num_type("-5:int"), Some(Value::Int(-5)));
    assert_eq!(parse_num_type("-2147483648:int"), Some(Value::Int(i32::MIN)));
    assert_eq!(parse_num_type("2147483648:int"), None);
    assert_eq!(parse_num_type("0x7fffffff:int"), Some(Value::Int(i32::MAX)));
    assert_eq!(parse_num_type("-5"), None);
    assert_eq!(parse_num_type("5:long"), None);
    assert_eq!(parse_num_type("5:"), None);
    assert_eq!(parse_num_type("5:int:extra"), Some(Value::Int(5)));
    assert_eq!(parse_num_type("0x"), None);
    assert_eq!(parse_num_type("1a"), None);
    assert_eq!(parse_num_type(""), None);
}

#[test]
fn string_tokens() {
    assert_eq!(parse_string("\"abc\""), Some(Value::String("abc".to_string())));
    assert_eq!(parse_string("\"\""), Some(Value::String(String::new())));
    assert_eq!(parse_string("\"ü\""), Some(Value::String("ü".to_string())));
    assert_eq!(parse_string("\""), None);
    assert_eq!(parse_string("abc"), None);
    assert_eq!(parse_token("\"7\""), Some(Value::String("7".to_string())));
    assert_eq!(parse_token("7"), Some(Value::Byte(7)));
    assert_eq!(parse_token("nonsense"), None);
}

#[test]
fn line_tokens() {
    assert_eq!(
        parse_line("  CTRL_CONNECT \"test\"\t\"ficken23\"  "),
        Some(vec![
            Value::Word(0x1101),
            Value::String("test".to_string()),
            Value::String("ficken23".to_string()),
        ])
    );
    assert_eq!(parse_line(""), Some(vec![]));
    assert_eq!(parse_line("   "), Some(vec![]));
    assert_eq!(parse_line("CTRL_PING bogus"), None);
    assert_eq!(parse_line("3:int 0x10"), Some(vec![Value::Int(3), Value::Byte(16)]));
}
