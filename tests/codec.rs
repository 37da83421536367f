use cqi_rs::codec::{decode_value, encode_value, DecodeError};
use cqi_rs::value::{IntTable, Shape, Value};

fn round_trip(v: Value) {
    assert!(v.is_encodable());
    let bytes = encode_value(&v);
    let (back, used) = decode_value(v.shape(), &bytes).unwrap();
    assert_eq!(used, bytes.len());
    assert_eq!(back, v);
}

#[test]
fn round_trip_scalars() {
    round_trip(Value::Bool(true));
    round_trip(Value::Bool(false));
    round_trip(Value::Byte(0xab));
    round_trip(Value::Word(0xbeef));
    round_trip(Value::Int(-123_456_789));
    round_trip(Value::Int(i32::MIN));
    round_trip(Value::IntPair(7, -7));
    round_trip(Value::IntQuad(1, -2, 3, i32::MAX));
}

#[test]
fn round_trip_strings() {
    round_trip(Value::String(String::new()));
    round_trip(Value::String("attribute".to_string()));
    round_trip(Value::String("Grüße, 世界".to_string()));
    round_trip(Value::StringList(vec![]));
    round_trip(Value::StringList(vec!["a".to_string(), String::new(), "ß".to_string()]));
}

#[test]
fn round_trip_lists() {
    round_trip(Value::BoolList(vec![]));
    round_trip(Value::BoolList(vec![true, false, true]));
    round_trip(Value::ByteList(vec![]));
    round_trip(Value::ByteList(vec![0, 1, 255]));
    round_trip(Value::IntList(vec![]));
    round_trip(Value::IntList(vec![0, -1, i32::MAX, i32::MIN]));
}

#[test]
fn round_trip_tables() {
    round_trip(Value::IntTable(IntTable::new(vec![]).unwrap()));
    round_trip(Value::IntTable(IntTable::with_cols(5, vec![]).unwrap()));
    round_trip(Value::IntTable(IntTable::new(vec![vec![1, 2, 3], vec![4, 5, 6]]).unwrap()));
    round_trip(Value::IntTable(IntTable::new(vec![vec![], vec![]]).unwrap()));
}

#[test]
fn int_list_keeps_length_and_order() {
    let xs: Vec<i32> = (0..50).map(|i| i * 37 - 900).collect();
    let bytes = encode_value(&Value::IntList(xs.clone()));
    assert_eq!(bytes.len(), 4 + 4 * 50);
    match decode_value(Shape::IntList, &bytes).unwrap() {
        (Value::IntList(ys), 204) => {
            assert_eq!(ys.len(), 50);
            assert_eq!(ys, xs);
        }
        other => panic!("unexpected {:?}", other),
    }
}

#[test]
fn ragged_table_is_rejected() {
    assert!(IntTable::new(vec![vec![1, 2], vec![3]]).is_none());
    assert!(IntTable::new(vec![vec![1], vec![2, 3]]).is_none());
    assert!(IntTable::with_cols(2, vec![vec![1, 2], vec![3, 4, 5]]).is_none());
    let t = IntTable::new(vec![vec![1, 2], vec![3, 4]]).unwrap();
    assert_eq!(t.cols(), 2);
    assert_eq!(t.rows(), &vec![vec![1, 2], vec![3, 4]]);
}

#[test]
fn exact_encodings() {
    assert_eq!(encode_value(&Value::Bool(true)), vec![1]);
    assert_eq!(encode_value(&Value::Word(0x1234)), vec![0x12, 0x34]);
    assert_eq!(encode_value(&Value::Int(-2)), vec![0xff, 0xff, 0xff, 0xfe]);
    assert_eq!(encode_value(&Value::Int(0x01020304)), vec![1, 2, 3, 4]);
    // the length is the UTF-8 byte length, not the character count
    assert_eq!(encode_value(&Value::String("é".to_string())), vec![0, 2, 0xc3, 0xa9]);
    assert_eq!(encode_value(&Value::BoolList(vec![true, false])), vec![0, 0, 0, 2, 1, 0]);
    assert_eq!(
        encode_value(&Value::IntPair(1, -1)),
        vec![0, 0, 0, 1, 0xff, 0xff, 0xff, 0xff]
    );
    let t = IntTable::new(vec![vec![1], vec![2]]).unwrap();
    assert_eq!(
        encode_value(&Value::IntTable(t)),
        vec![0, 0, 0, 2, 0, 0, 0, 1, 0, 0, 0, 1, 0, 0, 0, 2]
    );
}

#[test]
fn exact_decodings() {
    assert_eq!(decode_value(Shape::Word, &[0xab, 0xcd, 9]), Ok((Value::Word(0xabcd), 2)));
    assert_eq!(decode_value(Shape::Int, &[0x80, 0, 0, 0]), Ok((Value::Int(i32::MIN), 4)));
    assert_eq!(decode_value(Shape::Bool, &[7]), Ok((Value::Bool(true), 1)));
    assert_eq!(decode_value(Shape::Bool, &[0]), Ok((Value::Bool(false), 1)));
    assert_eq!(
        decode_value(Shape::String, &[0, 3, b'a', b'b', b'c', 0xff]),
        Ok((Value::String("abc".to_string()), 5))
    );
    let table = decode_value(Shape::IntTable, &[0, 0, 0, 0, 0, 0, 0, 5]).unwrap();
    assert_eq!(table, (Value::IntTable(IntTable::with_cols(5, vec![]).unwrap()), 8));
}

#[test]
fn long_declared_string_is_truncated() {
    assert_eq!(decode_value(Shape::String, &[0, 5, b'a', b'b']), Err(DecodeError::Truncated));
    assert_eq!(decode_value(Shape::String, &[0]), Err(DecodeError::Truncated));
    assert_eq!(decode_value(Shape::String, &[0xff, 0xff]), Err(DecodeError::Truncated));
}

#[test]
fn decode_errors() {
    assert_eq!(decode_value(Shape::String, &[0, 1, 0xff]), Err(DecodeError::InvalidUtf8));
    assert_eq!(decode_value(Shape::IntList, &[0xff, 0xff, 0xff, 0xff]), Err(DecodeError::NegativeCount));
    assert_eq!(decode_value(Shape::IntList, &[0, 0, 0, 2, 0, 0, 0, 1]), Err(DecodeError::Truncated));
    assert_eq!(decode_value(Shape::BoolList, &[0, 0, 0, 3, 1, 1]), Err(DecodeError::Truncated));
    assert_eq!(decode_value(Shape::ByteList, &[0, 0]), Err(DecodeError::Truncated));
    assert_eq!(decode_value(Shape::IntTable, &[0, 0, 0, 1, 0x80, 0, 0, 0]), Err(DecodeError::NegativeCount));
    assert_eq!(decode_value(Shape::IntTable, &[0, 0, 0, 1, 0, 0, 0, 1, 0, 0]), Err(DecodeError::Truncated));
    assert_eq!(decode_value(Shape::IntQuad, &[0; 15]), Err(DecodeError::Truncated));
    assert_eq!(decode_value(Shape::Word, &[1]), Err(DecodeError::Truncated));
    // the first problem in stream order is the one reported
    assert_eq!(
        decode_value(Shape::StringList, &[0, 0, 0, 2, 0, 1, 0xc3, 0, 9]),
        Err(DecodeError::InvalidUtf8)
    );
}

#[test]
fn unencodable_values() {
    let long = "x".repeat(70_000);
    assert!(!Value::String(long.clone()).is_encodable());
    assert!(!Value::StringList(vec!["ok".to_string(), long]).is_encodable());
    assert!(Value::String("x".repeat(65_535)).is_encodable());
}
