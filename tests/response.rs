use cqi_rs::codec::DecodeError;
use cqi_rs::cqi_consts::{Expect, ResponseType, COMMANDS, CL_ERROR, CQP_ERROR, DATA, ERROR, STATUS};
use cqi_rs::dispatch::{encode_request, encode_values, is_expected_reply, RequestError};
use cqi_rs::inbox::Inbox;
use cqi_rs::response::{classify, decode_reply, Reply, Response};
use cqi_rs::value::{Shape, Value};

#[test]
fn classify_known_words() {
    assert_eq!(classify(0x0101), Response::Status(STATUS::OK));
    assert_eq!(classify(0x0304), Response::Data(DATA::STRING));
    assert_eq!(DATA::STRING.shape(), Shape::String);
    assert_eq!(classify(0x0202), Response::Error(ERROR::CONNECT_REFUSED));
    assert_eq!(classify(0x0403), Response::ClError(CL_ERROR::OUT_OF_RANGE));
    assert_eq!(classify(0x0504), Response::CqpError(CQP_ERROR::OUT_OF_RANGE));
    assert_eq!(classify(0x030B), Response::Data(DATA::INT_TABLE));
    assert_eq!(classify(0x0101).category(), Some(ResponseType::STATUS));
}

#[test]
fn classify_unknown_words() {
    for low in [0x00u16, 0x01, 0x04, 0xff] {
        assert_eq!(classify(0x0900 | low), Response::Unclassified(0x0900 | low));
    }
    assert_eq!(classify(0x0000), Response::Unclassified(0x0000));
    assert_eq!(classify(0x0105), Response::Unclassified(0x0105));
    assert_eq!(classify(0x030C), Response::Unclassified(0x030C));
    assert_eq!(classify(0x0105).category(), None);
    assert_eq!(classify(0x0105).word(), 0x0105);
}

#[test]
fn codes_round_trip() {
    assert_eq!(STATUS::from_u16(STATUS::PING_OK.code()), Some(STATUS::PING_OK));
    assert_eq!(COMMANDS::from_u16(0x1405), Some(COMMANDS::CL_ID2STR));
    assert_eq!(COMMANDS::CL_CPOS2LBOUND.code(), 0x1420);
    assert_eq!(COMMANDS::from_name("CQP_FDIST_2"), Some(COMMANDS::CQP_FDIST_2));
    assert_eq!(COMMANDS::from_name("cqp_fdist_2"), None);
    assert_eq!(COMMANDS::CTRL_PING.name(), "CTRL_PING");
    assert_eq!(ResponseType::from_u8(3), Some(ResponseType::DATA));
    assert_eq!(ResponseType::from_u8(6), None);
}

#[test]
fn connect_request_and_replies() {
    let args = vec![Value::String("test".to_string()), Value::String("ficken23".to_string())];
    let bytes = encode_request(COMMANDS::CTRL_CONNECT, &args).unwrap();
    let mut expected = vec![0x11, 0x01, 0, 4];
    expected.extend_from_slice(b"test");
    expected.extend_from_slice(&[0, 8]);
    expected.extend_from_slice(b"ficken23");
    assert_eq!(bytes, expected);

    let ok = decode_reply(&[0x01, 0x02]).unwrap();
    assert_eq!(ok, (Reply::Status(STATUS::CONNECT_OK), 2));
    assert!(is_expected_reply(COMMANDS::CTRL_CONNECT, &ok.0));
    let refused = decode_reply(&[0x02, 0x02]).unwrap();
    assert_eq!(refused, (Reply::Error(ERROR::CONNECT_REFUSED), 2));
    assert!(!is_expected_reply(COMMANDS::CTRL_CONNECT, &refused.0));
}

#[test]
fn id2str_request_and_reply() {
    let args = vec![Value::String("attribute".to_string()), Value::IntList(vec![0, 1, 2])];
    let bytes = encode_request(COMMANDS::CL_ID2STR, &args).unwrap();
    let mut expected = vec![0x14, 0x05, 0, 9];
    expected.extend_from_slice(b"attribute");
    expected.extend_from_slice(&[0, 0, 0, 3, 0, 0, 0, 0, 0, 0, 0, 1, 0, 0, 0, 2]);
    assert_eq!(bytes, expected);
    assert_eq!(COMMANDS::CL_ID2STR.expect(), Expect::Data(DATA::STRING_LIST));

    let mut reply = vec![0x03, 0x08, 0, 0, 0, 3];
    for s in ["the", "", "Haus"] {
        reply.extend_from_slice(&(s.len() as u16).to_be_bytes());
        reply.extend_from_slice(s.as_bytes());
    }
    reply.push(0x42);
    let (r, used) = decode_reply(&reply).unwrap();
    assert_eq!(used, reply.len() - 1);
    assert!(is_expected_reply(COMMANDS::CL_ID2STR, &r));
    match r {
        Reply::Data(DATA::STRING_LIST, Value::StringList(xs)) => {
            assert_eq!(xs.len(), 3);
            assert_eq!(xs, vec!["the".to_string(), String::new(), "Haus".to_string()]);
        }
        other => panic!("unexpected {:?}", other),
    }
}

#[test]
fn reply_errors() {
    assert_eq!(decode_reply(&[0x03]), Err(DecodeError::Truncated));
    assert_eq!(decode_reply(&[0x03, 0x03, 0, 0]), Err(DecodeError::Truncated));
    assert_eq!(decode_reply(&[0x09, 0x01, 7]), Ok((Reply::Unclassified(0x0901), 2)));
    assert_eq!(decode_reply(&[0x03, 0x03, 0, 0, 0, 5]), Ok((Reply::Data(DATA::INT, Value::Int(5)), 6)));
}

#[test]
fn request_errors() {
    assert_eq!(encode_request(COMMANDS::CTRL_PING, &vec![Value::Byte(1)]), Err(RequestError::WrongArguments));
    assert_eq!(
        encode_request(COMMANDS::CL_ID2STR, &vec![Value::String("a".to_string()), Value::IntList(vec![]), Value::Int(1)]),
        Err(RequestError::WrongArguments)
    );
    assert_eq!(
        encode_request(COMMANDS::CL_ID2STR, &vec![Value::IntList(vec![]), Value::String("a".to_string())]),
        Err(RequestError::WrongArguments)
    );
    assert_eq!(
        encode_request(COMMANDS::CORPUS_INFO, &vec![Value::String("y".repeat(70_000))]),
        Err(RequestError::Unencodable)
    );
    assert_eq!(encode_request(COMMANDS::CTRL_PING, &vec![]), Ok(vec![0x11, 0x04]));
    assert_eq!(COMMANDS::CQP_DUMP_SUBCORPUS.args(), vec![Shape::String, Shape::Byte, Shape::Int, Shape::Int]);
}

#[test]
fn raw_values() {
    let vs = vec![Value::Word(0x1104), Value::Byte(3), Value::String("x".to_string())];
    assert_eq!(encode_values(&vs), Some(vec![0x11, 0x04, 3, 0, 1, b'x']));
    assert_eq!(encode_values(&vec![]), Some(vec![]));
    assert_eq!(encode_values(&vec![Value::String("z".repeat(66_000))]), None);
}

#[test]
fn inbox_waits_for_whole_values() {
    let mut inbox = Inbox::new();
    inbox.extend(&[0x03, 0x07, 0, 0]);
    assert_eq!(inbox.take_reply(), Ok(None));
    assert_eq!(inbox.pending(), &[0x03, 0x07, 0, 0]);
    inbox.extend(&[0, 1, 0xff, 0xff, 0xff, 0xfe, 0x01]);
    assert_eq!(inbox.take_reply(), Ok(Some(Reply::Data(DATA::INT_LIST, Value::IntList(vec![-2])))));
    assert_eq!(inbox.pending(), &[0x01]);
    assert_eq!(inbox.take_value(Shape::Word), Ok(None));
    inbox.extend(&[0x04, 0x00, 0x01, 0xff]);
    assert_eq!(inbox.take_value(Shape::Word), Ok(Some(Value::Word(0x0104))));
    assert_eq!(inbox.take_value(Shape::String), Err(DecodeError::InvalidUtf8));
    assert_eq!(inbox.pending(), &[0x00, 0x01, 0xff]);
}

#[test]
fn every_code_classifies_as_itself() {
    for s in [STATUS::OK, STATUS::CONNECT_OK, STATUS::BYE_OK, STATUS::PING_OK] {
        assert_eq!(classify(s.code()), Response::Status(s));
    }
    for e in [ERROR::GENERAL_ERROR, ERROR::CONNECT_REFUSED, ERROR::USER_ABORT, ERROR::SYNTAX_ERROR] {
        assert_eq!(classify(e.code()), Response::Error(e));
    }
    let data = [
        DATA::BYTE,
        DATA::BOOL,
        DATA::INT,
        DATA::STRING,
        DATA::BYTE_LIST,
        DATA::BOOL_LIST,
        DATA::INT_LIST,
        DATA::STRING_LIST,
        DATA::INT_INT,
        DATA::INT_INT_INT_INT,
        DATA::INT_TABLE,
    ];
    for d in data {
        assert_eq!(classify(d.code()), Response::Data(d));
        assert_eq!(classify(d.code()).word(), d.code());
    }
    assert_eq!(DATA::INT_INT.shape(), Shape::IntPair);
    assert_eq!(DATA::INT_TABLE.shape(), Shape::IntTable);
    assert_eq!(classify(CL_ERROR::OUT_OF_MEMORY.code()), Response::ClError(CL_ERROR::OUT_OF_MEMORY));
    assert_eq!(classify(CQP_ERROR::GENERAL.code()), Response::CqpError(CQP_ERROR::GENERAL));
}
