use embedded_ffi::cbor::{decode_vars, err_bytes, ok_cbor, vars_from_decoded};
use embedded_ffi::text::{cstr, decimal_string};

fn decode_map(bytes: &[u8]) -> serde_json::Value {
    serde_cbor::from_slice::<serde_json::Value>(bytes).expect("reply is CBOR")
}

#[test]
fn error_reply_short_message_bytes() {
    let bytes = err_bytes("hi");
    assert_eq!(bytes, vec![0xa1, 0x65, b'e', b'r', b'r', b'o', b'r', 0x62, b'h', b'i']);
}

#[test]
fn error_reply_empty_message_bytes() {
    let bytes = err_bytes("");
    assert_eq!(bytes, vec![0xa1, 0x65, b'e', b'r', b'r', b'o', b'r', 0x60]);
}

#[test]
fn error_reply_one_byte_length_head() {
    let msg = "x".repeat(24);
    let bytes = err_bytes(&msg);
    assert_eq!(&bytes[..9], &[0xa1, 0x65, b'e', b'r', b'r', b'o', b'r', 0x78, 24]);
    assert_eq!(bytes.len(), 9 + 24);
}

#[test]
fn error_reply_two_byte_length_head() {
    let msg = "y".repeat(300);
    let bytes = err_bytes(&msg);
    assert_eq!(&bytes[..10], &[0xa1, 0x65, b'e', b'r', b'r', b'o', b'r', 0x79, 0x01, 0x2c]);
    assert_eq!(bytes.len(), 10 + 300);
}

#[test]
fn error_reply_four_byte_length_head() {
    let msg = "z".repeat(70_000);
    let bytes = err_bytes(&msg);
    assert_eq!(&bytes[..12], &[0xa1, 0x65, b'e', b'r', b'r', b'o', b'r', 0x7a, 0x00, 0x01, 0x11, 0x70]);
    assert_eq!(bytes.len(), 12 + 70_000);
}

#[test]
fn error_reply_counts_utf8_bytes() {
    let bytes = err_bytes("é");
    assert_eq!(bytes, vec![0xa1, 0x65, b'e', b'r', b'r', b'o', b'r', 0x62, 0xc3, 0xa9]);
}

#[test]
fn error_reply_decodes_to_error_object() {
    let bytes = err_bytes("table not found");
    let value = decode_map(&bytes);
    let mut expected = serde_json::Map::new();
    expected.insert("error".to_string(), serde_json::Value::String("table not found".to_string()));
    assert_eq!(value, serde_json::Value::Object(expected));
}

#[test]
fn distinct_messages_give_distinct_replies() {
    assert_ne!(err_bytes("a"), err_bytes("b"));
    assert_ne!(err_bytes("a"), err_bytes("aa"));
    assert_ne!(err_bytes(&"x".repeat(23)), err_bytes(&"x".repeat(24)));
}

#[test]
fn ok_cbor_passes_encoded_bytes_through() {
    assert_eq!(ok_cbor(Ok(vec![0x83, 1, 2, 3])), vec![0x83, 1, 2, 3]);
}

#[test]
fn ok_cbor_reports_encoding_failure() {
    assert_eq!(ok_cbor(Err("boom".to_string())), err_bytes("CBOR encode error: boom"));
}

#[test]
fn cstr_null_pointer() {
    assert_eq!(cstr(None), Err("null string".to_string()));
}

#[test]
fn cstr_valid_text() {
    assert_eq!(cstr(Some(b"test_ns")), Ok("test_ns".to_string()));
    assert_eq!(cstr(Some(&[])), Ok(String::new()));
    assert_eq!(cstr(Some("naïve".as_bytes())), Ok("naïve".to_string()));
}

#[test]
fn cstr_invalid_utf8() {
    assert_eq!(
        cstr(Some(&[0x61, 0xff, 0x62])),
        Err("utf8 error: invalid utf-8 sequence of 1 bytes from index 1".to_string())
    );
    assert_eq!(
        cstr(Some(&[0x61, 0xe2, 0x82])),
        Err("utf8 error: incomplete utf-8 byte sequence from index 1".to_string())
    );
}

#[test]
fn cstr_rejects_surrogates_and_overlongs() {
    assert!(cstr(Some(&[0xed, 0xa0, 0x80])).is_err());
    assert!(cstr(Some(&[0xc0, 0x80])).is_err());
}

#[test]
fn decimal_rendering() {
    assert_eq!(decimal_string(0), "0");
    assert_eq!(decimal_string(7), "7");
    assert_eq!(decimal_string(10), "10");
    assert_eq!(decimal_string(407), "407");
    assert_eq!(decimal_string(usize::MAX), usize::MAX.to_string());
}

#[test]
fn decode_vars_absent_or_empty() {
    assert!(matches!(decode_vars(None), Ok(None)));
    assert!(matches!(decode_vars(Some(&[])), Ok(None)));
}

#[test]
fn decode_vars_map() {
    let mut obj = serde_json::Map::new();
    obj.insert("name".to_string(), serde_json::Value::String("tobie".to_string()));
    let expected = serde_json::Value::Object(obj);
    let bytes = serde_cbor::to_vec(&expected).unwrap();
    match decode_vars(Some(&bytes)) {
        Ok(Some(v)) => assert_eq!(v, expected),
        other => panic!("unexpected {:?}", other),
    }
}

#[test]
fn decode_vars_invalid() {
    let bytes = [0xa1u8, 0x65];
    let expected_text = serde_cbor::from_slice::<serde_json::Value>(&bytes).unwrap_err().to_string();
    match decode_vars(Some(&bytes)) {
        Err(m) => assert_eq!(m, format!("vars CBOR decode error: {}", expected_text)),
        other => panic!("unexpected {:?}", other),
    }
}

#[test]
fn vars_from_decoded_cases() {
    assert!(matches!(vars_from_decoded(Ok(serde_json::Value::Null)), Ok(Some(serde_json::Value::Null))));
    assert_eq!(
        vars_from_decoded(Err("EOF while parsing a value".to_string())).unwrap_err(),
        "vars CBOR decode error: EOF while parsing a value"
    );
}

#[test]
fn decode_vars_reads_exactly_the_given_bytes() {
    let buf = [0x01u8, 0x02];
    match decode_vars(Some(&buf[..1])) {
        Ok(Some(v)) => assert_eq!(v, serde_json::Value::from(1)),
        other => panic!("unexpected {:?}", other),
    }
    match decode_vars(Some(&buf[..2])) {
        Err(m) => assert!(m.starts_with("vars CBOR decode error: ")),
        other => panic!("unexpected {:?}", other),
    }
}
