use gj_codec::indexed::{EncodeError, Field, IndexedSerializer};
use gj_codec::value::{decode_scalar, encode_value, Kind, Value};

fn chars(s: &str) -> Vec<char> {
    s.chars().collect()
}

fn encoded(v: &Value) -> String {
    encode_value(v).into_iter().collect()
}

// Documents the backend quirk: floats without decimal part are represented
// as integers.
#[test]
fn serialize_float_without_decimal_part_serializes_as_integer() {
    let mut serializer = IndexedSerializer::new(":", false);
    serializer
        .serialize_value(&Value::Float(format!("{}", 11.0f64)))
        .unwrap();
    assert_eq!("11", serializer.into_string());
}

#[test]
fn float_with_fraction_keeps_its_fraction() {
    let mut serializer = IndexedSerializer::new(":", false);
    serializer
        .serialize_value(&Value::Float(format!("{}", 11.5f64)))
        .unwrap();
    assert_eq!("11.5", serializer.into_string());
}

#[test]
fn booleans_encode_as_one_and_zero() {
    assert_eq!(encoded(&Value::Bool(true)), "1");
    assert_eq!(encoded(&Value::Bool(false)), "0");
}

#[test]
fn booleans_round_trip() {
    for v in [true, false] {
        let text = encode_value(&Value::Bool(v));
        match decode_scalar(&text, Kind::Bool, false) {
            Some(Value::Bool(b)) => assert_eq!(b, v),
            _ => panic!("boolean did not round-trip"),
        }
    }
}

#[test]
fn bool_decoder_rejects_other_tokens() {
    assert!(decode_scalar(&chars("true"), Kind::Bool, false).is_none());
    assert!(decode_scalar(&chars("2"), Kind::Bool, false).is_none());
    assert!(decode_scalar(&chars(""), Kind::Bool, false).is_none());
}

#[test]
fn integers_encode_as_plain_decimal() {
    assert_eq!(encoded(&Value::U64(0)), "0");
    assert_eq!(encoded(&Value::U64(18446744073709551615)), "18446744073709551615");
    assert_eq!(encoded(&Value::I64(-9223372036854775808)), "-9223372036854775808");
    assert_eq!(encoded(&Value::I32(-1)), "-1");
    assert_eq!(encoded(&Value::U8(255)), "255");
}

#[test]
fn integers_round_trip() {
    let cases: Vec<(Value, Kind)> = vec![
        (Value::U8(0), Kind::U8),
        (Value::U8(255), Kind::U8),
        (Value::U16(65535), Kind::U16),
        (Value::U32(4294967295), Kind::U32),
        (Value::U64(18446744073709551615), Kind::U64),
        (Value::I8(-128), Kind::I8),
        (Value::I8(127), Kind::I8),
        (Value::I16(-32768), Kind::I16),
        (Value::I32(2147483647), Kind::I32),
        (Value::I64(-9223372036854775808), Kind::I64),
        (Value::I64(42), Kind::I64),
    ];
    for (v, k) in cases {
        let text = encode_value(&v);
        let back = decode_scalar(&text, k, false).expect("integer did not decode");
        assert_eq!(encoded(&back), encoded(&v));
    }
}

#[test]
fn integer_decoder_rejects_noncanonical_text() {
    assert!(decode_scalar(&chars("01"), Kind::U64, false).is_none());
    assert!(decode_scalar(&chars("-0"), Kind::I64, false).is_none());
    assert!(decode_scalar(&chars("+1"), Kind::I64, false).is_none());
    assert!(decode_scalar(&chars("1 "), Kind::U64, false).is_none());
    assert!(decode_scalar(&chars(""), Kind::U64, false).is_none());
    // one past the 64-bit maximum
    assert!(decode_scalar(&chars("18446744073709551616"), Kind::U64, false).is_none());
    // fits in 64 bits but not 8
    assert!(decode_scalar(&chars("256"), Kind::U8, false).is_none());
    assert!(decode_scalar(&chars("128"), Kind::I8, false).is_none());
}

#[test]
fn chars_and_strings_round_trip() {
    let text = encode_value(&Value::Char('ü'));
    match decode_scalar(&text, Kind::Char, false) {
        Some(Value::Char(c)) => assert_eq!(c, 'ü'),
        _ => panic!("char did not round-trip"),
    }
    let text = encode_value(&Value::Str("hello world".to_string()));
    match decode_scalar(&text, Kind::Str, false) {
        Some(Value::Str(s)) => assert_eq!(s, "hello world"),
        _ => panic!("string did not round-trip"),
    }
}

#[test]
fn byte_blobs_round_trip_through_url_safe_base64() {
    // lengths 1 and 2 need padding; 0xfb/0xef/0xbe exercise the URL-safe
    // alphabet characters
    let blobs: Vec<Vec<u8>> = vec![
        vec![],
        vec![0],
        vec![104, 105],
        vec![0xfb, 0xef, 0xbe],
        (0u8..=255).collect(),
    ];
    for blob in blobs {
        let text = encode_value(&Value::Bytes(blob.clone()));
        match decode_scalar(&text, Kind::Bytes, false) {
            Some(Value::Bytes(back)) => assert_eq!(back, blob),
            _ => panic!("byte blob did not round-trip"),
        }
    }
}

#[test]
fn byte_blobs_use_url_safe_alphabet_and_padding() {
    assert_eq!(encoded(&Value::Bytes(vec![104, 105])), "aGk=");
    assert_eq!(encoded(&Value::Bytes(vec![0xfb, 0xef, 0xbe])), "----");
}

#[test]
fn base64_decoder_rejects_garbage() {
    assert!(decode_scalar(&chars("not base64!"), Kind::Bytes, false).is_none());
}

#[test]
fn absent_optional_occupies_its_delimiter_slot() {
    let mut ser = IndexedSerializer::new(":", false);
    ser.serialize_value(&Value::Str("a".to_string())).unwrap();
    ser.serialize_value(&Value::Absent).unwrap();
    ser.serialize_value(&Value::Str("b".to_string())).unwrap();
    assert_eq!(ser.into_string(), "a::b");
}

#[test]
fn absent_optional_first_still_emits_its_slot() {
    let mut ser = IndexedSerializer::new(":", false);
    ser.serialize_value(&Value::Absent).unwrap();
    ser.serialize_value(&Value::Str("x".to_string())).unwrap();
    assert_eq!(ser.into_string(), ":x");
}

// An absent optional and a present-but-empty string both produce an empty
// field; only schema knowledge of optionality tells the decoder which one
// it was.
#[test]
fn empty_field_is_absent_or_empty_string_by_schema() {
    assert_eq!(
        encoded(&Value::Absent),
        encoded(&Value::Str(String::new()))
    );
    match decode_scalar(&chars(""), Kind::Str, false) {
        Some(Value::Str(s)) => assert_eq!(s, ""),
        _ => panic!("required empty string did not decode"),
    }
    match decode_scalar(&chars(""), Kind::Str, true) {
        Some(Value::Absent) => {}
        _ => panic!("optional empty field did not decode as absent"),
    }
}

#[test]
fn keyed_mode_prefixes_every_field_with_its_name() {
    let mut ser = IndexedSerializer::new("&", true);
    let fields = vec![
        Field {
            name: "alpha".to_string(),
            value: Value::U32(1),
        },
        Field {
            name: "beta".to_string(),
            value: Value::Str("x".to_string()),
        },
    ];
    ser.serialize_fields(&fields).unwrap();
    assert_eq!(ser.into_string(), "alpha&1&beta&x");
}

#[test]
fn positional_mode_emits_only_values() {
    let mut ser = IndexedSerializer::new(":", false);
    let fields = vec![
        Field {
            name: "alpha".to_string(),
            value: Value::U32(1),
        },
        Field {
            name: "beta".to_string(),
            value: Value::Str("x".to_string()),
        },
    ];
    ser.serialize_fields(&fields).unwrap();
    assert_eq!(ser.into_string(), "1:x");
}

#[test]
fn unsupported_constructs_fail_fast_by_name() {
    let ser = IndexedSerializer::new(":", false);
    let cases: Vec<(Result<(), EncodeError>, &str)> = vec![
        (ser.serialize_unit(), "serialize_unit"),
        (ser.serialize_unit_struct(), "serialize_unit_struct"),
        (ser.serialize_unit_variant(), "serialize_unit_variant"),
        (ser.serialize_newtype_struct(), "serialize_newtype_struct"),
        (ser.serialize_newtype_variant(), "serialize_newtype_variant"),
        (ser.serialize_seq(), "serialize_seq"),
        (ser.serialize_tuple(), "serialize_tuple"),
        (ser.serialize_tuple_struct(), "serialize_tuple_struct"),
        (ser.serialize_tuple_variant(), "serialize_tuple_variant"),
        (ser.serialize_map(), "serialize_map"),
        (ser.serialize_struct_variant(), "serialize_struct_variant"),
        (ser.collect_str(), "collect_str"),
    ];
    for (result, expected) in cases {
        match result {
            Err(EncodeError::Unsupported(name)) => assert_eq!(name, expected),
            Ok(()) => panic!("unsupported construct was accepted"),
        }
    }
}
