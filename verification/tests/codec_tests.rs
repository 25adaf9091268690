use session_history::codec::{self, CodecError};
use session_history::value::Value;

fn round_trip(v: Value) -> Value {
    let bytes = codec::write(&v).expect("value should serialize");
    codec::read(&bytes).expect("written payload should read back")
}

#[test]
fn null_round_trips() {
    assert!(matches!(round_trip(Value::Null), Value::Null));
}

#[test]
fn undefined_round_trips() {
    assert!(matches!(round_trip(Value::Undefined), Value::Undefined));
}

#[test]
fn bools_round_trip() {
    assert!(matches!(round_trip(Value::Bool(true)), Value::Bool(true)));
    assert!(matches!(round_trip(Value::Bool(false)), Value::Bool(false)));
}

#[test]
fn ints_round_trip() {
    for i in [0i64, 1, -1, 42, i64::MAX, i64::MIN] {
        match round_trip(Value::Int(i)) {
            Value::Int(j) => assert_eq!(i, j),
            _ => panic!("wrong variant after round trip"),
        }
    }
}

#[test]
fn text_round_trips() {
    for s in ["", "hello", "snowman \u{2603} and beyond \u{1F600}"] {
        match round_trip(Value::Text(s.to_string())) {
            Value::Text(t) => assert_eq!(t, s),
            _ => panic!("wrong variant after round trip"),
        }
    }
}

#[test]
fn exact_bytes_of_simple_values() {
    assert_eq!(codec::write(&Value::Null).unwrap(), vec![0u8]);
    assert_eq!(codec::write(&Value::Undefined).unwrap(), vec![1u8]);
    assert_eq!(codec::write(&Value::Bool(false)).unwrap(), vec![2u8]);
    assert_eq!(codec::write(&Value::Bool(true)).unwrap(), vec![3u8]);
    assert_eq!(
        codec::write(&Value::Int(1)).unwrap(),
        vec![4u8, 0, 1, 0, 0, 0, 0, 0, 0, 0]
    );
    assert_eq!(
        codec::write(&Value::Int(-2)).unwrap(),
        vec![4u8, 1, 2, 0, 0, 0, 0, 0, 0, 0]
    );
    let text = codec::write(&Value::Text("A".to_string())).unwrap();
    assert_eq!(
        text,
        vec![5u8, 1, 0, 0, 0, 0, 0, 0, 0, 0x41, 0, 0, 0]
    );
}

#[test]
fn unserializable_value_is_refused() {
    assert!(matches!(
        codec::write(&Value::Unserializable),
        Err(CodecError::Unserializable)
    ));
}

#[test]
fn malformed_payloads_are_refused() {
    for bad in [
        vec![],
        vec![9u8],
        vec![0u8, 0],
        vec![4u8, 0, 1],
        vec![4u8, 2, 0, 0, 0, 0, 0, 0, 0, 0],
        vec![5u8, 1, 0, 0, 0, 0, 0, 0, 0],
        vec![5u8, 1, 0, 0, 0, 0, 0, 0, 0, 0, 0xd8, 0, 0],
    ] {
        assert!(matches!(codec::read(&bad), Err(CodecError::Malformed)));
    }
}

#[test]
fn surrogate_scalar_is_refused() {
    // 0xD800 is not a Unicode scalar value, so no text payload may hold it.
    let bad = vec![5u8, 1, 0, 0, 0, 0, 0, 0, 0, 0x00, 0xd8, 0x00, 0x00];
    assert!(matches!(codec::read(&bad), Err(CodecError::Malformed)));
}
