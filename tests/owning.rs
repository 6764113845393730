use protobuf_conversion::error::AbsorbError;
use protobuf_conversion::heavy::complex::{Complex, ComplexEnum, ComplexNested};
use protobuf_conversion::heavy::simple::Simple;
use protobuf_conversion::reflect::Reflect;
use protobuf_conversion::value::{Enum, Key, Message, Rule, Value};
use std::collections::HashMap;
use std::convert::TryFrom;

fn nested_message(fields: Vec<Option<Value>>) -> Message {
    Message { fields }
}

fn complex_message(slot0: Option<Value>, slot1: Option<Value>, slot2: Option<Value>) -> Message {
    Message { fields: vec![slot0, slot1, slot2] }
}

#[test]
fn single_bool_decomposes_to_one_singular_slot() {
    let m: Message = Simple { simple_bool: true }.into();
    assert_eq!(m, Message { fields: vec![Some(Value::Bool(Rule::Singular(true)))] });
}

#[test]
fn empty_message_against_one_field_schema() {
    let r = Simple::try_from(Message { fields: vec![] });
    assert_eq!(r.err(), Some(AbsorbError::InvalidLength { expected: 1, actual: 0 }));
}

#[test]
fn one_slot_against_three_field_schema() {
    let r = Complex::try_from(Message { fields: vec![Some(Value::Bool(Rule::Singular(true)))] });
    assert_eq!(r.err(), Some(AbsorbError::InvalidLength { expected: 3, actual: 1 }));
}

#[test]
fn undeclared_enum_number_is_rejected() {
    let m = complex_message(
        Some(Value::Enum(Rule::Singular(Enum { number: 99 }))),
        Some(Value::Bytes(Rule::Repeated(vec![]))),
        Some(Value::Message(Rule::Keyed(Key::I32(HashMap::new())))),
    );
    let r = Complex::try_from(m);
    assert_eq!(r.err(), Some(AbsorbError::InvalidEnum { name: "ComplexEnum".to_string(), value: 99 }));
}

#[test]
fn length_is_checked_before_slots() {
    let m = Message {
        fields: vec![
            Some(Value::Enum(Rule::Singular(Enum { number: 99 }))),
            Some(Value::Bytes(Rule::Repeated(vec![]))),
        ],
    };
    let r = Complex::try_from(m);
    assert_eq!(r.err(), Some(AbsorbError::InvalidLength { expected: 3, actual: 2 }));
}

#[test]
fn simple_round_trip() {
    for b in [false, true] {
        let back = Simple { simple_bool: b }.reflect().absorb().unwrap();
        assert_eq!(back.simple_bool, b);
    }
}

#[test]
fn complex_round_trip() {
    let mut map = HashMap::new();
    map.insert(1, ComplexNested { optional_string: Some("hello".to_string()) });
    map.insert(-7, ComplexNested { optional_string: None });
    let c = Complex {
        optional_enum: Some(ComplexEnum::Ten),
        repeated_bytes: vec![vec![1, 2, 3], vec![]],
        map_message: map,
    };
    let back: Complex = c.reflect().absorb().unwrap();
    assert_eq!(back.optional_enum, Some(ComplexEnum::Ten));
    assert_eq!(back.repeated_bytes, vec![vec![1u8, 2, 3], vec![]]);
    assert_eq!(back.map_message.len(), 2);
    assert_eq!(back.map_message[&1].optional_string, Some("hello".to_string()));
    assert_eq!(back.map_message[&-7].optional_string, None);
}

#[test]
fn default_complex_round_trip() {
    let back = Complex::new().reflect().absorb().unwrap();
    assert_eq!(back.optional_enum, None);
    assert!(back.repeated_bytes.is_empty());
    assert!(back.map_message.is_empty());
}

#[test]
fn complex_decomposes_in_declared_order() {
    let mut map = HashMap::new();
    map.insert(4, ComplexNested { optional_string: Some("x".to_string()) });
    let c = Complex { optional_enum: Some(ComplexEnum::Two), repeated_bytes: vec![vec![9]], map_message: map };
    let m = c.into_message();
    let mut expected_map = HashMap::new();
    expected_map.insert(4, nested_message(vec![Some(Value::String(Rule::Singular("x".to_string())))]));
    assert_eq!(
        m,
        complex_message(
            Some(Value::Enum(Rule::Singular(Enum { number: 2 }))),
            Some(Value::Bytes(Rule::Repeated(vec![vec![9]]))),
            Some(Value::Message(Rule::Keyed(Key::I32(expected_map)))),
        )
    );
}

#[test]
fn unset_enum_decomposes_to_absent_slot() {
    let m = Complex::new().into_message();
    assert_eq!(m.fields.len(), 3);
    assert!(m.fields[0].is_none());
}

#[test]
fn tag_mismatch_names_the_field() {
    let m = complex_message(
        None,
        Some(Value::Bool(Rule::Singular(true))),
        Some(Value::Message(Rule::Keyed(Key::I32(HashMap::new())))),
    );
    assert_eq!(
        Complex::try_from(m).err(),
        Some(AbsorbError::InvalidType {
            name: "repeated_bytes".to_string(),
            ty: "Value::Bool(Rule::Singular())".to_string(),
        })
    );
    let m = complex_message(Some(Value::Enum(Rule::Repeated(vec![]))), None, None);
    assert_eq!(
        Complex::try_from(m).err(),
        Some(AbsorbError::InvalidType {
            name: "optional_enum".to_string(),
            ty: "Value::Enum(Rule::Repeated())".to_string(),
        })
    );
    let m = complex_message(None, None, Some(Value::Message(Rule::Keyed(Key::U64(HashMap::new())))));
    assert_eq!(
        Complex::try_from(m).err(),
        Some(AbsorbError::InvalidType {
            name: "map_message".to_string(),
            ty: "Value::Message(Rule::Map(Key::U64))".to_string(),
        })
    );
    let m = Message { fields: vec![Some(Value::I32(Rule::Singular(1)))] };
    assert_eq!(
        Simple::try_from(m).err(),
        Some(AbsorbError::InvalidType {
            name: "simple_bool".to_string(),
            ty: "Value::I32(Rule::Singular())".to_string(),
        })
    );
}

#[test]
fn mandatory_slot_omitted() {
    let r = Simple::try_from(Message { fields: vec![None] });
    assert_eq!(r.err(), Some(AbsorbError::TypeNotOptional { name: "simple_bool".to_string() }));
}

#[test]
fn omitted_collections_read_as_empty() {
    let c = Complex::try_from(complex_message(None, None, None)).unwrap();
    assert_eq!(c.optional_enum, None);
    assert!(c.repeated_bytes.is_empty());
    assert!(c.map_message.is_empty());
}

#[test]
fn invalid_map_entry_fails_whole_message() {
    let mut map = HashMap::new();
    map.insert(1, nested_message(vec![Some(Value::String(Rule::Singular("ok".to_string())))]));
    map.insert(2, nested_message(vec![None, None]));
    let m = complex_message(None, None, Some(Value::Message(Rule::Keyed(Key::I32(map)))));
    assert_eq!(Complex::try_from(m).err(), Some(AbsorbError::InvalidLength { expected: 1, actual: 2 }));
}

#[test]
fn least_invalid_map_key_decides_the_error() {
    let mut map = HashMap::new();
    map.insert(5, nested_message(vec![None, None]));
    map.insert(3, nested_message(vec![Some(Value::U32(Rule::Singular(1)))]));
    map.insert(-1, nested_message(vec![None]));
    let m = complex_message(None, None, Some(Value::Message(Rule::Keyed(Key::I32(map)))));
    assert_eq!(
        Complex::try_from(m).err(),
        Some(AbsorbError::InvalidType {
            name: "optional_string".to_string(),
            ty: "Value::U32(Rule::Singular())".to_string(),
        })
    );
}

#[test]
fn nested_round_trip_and_errors() {
    let back = ComplexNested::try_from(Message::from(ComplexNested { optional_string: Some("a".to_string()) })).unwrap();
    assert_eq!(back.optional_string, Some("a".to_string()));
    let back = ComplexNested::try_from(Message::from(ComplexNested::new())).unwrap();
    assert_eq!(back.optional_string, None);
    let r = ComplexNested::try_from(Message { fields: vec![] });
    assert_eq!(r.err(), Some(AbsorbError::InvalidLength { expected: 1, actual: 0 }));
}

#[test]
fn enum_numbers() {
    assert_eq!(ComplexEnum::new(1), Some(ComplexEnum::One));
    assert_eq!(ComplexEnum::new(2), Some(ComplexEnum::Two));
    assert_eq!(ComplexEnum::new(10), Some(ComplexEnum::Ten));
    assert_eq!(ComplexEnum::new(3), None);
    assert_eq!(ComplexEnum::new(0), None);
    assert_eq!(ComplexEnum::default(), ComplexEnum::One);
    assert_eq!(Enum::from(ComplexEnum::Ten), Enum { number: 10 });
    assert_eq!(ComplexEnum::Two.number(), 2);
}

#[test]
fn defaults_are_empty() {
    assert!(!Simple::default().simple_bool);
    assert!(!Simple::new().simple_bool);
    assert_eq!(ComplexNested::default().optional_string, None);
    let c = Complex::default();
    assert!(c.optional_enum.is_none() && c.repeated_bytes.is_empty() && c.map_message.is_empty());
}
