use protobuf_conversion::error::AbsorbError;
use protobuf_conversion::light::complex::{Complex, ComplexEnum, ComplexNested};
use protobuf_conversion::light::simple::Simple;
use protobuf_conversion::reflect::{Reflect, Reflection};
use protobuf_conversion::value::{Enum, Key, Message, Rule, Value};
use std::collections::HashMap;
use std::convert::TryFrom;

#[test]
fn simple_accessors() {
    let mut s = Simple::new();
    assert!(!s.simple_bool());
    *s.simple_bool_mut() = true;
    assert!(s.simple_bool());
    let m: Message = s.into();
    assert_eq!(m, Message { fields: vec![Some(Value::Bool(Rule::Singular(true)))] });
}

#[test]
fn simple_validation() {
    assert_eq!(
        Simple::try_from(Message { fields: vec![] }).err(),
        Some(AbsorbError::InvalidLength { expected: 1, actual: 0 })
    );
    assert_eq!(
        Simple::try_from(Message { fields: vec![None] }).err(),
        Some(AbsorbError::TypeNotOptional { name: "simple_bool".to_string() })
    );
    let s = Simple::try_from(Message { fields: vec![Some(Value::Bool(Rule::Singular(true)))] }).unwrap();
    assert!(s.simple_bool());
}

#[test]
fn light_enum_out_of_range() {
    let m = Message {
        fields: vec![
            Some(Value::Enum(Rule::Singular(Enum { number: 99 }))),
            Some(Value::Bytes(Rule::Repeated(vec![]))),
            Some(Value::Message(Rule::Keyed(Key::I32(HashMap::new())))),
        ],
    };
    assert_eq!(
        Complex::try_from(m).err(),
        Some(AbsorbError::InvalidEnum { name: "ComplexEnum".to_string(), value: 99 })
    );
    assert_eq!(
        ComplexEnum::validate(&Enum { number: 99 }),
        Some(AbsorbError::InvalidEnum { name: "ComplexEnum".to_string(), value: 99 })
    );
    assert_eq!(ComplexEnum::validate(&Enum { number: 2 }), None);
}

#[test]
fn light_length_checked_first() {
    let m = Message { fields: vec![Some(Value::Bool(Rule::Singular(true)))] };
    assert_eq!(Complex::try_from(m).err(), Some(AbsorbError::InvalidLength { expected: 3, actual: 1 }));
}

#[test]
fn complex_enum_accessors() {
    let mut c = Complex::new();
    assert!(!c.has_optional_enum());
    assert_eq!(c.optional_enum(), ComplexEnum::One);
    c.optional_enum_mut(ComplexEnum::Ten);
    assert!(c.has_optional_enum());
    assert_eq!(c.optional_enum(), ComplexEnum::Ten);
    c.clear_optional_enum();
    assert!(!c.has_optional_enum());
    assert_eq!(c.optional_enum(), ComplexEnum::default());
}

#[test]
fn complex_collection_accessors() {
    let mut c = Complex::default();
    assert!(c.repeated_bytes().is_empty());
    c.repeated_bytes_mut().push(vec![7, 8]);
    assert_eq!(c.repeated_bytes(), &vec![vec![7u8, 8]]);

    let mut n = ComplexNested::new();
    *n.optional_string_mut() = "hello".to_string();
    assert!(c.map_message_mut(1, n).is_none());
    let mut n = ComplexNested::new();
    *n.optional_string_mut() = "world".to_string();
    assert!(c.map_message_mut(2, n).is_none());
    let replaced = c.map_message_mut(1, ComplexNested::new()).unwrap();
    assert_eq!(replaced.optional_string(), "hello");

    let map = c.map_message();
    assert_eq!(map.len(), 2);
    assert_eq!(map[&2], Message { fields: vec![Some(Value::String(Rule::Singular("world".to_string())))] });
    assert_eq!(map[&1], Message { fields: vec![None] });
}

#[test]
fn nested_accessors() {
    let mut n = ComplexNested::default();
    assert_eq!(n.optional_string(), "");
    assert!(!n.has_optional_enum());
    n.clear_optional_enum();
    assert!(!n.has_optional_enum());
    n.optional_string_mut().push_str("abc");
    assert!(n.has_optional_enum());
    assert_eq!(n.optional_string(), "abc");
    n.clear_optional_enum();
    assert!(!n.has_optional_enum());
    assert_eq!(n.optional_string(), "");
    assert_eq!(Message::from(n), Message { fields: vec![None] });
}

#[test]
fn remove_map_entries() {
    let mut c = Complex::new();
    let mut n = ComplexNested::new();
    *n.optional_string_mut() = "kept".to_string();
    c.map_message_mut(4, n);
    c.map_message_mut(9, ComplexNested::new());
    assert!(c.remove_map_message(5).is_none());
    let removed = c.remove_map_message(4).unwrap();
    assert_eq!(removed.optional_string(), "kept");
    assert_eq!(c.map_message().len(), 1);
    assert!(c.map_message().contains_key(&9));
    assert!(c.remove_map_message(4).is_none());
}

#[test]
fn default_complex_has_empty_collections() {
    let c = Complex::default();
    let m: Message = c.into();
    assert_eq!(
        m,
        Message {
            fields: vec![
                None,
                Some(Value::Bytes(Rule::Repeated(vec![]))),
                Some(Value::Message(Rule::Keyed(Key::I32(HashMap::new())))),
            ]
        }
    );
}

#[test]
fn light_round_trip() {
    let mut c = Complex::new();
    c.optional_enum_mut(ComplexEnum::Two);
    c.repeated_bytes_mut().push(vec![1]);
    let mut n = ComplexNested::new();
    *n.optional_string_mut() = "x".to_string();
    c.map_message_mut(3, n);
    let before: Message = Message::from(Complex::try_from(Message::from(c)).unwrap());
    let back: Complex = Reflection::<Complex>::new(Complex::try_from(before).unwrap()).absorb().unwrap();
    assert_eq!(back.optional_enum(), ComplexEnum::Two);
    assert_eq!(back.repeated_bytes(), &vec![vec![1u8]]);
    assert_eq!(back.map_message().len(), 1);
    let s = Simple::new().reflect().absorb().unwrap();
    assert!(!s.simple_bool());
}

#[test]
fn light_fills_omitted_collections() {
    let c = Complex::try_from(Message { fields: vec![None, None, None] }).unwrap();
    assert!(c.repeated_bytes().is_empty());
    assert!(c.map_message().is_empty());
    let m: Message = c.into();
    assert_eq!(m.fields[1], Some(Value::Bytes(Rule::Repeated(vec![]))));
}

#[test]
fn light_invalid_map_entry() {
    let mut map = HashMap::new();
    map.insert(1, Message { fields: vec![Some(Value::Bool(Rule::Singular(true)))] });
    map.insert(2, Message { fields: vec![None] });
    let m = Message { fields: vec![None, None, Some(Value::Message(Rule::Keyed(Key::I32(map))))] };
    assert_eq!(
        Complex::try_from(m).err(),
        Some(AbsorbError::InvalidType {
            name: "optional_string".to_string(),
            ty: "Value::Bool(Rule::Singular())".to_string(),
        })
    );
}

#[test]
fn light_tag_mismatch() {
    let m = Message { fields: vec![Some(Value::String(Rule::Singular("s".to_string()))), None, None] };
    assert_eq!(
        Complex::try_from(m).err(),
        Some(AbsorbError::InvalidType {
            name: "optional_enum".to_string(),
            ty: "Value::String(Rule::Singular())".to_string(),
        })
    );
    assert_eq!(
        ComplexNested::try_from(Message { fields: vec![Some(Value::I64(Rule::Singular(4)))] }).err(),
        Some(AbsorbError::InvalidType {
            name: "optional_string".to_string(),
            ty: "Value::I64(Rule::Singular())".to_string(),
        })
    );
}
