//! The generic value model: tagged payloads under a cardinality, and messages
//! as ordered sequences of optional slots.
use std::collections::HashMap;
use vstd::prelude::*;
use vstd::string::StringExecFns;

verus! {

/// One field's payload: a scalar or message type under a cardinality [`Rule`].
#[derive(Debug, PartialEq)]
pub enum Value {
    Bool(Rule<bool>),
    Bytes(Rule<Vec<u8>>),
    Enum(Rule<Enum>),
    I32(Rule<i32>),
    I64(Rule<i64>),
    Message(Rule<Message>),
    String(Rule<String>),
    U32(Rule<u32>),
    U64(Rule<u64>),
}

/// The cardinality of a payload: one item, a sequence, or a keyed map.
#[derive(Debug, PartialEq)]
pub enum Rule<T> {
    Singular(T),
    Repeated(Vec<T>),
    Keyed(Key<T>),
}

/// A map payload, tagged by the type of its keys.
#[derive(Debug, PartialEq)]
pub enum Key<T> {
    Bool(HashMap<bool, T>),
    I32(HashMap<i32, T>),
    I64(HashMap<i64, T>),
    String(HashMap<String, T>),
    U32(HashMap<u32, T>),
    U64(HashMap<u64, T>),
}

/// A raw enum discriminant; whether it names a declared variant is for the
/// binding of a schema to decide.
#[derive(Debug, Clone, Copy, PartialEq, Eq)]
pub struct Enum {
    pub number: i32,
}

/// An ordered sequence of optional slots; a slot's index is its field's identity.
#[derive(Debug, PartialEq)]
pub struct Message {
    pub fields: Vec<Option<Value>>,
}

/// The tag text of a map key type.
pub open spec fn key_tag<T>(k: Key<T>) -> Seq<char> {
    match k {
        Key::Bool(_) => "Key::Bool"@,
        Key::I32(_) => "Key::I32"@,
        Key::I64(_) => "Key::I64"@,
        Key::String(_) => "Key::String"@,
        Key::U32(_) => "Key::U32"@,
        Key::U64(_) => "Key::U64"@,
    }
}

/// The tag text of a cardinality.
pub open spec fn rule_tag<T>(r: Rule<T>) -> Seq<char> {
    match r {
        Rule::Singular(_) => "Rule::Singular()"@,
        Rule::Repeated(_) => "Rule::Repeated()"@,
        Rule::Keyed(k) => "Rule::Map("@ + key_tag(k) + ")"@,
    }
}

/// The tag text of a value: its variant around the tag of its cardinality.
pub open spec fn value_tag(v: Value) -> Seq<char> {
    match v {
        Value::Bool(r) => "Value::Bool("@ + rule_tag(r) + ")"@,
        Value::Bytes(r) => "Value::Bytes("@ + rule_tag(r) + ")"@,
        Value::Enum(r) => "Value::Enum("@ + rule_tag(r) + ")"@,
        Value::I32(r) => "Value::I32("@ + rule_tag(r) + ")"@,
        Value::I64(r) => "Value::I64("@ + rule_tag(r) + ")"@,
        Value::Message(r) => "Value::Message("@ + rule_tag(r) + ")"@,
        Value::String(r) => "Value::String("@ + rule_tag(r) + ")"@,
        Value::U32(r) => "Value::U32("@ + rule_tag(r) + ")"@,
        Value::U64(r) => "Value::U64("@ + rule_tag(r) + ")"@,
    }
}

fn wrap_tag(prefix: &str, inner: String) -> (r: String)
    ensures
        r@ == prefix@ + inner@ + ")"@,
{
    prefix.to_owned().concat(inner.as_str()).concat(")")
}

impl Value {
    /// A readable tag path such as `Value::Enum(Rule::Singular())`, for diagnostics.
    pub fn type_string(&self) -> (r: String)
        ensures
            r@ == value_tag(*self),
    {
        match self {
            Value::Bool(v) => wrap_tag("Value::Bool(", v.type_string()),
            Value::Bytes(v) => wrap_tag("Value::Bytes(", v.type_string()),
            Value::Enum(v) => wrap_tag("Value::Enum(", v.type_string()),
            Value::I32(v) => wrap_tag("Value::I32(", v.type_string()),
            Value::I64(v) => wrap_tag("Value::I64(", v.type_string()),
            Value::Message(v) => wrap_tag("Value::Message(", v.type_string()),
            Value::String(v) => wrap_tag("Value::String(", v.type_string()),
            Value::U32(v) => wrap_tag("Value::U32(", v.type_string()),
            Value::U64(v) => wrap_tag("Value::U64(", v.type_string()),
        }
    }
}

impl<T> Rule<T> {
    /// The tag text of this cardinality, with the key type for a map.
    pub fn type_string(&self) -> (r: String)
        ensures
            r@ == rule_tag(*self),
    {
        match self {
            Rule::Singular(_) => "Rule::Singular()".to_owned(),
            Rule::Repeated(_) => "Rule::Repeated()".to_owned(),
            Rule::Keyed(v) => wrap_tag("Rule::Map(", v.type_string()),
        }
    }
}

impl<T> Key<T> {
    /// The tag text of this map's key type.
    pub fn type_string(&self) -> (r: String)
        ensures
            r@ == key_tag(*self),
    {
        match self {
            Key::Bool(_) => "Key::Bool".to_owned(),
            Key::I32(_) => "Key::I32".to_owned(),
            Key::I64(_) => "Key::I64".to_owned(),
            Key::String(_) => "Key::String".to_owned(),
            Key::U32(_) => "Key::U32".to_owned(),
            Key::U64(_) => "Key::U64".to_owned(),
        }
    }
}

} // verus!
