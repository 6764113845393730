//! Inert descriptions of schemas, as a generator emits them; nothing here
//! runs against them.
use vstd::prelude::*;

verus! {

#[derive(Debug)]
pub struct MessageDescriptor {
    pub name: &'static str,
    pub fields: &'static [FieldDescriptor],
}

#[derive(Debug)]
pub struct FieldDescriptor {
    pub ty: Type,
    pub label: Label,
}

/// The field types of the wire format, in the order of their numbers (from 1).
#[derive(Debug)]
pub enum Type {
    Double,
    Float,
    Int64,
    UInt64,
    Int32,
    Fixed64,
    Fixed32,
    Bool,
    String,
    Group,
    Message,
    Bytes,
    UInt32,
    Enum,
    SFixed64,
    SFixed32,
    SInt32,
    SInt64,
}

/// The cardinality labels of the wire format, in the order of their numbers (from 1).
#[derive(Debug)]
pub enum Label {
    Optional,
    Required,
    Repeated,
}

#[derive(Debug)]
pub struct EnumDescriptor {
    pub values: &'static [i32],
}

} // verus!
