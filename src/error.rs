//! The ways in which a message can fail to match a schema.
use crate::value::{value_tag, Enum, Value};
use vstd::prelude::*;

verus! {

/// Why a message could not be absorbed into a typed value.
#[derive(Debug, PartialEq, Eq)]
pub enum AbsorbError {
    /// A stored enum number is not a declared variant of the named enum.
    InvalidEnum { name: String, value: i32 },
    /// The message has `actual` slots where the schema declares `expected` fields.
    InvalidLength { expected: usize, actual: usize },
    /// A present slot holds a value whose tag `ty` is not the one field `name` declares.
    InvalidType { name: String, ty: String },
    /// A slot that the schema requires is absent.
    TypeNotOptional { name: String },
}

/// An [`AbsorbError`] with its texts as character sequences.
pub enum ErrorModel {
    InvalidEnum { name: Seq<char>, value: i32 },
    InvalidLength { expected: usize, actual: usize },
    InvalidType { name: Seq<char>, ty: Seq<char> },
    TypeNotOptional { name: Seq<char> },
}

impl View for AbsorbError {
    type V = ErrorModel;

    open spec fn view(&self) -> ErrorModel {
        match self {
            AbsorbError::InvalidEnum { name, value } => ErrorModel::InvalidEnum {
                name: name@,
                value: *value,
            },
            AbsorbError::InvalidLength { expected, actual } => ErrorModel::InvalidLength {
                expected: *expected,
                actual: *actual,
            },
            AbsorbError::InvalidType { name, ty } => ErrorModel::InvalidType {
                name: name@,
                ty: ty@,
            },
            AbsorbError::TypeNotOptional { name } => ErrorModel::TypeNotOptional { name: name@ },
        }
    }
}

/// The model of an optional error.
pub open spec fn error_view(e: Option<AbsorbError>) -> Option<ErrorModel> {
    match e {
        Some(e) => Some(e@),
        None => None,
    }
}

impl AbsorbError {
    pub fn invalid_enum(name: &str, enumeration: &Enum) -> (r: Self)
        ensures
            r@ == (ErrorModel::InvalidEnum { name: name@, value: enumeration.number }),
    {
        AbsorbError::InvalidEnum { name: name.to_owned(), value: enumeration.number }
    }

    pub fn invalid_length(expected: usize, actual: usize) -> (r: Self)
        ensures
            r@ == (ErrorModel::InvalidLength { expected, actual }),
    {
        AbsorbError::InvalidLength { expected, actual }
    }

    pub fn invalid_type(name: &str, value: &Value) -> (r: Self)
        ensures
            r@ == (ErrorModel::InvalidType { name: name@, ty: value_tag(*value) }),
    {
        AbsorbError::InvalidType { name: name.to_owned(), ty: value.type_string() }
    }

    pub fn not_optional(name: &str) -> (r: Self)
        ensures
            r@ == (ErrorModel::TypeNotOptional { name: name@ }),
    {
        AbsorbError::TypeNotOptional { name: name.to_owned() }
    }
}

} // verus!
