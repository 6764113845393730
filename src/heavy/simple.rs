//! `Simple`, one mandatory bool, stored natively.
use crate::error::AbsorbError;
use crate::schema::{simple_error, validate_simple};
use crate::value::{Message, Rule, Value};
use vstd::prelude::*;

verus! {

/// `m` is the generic form of a `Simple` whose field holds `b`.
pub open spec fn encodes_simple(m: Message, b: bool) -> bool {
    &&& m.fields.len() == 1
    &&& m.fields@[0] == Some(Value::Bool(Rule::Singular(b)))
}

pub struct Simple {
    pub simple_bool: bool,
}

impl Simple {
    pub fn new() -> (r: Self)
        ensures
            r.simple_bool == false,
    {
        Simple { simple_bool: false }
    }

    /// Decomposes into one present slot holding the bool as a singular value.
    pub fn into_message(self) -> (m: Message)
        ensures
            encodes_simple(m, self.simple_bool),
    {
        Message { fields: vec![Some(Value::Bool(Rule::Singular(self.simple_bool)))] }
    }

    /// Absorbs a message after checking it against the schema of `Simple`.
    pub fn from_message(m: Message) -> (r: Result<Self, AbsorbError>)
        ensures
            match r {
                Ok(w) => simple_error(m) is None && encodes_simple(m, w.simple_bool),
                Err(e) => simple_error(m) == Some(e@),
            },
    {
        match validate_simple(&m) {
            Some(e) => Err(e),
            None => match &m.fields[0] {
                Some(Value::Bool(Rule::Singular(b))) => Ok(Simple { simple_bool: *b }),
                _ => Err(AbsorbError::not_optional("simple_bool")),
            },
        }
    }
}

/// Decomposing a `Simple` and absorbing the result succeeds and gives back
/// the same bool.
pub proof fn lemma_simple_round_trip(b: bool, m: Message)
    requires
        encodes_simple(m, b),
    ensures
        simple_error(m) is None,
        forall|c: bool| encodes_simple(m, c) ==> c == b,
{
}

impl Default for Simple {
    fn default() -> (r: Self)
        ensures
            r.simple_bool == false,
    {
        Simple::new()
    }
}

impl From<Simple> for Message {
    fn from(v: Simple) -> (m: Message)
        ensures
            encodes_simple(m, v.simple_bool),
    {
        v.into_message()
    }
}

impl vstd::std_specs::convert::FromSpecImpl<Simple> for Message {
    open spec fn obeys_from_spec() -> bool {
        false
    }

    open spec fn from_spec(v: Simple) -> Message {
        arbitrary()
    }
}

impl TryFrom<Message> for Simple {
    type Error = AbsorbError;

    fn try_from(m: Message) -> (r: Result<Self, AbsorbError>)
        ensures
            match r {
                Ok(w) => simple_error(m) is None && encodes_simple(m, w.simple_bool),
                Err(e) => simple_error(m) == Some(e@),
            },
    {
        Simple::from_message(m)
    }
}

impl vstd::std_specs::convert::TryFromSpecImpl<Message> for Simple {
    open spec fn obeys_try_from_spec() -> bool {
        false
    }

    open spec fn try_from_spec(m: Message) -> Result<Self, AbsorbError> {
        arbitrary()
    }
}

} // verus!
