//! `Simple` as a view over a message that always matches its schema.
use crate::error::AbsorbError;
use crate::heavy::simple::encodes_simple;
use crate::schema::{simple_error, validate_simple};
use crate::value::{Message, Rule, Value};
use vstd::prelude::*;

verus! {

/// A message with one mandatory bool, kept in its generic form.
#[derive(Debug)]
pub struct Simple {
    inner: Message,
}

impl Simple {
    /// The message that backs this value.
    pub closed spec fn message(&self) -> Message {
        self.inner
    }

    /// The backing message matches the schema of `Simple`.
    pub open spec fn wf(&self) -> bool {
        simple_error(self.message()) is None
    }

    pub fn new() -> (r: Self)
        ensures
            r.wf(),
            encodes_simple(r.message(), false),
    {
        Simple { inner: Message { fields: vec![Some(Value::Bool(Rule::Singular(false)))] } }
    }

    pub fn simple_bool(&self) -> (r: bool)
        requires
            self.wf(),
        ensures
            encodes_simple(self.message(), r),
    {
        match &self.inner.fields[0] {
            Some(Value::Bool(Rule::Singular(v))) => *v,
            _ => false,
        }
    }

    /// A mutable view of the bool, in place in its slot.
    pub fn simple_bool_mut(&mut self) -> (r: &mut bool)
        requires
            old(self).wf(),
        ensures
            encodes_simple(old(self).message(), *r),
            encodes_simple(final(self).message(), *final(r)),
    {
        let slot = match &mut self.inner.fields[0] {
            Some(Value::Bool(Rule::Singular(v))) => Some(v),
            _ => None,
        };
        slot.expect("a validated Simple holds a singular bool")
    }

    /// The backing message, unchanged.
    pub fn into_message(self) -> (m: Message)
        ensures
            m == self.message(),
    {
        self.inner
    }

    /// Accepts a message that matches the schema of `Simple`, without copying it.
    pub fn from_message(m: Message) -> (r: Result<Self, AbsorbError>)
        ensures
            match r {
                Ok(w) => simple_error(m) is None && w.message() == m,
                Err(e) => simple_error(m) == Some(e@),
            },
    {
        match validate_simple(&m) {
            Some(e) => Err(e),
            None => Ok(Simple { inner: m }),
        }
    }
}

impl Default for Simple {
    fn default() -> (r: Self)
        ensures
            r.wf(),
            encodes_simple(r.message(), false),
    {
        Simple::new()
    }
}

impl From<Simple> for Message {
    fn from(v: Simple) -> (m: Message)
        ensures
            m == v.message(),
    {
        v.into_message()
    }
}

impl vstd::std_specs::convert::FromSpecImpl<Simple> for Message {
    open spec fn obeys_from_spec() -> bool {
        true
    }

    open spec fn from_spec(v: Simple) -> Message {
        v.message()
    }
}

impl TryFrom<Message> for Simple {
    type Error = AbsorbError;

    fn try_from(m: Message) -> (r: Result<Self, AbsorbError>)
        ensures
            match r {
                Ok(w) => simple_error(m) is None && w.message() == m && w.wf(),
                Err(e) => simple_error(m) == Some(e@),
            },
    {
        Simple::from_message(m)
    }
}

impl vstd::std_specs::convert::TryFromSpecImpl<Message> for Simple {
    open spec fn obeys_try_from_spec() -> bool {
        false
    }

    open spec fn try_from_spec(m: Message) -> Result<Self, AbsorbError> {
        arbitrary()
    }
}

} // verus!
