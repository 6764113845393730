//! `Complex` and its nested message as views over messages that always match
//! their schemas.
use crate::error::{AbsorbError, ErrorModel};
use crate::schema::{
    complex_enum_declared, complex_error, lemma_nested_map_valid, nested_error,
    validate_complex, validate_complex_enum, validate_nested,
};
use crate::value::{Enum, Key, Message, Rule, Value};
use std::collections::HashMap;
use vstd::prelude::*;

verus! {

/// The declared variants of `ComplexEnum`.
#[derive(Debug, Clone, Copy, PartialEq, Eq, Structural)]
pub enum ComplexEnum {
    One,
    Two,
    Ten,
}

impl ComplexEnum {
    /// The number that stands for this variant in a message.
    pub open spec fn spec_number(self) -> i32 {
        match self {
            ComplexEnum::One => 1,
            ComplexEnum::Two => 2,
            ComplexEnum::Ten => 10,
        }
    }

    /// The variant of a number, or `None` where the number is not declared.
    pub fn new(number: i32) -> (r: Option<ComplexEnum>)
        ensures
            match r {
                Some(e) => complex_enum_declared(number) && e.spec_number() == number,
                None => !complex_enum_declared(number),
            },
    {
        match number {
            1 => Some(ComplexEnum::One),
            2 => Some(ComplexEnum::Two),
            10 => Some(ComplexEnum::Ten),
            _ => None,
        }
    }

    pub fn number(self) -> (r: i32)
        ensures
            r == self.spec_number(),
    {
        match self {
            ComplexEnum::One => 1,
            ComplexEnum::Two => 2,
            ComplexEnum::Ten => 10,
        }
    }

    /// `None` where the stored number is a declared variant, else `InvalidEnum`.
    pub fn validate(e: &Enum) -> (r: Option<AbsorbError>)
        ensures
            match r {
                None => complex_enum_declared(e.number),
                Some(err) => !complex_enum_declared(e.number) && err@ == (
                ErrorModel::InvalidEnum { name: "ComplexEnum"@, value: e.number }),
            },
    {
        validate_complex_enum(e)
    }
}

impl Default for ComplexEnum {
    fn default() -> (r: Self)
        ensures
            r == ComplexEnum::One,
    {
        ComplexEnum::One
    }
}

impl From<ComplexEnum> for Enum {
    fn from(e: ComplexEnum) -> Enum {
        Enum { number: e.number() }
    }
}

impl vstd::std_specs::convert::FromSpecImpl<ComplexEnum> for Enum {
    open spec fn obeys_from_spec() -> bool {
        true
    }

    open spec fn from_spec(e: ComplexEnum) -> Enum {
        Enum { number: e.spec_number() }
    }
}

/// The text held by a valid nested message: empty where the slot is absent.
pub open spec fn nested_text(m: Message) -> Seq<char> {
    match m.fields@[0] {
        Some(Value::String(Rule::Singular(s))) => s@,
        _ => Seq::empty(),
    }
}

/// A message with one optional string, kept in its generic form.
#[derive(Debug)]
pub struct ComplexNested {
    inner: Message,
}

impl ComplexNested {
    /// The message that backs this value.
    pub closed spec fn message(&self) -> Message {
        self.inner
    }

    /// The backing message matches the schema of `ComplexNested`.
    pub open spec fn wf(&self) -> bool {
        nested_error(self.message()) is None
    }

    pub fn new() -> (r: Self)
        ensures
            r.wf(),
            r.message().fields@ == seq![None::<Value>],
    {
        ComplexNested { inner: Message { fields: vec![None] } }
    }

    /// The string, or the empty string where it is unset.
    pub fn optional_string(&self) -> (r: &str)
        requires
            self.wf(),
        ensures
            r@ == nested_text(self.message()),
    {
        proof {
            reveal_strlit("");
        }
        match &self.inner.fields[0] {
            Some(Value::String(Rule::Singular(v))) => v.as_str(),
            _ => "",
        }
    }

    /// A mutable view of the string in place; an unset string is first set empty.
    pub fn optional_string_mut(&mut self) -> (r: &mut String)
        requires
            old(self).wf(),
        ensures
            r@ == nested_text(old(self).message()),
            final(self).message().fields@ == seq![Some(Value::String(Rule::Singular(*final(r))))],
            final(self).wf(),
    {
        if self.inner.fields[0].is_none() {
            self.inner.fields[0] = Some(Value::String(Rule::Singular(String::new())));
        }
        let slot = match &mut self.inner.fields[0] {
            Some(Value::String(Rule::Singular(v))) => Some(v),
            _ => None,
        };
        slot.expect("a validated ComplexNested holds a singular string")
    }

    /// Unsets the string, so that it reads as the empty string again.
    pub fn clear_optional_enum(&mut self)
        requires
            old(self).wf(),
        ensures
            final(self).wf(),
            final(self).message().fields@ == seq![None::<Value>],
    {
        self.inner.fields[0] = None;
    }

    pub fn has_optional_enum(&self) -> (r: bool)
        requires
            self.wf(),
        ensures
            r == self.message().fields@[0] is Some,
    {
        self.inner.fields[0].is_some()
    }

    /// The backing message, unchanged.
    pub fn into_message(self) -> (m: Message)
        ensures
            m == self.message(),
    {
        self.inner
    }

    /// Accepts a message that matches the schema of `ComplexNested`, without copying it.
    pub fn from_message(m: Message) -> (r: Result<Self, AbsorbError>)
        ensures
            match r {
                Ok(w) => nested_error(m) is None && w.message() == m && w.wf(),
                Err(e) => nested_error(m) == Some(e@),
            },
    {
        match validate_nested(&m) {
            Some(e) => Err(e),
            None => Ok(ComplexNested { inner: m }),
        }
    }
}

impl Default for ComplexNested {
    fn default() -> (r: Self)
        ensures
            r.wf(),
            r.message().fields@ == seq![None::<Value>],
    {
        ComplexNested::new()
    }
}

impl From<ComplexNested> for Message {
    fn from(v: ComplexNested) -> (m: Message)
        ensures
            m == v.message(),
    {
        v.into_message()
    }
}

impl vstd::std_specs::convert::FromSpecImpl<ComplexNested> for Message {
    open spec fn obeys_from_spec() -> bool {
        true
    }

    open spec fn from_spec(v: ComplexNested) -> Message {
        v.message()
    }
}

impl TryFrom<Message> for ComplexNested {
    type Error = AbsorbError;

    fn try_from(m: Message) -> (r: Result<Self, AbsorbError>)
        ensures
            match r {
                Ok(w) => nested_error(m) is None && w.message() == m && w.wf(),
                Err(e) => nested_error(m) == Some(e@),
            },
    {
        ComplexNested::from_message(m)
    }
}

impl vstd::std_specs::convert::TryFromSpecImpl<Message> for ComplexNested {
    open spec fn obeys_try_from_spec() -> bool {
        false
    }

    open spec fn try_from_spec(m: Message) -> Result<Self, AbsorbError> {
        arbitrary()
    }
}

/// The variant that a valid enum slot reads as: `One` where the slot is absent.
pub open spec fn enum_read(s: Option<Value>) -> ComplexEnum {
    match s {
        Some(Value::Enum(Rule::Singular(e))) => if e.number == 2 {
            ComplexEnum::Two
        } else if e.number == 10 {
            ComplexEnum::Ten
        } else {
            ComplexEnum::One
        },
        _ => ComplexEnum::One,
    }
}

/// `w` is `m` with its absent collection slots filled with empty collections.
pub open spec fn completes(w: Message, m: Message) -> bool {
    &&& w.fields.len() == 3
    &&& m.fields.len() == 3
    &&& w.fields@[0] == m.fields@[0]
    &&& if m.fields@[1] is Some {
        w.fields@[1] == m.fields@[1]
    } else {
        w.fields@[1] matches Some(Value::Bytes(Rule::Repeated(b))) && b@.len() == 0
    }
    &&& if m.fields@[2] is Some {
        w.fields@[2] == m.fields@[2]
    } else {
        w.fields@[2] matches Some(Value::Message(Rule::Keyed(Key::I32(h)))) && h@ == Map::<
            i32,
            Message,
        >::empty()
    }
}

/// A message with an optional enum, repeated bytes and a map of nested
/// messages, kept in its generic form with both collections present.
#[derive(Debug)]
pub struct Complex {
    inner: Message,
}

impl Complex {
    /// The message that backs this value.
    pub closed spec fn message(&self) -> Message {
        self.inner
    }

    /// The backing message matches the schema of `Complex`, and both
    /// collection slots are present.
    pub open spec fn wf(&self) -> bool {
        &&& complex_error(self.message()) is None
        &&& self.message().fields@[1] is Some
        &&& self.message().fields@[2] is Some
    }

    /// The bytes slot holds `b`.
    pub open spec fn holds_bytes(&self, b: Vec<Vec<u8>>) -> bool {
        self.message().fields@[1] == Some(Value::Bytes(Rule::Repeated(b)))
    }

    /// The map slot holds `h`.
    pub open spec fn holds_map(&self, h: HashMap<i32, Message>) -> bool {
        self.message().fields@[2] == Some(Value::Message(Rule::Keyed(Key::I32(h))))
    }

    /// The entries of the map slot.
    pub open spec fn map_entries(&self) -> Map<i32, Message> {
        match self.message().fields@[2] {
            Some(Value::Message(Rule::Keyed(Key::I32(h)))) => h@,
            _ => Map::empty(),
        }
    }

    pub fn new() -> (r: Self)
        ensures
            r.wf(),
            r.message().fields@[0] is None,
            r.message().fields@[1] matches Some(Value::Bytes(Rule::Repeated(b))) && b@.len() == 0,
            r.message().fields@[2] matches Some(Value::Message(Rule::Keyed(Key::I32(h)))) && h@
                == Map::<i32, Message>::empty(),
    {
        let r = Complex {
            inner: Message {
                fields: vec![
                    None,
                    Some(Value::Bytes(Rule::Repeated(Vec::new()))),
                    Some(Value::Message(Rule::Keyed(Key::I32(HashMap::new())))),
                ],
            },
        };
        proof {
            broadcast use vstd::std_specs::hash::group_hash_axioms;

            if let Some(Value::Message(Rule::Keyed(Key::I32(h)))) = r.inner.fields@[2] {
                lemma_nested_map_valid(h@);
            }
        }
        r
    }

    /// The enum, read in place: `One` where it is unset.
    pub fn optional_enum(&self) -> (r: ComplexEnum)
        requires
            self.wf(),
        ensures
            r == enum_read(self.message().fields@[0]),
            self.message().fields@[0] matches Some(Value::Enum(Rule::Singular(e))) ==> r.spec_number()
                == e.number,
    {
        match &self.inner.fields[0] {
            Some(Value::Enum(Rule::Singular(v))) => match ComplexEnum::new(v.number) {
                Some(e) => e,
                None => ComplexEnum::One,
            },
            _ => ComplexEnum::One,
        }
    }

    /// Writes the enum into its slot, which becomes present.
    pub fn optional_enum_mut(&mut self, value: ComplexEnum)
        requires
            old(self).wf(),
        ensures
            final(self).wf(),
            final(self).message().fields@ == old(self).message().fields@.update(
                0,
                Some(Value::Enum(Rule::Singular(Enum { number: value.spec_number() }))),
            ),
    {
        self.inner.fields[0] = Some(Value::Enum(Rule::Singular(value.into())));
    }

    /// Unsets the enum.
    pub fn clear_optional_enum(&mut self)
        requires
            old(self).wf(),
        ensures
            final(self).wf(),
            final(self).message().fields@ == old(self).message().fields@.update(0, None),
    {
        self.inner.fields[0] = None;
    }

    pub fn has_optional_enum(&self) -> (r: bool)
        requires
            self.wf(),
        ensures
            r == self.message().fields@[0] is Some,
    {
        self.inner.fields[0].is_some()
    }

    /// The repeated bytes, in place.
    pub fn repeated_bytes(&self) -> (r: &Vec<Vec<u8>>)
        requires
            self.wf(),
        ensures
            self.holds_bytes(*r),
    {
        let slot = match &self.inner.fields[1] {
            Some(Value::Bytes(Rule::Repeated(v))) => Some(v),
            _ => None,
        };
        slot.expect("a validated Complex holds repeated bytes")
    }

    /// A mutable view of the repeated bytes, in place.
    pub fn repeated_bytes_mut(&mut self) -> (r: &mut Vec<Vec<u8>>)
        requires
            old(self).wf(),
        ensures
            old(self).holds_bytes(*r),
            final(self).message().fields@ == old(self).message().fields@.update(
                1,
                Some(Value::Bytes(Rule::Repeated(*final(r)))),
            ),
            final(self).wf(),
    {
        let slot = match &mut self.inner.fields[1] {
            Some(Value::Bytes(Rule::Repeated(v))) => Some(v),
            _ => None,
        };
        slot.expect("a validated Complex holds repeated bytes")
    }

    /// The map of nested messages, in place; each of them is a valid `ComplexNested`.
    pub fn map_message(&self) -> (r: &HashMap<i32, Message>)
        requires
            self.wf(),
        ensures
            self.holds_map(*r),
            forall|k: i32| #[trigger] r@.contains_key(k) ==> nested_error(r@[k]) is None,
    {
        let slot = match &self.inner.fields[2] {
            Some(Value::Message(Rule::Keyed(Key::I32(v)))) => Some(v),
            _ => None,
        };
        let r = slot.expect("a validated Complex holds a map of nested messages");
        proof {
            broadcast use vstd::std_specs::hash::group_hash_axioms;

            lemma_nested_map_valid(r@);
        }
        r
    }

    /// Stores a nested message under `key`, giving back the one it replaces.
    pub fn map_message_mut(&mut self, key: i32, value: ComplexNested) -> (r: Option<ComplexNested>)
        requires
            old(self).wf(),
            value.wf(),
        ensures
            final(self).wf(),
            final(self).message().fields@[0] == old(self).message().fields@[0],
            final(self).message().fields@[1] == old(self).message().fields@[1],
            final(self).message().fields.len() == 3,
            final(self).map_entries() == old(self).map_entries().insert(key, value.message()),
            match r {
                Some(n) => old(self).map_entries().contains_key(key) && n.message() == old(
                    self,
                ).map_entries()[key] && n.wf(),
                None => !old(self).map_entries().contains_key(key),
            },
    {
        broadcast use vstd::std_specs::hash::group_hash_axioms;

        let slot = match &mut self.inner.fields[2] {
            Some(Value::Message(Rule::Keyed(Key::I32(v)))) => Some(v),
            _ => None,
        };
        let h = slot.expect("a validated Complex holds a map of nested messages");
        let ghost before = *h;
        proof {
            lemma_nested_map_valid(before@);
        }
        let replaced = h.insert(key, value.into_message());
        let ghost after = *h;
        proof {
            lemma_nested_map_valid(after@);
        }
        match replaced {
            Some(m) => Some(ComplexNested { inner: m }),
            None => None,
        }
    }

    /// Removes the nested message under `key`, giving it back.
    pub fn remove_map_message(&mut self, key: i32) -> (r: Option<ComplexNested>)
        requires
            old(self).wf(),
        ensures
            final(self).wf(),
            final(self).message().fields@[0] == old(self).message().fields@[0],
            final(self).message().fields@[1] == old(self).message().fields@[1],
            final(self).message().fields.len() == 3,
            final(self).map_entries() == old(self).map_entries().remove(key),
            match r {
                Some(n) => old(self).map_entries().contains_key(key) && n.message() == old(
                    self,
                ).map_entries()[key] && n.wf(),
                None => !old(self).map_entries().contains_key(key),
            },
    {
        broadcast use vstd::std_specs::hash::group_hash_axioms;

        let slot = match &mut self.inner.fields[2] {
            Some(Value::Message(Rule::Keyed(Key::I32(v)))) => Some(v),
            _ => None,
        };
        let h = slot.expect("a validated Complex holds a map of nested messages");
        let ghost before = *h;
        proof {
            lemma_nested_map_valid(before@);
        }
        let removed = h.remove(&key);
        let ghost after = *h;
        proof {
            lemma_nested_map_valid(after@);
        }
        match removed {
            Some(m) => Some(ComplexNested { inner: m }),
            None => None,
        }
    }

    /// The backing message, unchanged.
    pub fn into_message(self) -> (m: Message)
        ensures
            m == self.message(),
    {
        self.inner
    }

    /// Accepts a message that matches the schema of `Complex`, without copying
    /// its fields; absent collection slots are filled with empty collections.
    pub fn from_message(m: Message) -> (r: Result<Self, AbsorbError>)
        ensures
            match r {
                Ok(w) => complex_error(m) is None && completes(w.message(), m) && w.wf(),
                Err(e) => complex_error(m) == Some(e@),
            },
    {
        broadcast use vstd::std_specs::hash::group_hash_axioms;

        if let Some(e) = validate_complex(&m) {
            return Err(e);
        }
        let mut m = m;
        if m.fields[1].is_none() {
            m.fields[1] = Some(Value::Bytes(Rule::Repeated(Vec::new())));
        }
        if m.fields[2].is_none() {
            let h: HashMap<i32, Message> = HashMap::new();
            proof {
                lemma_nested_map_valid(h@);
            }
            m.fields[2] = Some(Value::Message(Rule::Keyed(Key::I32(h))));
        }
        Ok(Complex { inner: m })
    }
}

/// A valid `Complex`, decomposed and absorbed again, passes validation and
/// comes back with the same message.
pub proof fn lemma_light_complex_round_trip(v: Complex)
    requires
        v.wf(),
    ensures
        complex_error(v.message()) is None,
        forall|w: Message| completes(w, v.message()) ==> w.fields@ == v.message().fields@,
{
    assert forall|w: Message| completes(w, v.message()) implies w.fields@ == v.message().fields@ by {
        assert(w.fields@ =~= v.message().fields@);
    }
}

impl Default for Complex {
    fn default() -> (r: Self)
        ensures
            r.wf(),
            r.message().fields@[0] is None,
            r.message().fields@[1] matches Some(Value::Bytes(Rule::Repeated(b))) && b@.len() == 0,
            r.message().fields@[2] matches Some(Value::Message(Rule::Keyed(Key::I32(h)))) && h@
                == Map::<i32, Message>::empty(),
    {
        Complex::new()
    }
}

impl From<Complex> for Message {
    fn from(v: Complex) -> (m: Message)
        ensures
            m == v.message(),
    {
        v.into_message()
    }
}

impl vstd::std_specs::convert::FromSpecImpl<Complex> for Message {
    open spec fn obeys_from_spec() -> bool {
        true
    }

    open spec fn from_spec(v: Complex) -> Message {
        v.message()
    }
}

impl TryFrom<Message> for Complex {
    type Error = AbsorbError;

    fn try_from(m: Message) -> (r: Result<Self, AbsorbError>)
        ensures
            match r {
                Ok(w) => complex_error(m) is None && completes(w.message(), m) && w.wf(),
                Err(e) => complex_error(m) == Some(e@),
            },
    {
        Complex::from_message(m)
    }
}

impl vstd::std_specs::convert::TryFromSpecImpl<Message> for Complex {
    open spec fn obeys_try_from_spec() -> bool {
        false
    }

    open spec fn try_from_spec(m: Message) -> Result<Self, AbsorbError> {
        arbitrary()
    }
}

} // verus!
