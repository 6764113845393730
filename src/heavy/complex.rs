//! `Complex` and its nested message, stored natively.
use crate::error::AbsorbError;
use crate::schema::{
    complex_enum_declared, complex_error, first_invalid, lemma_least_invalid_exists, nested_error,
    validate_complex, validate_nested,
};
use crate::value::{Enum, Key, Message, Rule, Value};
use std::collections::HashMap;
use vstd::prelude::*;
use vstd::std_specs::iter::IteratorSpec;

verus! {

/// The declared variants of `ComplexEnum`.
#[derive(Debug, Clone, Copy, PartialEq, Eq, Structural)]
pub enum ComplexEnum {
    One,
    Two,
    Ten,
}

impl ComplexEnum {
    /// The number that stands for this variant in a message.
    pub open spec fn spec_number(self) -> i32 {
        match self {
            ComplexEnum::One => 1,
            ComplexEnum::Two => 2,
            ComplexEnum::Ten => 10,
        }
    }

    /// The variant that a declared number stands for.
    pub open spec fn spec_of(number: i32) -> ComplexEnum {
        if number == 1 {
            ComplexEnum::One
        } else if number == 2 {
            ComplexEnum::Two
        } else {
            ComplexEnum::Ten
        }
    }

    /// The variant of a number, or `None` where the number is not declared.
    pub fn new(number: i32) -> (r: Option<ComplexEnum>)
        ensures
            match r {
                Some(e) => complex_enum_declared(number) && e.spec_number() == number,
                None => !complex_enum_declared(number),
            },
    {
        match number {
            1 => Some(ComplexEnum::One),
            2 => Some(ComplexEnum::Two),
            10 => Some(ComplexEnum::Ten),
            _ => None,
        }
    }

    pub fn number(self) -> (r: i32)
        ensures
            r == self.spec_number(),
    {
        match self {
            ComplexEnum::One => 1,
            ComplexEnum::Two => 2,
            ComplexEnum::Ten => 10,
        }
    }
}

impl Default for ComplexEnum {
    fn default() -> (r: Self)
        ensures
            r == ComplexEnum::One,
    {
        ComplexEnum::One
    }
}

impl From<ComplexEnum> for Enum {
    fn from(e: ComplexEnum) -> Enum {
        Enum { number: e.number() }
    }
}

impl vstd::std_specs::convert::FromSpecImpl<ComplexEnum> for Enum {
    open spec fn obeys_from_spec() -> bool {
        true
    }

    open spec fn from_spec(e: ComplexEnum) -> Enum {
        Enum { number: e.spec_number() }
    }
}

/// A message with one optional string.
pub struct ComplexNested {
    pub optional_string: Option<String>,
}

impl View for ComplexNested {
    type V = Option<Seq<char>>;

    open spec fn view(&self) -> Option<Seq<char>> {
        match self.optional_string {
            Some(s) => Some(s@),
            None => None,
        }
    }
}

/// `m` is the generic form of a `ComplexNested` whose string is `v`.
pub open spec fn encodes_nested(m: Message, v: Option<Seq<char>>) -> bool {
    &&& m.fields.len() == 1
    &&& match v {
        Some(t) => m.fields@[0] matches Some(Value::String(Rule::Singular(s))) && s@ == t,
        None => m.fields@[0] is None,
    }
}

/// What a `ComplexNested` read from `m` holds: an absent slot reads as unset.
pub open spec fn nested_model(m: Message) -> Option<Seq<char>> {
    match m.fields@[0] {
        Some(Value::String(Rule::Singular(s))) => Some(s@),
        _ => None,
    }
}

impl ComplexNested {
    pub fn new() -> (r: Self)
        ensures
            r@ is None,
    {
        ComplexNested { optional_string: None }
    }

    /// Decomposes into one slot, present only where the string is set.
    pub fn into_message(self) -> (m: Message)
        ensures
            encodes_nested(m, self@),
    {
        let slot = match self.optional_string {
            Some(s) => Some(Value::String(Rule::Singular(s))),
            None => None,
        };
        Message { fields: vec![slot] }
    }

    /// Absorbs a message after checking it against the schema of `ComplexNested`.
    pub fn from_message(m: Message) -> (r: Result<Self, AbsorbError>)
        ensures
            match r {
                Ok(w) => nested_error(m) is None && w@ == nested_model(m),
                Err(e) => nested_error(m) == Some(e@),
            },
    {
        match validate_nested(&m) {
            Some(e) => Err(e),
            None => Ok(nested_of(&m)),
        }
    }
}

/// Decomposing a `ComplexNested` gives a message that passes validation and
/// reads back as the same string.
pub proof fn lemma_nested_round_trip(v: Option<Seq<char>>, m: Message)
    requires
        encodes_nested(m, v),
    ensures
        nested_error(m) is None,
        nested_model(m) == v,
{
}

fn nested_of(m: &Message) -> (r: ComplexNested)
    requires
        m.fields.len() == 1,
    ensures
        r@ == nested_model(*m),
{
    match &m.fields[0] {
        Some(Value::String(Rule::Singular(s))) => ComplexNested { optional_string: Some(s.clone()) },
        _ => ComplexNested { optional_string: None },
    }
}

fn message_of_nested(n: &ComplexNested) -> (m: Message)
    ensures
        encodes_nested(m, n@),
{
    let slot = match &n.optional_string {
        Some(s) => Some(Value::String(Rule::Singular(s.clone()))),
        None => None,
    };
    Message { fields: vec![slot] }
}

impl Default for ComplexNested {
    fn default() -> (r: Self)
        ensures
            r@ is None,
    {
        ComplexNested::new()
    }
}

impl From<ComplexNested> for Message {
    fn from(v: ComplexNested) -> (m: Message)
        ensures
            encodes_nested(m, v@),
    {
        v.into_message()
    }
}

impl vstd::std_specs::convert::FromSpecImpl<ComplexNested> for Message {
    open spec fn obeys_from_spec() -> bool {
        false
    }

    open spec fn from_spec(v: ComplexNested) -> Message {
        arbitrary()
    }
}

impl TryFrom<Message> for ComplexNested {
    type Error = AbsorbError;

    fn try_from(m: Message) -> (r: Result<Self, AbsorbError>)
        ensures
            match r {
                Ok(w) => nested_error(m) is None && w@ == nested_model(m),
                Err(e) => nested_error(m) == Some(e@),
            },
    {
        ComplexNested::from_message(m)
    }
}

impl vstd::std_specs::convert::TryFromSpecImpl<Message> for ComplexNested {
    open spec fn obeys_try_from_spec() -> bool {
        false
    }

    open spec fn try_from_spec(m: Message) -> Result<Self, AbsorbError> {
        arbitrary()
    }
}

/// What a `Complex` holds, with texts and bytes as sequences.
pub struct ComplexModel {
    pub optional_enum: Option<ComplexEnum>,
    pub repeated_bytes: Seq<Seq<u8>>,
    pub map_message: Map<i32, Option<Seq<char>>>,
}

/// A message with an optional enum, repeated bytes and a map of nested messages.
pub struct Complex {
    pub optional_enum: Option<ComplexEnum>,
    pub repeated_bytes: Vec<Vec<u8>>,
    pub map_message: HashMap<i32, ComplexNested>,
}

pub open spec fn bytes_model(b: Seq<Vec<u8>>) -> Seq<Seq<u8>> {
    b.map_values(|x: Vec<u8>| x@)
}

impl View for Complex {
    type V = ComplexModel;

    open spec fn view(&self) -> ComplexModel {
        ComplexModel {
            optional_enum: self.optional_enum,
            repeated_bytes: bytes_model(self.repeated_bytes@),
            map_message: self.map_message@.map_values(|n: ComplexNested| n@),
        }
    }
}

/// The slot that holds an optional enum.
pub open spec fn enum_slot(e: Option<ComplexEnum>) -> Option<Value> {
    match e {
        Some(e) => Some(Value::Enum(Rule::Singular(Enum { number: e.spec_number() }))),
        None => None,
    }
}

/// `m` is the generic form of a `Complex` that holds `v`: the enum slot is
/// present only where the enum is set, the two collections are always present.
pub open spec fn encodes_complex(m: Message, v: ComplexModel) -> bool {
    &&& m.fields.len() == 3
    &&& m.fields@[0] == enum_slot(v.optional_enum)
    &&& m.fields@[1] matches Some(Value::Bytes(Rule::Repeated(b))) && bytes_model(b@)
        == v.repeated_bytes
    &&& m.fields@[2] matches Some(Value::Message(Rule::Keyed(Key::I32(h)))) && h@.dom()
        == v.map_message.dom() && (forall|k: i32| #[trigger]
        h@.contains_key(k) ==> encodes_nested(h@[k], v.map_message[k]))
}

/// What a `Complex` read from a valid `m` holds: absent collections read as empty.
pub open spec fn complex_model(m: Message) -> ComplexModel {
    ComplexModel {
        optional_enum: match m.fields@[0] {
            Some(Value::Enum(Rule::Singular(e))) => Some(ComplexEnum::spec_of(e.number)),
            _ => None,
        },
        repeated_bytes: match m.fields@[1] {
            Some(Value::Bytes(Rule::Repeated(b))) => bytes_model(b@),
            _ => Seq::empty(),
        },
        map_message: match m.fields@[2] {
            Some(Value::Message(Rule::Keyed(Key::I32(h)))) => h@.map_values(
                |n: Message| nested_model(n),
            ),
            _ => Map::empty(),
        },
    }
}

fn nested_map_of(h: &HashMap<i32, Message>) -> (r: HashMap<i32, ComplexNested>)
    requires
        forall|k: i32| #[trigger] h@.contains_key(k) ==> h@[k].fields.len() == 1,
    ensures
        r@.map_values(|n: ComplexNested| n@) == h@.map_values(|n: Message| nested_model(n)),
{
    broadcast use vstd::std_specs::hash::group_hash_axioms;

    let mut out: HashMap<i32, ComplexNested> = HashMap::new();
    let ghost s = h.iter().remaining();
    for (k, v) in it: h.iter()
        invariant
            it.seq() == s,
            forall|k: i32| h@.contains_key(k) ==> h@[k].fields.len() == 1,
            forall|j: i32|
                #![trigger out@.contains_key(j)]
                out@.contains_key(j) <==> exists|i: int| 0 <= i < it.index() && *s[i].0 == j,
            forall|j: i32| #[trigger]
                out@.contains_key(j) ==> h@.contains_key(j) && out@[j]@ == nested_model(h@[j]),
    {
        assert(h@.contains_key(*k) && h@[*k] == *v);
        out.insert(*k, nested_of(v));
    }
    proof {
        assert forall|j: i32| h@.contains_key(j) implies #[trigger] out@.contains_key(j) by {
            assert(s.contains((&j, &h@[j])));
        }
        assert(out@.map_values(|n: ComplexNested| n@) =~= h@.map_values(
            |n: Message| nested_model(n),
        ));
    }
    out
}

fn message_map_of(h: &HashMap<i32, ComplexNested>) -> (r: HashMap<i32, Message>)
    ensures
        r@.dom() == h@.dom(),
        forall|k: i32| #[trigger] r@.contains_key(k) ==> encodes_nested(r@[k], h@[k]@),
{
    broadcast use vstd::std_specs::hash::group_hash_axioms;

    let mut out: HashMap<i32, Message> = HashMap::new();
    let ghost s = h.iter().remaining();
    for (k, v) in it: h.iter()
        invariant
            it.seq() == s,
            forall|j: i32|
                #![trigger out@.contains_key(j)]
                out@.contains_key(j) <==> exists|i: int| 0 <= i < it.index() && *s[i].0 == j,
            forall|j: i32| #[trigger]
                out@.contains_key(j) ==> h@.contains_key(j) && encodes_nested(out@[j], h@[j]@),
    {
        assert(h@.contains_key(*k) && h@[*k] == *v);
        out.insert(*k, message_of_nested(v));
    }
    proof {
        assert forall|j: i32| h@.contains_key(j) implies #[trigger] out@.contains_key(j) by {
            assert(s.contains((&j, &h@[j])));
        }
        assert(out@.dom() =~= h@.dom());
    }
    out
}

impl Complex {
    pub fn new() -> (r: Self)
        ensures
            r@ == (ComplexModel {
                optional_enum: None,
                repeated_bytes: Seq::empty(),
                map_message: Map::empty(),
            }),
    {
        let r = Complex { optional_enum: None, repeated_bytes: Vec::new(), map_message: HashMap::new() };
        assert(r@.repeated_bytes =~= Seq::empty());
        assert(r@.map_message =~= Map::empty());
        r
    }

    /// Decomposes into three slots in declared order.
    pub fn into_message(self) -> (m: Message)
        ensures
            encodes_complex(m, self@),
    {
        let ghost v = self@;
        let slot0 = match self.optional_enum {
            Some(e) => Some(Value::Enum(Rule::Singular(Enum { number: e.number() }))),
            None => None,
        };
        let map = message_map_of(&self.map_message);
        let slot2 = Some(Value::Message(Rule::Keyed(Key::I32(map))));
        let slot1 = Some(Value::Bytes(Rule::Repeated(self.repeated_bytes)));
        let m = Message { fields: vec![slot0, slot1, slot2] };
        proof {
            assert(map@.dom() == v.map_message.dom());
            assert forall|k: i32| #[trigger] map@.contains_key(k) implies encodes_nested(
                map@[k],
                v.map_message[k],
            ) by {}
        }
        m
    }

    /// Absorbs a message after checking it against the schema of `Complex`.
    pub fn from_message(m: Message) -> (r: Result<Self, AbsorbError>)
        ensures
            match r {
                Ok(w) => complex_error(m) is None && w@ == complex_model(m),
                Err(e) => complex_error(m) == Some(e@),
            },
    {
        if let Some(e) = validate_complex(&m) {
            return Err(e);
        }
        let ghost g = m;
        let optional_enum = match &m.fields[0] {
            Some(Value::Enum(Rule::Singular(e))) => ComplexEnum::new(e.number),
            _ => None,
        };
        let map_message = match &m.fields[2] {
            Some(Value::Message(Rule::Keyed(Key::I32(h)))) => {
                proof {
                    assert forall|k: i32| #[trigger] h@.contains_key(k) implies h@[k].fields.len()
                        == 1 by {
                        if nested_error(h@[k]) is Some {
                            lemma_least_invalid_exists(h@, k);
                        }
                    }
                }
                nested_map_of(h)
            },
            _ => HashMap::new(),
        };
        let mut fields = m.fields;
        let _ = fields.pop();
        let slot1 = fields.pop();
        let repeated_bytes = match slot1 {
            Some(Some(Value::Bytes(Rule::Repeated(b)))) => b,
            _ => Vec::new(),
        };
        let w = Complex { optional_enum, repeated_bytes, map_message };
        proof {
            if !(g.fields@[1] is Some) {
                assert(bytes_model(w.repeated_bytes@) =~= Seq::empty());
            }
            if !(g.fields@[2] matches Some(Value::Message(Rule::Keyed(Key::I32(_))))) {
                assert(w@.map_message =~= Map::empty());
            }
        }
        Ok(w)
    }
}

/// Decomposing a `Complex` gives a message that passes validation and reads
/// back as the same value; so absorbing it returns `Ok` with an equal value.
pub proof fn lemma_complex_round_trip(v: ComplexModel, m: Message)
    requires
        encodes_complex(m, v),
    ensures
        complex_error(m) is None,
        complex_model(m) == v,
{
    broadcast use vstd::std_specs::hash::group_hash_axioms;

    if let Some(e) = v.optional_enum {
        assert(ComplexEnum::spec_of(e.spec_number()) == e);
    }
    if let Some(Value::Message(Rule::Keyed(Key::I32(h)))) = m.fields@[2] {
        assert forall|k: i32| h@.contains_key(k) implies (#[trigger] nested_error(h@[k])) is None
            && nested_model(h@[k]) == v.map_message[k] by {
            assert(encodes_nested(h@[k], v.map_message[k]));
        }
        assert(!exists|b: i32| first_invalid(h@, b));
        assert(h@.map_values(|n: Message| nested_model(n)) =~= v.map_message);
    }
}

/// An absent collection slot of a valid message reads as an empty collection.
pub proof fn lemma_omitted_collections_read_empty(m: Message)
    requires
        complex_error(m) is None,
    ensures
        m.fields@[1] is None ==> complex_model(m).repeated_bytes == Seq::<Seq<u8>>::empty(),
        m.fields@[2] is None ==> complex_model(m).map_message == Map::<i32, Option<Seq<char>>>::empty(),
{
}

impl Default for Complex {
    fn default() -> (r: Self)
        ensures
            r@ == (ComplexModel {
                optional_enum: None,
                repeated_bytes: Seq::empty(),
                map_message: Map::empty(),
            }),
    {
        Complex::new()
    }
}

impl From<Complex> for Message {
    fn from(v: Complex) -> (m: Message)
        ensures
            encodes_complex(m, v@),
    {
        v.into_message()
    }
}

impl vstd::std_specs::convert::FromSpecImpl<Complex> for Message {
    open spec fn obeys_from_spec() -> bool {
        false
    }

    open spec fn from_spec(v: Complex) -> Message {
        arbitrary()
    }
}

impl TryFrom<Message> for Complex {
    type Error = AbsorbError;

    fn try_from(m: Message) -> (r: Result<Self, AbsorbError>)
        ensures
            match r {
                Ok(w) => complex_error(m) is None && w@ == complex_model(m),
                Err(e) => complex_error(m) == Some(e@),
            },
    {
        Complex::from_message(m)
    }
}

impl vstd::std_specs::convert::TryFromSpecImpl<Message> for Complex {
    open spec fn obeys_try_from_spec() -> bool {
        false
    }

    open spec fn try_from_spec(m: Message) -> Result<Self, AbsorbError> {
        arbitrary()
    }
}

} // verus!
