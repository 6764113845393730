//! The schemas of the generated message types, and the validation walk that
//! both bindings run before they accept a message.
use crate::error::{error_view, AbsorbError, ErrorModel};
use crate::value::{value_tag, Enum, Key, Message, Rule, Value};
use std::collections::HashMap;
use vstd::prelude::*;
use vstd::std_specs::iter::IteratorSpec;

verus! {

/// The enum numbers that `ComplexEnum` declares.
pub open spec fn complex_enum_declared(n: i32) -> bool {
    n == 1 || n == 2 || n == 10
}

pub open spec fn complex_enum_error(e: Enum) -> Option<ErrorModel> {
    if complex_enum_declared(e.number) {
        None
    } else {
        Some(ErrorModel::InvalidEnum { name: "ComplexEnum"@, value: e.number })
    }
}

/// The first mismatch of a message against `Simple`: one mandatory singular bool.
pub open spec fn simple_error(m: Message) -> Option<ErrorModel> {
    if m.fields.len() != 1 {
        Some(ErrorModel::InvalidLength { expected: 1, actual: m.fields.len() })
    } else {
        match m.fields@[0] {
            Some(Value::Bool(Rule::Singular(_))) => None,
            Some(v) => Some(ErrorModel::InvalidType { name: "simple_bool"@, ty: value_tag(v) }),
            None => Some(ErrorModel::TypeNotOptional { name: "simple_bool"@ }),
        }
    }
}

/// The first mismatch of a message against `ComplexNested`: one optional singular string.
pub open spec fn nested_error(m: Message) -> Option<ErrorModel> {
    if m.fields.len() != 1 {
        Some(ErrorModel::InvalidLength { expected: 1, actual: m.fields.len() })
    } else {
        match m.fields@[0] {
            Some(Value::String(Rule::Singular(_))) => None,
            Some(v) => Some(ErrorModel::InvalidType { name: "optional_string"@, ty: value_tag(v) }),
            None => None,
        }
    }
}

/// The slot of `optional_enum`: an optional singular enum of `ComplexEnum`.
pub open spec fn enum_slot_error(s: Option<Value>) -> Option<ErrorModel> {
    match s {
        Some(Value::Enum(Rule::Singular(e))) => complex_enum_error(e),
        Some(v) => Some(ErrorModel::InvalidType { name: "optional_enum"@, ty: value_tag(v) }),
        None => None,
    }
}

/// The slot of `repeated_bytes`: repeated bytes; absent reads as empty.
pub open spec fn bytes_slot_error(s: Option<Value>) -> Option<ErrorModel> {
    match s {
        Some(Value::Bytes(Rule::Repeated(_))) => None,
        Some(v) => Some(ErrorModel::InvalidType { name: "repeated_bytes"@, ty: value_tag(v) }),
        None => None,
    }
}

/// `k` is the least key of `h` whose nested message does not match `ComplexNested`.
pub open spec fn first_invalid(h: Map<i32, Message>, k: i32) -> bool {
    &&& h.contains_key(k)
    &&& nested_error(h[k]) is Some
    &&& forall|j: i32|
        h.contains_key(j) && (#[trigger] nested_error(h[j])) is Some ==> k <= j
}

/// The error of the entry with the least key among the invalid ones, if any.
pub open spec fn nested_map_error(h: Map<i32, Message>) -> Option<ErrorModel> {
    if exists|k: i32| first_invalid(h, k) {
        nested_error(h[choose|k: i32| first_invalid(h, k)])
    } else {
        None
    }
}

/// The slot of `map_message`: a map from i32 to `ComplexNested`; absent reads as empty.
pub open spec fn map_slot_error(s: Option<Value>) -> Option<ErrorModel> {
    match s {
        Some(Value::Message(Rule::Keyed(Key::I32(h)))) => nested_map_error(h@),
        Some(v) => Some(ErrorModel::InvalidType { name: "map_message"@, ty: value_tag(v) }),
        None => None,
    }
}

/// The first mismatch of a message against `Complex`: the length first, then
/// each slot in order.
pub open spec fn complex_error(m: Message) -> Option<ErrorModel> {
    if m.fields.len() != 3 {
        Some(ErrorModel::InvalidLength { expected: 3, actual: m.fields.len() })
    } else if enum_slot_error(m.fields@[0]) is Some {
        enum_slot_error(m.fields@[0])
    } else if bytes_slot_error(m.fields@[1]) is Some {
        bytes_slot_error(m.fields@[1])
    } else {
        map_slot_error(m.fields@[2])
    }
}

/// Where some nested message of a map is invalid, one with the least key exists.
pub proof fn lemma_least_invalid_exists(h: Map<i32, Message>, k: i32)
    requires
        h.dom().finite(),
        h.contains_key(k),
        nested_error(h[k]) is Some,
    ensures
        exists|b: i32| first_invalid(h, b),
    decreases h.dom().len(),
{
    let rest = h.remove(k);
    if exists|j: i32| rest.contains_key(j) && (#[trigger] nested_error(rest[j])) is Some {
        let j = choose|j: i32| rest.contains_key(j) && (#[trigger] nested_error(rest[j])) is Some;
        lemma_least_invalid_exists(rest, j);
        let b = choose|b: i32| first_invalid(rest, b);
        assert forall|i: i32| h.contains_key(i) && i != k implies rest.contains_key(i) && rest[i]
            == h[i] by {}
        if k < b {
            assert(first_invalid(h, k));
        } else {
            assert(first_invalid(h, b));
        }
    } else {
        assert forall|i: i32| h.contains_key(i) && (#[trigger] nested_error(h[i])) is Some implies k
            <= i by {
            if i != k {
                assert(rest.contains_key(i) && rest[i] == h[i]);
            }
        }
        assert(first_invalid(h, k));
    }
}

/// A map's nested messages pass validation exactly when each of them does.
pub proof fn lemma_nested_map_valid(h: Map<i32, Message>)
    requires
        h.dom().finite(),
    ensures
        nested_map_error(h) is None <==> forall|k: i32| #[trigger]
            h.contains_key(k) ==> nested_error(h[k]) is None,
{
    if exists|k: i32| h.contains_key(k) && (#[trigger] nested_error(h[k])) is Some {
        let k = choose|k: i32| h.contains_key(k) && (#[trigger] nested_error(h[k])) is Some;
        lemma_least_invalid_exists(h, k);
    }
}

/// The name of field `i` of `Complex`.
pub open spec fn complex_field_name(i: int) -> Seq<char> {
    if i == 0 {
        "optional_enum"@
    } else if i == 1 {
        "repeated_bytes"@
    } else {
        "map_message"@
    }
}

/// `v` has the variant and cardinality that field `i` of `Complex` declares.
pub open spec fn complex_shape(i: int, v: Value) -> bool {
    if i == 0 {
        v matches Value::Enum(Rule::Singular(_))
    } else if i == 1 {
        v matches Value::Bytes(Rule::Repeated(_))
    } else {
        v matches Value::Message(Rule::Keyed(Key::I32(_)))
    }
}

/// A message whose slot count differs from the schema's field count fails on
/// its length, whatever its slots hold.
pub proof fn lemma_length_checked_first(m: Message)
    ensures
        m.fields.len() != 3 ==> complex_error(m) == Some(
            ErrorModel::InvalidLength { expected: 3, actual: m.fields.len() },
        ),
        m.fields.len() != 1 ==> simple_error(m) == Some(
            ErrorModel::InvalidLength { expected: 1, actual: m.fields.len() },
        ),
        m.fields.len() != 1 ==> nested_error(m) == Some(
            ErrorModel::InvalidLength { expected: 1, actual: m.fields.len() },
        ),
{
}

/// Putting a value of another variant or cardinality into a present slot of a
/// valid `Complex` message makes it fail with `InvalidType` naming that field.
pub proof fn lemma_complex_tag_mismatch(m: Message, n: Message, i: int, v: Value)
    requires
        complex_error(m) is None,
        0 <= i < 3,
        m.fields@[i] is Some,
        !complex_shape(i, v),
        n.fields@ == m.fields@.update(i, Some(v)),
    ensures
        complex_error(n) == Some(
            ErrorModel::InvalidType { name: complex_field_name(i), ty: value_tag(v) },
        ),
{
    assert(n.fields@[0] == m.fields@[0] || i == 0);
}

/// Putting a value other than a singular bool into the slot of a `Simple`
/// message makes it fail with `InvalidType` naming `simple_bool`.
pub proof fn lemma_simple_tag_mismatch(m: Message, v: Value)
    requires
        m.fields.len() == 1,
        m.fields@[0] == Some(v),
        !(v matches Value::Bool(Rule::Singular(_))),
    ensures
        simple_error(m) == Some(ErrorModel::InvalidType { name: "simple_bool"@, ty: value_tag(v) }),
{
}

/// An enum slot holding a number that `ComplexEnum` does not declare fails
/// with `InvalidEnum` naming the enum and the number.
pub proof fn lemma_enum_range(m: Message, e: Enum)
    requires
        m.fields.len() == 3,
        m.fields@[0] == Some(Value::Enum(Rule::Singular(e))),
        !complex_enum_declared(e.number),
    ensures
        complex_error(m) == Some(ErrorModel::InvalidEnum { name: "ComplexEnum"@, value: e.number }),
{
}

/// Omitting the mandatory slot of `Simple` fails with `TypeNotOptional`
/// naming it; omitting a collection slot of a valid `Complex` message is no
/// error.
pub proof fn lemma_omission(m: Message, n: Message, i: int)
    ensures
        m.fields.len() == 1 && m.fields@[0] is None ==> simple_error(m) == Some(
            ErrorModel::TypeNotOptional { name: "simple_bool"@ },
        ),
        complex_error(m) is None && (i == 1 || i == 2) && n.fields@ == m.fields@.update(i, None)
            ==> complex_error(n) is None,
{
}

/// A map slot in which one nested message is invalid makes the whole message
/// invalid, with the error of an invalid nested message.
pub proof fn lemma_map_entry_invalid(m: Message, h: HashMap<i32, Message>, k: i32)
    requires
        m.fields.len() == 3,
        enum_slot_error(m.fields@[0]) is None,
        bytes_slot_error(m.fields@[1]) is None,
        m.fields@[2] == Some(Value::Message(Rule::Keyed(Key::I32(h)))),
        h@.contains_key(k),
        nested_error(h@[k]) is Some,
    ensures
        complex_error(m) is Some,
        exists|j: i32| h@.contains_key(j) && complex_error(m) == nested_error(#[trigger] h@[j]),
{
    broadcast use vstd::std_specs::hash::group_hash_axioms;

    lemma_least_invalid_exists(h@, k);
    let j = choose|j: i32| first_invalid(h@, j);
    assert(h@.contains_key(j) && complex_error(m) == nested_error(h@[j]));
}

/// Checks an enum number against the variants of `ComplexEnum`.
pub fn validate_complex_enum(e: &Enum) -> (r: Option<AbsorbError>)
    ensures
        error_view(r) == complex_enum_error(*e),
{
    if e.number == 1 || e.number == 2 || e.number == 10 {
        None
    } else {
        Some(AbsorbError::invalid_enum("ComplexEnum", e))
    }
}

/// Checks a message against the schema of `Simple`.
pub fn validate_simple(m: &Message) -> (r: Option<AbsorbError>)
    ensures
        error_view(r) == simple_error(*m),
{
    if m.fields.len() != 1 {
        return Some(AbsorbError::invalid_length(1, m.fields.len()));
    }
    match &m.fields[0] {
        Some(Value::Bool(Rule::Singular(_))) => None,
        Some(v) => Some(AbsorbError::invalid_type("simple_bool", v)),
        None => Some(AbsorbError::not_optional("simple_bool")),
    }
}

/// Checks a message against the schema of `ComplexNested`.
pub fn validate_nested(m: &Message) -> (r: Option<AbsorbError>)
    ensures
        error_view(r) == nested_error(*m),
{
    if m.fields.len() != 1 {
        return Some(AbsorbError::invalid_length(1, m.fields.len()));
    }
    match &m.fields[0] {
        Some(Value::String(Rule::Singular(_))) => None,
        Some(v) => Some(AbsorbError::invalid_type("optional_string", v)),
        None => None,
    }
}

/// Checks every nested message of a map; the error of the least invalid key wins.
fn validate_nested_map(h: &HashMap<i32, Message>) -> (r: Option<AbsorbError>)
    ensures
        error_view(r) == nested_map_error(h@),
{
    broadcast use vstd::std_specs::hash::group_hash_axioms;

    let mut best: Option<(i32, AbsorbError)> = None;
    let ghost s = h.iter().remaining();
    for (k, v) in it: h.iter()
        invariant
            it.seq() == s,
            best is None ==> (forall|i: int| 0 <= i < it.index() ==> nested_error(*s[i].1) is None),
            best matches Some((b, e)) ==> (exists|i: int|
                0 <= i < it.index() && *s[i].0 == b && nested_error(*s[i].1) == Some(e@)),
            best matches Some((b, e)) ==> (forall|i: int|
                0 <= i < it.index() && nested_error(*s[i].1) is Some ==> b <= *s[i].0),
    {
        match validate_nested(v) {
            Some(e) => {
                let better = match &best {
                    Some((b, _)) => *k < *b,
                    None => true,
                };
                if better {
                    best = Some((*k, e));
                }
            },
            None => {},
        }
    }
    proof {
        assert forall|j: i32| h@.contains_key(j) && nested_error(h@[j]) is Some implies (
        best matches Some((b, e)) && b <= j) by {
            assert(s.contains((&j, &h@[j])));
            let i = choose|i: int| 0 <= i < s.len() && s[i] == (&j, &h@[j]);
            assert(nested_error(*s[i].1) is Some);
        }
        if best is Some {
            let pair = best->0;
            let b = pair.0;
            let e = pair.1;
            let i = choose|i: int| 0 <= i < s.len() && *s[i].0 == b && nested_error(*s[i].1) == Some(e@);
            assert(h@.contains_key(*s[i].0));
            assert(first_invalid(h@, b));
            let c = choose|k: i32| first_invalid(h@, k);
            assert(c <= b && b <= c);
        }
    }
    match best {
        Some((_, e)) => Some(e),
        None => None,
    }
}

/// Checks a message against the schema of `Complex`: the slot count first,
/// then each slot in order, into every nested message of the map.
pub fn validate_complex(m: &Message) -> (r: Option<AbsorbError>)
    ensures
        error_view(r) == complex_error(*m),
{
    if m.fields.len() != 3 {
        return Some(AbsorbError::invalid_length(3, m.fields.len()));
    }
    let first = match &m.fields[0] {
        Some(Value::Enum(Rule::Singular(e))) => validate_complex_enum(e),
        Some(v) => Some(AbsorbError::invalid_type("optional_enum", v)),
        None => None,
    };
    if first.is_some() {
        return first;
    }
    let second = match &m.fields[1] {
        Some(Value::Bytes(Rule::Repeated(_))) => None,
        Some(v) => Some(AbsorbError::invalid_type("repeated_bytes", v)),
        None => None,
    };
    if second.is_some() {
        return second;
    }
    match &m.fields[2] {
        Some(Value::Message(Rule::Keyed(Key::I32(h)))) => validate_nested_map(h),
        Some(v) => Some(AbsorbError::invalid_type("map_message", v)),
        None => None,
    }
}

} // verus!
