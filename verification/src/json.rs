//! A plain model of JSON documents, and the calls into `serde_json` that read and write them.

use vstd::prelude::*;

verus! {

/// A JSON number as the settings logic reads it: `serde_json` keeps non-negative integers,
/// negative integers and floating-point values apart.
#[derive(Debug, Clone, Copy, PartialEq, Eq)]
pub enum JsonNumber {
    /// A non-negative integer.
    PosInt(u64),
    /// A negative integer.
    NegInt(i64),
    /// A floating-point number; its value is never read here.
    Float,
}

/// A parsed JSON value.
#[derive(Debug, PartialEq, Eq)]
pub enum JsonValue {
    /// `null`.
    Null,
    /// `true` or `false`.
    Bool(bool),
    /// A number.
    Number(JsonNumber),
    /// A string.
    Text(String),
    /// An array.
    Array(Vec<JsonValue>),
    /// An object, as its members in order. Keys are distinct in parsed documents.
    Object(Vec<(String, JsonValue)>),
    /// A number given by its decimal spelling, such as `29.9`, for a value that is not an
    /// integer. Only written, never read: a reader gives such a number back as a float.
    Decimal(String),
}

/// The number as a `u64`, as `serde_json::Value::as_u64` gives it.
pub open spec fn spec_as_u64(value: JsonValue) -> Option<u64> {
    match value {
        JsonValue::Number(JsonNumber::PosInt(n)) => Some(n),
        _ => None,
    }
}

/// The number as an `i64`, as `serde_json::Value::as_i64` gives it.
pub open spec fn spec_as_i64(value: JsonValue) -> Option<i64> {
    match value {
        JsonValue::Number(JsonNumber::PosInt(n)) => if n <= i64::MAX {
            Some(n as i64)
        } else {
            None
        },
        JsonValue::Number(JsonNumber::NegInt(n)) => Some(n),
        _ => None,
    }
}

/// The characters of a string value.
pub open spec fn spec_as_text(value: JsonValue) -> Option<Seq<char>> {
    match value {
        JsonValue::Text(s) => Some(s@),
        _ => None,
    }
}

/// The members of an object value.
pub open spec fn spec_as_object(value: JsonValue) -> Option<Seq<(String, JsonValue)>> {
    match value {
        JsonValue::Object(members) => Some(members@),
        _ => None,
    }
}

/// The names of an object's members, in order.
pub open spec fn member_names(members: Seq<(String, JsonValue)>) -> Seq<Seq<char>> {
    members.map_values(|member: (String, JsonValue)| member.0@)
}

/// The value of the first member named `key`.
pub open spec fn spec_member(members: Seq<(String, JsonValue)>, key: Seq<char>) -> Option<
    JsonValue,
>
    decreases members.len(),
{
    if members.len() == 0 {
        None
    } else if members[0].0@ == key {
        Some(members[0].1)
    } else {
        spec_member(members.drop_first(), key)
    }
}

/// Whether the value holds no float read from a document, whose value this model does not keep.
pub open spec fn has_no_float(value: JsonValue) -> bool
    decreases value,
{
    match value {
        JsonValue::Number(JsonNumber::Float) => false,
        JsonValue::Array(items) => forall|i: int|
            0 <= i < items.len() ==> has_no_float(#[trigger] items@[i]),
        JsonValue::Object(members) => forall|i: int|
            0 <= i < members.len() ==> has_no_float(#[trigger] members@[i].1),
        _ => true,
    }
}

/// Reads a number as a `u64`.
pub fn as_u64(value: Option<&JsonValue>) -> (n: Option<u64>)
    ensures
        n == (match value {
            Some(v) => spec_as_u64(*v),
            None => None,
        }),
{
    match value {
        Some(JsonValue::Number(JsonNumber::PosInt(n))) => Some(*n),
        _ => None,
    }
}

/// Reads a number as an `i64`.
pub fn as_i64(value: Option<&JsonValue>) -> (n: Option<i64>)
    ensures
        n == (match value {
            Some(v) => spec_as_i64(*v),
            None => None,
        }),
{
    match value {
        Some(JsonValue::Number(JsonNumber::PosInt(n))) => if *n <= i64::MAX as u64 {
            Some(*n as i64)
        } else {
            None
        },
        Some(JsonValue::Number(JsonNumber::NegInt(n))) => Some(*n),
        _ => None,
    }
}

/// Reads a string value.
pub fn as_text(value: Option<&JsonValue>) -> (s: Option<&String>)
    ensures
        match s {
            Some(s) => (match value {
                Some(v) => spec_as_text(*v),
                None => None,
            }) == Some(s@),
            None => (match value {
                Some(v) => spec_as_text(*v),
                None => None,
            }) is None,
        },
{
    match value {
        Some(JsonValue::Text(s)) => Some(s),
        _ => None,
    }
}

/// Reads the members of an object value.
pub fn as_object(value: Option<&JsonValue>) -> (members: Option<&Vec<(String, JsonValue)>>)
    ensures
        match members {
            Some(m) => (match value {
                Some(v) => spec_as_object(*v),
                None => None,
            }) == Some(m@),
            None => (match value {
                Some(v) => spec_as_object(*v),
                None => None,
            }) is None,
        },
{
    match value {
        Some(JsonValue::Object(members)) => Some(members),
        _ => None,
    }
}

/// The value of the first member named `key`, if the object is present.
pub fn member<'a>(members: Option<&'a Vec<(String, JsonValue)>>, key: &str) -> (found: Option<
    &'a JsonValue,
>)
    ensures
        match found {
            Some(v) => (match members {
                Some(m) => spec_member(m@, key@),
                None => None,
            }) == Some(*v),
            None => (match members {
                Some(m) => spec_member(m@, key@),
                None => None,
            }) is None,
        },
{
    let entries = match members {
        Some(entries) => entries,
        None => return None,
    };
    let mut i: usize = 0;
    assert(entries@.skip(0) =~= entries@);
    while i < entries.len()
        invariant
            members == Some(entries),
            i <= entries.len(),
            spec_member(entries@, key@) == spec_member(entries@.skip(i as int), key@),
        decreases entries.len() - i,
    {
        assert(entries@.skip(i as int).drop_first() =~= entries@.skip(i + 1));
        assert(entries@.skip(i as int)[0] == entries@[i as int]);
        let name = entries[i].0.as_str();
        if crate::text::str_equals(name, key) {
            assert(entries@.skip(i as int)[0].0@ == key@);
            assert(spec_member(entries@.skip(i as int), key@) == Some(entries@[i as int].1));
            return Some(&entries[i].1);
        }
        i = i + 1;
    }
    assert(entries@.skip(i as int).len() == 0);
    None
}

/// The document that `serde_json` parses from a text, as a plain value; `None` when the text
/// is not JSON.
pub uninterp spec fn json_document(text: Seq<char>) -> Option<JsonValue>;

/// The pretty-printed UTF-8 text that `serde_json` writes for a value.
pub uninterp spec fn json_pretty_text(value: JsonValue) -> Option<Seq<u8>>;

/// Declares `serde_json::Value` so that the conversions below can name it.
#[verifier::external_type_specification]
#[verifier::external_body]
pub struct ExSerdeJsonValue(serde_json::Value);

/// Parses a text with `serde_json::from_str` into a `serde_json::Value` and copies it into the
/// plain model. The contract only claims that the result is a function of the text alone.
#[verifier::external_body]
pub fn parse_json(text: &str) -> (document: Option<JsonValue>)
    ensures
        document == json_document(text@),
{
    serde_json::from_str::<serde_json::Value>(text).ok().map(|value| from_serde(&value))
}

/// The kind of a JSON number, from what `serde_json::Number::as_u64` and `as_i64` give: a
/// non-negative integer, a negative integer, or anything else (a float).
pub fn number_kind(unsigned: Option<u64>, signed: Option<i64>) -> (number: JsonNumber)
    ensures
        number == (match (unsigned, signed) {
            (Some(u), _) => JsonNumber::PosInt(u),
            (None, Some(i)) => JsonNumber::NegInt(i),
            (None, None) => JsonNumber::Float,
        }),
{
    match (unsigned, signed) {
        (Some(u), _) => JsonNumber::PosInt(u),
        (None, Some(i)) => JsonNumber::NegInt(i),
        (None, None) => JsonNumber::Float,
    }
}

/// Copies a `serde_json::Value` into the plain model, variant by variant; numbers are told
/// apart by `as_u64` and `as_i64`, which name exactly `serde_json`'s three number kinds.
#[verifier::external_body]
fn from_serde(value: &serde_json::Value) -> JsonValue {
    match value {
        serde_json::Value::Null => JsonValue::Null,
        serde_json::Value::Bool(b) => JsonValue::Bool(*b),
        serde_json::Value::Number(n) => JsonValue::Number(number_kind(n.as_u64(), n.as_i64())),
        serde_json::Value::String(s) => JsonValue::Text(s.clone()),
        serde_json::Value::Array(items) => JsonValue::Array(items.iter().map(from_serde).collect()),
        serde_json::Value::Object(map) => JsonValue::Object(
            map.iter().map(|(k, v)| (k.clone(), from_serde(v))).collect(),
        ),
    }
}

/// Whether a value is read back exactly as it is written: it holds no floating-point number,
/// no non-negative number stored as a negative one, and no object with two members of one
/// name.
pub open spec fn json_round_trips(value: JsonValue) -> bool
    decreases value,
{
    match value {
        JsonValue::Number(JsonNumber::Float) => false,
        JsonValue::Decimal(_) => false,
        JsonValue::Number(JsonNumber::NegInt(n)) => n < 0,
        JsonValue::Array(items) => forall|i: int|
            0 <= i < items.len() ==> json_round_trips(#[trigger] items@[i]),
        JsonValue::Object(members) => {
            &&& forall|i: int, j: int|
                0 <= i < j < members.len() ==> (#[trigger] members@[i]).0@ != (
                #[trigger] members@[j]).0@
            &&& forall|i: int| 0 <= i < members.len() ==> json_round_trips(#[trigger] members@[i].1)
        },
        _ => true,
    }
}

/// Whether arrays and objects nest at most `levels` deep in the value.
pub open spec fn json_nesting_within(value: JsonValue, levels: nat) -> bool
    decreases value,
{
    match value {
        JsonValue::Array(items) => levels > 0 && forall|i: int|
            0 <= i < items.len() ==> json_nesting_within(#[trigger] items@[i], (levels - 1) as nat),
        JsonValue::Object(members) => levels > 0 && forall|i: int|
            0 <= i < members.len() ==> json_nesting_within(
                #[trigger] members@[i].1,
                (levels - 1) as nat,
            ),
        _ => true,
    }
}

/// Whether a text is only the white space that may follow a JSON document.
pub open spec fn json_white_space(text: Seq<char>) -> bool {
    forall|i: int|
        0 <= i < text.len() ==> #[trigger] text[i] == ' ' || text[i] == '\n' || text[i] == '\t'
            || text[i] == '\r'
}

/// Writes a value with `serde_json::to_vec_pretty`, after copying it into a
/// `serde_json::Value` whose objects keep their member order. The contract claims that the
/// result is a function of the value; that writing succeeds (a `Value` has only string keys
/// and finite numbers, and writing into a `Vec` cannot fail); and that the text is UTF-8
/// which `serde_json` reads back (followed by any white space) as the same value when the
/// value round-trips and nests at most 64 levels deep (the reader's nesting limit is 128).
#[verifier::external_body]
pub fn write_json_pretty(value: &JsonValue) -> (text: Option<Vec<u8>>)
    requires
        has_no_float(*value),
    ensures
        match text {
            Some(t) => json_pretty_text(*value) == Some(t@),
            None => json_pretty_text(*value) is None,
        },
        text is Some,
        text matches Some(t) ==> (json_round_trips(*value) && json_nesting_within(*value, 64)
            ==> exists|written: Seq<char>|
            t@ == vstd::utf8::encode_utf8(written) && forall|trailing: Seq<char>|
                json_white_space(trailing) ==> #[trigger] json_document(written + trailing)
                    == Some(*value)),
{
    serde_json::to_vec_pretty(&to_serde(value)).ok()
}

/// Copies a float-free plain value into a `serde_json::Value`, variant by variant.
#[verifier::external_body]
fn to_serde(value: &JsonValue) -> serde_json::Value {
    match value {
        JsonValue::Null | JsonValue::Number(JsonNumber::Float) => serde_json::Value::Null,
        JsonValue::Bool(b) => serde_json::Value::Bool(*b),
        JsonValue::Number(JsonNumber::PosInt(n)) => serde_json::Value::from(*n),
        JsonValue::Number(JsonNumber::NegInt(n)) => serde_json::Value::from(*n),
        JsonValue::Text(s) => serde_json::Value::String(s.clone()),
        JsonValue::Array(items) => serde_json::Value::Array(items.iter().map(to_serde).collect()),
        JsonValue::Object(members) => serde_json::Value::Object(
            members.iter().map(|(k, v)| (k.clone(), to_serde(v))).collect(),
        ),
        JsonValue::Decimal(spelling) => decimal_to_serde(spelling),
    }
}

/// Reads a decimal spelling with `serde_json::Number`'s `FromStr` into a `serde_json::Value`,
/// or `null` where `serde_json` reads no number in it.
#[verifier::external_body]
fn decimal_to_serde(spelling: &str) -> serde_json::Value {
    spelling.parse::<serde_json::Number>().map_or(serde_json::Value::Null, serde_json::Value::Number)
}

} // verus!
