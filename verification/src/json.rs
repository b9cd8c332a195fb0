use serde_json::Value;
use vstd::prelude::*;

verus! {

/// `serde_json::Value`: a JSON value. Nothing inside it is seen here; what is
/// known of one is what the functions below say.
#[verifier::external_type_specification]
#[verifier::external_body]
pub struct ExValue(Value);

/// The JSON object that `text` is the text of, as `serde_json::from_slice` reads
/// it; `None` where `text` is not the text of one JSON object.
pub uninterp spec fn json_object(text: Seq<u8>) -> Option<Value>;

/// The member that `Value::get` finds in `value` under the name `key`; `None`
/// where `value` is no object or has no such member.
pub uninterp spec fn json_member(value: Value, key: Seq<char>) -> Option<Value>;

/// The text of `value` as `Value::as_str` gives it; `None` where `value` is no
/// JSON string.
pub uninterp spec fn json_text(value: Value) -> Option<Seq<char>>;

/// The bytes that `serde_json::to_vec` writes for `value`; `None` where it fails.
pub uninterp spec fn json_encoded(value: Value) -> Option<Seq<u8>>;

/// The value that `serde_json::from_slice` reads from `text`; `None` where
/// `text` is not the text of one JSON value.
pub uninterp spec fn json_value(text: Seq<u8>) -> Option<Value>;

/// The JSON string with the text `text`.
pub uninterp spec fn json_of_text(text: Seq<char>) -> Value;

/// The JSON number `n`.
pub uninterp spec fn json_of_integer(n: int) -> Value;

/// The JSON value `true` or `false`.
pub uninterp spec fn json_of_bool(b: bool) -> Value;

/// The JSON object with the members `members`, each a name and a value; of
/// two members with one name the later one stays.
pub uninterp spec fn json_object_of(members: Seq<(Seq<char>, Value)>) -> Value;

/// The text that `Value::to_string` writes for `value`.
pub uninterp spec fn json_shown(value: Value) -> Seq<char>;

/// `serde_json::from_slice`, asked for a value: the value read from `text`,
/// and `None` where it reports an error.
#[verifier::external_body]
pub(crate) fn parse_value(text: &[u8]) -> (r: Option<Value>)
    ensures
        r == json_value(text@),
{
    serde_json::from_slice::<Value>(text).ok()
}

/// `Value::from` on a string: the JSON string with that text.
#[verifier::external_body]
pub(crate) fn value_from_text(text: &str) -> (r: Value)
    ensures
        r == json_of_text(text@),
{
    Value::from(text)
}

/// `Value::from` on an `i32`: the JSON number of that value.
#[verifier::external_body]
pub(crate) fn value_from_integer(n: i32) -> (r: Value)
    ensures
        r == json_of_integer(n as int),
{
    Value::from(n)
}

/// `Value::from` on a `bool`.
#[verifier::external_body]
pub(crate) fn value_from_bool(b: bool) -> (r: Value)
    ensures
        r == json_of_bool(b),
{
    Value::from(b)
}

/// The names and values of members, as mathematical values.
pub open spec fn member_views(members: Seq<(String, Value)>) -> Seq<(Seq<char>, Value)> {
    members.map_values(|m: (String, Value)| (m.0@, m.1))
}

/// `Value::Object` of the map that collects `members`.
#[verifier::external_body]
pub(crate) fn value_from_members(members: Vec<(String, Value)>) -> (r: Value)
    ensures
        r == json_object_of(member_views(members@)),
{
    Value::Object(members.into_iter().collect())
}

/// `Value::to_string`.
#[verifier::external_body]
pub(crate) fn show(value: &Value) -> (r: String)
    ensures
        r@ == json_shown(*value),
{
    value.to_string()
}

/// `Value::clone`.
#[verifier::external_body]
pub(crate) fn clone_value(value: &Value) -> (r: Value)
    ensures
        r == *value,
{
    value.clone()
}

/// `serde_json::from_slice`, asked for a map of member names to values: the
/// object read from `text`, and `None` where it reports an error.
#[verifier::external_body]
pub(crate) fn parse_object(text: &[u8]) -> (r: Option<Value>)
    ensures
        r == json_object(text@),
{
    serde_json::from_slice::<serde_json::Map<String, Value>>(text).ok().map(Value::Object)
}

/// `Value::get` with a name as the index.
#[verifier::external_body]
pub(crate) fn member<'a>(value: &'a Value, key: &str) -> (r: Option<&'a Value>)
    ensures
        match r {
            Some(m) => json_member(*value, key@) == Some(*m),
            None => json_member(*value, key@) is None,
        },
{
    value.get(key)
}

/// `Value::as_str`.
#[verifier::external_body]
pub(crate) fn text_of<'a>(value: &'a Value) -> (r: Option<&'a str>)
    ensures
        match r {
            Some(s) => json_text(*value) == Some(s@),
            None => json_text(*value) is None,
        },
{
    value.as_str()
}

/// `serde_json::to_vec` on a value; `None` where it reports an error.
#[verifier::external_body]
pub(crate) fn encode(value: &Value) -> (r: Option<Vec<u8>>)
    ensures
        match r {
            Some(bytes) => json_encoded(*value) == Some(bytes@),
            None => json_encoded(*value) is None,
        },
{
    serde_json::to_vec(value).ok()
}

/// The text of the member `key` of the object `doc`, where `doc` is an object
/// with such a member and the member is a JSON string.
pub open spec fn member_text(doc: Option<Value>, key: Seq<char>) -> Option<Seq<char>> {
    match doc {
        Some(v) => match json_member(v, key) {
            Some(m) => json_text(m),
            None => None,
        },
        None => None,
    }
}

/// The member `key` of the object `doc`, where there is one.
pub open spec fn member_of(doc: Option<Value>, key: Seq<char>) -> Option<Value> {
    match doc {
        Some(v) => json_member(v, key),
        None => None,
    }
}

} // verus!
