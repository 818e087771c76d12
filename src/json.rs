//! A JSON document as the decoders read it, and the parse that produces one.
use vstd::prelude::*;
use vstd::string::StringExecFns;

verus! {

/// A parsed JSON value. A number keeps the text that the parser printed for
/// it; an object keeps its members in the order the parser handed them out.
pub enum JsonValue {
    Null,
    Bool(bool),
    Number(String),
    Str(String),
    Array(Vec<JsonValue>),
    Object(Vec<(String, JsonValue)>),
}

#[verifier::external_type_specification]
#[verifier::external_body]
pub struct ExSerdeValue(serde_json::Value);

#[verifier::external_type_specification]
#[verifier::external_body]
pub struct ExSerdeError(serde_json::Error);

/// The document that serde_json reads from `text`, or `None` where `text` is
/// not JSON.
pub uninterp spec fn json_document(text: Seq<char>) -> Option<JsonValue>;

/// Relies on `serde_json::Value`'s variants and `serde_json::Number`'s
/// `Display`: the same tree, with each number as the text serde_json prints.
#[verifier::external_body]
fn from_serde(v: serde_json::Value) -> JsonValue {
    match v {
        serde_json::Value::Null => JsonValue::Null,
        serde_json::Value::Bool(b) => JsonValue::Bool(b),
        serde_json::Value::Number(n) => JsonValue::Number(n.to_string()),
        serde_json::Value::String(s) => JsonValue::Str(s),
        serde_json::Value::Array(items) => JsonValue::Array(items.into_iter().map(from_serde).collect()),
        serde_json::Value::Object(members) => JsonValue::Object(
            members.into_iter().map(|(k, x)| (k, from_serde(x))).collect(),
        ),
    }
}

/// Relies on `serde_json::from_str` into a `serde_json::Value`: the document
/// that `text` holds, or an error where `text` is not JSON.
#[verifier::external_body]
fn parse_value(text: &str) -> (r: Result<JsonValue, serde_json::Error>)
    ensures
        r is Err <==> json_document(text@) is None,
        r matches Ok(v) ==> json_document(text@) == Some(v),
{
    serde_json::from_str::<serde_json::Value>(text).map(from_serde)
}

/// Parses `text` as JSON: `None` exactly where serde_json refuses it.
pub fn parse_json(text: &str) -> (r: Option<JsonValue>)
    ensures
        r == json_document(text@),
{
    match parse_value(text) {
        Ok(v) => Some(v),
        Err(_) => None,
    }
}

/// The value of the first member named `key` among `members`.
pub open spec fn find_member(members: Seq<(String, JsonValue)>, key: Seq<char>) -> Option<
    JsonValue,
>
    decreases members.len(),
{
    if members.len() == 0 {
        None
    } else if members[0].0@ == key {
        Some(members[0].1)
    } else {
        find_member(members.drop_first(), key)
    }
}

/// The member named `key` of `v`, where `v` is an object that has one.
pub open spec fn member(v: JsonValue, key: Seq<char>) -> Option<JsonValue> {
    match v {
        JsonValue::Object(members) => find_member(members@, key),
        _ => None,
    }
}

/// The text of the member named `key` of `v`, where that member is a string.
pub open spec fn str_member(v: JsonValue, key: Seq<char>) -> Option<Seq<char>> {
    match member(v, key) {
        Some(JsonValue::Str(s)) => Some(s@),
        _ => None,
    }
}

/// Looks up the member named `key` of `v`.
pub fn get_member<'a>(v: &'a JsonValue, key: &str) -> (r: Option<&'a JsonValue>)
    ensures
        match r {
            Some(x) => member(*v, key@) == Some(*x),
            None => member(*v, key@) is None,
        },
{
    match v {
        JsonValue::Object(members) => {
            let k = String::from_str(key);
            let mut i: usize = 0;
            assert(members@.subrange(0, members@.len() as int) =~= members@);
            assert(member(*v, key@) == find_member(members@, key@));
            while i < members.len()
                invariant
                    i <= members@.len(),
                    k@ == key@,
                    member(*v, key@) == find_member(members@, key@),
                    find_member(members@, key@) == find_member(
                        members@.subrange(i as int, members@.len() as int),
                        key@,
                    ),
                decreases members@.len() - i,
            {
                let ghost rest = members@.subrange(i as int, members@.len() as int);
                assert(rest[0] == members@[i as int]);
                if members[i].0 == k {
                    assert(rest.len() > 0 && rest[0].0@ == key@);
                    return Some(&members[i].1);
                }
                assert(rest.drop_first() =~= members@.subrange(i + 1, members@.len() as int));
                i += 1;
            }
            None
        },
        _ => None,
    }
}

/// The text of the member named `key` of `v`, where that member is a string.
pub fn get_str_member(v: &JsonValue, key: &str) -> (r: Option<String>)
    ensures
        match r {
            Some(s) => str_member(*v, key@) == Some(s@),
            None => str_member(*v, key@) is None,
        },
{
    match get_member(v, key) {
        Some(JsonValue::Str(s)) => Some(s.clone()),
        _ => None,
    }
}

/// The member named `key` of `v` read as optional text: `Some(None)` where
/// it is absent or null, `Some(Some(t))` where it is the string `t`, and
/// `None` where it holds anything else.
pub open spec fn opt_str_member(v: JsonValue, key: Seq<char>) -> Option<Option<Seq<char>>> {
    match member(v, key) {
        None => Some(None),
        Some(JsonValue::Null) => Some(None),
        Some(JsonValue::Str(s)) => Some(Some(s@)),
        Some(_) => None,
    }
}

/// Reads the member named `key` of `v` as optional text.
pub fn get_opt_str_member(v: &JsonValue, key: &str) -> (r: Option<Option<String>>)
    ensures
        match r {
            Some(Some(s)) => opt_str_member(*v, key@) == Some(Some(s@)),
            Some(None) => opt_str_member(*v, key@) == Some(None::<Seq<char>>),
            None => opt_str_member(*v, key@) is None,
        },
{
    match get_member(v, key) {
        None => Some(None),
        Some(JsonValue::Null) => Some(None),
        Some(JsonValue::Str(s)) => Some(Some(s.clone())),
        Some(_) => None,
    }
}

} // verus!
