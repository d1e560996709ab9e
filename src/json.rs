use vstd::prelude::*;

verus! {

#[verifier::external_type_specification]
#[verifier::external_body]
pub struct ExJsonValue(serde_json::Value);

/// A JSON value as this library reads it. Numbers are kept only as their kind;
/// an object lists its members with distinct keys.
pub enum Json {
    Null,
    Bool(bool),
    Number,
    Str(String),
    Array(Vec<Json>),
    Object(Vec<(String, Json)>),
}

/// The document `serde_json` reads from the bytes, or `None` when they are not JSON.
pub uninterp spec fn json_of_bytes(b: Seq<u8>) -> Option<Json>;

/// The document `serde_json` reads from the text, or `None` when it is not JSON.
pub uninterp spec fn json_of_text(s: Seq<char>) -> Option<Json>;

/// Relies on the variants of `serde_json::Value`, and on its `Map` yielding each
/// member once: converts a value into `Json`, variant by variant.
#[verifier::external_body]
fn json_from_value(v: serde_json::Value) -> Json {
    match v {
        serde_json::Value::Null => Json::Null,
        serde_json::Value::Bool(b) => Json::Bool(b),
        serde_json::Value::Number(_) => Json::Number,
        serde_json::Value::String(s) => Json::Str(s),
        serde_json::Value::Array(a) => Json::Array(a.into_iter().map(json_from_value).collect()),
        serde_json::Value::Object(m) => Json::Object(
            m.into_iter().map(|(k, x)| (k, json_from_value(x))).collect(),
        ),
    }
}

/// Relies on `serde_json::from_slice::<Value>`: the document the bytes hold, if
/// they are JSON.
#[verifier::external_body]
pub(crate) fn parse_json_bytes(b: &[u8]) -> (r: Option<Json>)
    ensures
        r == json_of_bytes(b@),
{
    serde_json::from_slice::<serde_json::Value>(b).ok().map(json_from_value)
}

/// Relies on `serde_json::from_str::<Value>`: the document the text holds, if it
/// is JSON.
#[verifier::external_body]
pub(crate) fn parse_json_text(s: &str) -> (r: Option<Json>)
    ensures
        r == json_of_text(s@),
{
    serde_json::from_str::<serde_json::Value>(s).ok().map(json_from_value)
}

/// The value of the first member named `key`.
pub open spec fn member_of(fields: Seq<(String, Json)>, key: Seq<char>) -> Option<Json>
    decreases fields.len(),
{
    if fields.len() == 0 {
        None
    } else if fields[0].0@ == key {
        Some(fields[0].1)
    } else {
        member_of(fields.drop_first(), key)
    }
}

/// The member `key` of an object; `None` for a missing member or a non-object.
pub open spec fn at_key(v: Json, key: Seq<char>) -> Option<Json> {
    match v {
        Json::Object(fields) => member_of(fields@, key),
        _ => None,
    }
}

/// The element `i` of an array; `None` out of range or for a non-array.
pub open spec fn at_index(v: Json, i: int) -> Option<Json> {
    match v {
        Json::Array(items) => if 0 <= i < items@.len() {
            Some(items@[i])
        } else {
            None
        },
        _ => None,
    }
}

/// The text of a string value.
pub open spec fn text_of(v: Json) -> Option<Seq<char>> {
    match v {
        Json::Str(s) => Some(s@),
        _ => None,
    }
}

/// The texts of the string items, in order; other items are dropped.
pub open spec fn strings_of(items: Seq<Json>) -> Seq<Seq<char>>
    decreases items.len(),
{
    if items.len() == 0 {
        Seq::empty()
    } else {
        let rest = strings_of(items.drop_last());
        match items.last() {
            Json::Str(s) => rest.push(s@),
            _ => rest,
        }
    }
}

/// `r` is the reference form of the spec option `o`.
pub open spec fn found(r: Option<&Json>, o: Option<Json>) -> bool {
    match r {
        Some(x) => o == Some(*x),
        None => o is None,
    }
}

/// The member `key` of an object value.
pub fn json_at_key<'a>(v: &'a Json, key: &str) -> (r: Option<&'a Json>)
    ensures
        found(r, at_key(*v, key@)),
{
    match v {
        Json::Object(fields) => {
            let k = String::from_str(key);
            let n = fields.len();
            let mut i: usize = 0;
            assert(fields@.subrange(0, n as int) =~= fields@);
            while i < n
                invariant
                    n == fields.len(),
                    i <= n,
                    k@ == key@,
                    at_key(*v, key@) == member_of(fields@, key@),
                    member_of(fields@, key@) == member_of(fields@.subrange(i as int, n as int), key@),
                decreases n - i,
            {
                let ghost rest = fields@.subrange(i as int, n as int);
                assert(rest[0] == fields@[i as int]);
                if fields[i].0 == k {
                    assert(member_of(rest, key@) == Some(fields@[i as int].1));
                    return Some(&fields[i].1);
                }
                assert(rest.drop_first() =~= fields@.subrange(i + 1, n as int));
                i = i + 1;
            }
            None
        },
        _ => None,
    }
}

/// The element `i` of an array value.
pub fn json_at_index(v: &Json, i: usize) -> (r: Option<&Json>)
    ensures
        found(r, at_index(*v, i as int)),
{
    match v {
        Json::Array(items) => if i < items.len() {
            Some(&items[i])
        } else {
            None
        },
        _ => None,
    }
}

/// The text of a string value.
pub fn json_text(v: &Json) -> (r: Option<String>)
    ensures
        match r {
            Some(s) => text_of(*v) == Some(s@),
            None => text_of(*v) is None,
        },
{
    match v {
        Json::Str(s) => Some(s.clone()),
        _ => None,
    }
}

/// The texts of the string items of an array, in order.
pub fn json_strings(items: &Vec<Json>) -> (r: Vec<String>)
    ensures
        r.deep_view() == strings_of(items@),
{
    let mut out: Vec<String> = Vec::new();
    let mut i: usize = 0;
    while i < items.len()
        invariant
            i <= items.len(),
            out.deep_view() == strings_of(items@.take(i as int)),
        decreases items.len() - i,
    {
        assert(items@.take(i + 1).drop_last() =~= items@.take(i as int));
        let ghost pre = out.deep_view();
        match json_text(&items[i]) {
            Some(s) => {
                out.push(s);
                assert(out.deep_view() =~= pre.push(items@[i as int]->Str_0@));
            },
            None => {},
        }
        i = i + 1;
    }
    assert(items@.take(items.len() as int) =~= items@);
    out
}

} // verus!
