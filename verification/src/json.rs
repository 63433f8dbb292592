//! The JSON layer: parsed documents carried in the library's own shape,
//! so that every record reader and writer can be verified against an
//! exact contract over the parsed text.
//!
//! `serde_json` does the parsing and the rendering behind trusted
//! wrappers; what it returns for a given text is named (`json_of`,
//! `json_text_of`, `is_json_num`), and everything from the document to
//! the records is verified.

use vstd::prelude::*;

use crate::strutil::{i64_to_dec, spec_dec_int};

verus! {

#[verifier::external_type_specification]
#[verifier::external_body]
pub struct ExValue(serde_json::Value);

/// A parsed JSON document in the library's own shape: a number that
/// fits a signed 64-bit integer is carried as that integer, every other
/// number as its decimal text; an object is its key/value pairs in the
/// order the parser hands them out.
pub enum JsonValue {
    Null,
    Bool(bool),
    Int(i64),
    Num(String),
    Str(String),
    Arr(Vec<JsonValue>),
    Obj(Vec<(String, JsonValue)>),
}

/// What `serde_json::from_str` returns for the given text, carried into
/// the library's document shape: `None` exactly on malformed text; a
/// function of the text alone.
pub uninterp spec fn json_of(s: Seq<char>) -> Option<JsonValue>;

/// What `serde_json`'s renderer prints for the given document; a
/// function of the document alone.
pub uninterp spec fn json_text_of(d: JsonValue) -> Seq<char>;

/// Whether `serde_json`'s number parser accepts the text as a plain
/// JSON number; a function of the text alone.
pub uninterp spec fn is_json_num(s: Seq<char>) -> bool;

/// Relies on the shape of `serde_json::Value`: each node is carried
/// over one variant at a time, integers through `Number::as_i64`, other
/// numbers through `Number`'s `Display`.
#[verifier::external_body]
fn value_to_doc(v: &serde_json::Value) -> JsonValue {
    match v {
        serde_json::Value::Null => JsonValue::Null,
        serde_json::Value::Bool(b) => JsonValue::Bool(*b),
        serde_json::Value::Number(n) => match n.as_i64() {
            Some(i) => JsonValue::Int(i),
            None => JsonValue::Num(n.to_string()),
        },
        serde_json::Value::String(s) => JsonValue::Str(s.clone()),
        serde_json::Value::Array(a) => JsonValue::Arr(a.iter().map(value_to_doc).collect()),
        serde_json::Value::Object(m) => JsonValue::Obj(
            m.iter().map(|(k, x)| (k.clone(), value_to_doc(x))).collect(),
        ),
    }
}

/// Relies on the shape of `serde_json::Value`: the reverse carrying,
/// number texts through `Number`'s `FromStr` (the caller has checked
/// them, see `doc_nums_ok`).
#[verifier::external_body]
fn doc_to_value(d: &JsonValue) -> serde_json::Value {
    match d {
        JsonValue::Null => serde_json::Value::Null,
        JsonValue::Bool(b) => serde_json::Value::Bool(*b),
        JsonValue::Int(i) => serde_json::Value::from(*i),
        JsonValue::Num(t) => serde_json::Value::Number(
            t.parse::<serde_json::Number>().expect("unchecked number text"),
        ),
        JsonValue::Str(s) => serde_json::Value::String(s.clone()),
        JsonValue::Arr(a) => serde_json::Value::Array(a.iter().map(doc_to_value).collect()),
        JsonValue::Obj(es) => serde_json::Value::Object(
            es.iter().map(|(k, x)| (k.clone(), doc_to_value(x))).collect(),
        ),
    }
}

/// Relies on `serde_json::from_str` for `Value`: parses the text and
/// carries the document into the library's shape.
#[verifier::external_body]
pub fn parse_json_text(s: &str) -> (r: Option<JsonValue>)
    ensures
        r == json_of(s@),
{
    match serde_json::from_str::<serde_json::Value>(s) {
        Ok(v) => Some(value_to_doc(&v)),
        Err(_) => None,
    }
}

/// Relies on `serde_json`'s `Display` for `Value`: renders the document
/// as compact JSON text. Every number text in the document must have
/// been checked, since the number parser rejects anything else.
#[verifier::external_body]
pub(crate) fn render_json_text(d: &JsonValue) -> (r: String)
    requires
        doc_nums_ok(*d),
    ensures
        r@ == json_text_of(*d),
{
    doc_to_value(d).to_string()
}

/// Relies on `FromStr` for `serde_json::Number`: whether the text is a
/// plain JSON number.
#[verifier::external_body]
pub fn check_json_num(s: &str) -> (r: bool)
    ensures
        r == is_json_num(s@),
{
    s.parse::<serde_json::Number>().is_ok()
}

/// Every number text in the document is one the number parser accepts.
pub open spec fn doc_nums_ok(d: JsonValue) -> bool
    decreases d,
{
    match d {
        JsonValue::Num(t) => is_json_num(t@),
        JsonValue::Arr(items) => forall|i: int|
            0 <= i < items@.len() ==> doc_nums_ok(#[trigger] items@[i]),
        JsonValue::Obj(es) => forall|i: int|
            0 <= i < es@.len() ==> doc_nums_ok(#[trigger] es@[i].1),
        _ => true,
    }
}

/// The first member under the key among an object's pairs.
pub open spec fn spec_obj_get(
    entries: Seq<(String, JsonValue)>,
    key: Seq<char>,
) -> Option<JsonValue>
    decreases entries.len(),
{
    if entries.len() == 0 {
        None
    } else if entries[0].0@ == key {
        Some(entries[0].1)
    } else {
        spec_obj_get(entries.subrange(1, entries.len() as int), key)
    }
}

/// The member under the key, when the document is an object.
pub open spec fn spec_get(d: JsonValue, key: Seq<char>) -> Option<JsonValue> {
    match d {
        JsonValue::Obj(entries) => spec_obj_get(entries@, key),
        _ => None,
    }
}

/// A prefix free of the key can be skipped without changing the member
/// found.
proof fn lemma_obj_get_skip(entries: Seq<(String, JsonValue)>, key: Seq<char>, i: int)
    requires
        0 <= i <= entries.len(),
        forall|j: int| 0 <= j < i ==> (#[trigger] entries[j]).0@ != key,
    ensures
        spec_obj_get(entries, key) == spec_obj_get(
            entries.subrange(i, entries.len() as int),
            key,
        ),
    decreases i,
{
    if i > 0 {
        let rest = entries.subrange(1, entries.len() as int);
        lemma_obj_get_skip(rest, key, i - 1);
        assert(rest.subrange(i - 1, rest.len() as int) =~= entries.subrange(
            i,
            entries.len() as int,
        ));
    } else {
        assert(entries.subrange(0, entries.len() as int) =~= entries);
    }
}

/// Finds the member under the key, when the document is an object.
pub fn doc_get<'a>(d: &'a JsonValue, key: &str) -> (r: Option<&'a JsonValue>)
    ensures
        spec_get(*d, key@) is None ==> r is None,
        spec_get(*d, key@) is Some ==> r is Some && *r->0 == spec_get(*d, key@)->0,
{
    match d {
        JsonValue::Obj(entries) => {
            let key_owned = key.to_owned();
            let mut i: usize = 0;
            while i < entries.len()
                invariant
                    i <= entries@.len(),
                    key_owned@ == key@,
                    *d == JsonValue::Obj(*entries),
                    forall|j: int| 0 <= j < i ==> (#[trigger] entries@[j]).0@ != key@,
                decreases entries@.len() - i,
            {
                if entries[i].0 == key_owned {
                    proof {
                        lemma_obj_get_skip(entries@, key@, i as int);
                        let tail = entries@.subrange(i as int, entries@.len() as int);
                        assert(tail[0] == entries@[i as int]);
                    }
                    return Some(&entries[i].1);
                }
                i += 1;
            }
            proof {
                lemma_obj_get_skip(entries@, key@, entries@.len() as int);
                assert(entries@.subrange(entries@.len() as int, entries@.len() as int).len()
                    == 0);
            }
            None
        },
        _ => None,
    }
}

/// A required integer member, when present and integral.
pub open spec fn spec_req_i64_of(d: JsonValue, key: Seq<char>) -> Option<i64> {
    match spec_get(d, key) {
        Some(JsonValue::Int(n)) => Some(n),
        _ => None,
    }
}

/// An optional integer member: `None` for a shape error, `Some(None)`
/// for absent or null.
pub open spec fn spec_opt_i64_of(d: JsonValue, key: Seq<char>) -> Option<Option<i64>> {
    match spec_get(d, key) {
        None => Some(None),
        Some(m) => match m {
            JsonValue::Null => Some(None),
            JsonValue::Int(n) => Some(Some(n)),
            _ => None,
        },
    }
}

/// A required string member, when present and a string.
pub open spec fn spec_req_str_of(d: JsonValue, key: Seq<char>) -> Option<String> {
    match spec_get(d, key) {
        Some(JsonValue::Str(s)) => Some(s),
        _ => None,
    }
}

/// An optional string member: `None` for a shape error, `Some(None)`
/// for absent or null.
pub open spec fn spec_opt_str_of(d: JsonValue, key: Seq<char>) -> Option<Option<String>> {
    match spec_get(d, key) {
        None => Some(None),
        Some(m) => match m {
            JsonValue::Null => Some(None),
            JsonValue::Str(s) => Some(Some(s)),
            _ => None,
        },
    }
}

/// The decimal text of a required numeric member: an integer renders in
/// base ten, any other number keeps the text the parser carried.
pub open spec fn spec_num_text_of(d: JsonValue, key: Seq<char>) -> Option<Seq<char>> {
    match spec_get(d, key) {
        Some(JsonValue::Int(n)) => Some(spec_dec_int(n as int)),
        Some(JsonValue::Num(t)) => Some(t@),
        _ => None,
    }
}

/// A required integer member.
pub(crate) fn get_i64(d: &JsonValue, key: &str) -> (r: Result<i64, crate::error::ApiError>)
    ensures
        r == match spec_req_i64_of(*d, key@) {
            Some(n) => Ok::<i64, crate::error::ApiError>(n),
            None => Err::<i64, crate::error::ApiError>(crate::error::ApiError::Parse),
        },
{
    match doc_get(d, key) {
        Some(JsonValue::Int(n)) => Ok(*n),
        _ => Err(crate::error::ApiError::Parse),
    }
}

/// An optional integer member: absent or null is `None`, any other
/// non-integer shape is an error.
pub(crate) fn get_opt_i64(d: &JsonValue, key: &str) -> (r: Result<
    Option<i64>,
    crate::error::ApiError,
>)
    ensures
        r == match spec_opt_i64_of(*d, key@) {
            Some(v) => Ok::<Option<i64>, crate::error::ApiError>(v),
            None => Err::<Option<i64>, crate::error::ApiError>(crate::error::ApiError::Parse),
        },
{
    match doc_get(d, key) {
        None => Ok(None),
        Some(JsonValue::Null) => Ok(None),
        Some(JsonValue::Int(n)) => Ok(Some(*n)),
        Some(_) => Err(crate::error::ApiError::Parse),
    }
}

/// A required integer member that must fit 32 bits.
pub(crate) fn get_i32(d: &JsonValue, key: &str) -> (r: Result<i32, crate::error::ApiError>)
    ensures
        r == match spec_req_i64_of(*d, key@) {
            Some(n) => if i32::MIN <= n <= i32::MAX {
                Ok::<i32, crate::error::ApiError>(n as i32)
            } else {
                Err::<i32, crate::error::ApiError>(crate::error::ApiError::Parse)
            },
            None => Err::<i32, crate::error::ApiError>(crate::error::ApiError::Parse),
        },
{
    let n = get_i64(d, key)?;
    if n < i32::MIN as i64 || n > i32::MAX as i64 {
        Err(crate::error::ApiError::Parse)
    } else {
        Ok(n as i32)
    }
}

/// A required string member.
pub(crate) fn get_string(d: &JsonValue, key: &str) -> (r: Result<String, crate::error::ApiError>)
    ensures
        r == match spec_req_str_of(*d, key@) {
            Some(s) => Ok::<String, crate::error::ApiError>(s),
            None => Err::<String, crate::error::ApiError>(crate::error::ApiError::Parse),
        },
{
    match doc_get(d, key) {
        Some(JsonValue::Str(s)) => Ok(s.clone()),
        _ => Err(crate::error::ApiError::Parse),
    }
}

/// An optional string member: absent or null is `None`.
pub(crate) fn get_opt_string(d: &JsonValue, key: &str) -> (r: Result<
    Option<String>,
    crate::error::ApiError,
>)
    ensures
        r == match spec_opt_str_of(*d, key@) {
            Some(v) => Ok::<Option<String>, crate::error::ApiError>(v),
            None => Err::<Option<String>, crate::error::ApiError>(crate::error::ApiError::Parse),
        },
{
    match doc_get(d, key) {
        None => Ok(None),
        Some(JsonValue::Null) => Ok(None),
        Some(JsonValue::Str(s)) => Ok(Some(s.clone())),
        Some(_) => Err(crate::error::ApiError::Parse),
    }
}

/// A required numeric member carried on as its decimal text.
pub(crate) fn get_number_text(d: &JsonValue, key: &str) -> (r: Result<
    String,
    crate::error::ApiError,
>)
    ensures
        match spec_num_text_of(*d, key@) {
            Some(t) => r is Ok && (r->Ok_0)@ == t,
            None => r == Err::<String, crate::error::ApiError>(crate::error::ApiError::Parse),
        },
{
    match doc_get(d, key) {
        Some(JsonValue::Int(n)) => Ok(i64_to_dec(*n)),
        Some(JsonValue::Num(t)) => Ok(t.clone()),
        _ => Err(crate::error::ApiError::Parse),
    }
}

} // verus!
