//! A JSON document as the compositor's IPC replies carry it, and the lookups
//! the tool performs on one.

use vstd::prelude::*;

use crate::error::Error;

verus! {

/// A JSON value. A number keeps its value when it is a non-negative integer
/// that fits in `u64`, and always its text as serde_json writes it.
#[derive(Debug)]
pub enum Json {
    Null,
    Bool(bool),
    Number(Option<u64>, String),
    Str(String),
    Array(Vec<Json>),
    Object(Vec<(String, Json)>),
}

/// The value of the first member named `key`.
pub open spec fn lookup(members: Seq<(String, Json)>, key: Seq<char>) -> Option<Json>
    decreases members.len(),
{
    if members.len() == 0 {
        None
    } else if members[0].0@ == key {
        Some(members[0].1)
    } else {
        lookup(members.drop_first(), key)
    }
}

/// The member `key` of an object; nothing for any other value.
pub open spec fn member(j: Json, key: Seq<char>) -> Option<Json> {
    match j {
        Json::Object(members) => lookup(members@, key),
        _ => None,
    }
}

/// Element `i` of an array; nothing for any other value or an index past the
/// end.
pub open spec fn element(j: Json, i: int) -> Option<Json> {
    match j {
        Json::Array(items) => if 0 <= i < items@.len() { Some(items@[i]) } else { None },
        _ => None,
    }
}

/// The elements of an array.
pub open spec fn items(j: Json) -> Option<Seq<Json>> {
    match j {
        Json::Array(v) => Some(v@),
        _ => None,
    }
}

/// A number's value when it is a non-negative integer.
pub open spec fn as_u64(j: Json) -> Option<u64> {
    match j {
        Json::Number(n, _) => n,
        _ => None,
    }
}

/// A boolean's value.
pub open spec fn as_bool(j: Json) -> Option<bool> {
    match j {
        Json::Bool(b) => Some(b),
        _ => None,
    }
}

/// A string's characters.
pub open spec fn as_text(j: Json) -> Option<Seq<char>> {
    match j {
        Json::Str(s) => Some(s@),
        _ => None,
    }
}

/// A number's text.
pub open spec fn number_text(j: Json) -> Option<Seq<char>> {
    match j {
        Json::Number(_, t) => Some(t@),
        _ => None,
    }
}

/// `r` is a reference to the value `o` holds, or nothing when `o` is empty.
pub open spec fn refers_to(r: Option<&Json>, o: Option<Json>) -> bool {
    match r {
        Some(v) => o == Some(*v),
        None => o is None,
    }
}

/// Optional `u64` field `key` of `j`, when it holds a non-negative integer.
pub open spec fn u64_member(j: Json, key: Seq<char>) -> Option<u64> {
    match member(j, key) {
        Some(v) => as_u64(v),
        None => None,
    }
}

impl Json {
    /// The member `key`, when this is an object that has one.
    pub fn get(&self, key: &str) -> (r: Option<&Json>)
        ensures
            refers_to(r, member(*self, key@)),
    {
        match self {
            Json::Object(members) => {
                let wanted = String::from_str(key);
                let mut i: usize = 0;
                assert(members@.skip(0) =~= members@);
                while i < members.len()
                    invariant
                        i <= members@.len(),
                        wanted@ == key@,
                        member(*self, key@) == lookup(members@, key@),
                        lookup(members@, key@) == lookup(members@.skip(i as int), key@),
                    decreases members@.len() - i,
                {
                    assert(members@.skip(i as int).drop_first() =~= members@.skip(
                        (i + 1) as int,
                    ));
                    assert(members@.skip(i as int)[0] == members@[i as int]);
                    if members[i].0 == wanted {
                        return Some(&members[i].1);
                    }
                    i = i + 1;
                }
                None
            },
            _ => None,
        }
    }

    /// Element `i`, when this is an array long enough to have one.
    pub fn at(&self, i: usize) -> (r: Option<&Json>)
        ensures
            refers_to(r, element(*self, i as int)),
    {
        match self {
            Json::Array(v) => if i < v.len() { Some(&v[i]) } else { None },
            _ => None,
        }
    }

    /// The elements, when this is an array.
    pub fn as_array(&self) -> (r: Option<&Vec<Json>>)
        ensures
            match r {
                Some(v) => items(*self) == Some(v@),
                None => items(*self) is None,
            },
    {
        match self {
            Json::Array(v) => Some(v),
            _ => None,
        }
    }

    /// The value, when this is a non-negative integer.
    pub fn as_u64(&self) -> (r: Option<u64>)
        ensures
            r == as_u64(*self),
    {
        match self {
            Json::Number(n, _) => *n,
            _ => None,
        }
    }

    /// The value, when this is a boolean.
    pub fn as_bool(&self) -> (r: Option<bool>)
        ensures
            r == as_bool(*self),
    {
        match self {
            Json::Bool(b) => Some(*b),
            _ => None,
        }
    }

    /// The text, when this is a string.
    pub fn as_str(&self) -> (r: Option<&str>)
        ensures
            match r {
                Some(s) => as_text(*self) == Some(s@),
                None => as_text(*self) is None,
            },
    {
        match self {
            Json::Str(s) => Some(s.as_str()),
            _ => None,
        }
    }

    /// The text of a number, when this is one.
    pub fn as_number_text(&self) -> (r: Option<&str>)
        ensures
            match r {
                Some(s) => number_text(*self) == Some(s@),
                None => number_text(*self) is None,
            },
    {
        match self {
            Json::Number(_, t) => Some(t.as_str()),
            _ => None,
        }
    }

    /// The non-negative integer held by member `key`, if any.
    pub fn u64_field(&self, key: &str) -> (r: Option<u64>)
        ensures
            r == u64_member(*self, key@),
    {
        match self.get(key) {
            Some(v) => v.as_u64(),
            None => None,
        }
    }
}

/// `serde_json::Value`, the document serde_json parses into.
#[verifier::external_type_specification]
#[verifier::external_body]
pub struct ExJsonValue(serde_json::Value);

/// The document `serde_json::from_str::<serde_json::Value>` parses out of
/// `raw`, taken as a `Json`, or nothing when it reports an error. It depends on
/// `raw` alone.
pub uninterp spec fn parsed_json(raw: Seq<char>) -> Option<Json>;

/// Parses `raw` with `serde_json::from_str` into a `serde_json::Value` and
/// takes that value over as a `Json`. Claimed: it succeeds exactly when
/// serde_json does, and the document is `parsed_json(raw)`. The error text is
/// serde_json's and is left unsaid.
#[verifier::external_body]
pub(crate) fn parse_json(raw: &str) -> (r: Result<Json, String>)
    ensures
        r is Ok <==> parsed_json(raw@) is Some,
        r matches Ok(j) ==> parsed_json(raw@) == Some(j),
{
    serde_json::from_str::<serde_json::Value>(raw).map(|v| json_from_value(&v)).map_err(|e| e.to_string())
}

/// Takes a `serde_json::Value` over as a `Json`, one variant for one, the way
/// `parse_json` hands on what serde_json parsed: a number keeps
/// `Number::as_u64` and its `Display` text. A separate function only because
/// the conversion recurses into arrays and objects.
#[verifier::external_body]
fn json_from_value(v: &serde_json::Value) -> Json {
    match v {
        serde_json::Value::Null => Json::Null,
        serde_json::Value::Bool(b) => Json::Bool(*b),
        serde_json::Value::Number(n) => Json::Number(n.as_u64(), n.to_string()),
        serde_json::Value::String(s) => Json::Str(s.clone()),
        serde_json::Value::Array(a) => Json::Array(a.iter().map(json_from_value).collect()),
        serde_json::Value::Object(o) => Json::Object(o.iter().map(|(k, x)| (k.clone(), json_from_value(x))).collect()),
    }
}

/// Whether `r` is an IPC error whose message starts with `context` and `": "`.
pub open spec fn is_parse_error<T>(r: Result<T, Error>, context: Seq<char>) -> bool {
    r matches Err(Error::Ipc(m)) && (context + ": "@).is_prefix_of(m@)
}

/// Parses a reply of the compositor. When it is not JSON, the error is an IPC
/// error whose message is `context`, `": "` and serde_json's explanation.
pub fn parse_reply(raw: &str, context: &str) -> (r: Result<Json, Error>)
    ensures
        match parsed_json(raw@) {
            Some(j) => r matches Ok(v) && v == j,
            None => is_parse_error(r, context@),
        },
{
    match parse_json(raw) {
        Ok(j) => Ok(j),
        Err(e) => {
            let mut m = String::from_str(context);
            m.append(": ");
            m.append(e.as_str());
            assert((context@ + ": "@).is_prefix_of(m@)) by {
                assert(m@ =~= context@ + ": "@ + e@);
                assert(forall|i: int| 0 <= i < (context@ + ": "@).len() ==> m@[i] == (context@ + ": "@)[i]);
            }
            Err(Error::Ipc(m))
        },
    }
}

} // verus!
