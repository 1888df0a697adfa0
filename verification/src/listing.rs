//! Reading a listing response into posts.
//!
//! The listing endpoint answers with JSON of the shape
//! `data.children[].data.{name,domain,url}` and a trailing cursor under
//! `data.after`. The JSON values themselves are opaque to the verifier and
//! are carried through serde_json behind trusted wrappers; the walk over the
//! document is verified. A response missing any core field yields nothing,
//! which the watcher is told of as a failed fetch.

use vstd::prelude::*;

use crate::watcher::Post;

verus! {

#[verifier::external_type_specification]
#[verifier::external_body]
pub struct ExValue(serde_json::Value);

/// Relies on serde_json::from_str: text that is not JSON yields no value.
#[verifier::external_body]
pub(crate) fn parse_json(body: &str) -> (r: Option<serde_json::Value>) {
    serde_json::from_str::<serde_json::Value>(body).ok()
}

/// Relies on serde_json::Value::get: the value under this key, when the
/// value is an object holding the key.
#[verifier::external_body]
pub(crate) fn json_get<'a>(v: &'a serde_json::Value, key: &str) -> (r: Option<
    &'a serde_json::Value,
>) {
    v.get(key)
}

/// Relies on serde_json::Value::as_array: the elements, when the value is an
/// array.
#[verifier::external_body]
fn json_as_array(v: &serde_json::Value) -> (r: Option<&Vec<serde_json::Value>>) {
    v.as_array()
}

/// Relies on serde_json::Value::as_str: the content, when the value is a
/// string.
#[verifier::external_body]
pub(crate) fn json_as_str(v: &serde_json::Value) -> (r: Option<&str>) {
    v.as_str()
}

/// Relies on serde_json::Value::as_u64: the content, when the value is an
/// integer that fits.
#[verifier::external_body]
pub(crate) fn json_as_u64(v: &serde_json::Value) -> (r: Option<u64>) {
    v.as_u64()
}

/// The string under `key` of a JSON object, when there is one.
pub(crate) fn string_field(v: &serde_json::Value, key: &str) -> (r: Option<String>) {
    match json_get(v, key) {
        Some(f) => match json_as_str(f) {
            Some(s) => Some(s.to_owned()),
            None => None,
        },
        None => None,
    }
}

/// Split a listing response into its posts, in page order, and the trailing
/// cursor. A response that is not JSON, or whose core listing fields are
/// absent, yields nothing; a missing or non-string trailing token is a page
/// without a cursor.
pub fn parse_listing(body: &str) -> (r: Option<(Vec<Post>, Option<String>)>) {
    let root = match parse_json(body) {
        Some(v) => v,
        None => {
            return None;
        },
    };
    let data = match json_get(&root, "data") {
        Some(v) => v,
        None => {
            return None;
        },
    };
    let children = match json_get(data, "children") {
        Some(v) => v,
        None => {
            return None;
        },
    };
    let arr = match json_as_array(children) {
        Some(a) => a,
        None => {
            return None;
        },
    };
    let mut posts: Vec<Post> = Vec::new();
    let mut idx: usize = 0;
    while idx < arr.len()
        decreases arr@.len() - idx,
    {
        let wrapper = &arr[idx];
        let pd = match json_get(wrapper, "data") {
            Some(v) => v,
            None => {
                return None;
            },
        };
        let name = match string_field(pd, "name") {
            Some(s) => s,
            None => {
                return None;
            },
        };
        let domain = match string_field(pd, "domain") {
            Some(s) => s,
            None => {
                return None;
            },
        };
        let url = match string_field(pd, "url") {
            Some(s) => s,
            None => {
                return None;
            },
        };
        posts.push(Post { name, domain, url });
        idx += 1;
    }
    let after = string_field(data, "after");
    Some((posts, after))
}

} // verus!
