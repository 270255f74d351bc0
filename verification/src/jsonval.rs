//! Reading the protocol fields off a raw JSON value.
//!
//! Inbound frames are parsed by `serde_json` outside this crate; the
//! parsed value reaches the dispatcher as a `serde_json::Value`.  What
//! the dispatcher reads of such a value — its string-valued fields —
//! is given a name, [`str_fields`], and the one trusted accessor below
//! is tied to that name; everything downstream works on the plain
//! [`Request`] assembled from four such reads, and [`req_of`] states
//! exactly which request a given value yields.

use vstd::prelude::*;

use crate::protocol::{ReqView, Request};

verus! {

/// `serde_json::Value`, declared so that it can stand in signatures;
/// its inside stays invisible to the verifier.
#[verifier::external_type_specification]
#[verifier::external_body]
pub struct ExValue(serde_json::Value);

/// The string-valued fields of a JSON value: the map from each key of
/// the value — when it is an object — whose entry holds a string, to
/// that string.  A non-object value has no such field.
pub uninterp spec fn str_fields(v: serde_json::Value) -> Map<Seq<char>, Seq<char>>;

/// The string field of `v` under `key`, if the value is an object and
/// holds one there.
pub open spec fn str_field_of(v: serde_json::Value, key: Seq<char>) -> Option<Seq<char>> {
    if str_fields(v).dom().contains(key) {
        Some(str_fields(v)[key])
    } else {
        None
    }
}

/// The request that a raw JSON value parses to: each protocol field is
/// the string field of the same name, the text of a post under `text`
/// or, as older clients send it, under `message`, with `text` taking
/// precedence.
pub open spec fn req_of(v: serde_json::Value) -> ReqView {
    ReqView {
        rtype: str_field_of(v, "type"@),
        uname: str_field_of(v, "uname"@),
        token: str_field_of(v, "token"@),
        text: if str_field_of(v, "text"@) is Some {
            str_field_of(v, "text"@)
        } else {
            str_field_of(v, "message"@)
        },
    }
}

/// Relies on `serde_json::Value::get`: indexing a JSON object by a
/// string key returns the value under that key, or nothing when the
/// value is not an object or has no such key.  The field is handed
/// back exactly when it holds a string: the named lookup.
#[verifier::external_body]
fn get_str_field(v: &serde_json::Value, key: &str) -> (r: Option<String>)
    ensures
        match r {
            Some(s) => str_fields(*v).contains_pair(key@, s@),
            None => !str_fields(*v).dom().contains(key@),
        },
{
    match v.get(key) {
        Some(serde_json::Value::String(s)) => Some(s.clone()),
        _ => None,
    }
}

/// Reads the four protocol fields off a raw request object, yielding
/// exactly the request that [`req_of`] states.
pub fn read_request(v: &serde_json::Value) -> (r: Request)
    ensures
        r@ == req_of(*v),
{
    let text = match get_str_field(v, "text") {
        Some(s) => Some(s),
        None => get_str_field(v, "message"),
    };
    let r = Request {
        rtype: get_str_field(v, "type"),
        uname: get_str_field(v, "uname"),
        token: get_str_field(v, "token"),
        text,
    };
    proof {
        assert(r@ =~= req_of(*v));
    }
    r
}

} // verus!
