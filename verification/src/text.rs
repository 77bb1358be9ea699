//! The boundary to `serde_json`: reading manifest documents from text or
//! bytes.
//!
//! JSON syntax itself is parsed by `serde_json`; everything after the parse
//! — mapping the tree onto the manifest model — is the verified code in
//! [`crate::decode`]. The items marked `external_body` here are the trusted
//! boundary, each relying on one `serde_json` function.

use vstd::prelude::*;

use crate::decode::spec_decode;
use crate::error::Error;
use crate::json::Json;
use crate::json::JsonView;
use crate::model::Package;

verus! {

#[verifier::external_type_specification]
#[verifier::external_body]
pub struct ExValue(serde_json::Value);

/// The tree that a `serde_json::Value` holds, with every number as the
/// decimal text it carries.
pub uninterp spec fn value_view(v: serde_json::Value) -> JsonView;

/// The JSON tree that a text parses to, if the text is one valid JSON
/// document, and nothing otherwise.
pub uninterp spec fn parsed_json(s: Seq<char>) -> Option<JsonView>;

/// The JSON tree that a byte buffer parses to, if the buffer is one valid
/// JSON document in UTF-8, and nothing otherwise.
pub uninterp spec fn parsed_json_bytes(b: Seq<u8>) -> Option<JsonView>;

/// Relies on `serde_json::from_str::<Value>`: it returns the parsed value
/// exactly when the text is one valid JSON document, and an error otherwise.
/// The error's payload is dropped at this boundary.
#[verifier::external_body]
fn parse_value(s: &str) -> (r: Option<serde_json::Value>)
    ensures
        r matches Some(v) ==> parsed_json(s@) == Some(value_view(v)),
        r is None ==> parsed_json(s@) is None,
{
    serde_json::from_str::<serde_json::Value>(s).ok()
}

/// Relies on `serde_json::from_slice::<Value>`: it returns the parsed value
/// exactly when the bytes are one valid JSON document in UTF-8, and an error
/// otherwise. The error's payload is dropped at this boundary.
#[verifier::external_body]
fn parse_value_bytes(b: &[u8]) -> (r: Option<serde_json::Value>)
    ensures
        r matches Some(v) ==> parsed_json_bytes(b@) == Some(value_view(v)),
        r is None ==> parsed_json_bytes(b@) is None,
{
    serde_json::from_slice::<serde_json::Value>(b).ok()
}

/// Relies on `serde_json::Value`'s own shape: each variant is carried over
/// one to one, a number to the decimal text it displays as.
#[verifier::external_body]
fn value_to_json(v: serde_json::Value) -> (r: Json)
    ensures
        r@ == value_view(v),
{
    match v {
        serde_json::Value::Null => Json::Null,
        serde_json::Value::Bool(b) => Json::Bool(b),
        serde_json::Value::Number(n) => Json::Num(n.to_string()),
        serde_json::Value::String(s) => Json::Str(s),
        serde_json::Value::Array(a) => Json::Arr(a.into_iter().map(value_to_json).collect()),
        serde_json::Value::Object(m) => Json::Obj(
            m.into_iter().map(|(k, w)| (k, value_to_json(w))).collect(),
        ),
    }
}

impl Package {
    /// Deserializes a `Package` from a string.
    ///
    /// The call succeeds exactly when the text is one valid JSON document
    /// whose tree decodes to a manifest, and yields that manifest; every
    /// failure is a parse failure.
    pub fn from_str(s: &str) -> (r: Result<Package, Error>)
        ensures
            parsed_json(s@) is None ==> r == Err::<Package, Error>(Error::Parse),
            parsed_json(s@) matches Some(j) ==> spec_decode(j) matches Some(p) ==> r matches Ok(
                q,
            ) && q@ == p,
            parsed_json(s@) matches Some(j) ==> spec_decode(j) is None ==> r == Err::<
                Package,
                Error,
            >(Error::Parse),
    {
        match parse_value(s) {
            Some(v) => {
                let j = value_to_json(v);
                Package::from_json(&j)
            },
            None => Err(Error::Parse),
        }
    }

    /// Deserializes a `Package` from bytes.
    ///
    /// The call succeeds exactly when the bytes are one valid JSON document
    /// in UTF-8 whose tree decodes to a manifest, and yields that manifest;
    /// every failure is a parse failure.
    pub fn from_slice(v: &[u8]) -> (r: Result<Package, Error>)
        ensures
            parsed_json_bytes(v@) is None ==> r == Err::<Package, Error>(Error::Parse),
            parsed_json_bytes(v@) matches Some(j) ==> spec_decode(j) matches Some(p) ==> r matches
                Ok(q) && q@ == p,
            parsed_json_bytes(v@) matches Some(j) ==> spec_decode(j) is None ==> r == Err::<
                Package,
                Error,
            >(Error::Parse),
    {
        match parse_value_bytes(v) {
            Some(w) => {
                let j = value_to_json(w);
                Package::from_json(&j)
            },
            None => Err(Error::Parse),
        }
    }
}

} // verus!
