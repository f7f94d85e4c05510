//! Which origins may read the service's responses.

use vstd::prelude::*;
use vstd::string::{StringExecFns, StringSliceAdditionalSpecFns};

verus! {

/// A byte that may stand in the value of an HTTP header: a tab, or anything
/// from the space on but the delete character.
pub open spec fn is_header_byte(b: u8) -> bool {
    b >= 32 && b != 127 || b == 9
}

/// The text can be the value of an HTTP header: each byte of its UTF-8 form
/// may stand in one.
pub open spec fn is_header_value(text: &str) -> bool {
    forall|i: int|
        0 <= i < text.spec_bytes().len() ==> is_header_byte(#[trigger] text.spec_bytes()[i])
}

/// Calls `HeaderValue::from_str` of the crate `http`, as axum hands it on,
/// and says whether it took the text. It takes a text exactly where none of
/// the text's bytes is a control character other than the tab.
#[verifier::external_body]
fn parses_as_header_value(text: &str) -> (taken: bool)
    ensures
        taken == is_header_value(text),
{
    axum::http::HeaderValue::from_str(text).is_ok()
}

/// The origins that may read a response.
#[derive(Debug, Clone, PartialEq, Eq)]
pub enum AllowedOrigin {
    /// This origin alone.
    Exact(String),
    /// Every origin.
    Any,
}

/// What the service allows to requests from other origins.
#[derive(Debug, Clone, PartialEq, Eq)]
pub struct CorsPolicy {
    pub origin: AllowedOrigin,
    /// The methods allowed, by name.
    pub methods: Vec<String>,
    /// Whether every request header is allowed.
    pub any_header: bool,
}

/// The policy for the configured origin: that origin alone where it can be
/// the value of a header, else every origin; `GET` alone; every header.
pub fn cors_policy(cors_origin: &str) -> (policy: CorsPolicy)
    ensures
        match policy.origin {
            AllowedOrigin::Exact(origin) => is_header_value(cors_origin) && origin@
                == cors_origin@,
            AllowedOrigin::Any => !is_header_value(cors_origin),
        },
        policy.methods@.len() == 1,
        policy.methods@[0]@ == "GET"@,
        policy.any_header,
{
    let origin = if parses_as_header_value(cors_origin) {
        AllowedOrigin::Exact(String::from_str(cors_origin))
    } else {
        AllowedOrigin::Any
    };
    let mut methods: Vec<String> = Vec::new();
    methods.push(String::from_str("GET"));
    CorsPolicy { origin, methods, any_header: true }
}

} // verus!
