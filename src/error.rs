//! What can go wrong between the body of a response and its typed value.
use vstd::prelude::*;
use vstd::string::StringExecFns;

verus! {

/// Why a response body did not give a typed result.
pub enum ResponseError {
    /// The text, after any repair, is not JSON; it is kept for diagnosis.
    Malformed(String),
    /// The JSON lacks a required member, or holds one of the wrong shape.
    Decode { endpoint: String, field: String },
}

/// `e` is the decode error of `endpoint` that names `field`.
pub open spec fn is_decode_error(e: ResponseError, endpoint: Seq<char>, field: Seq<char>) -> bool {
    match e {
        ResponseError::Decode { endpoint: ep, field: f } => ep@ == endpoint && f@ == field,
        _ => false,
    }
}

/// `e` is the parse failure that carries `text`.
pub open spec fn is_malformed(e: ResponseError, text: Seq<char>) -> bool {
    match e {
        ResponseError::Malformed(t) => t@ == text,
        _ => false,
    }
}

/// The decode error of `endpoint` that names `field`.
pub fn decode_error(endpoint: &str, field: &str) -> (e: ResponseError)
    ensures
        is_decode_error(e, endpoint@, field@),
{
    ResponseError::Decode { endpoint: String::from_str(endpoint), field: String::from_str(field) }
}

} // verus!
