//! The error body that every failed request answers with.
use vstd::prelude::*;

verus! {

/// HTTP status of a request that carries no valid credential.
pub const UNAUTHORIZED: u16 = 401;

/// Body of every failure response: `{"err": <message>}`.
#[derive(Clone, Debug)]
pub struct ApiError {
    pub err: String,
}

/// Pairs a status code with the error body that carries `msg`.
pub fn resp_err(code: u16, msg: &str) -> (r: (u16, ApiError))
    ensures
        r.0 == code,
        r.1.err@ == msg@,
{
    (code, ApiError { err: msg.to_string() })
}

} // verus!
