//! Error taxonomy shared by every coordinator.
//!
//! `NotFound` marks a missing aggregate, `BadRequest` a domain-rule
//! violation, `InternalError` malformed data from a trusted backing service,
//! and `Unauthorized` a missing or invalid actor credential.

use vstd::prelude::*;

verus! {

#[derive(Debug, Clone)]
pub enum ApiError {
    NotFound,
    BadRequest(String),
    InternalError(String),
    Unauthorized,
}

impl ApiError {
    pub fn not_found() -> (r: ApiError)
        ensures
            r is NotFound,
    {
        ApiError::NotFound
    }

    pub fn bad_request(msg: &str) -> (r: ApiError)
        ensures
            r matches ApiError::BadRequest(m) && m@ == msg@,
    {
        ApiError::BadRequest(String::from_str(msg))
    }

    pub fn internal_error(msg: &str) -> (r: ApiError)
        ensures
            r matches ApiError::InternalError(m) && m@ == msg@,
    {
        ApiError::InternalError(String::from_str(msg))
    }

    pub fn unauthorized() -> (r: ApiError)
        ensures
            r is Unauthorized,
    {
        ApiError::Unauthorized
    }
}

} // verus!
