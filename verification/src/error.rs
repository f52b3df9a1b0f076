//! The errors an API response can produce.

use vstd::prelude::*;

verus! {

/// Why a response could not be turned into records.
#[derive(Debug, Clone)]
pub enum ApiError {
    /// The response lacked the `data` envelope or a record field.
    MalformedResponse,
    /// The response reported status 401; carries the full response body.
    Authorization(String),
}

impl ApiError {
    /// True exactly of the `MalformedResponse` variant.
    pub fn is_malformed(&self) -> (r: bool)
        ensures
            r == (self is MalformedResponse),
    {
        match self {
            ApiError::MalformedResponse => true,
            ApiError::Authorization(_) => false,
        }
    }
}

} // verus!
