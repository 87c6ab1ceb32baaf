//! Failures of a call, and their tagging by the endpoint that failed.
use vstd::prelude::*;

verus! {

/// Why a request failed, independent of the endpoint.
#[derive(Clone, Debug, PartialEq, Eq)]
pub enum ErrorHandle {
    /// The request did not complete (`status` is `None`), or the server
    /// answered with a non-success status.
    Transport { status: Option<u16>, message: String },
    /// The body was not JSON of the expected shape.
    Deserialization(String),
}

/// Failures of the store service's endpoints, tagged by endpoint.
#[derive(Clone, Debug, PartialEq, Eq)]
pub enum StoreServiceError {
    GetAppList(ErrorHandle),
}

impl ErrorHandle {
    /// Tags a failure as one of `GetAppList`.
    pub fn into_get_app_list(self) -> (r: StoreServiceError)
        ensures
            r == StoreServiceError::GetAppList(self),
    {
        StoreServiceError::GetAppList(self)
    }
}

} // verus!
