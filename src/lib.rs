//! A typed client for the Steam Web API: query encoding, request URLs,
//! response envelopes and error classification, with verified contracts.
use vstd::prelude::*;
use vstd::string::StringExecFns;

pub mod errors;
pub mod executor;
pub mod json;
pub mod query;
pub mod store_service;

verus! {

/// A client: the API key sent with every request.
#[derive(Clone, Debug)]
pub struct Steam {
    pub api_key: String,
}

impl Steam {
    /// A client for the given API key.
    pub fn new(api_key: &str) -> (r: Steam)
        ensures
            r.api_key@ == api_key@,
    {
        Steam { api_key: String::from_str(api_key) }
    }
}

} // verus!
