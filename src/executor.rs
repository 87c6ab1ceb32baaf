//! The shared request pipeline: request URLs, the outcome of a request, and
//! the `{ "response": ... }` envelope around every payload.
use vstd::prelude::*;
use vstd::string::StringExecFns;

use crate::errors::ErrorHandle;
use crate::json::{field_index, member, Json};
use crate::query::{decimal, push_decimal};

verus! {

/// Root of every request URL.
pub const BASE: &'static str = "https://api.steampowered.com";

/// `{base}/{interface}/{endpoint}/v{version}/{query}`.
pub open spec fn url_text(
    base: Seq<char>,
    interface: Seq<char>,
    endpoint: Seq<char>,
    version: Seq<char>,
    query: Seq<char>,
) -> Seq<char> {
    base + seq!['/'] + interface + seq!['/'] + endpoint + seq!['/', 'v'] + version + seq!['/'] + query
}

/// A 2xx status.
pub open spec fn is_success(status: u16) -> bool {
    200 <= status <= 299
}

/// The message that goes with a non-success status.
pub open spec fn status_message(status: u16) -> Seq<char> {
    seq!['H', 'T', 'T', 'P', ' ', 's', 't', 'a', 't', 'u', 's', ' '] + decimal(status as nat)
}

/// What a request came to: the transport's failure message, or the status
/// with the body's JSON (or the parser's message).
pub type HttpOutcome = Result<(u16, Result<Json, String>), String>;

/// The body of a request that completed with a success status and whose
/// body parsed as JSON.
pub open spec fn outcome_body(outcome: HttpOutcome) -> Option<Json> {
    match outcome {
        Ok((status, Ok(j))) => if is_success(status) {
            Some(j)
        } else {
            None
        },
        _ => None,
    }
}

/// The failure for an outcome without a body: a failed transport, a
/// non-success status (with its message), or the parser's message.
pub open spec fn execute_failure(outcome: HttpOutcome, e: ErrorHandle) -> bool {
    match outcome {
        Err(m) => e == ErrorHandle::Transport { status: None, message: m },
        Ok((status, parsed)) => if !is_success(status) {
            e matches ErrorHandle::Transport { status: s, message: m } && s == Some(status) && m@
                == status_message(status)
        } else {
            match parsed {
                Err(m) => e == ErrorHandle::Deserialization(m),
                Ok(_) => false,
            }
        },
    }
}

/// The payload inside an envelope: its member `response`.
pub open spec fn envelope_payload(j: Json) -> Option<Json> {
    member(j, "response"@)
}

/// Composes a request URL.
pub fn request_url(base: &str, interface: &str, endpoint: &str, version: &str, query: &str) -> (r:
    String)
    ensures
        r@ == url_text(base@, interface@, endpoint@, version@, query@),
{
    proof {
        reveal_strlit("/");
        reveal_strlit("/v");
    }
    let mut out = String::from_str(base);
    out.append("/");
    out.append(interface);
    out.append("/");
    out.append(endpoint);
    out.append("/v");
    out.append(version);
    out.append("/");
    out.append(query);
    assert(out@ =~= url_text(base@, interface@, endpoint@, version@, query@));
    out
}

/// Whether a status is a success.
pub fn success_status(status: u16) -> (r: bool)
    ensures
        r == is_success(status),
{
    200 <= status && status <= 299
}

/// Turns the outcome of a request into the body's JSON, or a transport or
/// deserialization failure. A failed transport and a non-success status are
/// transport failures; an unparsable body on success is a deserialization
/// failure carrying the parser's message.
pub fn execute(outcome: HttpOutcome) -> (r: Result<Json, ErrorHandle>)
    ensures
        match outcome_body(outcome) {
            Some(j) => r == Ok::<Json, ErrorHandle>(j),
            None => r matches Err(e) && execute_failure(outcome, e),
        },
{
    match outcome {
        Err(m) => Err(ErrorHandle::Transport { status: None, message: m }),
        Ok((status, parsed)) => {
            if !success_status(status) {
                proof {
                    reveal_strlit("HTTP status ");
                }
                let mut m = String::from_str("HTTP status ");
                push_decimal(&mut m, status as u64);
                assert(m@ =~= status_message(status));
                Err(ErrorHandle::Transport { status: Some(status), message: m })
            } else {
                match parsed {
                    Err(m) => Err(ErrorHandle::Deserialization(m)),
                    Ok(j) => Ok(j),
                }
            }
        },
    }
}

/// Takes the payload out of an envelope; fails as a deserialization failure
/// where the value is not an object with a member `response`.
pub fn unwrap_envelope(j: Json) -> (r: Result<Json, ErrorHandle>)
    ensures
        match envelope_payload(j) {
            Some(p) => r == Ok::<Json, ErrorHandle>(p),
            None => r matches Err(ErrorHandle::Deserialization(_)),
        },
{
    match j {
        Json::Object(fields) => {
            let mut fields = fields;
            match field_index(&fields, "response") {
                Some(i) => {
                    let (_, payload) = fields.remove(i);
                    Ok(payload)
                },
                None => Err(ErrorHandle::Deserialization(String::from_str("missing field `response`"))),
            }
        },
        _ => Err(ErrorHandle::Deserialization(String::from_str("expected an object with a field `response`"))),
    }
}

} // verus!
