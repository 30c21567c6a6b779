//! Error classification: turning a non-success transport result into
//! one of the typed errors, disambiguated by endpoint context.

use vstd::prelude::*;

use crate::error::{FlapsError, RawApiError};
use crate::machine::State;
use crate::strutil::spec_opt_str;

verus! {

/// Tags a request as a generic call or as a wait call annotated with
/// the desired state; the tag, not the URL, governs classification.
#[derive(Debug, Clone)]
pub enum ApiEndpoint {
    Other,
    Wait(State),
}

/// The error-envelope fields parsed out of a response body, if the body
/// is JSON of the canonical shape: status code, request id, error text
/// and optional message.
pub uninterp spec fn envelope_of(body: Seq<u8>) -> Option<
    (u64, Option<Seq<char>>, Seq<char>, Option<Seq<char>>),
>;

/// The text synthesized for an unparsable error body from the observed
/// status and the raw bytes.
pub uninterp spec fn fallback_error_text(status: u16, body: Seq<u8>) -> Seq<char>;

/// The view of the parsed envelope fields.
pub open spec fn spec_fields_view(r: Option<(u64, Option<String>, String, Option<String>)>) -> Option<
    (u64, Option<Seq<char>>, Seq<char>, Option<Seq<char>>),
> {
    match r {
        Some(p) => Some((p.0, spec_opt_str(p.1), p.2@, spec_opt_str(p.3))),
        None => None,
    }
}

/// Relies on serde_json::from_slice and serde_json::Value's accessors:
/// what a body parses to depends on its bytes alone.
#[verifier::external_body]
fn parse_envelope_fields(body: &Vec<u8>) -> (r: Option<(u64, Option<String>, String, Option<String>)>)
    ensures
        spec_fields_view(r) == envelope_of(body@),
{
    let v: serde_json::Value = serde_json::from_slice(body.as_slice()).ok()?;
    let status = v.get("status_code")?.as_u64()?;
    let error = v.get("error")?.as_str()?.to_string();
    let fly_request_id = v.get("fly_request_id").and_then(|x| x.as_str()).map(|s| s.to_string());
    let message = v.get("message").and_then(|x| x.as_str()).map(|s| s.to_string());
    Some((status, fly_request_id, error, message))
}

/// Relies on std's string formatting: the text depends on the status
/// and body alone.
#[verifier::external_body]
fn render_fallback_text(status: u16, body: &Vec<u8>) -> (r: String)
    ensures
        r@ == fallback_error_text(status, body@),
{
    format!("Server returned non-2xx status code {}, raw response: {:?}", status, body.as_slice())
}

/// The envelope `map_flaps_error` attaches to a classified error: the
/// parsed body when it parses (and its status code fits), else one
/// synthesized from the observed status, request id and raw body.
pub open spec fn spec_raw_of(
    body: Seq<u8>,
    request_id: Option<Seq<char>>,
    status: u16,
    raw: RawApiError,
) -> bool {
    match envelope_of(body) {
        Some(p) if p.0 <= 0xffff => raw.status_code == p.0 && spec_opt_str(raw.fly_request_id)
            == p.1 && raw.error@ == p.2 && spec_opt_str(raw.message) == p.3,
        _ => raw.status_code == status && spec_opt_str(raw.fly_request_id) == request_id
            && raw.error@ == fallback_error_text(status, body) && raw.message is None,
    }
}

fn build_raw(body: &Vec<u8>, fly_request_id: Option<String>, status: u16) -> (raw: RawApiError)
    ensures
        spec_raw_of(body@, spec_opt_str(fly_request_id), status, raw),
{
    match parse_envelope_fields(body) {
        Some((parsed_status, parsed_request_id, error, message)) => {
            if parsed_status <= 0xffff {
                RawApiError {
                    status_code: parsed_status as u16,
                    fly_request_id: parsed_request_id,
                    error,
                    message,
                }
            } else {
                RawApiError {
                    status_code: status,
                    fly_request_id,
                    error: render_fallback_text(status, body),
                    message: None,
                }
            }
        },
        None => RawApiError {
            status_code: status,
            fly_request_id,
            error: render_fallback_text(status, body),
            message: None,
        },
    }
}

/// What `map_flaps_error` returns, for every allowed input: statuses
/// outside the client/server-error range are unexpected; under a wait
/// context a 408 is the transient not-yet-converged signal, checked
/// before 404; a 404 is not-found; anything else is the catch-all, with
/// the envelope intact in each of the last three.
pub open spec fn spec_classified(
    body: Seq<u8>,
    request_id: Option<Seq<char>>,
    status: u16,
    endpoint: ApiEndpoint,
    e: FlapsError,
) -> bool {
    if status < 400 || status >= 600 {
        e == FlapsError::UnexpectedHttpStatus(status)
    } else if (endpoint matches ApiEndpoint::Wait(_)) && status == 408 {
        e matches FlapsError::DesiredStateNotReached { desired_state, raw } && desired_state
            == endpoint->Wait_0 && spec_raw_of(body, request_id, status, raw)
    } else if status == 404 {
        e matches FlapsError::NotFound(raw) && spec_raw_of(body, request_id, status, raw)
    } else {
        e matches FlapsError::UnknownFlapsError(raw) && spec_raw_of(body, request_id, status, raw)
    }
}

/// Classifies a non-success transport result as a typed error. Never
/// called on a success status: classifying one is a programming error,
/// not a recoverable path.
pub fn map_flaps_error(
    body: &Vec<u8>,
    fly_request_id: Option<String>,
    status: u16,
    endpoint: ApiEndpoint,
) -> (e: FlapsError)
    requires
        !(200 <= status < 300),
    ensures
        spec_classified(body@, spec_opt_str(fly_request_id), status, endpoint, e),
{
    if status < 400 || status >= 600 {
        return FlapsError::UnexpectedHttpStatus(status);
    }
    let raw = build_raw(body, fly_request_id, status);
    match endpoint {
        ApiEndpoint::Wait(desired_state) => {
            if status == 408 {
                return FlapsError::DesiredStateNotReached { desired_state, raw };
            }
            if status == 404 {
                FlapsError::NotFound(raw)
            } else {
                FlapsError::UnknownFlapsError(raw)
            }
        },
        ApiEndpoint::Other => {
            if status == 404 {
                FlapsError::NotFound(raw)
            } else {
                FlapsError::UnknownFlapsError(raw)
            }
        },
    }
}

} // verus!
