//! The typed errors every operation reports: construction failures and
//! the closed set of classified request failures.

use vstd::prelude::*;

use crate::machine::State;

verus! {

/// The canonical error body the control plane sends with a non-success
/// status, or a synthesized stand-in when the body cannot be parsed.
#[derive(Debug, Clone)]
pub struct RawApiError {
    pub status_code: u16,
    pub fly_request_id: Option<String>,
    pub error: String,
    pub message: Option<String>,
}

impl RawApiError {
    /// The display text: the error, then `: message` when a message is
    /// present.
    pub fn display_string(&self) -> (r: String)
        ensures
            match self.message {
                Some(m) => r@ == self.error@ + ": "@ + m@,
                None => r@ == self.error@,
            },
    {
        proof {
            reveal_strlit(": ");
        }
        let mut s = self.error.clone();
        if let Some(m) = &self.message {
            s.append(": ");
            s.append(m.as_str());
        }
        s
    }
}

/// Why a client handle could not be built.
#[derive(Debug, Clone)]
pub enum FlapsClientCreationError {
    /// No app name was supplied and none could be discovered.
    MissingAppName,
    /// The app name holds a forbidden character.
    InvalidAppName(String),
    /// The base URL did not parse; carries the parser's message.
    InvalidBaseUrl(String),
}

/// The closed set of failures an operation can report.
#[derive(Debug, Clone)]
pub enum FlapsError {
    /// A request path or URL did not resolve; carries the parser's message.
    InvalidUrl(String),
    /// Connection, TLS or socket failure; carries the transport's message.
    Network(String),
    /// A success response whose body did not decode as expected.
    Json(String),
    /// An informational, redirect or out-of-range status, which this API
    /// never sends.
    UnexpectedHttpStatus(u16),
    /// Any classified error status without a more specific meaning.
    UnknownFlapsError(RawApiError),
    /// A machine operation was requested without a machine id.
    NoMachineId,
    NotFound(RawApiError),
    /// The long-poll wait ended before the machine reached the desired
    /// state; transient, retried by state convergence.
    DesiredStateNotReached { desired_state: State, raw: RawApiError },
}

impl FlapsError {
    /// Whether this error is the transient "still waiting" signal.
    pub fn is_desired_state_not_reached(&self) -> (r: bool)
        ensures
            r == (self matches FlapsError::DesiredStateNotReached { .. }),
    {
        match self {
            FlapsError::DesiredStateNotReached { .. } => true,
            _ => false,
        }
    }

    /// Whether this error is a not-found response.
    pub fn is_not_found(&self) -> (r: bool)
        ensures
            r == (self matches FlapsError::NotFound(_)),
    {
        match self {
            FlapsError::NotFound(_) => true,
            _ => false,
        }
    }
}

} // verus!
