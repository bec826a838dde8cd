//! The failure taxonomy of the relay and its string rendering.
//!
//! Every failure is returned as a typed value; the rendering used by a host
//! shell is a verified function of that value alone, so nothing outside the
//! variant's own fields — in particular no long-lived secret — can reach it.

use vstd::prelude::*;
use crate::text::{dec_chars, chars_to_string, u64_dec_chars};

verus! {

/// Why the single network round trip failed before an upstream answer
/// arrived.
#[derive(Debug, Clone, Copy, PartialEq, Eq, Structural)]
pub enum TransportReason {
    /// The caller's cancellation or deadline fired while the call was in
    /// flight.
    Cancelled,
    /// The transport's own timeout elapsed.
    TimedOut,
    /// Name resolution failed.
    Dns,
    /// The connection could not be established, or was lost mid-exchange.
    Connection,
    /// The encrypted channel could not be negotiated.
    Tls,
}

/// A failed issuance. `InvalidRequest` is a caller error raised before any
/// network activity; `TransportFailure` is a failed round trip;
/// `UpstreamRejected` carries the upstream's status and a bounded excerpt of
/// its diagnostic body; `MalformedResponse` is a success status whose body
/// does not hold a credential; `ExpiredOnArrival` is a credential already
/// expired at issuance time.
#[derive(Debug, Clone, PartialEq, Eq)]
pub enum IssuanceError {
    InvalidRequest,
    TransportFailure { reason: TransportReason },
    UpstreamRejected { status: u16, body_excerpt: String },
    MalformedResponse,
    ExpiredOnArrival { expires_at: u64 },
}

/// The spec image of an issuance error, with text as character sequences.
pub enum ErrorModel {
    InvalidRequest,
    TransportFailure { reason: TransportReason },
    UpstreamRejected { status: u16, body_excerpt: Seq<char> },
    MalformedResponse,
    ExpiredOnArrival { expires_at: u64 },
}

impl View for IssuanceError {
    type V = ErrorModel;

    open spec fn view(&self) -> ErrorModel {
        match *self {
            IssuanceError::InvalidRequest => ErrorModel::InvalidRequest,
            IssuanceError::TransportFailure { reason } => ErrorModel::TransportFailure { reason },
            IssuanceError::UpstreamRejected { status, body_excerpt } => ErrorModel::UpstreamRejected {
                status,
                body_excerpt: body_excerpt@,
            },
            IssuanceError::MalformedResponse => ErrorModel::MalformedResponse,
            IssuanceError::ExpiredOnArrival { expires_at } => ErrorModel::ExpiredOnArrival {
                expires_at,
            },
        }
    }
}

/// The rendering of a transport failure reason.
pub open spec fn reason_text(r: TransportReason) -> Seq<char> {
    match r {
        TransportReason::Cancelled => "cancelled"@,
        TransportReason::TimedOut => "timed out"@,
        TransportReason::Dns => "name resolution failed"@,
        TransportReason::Connection => "connection failed"@,
        TransportReason::Tls => "secure channel failed"@,
    }
}

/// The rendering of an issuance error, as shown to a caller. It is a function
/// of the error value alone.
pub open spec fn render_model(e: ErrorModel) -> Seq<char> {
    match e {
        ErrorModel::InvalidRequest => "invalid request: model and voice must be non-empty"@,
        ErrorModel::TransportFailure { reason } => "transport failure: "@ + reason_text(reason),
        ErrorModel::UpstreamRejected { status, body_excerpt } => "upstream rejected: status "@
            + dec_chars(status as int) + ": "@ + body_excerpt,
        ErrorModel::MalformedResponse => "malformed response from upstream"@,
        ErrorModel::ExpiredOnArrival { expires_at } => "credential expired on arrival: expires_at "@
            + dec_chars(expires_at as int),
    }
}

impl IssuanceError {
    /// Renders the error for display, exactly as [`render_model`] states.
    pub fn render(&self) -> (s: String)
        ensures
            s@ == render_model(self@),
    {
        match self {
            IssuanceError::InvalidRequest => String::from_str(
                "invalid request: model and voice must be non-empty",
            ),
            IssuanceError::TransportFailure { reason } => {
                let mut s = String::from_str("transport failure: ");
                let t: &str = match reason {
                    TransportReason::Cancelled => "cancelled",
                    TransportReason::TimedOut => "timed out",
                    TransportReason::Dns => "name resolution failed",
                    TransportReason::Connection => "connection failed",
                    TransportReason::Tls => "secure channel failed",
                };
                s.append(t);
                s
            },
            IssuanceError::UpstreamRejected { status, body_excerpt } => {
                let mut s = String::from_str("upstream rejected: status ");
                let digits = u64_dec_chars(*status as u64);
                let ds = chars_to_string(&digits);
                s.append(ds.as_str());
                s.append(": ");
                s.append(body_excerpt.as_str());
                s
            },
            IssuanceError::MalformedResponse => String::from_str(
                "malformed response from upstream",
            ),
            IssuanceError::ExpiredOnArrival { expires_at } => {
                let mut s = String::from_str("credential expired on arrival: expires_at ");
                let digits = u64_dec_chars(*expires_at);
                let ds = chars_to_string(&digits);
                s.append(ds.as_str());
                s
            },
        }
    }
}

} // verus!
