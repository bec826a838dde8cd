//! The credential relay: a single-shot, stateless exchange of a long-lived
//! secret for a short-lived credential.
//!
//! The relay is split at its one suspension point, the network round trip.
//! [`plan`] decides, from the request alone, whether to reject it or exactly
//! which upstream call to dispatch; the embedding program performs that call
//! and reports a [`TransportOutcome`]; [`conclude`] turns the outcome into
//! the credential or the typed failure. Both halves are pure functions of
//! their arguments, so concurrent issuance calls share no state and each
//! call's result depends only on its own inputs and its own upstream answer.

use vstd::prelude::*;
use crate::credential::{EphemeralCredential, parse_response_spec, parse_token_response};
use crate::error::{ErrorModel, IssuanceError, TransportReason};
use crate::json::{escape_chars, escape_string};
use crate::text::chars_to_string;

verus! {

/// How many characters of an upstream diagnostic body are kept in an
/// `UpstreamRejected` error.
pub const BODY_EXCERPT_MAX: usize = 256;

/// A request for one ephemeral credential: two opaque scope parameters and
/// the long-lived secret. Constructed per call and discarded after use.
#[derive(Debug, Clone)]
pub struct IssuanceRequest {
    pub model: String,
    pub voice: String,
    pub secret: String,
}

/// The exact upstream call the relay asks the embedding program to perform:
/// one HTTPS POST of `body` to `url` with the two headers given.
#[derive(Debug, Clone, PartialEq, Eq)]
pub struct UpstreamRequest {
    pub url: String,
    pub authorization: String,
    pub content_type: String,
    pub body: String,
}

/// The relay's decision about a request: reject it without any network
/// activity, or dispatch exactly one upstream call.
#[derive(Debug)]
pub enum Action {
    Reject(IssuanceError),
    Dispatch(UpstreamRequest),
}

/// What the single round trip produced: an upstream answer, or a transport
/// failure with no answer.
#[derive(Debug, Clone, PartialEq, Eq)]
pub enum TransportOutcome {
    Response { status: u16, body: String },
    Failed { reason: TransportReason },
}

/// The spec image of an [`Action`].
pub enum PlanModel {
    Reject(ErrorModel),
    Dispatch { url: Seq<char>, authorization: Seq<char>, content_type: Seq<char>, body: Seq<char> },
}

/// The spec image of a [`TransportOutcome`].
pub enum OutcomeModel {
    Response { status: u16, body: Seq<char> },
    Failed { reason: TransportReason },
}

impl View for Action {
    type V = PlanModel;

    open spec fn view(&self) -> PlanModel {
        match self {
            Action::Reject(e) => PlanModel::Reject(e@),
            Action::Dispatch(u) => PlanModel::Dispatch {
                url: u.url@,
                authorization: u.authorization@,
                content_type: u.content_type@,
                body: u.body@,
            },
        }
    }
}

impl View for TransportOutcome {
    type V = OutcomeModel;

    open spec fn view(&self) -> OutcomeModel {
        match self {
            TransportOutcome::Response { status, body } => OutcomeModel::Response {
                status: *status,
                body: body@,
            },
            TransportOutcome::Failed { reason } => OutcomeModel::Failed { reason: *reason },
        }
    }
}

/// A request is invalid exactly when either scope parameter is empty.
pub open spec fn invalid_request(model: Seq<char>, voice: Seq<char>) -> bool {
    model.len() == 0 || voice.len() == 0
}

/// The fixed upstream issuer endpoint.
pub open spec fn endpoint_url_chars() -> Seq<char> {
    "https://api.openai.com/v1/realtime/sessions"@
}

/// The JSON body `{"model":<model>,"voice":<voice>}` carrying the scope
/// parameters, with both strings escaped.
pub open spec fn request_body_model(model: Seq<char>, voice: Seq<char>) -> Seq<char> {
    "{\"model\":\""@ + escape_chars(model) + "\",\"voice\":\""@ + escape_chars(voice) + "\"}"@
}

/// The relay's decision, as a function of the request fields. The secret
/// reaches only the `authorization` header of a dispatched call; rejection,
/// and every other dispatched field, is decided by the scope parameters
/// alone.
pub open spec fn plan_model(model: Seq<char>, voice: Seq<char>, secret: Seq<char>) -> PlanModel {
    if invalid_request(model, voice) {
        PlanModel::Reject(ErrorModel::InvalidRequest)
    } else {
        PlanModel::Dispatch {
            url: endpoint_url_chars(),
            authorization: "Bearer "@ + secret,
            content_type: "application/json"@,
            body: request_body_model(model, voice),
        }
    }
}

/// The excerpt of an upstream diagnostic body kept in an error: the body
/// itself, truncated to [`BODY_EXCERPT_MAX`] characters.
pub open spec fn excerpt_model(body: Seq<char>) -> Seq<char> {
    if body.len() <= BODY_EXCERPT_MAX {
        body
    } else {
        body.subrange(0, BODY_EXCERPT_MAX as int)
    }
}

/// An upstream status that grants the request.
pub open spec fn status_is_success(status: u16) -> bool {
    200 <= status < 300
}

/// The relay's conclusion from an upstream outcome, as a total function of
/// the outcome and the issuance-time clock. It takes no secret: no concluded
/// credential or error can depend on one.
pub open spec fn conclusion_model(o: OutcomeModel, now: u64) -> Result<
    (Seq<char>, u64),
    ErrorModel,
> {
    match o {
        OutcomeModel::Failed { reason } => Err(ErrorModel::TransportFailure { reason }),
        OutcomeModel::Response { status, body } => {
            if !status_is_success(status) {
                Err(
                    ErrorModel::UpstreamRejected {
                        status,
                        body_excerpt: excerpt_model(body),
                    },
                )
            } else {
                match parse_response_spec(body) {
                    None => Err(ErrorModel::MalformedResponse),
                    Some((t, x)) => if x <= now {
                        Err(ErrorModel::ExpiredOnArrival { expires_at: x })
                    } else {
                        Ok((t, x))
                    },
                }
            }
        },
    }
}

/// The whole issuance seen end to end: an invalid request is rejected before
/// any network activity; otherwise the outcome of the dispatched call is
/// concluded. The secret is not a parameter: it cannot influence the result.
pub open spec fn issue_model(
    model: Seq<char>,
    voice: Seq<char>,
    o: OutcomeModel,
    now: u64,
) -> Result<(Seq<char>, u64), ErrorModel> {
    if invalid_request(model, voice) {
        Err(ErrorModel::InvalidRequest)
    } else {
        conclusion_model(o, now)
    }
}

/// The spec image of a concluded result.
pub open spec fn result_model(r: Result<EphemeralCredential, IssuanceError>) -> Result<
    (Seq<char>, u64),
    ErrorModel,
> {
    match r {
        Ok(c) => Ok((c.token@, c.expiry)),
        Err(e) => Err(e@),
    }
}

/// Decides what to do with a request: reject it (empty model or voice, no
/// network call is made), or dispatch exactly the upstream call stated by
/// [`plan_model`].
pub fn plan(req: &IssuanceRequest) -> (a: Action)
    ensures
        a@ == plan_model(req.model@, req.voice@, req.secret@),
{
    if req.model.as_str().is_empty() || req.voice.as_str().is_empty() {
        Action::Reject(IssuanceError::InvalidRequest)
    } else {
        let url = String::from_str("https://api.openai.com/v1/realtime/sessions");
        let authorization = String::from_str("Bearer ").concat(req.secret.as_str());
        let content_type = String::from_str("application/json");
        let body = encode_request_body(req.model.as_str(), req.voice.as_str());
        Action::Dispatch(UpstreamRequest { url, authorization, content_type, body })
    }
}

/// Builds the JSON request body carrying the scope parameters.
pub fn encode_request_body(model: &str, voice: &str) -> (r: String)
    ensures
        r@ == request_body_model(model@, voice@),
{
    let em = escape_string(model);
    let ev = escape_string(voice);
    let ems = chars_to_string(&em);
    let evs = chars_to_string(&ev);
    let mut s = String::from_str("{\"model\":\"");
    s.append(ems.as_str());
    s.append("\",\"voice\":\"");
    s.append(evs.as_str());
    s.append("\"}");
    s
}

/// Truncates an upstream diagnostic body to the bounded excerpt kept in an
/// error.
pub fn excerpt(body: &String) -> (r: String)
    ensures
        r@ == excerpt_model(body@),
{
    let n = body.as_str().unicode_len();
    if n <= BODY_EXCERPT_MAX {
        body.clone()
    } else {
        String::from_str(body.as_str().substring_char(0, BODY_EXCERPT_MAX))
    }
}

/// Concludes one issuance from the outcome of its round trip, at clock
/// reading `now` (seconds since the epoch): exactly the value stated by
/// [`conclusion_model`]. No credential is returned unless the upstream
/// answered a success status with a well-formed body whose expiry is still in
/// the future.
pub fn conclude(outcome: &TransportOutcome, now: u64) -> (r: Result<
    EphemeralCredential,
    IssuanceError,
>)
    ensures
        result_model(r) == conclusion_model(outcome@, now),
{
    match outcome {
        TransportOutcome::Failed { reason } => Err(
            IssuanceError::TransportFailure { reason: *reason },
        ),
        TransportOutcome::Response { status, body } => {
            let st = *status;
            if !(200 <= st && st < 300) {
                Err(IssuanceError::UpstreamRejected { status: st, body_excerpt: excerpt(body) })
            } else {
                match parse_token_response(body.as_str()) {
                    None => Err(IssuanceError::MalformedResponse),
                    Some(resp) => {
                        let x = resp.client_secret.expires_at;
                        if x <= now {
                            Err(IssuanceError::ExpiredOnArrival { expires_at: x })
                        } else {
                            Ok(EphemeralCredential::from_response(resp))
                        }
                    },
                }
            }
        },
    }
}

} // verus!
