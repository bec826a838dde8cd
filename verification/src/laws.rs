//! The relay's global guarantees, stated and proved over the spec models
//! that the executable functions' contracts are written against.

use vstd::prelude::*;
use crate::credential::parse_response_spec;
use crate::text::contains_chars;
use crate::error::{render_model, ErrorModel};
use crate::relay::{
    conclusion_model,
    invalid_request,
    issue_model,
    plan_model,
    status_is_success,
    OutcomeModel,
    PlanModel,
};

verus! {

/// A credential is issued exactly when the request was valid, the upstream
/// answered a success status, the body held a well-formed credential, and
/// that credential's expiry lies in the future. In particular the token
/// issued to a call is the token carried by that call's own upstream answer,
/// never another call's.
pub proof fn lemma_issue_success_exact(
    model: Seq<char>,
    voice: Seq<char>,
    o: OutcomeModel,
    now: u64,
    t: Seq<char>,
    x: u64,
)
    ensures
        issue_model(model, voice, o, now) == Ok::<(Seq<char>, u64), ErrorModel>((t, x)) <==> {
            &&& !invalid_request(model, voice)
            &&& o matches OutcomeModel::Response { status, body }
            &&& status_is_success(o->Response_status)
            &&& parse_response_spec(o->Response_body) == Some((t, x))
            &&& x > now
        },
{
}

/// A credential returned at clock reading `now` is not yet expired.
pub proof fn lemma_issued_credential_unexpired(
    model: Seq<char>,
    voice: Seq<char>,
    o: OutcomeModel,
    now: u64,
    t: Seq<char>,
    x: u64,
)
    requires
        issue_model(model, voice, o, now) == Ok::<(Seq<char>, u64), ErrorModel>((t, x)),
    ensures
        x > now,
{
}

/// A request with an empty scope parameter is rejected as invalid and
/// dispatches no upstream call; every other request dispatches exactly one.
pub proof fn lemma_invalid_request_no_dispatch(model: Seq<char>, voice: Seq<char>, secret: Seq<
    char,
>)
    ensures
        invalid_request(model, voice) <==> plan_model(model, voice, secret) == PlanModel::Reject(
            ErrorModel::InvalidRequest,
        ),
        !invalid_request(model, voice) <==> plan_model(model, voice, secret) is Dispatch,
{
}

/// The long-lived secret is confined to the `Authorization` header of a
/// dispatched call. Two requests that differ only in their secret are
/// rejected alike, with the same error, and dispatch calls that agree on
/// everything but that header; and since [`conclusion_model`] and
/// [`issue_model`] take no secret at all, no concluded credential or error
/// depends on it either.
pub proof fn lemma_secret_confined_to_authorization(
    model: Seq<char>,
    voice: Seq<char>,
    s1: Seq<char>,
    s2: Seq<char>,
)
    ensures
        plan_model(model, voice, s1) is Reject <==> plan_model(model, voice, s2) is Reject,
        plan_model(model, voice, s1) matches PlanModel::Reject(e1) ==> plan_model(
            model,
            voice,
            s2,
        ) == PlanModel::Reject(e1),
        plan_model(model, voice, s1) matches PlanModel::Dispatch {
            url: u1,
            content_type: c1,
            body: b1,
            ..
        } ==> plan_model(model, voice, s2) matches PlanModel::Dispatch {
            url: u2,
            content_type: c2,
            body: b2,
            ..
        } && u1 == u2 && c1 == c2 && b1 == b2,
{
}

/// Each call concludes from its own outcome and clock alone: equal outcomes
/// conclude equally, whatever other calls run beside it.
pub proof fn lemma_conclusion_per_call(o1: OutcomeModel, o2: OutcomeModel, now: u64)
    requires
        o1 == o2,
    ensures
        conclusion_model(o1, now) == conclusion_model(o2, now),
{
}

/// A rejection raised before any network activity renders to one fixed text,
/// whatever the request held; in particular no secret longer than that text
/// can occur in the rendering.
pub proof fn lemma_invalid_request_render_fixed(secret: Seq<char>)
    ensures
        render_model(ErrorModel::InvalidRequest)
            == "invalid request: model and voice must be non-empty"@,
        secret.len() > render_model(ErrorModel::InvalidRequest).len() ==> !contains_chars(
            render_model(ErrorModel::InvalidRequest),
            secret,
        ),
{
}

} // verus!
