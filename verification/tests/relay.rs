use token_relay::credential::{parse_token_response, EphemeralCredential, EphemeralTokenResponse};
use token_relay::error::{IssuanceError, TransportReason};
use token_relay::relay::{
    conclude, encode_request_body, plan, Action, IssuanceRequest, TransportOutcome,
    UpstreamRequest, BODY_EXCERPT_MAX,
};

fn valid_request() -> IssuanceRequest {
    IssuanceRequest {
        model: "gpt-realtime".to_string(),
        voice: "verse".to_string(),
        secret: "SECRET-REDACTED".to_string(),
    }
}

fn dispatch_of(req: &IssuanceRequest) -> UpstreamRequest {
    match plan(req) {
        Action::Dispatch(u) => u,
        Action::Reject(e) => panic!("expected a dispatch, got rejection: {}", e.render()),
    }
}

#[test]
fn issues_credential_from_stubbed_success() {
    let req = valid_request();
    let u = dispatch_of(&req);
    assert_eq!(u.url, "https://api.openai.com/v1/realtime/sessions");
    assert_eq!(u.authorization, "Bearer SECRET-REDACTED");
    assert_eq!(u.content_type, "application/json");
    assert_eq!(u.body, "{\"model\":\"gpt-realtime\",\"voice\":\"verse\"}");

    let outcome = TransportOutcome::Response {
        status: 200,
        body: "{\"client_secret\":{\"value\":\"abc\",\"expires_at\":4102444800}}".to_string(),
    };
    let got = conclude(&outcome, 1000);
    assert_eq!(
        got,
        Ok(EphemeralCredential { token: "abc".to_string(), expiry: 4102444800 })
    );
}

#[test]
fn empty_model_rejected_with_zero_dispatches() {
    let mut dispatches: u32 = 0;
    let req = IssuanceRequest {
        model: "".to_string(),
        voice: "verse".to_string(),
        secret: "sk-x".to_string(),
    };
    let r: Result<(), IssuanceError> = match plan(&req) {
        Action::Reject(e) => Err(e),
        Action::Dispatch(_) => {
            dispatches += 1;
            panic!("must not dispatch");
        }
    };
    assert_eq!(r, Err(IssuanceError::InvalidRequest));
    assert_eq!(dispatches, 0);
}

#[test]
fn empty_voice_rejected_with_zero_dispatches() {
    let mut dispatches: u32 = 0;
    let req = IssuanceRequest {
        model: "gpt-realtime".to_string(),
        voice: "".to_string(),
        secret: "sk-x".to_string(),
    };
    let r: Result<(), IssuanceError> = match plan(&req) {
        Action::Reject(e) => Err(e),
        Action::Dispatch(_) => {
            dispatches += 1;
            panic!("must not dispatch");
        }
    };
    assert_eq!(r, Err(IssuanceError::InvalidRequest));
    assert_eq!(dispatches, 0);
}

#[test]
fn upstream_rejection_carries_status_and_excerpt() {
    let outcome = TransportOutcome::Response {
        status: 401,
        body: "invalid api key".to_string(),
    };
    let got = conclude(&outcome, 0);
    assert_eq!(
        got,
        Err(IssuanceError::UpstreamRejected {
            status: 401,
            body_excerpt: "invalid api key".to_string(),
        })
    );
}

#[test]
fn unexpected_shape_is_malformed() {
    let outcome = TransportOutcome::Response {
        status: 200,
        body: "{\"unexpected\":\"shape\"}".to_string(),
    };
    assert_eq!(conclude(&outcome, 0), Err(IssuanceError::MalformedResponse));
}

#[test]
fn cancellation_yields_transport_failure_and_no_credential() {
    let outcome = TransportOutcome::Failed { reason: TransportReason::Cancelled };
    assert_eq!(
        conclude(&outcome, 0),
        Err(IssuanceError::TransportFailure { reason: TransportReason::Cancelled })
    );
}

#[test]
fn hundred_distinct_calls_each_get_their_own_token() {
    for i in 0..100u64 {
        let token = format!("tok-{}", i);
        let body = format!(
            "{{\"client_secret\":{{\"value\":\"{}\",\"expires_at\":{}}}}}",
            token,
            10_000 + i
        );
        let outcome = TransportOutcome::Response { status: 200, body };
        let got = conclude(&outcome, 100).expect("credential owed");
        assert_eq!(got.token, token);
        assert_eq!(got.expiry, 10_000 + i);
    }
}

#[test]
fn no_error_rendering_contains_the_secret() {
    let secret = "SECRET-REDACTED";
    let errors = vec![
        IssuanceError::InvalidRequest,
        IssuanceError::TransportFailure { reason: TransportReason::Cancelled },
        IssuanceError::TransportFailure { reason: TransportReason::Tls },
        IssuanceError::UpstreamRejected {
            status: 401,
            body_excerpt: "invalid api key".to_string(),
        },
        IssuanceError::MalformedResponse,
        IssuanceError::ExpiredOnArrival { expires_at: 12 },
    ];
    for e in errors {
        let rendered = e.render();
        assert!(!rendered.contains(secret), "secret leaked into: {}", rendered);
    }
}

#[test]
fn request_body_escapes_scope_parameters() {
    let body = encode_request_body("a\"b", "c\\d\ne");
    assert_eq!(body, "{\"model\":\"a\\\"b\",\"voice\":\"c\\\\d\\u000ae\"}");
}

#[test]
fn rejection_excerpt_is_bounded() {
    let long_body: String = "x".repeat(BODY_EXCERPT_MAX + 44);
    let outcome = TransportOutcome::Response { status: 500, body: long_body.clone() };
    match conclude(&outcome, 0) {
        Err(IssuanceError::UpstreamRejected { status, body_excerpt }) => {
            assert_eq!(status, 500);
            assert_eq!(body_excerpt.len(), BODY_EXCERPT_MAX);
            assert_eq!(body_excerpt, long_body[..BODY_EXCERPT_MAX]);
        }
        other => panic!("expected a rejection, got {:?}", other),
    }
}

#[test]
fn expired_on_arrival_is_a_distinct_failure() {
    let body = "{\"client_secret\":{\"value\":\"abc\",\"expires_at\":500}}".to_string();
    let outcome = TransportOutcome::Response { status: 200, body };
    assert_eq!(
        conclude(&outcome, 500),
        Err(IssuanceError::ExpiredOnArrival { expires_at: 500 })
    );
    assert!(matches!(conclude(&outcome, 499), Ok(_)));
}

#[test]
fn renderings_are_exact() {
    assert_eq!(
        IssuanceError::InvalidRequest.render(),
        "invalid request: model and voice must be non-empty"
    );
    assert_eq!(
        IssuanceError::TransportFailure { reason: TransportReason::TimedOut }.render(),
        "transport failure: timed out"
    );
    assert_eq!(
        IssuanceError::UpstreamRejected { status: 401, body_excerpt: "nope".to_string() }
            .render(),
        "upstream rejected: status 401: nope"
    );
    assert_eq!(
        IssuanceError::MalformedResponse.render(),
        "malformed response from upstream"
    );
    assert_eq!(
        IssuanceError::ExpiredOnArrival { expires_at: 1234567890 }.render(),
        "credential expired on arrival: expires_at 1234567890"
    );
}

#[test]
fn success_statuses_span_the_2xx_range() {
    let body = "{\"client_secret\":{\"value\":\"t\",\"expires_at\":10}}".to_string();
    for status in [200u16, 201, 299] {
        let outcome = TransportOutcome::Response { status, body: body.clone() };
        assert!(matches!(conclude(&outcome, 1), Ok(_)));
    }
    for status in [100u16, 199, 300, 404, 500] {
        let outcome = TransportOutcome::Response { status, body: body.clone() };
        assert!(matches!(
            conclude(&outcome, 1),
            Err(IssuanceError::UpstreamRejected { .. })
        ));
    }
}

#[test]
fn credential_is_built_from_the_response_verbatim() {
    let resp = match parse_token_response(
        "{\"client_secret\":{\"value\":\"ek_abc\",\"expires_at\":77}}",
    ) {
        Some(r) => r,
        None => panic!("expected a parse"),
    };
    let expected = EphemeralTokenResponse {
        client_secret: token_relay::credential::ClientSecret {
            value: "ek_abc".to_string(),
            expires_at: 77,
        },
    };
    assert_eq!(resp, expected);
    let cred = EphemeralCredential::from_response(resp);
    assert_eq!(cred.token, "ek_abc");
    assert_eq!(cred.expiry, 77);
}
