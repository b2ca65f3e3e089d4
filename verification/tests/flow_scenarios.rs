use c2m_client::client::C2MClient;
use c2m_client::errors::{AuthError, RequestError};
use c2m_client::flow::{AuthStep, SubmitAction, SubmitEvent, SubmitPhase, SubmitStep, TokenBody};

fn client() -> C2MClient {
    C2MClient::new("client-id".to_string(), "client-secret".to_string())
}

fn body(token: &str, token_id: &str, expires_at: &str) -> TokenBody {
    TokenBody {
        access_token: token.to_string(),
        token_id: token_id.to_string(),
        expires_at: expires_at.to_string(),
    }
}

// 2099-01-01T00:00:00Z, in seconds since the Unix epoch.
const EXP_2099: i64 = 4070908800;

#[test]
fn long_token_success_stores_and_returns_lt1() {
    // The long-token endpoint answers HTTP 200 with access_token "LT1"; the
    // empty expires_at is irrelevant to the long tier.
    let mut c = client();
    let step = c.on_long_token_response(200, Some(body("LT1", "lt-1", "")));
    match step {
        AuthStep::FetchShort { long_token } => assert_eq!(long_token, "LT1"),
        _ => panic!("expected the short-token exchange to follow"),
    }
    assert_eq!(c.cache.long_token, Some("LT1".to_string()));
    assert!(c.cache.short_token.is_none());
}

#[test]
fn short_token_success_caches_and_reuses_st1() {
    // With long token "LT1" cached, the short-token endpoint answers with
    // "ST1" expiring in 2099; ensure_authenticated returns "ST1", and later
    // calls within the validity window answer from the cache alone.
    let now: i64 = 1_700_000_000;
    let mut c = client();
    c.cache.set_long("LT1".to_string());

    match c.ensure_authenticated(now) {
        AuthStep::FetchShort { long_token } => assert_eq!(long_token, "LT1"),
        _ => panic!("a refresh was due: no short token is cached"),
    }
    match c.on_short_token_response(200, Some(body("ST1", "st-1", "2099-01-01T00:00:00Z"))) {
        AuthStep::Ready { token } => assert_eq!(token, "ST1"),
        _ => panic!("expected the token to be ready"),
    }
    // Subsequent calls stay off the network: the answer is Ready, not a fetch.
    match c.ensure_authenticated(now) {
        AuthStep::Ready { token } => assert_eq!(token, "ST1"),
        _ => panic!("expected the cached token with no network call"),
    }
    assert_eq!(c.cache.long_token, Some("LT1".to_string()));
}

#[test]
fn business_401_then_200_retries_once() {
    // The business endpoint answers 401 on the first attempt and 200 on the
    // retry; the short token is cleared and repopulated exactly once.
    let now: i64 = 1_700_000_000;
    let mut c = client();
    c.cache.set_long("LT1".to_string());
    c.cache.set_short("ST1".to_string(), EXP_2099);

    let mut submit_calls = 0;

    let step = c.submit_job_begin(now);
    let phase = match step {
        SubmitStep::Continue { action: SubmitAction::Submit { token }, phase } => {
            assert_eq!(token, "ST1");
            submit_calls += 1;
            phase
        }
        _ => panic!("a valid short token was cached: submit at once"),
    };
    assert_eq!(phase, SubmitPhase::AwaitingSubmit { retry: false });

    // First attempt: 401. The cached short token is cleared and one
    // re-authentication begins.
    let step = c.submit_job_event(phase, SubmitEvent::SubmitResponse { status: 401 }, now);
    assert!(c.cache.short_token.is_none());
    let phase = match step {
        SubmitStep::Continue { action: SubmitAction::FetchShort { long_token }, phase } => {
            assert_eq!(long_token, "LT1");
            phase
        }
        _ => panic!("expected one forced refresh through the cached long token"),
    };
    assert_eq!(phase, SubmitPhase::AwaitingShort { retry: true });

    // The refresh succeeds: the cache is repopulated (the first and only
    // time) and the one retry is issued.
    let step = c.submit_job_event(
        phase,
        SubmitEvent::ShortTokenResponse {
            status: 200,
            body: Some(body("ST2", "st-2", "2099-01-01T00:00:00Z")),
        },
        now,
    );
    assert_eq!(c.cache.short_token.as_ref().map(|e| e.value.as_str()), Some("ST2"));
    let phase = match step {
        SubmitStep::Continue { action: SubmitAction::Submit { token }, phase } => {
            assert_eq!(token, "ST2");
            submit_calls += 1;
            phase
        }
        _ => panic!("expected exactly one retry request"),
    };
    assert_eq!(phase, SubmitPhase::AwaitingSubmit { retry: true });

    // The retry succeeds: the response body is the submission's result.
    let step = c.submit_job_event(phase, SubmitEvent::SubmitResponse { status: 200 }, now);
    assert!(matches!(step, SubmitStep::Accepted));
    assert_eq!(submit_calls, 2);
}

#[test]
fn cold_start_issues_one_call_per_tier() {
    // Empty cache: one long-token call, one short-token call, one business
    // call, in that order, and nothing else.
    let now: i64 = 1_700_000_000;
    let mut c = client();

    let phase = match c.submit_job_begin(now) {
        SubmitStep::Continue { action: SubmitAction::FetchLong, phase } => phase,
        _ => panic!("an empty cache must start at the long tier"),
    };
    assert_eq!(phase, SubmitPhase::AwaitingLong { retry: false });

    let phase = match c.submit_job_event(
        phase,
        SubmitEvent::LongTokenResponse { status: 201, body: Some(body("LT1", "lt-1", "")) },
        now,
    ) {
        SubmitStep::Continue { action: SubmitAction::FetchShort { long_token }, phase } => {
            assert_eq!(long_token, "LT1");
            phase
        }
        _ => panic!("the short-token exchange must follow"),
    };
    assert_eq!(phase, SubmitPhase::AwaitingShort { retry: false });

    let phase = match c.submit_job_event(
        phase,
        SubmitEvent::ShortTokenResponse {
            status: 200,
            body: Some(body("ST1", "st-1", "2099-01-01T00:00:00Z")),
        },
        now,
    ) {
        SubmitStep::Continue { action: SubmitAction::Submit { token }, phase } => {
            assert_eq!(token, "ST1");
            phase
        }
        _ => panic!("the business request must follow"),
    };
    assert_eq!(phase, SubmitPhase::AwaitingSubmit { retry: false });

    let step = c.submit_job_event(phase, SubmitEvent::SubmitResponse { status: 200 }, now);
    assert!(matches!(step, SubmitStep::Accepted));
}

#[test]
fn plain_failure_gets_no_retry() {
    // A 500 on the first business attempt surfaces Failed(500) at once and
    // leaves the cache alone.
    let now: i64 = 1_700_000_000;
    let mut c = client();
    c.cache.set_long("LT1".to_string());
    c.cache.set_short("ST1".to_string(), EXP_2099);

    let phase = SubmitPhase::AwaitingSubmit { retry: false };
    let step = c.submit_job_event(phase, SubmitEvent::SubmitResponse { status: 500 }, now);
    assert!(matches!(step, SubmitStep::Rejected { error: RequestError::Failed(500) }));
    assert_eq!(c.cache.short_token.as_ref().map(|e| e.value.as_str()), Some("ST1"));
}

#[test]
fn second_auth_failure_is_final() {
    // Another 403 on the retry surfaces Failed(403): no third request.
    let now: i64 = 1_700_000_000;
    let mut c = client();
    c.cache.set_long("LT1".to_string());
    c.cache.set_short("ST2".to_string(), EXP_2099);

    let phase = SubmitPhase::AwaitingSubmit { retry: true };
    let step = c.submit_job_event(phase, SubmitEvent::SubmitResponse { status: 403 }, now);
    assert!(matches!(step, SubmitStep::Rejected { error: RequestError::Failed(403) }));
}

#[test]
fn long_token_rejection_surfaces_status() {
    let mut c = client();
    let step = c.on_long_token_response(500, None);
    assert!(matches!(
        step,
        AuthStep::Failed { error: AuthError::LongTokenRejected(500) }
    ));
    assert!(c.cache.long_token.is_none());
}

#[test]
fn short_token_rejection_surfaces_status() {
    let mut c = client();
    c.cache.set_long("LT1".to_string());
    let step = c.on_short_token_response(503, None);
    assert!(matches!(
        step,
        AuthStep::Failed { error: AuthError::ShortTokenRejected(503) }
    ));
    assert!(c.cache.short_token.is_none());
}

#[test]
fn malformed_expiry_fails_without_mutating_the_cache() {
    // A successful short-token exchange whose expires_at does not parse
    // fails with MalformedExpiry; the previous cache state stays visible.
    let mut c = client();
    c.cache.set_long("LT1".to_string());
    c.cache.set_short("OLD".to_string(), 12345);

    let step = c.on_short_token_response(200, Some(body("ST9", "st-9", "not-a-timestamp")));
    assert!(matches!(step, AuthStep::Failed { error: AuthError::MalformedExpiry }));
    let entry = c.cache.short_token.as_ref().expect("previous entry must survive");
    assert_eq!(entry.value, "OLD");
    assert_eq!(entry.expires_at, 12345);
    assert_eq!(c.cache.long_token, Some("LT1".to_string()));
}

#[test]
fn transport_failure_rejects_the_submission() {
    let now: i64 = 0;
    let mut c = client();
    let phase = SubmitPhase::AwaitingLong { retry: false };
    let step = c.submit_job_event(phase, SubmitEvent::TransportFailed, now);
    assert!(matches!(step, SubmitStep::Rejected { error: RequestError::Transport }));
}

#[test]
fn undecodable_success_body_is_a_transport_failure() {
    // HTTP 200 whose body could not be decoded: the driver hands over no
    // body, and the acquisition fails as a transport failure.
    let mut c = client();
    let step = c.on_long_token_response(200, None);
    assert!(matches!(step, AuthStep::Failed { error: AuthError::Transport }));
    assert!(c.cache.long_token.is_none());
}

#[test]
fn auth_rejection_during_submission_maps_to_auth_error() {
    let now: i64 = 0;
    let mut c = client();
    let phase = SubmitPhase::AwaitingLong { retry: false };
    let step = c.submit_job_event(
        phase,
        SubmitEvent::LongTokenResponse { status: 401, body: None },
        now,
    );
    assert!(matches!(
        step,
        SubmitStep::Rejected { error: RequestError::Auth(AuthError::LongTokenRejected(401)) }
    ));
}
