use vstd::prelude::*;

use crate::errors::{AuthError, RequestError};
use crate::expiry::{spec_needs_refresh, REFRESH_BUFFER_SECS};
use crate::flow::{
    spec_auth_to_submit, spec_ensure_authenticated, spec_is_auth_failure, spec_is_success,
    spec_on_long_token_response, spec_on_short_token_response, spec_phase_accepts,
    spec_phase_retry, spec_submit_begin, spec_submit_step, AuthStepModel, SubmitActionModel,
    SubmitEventModel, SubmitPhase, SubmitStepModel,
};

verus! {

/// How many business-endpoint requests a submission can still issue from a
/// phase: two while the retry is unspent and the business request not yet in
/// flight, down to none once the retry's business request is in flight.
pub open spec fn spec_submit_budget(phase: SubmitPhase) -> nat {
    match phase {
        SubmitPhase::AwaitingLong { retry } => if retry {
            1nat
        } else {
            2nat
        },
        SubmitPhase::AwaitingShort { retry } => if retry {
            1nat
        } else {
            2nat
        },
        SubmitPhase::AwaitingSubmit { retry } => if retry {
            0nat
        } else {
            1nat
        },
    }
}

/// Whether a submission step issues a business-endpoint request.
pub open spec fn spec_step_submits(step: SubmitStepModel) -> nat {
    match step {
        SubmitStepModel::Continue { action: SubmitActionModel::Submit { .. }, .. } => 1nat,
        _ => 0nat,
    }
}

/// How many business-endpoint requests a submission issues over a whole run:
/// the driver, standing in `phase` with the cache holding `long` and `short`,
/// feeds back the events of `events` (each paired with the instant it arrives
/// at) one by one, until the flow settles, the events run out, or an event
/// does not answer the phase in flight.
pub open spec fn spec_run_submit_count(
    long: Option<Seq<char>>,
    short: Option<(Seq<char>, int)>,
    phase: SubmitPhase,
    events: Seq<(SubmitEventModel, int)>,
) -> nat
    decreases events.len(),
{
    if events.len() == 0 {
        0nat
    } else if !spec_phase_accepts(phase, events[0].0) {
        0nat
    } else {
        let r = spec_submit_step(long, short, phase, events[0].0, events[0].1);
        match r.2 {
            SubmitStepModel::Continue { phase: p2, .. } => spec_step_submits(r.2)
                + spec_run_submit_count(r.0, r.1, p2, events.drop_first()),
            _ => 0nat,
        }
    }
}

/// Every step keeps the submission within its budget: the requests it issues
/// now plus those still possible afterwards never exceed those possible
/// before. In particular the business request is re-issued only by spending
/// the retry.
pub proof fn lemma_step_within_budget(
    long: Option<Seq<char>>,
    short: Option<(Seq<char>, int)>,
    phase: SubmitPhase,
    event: SubmitEventModel,
    now: int,
)
    requires
        spec_phase_accepts(phase, event),
    ensures
        ({
            let r = spec_submit_step(long, short, phase, event, now);
            r.2 matches SubmitStepModel::Continue { phase: p2, .. } ==> spec_step_submits(r.2)
                + spec_submit_budget(p2) <= spec_submit_budget(phase)
        }),
{
}

/// For any run of a single submission, however the network answers, the
/// business endpoint is called at most as often as the starting phase's
/// budget allows.
pub proof fn lemma_run_submit_count_bounded(
    long: Option<Seq<char>>,
    short: Option<(Seq<char>, int)>,
    phase: SubmitPhase,
    events: Seq<(SubmitEventModel, int)>,
)
    ensures
        spec_run_submit_count(long, short, phase, events) <= spec_submit_budget(phase),
    decreases events.len(),
{
    if events.len() > 0 && spec_phase_accepts(phase, events[0].0) {
        let r = spec_submit_step(long, short, phase, events[0].0, events[0].1);
        match r.2 {
            SubmitStepModel::Continue { phase: p2, .. } => {
                lemma_step_within_budget(long, short, phase, events[0].0, events[0].1);
                lemma_run_submit_count_bounded(r.0, r.1, p2, events.drop_first());
            },
            _ => {},
        }
    }
}

/// How many business-endpoint requests one whole `submit_job` invocation
/// issues: those of its first step plus those of the run that follows.
pub open spec fn spec_submit_job_call_count(
    long: Option<Seq<char>>,
    short: Option<(Seq<char>, int)>,
    now: int,
    events: Seq<(SubmitEventModel, int)>,
) -> nat {
    match spec_submit_begin(long, short, now) {
        SubmitStepModel::Continue { phase, .. } => spec_step_submits(
            spec_submit_begin(long, short, now),
        ) + spec_run_submit_count(long, short, phase, events),
        _ => 0nat,
    }
}

/// One invocation of `submit_job` calls the business endpoint at most twice —
/// one initial request and at most one retry — whatever the cache holds and
/// however the network answers.
pub proof fn lemma_submit_job_at_most_two_business_calls(
    long: Option<Seq<char>>,
    short: Option<(Seq<char>, int)>,
    now: int,
    events: Seq<(SubmitEventModel, int)>,
)
    ensures
        spec_submit_job_call_count(long, short, now, events) <= 2,
{
    match spec_submit_begin(long, short, now) {
        SubmitStepModel::Continue { phase, .. } => {
            lemma_run_submit_count_bounded(long, short, phase, events);
        },
        _ => {},
    }
}

/// If the cached short token expires more than the refresh buffer past `now`,
/// authentication is already settled: the flow answers `Ready` with exactly
/// the cached value and asks for no network round trip.
pub proof fn lemma_fresh_token_needs_no_network(
    long: Option<Seq<char>>,
    token: Seq<char>,
    expires_at: int,
    now: int,
)
    requires
        now + (REFRESH_BUFFER_SECS as int) < expires_at,
    ensures
        spec_ensure_authenticated(long, Some((token, expires_at)), now)
            == (AuthStepModel::Ready { token }),
{
}

/// If the cached short token is absent or within the refresh buffer of its
/// expiry, and a long token is cached, the flow asks for exactly one
/// short-token acquisition, and a fully parsed success of that one exchange
/// already yields the token: no further request stands between them.
pub proof fn lemma_stale_token_single_refresh(
    long_token: Seq<char>,
    short: Option<(Seq<char>, int)>,
    now: int,
    status: u16,
    token: Seq<char>,
    expires_at: int,
)
    requires
        spec_needs_refresh(short, now),
        spec_is_success(status),
    ensures
        spec_ensure_authenticated(Some(long_token), short, now) == (AuthStepModel::FetchShort {
            long_token,
        }),
        spec_on_short_token_response(short, status, Some((token, Some(expires_at)))) == (
        Some((token, expires_at)), AuthStepModel::Ready { token }),
{
}

/// With no long token cached (and hence no usable short token), the flow asks
/// for exactly one long-token acquisition, whose success leads to exactly one
/// short-token acquisition, whose success yields the token: one request per
/// tier, in that order, and nothing else.
pub proof fn lemma_cold_start_acquisition_chain(
    short: Option<(Seq<char>, int)>,
    now: int,
    long_status: u16,
    long_token: Seq<char>,
    short_status: u16,
    token: Seq<char>,
    expires_at: int,
)
    requires
        spec_needs_refresh(short, now),
        spec_is_success(long_status),
        spec_is_success(short_status),
    ensures
        spec_ensure_authenticated(None, short, now) == AuthStepModel::FetchLong,
        spec_on_long_token_response(None, long_status, Some(long_token)) == (
        Some(long_token), AuthStepModel::FetchShort { long_token }),
        spec_on_short_token_response(short, short_status, Some((token, Some(expires_at)))) == (
        Some((token, expires_at)), AuthStepModel::Ready { token }),
{
}

/// A 401 or 403 from the business endpoint, while the retry is unspent,
/// clears the short token (and only it), and the step taken is exactly one
/// re-authentication decision with the retry marked spent — so at most one
/// forced refresh and one retry request follow, and never a third attempt.
pub proof fn lemma_auth_failure_spends_the_retry(
    long: Option<Seq<char>>,
    short: Option<(Seq<char>, int)>,
    status: u16,
    now: int,
)
    requires
        spec_is_auth_failure(status),
    ensures
        spec_submit_step(
            long,
            short,
            SubmitPhase::AwaitingSubmit { retry: false },
            SubmitEventModel::SubmitResponse { status },
            now,
        ) == (
            long,
            None::<(Seq<char>, int)>,
            spec_auth_to_submit(spec_ensure_authenticated(long, None, now), true),
        ),
{
}

/// Once the retry is spent, any non-success status from the business
/// endpoint — another 401 or 403 included — rejects the submission with
/// `Failed` and leaves the cache alone: the flow never asks for a third
/// attempt.
pub proof fn lemma_retry_failure_is_final(
    long: Option<Seq<char>>,
    short: Option<(Seq<char>, int)>,
    status: u16,
    now: int,
)
    requires
        !spec_is_success(status),
    ensures
        spec_submit_step(
            long,
            short,
            SubmitPhase::AwaitingSubmit { retry: true },
            SubmitEventModel::SubmitResponse { status },
            now,
        ) == (long, short, SubmitStepModel::Rejected { error: RequestError::Failed(status) }),
{
}

/// A non-success status other than 401 and 403 on the first business attempt
/// rejects the submission with `Failed` at once: the cache is untouched and
/// no retry is asked for.
pub proof fn lemma_plain_failure_gets_no_retry(
    long: Option<Seq<char>>,
    short: Option<(Seq<char>, int)>,
    status: u16,
    now: int,
)
    requires
        !spec_is_success(status),
        !spec_is_auth_failure(status),
    ensures
        spec_submit_step(
            long,
            short,
            SubmitPhase::AwaitingSubmit { retry: false },
            SubmitEventModel::SubmitResponse { status },
            now,
        ) == (long, short, SubmitStepModel::Rejected { error: RequestError::Failed(status) }),
{
}

/// An unparseable `expires_at` on a successful short-token exchange fails the
/// acquisition with `MalformedExpiry` and mutates nothing: the short slot —
/// and with it whatever a later call will see — is exactly what it was.
pub proof fn lemma_malformed_expiry_mutates_nothing(
    short: Option<(Seq<char>, int)>,
    status: u16,
    token: Seq<char>,
)
    requires
        spec_is_success(status),
    ensures
        spec_on_short_token_response(short, status, Some((token, None))) == (
        short, AuthStepModel::Failed { error: AuthError::MalformedExpiry }),
{
}

/// The step a run settles on: `Accepted` or `Rejected`, if the given events
/// bring the submission to rest at all.
pub open spec fn spec_run_outcome(
    long: Option<Seq<char>>,
    short: Option<(Seq<char>, int)>,
    phase: SubmitPhase,
    events: Seq<(SubmitEventModel, int)>,
) -> Option<SubmitStepModel>
    decreases events.len(),
{
    if events.len() == 0 {
        None
    } else if !spec_phase_accepts(phase, events[0].0) {
        None
    } else {
        let r = spec_submit_step(long, short, phase, events[0].0, events[0].1);
        match r.2 {
            SubmitStepModel::Continue { phase: p2, .. } => spec_run_outcome(
                r.0,
                r.1,
                p2,
                events.drop_first(),
            ),
            _ => Some(r.2),
        }
    }
}

/// Whether a settled step is an answer of the business endpoint itself:
/// acceptance, or rejection with `Failed`. Authentication and transport
/// rejections are not, as no business request was answered.
pub open spec fn spec_outcome_is_business_answer(outcome: Option<SubmitStepModel>) -> bool {
    &&& outcome matches Some(s)
    &&& (s is Accepted || (s matches SubmitStepModel::Rejected { error } && error is Failed))
}

/// A run that settles on an answer of the business endpoint, entered anywhere
/// before the business request was in flight, issued at least one business
/// request: `Accepted` and `Failed` arise only from a business response, and
/// the phase that awaits one is entered only by issuing the request.
pub proof fn lemma_business_answer_needs_a_call(
    long: Option<Seq<char>>,
    short: Option<(Seq<char>, int)>,
    phase: SubmitPhase,
    events: Seq<(SubmitEventModel, int)>,
)
    requires
        !(phase is AwaitingSubmit),
        spec_outcome_is_business_answer(spec_run_outcome(long, short, phase, events)),
    ensures
        spec_run_submit_count(long, short, phase, events) >= 1,
    decreases events.len(),
{
    let r = spec_submit_step(long, short, phase, events[0].0, events[0].1);
    match r.2 {
        SubmitStepModel::Continue { action, phase: p2 } => {
            if !(action is Submit) {
                lemma_business_answer_needs_a_call(r.0, r.1, p2, events.drop_first());
            }
        },
        _ => {},
    }
}

/// The step one whole `submit_job` invocation settles on, if the given
/// events bring it to rest.
pub open spec fn spec_submit_job_outcome(
    long: Option<Seq<char>>,
    short: Option<(Seq<char>, int)>,
    now: int,
    events: Seq<(SubmitEventModel, int)>,
) -> Option<SubmitStepModel> {
    match spec_submit_begin(long, short, now) {
        SubmitStepModel::Continue { phase, .. } => spec_run_outcome(long, short, phase, events),
        s => Some(s),
    }
}

/// An invocation of `submit_job` that the business endpoint answered —
/// accepted, or rejected with `Failed` — called that endpoint once or twice,
/// never more. (An invocation that fails during authentication or transport
/// may call it less; nothing else can.)
pub proof fn lemma_submit_job_one_or_two_business_calls(
    long: Option<Seq<char>>,
    short: Option<(Seq<char>, int)>,
    now: int,
    events: Seq<(SubmitEventModel, int)>,
)
    requires
        spec_outcome_is_business_answer(spec_submit_job_outcome(long, short, now, events)),
    ensures
        1 <= spec_submit_job_call_count(long, short, now, events) <= 2,
{
    lemma_submit_job_at_most_two_business_calls(long, short, now, events);
    match spec_submit_begin(long, short, now) {
        SubmitStepModel::Continue { action, phase } => {
            if !(action is Submit) {
                lemma_business_answer_needs_a_call(long, short, phase, events);
            }
        },
        _ => {},
    }
}

/// Whether a step spends the retry: a 401 or 403 answering the first
/// business attempt, which clears the short token and forces one
/// re-authentication.
pub open spec fn spec_step_forces_refresh(phase: SubmitPhase, event: SubmitEventModel) -> bool {
    &&& phase == (SubmitPhase::AwaitingSubmit { retry: false })
    &&& event matches SubmitEventModel::SubmitResponse { status } && !spec_is_success(status)
        && spec_is_auth_failure(status)
}

/// How many forced token refreshes a run performs: the steps that answer a
/// first-attempt 401 or 403 by clearing the short token and re-authenticating.
pub open spec fn spec_run_forced_refresh_count(
    long: Option<Seq<char>>,
    short: Option<(Seq<char>, int)>,
    phase: SubmitPhase,
    events: Seq<(SubmitEventModel, int)>,
) -> nat
    decreases events.len(),
{
    if events.len() == 0 {
        0nat
    } else if !spec_phase_accepts(phase, events[0].0) {
        0nat
    } else {
        let r = spec_submit_step(long, short, phase, events[0].0, events[0].1);
        let here: nat = if spec_step_forces_refresh(phase, events[0].0) {
            1nat
        } else {
            0nat
        };
        match r.2 {
            SubmitStepModel::Continue { phase: p2, .. } => here + spec_run_forced_refresh_count(
                r.0,
                r.1,
                p2,
                events.drop_first(),
            ),
            _ => here,
        }
    }
}

/// One invocation of `submit_job` forces at most one token refresh: once the
/// retry is spent the flag stays spent, and only an unspent retry can answer
/// an authorization failure with a refresh.
pub proof fn lemma_at_most_one_forced_refresh(
    long: Option<Seq<char>>,
    short: Option<(Seq<char>, int)>,
    phase: SubmitPhase,
    events: Seq<(SubmitEventModel, int)>,
)
    ensures
        spec_run_forced_refresh_count(long, short, phase, events) <= if spec_phase_retry(phase) {
            0nat
        } else {
            1nat
        },
    decreases events.len(),
{
    if events.len() > 0 && spec_phase_accepts(phase, events[0].0) {
        let r = spec_submit_step(long, short, phase, events[0].0, events[0].1);
        match r.2 {
            SubmitStepModel::Continue { phase: p2, .. } => {
                lemma_at_most_one_forced_refresh(r.0, r.1, p2, events.drop_first());
            },
            _ => {},
        }
    }
}

/// The long token is never invalidated by this client's logic: every step
/// either keeps the long slot as it is or overwrites it with a newly issued
/// token, so once obtained it never becomes absent.
pub proof fn lemma_long_token_never_cleared(
    long: Option<Seq<char>>,
    short: Option<(Seq<char>, int)>,
    phase: SubmitPhase,
    event: SubmitEventModel,
    now: int,
)
    ensures
        ({
            let r = spec_submit_step(long, short, phase, event, now);
            long is Some ==> r.0 is Some
        }),
{
}

} // verus!
