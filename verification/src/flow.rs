use vstd::prelude::*;

use crate::cache::TokenCache;
use crate::client::C2MClient;
use crate::errors::{AuthError, RequestError};
use crate::expiry::{parse_rfc3339_secs, rfc3339_secs, spec_needs_refresh};

verus! {

/// Whether an HTTP status is a success (the 2xx range).
pub open spec fn spec_is_success(status: u16) -> bool {
    200 <= status < 300
}

/// Whether an HTTP status is a success (the 2xx range).
pub fn is_success(status: u16) -> (r: bool)
    ensures
        r == spec_is_success(status),
{
    200 <= status && status < 300
}

/// Whether an HTTP status reports an authorization failure (401 or 403),
/// the only statuses that earn the business request its single retry.
pub open spec fn spec_is_auth_failure(status: u16) -> bool {
    status == 401 || status == 403
}

/// Whether an HTTP status reports an authorization failure (401 or 403).
pub fn is_auth_failure(status: u16) -> (r: bool)
    ensures
        r == spec_is_auth_failure(status),
{
    status == 401 || status == 403
}

/// The fields of a token-endpoint response body. The driver hands this over
/// only when it decoded a success response; `token_id` is informational and
/// `expires_at` is read only for short-token responses.
pub struct TokenBody {
    pub access_token: String,
    pub token_id: String,
    pub expires_at: String,
}

/// What the authentication flow asks its driver to do next.
pub enum AuthStep {
    /// POST the long-token request, unauthorized, to the long-token endpoint,
    /// then report the response through `on_long_token_response`.
    FetchLong,
    /// POST the short-token request, authorized by `long_token` as bearer, to
    /// the short-token endpoint, then report through `on_short_token_response`.
    FetchShort { long_token: String },
    /// A short token usable now is at hand; no network call is needed.
    Ready { token: String },
    /// Authentication failed; nothing further is to be attempted.
    Failed { error: AuthError },
}

/// The value of an `AuthStep`, over character sequences.
pub enum AuthStepModel {
    FetchLong,
    FetchShort { long_token: Seq<char> },
    Ready { token: Seq<char> },
    Failed { error: AuthError },
}

/// The model an `AuthStep` denotes.
pub open spec fn auth_step_view(s: AuthStep) -> AuthStepModel {
    match s {
        AuthStep::FetchLong => AuthStepModel::FetchLong,
        AuthStep::FetchShort { long_token } => AuthStepModel::FetchShort {
            long_token: long_token@,
        },
        AuthStep::Ready { token } => AuthStepModel::Ready { token: token@ },
        AuthStep::Failed { error } => AuthStepModel::Failed { error },
    }
}

/// The access token of a decoded token body, if one was handed over.
pub open spec fn spec_body_token(body: Option<TokenBody>) -> Option<Seq<char>> {
    match body {
        Some(b) => Some(b.access_token@),
        None => None,
    }
}

/// The access token and parsed expiry of a decoded token body, if one was
/// handed over. The expiry is `None` exactly when `expires_at` is not a valid
/// RFC 3339 timestamp.
pub open spec fn spec_short_body(body: Option<TokenBody>) -> Option<(Seq<char>, Option<int>)> {
    match body {
        Some(b) => Some((b.access_token@, rfc3339_secs(b.expires_at@))),
        None => None,
    }
}

/// The first step of `ensure_authenticated`: answer from the cache when the
/// short token is still fresh, otherwise begin the lazy acquisition chain at
/// the deepest missing tier.
pub open spec fn spec_ensure_authenticated(
    long: Option<Seq<char>>,
    short: Option<(Seq<char>, int)>,
    now: int,
) -> AuthStepModel {
    if !spec_needs_refresh(short, now) {
        AuthStepModel::Ready { token: (short->0).0 }
    } else {
        match long {
            Some(t) => AuthStepModel::FetchShort { long_token: t },
            None => AuthStepModel::FetchLong,
        }
    }
}

/// How a long-token response changes the long slot and what follows it: a
/// non-success status is a rejection, a success without a decodable body is a
/// transport failure, and a decoded success stores the token and moves on to
/// the short-token exchange.
pub open spec fn spec_on_long_token_response(
    long: Option<Seq<char>>,
    status: u16,
    token: Option<Seq<char>>,
) -> (Option<Seq<char>>, AuthStepModel) {
    if !spec_is_success(status) {
        (long, AuthStepModel::Failed { error: AuthError::LongTokenRejected(status) })
    } else {
        match token {
            None => (long, AuthStepModel::Failed { error: AuthError::Transport }),
            Some(t) => (Some(t), AuthStepModel::FetchShort { long_token: t }),
        }
    }
}

/// How a short-token response changes the short slot and what follows it: a
/// non-success status is a rejection, a success without a decodable body is a
/// transport failure, an unparseable expiry is fatal for the call and leaves
/// the cache exactly as it was, and a fully parsed success stores value and
/// expiry as one pair and yields the token.
pub open spec fn spec_on_short_token_response(
    short: Option<(Seq<char>, int)>,
    status: u16,
    body: Option<(Seq<char>, Option<int>)>,
) -> (Option<(Seq<char>, int)>, AuthStepModel) {
    if !spec_is_success(status) {
        (short, AuthStepModel::Failed { error: AuthError::ShortTokenRejected(status) })
    } else {
        match body {
            None => (short, AuthStepModel::Failed { error: AuthError::Transport }),
            Some(b) => match b.1 {
                None => (short, AuthStepModel::Failed { error: AuthError::MalformedExpiry }),
                Some(exp) => (Some((b.0, exp)), AuthStepModel::Ready { token: b.0 }),
            },
        }
    }
}

/// Where a submission stands while its driver is waiting on the network.
/// `retry` records whether the one permitted retry has already been spent on
/// an authorization failure.
#[derive(Clone, Copy, Debug, PartialEq, Eq, Structural)]
pub enum SubmitPhase {
    /// A long-token request is in flight.
    AwaitingLong { retry: bool },
    /// A short-token request is in flight.
    AwaitingShort { retry: bool },
    /// The business request is in flight.
    AwaitingSubmit { retry: bool },
}

/// Whether the retry has already been spent in this phase.
pub open spec fn spec_phase_retry(phase: SubmitPhase) -> bool {
    match phase {
        SubmitPhase::AwaitingLong { retry } => retry,
        SubmitPhase::AwaitingShort { retry } => retry,
        SubmitPhase::AwaitingSubmit { retry } => retry,
    }
}

/// Whether the retry has already been spent in this phase.
pub fn phase_retry(phase: &SubmitPhase) -> (r: bool)
    ensures
        r == spec_phase_retry(*phase),
{
    match phase {
        SubmitPhase::AwaitingLong { retry } => *retry,
        SubmitPhase::AwaitingShort { retry } => *retry,
        SubmitPhase::AwaitingSubmit { retry } => *retry,
    }
}

/// The network call a submission's driver must issue next.
pub enum SubmitAction {
    /// POST the long-token request, unauthorized.
    FetchLong,
    /// POST the short-token request, authorized by `long_token` as bearer.
    FetchShort { long_token: String },
    /// POST the job payload to the business endpoint, authorized by `token`
    /// as bearer.
    Submit { token: String },
}

/// The value of a `SubmitAction`, over character sequences.
pub enum SubmitActionModel {
    FetchLong,
    FetchShort { long_token: Seq<char> },
    Submit { token: Seq<char> },
}

/// The model a `SubmitAction` denotes.
pub open spec fn submit_action_view(a: SubmitAction) -> SubmitActionModel {
    match a {
        SubmitAction::FetchLong => SubmitActionModel::FetchLong,
        SubmitAction::FetchShort { long_token } => SubmitActionModel::FetchShort {
            long_token: long_token@,
        },
        SubmitAction::Submit { token } => SubmitActionModel::Submit { token: token@ },
    }
}

/// What a submission step tells its driver.
pub enum SubmitStep {
    /// Issue `action`, then report its outcome through `submit_job_event`
    /// with `phase`.
    Continue { action: SubmitAction, phase: SubmitPhase },
    /// The business endpoint accepted the job: its response body is the
    /// result of the submission.
    Accepted,
    /// The submission failed; nothing further is to be attempted.
    Rejected { error: RequestError },
}

/// The value of a `SubmitStep`, over character sequences.
pub enum SubmitStepModel {
    Continue { action: SubmitActionModel, phase: SubmitPhase },
    Accepted,
    Rejected { error: RequestError },
}

/// The model a `SubmitStep` denotes.
pub open spec fn submit_step_view(s: SubmitStep) -> SubmitStepModel {
    match s {
        SubmitStep::Continue { action, phase } => SubmitStepModel::Continue {
            action: submit_action_view(action),
            phase,
        },
        SubmitStep::Accepted => SubmitStepModel::Accepted,
        SubmitStep::Rejected { error } => SubmitStepModel::Rejected { error },
    }
}

/// What a submission's driver reports back after performing an action.
pub enum SubmitEvent {
    /// The long-token endpoint answered with `status`; `body` is its decoded
    /// body where the status was a success and the body decoded.
    LongTokenResponse { status: u16, body: Option<TokenBody> },
    /// The short-token endpoint answered likewise.
    ShortTokenResponse { status: u16, body: Option<TokenBody> },
    /// The business endpoint answered with `status`.
    SubmitResponse { status: u16 },
    /// The request could not be sent, timed out, or a success response's body
    /// could not be decoded.
    TransportFailed,
}

/// The value of a `SubmitEvent`, over character sequences; the short-token
/// expiry arrives already parsed.
pub enum SubmitEventModel {
    LongTokenResponse { status: u16, token: Option<Seq<char>> },
    ShortTokenResponse { status: u16, body: Option<(Seq<char>, Option<int>)> },
    SubmitResponse { status: u16 },
    TransportFailed,
}

/// The model a `SubmitEvent` denotes.
pub open spec fn submit_event_view(e: SubmitEvent) -> SubmitEventModel {
    match e {
        SubmitEvent::LongTokenResponse { status, body } => SubmitEventModel::LongTokenResponse {
            status,
            token: spec_body_token(body),
        },
        SubmitEvent::ShortTokenResponse { status, body } => SubmitEventModel::ShortTokenResponse {
            status,
            body: spec_short_body(body),
        },
        SubmitEvent::SubmitResponse { status } => SubmitEventModel::SubmitResponse { status },
        SubmitEvent::TransportFailed => SubmitEventModel::TransportFailed,
    }
}

/// Which events a phase can answer: each response kind belongs to the request
/// kind that is in flight, and the transport can fail in any phase.
pub open spec fn spec_phase_accepts(phase: SubmitPhase, event: SubmitEventModel) -> bool {
    match event {
        SubmitEventModel::LongTokenResponse { .. } => phase is AwaitingLong,
        SubmitEventModel::ShortTokenResponse { .. } => phase is AwaitingShort,
        SubmitEventModel::SubmitResponse { .. } => phase is AwaitingSubmit,
        SubmitEventModel::TransportFailed => true,
    }
}

/// How an authentication step continues the submission: a fetch stays a
/// fetch, a token at hand turns into the business request, and an
/// authentication failure rejects the submission.
pub open spec fn spec_auth_to_submit(step: AuthStepModel, retry: bool) -> SubmitStepModel {
    match step {
        AuthStepModel::FetchLong => SubmitStepModel::Continue {
            action: SubmitActionModel::FetchLong,
            phase: SubmitPhase::AwaitingLong { retry },
        },
        AuthStepModel::FetchShort { long_token } => SubmitStepModel::Continue {
            action: SubmitActionModel::FetchShort { long_token },
            phase: SubmitPhase::AwaitingShort { retry },
        },
        AuthStepModel::Ready { token } => SubmitStepModel::Continue {
            action: SubmitActionModel::Submit { token },
            phase: SubmitPhase::AwaitingSubmit { retry },
        },
        AuthStepModel::Failed { error } => SubmitStepModel::Rejected {
            error: RequestError::Auth(error),
        },
    }
}

/// The first step of a submission: one `ensure_authenticated` decision, with
/// the retry still unspent.
pub open spec fn spec_submit_begin(
    long: Option<Seq<char>>,
    short: Option<(Seq<char>, int)>,
    now: int,
) -> SubmitStepModel {
    spec_auth_to_submit(spec_ensure_authenticated(long, short, now), false)
}

/// One step of a submission: how the cache changes and what the driver does
/// next, given the event that ended the phase. A 401 or 403 from the business
/// endpoint, while the retry is unspent, clears the short token and re-runs
/// the authentication decision with the retry marked spent; any other
/// non-success status there, and every non-success on the retry, rejects the
/// submission with `Failed`.
pub open spec fn spec_submit_step(
    long: Option<Seq<char>>,
    short: Option<(Seq<char>, int)>,
    phase: SubmitPhase,
    event: SubmitEventModel,
    now: int,
) -> (Option<Seq<char>>, Option<(Seq<char>, int)>, SubmitStepModel) {
    match event {
        SubmitEventModel::TransportFailed => (
            long,
            short,
            SubmitStepModel::Rejected { error: RequestError::Transport },
        ),
        SubmitEventModel::LongTokenResponse { status, token } => {
            let r = spec_on_long_token_response(long, status, token);
            (r.0, short, spec_auth_to_submit(r.1, spec_phase_retry(phase)))
        },
        SubmitEventModel::ShortTokenResponse { status, body } => {
            let r = spec_on_short_token_response(short, status, body);
            (long, r.0, spec_auth_to_submit(r.1, spec_phase_retry(phase)))
        },
        SubmitEventModel::SubmitResponse { status } => {
            if spec_is_success(status) {
                (long, short, SubmitStepModel::Accepted)
            } else if spec_is_auth_failure(status) && !spec_phase_retry(phase) {
                (
                    long,
                    None,
                    spec_auth_to_submit(spec_ensure_authenticated(long, None, now), true),
                )
            } else {
                (long, short, SubmitStepModel::Rejected { error: RequestError::Failed(status) })
            }
        },
    }
}

/// Continues a submission with the outcome of an authentication step.
fn auth_step_to_submit(step: AuthStep, retry: bool) -> (r: SubmitStep)
    ensures
        submit_step_view(r) == spec_auth_to_submit(auth_step_view(step), retry),
{
    match step {
        AuthStep::FetchLong => SubmitStep::Continue {
            action: SubmitAction::FetchLong,
            phase: SubmitPhase::AwaitingLong { retry },
        },
        AuthStep::FetchShort { long_token } => SubmitStep::Continue {
            action: SubmitAction::FetchShort { long_token },
            phase: SubmitPhase::AwaitingShort { retry },
        },
        AuthStep::Ready { token } => SubmitStep::Continue {
            action: SubmitAction::Submit { token },
            phase: SubmitPhase::AwaitingSubmit { retry },
        },
        AuthStep::Failed { error } => SubmitStep::Rejected { error: RequestError::Auth(error) },
    }
}

impl C2MClient {
    /// The single serialization point of the token lifecycle: answers with
    /// the cached short token when its expiry is more than the refresh buffer
    /// past `now` (no network call), and otherwise starts one acquisition
    /// chain at the deepest missing tier — the short-token exchange when a
    /// long token is cached, the long-token exchange when none is.
    pub fn ensure_authenticated(&self, now: i64) -> (r: AuthStep)
        ensures
            auth_step_view(r) == spec_ensure_authenticated(
                self.cache.long_view(),
                self.cache.short_view(),
                now as int,
            ),
    {
        if !self.cache.needs_refresh(now) {
            match &self.cache.short_token {
                Some(entry) => AuthStep::Ready { token: entry.value.clone() },
                None => unreached(),
            }
        } else {
            match &self.cache.long_token {
                Some(t) => AuthStep::FetchShort { long_token: t.clone() },
                None => AuthStep::FetchLong,
            }
        }
    }

    /// Applies a long-token response: on success the token is stored in the
    /// long slot (overwriting it unconditionally) and the short-token
    /// exchange follows; on any non-success status the call fails with
    /// `LongTokenRejected` and the cache is untouched. The short slot is
    /// never changed here.
    pub fn on_long_token_response(&mut self, status: u16, body: Option<TokenBody>) -> (r: AuthStep)
        ensures
            ({
                let s = spec_on_long_token_response(
                    old(self).cache.long_view(),
                    status,
                    spec_body_token(body),
                );
                final(self).cache.long_view() == s.0 && auth_step_view(r) == s.1
            }),
            final(self).cache.short_view() == old(self).cache.short_view(),
            final(self).client_id == old(self).client_id,
            final(self).client_secret == old(self).client_secret,
            final(self).base_url == old(self).base_url,
    {
        if !is_success(status) {
            AuthStep::Failed { error: AuthError::LongTokenRejected(status) }
        } else {
            match body {
                None => AuthStep::Failed { error: AuthError::Transport },
                Some(b) => {
                    self.cache.set_long(b.access_token.clone());
                    AuthStep::FetchShort { long_token: b.access_token }
                },
            }
        }
    }

    /// Applies a short-token response: on a fully parsed success the token
    /// and its expiry are stored as one atomic pair and the token is ready;
    /// on a non-success status the call fails with `ShortTokenRejected`; on
    /// an unparseable `expires_at` it fails with `MalformedExpiry`. In every
    /// failure case the cache is exactly what it was. The long slot is never
    /// changed here.
    pub fn on_short_token_response(&mut self, status: u16, body: Option<TokenBody>) -> (r:
        AuthStep)
        ensures
            ({
                let s = spec_on_short_token_response(
                    old(self).cache.short_view(),
                    status,
                    spec_short_body(body),
                );
                final(self).cache.short_view() == s.0 && auth_step_view(r) == s.1
            }),
            final(self).cache.long_view() == old(self).cache.long_view(),
            final(self).client_id == old(self).client_id,
            final(self).client_secret == old(self).client_secret,
            final(self).base_url == old(self).base_url,
    {
        if !is_success(status) {
            AuthStep::Failed { error: AuthError::ShortTokenRejected(status) }
        } else {
            match body {
                None => AuthStep::Failed { error: AuthError::Transport },
                Some(b) => {
                    match parse_rfc3339_secs(b.expires_at.as_str()) {
                        None => AuthStep::Failed { error: AuthError::MalformedExpiry },
                        Some(exp) => {
                            self.cache.set_short(b.access_token.clone(), exp);
                            AuthStep::Ready { token: b.access_token }
                        },
                    }
                },
            }
        }
    }

    /// Starts a submission: one authentication decision with the retry
    /// unspent. The cache is not changed.
    pub fn submit_job_begin(&self, now: i64) -> (r: SubmitStep)
        ensures
            submit_step_view(r) == spec_submit_begin(
                self.cache.long_view(),
                self.cache.short_view(),
                now as int,
            ),
    {
        auth_step_to_submit(self.ensure_authenticated(now), false)
    }

    /// Advances a submission by one network outcome. `phase` is the one the
    /// last `Continue` handed out, and `event` must be the outcome of that
    /// phase's request; `now` is read only when an authorization failure
    /// forces the re-authentication decision.
    pub fn submit_job_event(&mut self, phase: SubmitPhase, event: SubmitEvent, now: i64) -> (r:
        SubmitStep)
        requires
            spec_phase_accepts(phase, submit_event_view(event)),
        ensures
            ({
                let s = spec_submit_step(
                    old(self).cache.long_view(),
                    old(self).cache.short_view(),
                    phase,
                    submit_event_view(event),
                    now as int,
                );
                &&& final(self).cache.long_view() == s.0
                &&& final(self).cache.short_view() == s.1
                &&& submit_step_view(r) == s.2
            }),
            final(self).client_id == old(self).client_id,
            final(self).client_secret == old(self).client_secret,
            final(self).base_url == old(self).base_url,
    {
        match event {
            SubmitEvent::TransportFailed => SubmitStep::Rejected {
                error: RequestError::Transport,
            },
            SubmitEvent::LongTokenResponse { status, body } => {
                let step = self.on_long_token_response(status, body);
                auth_step_to_submit(step, phase_retry(&phase))
            },
            SubmitEvent::ShortTokenResponse { status, body } => {
                let step = self.on_short_token_response(status, body);
                auth_step_to_submit(step, phase_retry(&phase))
            },
            SubmitEvent::SubmitResponse { status } => {
                if is_success(status) {
                    SubmitStep::Accepted
                } else if is_auth_failure(status) && !phase_retry(&phase) {
                    self.cache.clear_short();
                    auth_step_to_submit(self.ensure_authenticated(now), true)
                } else {
                    SubmitStep::Rejected { error: RequestError::Failed(status) }
                }
            },
        }
    }
}

} // verus!
