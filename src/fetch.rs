//! One fetch cycle: an optional refresh, the authenticated request, and one
//! refresh-and-retry after an authorization failure.
use vstd::prelude::*;
use vstd::string::*;
use crate::text::opt_text;

verus! {

/// Status of an authorization failure.
pub const STATUS_UNAUTHORIZED: u16 = 401;

/// Status of a rate-limit failure.
pub const STATUS_TOO_MANY_REQUESTS: u16 = 429;

/// Status reported for failures below HTTP (transport, decoding, missing credentials).
pub const STATUS_NONE: u16 = 0;

/// New credentials from a token refresh.
pub struct TokenUpdate {
    pub access_token: String,
    /// Lifetime of the new access token, in seconds.
    pub expires_in_secs: u64,
    /// A rotated refresh token; `None` keeps the current one.
    pub refresh_token: Option<String>,
}

/// What one fetch cycle reports.
pub enum FetchResult {
    Success { rate: Option<u32>, token: Option<TokenUpdate> },
    Failure { message: String, status: u16 },
}

/// A failed request: its HTTP status (`0` below HTTP) and a message.
#[derive(Debug)]
pub struct FitbitRequestError {
    pub status: u16,
    pub message: String,
}

impl FitbitRequestError {
    pub fn new(status: u16, message: String) -> (r: Self)
        ensures
            r.status == status,
            r.message == message,
    {
        FitbitRequestError { status, message }
    }
}

/// What a fetch needs, taken from the configuration and the token cache when
/// it was dispatched.
pub struct FetchRequest {
    pub url: String,
    pub access_token: Option<String>,
    /// When the access token expires, in milliseconds, where known.
    pub expires_at: Option<u64>,
    pub refresh_token: Option<String>,
    pub client_id: Option<String>,
    pub client_secret: Option<String>,
}

} // verus!

verus! {

/// A fetch request seen as plain values.
pub struct RequestView {
    pub url: Seq<char>,
    pub access_token: Option<Seq<char>>,
    pub expires_at: Option<u64>,
    pub refresh_token: Option<Seq<char>>,
    pub client_id: Option<Seq<char>>,
    pub client_secret: Option<Seq<char>>,
}

impl View for FetchRequest {
    type V = RequestView;

    open spec fn view(&self) -> RequestView {
        RequestView {
            url: self.url@,
            access_token: opt_text(self.access_token),
            expires_at: self.expires_at,
            refresh_token: opt_text(self.refresh_token),
            client_id: opt_text(self.client_id),
            client_secret: opt_text(self.client_secret),
        }
    }
}

} // verus!

verus! {

/// Where a fetch cycle stands.
#[derive(Clone, Copy, Debug, PartialEq, Eq, Structural)]
pub enum FetchPhase {
    /// Waiting for a token refresh; `reactive` after an authorization failure.
    Refreshing { reactive: bool },
    /// Waiting for the heart-rate request; `retried` once it follows a reactive refresh.
    Requesting { retried: bool },
    /// The cycle has reported its result.
    Finished,
}

/// What the host is to do next for a fetch cycle.
pub enum FetchAction {
    /// Ask the token endpoint for new credentials.
    Refresh { refresh_token: String, client_id: String, client_secret: String },
    /// Request the heart-rate series with this access token.
    Get { token: String },
    /// The cycle is over, with this result.
    Finish(FetchResult),
}

/// An action seen as plain values.
pub enum ActionView {
    Refresh { refresh_token: Seq<char>, client_id: Seq<char>, client_secret: Seq<char> },
    Get { token: Seq<char> },
    Succeed { rate: Option<u32>, update: Option<TokenUpdate> },
    Fail { message: Seq<char>, status: u16 },
}

impl View for FetchAction {
    type V = ActionView;

    open spec fn view(&self) -> ActionView {
        match self {
            FetchAction::Refresh { refresh_token, client_id, client_secret } => ActionView::Refresh {
                refresh_token: refresh_token@,
                client_id: client_id@,
                client_secret: client_secret@,
            },
            FetchAction::Get { token } => ActionView::Get { token: token@ },
            FetchAction::Finish(FetchResult::Success { rate, token }) => ActionView::Succeed {
                rate: *rate,
                update: *token,
            },
            FetchAction::Finish(FetchResult::Failure { message, status }) => ActionView::Fail {
                message: message@,
                status: *status,
            },
        }
    }
}

/// Whether an action goes to the network.
pub open spec fn is_network_action(a: ActionView) -> bool {
    a is Refresh || a is Get
}

/// Refresh token, client id and client secret, where all three are present.
pub type Credentials = (Seq<char>, Seq<char>, Seq<char>);

/// What a refresh needs, where all of it is at hand.
pub open spec fn refresh_capability(q: RequestView) -> Option<Credentials> {
    match (q.refresh_token, q.client_id, q.client_secret) {
        (Some(t), Some(i), Some(s)) => Some((t, i, s)),
        _ => None,
    }
}

/// Whether the cached access token is known to have expired at `now`.
pub open spec fn is_expired(q: RequestView, now: u64) -> bool {
    match q.expires_at {
        Some(e) => now >= e,
        None => false,
    }
}

/// The message of a cycle that has no access token to present.
pub open spec fn missing_token_message() -> Seq<char> {
    "Fitbit access token is missing"@
}

/// A fetch cycle seen as plain values.
pub struct CycleView {
    pub phase: FetchPhase,
    pub credentials: Option<Credentials>,
    pub token_update: Option<TokenUpdate>,
}

/// The action that asks for a refresh with `c`.
pub open spec fn refresh_with(c: Credentials) -> ActionView {
    ActionView::Refresh { refresh_token: c.0, client_id: c.1, client_secret: c.2 }
}

/// The start of a cycle for request `q` at `now`: refresh first where the token
/// has expired or is missing and a refresh is possible; fail at once, without
/// a network call, where there is no token and no way to get one.
pub open spec fn cycle_start(q: RequestView, now: u64) -> (CycleView, ActionView) {
    let creds = refresh_capability(q);
    if (is_expired(q, now) || q.access_token is None) && creds is Some {
        (
            CycleView {
                phase: FetchPhase::Refreshing { reactive: false },
                credentials: creds,
                token_update: None,
            },
            refresh_with(creds->0),
        )
    } else if q.access_token is None {
        (
            CycleView { phase: FetchPhase::Finished, credentials: creds, token_update: None },
            ActionView::Fail { message: missing_token_message(), status: STATUS_NONE },
        )
    } else {
        (
            CycleView {
                phase: FetchPhase::Requesting { retried: false },
                credentials: creds,
                token_update: None,
            },
            ActionView::Get { token: q.access_token->0 },
        )
    }
}

/// The step after a refresh finished: request with the new token, or report
/// the failure (with no status after an authorization failure).
pub open spec fn cycle_refreshed(
    c: CycleView,
    reactive: bool,
    outcome: Result<TokenUpdate, FitbitRequestError>,
) -> (CycleView, ActionView) {
    match outcome {
        Ok(u) => (
            CycleView {
                phase: FetchPhase::Requesting { retried: reactive },
                token_update: Some(u),
                ..c
            },
            ActionView::Get { token: u.access_token@ },
        ),
        Err(e) => (
            CycleView { phase: FetchPhase::Finished, ..c },
            ActionView::Fail {
                message: e.message@,
                status: if reactive {
                    STATUS_NONE
                } else {
                    e.status
                },
            },
        ),
    }
}

/// The step after the heart-rate request finished: report success with any
/// refreshed credentials; after a first authorization failure, refresh once
/// where possible; else report the failure with its status.
pub open spec fn cycle_requested(
    c: CycleView,
    retried: bool,
    outcome: Result<Option<u32>, FitbitRequestError>,
) -> (CycleView, ActionView) {
    match outcome {
        Ok(rate) => (
            CycleView { phase: FetchPhase::Finished, token_update: None, ..c },
            ActionView::Succeed { rate, update: c.token_update },
        ),
        Err(e) => if e.status == STATUS_UNAUTHORIZED && !retried && c.credentials is Some {
            (
                CycleView { phase: FetchPhase::Refreshing { reactive: true }, ..c },
                refresh_with(c.credentials->0),
            )
        } else {
            (
                CycleView { phase: FetchPhase::Finished, ..c },
                ActionView::Fail { message: e.message@, status: e.status },
            )
        },
    }
}

struct RefreshCredentials {
    refresh_token: String,
    client_id: String,
    client_secret: String,
}

/// One fetch cycle, driven by the host: it performs each action handed out and
/// reports the outcome back.
pub struct FetchCycle {
    phase: FetchPhase,
    credentials: Option<RefreshCredentials>,
    token_update: Option<TokenUpdate>,
}

impl View for FetchCycle {
    type V = CycleView;

    closed spec fn view(&self) -> CycleView {
        CycleView {
            phase: self.phase,
            credentials: match self.credentials {
                Some(c) => Some((c.refresh_token@, c.client_id@, c.client_secret@)),
                None => None,
            },
            token_update: self.token_update,
        }
    }
}

fn refresh_action(c: &RefreshCredentials) -> (r: FetchAction)
    ensures
        r@ == refresh_with((c.refresh_token@, c.client_id@, c.client_secret@)),
{
    FetchAction::Refresh {
        refresh_token: c.refresh_token.clone(),
        client_id: c.client_id.clone(),
        client_secret: c.client_secret.clone(),
    }
}

impl FetchCycle {
    /// Starts a cycle for `request` at `now` (milliseconds).
    pub fn start(request: &FetchRequest, now: u64) -> (r: (FetchCycle, FetchAction))
        ensures
            (r.0@, r.1@) == cycle_start(request@, now),
    {
        let credentials = match (&request.refresh_token, &request.client_id, &request.client_secret) {
            (Some(t), Some(i), Some(s)) => Some(
                RefreshCredentials {
                    refresh_token: t.clone(),
                    client_id: i.clone(),
                    client_secret: s.clone(),
                },
            ),
            _ => None,
        };
        let expired = match request.expires_at {
            Some(e) => now >= e,
            None => false,
        };
        match &credentials {
            Some(c) if expired || request.access_token.is_none() => {
                let a = refresh_action(c);
                let cycle = FetchCycle {
                    phase: FetchPhase::Refreshing { reactive: false },
                    credentials,
                    token_update: None,
                };
                return (cycle, a);
            },
            _ => {},
        }
        match &request.access_token {
            None => {
                let message = String::from_str("Fitbit access token is missing");
                let cycle = FetchCycle { phase: FetchPhase::Finished, credentials, token_update: None };
                (cycle, FetchAction::Finish(FetchResult::Failure { message, status: STATUS_NONE }))
            },
            Some(t) => {
                let cycle = FetchCycle {
                    phase: FetchPhase::Requesting { retried: false },
                    credentials,
                    token_update: None,
                };
                (cycle, FetchAction::Get { token: t.clone() })
            },
        }
    }

    /// Where the cycle stands.
    pub fn phase(&self) -> (r: FetchPhase)
        ensures
            r == self@.phase,
    {
        self.phase
    }

    /// Takes in the outcome of the refresh that the cycle asked for.
    pub fn on_refresh(&mut self, outcome: Result<TokenUpdate, FitbitRequestError>) -> (r: FetchAction)
        requires
            old(self)@.phase is Refreshing,
        ensures
            (final(self)@, r@) == cycle_refreshed(
                old(self)@,
                old(self)@.phase->Refreshing_reactive,
                outcome,
            ),
    {
        let reactive = match self.phase {
            FetchPhase::Refreshing { reactive } => reactive,
            _ => false,
        };
        match outcome {
            Ok(u) => {
                let token = u.access_token.clone();
                self.token_update = Some(u);
                self.phase = FetchPhase::Requesting { retried: reactive };
                FetchAction::Get { token }
            },
            Err(e) => {
                self.phase = FetchPhase::Finished;
                let status = if reactive {
                    STATUS_NONE
                } else {
                    e.status
                };
                FetchAction::Finish(FetchResult::Failure { message: e.message, status })
            },
        }
    }

    /// Takes in the outcome of the heart-rate request that the cycle asked for.
    pub fn on_response(&mut self, outcome: Result<Option<u32>, FitbitRequestError>) -> (r: FetchAction)
        requires
            old(self)@.phase is Requesting,
        ensures
            (final(self)@, r@) == cycle_requested(
                old(self)@,
                old(self)@.phase->Requesting_retried,
                outcome,
            ),
    {
        let retried = match self.phase {
            FetchPhase::Requesting { retried } => retried,
            _ => true,
        };
        match outcome {
            Ok(rate) => {
                self.phase = FetchPhase::Finished;
                let token = self.token_update.take();
                FetchAction::Finish(FetchResult::Success { rate, token })
            },
            Err(e) => {
                if e.status == STATUS_UNAUTHORIZED && !retried {
                    match &self.credentials {
                        Some(c) => {
                            self.phase = FetchPhase::Refreshing { reactive: true };
                            return refresh_action(c);
                        },
                        None => {},
                    }
                }
                self.phase = FetchPhase::Finished;
                FetchAction::Finish(FetchResult::Failure { message: e.message, status: e.status })
            },
        }
    }
}

} // verus!
