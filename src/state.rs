//! The poll scheduler: the state that the host keeps per tracked device and
//! the per-tick step that drains a finished fetch and decides on the next one.
use vstd::prelude::*;
use crate::fetch::{FetchRequest, FetchResult, RequestView, TokenUpdate, STATUS_TOO_MANY_REQUESTS};
use crate::schedule::{
    advance_cursor, interval_at, later, next_cursor, poll_interval_ms, time_after,
    LAST_INTERVAL_INDEX, RATE_LIMIT_COOLDOWN_MS,
};
use crate::text::{
    copy_text, default_user_id, heart_rate_url, heart_rate_url_text, opt_text, setting,
    setting_text,
};

verus! {

/// Settings read on each tick; blank values count as absent.
pub struct FitbitConfig {
    pub access_token: Option<String>,
    pub user_id: Option<String>,
    pub refresh_token: Option<String>,
    pub client_id: Option<String>,
    pub client_secret: Option<String>,
}

/// What the host found when it looked, without blocking, at the fetch in flight.
pub enum Drained {
    /// No fetch in flight, or it has not finished yet.
    Nothing,
    /// The fetch finished with this result.
    Finished(FetchResult),
    /// The fetch went away without a result.
    Disconnected,
}

/// The scheduler's state as plain values. Times are in milliseconds.
pub struct PollView {
    pub last_rate: Option<u32>,
    pub next_poll_at: u64,
    pub interval_index: nat,
    pub watch_visible: bool,
    pub pending: bool,
    pub access_token: Option<Seq<char>>,
    pub expires_at: Option<u64>,
    pub refresh_token: Option<Seq<char>>,
}

/// The token cache after a refresh that completed at `now`.
pub open spec fn after_token_update(s: PollView, u: TokenUpdate, now: u64) -> PollView {
    PollView {
        access_token: Some(u.access_token@),
        expires_at: Some(later(now, (u.expires_in_secs * 1000) as nat)),
        refresh_token: match u.refresh_token {
            Some(t) => Some(t@),
            None => s.refresh_token,
        },
        ..s
    }
}

/// The state after taking in what the host drained from the fetch in flight.
pub open spec fn after_drain(s: PollView, drained: Drained, now: u64) -> PollView {
    if !s.pending {
        s
    } else {
        match drained {
            Drained::Nothing => s,
            Drained::Disconnected => PollView { pending: false, ..s },
            Drained::Finished(FetchResult::Success { rate, token }) => {
                let t = PollView { pending: false, last_rate: rate, ..s };
                match token {
                    Some(u) => after_token_update(t, u, now),
                    None => t,
                }
            },
            Drained::Finished(FetchResult::Failure { status, .. }) => {
                if status == STATUS_TOO_MANY_REQUESTS {
                    PollView {
                        pending: false,
                        next_poll_at: later(now, RATE_LIMIT_COOLDOWN_MS as nat),
                        interval_index: LAST_INTERVAL_INDEX as nat,
                        ..s
                    }
                } else {
                    PollView { pending: false, ..s }
                }
            },
        }
    }
}

/// The state once visibility is taken into account: becoming visible makes the
/// next poll due now and restarts the schedule.
pub open spec fn after_visibility(s: PollView, now: u64) -> PollView {
    if !s.watch_visible {
        PollView { next_poll_at: now, interval_index: 0, watch_visible: true, ..s }
    } else {
        s
    }
}

/// The token cache, seeded from the configuration only where it is empty.
pub open spec fn after_seeding(s: PollView, config: FitbitConfig) -> PollView {
    PollView {
        access_token: match s.access_token {
            Some(t) => Some(t),
            None => setting_text(opt_text(config.access_token)),
        },
        ..s
    }
}

/// Whether a fetch may start from state `s` at `now`.
pub open spec fn may_dispatch(s: PollView, now: u64) -> bool {
    now >= s.next_poll_at && !s.pending
}

/// The request dispatched from state `s`.
pub open spec fn request_for(s: PollView, config: FitbitConfig) -> RequestView {
    RequestView {
        url: heart_rate_url_text(
            match setting_text(opt_text(config.user_id)) {
                Some(u) => u,
                None => default_user_id(),
            },
        ),
        access_token: s.access_token,
        expires_at: s.expires_at,
        refresh_token: match setting_text(opt_text(config.refresh_token)) {
            Some(t) => Some(t),
            None => s.refresh_token,
        },
        client_id: setting_text(opt_text(config.client_id)),
        client_secret: setting_text(opt_text(config.client_secret)),
    }
}

/// The state after dispatching a fetch at `now`.
pub open spec fn after_dispatch(s: PollView, now: u64) -> PollView {
    PollView {
        next_poll_at: later(now, interval_at(s.interval_index)),
        interval_index: next_cursor(s.interval_index),
        pending: true,
        ..s
    }
}

/// One tick: the next state and the request dispatched, if any.
pub open spec fn tick(
    pre: PollView,
    config: FitbitConfig,
    watch_visible: bool,
    now: u64,
    drained: Drained,
) -> (PollView, Option<RequestView>) {
    let d = after_drain(pre, drained, now);
    if !watch_visible {
        (PollView { watch_visible: false, ..d }, None)
    } else {
        let s = after_seeding(after_visibility(d, now), config);
        if may_dispatch(s, now) {
            (after_dispatch(s, now), Some(request_for(s, config)))
        } else {
            (s, None)
        }
    }
}

/// A request handed out, seen as plain values.
pub open spec fn opt_request(r: Option<FetchRequest>) -> Option<RequestView> {
    match r {
        Some(q) => Some(q@),
        None => None,
    }
}

/// The poll state of one tracked device.
pub struct FitbitState {
    last_rate: Option<u32>,
    next_poll_at: u64,
    next_interval_index: usize,
    last_watch_visible: bool,
    pending: bool,
    access_token: Option<String>,
    access_token_expires_at: Option<u64>,
    refresh_token: Option<String>,
}

impl View for FitbitState {
    type V = PollView;

    closed spec fn view(&self) -> PollView {
        PollView {
            last_rate: self.last_rate,
            next_poll_at: self.next_poll_at,
            interval_index: self.next_interval_index as nat,
            watch_visible: self.last_watch_visible,
            pending: self.pending,
            access_token: opt_text(self.access_token),
            expires_at: self.access_token_expires_at,
            refresh_token: opt_text(self.refresh_token),
        }
    }
}

/// The state of a device that has not been polled yet.
pub open spec fn initial_view() -> PollView {
    PollView {
        last_rate: None,
        next_poll_at: 0,
        interval_index: 0,
        watch_visible: false,
        pending: false,
        access_token: None,
        expires_at: None,
        refresh_token: None,
    }
}

impl Default for FitbitState {
    fn default() -> (r: Self)
        ensures
            r@ == initial_view(),
            r.wf(),
    {
        FitbitState {
            last_rate: None,
            next_poll_at: 0,
            next_interval_index: 0,
            last_watch_visible: false,
            pending: false,
            access_token: None,
            access_token_expires_at: None,
            refresh_token: None,
        }
    }
}

impl FitbitState {
    /// The schedule's cursor never passes its last index.
    pub open spec fn wf(&self) -> bool {
        self@.interval_index <= LAST_INTERVAL_INDEX
    }

    /// Advances the scheduler by one tick at time `now` (milliseconds).
    ///
    /// Takes in what the host drained from the fetch in flight, applies the
    /// visibility gate, and returns the request to dispatch, if a fetch is due
    /// and none is in flight.
    pub fn update(
        &mut self,
        config: &FitbitConfig,
        watch_visible: bool,
        now: u64,
        drained: Drained,
    ) -> (r: Option<FetchRequest>)
        requires
            old(self).wf(),
        ensures
            final(self).wf(),
            (final(self)@, opt_request(r)) == tick(old(self)@, *config, watch_visible, now, drained),
    {
        if self.pending {
            match drained {
                Drained::Finished(result) => {
                    self.pending = false;
                    match result {
                        FetchResult::Success { rate, token } => {
                            self.last_rate = rate;
                            match token {
                                Some(t) => self.apply_token_update(t, now),
                                None => {},
                            }
                        },
                        FetchResult::Failure { status, .. } => {
                            if status == STATUS_TOO_MANY_REQUESTS {
                                self.next_poll_at = time_after(now, RATE_LIMIT_COOLDOWN_MS);
                                self.next_interval_index = LAST_INTERVAL_INDEX;
                            }
                        },
                    }
                },
                Drained::Disconnected => {
                    self.pending = false;
                },
                Drained::Nothing => {},
            }
        }
        if !watch_visible {
            self.last_watch_visible = false;
            return None;
        }
        if !self.last_watch_visible {
            self.next_poll_at = now;
            self.next_interval_index = 0;
            self.last_watch_visible = true;
        }
        if self.access_token.is_none() {
            self.access_token = setting(&config.access_token);
        }
        if now < self.next_poll_at {
            return None;
        }
        let url = heart_rate_url(&config.user_id);
        let refresh_token = match setting(&config.refresh_token) {
            Some(t) => Some(t),
            None => copy_text(&self.refresh_token),
        };
        let client_id = setting(&config.client_id);
        let client_secret = setting(&config.client_secret);
        if self.pending {
            return None;
        }
        let request = FetchRequest {
            url,
            access_token: copy_text(&self.access_token),
            expires_at: self.access_token_expires_at,
            refresh_token,
            client_id,
            client_secret,
        };
        let interval = poll_interval_ms(self.next_interval_index);
        self.next_poll_at = time_after(now, interval);
        self.next_interval_index = advance_cursor(self.next_interval_index);
        self.pending = true;
        Some(request)
    }

    /// The latest reading, if any.
    pub fn last_rate(&self) -> (r: Option<u32>)
        ensures
            r == self@.last_rate,
    {
        self.last_rate
    }

    /// The earliest time (milliseconds) at which a new fetch may start.
    pub fn next_poll_at(&self) -> (r: u64)
        ensures
            r == self@.next_poll_at,
    {
        self.next_poll_at
    }

    /// The schedule's cursor.
    pub fn next_interval_index(&self) -> (r: usize)
        ensures
            r as nat == self@.interval_index,
    {
        self.next_interval_index
    }

    /// Whether a fetch is in flight.
    pub fn is_pending(&self) -> (r: bool)
        ensures
            r == self@.pending,
    {
        self.pending
    }

    /// The cached access token.
    pub fn access_token(&self) -> (r: &Option<String>)
        ensures
            opt_text(*r) == self@.access_token,
    {
        &self.access_token
    }

    /// When the cached access token expires (milliseconds), where known.
    pub fn access_token_expires_at(&self) -> (r: Option<u64>)
        ensures
            r == self@.expires_at,
    {
        self.access_token_expires_at
    }

    /// The cached refresh token.
    pub fn refresh_token(&self) -> (r: &Option<String>)
        ensures
            opt_text(*r) == self@.refresh_token,
    {
        &self.refresh_token
    }

    /// Caches the credentials of a refresh that completed at `now`.
    fn apply_token_update(&mut self, update: TokenUpdate, now: u64)
        ensures
            final(self)@ == after_token_update(old(self)@, update, now),
    {
        let lifetime = match update.expires_in_secs.checked_mul(1000) {
            Some(ms) => ms,
            None => u64::MAX,
        };
        self.access_token = Some(update.access_token);
        self.access_token_expires_at = Some(time_after(now, lifetime));
        match update.refresh_token {
            Some(t) => {
                self.refresh_token = Some(t);
            },
            None => {},
        }
    }
}

} // verus!
