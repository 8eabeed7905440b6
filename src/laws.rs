//! Laws of the scheduler and of a fetch cycle, stated over their models.
use vstd::prelude::*;
use crate::fetch::{
    cycle_refreshed, cycle_requested, cycle_start, is_network_action, refresh_capability,
    ActionView, CycleView, FetchPhase, FetchResult, FitbitRequestError, TokenUpdate, STATUS_NONE,
    STATUS_TOO_MANY_REQUESTS, STATUS_UNAUTHORIZED,
};
use crate::response::latest_of;
use crate::schedule::{interval_at, later, next_cursor, LAST_INTERVAL_INDEX, RATE_LIMIT_COOLDOWN_MS};
use crate::state::{after_drain, tick, Drained, FitbitConfig, PollView};

verus! {

/// Becoming visible restarts the schedule at its first entry and makes a poll
/// due at once: it is dispatched now unless a fetch is still in flight.
pub proof fn lemma_becoming_visible_restarts(
    pre: PollView,
    config: FitbitConfig,
    now: u64,
    drained: Drained,
)
    requires
        !pre.watch_visible,
    ensures
        ({
            let (post, request) = tick(pre, config, true, now, drained);
            if after_drain(pre, drained, now).pending {
                request is None && post.interval_index == 0 && post.next_poll_at == now
            } else {
                request is Some && post.interval_index == next_cursor(0) && post.next_poll_at
                    == later(now, interval_at(0))
            }
        }),
{
}

/// While invisible, a tick dispatches nothing and leaves the schedule alone
/// (a rate-limit result drained on that tick is the one thing that moves it).
pub proof fn lemma_invisible_keeps_schedule(
    pre: PollView,
    config: FitbitConfig,
    now: u64,
    drained: Drained,
)
    requires
        !(pre.pending && drained is Finished && drained->Finished_0 is Failure
            && drained->Finished_0->Failure_status == STATUS_TOO_MANY_REQUESTS),
    ensures
        ({
            let (post, request) = tick(pre, config, false, now, drained);
            &&& request is None
            &&& post.interval_index == pre.interval_index
            &&& post.next_poll_at == pre.next_poll_at
            &&& !post.watch_visible
        }),
{
}

/// Single flight: a request is handed out only when no fetch is in flight, and
/// the state then records it as in flight; while one is in flight (and the
/// host drained nothing from it) no other request is handed out.
pub proof fn lemma_single_flight(
    pre: PollView,
    config: FitbitConfig,
    watch_visible: bool,
    now: u64,
    drained: Drained,
)
    ensures
        ({
            let (post, request) = tick(pre, config, watch_visible, now, drained);
            &&& request is Some ==> !after_drain(pre, drained, now).pending && post.pending
            &&& after_drain(pre, drained, now).pending ==> request is None && post.pending
            &&& (pre.pending && drained is Nothing) ==> request is None && post.pending
        }),
{
}

/// A rate-limit result puts the next poll a cool-down away and the cursor at
/// the schedule's last index, whatever the cursor was (unless the same tick
/// also sees the device become visible, which restarts the schedule).
pub proof fn lemma_rate_limit_overrides(
    pre: PollView,
    config: FitbitConfig,
    watch_visible: bool,
    now: u64,
    message: String,
)
    requires
        pre.pending,
        !(watch_visible && !pre.watch_visible),
        now + RATE_LIMIT_COOLDOWN_MS <= u64::MAX,
    ensures
        ({
            let drained = Drained::Finished(
                FetchResult::Failure { message, status: STATUS_TOO_MANY_REQUESTS },
            );
            let (post, request) = tick(pre, config, watch_visible, now, drained);
            &&& request is None
            &&& post.next_poll_at == now + RATE_LIMIT_COOLDOWN_MS
            &&& post.interval_index == LAST_INTERVAL_INDEX
            &&& post.last_rate == pre.last_rate
            &&& !post.pending
        }),
{
}

/// One refresh-and-retry per authorization failure: a first 401 leads to one
/// refresh and, once it succeeds, one retried request with the new token; a
/// 401 on that retry ends the cycle with the failure.
pub proof fn lemma_one_retry_after_unauthorized(
    c: CycleView,
    first: FitbitRequestError,
    update: TokenUpdate,
    second: FitbitRequestError,
)
    requires
        c.phase == (FetchPhase::Requesting { retried: false }),
        c.credentials is Some,
        first.status == STATUS_UNAUTHORIZED,
        second.status == STATUS_UNAUTHORIZED,
    ensures
        ({
            let (c1, a1) = cycle_requested(c, false, Err(first));
            let (c2, a2) = cycle_refreshed(c1, true, Ok(update));
            let (c3, a3) = cycle_requested(c2, true, Err(second));
            &&& a1 is Refresh && c1.phase == (FetchPhase::Refreshing { reactive: true })
            &&& a2 == (ActionView::Get { token: update.access_token@ })
            &&& c2.phase == (FetchPhase::Requesting { retried: true })
            &&& a3 == (ActionView::Fail { message: second.message@, status: STATUS_UNAUTHORIZED })
            &&& c3.phase == FetchPhase::Finished
        }),
{
}

/// An empty series is a success with no reading: the cycle reports it as
/// such, and draining it clears the latest reading.
pub proof fn lemma_empty_series_clears_rate(
    c: CycleView,
    retried: bool,
    pre: PollView,
    now: u64,
    token: Option<TokenUpdate>,
)
    requires
        pre.pending,
    ensures
        latest_of(Seq::empty()) is None,
        cycle_requested(c, retried, Ok(latest_of(Seq::empty()))).1 is Succeed,
        cycle_requested(c, retried, Ok(latest_of(Seq::empty()))).1->Succeed_rate is None,
        after_drain(pre, Drained::Finished(FetchResult::Success { rate: None, token }), now).last_rate
            is None,
{
}

/// With no access token and no way to refresh one, a dispatched request makes
/// no network call: its cycle fails at once, with no status.
pub proof fn lemma_no_credentials_no_call(
    pre: PollView,
    config: FitbitConfig,
    now: u64,
    drained: Drained,
    start_at: u64,
)
    ensures
        ({
            let request = tick(pre, config, true, now, drained).1;
            request is Some && request->0.access_token is None && refresh_capability(request->0)
                is None ==> {
                let action = cycle_start(request->0, start_at).1;
                &&& !is_network_action(action)
                &&& action is Fail && action->Fail_status == STATUS_NONE
            }
        }),
{
}

} // verus!
