use fitbit_poll::fetch::{
    FetchAction, FetchCycle, FetchPhase, FetchRequest, FetchResult, FitbitRequestError, TokenUpdate,
};
use fitbit_poll::response::{check_status, latest_rate, parse_status, read_output, split_status_line};
use fitbit_poll::schedule::{advance_cursor, poll_interval_ms, time_after};
use fitbit_poll::state::{Drained, FitbitConfig, FitbitState};
use fitbit_poll::text::{
    basic_auth_user, bearer_header, heart_rate_url, is_blank, refresh_form, setting, token_url,
};

fn config_with_token(token: Option<&str>) -> FitbitConfig {
    FitbitConfig {
        access_token: token.map(|t| t.to_string()),
        user_id: None,
        refresh_token: None,
        client_id: None,
        client_secret: None,
    }
}

fn refreshable_config() -> FitbitConfig {
    FitbitConfig {
        access_token: Some("old".to_string()),
        user_id: None,
        refresh_token: Some("rt".to_string()),
        client_id: Some("cid".to_string()),
        client_secret: Some("secret".to_string()),
    }
}

fn success(rate: Option<u32>) -> Drained {
    Drained::Finished(FetchResult::Success { rate, token: None })
}

fn failure(status: u16) -> Drained {
    Drained::Finished(FetchResult::Failure { message: "failed".to_string(), status })
}

fn error(status: u16) -> FitbitRequestError {
    FitbitRequestError::new(status, "failed".to_string())
}

fn finish(action: FetchAction) -> FetchResult {
    match action {
        FetchAction::Finish(result) => result,
        _ => panic!("the cycle did not finish"),
    }
}

#[test]
fn visible_first_poll_reads_latest_value() {
    let config = config_with_token(Some("tok"));
    let mut state = FitbitState::default();
    let request = state.update(&config, true, 1000, Drained::Nothing).expect("a poll is due");
    assert_eq!(request.access_token.as_deref(), Some("tok"));
    let (mut cycle, action) = FetchCycle::start(&request, 1000);
    match action {
        FetchAction::Get { token } => assert_eq!(token, "tok"),
        _ => panic!("expected a request"),
    }
    let result = finish(cycle.on_response(Ok(latest_rate(&vec![72]))));
    assert!(state.update(&config, true, 1100, Drained::Finished(result)).is_none());
    assert_eq!(state.last_rate(), Some(72));
    assert_eq!(state.next_poll_at(), 2000);
    assert!(!state.is_pending());
}

#[test]
fn rate_limit_backs_off_a_minute_at_slowest_cursor() {
    let config = config_with_token(Some("tok"));
    let mut state = FitbitState::default();
    state.update(&config, true, 1000, Drained::Nothing).expect("a poll is due");
    assert!(state.update(&config, true, 1500, failure(429)).is_none());
    assert_eq!(state.last_rate(), None);
    assert_eq!(state.next_poll_at(), 61_500);
    assert_eq!(state.next_interval_index(), 3);
    assert!(state.update(&config, true, 61_499, Drained::Nothing).is_none());
    assert!(state.update(&config, true, 61_500, Drained::Nothing).is_some());
    assert_eq!(state.next_poll_at(), 91_500);
}

#[test]
fn expired_token_is_refreshed_before_the_request() {
    let config = refreshable_config();
    let mut state = FitbitState::default();
    state.update(&config, true, 0, Drained::Nothing).expect("a poll is due");
    let short = TokenUpdate { access_token: "short".to_string(), expires_in_secs: 1, refresh_token: None };
    state.update(&config, true, 500, Drained::Finished(FetchResult::Success { rate: Some(60), token: Some(short) }));
    assert_eq!(state.access_token_expires_at(), Some(1500));
    let request = state.update(&config, true, 2000, Drained::Nothing).expect("a poll is due");
    let (mut cycle, action) = FetchCycle::start(&request, 2000);
    match action {
        FetchAction::Refresh { refresh_token, client_id, client_secret } => {
            assert_eq!(refresh_token, "rt");
            assert_eq!(client_id, "cid");
            assert_eq!(client_secret, "secret");
        },
        _ => panic!("expected a refresh"),
    }
    let update = TokenUpdate { access_token: "fresh".to_string(), expires_in_secs: 3600, refresh_token: None };
    match cycle.on_refresh(Ok(update)) {
        FetchAction::Get { token } => assert_eq!(token, "fresh"),
        _ => panic!("expected a request"),
    }
    let result = finish(cycle.on_response(Ok(Some(80))));
    state.update(&config, true, 2500, Drained::Finished(result));
    assert_eq!(state.last_rate(), Some(80));
    assert_eq!(state.access_token().as_deref(), Some("fresh"));
    assert_eq!(state.access_token_expires_at(), Some(2500 + 3_600_000));
    assert_eq!(state.refresh_token(), &None);
}

#[test]
fn unauthorized_request_is_refreshed_and_retried() {
    let config = refreshable_config();
    let mut state = FitbitState::default();
    let request = state.update(&config, true, 0, Drained::Nothing).expect("a poll is due");
    let (mut cycle, action) = FetchCycle::start(&request, 0);
    assert!(matches!(action, FetchAction::Get { .. }));
    assert!(matches!(cycle.on_response(Err(error(401))), FetchAction::Refresh { .. }));
    assert_eq!(cycle.phase(), FetchPhase::Refreshing { reactive: true });
    let update = TokenUpdate {
        access_token: "fresh".to_string(),
        expires_in_secs: 3600,
        refresh_token: Some("rt2".to_string()),
    };
    match cycle.on_refresh(Ok(update)) {
        FetchAction::Get { token } => assert_eq!(token, "fresh"),
        _ => panic!("expected a retry"),
    }
    let result = finish(cycle.on_response(Ok(Some(65))));
    state.update(&config, true, 100, Drained::Finished(result));
    assert_eq!(state.last_rate(), Some(65));
    assert_eq!(state.refresh_token().as_deref(), Some("rt2"));
}

#[test]
fn becoming_visible_mid_backoff_restarts_schedule() {
    let config = config_with_token(Some("tok"));
    let mut state = FitbitState::default();
    state.update(&config, true, 0, Drained::Nothing).expect("first poll");
    state.update(&config, true, 1000, success(Some(70))).expect("second poll");
    assert_eq!(state.next_interval_index(), 2);
    assert!(state.update(&config, false, 2000, Drained::Nothing).is_none());
    assert_eq!(state.next_interval_index(), 2);
    assert!(state.update(&config, true, 2100, Drained::Nothing).is_none());
    assert_eq!(state.next_interval_index(), 0);
    assert_eq!(state.next_poll_at(), 2100);
}

#[test]
fn becoming_visible_polls_at_once_when_idle() {
    let config = config_with_token(Some("tok"));
    let mut state = FitbitState::default();
    state.update(&config, true, 0, Drained::Nothing).expect("first poll");
    state.update(&config, true, 1000, success(Some(70))).expect("second poll");
    assert!(state.update(&config, false, 2000, success(Some(71))).is_none());
    assert_eq!(state.next_interval_index(), 2);
    let request = state.update(&config, true, 2100, Drained::Nothing);
    assert!(request.is_some());
    assert_eq!(state.next_interval_index(), 1);
    assert_eq!(state.next_poll_at(), 3100);
}

#[test]
fn missing_credentials_make_no_network_call() {
    let empty = config_with_token(None);
    let mut state = FitbitState::default();
    let request = state.update(&empty, true, 0, Drained::Nothing).expect("a poll is due");
    assert_eq!(request.access_token, None);
    let (cycle, action) = FetchCycle::start(&request, 0);
    assert_eq!(cycle.phase(), FetchPhase::Finished);
    let result = finish(action);
    match &result {
        FetchResult::Failure { message, status } => {
            assert_eq!(*status, 0);
            assert_eq!(message, "Fitbit access token is missing");
        },
        _ => panic!("expected an immediate failure"),
    }
    state.update(&empty, true, 100, Drained::Finished(result));
    assert_eq!(state.last_rate(), None);
    assert_eq!(state.next_interval_index(), 1);
}

#[test]
fn backoff_intervals_follow_schedule() {
    let config = config_with_token(Some("tok"));
    let mut state = FitbitState::default();
    let mut now: u64 = 0;
    let mut waits = Vec::new();
    for _ in 0..6 {
        state.update(&config, true, now, Drained::Nothing).expect("a poll is due");
        let next = state.next_poll_at();
        waits.push(next - now);
        now = next;
        state.update(&config, true, now - 1, success(Some(1)));
    }
    assert_eq!(waits, vec![1000, 3000, 10_000, 30_000, 30_000, 30_000]);
}

#[test]
fn schedule_values_and_cursor() {
    assert_eq!(poll_interval_ms(0), 1000);
    assert_eq!(poll_interval_ms(1), 3000);
    assert_eq!(poll_interval_ms(2), 10_000);
    assert_eq!(poll_interval_ms(3), 30_000);
    assert_eq!(poll_interval_ms(17), 30_000);
    assert_eq!(advance_cursor(0), 1);
    assert_eq!(advance_cursor(2), 3);
    assert_eq!(advance_cursor(3), 3);
    assert_eq!(advance_cursor(usize::MAX), 3);
    assert_eq!(time_after(5, 7), 12);
    assert_eq!(time_after(u64::MAX - 1, 7), u64::MAX);
}

#[test]
fn invisible_never_dispatches() {
    let config = config_with_token(Some("tok"));
    let mut state = FitbitState::default();
    for t in 0..5u64 {
        assert!(state.update(&config, false, t * 100_000, Drained::Nothing).is_none());
    }
    assert_eq!(state.next_interval_index(), 0);
    assert!(!state.is_pending());
}

#[test]
fn invisible_drain_of_ordinary_failure_keeps_schedule() {
    let config = config_with_token(Some("tok"));
    let mut state = FitbitState::default();
    state.update(&config, true, 0, Drained::Nothing).expect("first poll");
    assert!(state.update(&config, false, 500, failure(500)).is_none());
    assert_eq!(state.next_interval_index(), 1);
    assert_eq!(state.next_poll_at(), 1000);
    assert!(!state.is_pending());
}

#[test]
fn single_flight_while_pending() {
    let config = config_with_token(Some("tok"));
    let mut state = FitbitState::default();
    state.update(&config, true, 0, Drained::Nothing).expect("first poll");
    assert!(state.is_pending());
    assert!(state.update(&config, true, 50_000, Drained::Nothing).is_none());
    assert!(state.is_pending());
    assert!(state.update(&config, true, 60_000, Drained::Disconnected).is_some());
    assert!(state.is_pending());
}

#[test]
fn second_unauthorized_is_surfaced() {
    let config = refreshable_config();
    let mut state = FitbitState::default();
    let request = state.update(&config, true, 0, Drained::Nothing).expect("a poll is due");
    let (mut cycle, _) = FetchCycle::start(&request, 0);
    assert!(matches!(cycle.on_response(Err(error(401))), FetchAction::Refresh { .. }));
    let update = TokenUpdate { access_token: "fresh".to_string(), expires_in_secs: 60, refresh_token: None };
    assert!(matches!(cycle.on_refresh(Ok(update)), FetchAction::Get { .. }));
    assert_eq!(cycle.phase(), FetchPhase::Requesting { retried: true });
    match finish(cycle.on_response(Err(error(401)))) {
        FetchResult::Failure { status, .. } => assert_eq!(status, 401),
        _ => panic!("expected a failure"),
    }
    assert_eq!(cycle.phase(), FetchPhase::Finished);
}

#[test]
fn unauthorized_without_refresh_is_surfaced() {
    let config = config_with_token(Some("tok"));
    let mut state = FitbitState::default();
    let request = state.update(&config, true, 0, Drained::Nothing).expect("a poll is due");
    let (mut cycle, _) = FetchCycle::start(&request, 0);
    match finish(cycle.on_response(Err(error(401)))) {
        FetchResult::Failure { status, .. } => assert_eq!(status, 401),
        _ => panic!("expected a failure"),
    }
}

#[test]
fn failed_reactive_refresh_has_no_status() {
    let config = refreshable_config();
    let mut state = FitbitState::default();
    let request = state.update(&config, true, 0, Drained::Nothing).expect("a poll is due");
    let (mut cycle, _) = FetchCycle::start(&request, 0);
    cycle.on_response(Err(error(401)));
    match finish(cycle.on_refresh(Err(error(500)))) {
        FetchResult::Failure { status, .. } => assert_eq!(status, 0),
        _ => panic!("expected a failure"),
    }
}

#[test]
fn failed_proactive_refresh_keeps_status() {
    let request = FetchRequest {
        url: "u".to_string(),
        access_token: None,
        expires_at: None,
        refresh_token: Some("rt".to_string()),
        client_id: Some("cid".to_string()),
        client_secret: Some("s".to_string()),
    };
    let (mut cycle, action) = FetchCycle::start(&request, 0);
    assert!(matches!(action, FetchAction::Refresh { .. }));
    match finish(cycle.on_refresh(Err(error(429)))) {
        FetchResult::Failure { status, .. } => assert_eq!(status, 429),
        _ => panic!("expected a failure"),
    }
}

#[test]
fn unexpired_token_is_used_as_is() {
    let request = FetchRequest {
        url: "u".to_string(),
        access_token: Some("tok".to_string()),
        expires_at: Some(1000),
        refresh_token: Some("rt".to_string()),
        client_id: Some("cid".to_string()),
        client_secret: Some("s".to_string()),
    };
    let (_, action) = FetchCycle::start(&request, 999);
    assert!(matches!(action, FetchAction::Get { .. }));
    let (_, action) = FetchCycle::start(&request, 1000);
    assert!(matches!(action, FetchAction::Refresh { .. }));
}

#[test]
fn empty_series_is_no_reading_and_no_error() {
    assert_eq!(latest_rate(&vec![]), None);
    assert_eq!(latest_rate(&vec![60, 61, 62]), Some(62));
    let config = config_with_token(Some("tok"));
    let mut state = FitbitState::default();
    let request = state.update(&config, true, 0, Drained::Nothing).expect("first poll");
    state.update(&config, true, 100, success(Some(75)));
    assert_eq!(state.last_rate(), Some(75));
    state.update(&config, true, 1000, Drained::Nothing).expect("second poll");
    let (mut cycle, _) = FetchCycle::start(&request, 1000);
    match finish(cycle.on_response(Ok(latest_rate(&vec![])))) {
        FetchResult::Success { rate, token } => {
            assert_eq!(rate, None);
            assert!(token.is_none());
            state.update(&config, true, 1100, Drained::Finished(FetchResult::Success { rate, token }));
        },
        _ => panic!("an empty series is no error"),
    }
    assert_eq!(state.last_rate(), None);
}

#[test]
fn cached_token_wins_over_configured_one() {
    let mut state = FitbitState::default();
    let first = config_with_token(Some("from-config"));
    state.update(&first, true, 0, Drained::Nothing).expect("first poll");
    assert_eq!(state.access_token().as_deref(), Some("from-config"));
    let other = config_with_token(Some("other"));
    let request = state.update(&other, true, 1000, success(None)).expect("second poll");
    assert_eq!(request.access_token.as_deref(), Some("from-config"));
}

#[test]
fn blank_settings_are_absent() {
    let mut state = FitbitState::default();
    let config = FitbitConfig {
        access_token: Some("  \t".to_string()),
        user_id: Some(" ".to_string()),
        refresh_token: Some("".to_string()),
        client_id: Some("cid".to_string()),
        client_secret: Some("\u{3000}".to_string()),
    };
    let request = state.update(&config, true, 0, Drained::Nothing).expect("a poll is due");
    assert_eq!(request.access_token, None);
    assert_eq!(request.refresh_token, None);
    assert_eq!(request.client_id.as_deref(), Some("cid"));
    assert_eq!(request.client_secret, None);
    assert_eq!(
        request.url,
        "https://api.fitbit.com/1/user/-/activities/heart/date/today/1d/1min.json"
    );
}

#[test]
fn configured_refresh_token_wins_over_cached_one() {
    let mut state = FitbitState::default();
    let config = refreshable_config();
    state.update(&config, true, 0, Drained::Nothing).expect("first poll");
    let update = TokenUpdate {
        access_token: "a".to_string(),
        expires_in_secs: 10,
        refresh_token: Some("cached-rt".to_string()),
    };
    let request = state
        .update(&config, true, 1000, Drained::Finished(FetchResult::Success { rate: None, token: Some(update) }))
        .expect("second poll");
    assert_eq!(request.refresh_token.as_deref(), Some("rt"));
    assert_eq!(request.expires_at, Some(11_000));
    let mut without = refreshable_config();
    without.refresh_token = None;
    let request = state.update(&without, true, 4000, success(None)).expect("third poll");
    assert_eq!(request.refresh_token.as_deref(), Some("cached-rt"));
}

#[test]
fn blankness_follows_unicode_white_space() {
    assert!(is_blank(""));
    assert!(is_blank(" \t\n\r"));
    assert!(is_blank("\u{2003}\u{00a0}"));
    assert!(!is_blank(" x "));
    assert!(!is_blank("\u{200b}"));
    assert_eq!(setting(&Some(" a ".to_string())).as_deref(), Some(" a "));
    assert_eq!(setting(&Some("\u{85}".to_string())), None);
    assert_eq!(setting(&None), None);
}

#[test]
fn urls_and_request_text() {
    assert_eq!(
        heart_rate_url(&Some("ABC12".to_string())),
        "https://api.fitbit.com/1/user/ABC12/activities/heart/date/today/1d/1min.json"
    );
    assert_eq!(
        heart_rate_url(&None),
        "https://api.fitbit.com/1/user/-/activities/heart/date/today/1d/1min.json"
    );
    assert_eq!(token_url(), "https://api.fitbit.com/oauth2/token");
    assert_eq!(bearer_header("t0k"), "Authorization: Bearer t0k");
    assert_eq!(refresh_form("r1"), "grant_type=refresh_token&refresh_token=r1");
    assert_eq!(basic_auth_user("id", "sec"), "id:sec");
}

#[test]
fn status_text_is_parsed_like_an_unsigned_number() {
    assert_eq!(parse_status(b"200").ok(), Some(200));
    assert_eq!(parse_status(b"+429").ok(), Some(429));
    assert_eq!(parse_status(b"65535").ok(), Some(65535));
    assert_eq!(parse_status(b"000").ok(), Some(0));
    for bad in [&b""[..], b"+", b"65536", b"99999999999", b"2x0", b"-1", b" 200"] {
        let err = parse_status(bad).err().expect("not a status");
        assert_eq!(err.status, 0);
    }
}

#[test]
fn transport_output_is_split_at_last_newline() {
    let (body, status) = split_status_line(b"{\"a\":1}\nline\n200");
    assert_eq!(body, b"{\"a\":1}\nline".to_vec());
    assert_eq!(status, b"200".to_vec());
    let (body, status) = split_status_line(b"404");
    assert!(body.is_empty());
    assert_eq!(status, b"404".to_vec());
    let (status, body) = read_output(b"{}\n401").ok().expect("a status");
    assert_eq!(status, 401);
    assert_eq!(body, b"{}".to_vec());
    assert_eq!(read_output(b"{}\n").err().map(|e| e.status), Some(0));
}

#[test]
fn failure_statuses_start_at_400() {
    assert!(check_status(200).is_ok());
    assert!(check_status(399).is_ok());
    assert_eq!(check_status(400).err().map(|e| e.status), Some(400));
    assert_eq!(check_status(429).err().map(|e| e.status), Some(429));
}
