use cosmic_nightlight::nightlight::config::{Override, Schedule, Settings, FULL_BRIGHTNESS_BITS};
use cosmic_nightlight::nightlight::daemon::{
    desired_tint, session_vt, session_wait_step, DaemonState, PollAction, SessionWait,
    MAX_FAST_RETRIES, POLL_INTERVAL_SECS, RETRY_INTERVAL_SECS,
};
use cosmic_nightlight::nightshift;

#[test]
fn startup_with_tint_off_does_nothing() {
    let state = DaemonState::new();
    assert_eq!(state.poll(None), PollAction::Keep);
    assert_eq!(state.poll(Some(4000)), PollAction::Apply(4000));
}

#[test]
fn success_is_remembered() {
    let mut state = DaemonState::new();
    assert_eq!(state.poll(Some(3500)), PollAction::Apply(3500));
    assert_eq!(state.record(Some(3500), true), POLL_INTERVAL_SECS);
    assert_eq!(state.poll(Some(3500)), PollAction::Keep);
    assert_eq!(state.poll(None), PollAction::Reset);
    assert_eq!(state.poll(Some(3000)), PollAction::Apply(3000));
}

#[test]
fn failures_retry_fast_then_back_off() {
    let mut state = DaemonState::new();
    for attempt in 1..=20u32 {
        assert_eq!(state.poll(Some(3500)), PollAction::Apply(3500));
        let sleep = state.record(Some(3500), false);
        assert_eq!(state.failures, attempt);
        if attempt >= MAX_FAST_RETRIES {
            assert_eq!(sleep, POLL_INTERVAL_SECS);
        } else {
            assert_eq!(sleep, RETRY_INTERVAL_SECS);
        }
    }
    assert_eq!(state.applied, Some(None));
    assert_eq!(state.record(Some(3500), true), POLL_INTERVAL_SECS);
    assert_eq!(state.failures, 0);
}

#[test]
fn desired_tint_follows_settings() {
    let s = Settings {
        tint_override: Override::Auto,
        temperature: 3300,
        brightness_bits: FULL_BRIGHTNESS_BITS,
        schedule: Schedule::SunsetToSunrise,
        sunrise_hour: 7,
        sunset_hour: 20,
        autostart: false,
    };
    assert_eq!(desired_tint(&s, 21), Some(3300));
    assert_eq!(desired_tint(&s, 9), None);
}

#[test]
fn session_vt_from_environment() {
    assert_eq!(session_vt(&Some("2".to_string())), Some(2));
    assert_eq!(session_vt(&Some("tty2".to_string())), None);
    assert_eq!(session_vt(&None), None);
}

#[test]
fn waiting_for_the_session() {
    assert_eq!(session_wait_step(2, Some(2), true), SessionWait::Ready);
    assert_eq!(session_wait_step(2, Some(1), false), SessionWait::KeepWaiting);
    assert_eq!(session_wait_step(2, None, true), SessionWait::TimedOut);
}

#[test]
fn nightshift_first_poll_applies_and_repeats_keep() {
    let mut state = nightshift::daemon::DaemonState::new();
    assert_eq!(state.poll(None), nightshift::daemon::PollAction::Reset);
    assert_eq!(state.poll(None), nightshift::daemon::PollAction::Keep);
    assert_eq!(state.poll(Some(4000)), nightshift::daemon::PollAction::Apply(4000));
    assert_eq!(state.poll(Some(4000)), nightshift::daemon::PollAction::Keep);
}

#[test]
fn nightshift_desired_temperature() {
    let mut s = nightshift::config::Settings::default();
    s.temperature = 3000;
    assert_eq!(nightshift::daemon::desired_temperature(&s, 23), None);
    s.enabled = true;
    assert_eq!(nightshift::daemon::desired_temperature(&s, 12), Some(3000));
    s.schedule = nightshift::config::Schedule::SunsetToSunrise;
    assert_eq!(nightshift::daemon::desired_temperature(&s, 12), None);
    assert_eq!(nightshift::daemon::desired_temperature(&s, 23), Some(3000));
    s.enabled = false;
    assert_eq!(nightshift::daemon::desired_temperature(&s, 23), None);
}
