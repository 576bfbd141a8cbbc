//! Decisions of the background scheduler (`--daemon`).
//!
//! The scheduler polls the settings once a minute and applies (or clears) the
//! tint through the privileged helper only when the desired state differs
//! from what was last applied successfully, so it does not bounce the VT on
//! every poll. A failed apply is retried quickly at first, then at the normal
//! poll interval. The I/O (reading the settings and the local clock, running
//! the helper, sleeping) is done by the caller; this module decides what to
//! do and what to remember.

use vstd::prelude::*;

use crate::nightlight::config::{is_night_at, Override, Schedule, Settings};
use crate::parse::{parse_u32, parsed_u32};

verus! {

/// Seconds between polls of the settings.
pub const POLL_INTERVAL_SECS: u64 = 60;

/// Seconds to wait before retrying a failed apply.
pub const RETRY_INTERVAL_SECS: u64 = 5;

/// Consecutive failures after which retries fall back to the poll interval.
pub const MAX_FAST_RETRIES: u32 = 12;

/// How long to wait for the graphical session to become the foreground VT.
pub const SESSION_READY_TIMEOUT_SECS: u64 = 60;

/// How often to look at the foreground VT while waiting for the session.
pub const SESSION_READY_POLL_MILLIS: u64 = 500;

/// The tint the settings ask for at local hour `hour`: `Some(kelvin)` for a
/// warm tint, `None` for a neutral screen.
pub open spec fn desired_tint_at(settings: Settings, hour: u32) -> Option<u32> {
    if settings.is_tinted_at(hour) {
        Some(settings.temperature)
    } else {
        None
    }
}

/// The tint the settings ask for at local hour `hour` (the caller reads the
/// local clock).
pub fn desired_tint(settings: &Settings, hour: u32) -> (res: Option<u32>)
    ensures
        res == desired_tint_at(*settings, hour),
        settings.tint_override == Override::On ==> res == Some(settings.temperature),
        settings.tint_override == Override::Off ==> res is None,
{
    if settings.tint_on(hour) {
        Some(settings.temperature)
    } else {
        None
    }
}

/// The tint the scheduler asks for follows the tint state with the override
/// included: a forced-on tint is the settings' temperature at every hour and
/// under either schedule, a forced-off tint is neutral, and only `Auto`
/// follows the schedule (never under the manual schedule, inside the night
/// window under the sunset-to-sunrise one).
pub proof fn desired_tint_follows_override(settings: Settings, hour: u32)
    ensures
        settings.tint_override == Override::On ==> desired_tint_at(settings, hour) == Some(
            settings.temperature,
        ),
        settings.tint_override == Override::Off ==> desired_tint_at(settings, hour) is None,
        settings.tint_override == Override::Auto && settings.schedule == Schedule::Manual
            ==> desired_tint_at(settings, hour) is None,
        settings.tint_override == Override::Auto && settings.schedule == Schedule::SunsetToSunrise
            ==> (desired_tint_at(settings, hour) == if is_night_at(
            hour,
            settings.sunrise_hour,
            settings.sunset_hour,
        ) {
            Some(settings.temperature)
        } else {
            None::<u32>
        }),
        desired_tint_at(settings, hour) matches Some(k) ==> k == settings.temperature,
{
}

/// What one poll does about the tint.
#[derive(Clone, Copy, Debug, PartialEq, Eq, Structural)]
pub enum PollAction {
    /// The desired tint is already applied: do nothing.
    Keep,
    /// Apply a warm tint of this temperature.
    Apply(u32),
    /// Reset the displays to a neutral ramp.
    Reset,
}

/// What the scheduler remembers between polls.
#[derive(Clone, Copy, Debug, PartialEq, Eq, Structural)]
pub struct DaemonState {
    /// The tint last applied successfully (`Some(None)`: neutral), or `None`
    /// when nothing is known to be applied.
    pub applied: Option<Option<u32>>,
    /// Consecutive failed applies.
    pub failures: u32,
}

/// The state at login: the screen starts neutral (the compositor sets an
/// identity ramp at modeset), so a desired "tint off" needs no reset.
pub open spec fn startup_state() -> DaemonState {
    DaemonState { applied: Some(None), failures: 0 }
}

/// The action a poll takes for `desired`.
pub open spec fn poll_action(state: DaemonState, desired: Option<u32>) -> PollAction {
    if state.applied == Some(desired) {
        PollAction::Keep
    } else {
        match desired {
            Some(kelvin) => PollAction::Apply(kelvin),
            None => PollAction::Reset,
        }
    }
}

/// The state after an apply or reset for `desired` succeeded (`ok`) or failed.
pub open spec fn state_after(state: DaemonState, desired: Option<u32>, ok: bool) -> DaemonState {
    if ok {
        DaemonState { applied: Some(desired), failures: 0 }
    } else {
        DaemonState { applied: state.applied, failures: (state.failures + 1) as u32 }
    }
}

/// Seconds to sleep after an apply or reset that succeeded (`ok`) or failed,
/// given the number of consecutive failures before it.
pub open spec fn sleep_after(failures_before: u32, ok: bool) -> u64 {
    if ok || failures_before + 1 >= MAX_FAST_RETRIES {
        POLL_INTERVAL_SECS
    } else {
        RETRY_INTERVAL_SECS
    }
}

impl DaemonState {
    /// The scheduler's state at login.
    pub fn new() -> (res: DaemonState)
        ensures
            res == startup_state(),
    {
        DaemonState { applied: Some(None), failures: 0 }
    }

    /// Decides what this poll does for `desired`; after `Keep` the caller
    /// sleeps [`POLL_INTERVAL_SECS`].
    pub fn poll(&self, desired: Option<u32>) -> (res: PollAction)
        ensures
            res == poll_action(*self, desired),
    {
        let same = match self.applied {
            Some(current) => match (current, desired) {
                (Some(a), Some(b)) => a == b,
                (None, None) => true,
                _ => false,
            },
            None => false,
        };
        if same {
            PollAction::Keep
        } else {
            match desired {
                Some(kelvin) => PollAction::Apply(kelvin),
                None => PollAction::Reset,
            }
        }
    }

    /// Records the outcome of applying `desired` and returns how many seconds
    /// to sleep before the next poll. A failure leaves `applied` unchanged so
    /// the next poll tries again.
    pub fn record(&mut self, desired: Option<u32>, ok: bool) -> (sleep_secs: u64)
        requires
            ok || old(self).failures < u32::MAX,
        ensures
            *final(self) == state_after(*old(self), desired, ok),
            sleep_secs == sleep_after(old(self).failures, ok),
    {
        if ok {
            self.applied = Some(desired);
            self.failures = 0;
            POLL_INTERVAL_SECS
        } else {
            self.failures = self.failures + 1;
            if self.failures >= MAX_FAST_RETRIES {
                POLL_INTERVAL_SECS
            } else {
                RETRY_INTERVAL_SECS
            }
        }
    }
}

/// A poll keeps the screen exactly when the desired tint is the one last
/// applied successfully; otherwise it applies the desired temperature, or
/// resets when a neutral screen is desired.
pub proof fn poll_acts_on_every_change(state: DaemonState, desired: Option<u32>)
    ensures
        (poll_action(state, desired) == PollAction::Keep) == (state.applied == Some(desired)),
        state.applied != Some(desired) ==> (desired matches Some(k) ==> poll_action(state, desired)
            == PollAction::Apply(k)),
        state.applied != Some(desired) ==> (desired is None ==> poll_action(state, desired)
            == PollAction::Reset),
{
}

/// Once a tint has been applied successfully, polls that want the same tint
/// leave the screen alone.
pub proof fn applied_tint_is_kept(state: DaemonState, desired: Option<u32>)
    ensures
        poll_action(state_after(state, desired, true), desired) == PollAction::Keep,
{
}

/// At login a desired neutral screen fires no reset.
pub proof fn startup_neutral_is_kept()
    ensures
        poll_action(startup_state(), None) == PollAction::Keep,
{
}

/// A failed apply is never taken for an applied one: the next poll for the
/// same tint tries again.
pub proof fn failed_apply_is_retried(state: DaemonState, desired: Option<u32>)
    requires
        poll_action(state, desired) != PollAction::Keep,
        state.failures < u32::MAX,
    ensures
        poll_action(state_after(state, desired, false), desired) == poll_action(state, desired),
{
}

/// The session VT named by `XDG_VTNR`, when it is set and a number.
pub fn session_vt(xdg_vtnr: &Option<String>) -> (res: Option<u32>)
    ensures
        res == match xdg_vtnr {
            Some(text) => parsed_u32(text@),
            None => None,
        },
{
    match xdg_vtnr {
        Some(text) => parse_u32(text.as_str()),
        None => None,
    }
}

/// One step of waiting for the graphical session to come to the foreground.
#[derive(Clone, Copy, Debug, PartialEq, Eq, Structural)]
pub enum SessionWait {
    /// The session VT is in the foreground: go on.
    Ready,
    /// The deadline passed: go on anyway.
    TimedOut,
    /// Look again after [`SESSION_READY_POLL_MILLIS`].
    KeepWaiting,
}

/// Decides whether to stop waiting for session VT `session_vt`, given the
/// foreground VT (if it could be read) and whether the deadline has passed.
pub fn session_wait_step(session_vt: u32, foreground: Option<u32>, deadline_passed: bool) -> (res:
    SessionWait)
    ensures
        foreground == Some(session_vt) ==> res == SessionWait::Ready,
        foreground != Some(session_vt) && deadline_passed ==> res == SessionWait::TimedOut,
        foreground != Some(session_vt) && !deadline_passed ==> res == SessionWait::KeepWaiting,
{
    let current = match foreground {
        Some(vt) => vt == session_vt,
        None => false,
    };
    if current {
        SessionWait::Ready
    } else if deadline_passed {
        SessionWait::TimedOut
    } else {
        SessionWait::KeepWaiting
    }
}

} // verus!
