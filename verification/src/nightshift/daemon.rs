//! Decisions of the night-shift background scheduler (`--daemon`).
//!
//! Once a minute the scheduler reads the settings and applies (or clears) the
//! tint whenever the desired state differs from the last one it asked for;
//! its first poll always applies, so a daemon started at login restores the
//! saved state at once.

use vstd::prelude::*;

use crate::nightlight::config::{is_night, is_night_at};
use crate::nightshift::config::{Schedule, Settings};

verus! {

/// Seconds between polls of the settings.
pub const POLL_INTERVAL_SECS: u64 = 60;

/// The tint wanted at local hour `hour`: the temperature when enabled and,
/// under the sunset-to-sunrise schedule, inside the night window.
pub open spec fn desired_at(settings: Settings, hour: u32) -> Option<u32> {
    let on = match settings.schedule {
        Schedule::Manual => settings.enabled,
        Schedule::SunsetToSunrise => settings.enabled && is_night_at(
            hour,
            settings.sunrise_hour,
            settings.sunset_hour,
        ),
    };
    if on {
        Some(settings.temperature)
    } else {
        None
    }
}

/// The tint that should be applied at local hour `hour` (the caller reads the
/// local clock): `Some(kelvin)` for a warm tint, `None` for a neutral screen.
pub fn desired_temperature(settings: &Settings, hour: u32) -> (res: Option<u32>)
    ensures
        res == desired_at(*settings, hour),
{
    match settings.schedule {
        Schedule::Manual => if settings.enabled {
            Some(settings.temperature)
        } else {
            None
        },
        Schedule::SunsetToSunrise => {
            let night = is_night(hour, settings.sunrise_hour, settings.sunset_hour);
            if settings.enabled && night {
                Some(settings.temperature)
            } else {
                None
            }
        },
    }
}

/// What one poll does about the tint.
#[derive(Clone, Copy, Debug, PartialEq, Eq, Structural)]
pub enum PollAction {
    /// The desired tint was already asked for: do nothing.
    Keep,
    /// Apply a warm tint of this temperature.
    Apply(u32),
    /// Reset the displays to a neutral ramp.
    Reset,
}

/// What the scheduler remembers between polls: the tint it last asked for
/// (`Some(None)`: neutral), or `None` before the first poll.
#[derive(Clone, Copy, Debug, PartialEq, Eq, Structural)]
pub struct DaemonState {
    pub applied: Option<Option<u32>>,
}

/// The action a poll takes for `desired`.
pub open spec fn poll_action(state: DaemonState, desired: Option<u32>) -> PollAction {
    if state.applied == Some(desired) {
        PollAction::Keep
    } else {
        match desired {
            Some(kelvin) => PollAction::Apply(kelvin),
            None => PollAction::Reset,
        }
    }
}

impl DaemonState {
    /// The state before the first poll: nothing applied yet.
    pub fn new() -> (res: DaemonState)
        ensures
            res.applied is None,
    {
        DaemonState { applied: None }
    }

    /// Decides what this poll does for `desired` and remembers it as asked
    /// for, whatever the helper then reports.
    pub fn poll(&mut self, desired: Option<u32>) -> (res: PollAction)
        ensures
            res == poll_action(*old(self), desired),
            final(self).applied == Some(desired),
            (res == PollAction::Keep) == (old(self).applied == Some(desired)),
    {
        let same = match self.applied {
            Some(current) => match (current, desired) {
                (Some(a), Some(b)) => a == b,
                (None, None) => true,
                _ => false,
            },
            None => false,
        };
        if same {
            PollAction::Keep
        } else {
            self.applied = Some(desired);
            match desired {
                Some(kelvin) => PollAction::Apply(kelvin),
                None => PollAction::Reset,
            }
        }
    }
}

/// A poll keeps the screen exactly when the desired tint equals the one last
/// asked for; any change (another temperature, or on/off) applies the
/// desired temperature or resets for a neutral screen.
pub proof fn poll_acts_on_every_change(state: DaemonState, desired: Option<u32>)
    ensures
        (poll_action(state, desired) == PollAction::Keep) == (state.applied == Some(desired)),
        state.applied != Some(desired) ==> (desired matches Some(k) ==> poll_action(state, desired)
            == PollAction::Apply(k)),
        state.applied != Some(desired) ==> (desired is None ==> poll_action(state, desired)
            == PollAction::Reset),
{
}

/// The tint wanted is the temperature exactly when enabled and, under the
/// sunset-to-sunrise schedule, inside the night window; never when disabled.
pub proof fn desired_follows_enabled(settings: Settings, hour: u32)
    ensures
        !settings.enabled ==> desired_at(settings, hour) is None,
        settings.enabled && settings.schedule == Schedule::Manual ==> desired_at(settings, hour)
            == Some(settings.temperature),
        settings.enabled && settings.schedule == Schedule::SunsetToSunrise ==> (desired_at(
            settings,
            hour,
        ) is Some) == is_night_at(hour, settings.sunrise_hour, settings.sunset_hour),
        desired_at(settings, hour) matches Some(k) ==> k == settings.temperature,
{
}

/// The first poll always applies the desired state.
pub proof fn first_poll_applies(desired: Option<u32>)
    ensures
        poll_action(DaemonState { applied: None }, desired) != PollAction::Keep,
{
}

/// A poll that wants what the previous poll asked for does nothing.
pub proof fn repeated_poll_keeps(desired: Option<u32>)
    ensures
        poll_action(DaemonState { applied: Some(desired) }, desired) == PollAction::Keep,
{
}

} // verus!
