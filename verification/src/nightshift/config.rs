//! Settings shared by the night-shift applet, settings window and daemon.
//!
//! Reading the key/value store is the caller's job; [`Settings::load_from`]
//! merges the keys that were found over the defaults.

use vstd::prelude::*;

use crate::text::str_eq;

verus! {

/// Config namespace; also the application/desktop id.
pub const APP_ID: &'static str = "io.github.cosmic_nightshift";

/// Bit pattern (IEEE-754 binary64) of the brightness factor `1.0`; the
/// library only carries the stored brightness, so it holds its bits.
pub const FULL_BRIGHTNESS_BITS: u64 = 0x3FF0_0000_0000_0000;

/// How the night tint is driven.
#[derive(Clone, Copy, Debug, PartialEq, Eq, Structural)]
pub enum Schedule {
    /// Tint follows the manual on/off toggle only.
    Manual,
    /// Tint turns on after sunset and off after sunrise.
    SunsetToSunrise,
}

/// The stored form of a schedule.
pub open spec fn schedule_key(schedule: Schedule) -> Seq<char> {
    match schedule {
        Schedule::Manual => "manual"@,
        Schedule::SunsetToSunrise => "sunset"@,
    }
}

/// The schedule a stored key denotes; anything unrecognised means `Manual`.
pub open spec fn schedule_from_key(key: Seq<char>) -> Schedule {
    if key == "sunset"@ {
        Schedule::SunsetToSunrise
    } else {
        Schedule::Manual
    }
}

/// Position of a schedule in [`Schedule::ALL`].
pub open spec fn schedule_position(schedule: Schedule) -> usize {
    match schedule {
        Schedule::Manual => 0,
        Schedule::SunsetToSunrise => 1,
    }
}

impl Schedule {
    /// Every schedule, in the order the settings dropdown lists them.
    pub const ALL: [Schedule; 2] = [Schedule::Manual, Schedule::SunsetToSunrise];

    /// Index into [`Schedule::ALL`], for the settings dropdown.
    pub fn index(self) -> (res: usize)
        ensures
            res == schedule_position(self),
            res < 2,
            Self::ALL@[res as int] == self,
    {
        let all = Self::ALL;
        let mut i: usize = 0;
        while i < 2
            invariant
                i <= 2,
                all@ == Self::ALL@,
                forall|j: int| 0 <= j < i ==> all@[j] != self,
            decreases 2 - i,
        {
            if all[i] == self {
                return i;
            }
            i = i + 1;
        }
        0
    }

    /// The schedule at a dropdown index.
    pub fn from_index(index: usize) -> (res: Schedule)
        requires
            index < 2,
        ensures
            res == Self::ALL@[index as int],
            schedule_position(res) == index,
    {
        let all = Self::ALL;
        all[index]
    }

    /// The key under which this schedule is stored.
    pub fn as_key(self) -> (res: &'static str)
        ensures
            res@ == schedule_key(self),
    {
        match self {
            Schedule::Manual => "manual",
            Schedule::SunsetToSunrise => "sunset",
        }
    }

    /// Decodes a stored key; unknown keys fall back to `Manual`.
    pub fn from_key(key: &str) -> (res: Schedule)
        ensures
            res == schedule_from_key(key@),
    {
        if str_eq(key, "sunset") {
            Schedule::SunsetToSunrise
        } else {
            Schedule::Manual
        }
    }
}

/// Decoding the stored form of a schedule gives the schedule back.
pub proof fn schedule_key_round_trip(schedule: Schedule)
    ensures
        schedule_from_key(schedule_key(schedule)) == schedule,
{
    reveal_strlit("manual");
    reveal_strlit("sunset");
    assert("manual"@ != "sunset"@) by {
        assert("manual"@[0] != "sunset"@[0]);
    }
}

/// A snapshot of all persisted settings.
#[derive(Clone, Copy, Debug, PartialEq, Eq, Structural)]
pub struct Settings {
    pub enabled: bool,
    pub temperature: u32,
    /// Brightness factor (`0.0..=1.0`) as its IEEE-754 binary64 bits.
    pub brightness_bits: u64,
    pub schedule: Schedule,
    pub sunrise_hour: u32,
    pub sunset_hour: u32,
    pub autostart: bool,
}

/// The settings used when nothing has been stored.
pub open spec fn default_settings() -> Settings {
    Settings {
        enabled: false,
        temperature: 4500,
        brightness_bits: FULL_BRIGHTNESS_BITS,
        schedule: Schedule::Manual,
        sunrise_hour: 6,
        sunset_hour: 18,
        autostart: false,
    }
}

impl Default for Settings {
    fn default() -> (res: Settings)
        ensures
            res == default_settings(),
    {
        Settings {
            enabled: false,
            temperature: 4500,
            brightness_bits: FULL_BRIGHTNESS_BITS,
            schedule: Schedule::Manual,
            sunrise_hour: 6,
            sunset_hour: 18,
            autostart: false,
        }
    }
}

/// The values found in the settings store, one per key; `None` where a key
/// was missing or could not be read as its type.
pub struct StoredSettings {
    pub enabled: Option<bool>,
    pub temperature: Option<u32>,
    pub brightness_bits: Option<u64>,
    pub schedule: Option<String>,
    pub sunrise_hour: Option<u32>,
    pub sunset_hour: Option<u32>,
    pub autostart: Option<bool>,
}

/// [`StoredSettings`] with its text value as a character sequence.
pub struct StoredSettingsView {
    pub enabled: Option<bool>,
    pub temperature: Option<u32>,
    pub brightness_bits: Option<u64>,
    pub schedule: Option<Seq<char>>,
    pub sunrise_hour: Option<u32>,
    pub sunset_hour: Option<u32>,
    pub autostart: Option<bool>,
}

impl View for StoredSettings {
    type V = StoredSettingsView;

    open spec fn view(&self) -> StoredSettingsView {
        StoredSettingsView {
            enabled: self.enabled,
            temperature: self.temperature,
            brightness_bits: self.brightness_bits,
            schedule: match self.schedule {
                Some(key) => Some(key@),
                None => None,
            },
            sunrise_hour: self.sunrise_hour,
            sunset_hour: self.sunset_hour,
            autostart: self.autostart,
        }
    }
}

/// The view of an optional store.
pub open spec fn store_view(store: Option<StoredSettings>) -> Option<StoredSettingsView> {
    match store {
        Some(stored) => Some(stored@),
        None => None,
    }
}

/// `value` where it was found, `default` otherwise.
pub open spec fn or_default<T>(value: Option<T>, default: T) -> T {
    match value {
        Some(v) => v,
        None => default,
    }
}

/// The settings read from a store: each key found replaces its default, and
/// with no store at all every setting is its default.
pub open spec fn loaded_settings(store: Option<StoredSettingsView>) -> Settings {
    let d = default_settings();
    match store {
        None => d,
        Some(s) => Settings {
            enabled: or_default(s.enabled, d.enabled),
            temperature: or_default(s.temperature, d.temperature),
            brightness_bits: or_default(s.brightness_bits, d.brightness_bits),
            schedule: match s.schedule {
                Some(key) => schedule_from_key(key),
                None => d.schedule,
            },
            sunrise_hour: or_default(s.sunrise_hour, d.sunrise_hour),
            sunset_hour: or_default(s.sunset_hour, d.sunset_hour),
            autostart: or_default(s.autostart, d.autostart),
        },
    }
}

/// What the store holds after every setting of `settings` has been written.
pub open spec fn stored_form(settings: Settings) -> StoredSettingsView {
    StoredSettingsView {
        enabled: Some(settings.enabled),
        temperature: Some(settings.temperature),
        brightness_bits: Some(settings.brightness_bits),
        schedule: Some(schedule_key(settings.schedule)),
        sunrise_hour: Some(settings.sunrise_hour),
        sunset_hour: Some(settings.sunset_hour),
        autostart: Some(settings.autostart),
    }
}

impl Settings {
    /// Reads every key from an already-opened store, falling back to the
    /// defaults for missing keys and for a missing store.
    pub fn load_from(store: &Option<StoredSettings>) -> (res: Settings)
        ensures
            res == loaded_settings(store_view(*store)),
    {
        let mut settings = Settings::default();
        let stored = match store {
            Some(stored) => stored,
            None => {
                return settings;
            },
        };
        if let Some(v) = stored.enabled {
            settings.enabled = v;
        }
        if let Some(v) = stored.temperature {
            settings.temperature = v;
        }
        if let Some(v) = stored.brightness_bits {
            settings.brightness_bits = v;
        }
        if let Some(key) = &stored.schedule {
            settings.schedule = Schedule::from_key(key.as_str());
        }
        if let Some(v) = stored.sunrise_hour {
            settings.sunrise_hour = v;
        }
        if let Some(v) = stored.sunset_hour {
            settings.sunset_hour = v;
        }
        if let Some(v) = stored.autostart {
            settings.autostart = v;
        }
        settings
    }
}

/// Each setting read from a store comes from its own key alone: a key that
/// was found gives its value, and a missing key gives that setting's default
/// whatever the other keys hold.
pub proof fn each_setting_from_its_own_key(stored: StoredSettingsView)
    ensures
        loaded_settings(Some(stored)).enabled == match stored.enabled {
            Some(v) => v,
            None => false,
        },
        loaded_settings(Some(stored)).temperature == match stored.temperature {
            Some(v) => v,
            None => 4500u32,
        },
        loaded_settings(Some(stored)).brightness_bits == match stored.brightness_bits {
            Some(v) => v,
            None => FULL_BRIGHTNESS_BITS,
        },
        loaded_settings(Some(stored)).schedule == match stored.schedule {
            Some(key) => schedule_from_key(key),
            None => Schedule::Manual,
        },
        loaded_settings(Some(stored)).sunrise_hour == match stored.sunrise_hour {
            Some(v) => v,
            None => 6u32,
        },
        loaded_settings(Some(stored)).sunset_hour == match stored.sunset_hour {
            Some(v) => v,
            None => 18u32,
        },
        loaded_settings(Some(stored)).autostart == match stored.autostart {
            Some(v) => v,
            None => false,
        },
{
}

/// Two stores that agree on a key load the same value for that setting,
/// however they differ elsewhere.
pub proof fn settings_keys_independent(a: StoredSettingsView, b: StoredSettingsView)
    ensures
        a.enabled == b.enabled ==> loaded_settings(Some(a)).enabled == loaded_settings(
            Some(b),
        ).enabled,
        a.temperature == b.temperature ==> loaded_settings(Some(a)).temperature == loaded_settings(
            Some(b),
        ).temperature,
        a.brightness_bits == b.brightness_bits ==> loaded_settings(Some(a)).brightness_bits
            == loaded_settings(Some(b)).brightness_bits,
        a.schedule == b.schedule ==> loaded_settings(Some(a)).schedule == loaded_settings(
            Some(b),
        ).schedule,
        a.sunrise_hour == b.sunrise_hour ==> loaded_settings(Some(a)).sunrise_hour
            == loaded_settings(Some(b)).sunrise_hour,
        a.sunset_hour == b.sunset_hour ==> loaded_settings(Some(a)).sunset_hour == loaded_settings(
            Some(b),
        ).sunset_hour,
        a.autostart == b.autostart ==> loaded_settings(Some(a)).autostart == loaded_settings(
            Some(b),
        ).autostart,
{
}

/// With no store at all every setting is its default.
pub proof fn no_store_gives_defaults()
    ensures
        loaded_settings(None).temperature == 4500,
        loaded_settings(None).schedule == Schedule::Manual,
        loaded_settings(None).sunrise_hour == 6,
        loaded_settings(None).sunset_hour == 18,
        loaded_settings(None).brightness_bits == FULL_BRIGHTNESS_BITS,
        !loaded_settings(None).autostart,
{
}

/// Reading back a store into which every setting was written gives the
/// settings that were written.
pub proof fn load_returns_stored(settings: Settings)
    ensures
        loaded_settings(Some(stored_form(settings))) == settings,
{
    schedule_key_round_trip(settings.schedule);
}

} // verus!
