//! Settings shared by the applet, the settings window and the daemon, and the
//! rules that turn them into "is the tint on right now".
//!
//! The settings live in a key/value store; reading the store is the caller's
//! job. [`Settings::load_from`] merges whatever keys were found over the
//! defaults, and the `as_key`/`from_key` codecs give each enum its stored form.

use vstd::prelude::*;

use crate::text::{decimal, decimal_string, decimal_string_pad2, str_eq, zero_pad2};

verus! {

/// Config namespace; also the application/desktop id.
pub const APP_ID: &'static str = "io.github.cosmic_nightlight";

/// Bit pattern (IEEE-754 binary64) of the brightness factor `1.0`. The
/// library never computes with brightness; it only carries the stored value
/// from the settings store to the gamma helper, so it holds its bits.
pub const FULL_BRIGHTNESS_BITS: u64 = 0x3FF0_0000_0000_0000;

/// How the night tint is driven.
#[derive(Clone, Copy, Debug, PartialEq, Eq, Structural)]
pub enum Schedule {
    /// Tint follows the manual on/off toggle only.
    Manual,
    /// Tint turns on after sunset and off after sunrise.
    SunsetToSunrise,
}

/// The stored form of a schedule.
pub open spec fn schedule_key(schedule: Schedule) -> Seq<char> {
    match schedule {
        Schedule::Manual => "manual"@,
        Schedule::SunsetToSunrise => "sunset"@,
    }
}

/// The schedule a stored key denotes; anything unrecognised means `Manual`.
pub open spec fn schedule_from_key(key: Seq<char>) -> Schedule {
    if key == "sunset"@ {
        Schedule::SunsetToSunrise
    } else {
        Schedule::Manual
    }
}

/// Position of a schedule in [`Schedule::ALL`].
pub open spec fn schedule_position(schedule: Schedule) -> usize {
    match schedule {
        Schedule::Manual => 0,
        Schedule::SunsetToSunrise => 1,
    }
}

impl Schedule {
    /// Every schedule, in the order the settings dropdown lists them.
    pub const ALL: [Schedule; 2] = [Schedule::Manual, Schedule::SunsetToSunrise];

    /// Index into [`Schedule::ALL`], for the settings dropdown.
    pub fn index(self) -> (res: usize)
        ensures
            res == schedule_position(self),
            res < 2,
            Self::ALL@[res as int] == self,
    {
        let all = Self::ALL;
        let mut i: usize = 0;
        while i < 2
            invariant
                i <= 2,
                all@ == Self::ALL@,
                forall|j: int| 0 <= j < i ==> all@[j] != self,
            decreases 2 - i,
        {
            if all[i] == self {
                return i;
            }
            i = i + 1;
        }
        0
    }

    /// The schedule at a dropdown index.
    pub fn from_index(index: usize) -> (res: Schedule)
        requires
            index < 2,
        ensures
            res == Self::ALL@[index as int],
            schedule_position(res) == index,
    {
        let all = Self::ALL;
        all[index]
    }

    /// The key under which this schedule is stored.
    pub fn as_key(self) -> (res: &'static str)
        ensures
            res@ == schedule_key(self),
    {
        match self {
            Schedule::Manual => "manual",
            Schedule::SunsetToSunrise => "sunset",
        }
    }

    /// Decodes a stored key; unknown keys fall back to `Manual`.
    pub fn from_key(key: &str) -> (res: Schedule)
        ensures
            res == schedule_from_key(key@),
    {
        if str_eq(key, "sunset") {
            Schedule::SunsetToSunrise
        } else {
            Schedule::Manual
        }
    }
}

/// Decoding the stored form of a schedule gives the schedule back.
pub proof fn schedule_key_round_trip(schedule: Schedule)
    ensures
        schedule_from_key(schedule_key(schedule)) == schedule,
{
    reveal_strlit("manual");
    reveal_strlit("sunset");
    assert("manual"@ != "sunset"@) by {
        assert("manual"@[0] != "sunset"@[0]);
    }
}

/// Manual override of the current scheduled tint state.
///
/// `Auto` follows the schedule. `On`/`Off` force the tint regardless of the
/// schedule; the daemon clears the override back to `Auto` once the schedule
/// next agrees with it, so a manual choice lasts only until the next
/// sunset/sunrise transition.
#[derive(Clone, Copy, Debug, PartialEq, Eq, Structural)]
pub enum Override {
    Auto,
    On,
    Off,
}

/// The stored form of an override.
pub open spec fn override_key(value: Override) -> Seq<char> {
    match value {
        Override::Auto => "auto"@,
        Override::On => "on"@,
        Override::Off => "off"@,
    }
}

/// The override a stored key denotes; anything unrecognised means `Auto`.
pub open spec fn override_from_key(key: Seq<char>) -> Override {
    if key == "on"@ {
        Override::On
    } else if key == "off"@ {
        Override::Off
    } else {
        Override::Auto
    }
}

impl Override {
    /// The key under which this override is stored.
    pub fn as_key(self) -> (res: &'static str)
        ensures
            res@ == override_key(self),
    {
        match self {
            Override::Auto => "auto",
            Override::On => "on",
            Override::Off => "off",
        }
    }

    /// Decodes a stored key; unknown keys fall back to `Auto`.
    pub fn from_key(key: &str) -> (res: Override)
        ensures
            res == override_from_key(key@),
    {
        if str_eq(key, "on") {
            Override::On
        } else if str_eq(key, "off") {
            Override::Off
        } else {
            Override::Auto
        }
    }
}

/// Decoding the stored form of an override gives the override back.
pub proof fn override_key_round_trip(value: Override)
    ensures
        override_from_key(override_key(value)) == value,
{
    reveal_strlit("auto");
    reveal_strlit("on");
    reveal_strlit("off");
    assert("auto"@ != "on"@) by {
        assert("auto"@[0] != "on"@[0]);
    }
    assert("auto"@ != "off"@) by {
        assert("auto"@[0] != "off"@[0]);
    }
    assert("on"@ != "off"@) by {
        assert("on"@.len() != "off"@.len());
    }
}

/// A snapshot of all persisted settings.
#[derive(Clone, Copy, Debug, PartialEq, Eq, Structural)]
pub struct Settings {
    pub tint_override: Override,
    pub temperature: u32,
    /// Brightness factor (`0.0..=1.0`) as its IEEE-754 binary64 bits.
    pub brightness_bits: u64,
    pub schedule: Schedule,
    pub sunrise_hour: u32,
    pub sunset_hour: u32,
    pub autostart: bool,
}

/// The settings used when nothing has been stored.
pub open spec fn default_settings() -> Settings {
    Settings {
        tint_override: Override::Auto,
        temperature: 4500,
        brightness_bits: FULL_BRIGHTNESS_BITS,
        schedule: Schedule::Manual,
        sunrise_hour: 6,
        sunset_hour: 18,
        autostart: false,
    }
}

impl Default for Settings {
    fn default() -> (res: Settings)
        ensures
            res == default_settings(),
    {
        Settings {
            tint_override: Override::Auto,
            temperature: 4500,
            brightness_bits: FULL_BRIGHTNESS_BITS,
            schedule: Schedule::Manual,
            sunrise_hour: 6,
            sunset_hour: 18,
            autostart: false,
        }
    }
}

/// Whether `hour` lies in the night window `[sunset_hour, sunrise_hour)`:
/// from sunset up to (not including) sunrise, wrapping past midnight when
/// sunset comes later in the day than sunrise. Equal hours make the window
/// empty.
pub open spec fn is_night_at(hour: u32, sunrise_hour: u32, sunset_hour: u32) -> bool {
    if sunset_hour <= sunrise_hour {
        sunset_hour <= hour && hour < sunrise_hour
    } else {
        hour >= sunset_hour || hour < sunrise_hour
    }
}

/// Whether a manual override has been caught up by the schedule: a forced
/// state that the schedule now wants anyway.
pub open spec fn override_caught_up(value: Override, schedule_wants: bool) -> bool {
    match value {
        Override::On => schedule_wants,
        Override::Off => !schedule_wants,
        Override::Auto => false,
    }
}

/// The override a toggle to `on` stores: following the schedule means `Auto`,
/// going against it forces the chosen state.
pub open spec fn toggle_override(on: bool, schedule_wants: bool) -> Override {
    if on == schedule_wants {
        Override::Auto
    } else if on {
        Override::On
    } else {
        Override::Off
    }
}

impl Settings {
    /// Whether the schedule alone wants the tint on at local hour `hour`.
    pub open spec fn wants_tint_at(self, hour: u32) -> bool {
        match self.schedule {
            Schedule::Manual => false,
            Schedule::SunsetToSunrise => is_night_at(hour, self.sunrise_hour, self.sunset_hour),
        }
    }

    /// Whether the tint is on at local hour `hour`, override included.
    pub open spec fn is_tinted_at(self, hour: u32) -> bool {
        match self.tint_override {
            Override::Auto => self.wants_tint_at(hour),
            Override::On => true,
            Override::Off => false,
        }
    }

    /// These settings with the override replaced.
    pub open spec fn with_override(self, value: Override) -> Settings {
        Settings { tint_override: value, ..self }
    }

    /// Whether the schedule alone (ignoring any manual override) wants the
    /// tint on at local hour `hour`. Manual mode has no time schedule, so its
    /// baseline is always off.
    pub fn schedule_wants_tint(&self, hour: u32) -> (res: bool)
        ensures
            res == self.wants_tint_at(hour),
    {
        match self.schedule {
            Schedule::Manual => false,
            Schedule::SunsetToSunrise => is_night(hour, self.sunrise_hour, self.sunset_hour),
        }
    }

    /// Whether the tint should be on at local hour `hour`, accounting for the
    /// override.
    pub fn tint_on(&self, hour: u32) -> (res: bool)
        ensures
            res == self.is_tinted_at(hour),
    {
        match self.tint_override {
            Override::Auto => self.schedule_wants_tint(hour),
            Override::On => true,
            Override::Off => false,
        }
    }

    /// Whether the manual override has been caught up by the schedule at local
    /// hour `hour`, so that it should be cleared back to `Auto`.
    pub fn override_expired(&self, hour: u32) -> (res: bool)
        ensures
            res == override_caught_up(self.tint_override, self.wants_tint_at(hour)),
    {
        let want = self.schedule_wants_tint(hour);
        match self.tint_override {
            Override::On => want,
            Override::Off => !want,
            Override::Auto => false,
        }
    }
}

/// Whether local hour `hour` is within the night window
/// `[sunset_hour, sunrise_hour)`, wrapping past midnight.
pub fn is_night(hour: u32, sunrise_hour: u32, sunset_hour: u32) -> (res: bool)
    ensures
        res == is_night_at(hour, sunrise_hour, sunset_hour),
{
    if sunset_hour <= sunrise_hour {
        sunset_hour <= hour && hour < sunrise_hour
    } else {
        hour >= sunset_hour || hour < sunrise_hour
    }
}

/// The override to store when the user flips the toggle to `on` while the
/// schedule wants `schedule_wants`.
pub fn override_for_toggle(on: bool, schedule_wants: bool) -> (res: Override)
    ensures
        res == toggle_override(on, schedule_wants),
{
    if on == schedule_wants {
        Override::Auto
    } else if on {
        Override::On
    } else {
        Override::Off
    }
}

/// Flipping the toggle takes effect at once: with the override that the
/// toggle stores, the tint is on exactly when the toggle was set on.
pub proof fn toggle_takes_effect(settings: Settings, hour: u32, on: bool)
    ensures
        settings.with_override(toggle_override(on, settings.wants_tint_at(hour))).is_tinted_at(hour)
            == on,
{
}

/// The override a toggle stores is never one the scheduler would clear at
/// once: a manual choice lasts until the schedule changes its mind.
pub proof fn toggled_override_is_not_expired(settings: Settings, hour: u32, on: bool)
    ensures
        !override_caught_up(
            toggle_override(on, settings.wants_tint_at(hour)),
            settings.wants_tint_at(hour),
        ),
{
}

/// Clearing a caught-up override back to `Auto` leaves the tint as it was.
pub proof fn expiring_override_keeps_tint(settings: Settings, hour: u32)
    requires
        override_caught_up(settings.tint_override, settings.wants_tint_at(hour)),
    ensures
        settings.with_override(Override::Auto).is_tinted_at(hour) == settings.is_tinted_at(hour),
{
}

/// The values found in the settings store, one per key; `None` where a key
/// was missing or could not be read as its type.
pub struct StoredSettings {
    pub tint_override: Option<String>,
    pub temperature: Option<u32>,
    pub brightness_bits: Option<u64>,
    pub schedule: Option<String>,
    pub sunrise_hour: Option<u32>,
    pub sunset_hour: Option<u32>,
    pub autostart: Option<bool>,
}

/// [`StoredSettings`] with its text values as character sequences.
pub struct StoredSettingsView {
    pub tint_override: Option<Seq<char>>,
    pub temperature: Option<u32>,
    pub brightness_bits: Option<u64>,
    pub schedule: Option<Seq<char>>,
    pub sunrise_hour: Option<u32>,
    pub sunset_hour: Option<u32>,
    pub autostart: Option<bool>,
}

/// The characters of an optional stored text value.
pub open spec fn text_view(value: Option<String>) -> Option<Seq<char>> {
    match value {
        Some(text) => Some(text@),
        None => None,
    }
}

impl View for StoredSettings {
    type V = StoredSettingsView;

    open spec fn view(&self) -> StoredSettingsView {
        StoredSettingsView {
            tint_override: text_view(self.tint_override),
            temperature: self.temperature,
            brightness_bits: self.brightness_bits,
            schedule: text_view(self.schedule),
            sunrise_hour: self.sunrise_hour,
            sunset_hour: self.sunset_hour,
            autostart: self.autostart,
        }
    }
}

/// The view of an optional store.
pub open spec fn store_view(store: Option<StoredSettings>) -> Option<StoredSettingsView> {
    match store {
        Some(stored) => Some(stored@),
        None => None,
    }
}

/// `value` where it was found, `default` otherwise.
pub open spec fn or_default<T>(value: Option<T>, default: T) -> T {
    match value {
        Some(v) => v,
        None => default,
    }
}

/// The settings read from a store: each key found replaces its default, and
/// with no store at all every setting is its default.
pub open spec fn loaded_settings(store: Option<StoredSettingsView>) -> Settings {
    let d = default_settings();
    match store {
        None => d,
        Some(s) => Settings {
            tint_override: match s.tint_override {
                Some(key) => override_from_key(key),
                None => d.tint_override,
            },
            temperature: or_default(s.temperature, d.temperature),
            brightness_bits: or_default(s.brightness_bits, d.brightness_bits),
            schedule: match s.schedule {
                Some(key) => schedule_from_key(key),
                None => d.schedule,
            },
            sunrise_hour: or_default(s.sunrise_hour, d.sunrise_hour),
            sunset_hour: or_default(s.sunset_hour, d.sunset_hour),
            autostart: or_default(s.autostart, d.autostart),
        },
    }
}

/// What the store holds after every setting of `settings` has been written.
pub open spec fn stored_form(settings: Settings) -> StoredSettingsView {
    StoredSettingsView {
        tint_override: Some(override_key(settings.tint_override)),
        temperature: Some(settings.temperature),
        brightness_bits: Some(settings.brightness_bits),
        schedule: Some(schedule_key(settings.schedule)),
        sunrise_hour: Some(settings.sunrise_hour),
        sunset_hour: Some(settings.sunset_hour),
        autostart: Some(settings.autostart),
    }
}

impl Settings {
    /// Reads every key from an already-opened store, falling back to the
    /// defaults for missing keys and for a missing store.
    pub fn load_from(store: &Option<StoredSettings>) -> (res: Settings)
        ensures
            res == loaded_settings(store_view(*store)),
    {
        let mut settings = Settings::default();
        let stored = match store {
            Some(stored) => stored,
            None => {
                return settings;
            },
        };
        if let Some(key) = &stored.tint_override {
            settings.tint_override = Override::from_key(key.as_str());
        }
        if let Some(v) = stored.temperature {
            settings.temperature = v;
        }
        if let Some(v) = stored.brightness_bits {
            settings.brightness_bits = v;
        }
        if let Some(key) = &stored.schedule {
            settings.schedule = Schedule::from_key(key.as_str());
        }
        if let Some(v) = stored.sunrise_hour {
            settings.sunrise_hour = v;
        }
        if let Some(v) = stored.sunset_hour {
            settings.sunset_hour = v;
        }
        if let Some(v) = stored.autostart {
            settings.autostart = v;
        }
        settings
    }
}

/// Each setting read from a store comes from its own key alone: a key that
/// was found gives its value, and a missing key gives that setting's default
/// whatever the other keys hold.
pub proof fn each_setting_from_its_own_key(stored: StoredSettingsView)
    ensures
        loaded_settings(Some(stored)).tint_override == match stored.tint_override {
            Some(key) => override_from_key(key),
            None => Override::Auto,
        },
        loaded_settings(Some(stored)).temperature == match stored.temperature {
            Some(v) => v,
            None => 4500u32,
        },
        loaded_settings(Some(stored)).brightness_bits == match stored.brightness_bits {
            Some(v) => v,
            None => FULL_BRIGHTNESS_BITS,
        },
        loaded_settings(Some(stored)).schedule == match stored.schedule {
            Some(key) => schedule_from_key(key),
            None => Schedule::Manual,
        },
        loaded_settings(Some(stored)).sunrise_hour == match stored.sunrise_hour {
            Some(v) => v,
            None => 6u32,
        },
        loaded_settings(Some(stored)).sunset_hour == match stored.sunset_hour {
            Some(v) => v,
            None => 18u32,
        },
        loaded_settings(Some(stored)).autostart == match stored.autostart {
            Some(v) => v,
            None => false,
        },
{
}

/// Two stores that agree on a key load the same value for that setting,
/// however they differ elsewhere.
pub proof fn settings_keys_independent(a: StoredSettingsView, b: StoredSettingsView)
    ensures
        a.tint_override == b.tint_override ==> loaded_settings(Some(a)).tint_override
            == loaded_settings(Some(b)).tint_override,
        a.temperature == b.temperature ==> loaded_settings(Some(a)).temperature == loaded_settings(
            Some(b),
        ).temperature,
        a.brightness_bits == b.brightness_bits ==> loaded_settings(Some(a)).brightness_bits
            == loaded_settings(Some(b)).brightness_bits,
        a.schedule == b.schedule ==> loaded_settings(Some(a)).schedule == loaded_settings(
            Some(b),
        ).schedule,
        a.sunrise_hour == b.sunrise_hour ==> loaded_settings(Some(a)).sunrise_hour
            == loaded_settings(Some(b)).sunrise_hour,
        a.sunset_hour == b.sunset_hour ==> loaded_settings(Some(a)).sunset_hour == loaded_settings(
            Some(b),
        ).sunset_hour,
        a.autostart == b.autostart ==> loaded_settings(Some(a)).autostart == loaded_settings(
            Some(b),
        ).autostart,
{
}

/// With no store at all every setting is its default.
pub proof fn no_store_gives_defaults()
    ensures
        loaded_settings(None).temperature == 4500,
        loaded_settings(None).schedule == Schedule::Manual,
        loaded_settings(None).sunrise_hour == 6,
        loaded_settings(None).sunset_hour == 18,
        loaded_settings(None).brightness_bits == FULL_BRIGHTNESS_BITS,
        !loaded_settings(None).autostart,
{
}

/// Reading back a store into which every setting was written gives the
/// settings that were written.
pub proof fn load_returns_stored(settings: Settings)
    ensures
        loaded_settings(Some(stored_form(settings))) == settings,
{
    schedule_key_round_trip(settings.schedule);
    override_key_round_trip(settings.tint_override);
}

/// How an hour (`0..=23`) is shown: `"HH:00"` on a 24-hour clock, otherwise
/// `"h:00AM"`/`"h:00PM"` with midnight and noon shown as 12.
pub open spec fn hour_label(hour: u32, military: bool) -> Seq<char> {
    if military {
        zero_pad2(decimal(hour as nat)) + ":00"@
    } else {
        let h12: nat = if hour % 12 == 0 { 12 } else { (hour % 12) as nat };
        decimal(h12) + ":00"@ + (if hour < 12 { "AM"@ } else { "PM"@ })
    }
}

/// Formats an hour according to the system's 24-hour time setting.
pub fn format_hour(hour: u32, military: bool) -> (res: String)
    ensures
        res@ == hour_label(hour, military),
{
    if military {
        decimal_string_pad2(hour).concat(":00")
    } else {
        let h12: u32 = if hour % 12 == 0 { 12 } else { hour % 12 };
        let ampm = if hour < 12 { "AM" } else { "PM" };
        decimal_string(h12).concat(":00").concat(ampm)
    }
}

/// The hour labels for the sunrise/sunset dropdowns, one per hour of the
/// day.
pub fn hour_labels(military: bool) -> (res: Vec<String>)
    ensures
        res@.len() == 24,
        forall|h: int| 0 <= h < 24 ==> #[trigger] res@[h]@ == hour_label(h as u32, military),
{
    let mut labels: Vec<String> = Vec::new();
    let mut h: u32 = 0;
    while h < 24
        invariant
            h <= 24,
            labels@.len() == h,
            forall|k: int| 0 <= k < h ==> #[trigger] labels@[k]@ == hour_label(k as u32, military),
        decreases 24 - h,
    {
        labels.push(format_hour(h, military));
        h = h + 1;
    }
    labels
}

/// The line under the toggle that says what the tint is doing: plain
/// `On`/`Off` under the manual schedule, otherwise until when it stays so.
pub open spec fn status_line(
    schedule: Schedule,
    tint_on: bool,
    sunrise_hour: u32,
    sunset_hour: u32,
    military: bool,
) -> Seq<char> {
    match schedule {
        Schedule::Manual => if tint_on {
            "On"@
        } else {
            "Off"@
        },
        Schedule::SunsetToSunrise => if tint_on {
            "On Until "@ + hour_label(sunrise_hour, military)
        } else {
            "Off Until "@ + hour_label(sunset_hour, military)
        },
    }
}

/// Renders the status line shown under the night-light toggle.
pub fn status_text(
    schedule: Schedule,
    tint_on: bool,
    sunrise_hour: u32,
    sunset_hour: u32,
    military: bool,
) -> (res: String)
    ensures
        res@ == status_line(schedule, tint_on, sunrise_hour, sunset_hour, military),
{
    match schedule {
        Schedule::Manual => if tint_on {
            String::from_str("On")
        } else {
            String::from_str("Off")
        },
        Schedule::SunsetToSunrise => if tint_on {
            let hour = format_hour(sunrise_hour, military);
            String::from_str("On Until ").concat(hour.as_str())
        } else {
            let hour = format_hour(sunset_hour, military);
            String::from_str("Off Until ").concat(hour.as_str())
        },
    }
}

} // verus!
