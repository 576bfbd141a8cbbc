use cosmic_nightlight::nightlight::config::{
    format_hour, hour_labels, is_night, override_for_toggle, status_text, Override, Schedule,
    Settings, StoredSettings, APP_ID, FULL_BRIGHTNESS_BITS,
};

fn sunset_settings(tint_override: Override) -> Settings {
    Settings {
        tint_override,
        temperature: 3500,
        brightness_bits: FULL_BRIGHTNESS_BITS,
        schedule: Schedule::SunsetToSunrise,
        sunrise_hour: 6,
        sunset_hour: 18,
        autostart: false,
    }
}

fn empty_store() -> StoredSettings {
    StoredSettings {
        tint_override: None,
        temperature: None,
        brightness_bits: None,
        schedule: None,
        sunrise_hour: None,
        sunset_hour: None,
        autostart: None,
    }
}

#[test]
fn app_id_is_the_config_namespace() {
    assert_eq!(APP_ID, "io.github.cosmic_nightlight");
}

#[test]
fn schedule_index_and_from_index() {
    assert_eq!(Schedule::Manual.index(), 0);
    assert_eq!(Schedule::SunsetToSunrise.index(), 1);
    assert_eq!(Schedule::from_index(0), Schedule::Manual);
    assert_eq!(Schedule::from_index(1), Schedule::SunsetToSunrise);
    for s in Schedule::ALL {
        assert_eq!(Schedule::from_index(s.index()), s);
    }
}

#[test]
fn schedule_keys_round_trip_and_fall_back() {
    assert_eq!(Schedule::Manual.as_key(), "manual");
    assert_eq!(Schedule::SunsetToSunrise.as_key(), "sunset");
    for s in Schedule::ALL {
        assert_eq!(Schedule::from_key(s.as_key()), s);
    }
    assert_eq!(Schedule::from_key("bogus"), Schedule::Manual);
    assert_eq!(Schedule::from_key("Sunset"), Schedule::Manual);
    assert_eq!(Schedule::from_key(""), Schedule::Manual);
}

#[test]
fn override_keys_round_trip_and_fall_back() {
    assert_eq!(Override::Auto.as_key(), "auto");
    assert_eq!(Override::On.as_key(), "on");
    assert_eq!(Override::Off.as_key(), "off");
    for o in [Override::Auto, Override::On, Override::Off] {
        assert_eq!(Override::from_key(o.as_key()), o);
    }
    assert_eq!(Override::from_key("ON"), Override::Auto);
    assert_eq!(Override::from_key("maybe"), Override::Auto);
}

#[test]
fn defaults_when_nothing_is_stored() {
    let d = Settings::default();
    assert_eq!(d.tint_override, Override::Auto);
    assert_eq!(d.temperature, 4500);
    assert_eq!(d.brightness_bits, 1.0f64.to_bits());
    assert_eq!(d.schedule, Schedule::Manual);
    assert_eq!(d.sunrise_hour, 6);
    assert_eq!(d.sunset_hour, 18);
    assert!(!d.autostart);
    assert_eq!(Settings::load_from(&None), d);
    assert_eq!(Settings::load_from(&Some(empty_store())), d);
}

#[test]
fn found_keys_replace_defaults() {
    let mut store = empty_store();
    store.temperature = Some(3200);
    store.schedule = Some("sunset".to_string());
    store.tint_override = Some("off".to_string());
    let s = Settings::load_from(&Some(store));
    assert_eq!(s.temperature, 3200);
    assert_eq!(s.schedule, Schedule::SunsetToSunrise);
    assert_eq!(s.tint_override, Override::Off);
    assert_eq!(s.sunrise_hour, 6);
    assert_eq!(s.brightness_bits, 1.0f64.to_bits());
}

#[test]
fn stored_settings_read_back_unchanged() {
    let written = Settings {
        tint_override: Override::On,
        temperature: 2700,
        brightness_bits: 0.75f64.to_bits(),
        schedule: Schedule::SunsetToSunrise,
        sunrise_hour: 7,
        sunset_hour: 21,
        autostart: true,
    };
    let store = StoredSettings {
        tint_override: Some(written.tint_override.as_key().to_string()),
        temperature: Some(written.temperature),
        brightness_bits: Some(written.brightness_bits),
        schedule: Some(written.schedule.as_key().to_string()),
        sunrise_hour: Some(written.sunrise_hour),
        sunset_hour: Some(written.sunset_hour),
        autostart: Some(written.autostart),
    };
    assert_eq!(Settings::load_from(&Some(store)), written);
}

#[test]
fn night_window_wraps_past_midnight() {
    assert!(is_night(22, 6, 18));
    assert!(is_night(18, 6, 18));
    assert!(is_night(0, 6, 18));
    assert!(is_night(5, 6, 18));
    assert!(!is_night(6, 6, 18));
    assert!(!is_night(12, 6, 18));
    assert!(!is_night(17, 6, 18));
    // Sunset after midnight: the window does not wrap.
    assert!(!is_night(12, 6, 2));
    assert!(!is_night(1, 6, 2));
    assert!(is_night(2, 6, 2));
    assert!(is_night(5, 6, 2));
    assert!(!is_night(6, 6, 2));
    // Equal hours: an empty window.
    for h in 0..24 {
        assert!(!is_night(h, 8, 8));
    }
}

#[test]
fn manual_schedule_never_wants_tint() {
    let mut s = sunset_settings(Override::Auto);
    s.schedule = Schedule::Manual;
    for h in 0..24 {
        assert!(!s.schedule_wants_tint(h));
        assert!(!s.tint_on(h));
    }
}

#[test]
fn override_forces_the_tint() {
    let on = sunset_settings(Override::On);
    let off = sunset_settings(Override::Off);
    let auto = sunset_settings(Override::Auto);
    assert!(on.tint_on(12));
    assert!(!off.tint_on(23));
    assert!(auto.tint_on(23));
    assert!(!auto.tint_on(12));
    for h in 0..24 {
        assert!(on.tint_on(h));
        assert!(!off.tint_on(h));
    }
}

#[test]
fn toggle_against_schedule_sets_override() {
    assert_eq!(override_for_toggle(true, true), Override::Auto);
    assert_eq!(override_for_toggle(false, false), Override::Auto);
    assert_eq!(override_for_toggle(true, false), Override::On);
    assert_eq!(override_for_toggle(false, true), Override::Off);
}

#[test]
fn toggle_takes_effect_at_every_hour() {
    for h in 0..24 {
        for on in [false, true] {
            let s = sunset_settings(Override::Auto);
            let mut toggled = s;
            toggled.tint_override = override_for_toggle(on, s.schedule_wants_tint(h));
            assert_eq!(toggled.tint_on(h), on);
        }
    }
}

#[test]
fn override_expires_when_schedule_catches_up() {
    let forced_on = sunset_settings(Override::On);
    assert!(!forced_on.override_expired(12));
    assert!(forced_on.override_expired(19));
    let forced_off = sunset_settings(Override::Off);
    assert!(forced_off.override_expired(12));
    assert!(!forced_off.override_expired(19));
    let auto = sunset_settings(Override::Auto);
    assert!(!auto.override_expired(19));
    assert!(!auto.override_expired(3));
    // Clearing a caught-up override leaves the tint as it was.
    let mut cleared = forced_on;
    cleared.tint_override = Override::Auto;
    assert_eq!(cleared.tint_on(19), forced_on.tint_on(19));
}

#[test]
fn format_hour_24h() {
    assert_eq!(format_hour(0, true), "00:00");
    assert_eq!(format_hour(7, true), "07:00");
    assert_eq!(format_hour(10, true), "10:00");
    assert_eq!(format_hour(23, true), "23:00");
    assert_eq!(format_hour(123, true), "123:00");
}

#[test]
fn format_hour_12h() {
    assert_eq!(format_hour(0, false), "12:00AM");
    assert_eq!(format_hour(1, false), "1:00AM");
    assert_eq!(format_hour(11, false), "11:00AM");
    assert_eq!(format_hour(12, false), "12:00PM");
    assert_eq!(format_hour(13, false), "1:00PM");
    assert_eq!(format_hour(22, false), "10:00PM");
}

#[test]
fn hour_labels_cover_the_day() {
    let labels = hour_labels(true);
    assert_eq!(labels.len(), 24);
    assert_eq!(labels[0], "00:00");
    assert_eq!(labels[23], "23:00");
    let labels = hour_labels(false);
    assert_eq!(labels[12], "12:00PM");
}

#[test]
fn status_text_per_schedule() {
    assert_eq!(status_text(Schedule::Manual, true, 6, 18, false), "On");
    assert_eq!(status_text(Schedule::Manual, false, 6, 18, false), "Off");
    assert_eq!(status_text(Schedule::SunsetToSunrise, true, 6, 18, false), "On Until 6:00AM");
    assert_eq!(status_text(Schedule::SunsetToSunrise, false, 6, 18, true), "Off Until 18:00");
}

#[test]
fn fresh_toggle_is_not_expired() {
    for h in 0..24 {
        for on in [false, true] {
            let mut s = sunset_settings(Override::Auto);
            s.tint_override = override_for_toggle(on, s.schedule_wants_tint(h));
            assert!(!s.override_expired(h));
        }
    }
}

#[test]
fn whole_day_and_empty_windows() {
    // A window covering every hour, and one covering none.
    let mut always = sunset_settings(Override::Auto);
    always.sunrise_hour = 24;
    always.sunset_hour = 0;
    let mut never = sunset_settings(Override::Auto);
    never.sunrise_hour = 0;
    never.sunset_hour = 0;
    for h in 0..24 {
        assert!(always.schedule_wants_tint(h));
        assert!(always.tint_on(h));
        assert!(!never.schedule_wants_tint(h));
        assert!(!never.tint_on(h));
        assert!(!never.override_expired(h));
    }
}
