use cosmic_nightlight::engine::{retry_master, total_updated, MASTER_ATTEMPTS};
use cosmic_nightlight::cards::{card_names, is_card, name_le};
use cosmic_nightlight::engine::{gamma_ramp_size, switch_back_vt, Applied};
use cosmic_nightlight::kelvin::{clamp_kelvin, MAX_KELVIN, MIN_KELVIN, NEUTRAL_KELVIN};
use cosmic_nightlight::nightshift::app;
use cosmic_nightlight::parse::{parse_console_number, parse_i32, parse_u32, trim};
use cosmic_nightlight::text::{decimal_string, decimal_string_pad2, str_eq};

#[test]
fn decimal_rendering() {
    for n in [0u32, 7, 10, 99, 100, 6500, u32::MAX] {
        assert_eq!(decimal_string(n), n.to_string());
        assert_eq!(decimal_string_pad2(n), format!("{n:02}"));
    }
}

#[test]
fn string_equality() {
    assert!(str_eq("on", "on"));
    assert!(!str_eq("on", "off"));
}

#[test]
fn unsigned_parsing_matches_std() {
    for s in ["0", "42", "+5", "-0", "", "+", "4294967295", "4294967296", " 1", "1_0", "007", "12a"] {
        assert_eq!(parse_u32(s), s.parse::<u32>().ok(), "input {s:?}");
    }
}

#[test]
fn signed_parsing_matches_std() {
    for s in ["0", "-7", "+7", "-", "2147483647", "2147483648", "-2147483648", "-2147483649", "--1"] {
        assert_eq!(parse_i32(s), s.parse::<i32>().ok(), "input {s:?}");
    }
}

#[test]
fn trimming_matches_std() {
    for s in ["  tty2\n", "\t\u{a0}x y\u{3000}", "", "   ", "abc"] {
        assert_eq!(trim(s), s.trim());
    }
}

#[test]
fn console_number() {
    assert_eq!(parse_console_number("tty2\n"), Some(2));
    assert_eq!(parse_console_number("  tty12 "), Some(12));
    assert_eq!(parse_console_number("tty"), None);
    assert_eq!(parse_console_number("pts2"), None);
    assert_eq!(parse_console_number(""), None);
}

#[test]
fn kelvin_is_clamped() {
    assert_eq!(clamp_kelvin(0), MIN_KELVIN);
    assert_eq!(clamp_kelvin(999), 1000);
    assert_eq!(clamp_kelvin(3500), 3500);
    assert_eq!(clamp_kelvin(NEUTRAL_KELVIN), 6500);
    assert_eq!(clamp_kelvin(20000), MAX_KELVIN);
}

#[test]
fn crtc_selection() {
    assert_eq!(gamma_ramp_size(true, 256), Some(256));
    assert_eq!(gamma_ramp_size(true, 0), None);
    assert_eq!(gamma_ramp_size(false, 1024), None);
    assert_eq!(Applied { crtcs: 2 }.crtcs, 2);
}

#[test]
fn vt_to_return_to() {
    assert_eq!(switch_back_vt(None, 3), Some(3));
    assert_eq!(switch_back_vt(Some(2), 2), Some(2));
    assert_eq!(switch_back_vt(Some(2), 7), None);
}

#[test]
fn nightshift_app_schedule_index() {
    assert_eq!(app::Schedule::Manual.index(), 0);
    assert_eq!(app::Schedule::SunsetToSunrise.index(), 1);
    assert_eq!(app::Schedule::from_index(1), app::Schedule::SunsetToSunrise);
}

#[test]
fn card_nodes_are_filtered_and_sorted() {
    let entries: Vec<String> = ["renderD128", "card1", "by-path", "card0", "card10", "card2"]
        .iter()
        .map(|s| s.to_string())
        .collect();
    let names = card_names(&entries);
    assert_eq!(names, vec!["card0", "card1", "card10", "card2"]);
    assert!(is_card("card0"));
    assert!(!is_card("car"));
    assert!(!is_card("renderD128"));
    assert!(name_le("card1", "card10"));
    assert!(!name_le("card2", "card10"));
    assert!(name_le("", "a"));
    assert!(card_names(&Vec::new()).is_empty());
}

#[test]
fn master_lock_retries_and_card_totals() {
    assert_eq!(MASTER_ATTEMPTS, 20);
    assert!(retry_master(0));
    assert!(retry_master(19));
    assert!(!retry_master(20));
    assert_eq!(total_updated(&Vec::new()), None);
    assert_eq!(total_updated(&vec![None]), Some(0));
    assert_eq!(total_updated(&vec![Some(2), None, Some(1)]), Some(3));
}
