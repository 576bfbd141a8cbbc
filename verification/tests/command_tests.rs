use cosmic_nightlight::controls::{commit_command, toggle_command, TintCommand};
use cosmic_nightlight::helper_command::pick_helper;
use cosmic_nightlight::helper_args::{parse_args, BrightnessValue, HelperArgs};
use cosmic_nightlight::helper_command::{apply_args, command_line, reset_args};
use cosmic_nightlight::nightlight::autostart::{
    autostart_dir, entry_contents, entry_path, exec_path, is_enabled, join_path, plan_set,
    AutostartChange,
};
use cosmic_nightlight::nightlight::backend::{helper_path, session_vt_args};
use cosmic_nightlight::nightshift;
use cosmic_nightlight::nightshift::config::{Schedule, Settings, StoredSettings};

fn s(text: &str) -> String {
    text.to_string()
}

fn readings(args: &[String]) -> Vec<BrightnessValue> {
    args.iter()
        .map(|a| match a.parse::<f64>() {
            Ok(v) if (0.0..=1.0).contains(&v) => BrightnessValue::InRange,
            Ok(v) => BrightnessValue::OutOfRange(v.to_string()),
            Err(_) => BrightnessValue::NotANumber,
        })
        .collect()
}

fn parse(args: &[&str], session_vt_flag: bool) -> Result<HelperArgs, String> {
    let args: Vec<String> = args.iter().map(|a| a.to_string()).collect();
    let values = readings(&args);
    parse_args(&args, &values, session_vt_flag)
}

#[test]
fn helper_parses_temperature_and_brightness() {
    let parsed = parse(&["--temp", "3500", "--brightness", "0.9"], false).unwrap();
    assert_eq!(parsed.kelvin, 3500);
    assert_eq!(parsed.brightness_arg, Some(3));
    assert_eq!(parsed.session_vt, None);
    let parsed = parse(&["-t", "4000"], false).unwrap();
    assert_eq!(parsed, HelperArgs { kelvin: 4000, brightness_arg: None, session_vt: None });
}

#[test]
fn helper_off_means_neutral() {
    assert_eq!(parse(&["--off"], false).unwrap().kelvin, 6500);
    assert_eq!(parse(&["--temp", "3000", "--off"], false).unwrap().kelvin, 6500);
}

#[test]
fn helper_errors() {
    assert_eq!(parse(&[], false), Err(s("missing required --temp <kelvin> (or use --off)")));
    assert_eq!(parse(&["--temp"], false), Err(s("--temp requires a value")));
    assert_eq!(parse(&["--temp", "warm"], false), Err(s("invalid temperature: warm")));
    assert_eq!(parse(&["--off", "-b"], false), Err(s("--brightness requires a value")));
    assert_eq!(parse(&["--off", "-b", "dim"], false), Err(s("invalid brightness: dim")));
    assert_eq!(
        parse(&["--off", "-b", "1.5"], false),
        Err(s("brightness must be between 0.0 and 1.0 (got 1.5)"))
    );
    assert_eq!(parse(&["--off", "--bogus"], false), Err(s("unknown argument: --bogus")));
    assert_eq!(parse(&["-h"], false), Err(s("help")));
    assert_eq!(parse(&["--help", "--bogus"], false), Err(s("help")));
}

#[test]
fn session_vt_only_for_the_night_light_helper() {
    let parsed = parse(&["--off", "--session-vt", "2"], true).unwrap();
    assert_eq!(parsed.session_vt, Some(2));
    assert_eq!(
        parse(&["--off", "--session-vt", "2"], false),
        Err(s("unknown argument: --session-vt"))
    );
    assert_eq!(parse(&["--off", "--session-vt", "x"], true), Err(s("invalid session VT: x")));
    assert_eq!(parse(&["--off", "--session-vt"], true), Err(s("--session-vt requires a value")));
}

#[test]
fn helper_argument_lists() {
    assert_eq!(apply_args(3500, s("0.900")), vec![s("--temp"), s("3500"), s("--brightness"), s("0.900")]);
    assert_eq!(reset_args(), vec![s("--off")]);
    assert_eq!(
        command_line(s("/usr/bin/h"), reset_args(), session_vt_args(&Some(s("2")))),
        vec![s("/usr/bin/h"), s("--off"), s("--session-vt"), s("2")]
    );
    assert!(session_vt_args(&Some(s(""))).is_empty());
    assert!(session_vt_args(&None).is_empty());
}

#[test]
fn helper_path_override_wins() {
    assert_eq!(helper_path(&Some(s("/opt/h")), false, false), "/opt/h");
    assert_eq!(helper_path(&None, true, false), "/usr/bin/cosmic-nightlight-helper");
    assert_eq!(helper_path(&None, false, true), "/usr/local/bin/cosmic-nightlight-helper");
    assert_eq!(helper_path(&None, false, false), "/usr/bin/cosmic-nightlight-helper");
    assert_eq!(
        nightshift::backend::helper_path(&None, false, true),
        "/usr/local/bin/cosmic-nightshift-helper"
    );
    assert_eq!(
        nightshift::backend::helper_path(&None, true, true),
        "/usr/bin/cosmic-nightshift-helper"
    );
}

#[test]
fn path_joining() {
    assert_eq!(join_path("/home/u", ".config"), "/home/u/.config");
    assert_eq!(join_path("/home/u/", ".config"), "/home/u/.config");
    assert_eq!(join_path("", ".config"), ".config");
}

#[test]
fn autostart_locations() {
    assert_eq!(autostart_dir(&Some(s("/x/cfg")), &Some(s("/home/u"))), Some(s("/x/cfg/autostart")));
    assert_eq!(autostart_dir(&Some(s("")), &Some(s("/home/u"))), Some(s("/home/u/.config/autostart")));
    assert_eq!(autostart_dir(&None, &Some(s("/home/u"))), Some(s("/home/u/.config/autostart")));
    assert_eq!(autostart_dir(&None, &None), None);
    assert_eq!(
        entry_path(&Some(s("/x/cfg")), &None),
        Some(s("/x/cfg/autostart/io.github.cosmic_nightlight.desktop"))
    );
    assert!(!is_enabled(&Some(s("/x/cfg")), &None, false));
    assert!(is_enabled(&Some(s("/x/cfg")), &None, true));
    assert!(!is_enabled(&None, &None, true));
}

#[test]
fn autostart_entry_and_plan() {
    let contents = entry_contents("/usr/bin/cosmic-nightlight");
    assert!(contents.starts_with("[Desktop Entry]\nType=Application\n"));
    assert!(contents.contains("\nExec=/usr/bin/cosmic-nightlight --daemon\n"));
    assert!(contents.ends_with("X-GNOME-Autostart-enabled=true\n"));
    assert_eq!(exec_path(&None), "cosmic-nightlight");
    assert_eq!(exec_path(&Some(s("/a/b"))), "/a/b");
    match plan_set(true, &None, &Some(s("/home/u")), "/bin/n") {
        AutostartChange::Write { dir, path, contents } => {
            assert_eq!(dir, "/home/u/.config/autostart");
            assert_eq!(path, "/home/u/.config/autostart/io.github.cosmic_nightlight.desktop");
            assert_eq!(contents, entry_contents("/bin/n"));
        }
        _ => panic!("expected a write"),
    }
    match plan_set(false, &None, &Some(s("/home/u")), "/bin/n") {
        AutostartChange::Remove { path } => {
            assert_eq!(path, "/home/u/.config/autostart/io.github.cosmic_nightlight.desktop")
        }
        _ => panic!("expected a removal"),
    }
    assert!(matches!(plan_set(true, &None, &None, "/bin/n"), AutostartChange::NoConfigDir));
    assert!(matches!(plan_set(false, &None, &None, "/bin/n"), AutostartChange::Nothing));
}

#[test]
fn nightshift_settings_load() {
    assert_eq!(Settings::load_from(&None), Settings::default());
    let store = StoredSettings {
        enabled: Some(true),
        temperature: Some(3000),
        brightness_bits: None,
        schedule: Some(s("sunset")),
        sunrise_hour: None,
        sunset_hour: Some(20),
        autostart: None,
    };
    let loaded = Settings::load_from(&Some(store));
    assert!(loaded.enabled);
    assert_eq!(loaded.temperature, 3000);
    assert_eq!(loaded.schedule, Schedule::SunsetToSunrise);
    assert_eq!(loaded.sunrise_hour, 6);
    assert_eq!(loaded.sunset_hour, 20);
    assert_eq!(Schedule::from_key(Schedule::Manual.as_key()), Schedule::Manual);
    assert_eq!(Schedule::SunsetToSunrise.index(), 1);
}

#[test]
fn helper_pick_prefers_the_deb_location() {
    let first = "/usr/bin/h";
    let second = "/usr/local/bin/h";
    assert_eq!(pick_helper(&None, first, second, true, true), first);
    assert_eq!(pick_helper(&None, first, second, true, false), first);
    assert_eq!(pick_helper(&None, first, second, false, true), second);
    assert_eq!(pick_helper(&None, first, second, false, false), first);
    assert_eq!(pick_helper(&Some(s("/opt/h")), first, second, false, true), "/opt/h");
}

#[test]
fn quick_controls_commands() {
    assert_eq!(toggle_command(true, 3500), TintCommand::Apply(3500));
    assert_eq!(toggle_command(false, 3500), TintCommand::Reset);
    assert_eq!(commit_command(true, 4000), TintCommand::Apply(4000));
    assert_eq!(commit_command(false, 4000), TintCommand::Nothing);
}
