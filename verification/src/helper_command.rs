//! Command lines for the privileged gamma helper, which the GUI and daemon
//! run through `pkexec`.

use vstd::prelude::*;

use crate::text::{decimal, decimal_string};

verus! {

/// The characters of each string in a list.
pub open spec fn texts(list: Seq<String>) -> Seq<Seq<char>> {
    list.map_values(|s: String| s@)
}

/// The helper to run: an explicit override wins; otherwise the first
/// install location when it exists, else the second when it exists, else
/// the first, so that `pkexec` reports a clear error when nothing is
/// installed.
pub open spec fn helper_choice(
    env_override: Option<Seq<char>>,
    first: Seq<char>,
    second: Seq<char>,
    first_exists: bool,
    second_exists: bool,
) -> Seq<char> {
    match env_override {
        Some(path) => path,
        None => if first_exists {
            first
        } else if second_exists {
            second
        } else {
            first
        },
    }
}

/// The characters of an optional override.
pub open spec fn override_view(env_override: Option<String>) -> Option<Seq<char>> {
    match env_override {
        Some(path) => Some(path@),
        None => None,
    }
}

/// Picks the helper from the override and whether each install location
/// exists.
pub fn pick_helper(
    env_override: &Option<String>,
    first: &str,
    second: &str,
    first_exists: bool,
    second_exists: bool,
) -> (res: String)
    ensures
        res@ == helper_choice(override_view(*env_override), first@, second@, first_exists, second_exists),
{
    match env_override {
        Some(path) => path.clone(),
        None => {
            if first_exists {
                first.to_owned()
            } else if second_exists {
                second.to_owned()
            } else {
                first.to_owned()
            }
        },
    }
}

/// The helper arguments that apply a tint: `--temp <kelvin> --brightness
/// <text>`, where `brightness_text` is the brightness already rendered with
/// three decimals.
pub open spec fn apply_arguments(kelvin: u32, brightness_text: Seq<char>) -> Seq<Seq<char>> {
    seq!["--temp"@, decimal(kelvin as nat), "--brightness"@, brightness_text]
}

/// The helper arguments that reset the displays.
pub open spec fn reset_arguments() -> Seq<Seq<char>> {
    seq!["--off"@]
}

/// Builds the arguments that apply `kelvin` at the rendered brightness.
pub fn apply_args(kelvin: u32, brightness_text: String) -> (res: Vec<String>)
    ensures
        texts(res@) == apply_arguments(kelvin, brightness_text@),
{
    let mut args: Vec<String> = Vec::new();
    args.push(String::from_str("--temp"));
    args.push(decimal_string(kelvin));
    args.push(String::from_str("--brightness"));
    args.push(brightness_text);
    assert(texts(args@) =~= apply_arguments(kelvin, brightness_text@));
    args
}

/// Builds the arguments that reset the displays.
pub fn reset_args() -> (res: Vec<String>)
    ensures
        texts(res@) == reset_arguments(),
{
    let mut args: Vec<String> = Vec::new();
    args.push(String::from_str("--off"));
    assert(texts(args@) =~= reset_arguments());
    args
}

/// The arguments handed to `pkexec`: the helper, then its arguments, then
/// any trailing ones (such as the session VT).
pub fn command_line(helper: String, args: Vec<String>, extra: Vec<String>) -> (res: Vec<String>)
    ensures
        res@ == seq![helper] + args@ + extra@,
{
    let mut line: Vec<String> = Vec::new();
    line.push(helper);
    let mut args = args;
    let mut extra = extra;
    line.append(&mut args);
    line.append(&mut extra);
    line
}

} // verus!
