//! How the unprivileged GUI and daemon reach the privileged gamma helper.
//!
//! Setting the DRM gamma needs root, so the GUI never touches DRM itself: it
//! runs `cosmic-nightlight-helper` through `pkexec`. This module decides which
//! helper to run and with which arguments; running it is the caller's job.

use vstd::prelude::*;

use crate::helper_command::{helper_choice, override_view, pick_helper, texts};

verus! {

/// Where the `.deb` installs the helper.
pub const HELPER_PRIMARY: &'static str = "/usr/bin/cosmic-nightlight-helper";

/// Where the install script puts the helper.
pub const HELPER_SECONDARY: &'static str = "/usr/local/bin/cosmic-nightlight-helper";

/// The helper path: an override (the helper environment variable, given as
/// `env_override`) wins; otherwise the `.deb` location when it exists, else
/// the install script's location when it exists, else the `.deb` location.
/// `primary_exists` and `secondary_exists` are the disk's answers for the two
/// locations; the caller looks at the first only without an override and at
/// the second only when the first is missing, and passes `false` for a
/// location it did not look at.
pub fn helper_path(env_override: &Option<String>, primary_exists: bool, secondary_exists: bool) -> (res:
    String)
    ensures
        res@ == helper_choice(
            override_view(*env_override),
            HELPER_PRIMARY@,
            HELPER_SECONDARY@,
            primary_exists,
            secondary_exists,
        ),
{
    pick_helper(env_override, HELPER_PRIMARY, HELPER_SECONDARY, primary_exists, secondary_exists)
}

/// The arguments that tell the helper which VT the graphical session is on,
/// from `XDG_VTNR`: none when it is unset or empty.
pub open spec fn session_vt_arguments(xdg_vtnr: Option<Seq<char>>) -> Seq<Seq<char>> {
    match xdg_vtnr {
        Some(vt) if vt.len() > 0 => seq!["--session-vt"@, vt],
        _ => Seq::empty(),
    }
}

/// Builds the `--session-vt <n>` arguments from `XDG_VTNR`, since `pkexec`
/// strips the environment.
pub fn session_vt_args(xdg_vtnr: &Option<String>) -> (res: Vec<String>)
    ensures
        texts(res@) == session_vt_arguments(
            match xdg_vtnr {
                Some(vt) => Some(vt@),
                None => None,
            },
        ),
{
    let mut args: Vec<String> = Vec::new();
    match xdg_vtnr {
        Some(vt) => {
            if vt.as_str().unicode_len() > 0 {
                args.push(String::from_str("--session-vt"));
                args.push(vt.clone());
            }
        },
        None => {},
    }
    proof {
        assert(texts(args@) =~= session_vt_arguments(
            match xdg_vtnr {
                Some(vt) => Some(vt@),
                None => None,
            },
        ));
    }
    args
}

} // verus!
