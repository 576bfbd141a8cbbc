//! Which night-shift helper to run through `pkexec`; running it is the
//! caller's job.

use vstd::prelude::*;

use crate::helper_command::{helper_choice, override_view, pick_helper};

verus! {

/// Where the `.deb` installs the helper.
pub const HELPER_PRIMARY: &'static str = "/usr/bin/cosmic-nightshift-helper";

/// Where the install script puts the helper.
pub const HELPER_SECONDARY: &'static str = "/usr/local/bin/cosmic-nightshift-helper";

/// The helper path: an override (the helper environment variable, given as
/// `env_override`) wins; otherwise the `.deb` location when it exists, else
/// the install script's location when it exists, else the `.deb` location.
/// `primary_exists` and `secondary_exists` are the disk's answers for the two
/// locations; the caller looks at the first only without an override and at
/// the second only when the first is missing, and passes `false` for a
/// location it did not look at.
pub fn helper_path(env_override: &Option<String>, primary_exists: bool, secondary_exists: bool) -> (res:
    String)
    ensures
        res@ == helper_choice(
            override_view(*env_override),
            HELPER_PRIMARY@,
            HELPER_SECONDARY@,
            primary_exists,
            secondary_exists,
        ),
{
    pick_helper(env_override, HELPER_PRIMARY, HELPER_SECONDARY, primary_exists, secondary_exists)
}

} // verus!
