//! What the quick controls (the on/off toggle and the temperature slider) of
//! the applets and settings windows ask the helper to do.

use vstd::prelude::*;

verus! {

/// A request to the gamma helper.
#[derive(Clone, Copy, Debug, PartialEq, Eq, Structural)]
pub enum TintCommand {
    /// Apply a warm tint of this temperature at full brightness.
    Apply(u32),
    /// Reset the displays to a neutral ramp.
    Reset,
    /// Leave the displays alone.
    Nothing,
}

/// What flipping the toggle to `on` does, with the slider at `kelvin`: turning
/// it on applies the slider's temperature, turning it off resets.
pub fn toggle_command(on: bool, kelvin: u32) -> (res: TintCommand)
    ensures
        res == if on {
            TintCommand::Apply(kelvin)
        } else {
            TintCommand::Reset
        },
{
    if on {
        TintCommand::Apply(kelvin)
    } else {
        TintCommand::Reset
    }
}

/// What releasing the slider at `kelvin` does: while the tint is on the new
/// temperature is applied at once; while it is off nothing changes on screen.
pub fn commit_command(tint_on: bool, kelvin: u32) -> (res: TintCommand)
    ensures
        res == if tint_on {
            TintCommand::Apply(kelvin)
        } else {
            TintCommand::Nothing
        },
{
    if tint_on {
        TintCommand::Apply(kelvin)
    } else {
        TintCommand::Nothing
    }
}

} // verus!
