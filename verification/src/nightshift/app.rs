//! The schedule choice of the standalone night-shift settings app.

use vstd::prelude::*;

verus! {

/// The schedule modes the settings app offers.
#[derive(Clone, Copy, Debug, PartialEq, Eq, Structural)]
pub enum Schedule {
    Manual,
    SunsetToSunrise,
}

/// Position of a schedule in [`Schedule::ALL`].
pub open spec fn schedule_position(schedule: Schedule) -> usize {
    match schedule {
        Schedule::Manual => 0,
        Schedule::SunsetToSunrise => 1,
    }
}

impl Schedule {
    /// Every schedule, in the order the dropdown lists them.
    pub const ALL: [Schedule; 2] = [Schedule::Manual, Schedule::SunsetToSunrise];

    /// Index into [`Schedule::ALL`], for the dropdown.
    pub fn index(self) -> (res: usize)
        ensures
            res == schedule_position(self),
            res < 2,
            Self::ALL@[res as int] == self,
    {
        let all = Self::ALL;
        let mut i: usize = 0;
        while i < 2
            invariant
                i <= 2,
                all@ == Self::ALL@,
                forall|j: int| 0 <= j < i ==> all@[j] != self,
            decreases 2 - i,
        {
            if all[i] == self {
                return i;
            }
            i = i + 1;
        }
        0
    }

    /// The schedule at a dropdown index.
    pub fn from_index(index: usize) -> (res: Schedule)
        requires
            index < 2,
        ensures
            res == Self::ALL@[index as int],
            schedule_position(res) == index,
    {
        let all = Self::ALL;
        all[index]
    }
}

} // verus!
