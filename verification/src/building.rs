//! Buildings and what they are busy with.

use vstd::prelude::*;

verus! {

/// The ticks for which a building still rests from its last action.
#[derive(Debug, Clone, Copy, PartialEq, Eq, Structural)]
pub struct BuildingCooldown(pub u32);

impl BuildingCooldown {
    /// Lets one tick pass. A building that still rests has one tick less to
    /// rest. One that has none left is done resting, and says so.
    pub fn tick_down(&mut self) -> (done: bool)
        ensures
            done == (old(self).0 == 0),
            final(self).0 == if old(self).0 > 0 {
                old(self).0 - 1
            } else {
                0
            },
    {
        if self.0 > 0 {
            self.0 -= 1;
            false
        } else {
            true
        }
    }
}

} // verus!
