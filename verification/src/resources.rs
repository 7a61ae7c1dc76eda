//! What the players of the game earn and spend.

use vstd::prelude::*;

verus! {

/// A resource in the game.
#[derive(Debug, Clone, Copy, PartialEq, Eq, Structural)]
pub enum Resource {
    /// The basic unit of energy.
    Watt,
    /// The basic unit of money.
    Credit,
}

/// How much of a resource comes or goes: a positive value is produced, a
/// negative one consumed.
#[derive(Debug, Clone, Copy, PartialEq, Eq, Structural)]
pub struct ResourceDelta {
    pub resource: Resource,
    pub value: i32,
}

impl Resource {
    /// Shorthand for a `ResourceDelta` of this resource.
    pub fn d(self, value: i32) -> (delta: ResourceDelta)
        ensures
            delta == (ResourceDelta { resource: self, value }),
    {
        ResourceDelta { resource: self, value }
    }
}

impl ResourceDelta {
    /// The delta read as a cost.
    pub open spec fn cost(self) -> ResourceDelta {
        ResourceDelta { resource: self.resource, value: if self.value > 0 {
            (-self.value) as i32
        } else {
            self.value
        } }
    }

    /// The delta read as a cost: the same amount of the same resource, and
    /// consumed, whichever way the delta goes.
    pub fn as_cost(&self) -> (cost: ResourceDelta)
        ensures
            cost == self.cost(),
            cost.value <= 0,
    {
        if self.value > 0 {
            ResourceDelta { resource: self.resource, value: -self.value }
        } else {
            ResourceDelta { resource: self.resource, value: self.value }
        }
    }
}

} // verus!
