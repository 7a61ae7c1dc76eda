//! Counters that fire every so many steps of the game.

use vstd::prelude::*;
use crate::properties::GameProperties;

verus! {

/// A counter that is stepped once for every tick of the game and fires each
/// time it has counted `count_to` steps. One tick makes `tick_speed` steps, so
/// a counter may fire several times in a tick, or not at all.
pub struct Ticked {
    counter: u32,
    count_to: u32,
    fired: u32,
}

impl Ticked {
    /// The steps counted since the counter fired last.
    pub closed spec fn counter(&self) -> u32 {
        self.counter
    }

    /// The steps after which the counter fires; with 0 it fires at every step.
    pub closed spec fn count_to(&self) -> u32 {
        self.count_to
    }

    /// How often the counter fired in the last tick.
    pub closed spec fn fired(&self) -> u32 {
        self.fired
    }

    /// The counter has not yet counted as far as it counts to.
    pub open spec fn wf(&self) -> bool {
        self.count_to() == 0 || self.counter() < self.count_to()
    }

    pub fn new(every_n_ticks: u32) -> (ticked: Self)
        ensures
            ticked.counter() == 0,
            ticked.count_to() == every_n_ticks,
            ticked.fired() == 0,
            ticked.wf(),
    {
        Self { counter: 0, count_to: every_n_ticks, fired: 0 }
    }

    pub fn every_tick() -> (ticked: Self)
        ensures
            ticked.counter() == 0,
            ticked.count_to() == 0,
            ticked.fired() == 0,
            ticked.wf(),
    {
        Self { counter: 0, count_to: 0, fired: 0 }
    }

    /// Whether the steps of one tick can be added to what the counter has
    /// counted.
    pub open spec fn can_count(&self, properties: &GameProperties) -> bool {
        self.count_to() != 0 ==> self.counter() + properties.tick_speed <= u32::MAX
    }

    /// Tells whether `inc` can take the tick that `properties` describe.
    pub fn check_inc(&self, properties: &GameProperties) -> (fits: bool)
        ensures
            fits == self.can_count(properties),
    {
        self.count_to == 0 || properties.tick_speed <= u32::MAX - self.counter
    }

    /// Steps the counter through one tick of the game. A counter that fires at
    /// every step fires `tick_speed` times. Another one fires once for each
    /// `count_to` steps among those it had counted and those of this tick, and
    /// keeps counting from what is left over.
    pub fn inc(&mut self, properties: &GameProperties)
        requires
            old(self).wf(),
            old(self).can_count(properties),
        ensures
            final(self).wf(),
            final(self).count_to() == old(self).count_to(),
            old(self).count_to() == 0 ==> final(self).fired() == properties.tick_speed
                && final(self).counter() == old(self).counter(),
            old(self).count_to() != 0 ==> final(self).fired() == (old(self).counter()
                + properties.tick_speed) / old(self).count_to() as int && final(self).counter() == (
            old(self).counter() + properties.tick_speed) % old(self).count_to() as int,
    {
        if self.count_to == 0 {
            self.fired = properties.tick_speed;
            return ;
        }
        self.fired = 0;
        self.counter += properties.tick_speed;
        let ghost steps: int = self.counter as int;
        while self.counter >= self.count_to
            invariant
                self.count_to == old(self).count_to,
                self.count_to > 0,
                steps == self.fired * self.count_to + self.counter,
                0 <= steps <= u32::MAX,
            decreases self.counter,
        {
            assert(self.fired < steps) by (nonlinear_arith)
                requires
                    steps == self.fired * self.count_to + self.counter,
                    self.counter >= self.count_to,
                    self.count_to > 0,
            ;
            self.counter -= self.count_to;
            self.fired += 1;
            assert(steps == self.fired * self.count_to + self.counter) by (nonlinear_arith)
                requires
                    steps == (self.fired - 1) * self.count_to + (self.counter + self.count_to),
            ;
        }
        proof {
            vstd::arithmetic::div_mod::lemma_fundamental_div_mod_converse(
                steps,
                self.count_to as int,
                self.fired as int,
                self.counter as int,
            );
        }
    }

    /// Calls `callback` once for each time the counter fired in the last tick.
    pub fn fire<F: FnMut() -> ()>(&self, mut callback: F)
        requires
            forall|f: F| call_requires(f, ()),
    {
        let mut calls: u32 = 0;
        while calls < self.fired
            invariant
                forall|f: F| call_requires(f, ()),
            decreases self.fired - calls,
        {
            callback();
            calls += 1;
        }
    }

    pub fn fire_count(&self) -> (count: u32)
        ensures
            count == self.fired(),
    {
        self.fired
    }
}

} // verus!
