//! The logical clock of the simulation.

use vstd::prelude::*;

verus! {

/// One discrete simulation step. Ticks are counted from zero and grow by
/// exactly one for each completed step.
#[derive(PartialEq, Eq, Structural, Hash, Clone, Copy, Debug)]
pub struct Tick(pub u64);

impl Default for Tick {
    /// The first tick of a session.
    fn default() -> (tick: Tick)
        ensures
            tick == Tick(0),
    {
        Tick(0)
    }
}

impl Tick {
    /// Moves the clock to the following tick. The clock never goes back
    /// and never wraps: the last representable tick cannot be left.
    pub fn advance(&mut self)
        requires
            old(self).0 < u64::MAX,
        ensures
            final(self).0 == old(self).0 + 1,
    {
        self.0 = self.0 + 1;
    }
}

} // verus!
