//! The parameters of a session.

use vstd::prelude::*;

verus! {

/// What is fixed for a session: how many players take part, how many
/// simulation steps are aimed at per second of wall-clock time, and whether
/// the simulation is held.
#[derive(Clone, Copy, Debug)]
pub struct Config {
    pub num_players: usize,
    pub ticks_per_second: usize,
    pub paused: bool,
}

} // verus!
