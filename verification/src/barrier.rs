//! The barrier that holds a tick back until every player has spoken.

use crate::config::Config;
use crate::queue::InputQueue;
use crate::tick::Tick;
use std::hash::Hash;
use vstd::prelude::*;

verus! {

/// The name under which a host schedules the barrier check.
pub const LOCKSTEP: &'static str = "lockstep";

/// The name under which a host schedules the snapshot, which opens the
/// step window. Step logic of the host runs after it.
pub const LOCKSTEP_START: &'static str = "lockstep_start";

/// The name under which a host schedules the advance, which closes the
/// step window. Step logic of the host runs before it.
pub const LOCKSTEP_END: &'static str = "lockstep_end";

/// The inputs queued for `tick` are complete: a step has been queued for
/// that tick and it has an entry for `num_players` distinct players.
pub open spec fn step_ready<PlayerID, Action>(
    queue: Map<Tick, Map<PlayerID, Seq<Action>>>,
    tick: Tick,
    num_players: usize,
) -> bool {
    queue.contains_key(tick) && queue[tick].dom().len() == num_players
}

/// The barrier lets `tick` run: the session is not paused, the cadence gate
/// has elapsed, and the inputs of `tick` are complete.
pub open spec fn barrier_permits<PlayerID, Action>(
    queue: Map<Tick, Map<PlayerID, Seq<Action>>>,
    tick: Tick,
    gate_elapsed: bool,
    config: Config,
) -> bool {
    !config.paused && gate_elapsed && step_ready(queue, tick, config.num_players)
}

/// Whether the cadence gate is to be consulted in this cycle. A paused
/// simulation leaves it alone: no time is added to it, and the barrier
/// refuses without asking it.
pub fn gate_runs(config: &Config) -> (runs: bool)
    ensures
        runs == !config.paused,
{
    !config.paused
}

/// Whether the inputs queued for `tick` are complete for `num_players`
/// registered players.
pub fn is_ready<PlayerID: Eq + Hash, Action>(
    current_tick: &Tick,
    inputs: &InputQueue<PlayerID, Action>,
    num_players: usize,
) -> (ready: bool)
    requires
        inputs.wf(),
    ensures
        ready == step_ready(inputs@, *current_tick, num_players),
{
    match inputs.get(*current_tick) {
        Some(step) => step.is_complete(num_players),
        None => false,
    }
}

/// The barrier check of one cycle.
///
/// `gate_elapsed` says whether the cadence gate has elapsed since the last
/// check; the host learns it from its clock, and only where `gate_runs`
/// tells it to ask. The tick may run when the session is not paused, the
/// cadence gate has elapsed and every registered player has an entry for
/// the tick.
/// A refusal is no error: the tick is simply not due yet.
pub fn can_step<PlayerID: Eq + Hash, Action>(
    current_tick: &Tick,
    inputs: &InputQueue<PlayerID, Action>,
    gate_elapsed: bool,
    config: &Config,
) -> (permit: bool)
    requires
        inputs.wf(),
    ensures
        permit == barrier_permits(inputs@, *current_tick, gate_elapsed, *config),
{
    if config.paused {
        return false;
    }
    if !gate_elapsed {
        return false;
    }
    is_ready(current_tick, inputs, config.num_players)
}

} // verus!
