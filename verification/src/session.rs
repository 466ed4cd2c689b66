//! The synchronisation core: clock, queue and snapshot under one owner.

use crate::action::{ActionAtTick, LocalAction, RemoteAction};
use crate::barrier::{barrier_permits, can_step, step_ready};
use crate::config::Config;
use crate::queue::{ingested, offered, stale_count, InputQueue, StaleInsertion};
use crate::snapshot::CurrentInputs;
use crate::tick::Tick;
use std::hash::Hash;
use vstd::prelude::*;
use vstd::std_specs::hash::obeys_key_model;

verus! {

/// The actions that `events` carry, in the same order.
pub open spec fn local_actions<PlayerID, Action>(
    events: Seq<LocalAction<PlayerID, Action>>,
) -> Seq<ActionAtTick<PlayerID, Action>> {
    events.map_values(|event: LocalAction<PlayerID, Action>| event.0)
}

/// The actions that `events` carry, in the same order.
pub open spec fn remote_actions<PlayerID, Action>(
    events: Seq<RemoteAction<PlayerID, Action>>,
) -> Seq<ActionAtTick<PlayerID, Action>> {
    events.map_values(|event: RemoteAction<PlayerID, Action>| event.0)
}

/// The one owner of the tick clock, the input queue and the snapshot.
///
/// Input enters through the insertion methods and nowhere else; the
/// simulation reads the snapshot between `prepare_inputs` and
/// `finish_step`; the clock moves only in `finish_step`.
pub struct Lockstep<PlayerID, Action> {
    tick: Tick,
    inputs: InputQueue<PlayerID, Action>,
    current_inputs: CurrentInputs<PlayerID, Action>,
}

impl<PlayerID, Action> Lockstep<PlayerID, Action> {
    /// The tick that is waiting to run, or running.
    pub closed spec fn current_tick(&self) -> Tick {
        self.tick
    }

    /// The queue of pending inputs.
    pub closed spec fn queue(&self) -> InputQueue<PlayerID, Action> {
        self.inputs
    }

    /// The snapshot last taken.
    pub closed spec fn snapshot(&self) -> CurrentInputs<PlayerID, Action> {
        self.current_inputs
    }

    /// The core is well formed when its queue is and the queue's oldest
    /// open tick is the tick of the clock. Then nothing in the queue is
    /// older than the current tick.
    pub open spec fn wf(&self) -> bool {
        &&& self.queue().wf()
        &&& self.queue().oldest_open() == self.current_tick()
    }
}

impl<PlayerID: Eq + Hash, Action> Lockstep<PlayerID, Action> {
    /// A core at tick zero, with nothing queued and an empty snapshot.
    pub fn new() -> (core: Self)
        requires
            obeys_key_model::<PlayerID>(),
        ensures
            core.wf(),
            core.current_tick() == Tick(0),
            core.queue()@ == Map::<Tick, Map<PlayerID, Seq<Action>>>::empty(),
            core.snapshot()@ == Map::<PlayerID, Seq<Action>>::empty(),
    {
        Lockstep {
            tick: Tick::default(),
            inputs: InputQueue::new(),
            current_inputs: CurrentInputs::default(),
        }
    }

    /// The tick that is waiting to run, or running.
    pub fn tick(&self) -> (tick: Tick)
        ensures
            tick == self.current_tick(),
    {
        self.tick
    }

    /// The queue of pending inputs, to read.
    pub fn inputs(&self) -> (inputs: &InputQueue<PlayerID, Action>)
        ensures
            *inputs == self.queue(),
    {
        &self.inputs
    }

    /// The snapshot last taken, to read. It holds the inputs of the
    /// running tick from `prepare_inputs` until the next `prepare_inputs`.
    pub fn current_inputs(&self) -> (snapshot: &CurrentInputs<PlayerID, Action>)
        ensures
            *snapshot == self.snapshot(),
    {
        &self.current_inputs
    }

    /// Queues `command` of `player` for `tick`.
    ///
    /// Any tick from the current one on is accepted; a tick before the
    /// current one is gone, and an insertion for it is dropped and
    /// reported. Neither the clock nor the snapshot is touched.
    pub fn insert(&mut self, tick: Tick, player: PlayerID, command: Action) -> (outcome: Result<
        (),
        StaleInsertion,
    >)
        requires
            old(self).wf(),
        ensures
            final(self).wf(),
            final(self).current_tick() == old(self).current_tick(),
            final(self).snapshot() == old(self).snapshot(),
            final(self).queue()@ == offered(
                old(self).queue()@,
                old(self).current_tick(),
                (ActionAtTick { player, action: command, tick }),
            ),
            outcome == if tick.0 < old(self).current_tick().0 {
                Err::<(), StaleInsertion>(
                    StaleInsertion { tick, oldest_open: old(self).current_tick() },
                )
            } else {
                Ok::<(), StaleInsertion>(())
            },
    {
        self.inputs.insert(tick, player, command)
    }

    /// Takes in the actions that this process produced since the last
    /// cycle, first to last, each as `insert` would. The result is the
    /// number of actions that were dropped as stale.
    pub fn insert_local_actions(&mut self, events: Vec<LocalAction<PlayerID, Action>>) -> (stale:
        usize)
        requires
            old(self).wf(),
        ensures
            final(self).wf(),
            final(self).current_tick() == old(self).current_tick(),
            final(self).snapshot() == old(self).snapshot(),
            final(self).queue()@ == ingested(
                old(self).queue()@,
                old(self).current_tick(),
                local_actions(events@),
            ),
            stale == stale_count(old(self).current_tick(), local_actions(events@)),
    {
        let ghost all = local_actions(events@);
        let total: usize = events.len();
        let mut stale: usize = 0;
        for event in it: events.into_iter()
            invariant
                self.wf(),
                self.current_tick() == old(self).current_tick(),
                self.snapshot() == old(self).snapshot(),
                local_actions(it.seq()) == all,
                self.queue()@ == ingested(
                    old(self).queue()@,
                    old(self).current_tick(),
                    all.take(it.index() as int),
                ),
                stale == stale_count(old(self).current_tick(), all.take(it.index() as int)),
                stale <= it.index(),
                all.len() == total,
        {
            proof {
                let i = it.index() as int;
                assert(all.take(i + 1).drop_last() =~= all.take(i));
                assert(all.take(i + 1).last() == event.0);
            }
            let action = event.0;
            match self.insert(action.tick, action.player, action.action) {
                Ok(_) => {},
                Err(_) => {
                    stale = stale + 1;
                },
            }
        }
        proof {
            assert(all.take(all.len() as int) =~= all);
        }
        stale
    }

    /// Takes in the actions that the transport delivered from peers since
    /// the last cycle, first to last, each as `insert` would. Once queued,
    /// an action of a peer is told from a local one by nothing but its
    /// player. The result is the number of actions dropped as stale.
    pub fn insert_remote_actions(&mut self, events: Vec<RemoteAction<PlayerID, Action>>) -> (stale:
        usize)
        requires
            old(self).wf(),
        ensures
            final(self).wf(),
            final(self).current_tick() == old(self).current_tick(),
            final(self).snapshot() == old(self).snapshot(),
            final(self).queue()@ == ingested(
                old(self).queue()@,
                old(self).current_tick(),
                remote_actions(events@),
            ),
            stale == stale_count(old(self).current_tick(), remote_actions(events@)),
    {
        let ghost all = remote_actions(events@);
        let total: usize = events.len();
        let mut stale: usize = 0;
        for event in it: events.into_iter()
            invariant
                self.wf(),
                self.current_tick() == old(self).current_tick(),
                self.snapshot() == old(self).snapshot(),
                remote_actions(it.seq()) == all,
                self.queue()@ == ingested(
                    old(self).queue()@,
                    old(self).current_tick(),
                    all.take(it.index() as int),
                ),
                stale == stale_count(old(self).current_tick(), all.take(it.index() as int)),
                stale <= it.index(),
                all.len() == total,
        {
            proof {
                let i = it.index() as int;
                assert(all.take(i + 1).drop_last() =~= all.take(i));
                assert(all.take(i + 1).last() == event.0);
            }
            let action = event.0;
            match self.insert(action.tick, action.player, action.action) {
                Ok(_) => {},
                Err(_) => {
                    stale = stale + 1;
                },
            }
        }
        proof {
            assert(all.take(all.len() as int) =~= all);
        }
        stale
    }

    /// The barrier check of one cycle, on the core's own clock and queue.
    pub fn can_step(&self, gate_elapsed: bool, config: &Config) -> (permit: bool)
        requires
            self.wf(),
        ensures
            permit == barrier_permits(self.queue()@, self.current_tick(), gate_elapsed, *config),
    {
        can_step(&self.tick, &self.inputs, gate_elapsed, config)
    }

    /// Closes the current tick: its entry leaves the queue and the clock
    /// moves on by one. The snapshot stays as it is.
    pub fn finish_step(&mut self)
        requires
            old(self).wf(),
            old(self).current_tick().0 < u64::MAX,
        ensures
            final(self).wf(),
            final(self).current_tick().0 == old(self).current_tick().0 + 1,
            final(self).queue()@ == old(self).queue()@.remove(old(self).current_tick()),
            !final(self).queue()@.contains_key(old(self).current_tick()),
            final(self).snapshot() == old(self).snapshot(),
    {
        self.inputs.retire(self.tick);
        self.tick.advance();
    }
}

impl<PlayerID: Eq + Hash + Clone, Action: Clone> Lockstep<PlayerID, Action> {
    /// Opens the step window: the snapshot becomes a copy of what the
    /// queue holds for the current tick, in place of whatever it held.
    ///
    /// This follows a barrier check that permitted the step. To run it on
    /// inputs that are not complete breaks the order of the protocol.
    pub fn prepare_inputs(&mut self, config: &Config)
        requires
            old(self).wf(),
            step_ready(old(self).queue()@, old(self).current_tick(), config.num_players),
        ensures
            final(self).wf(),
            final(self).current_tick() == old(self).current_tick(),
            final(self).queue() == old(self).queue(),
            final(self).snapshot()@ == old(self).queue()@[old(self).current_tick()],
            final(self).snapshot()@.dom().len() == config.num_players,
    {
        match self.inputs.get(self.tick) {
            Some(step) => {
                self.current_inputs = CurrentInputs::capture(step);
            },
            None => {},
        }
    }
}

} // verus!
