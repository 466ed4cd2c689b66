//! The queue of inputs that wait for their tick.

use crate::action::ActionAtTick;
use crate::step::{submitted, Step};
use crate::tick::Tick;
use std::collections::HashMap;
use std::hash::Hash;
use vstd::prelude::*;
use vstd::std_specs::hash::obeys_key_model;

verus! {

broadcast use vstd::std_specs::hash::group_hash_axioms;

/// The inputs that `queue` holds for `tick`; no inputs at all when nothing
/// has been queued for that tick.
pub open spec fn step_at<PlayerID, Action>(
    queue: Map<Tick, Map<PlayerID, Seq<Action>>>,
    tick: Tick,
) -> Map<PlayerID, Seq<Action>> {
    if queue.contains_key(tick) {
        queue[tick]
    } else {
        Map::empty()
    }
}

/// `queue` after `command` of `player` has been queued for `tick`: the
/// step of that tick has the command at the end of the player's list, and
/// every other step is as it was.
pub open spec fn queued<PlayerID, Action>(
    queue: Map<Tick, Map<PlayerID, Seq<Action>>>,
    tick: Tick,
    player: PlayerID,
    command: Action,
) -> Map<Tick, Map<PlayerID, Seq<Action>>> {
    queue.insert(tick, submitted(step_at(queue, tick), player, command))
}

/// `queue` after `action` has been offered to it while `oldest_open` was
/// the oldest open tick: queued if its tick is still open, dropped if not.
pub open spec fn offered<PlayerID, Action>(
    queue: Map<Tick, Map<PlayerID, Seq<Action>>>,
    oldest_open: Tick,
    action: ActionAtTick<PlayerID, Action>,
) -> Map<Tick, Map<PlayerID, Seq<Action>>> {
    if action.tick.0 < oldest_open.0 {
        queue
    } else {
        queued(queue, action.tick, action.player, action.action)
    }
}

/// `queue` after every action of `actions` has been offered to it, first
/// to last, while `oldest_open` was the oldest open tick.
pub open spec fn ingested<PlayerID, Action>(
    queue: Map<Tick, Map<PlayerID, Seq<Action>>>,
    oldest_open: Tick,
    actions: Seq<ActionAtTick<PlayerID, Action>>,
) -> Map<Tick, Map<PlayerID, Seq<Action>>>
    decreases actions.len(),
{
    if actions.len() == 0 {
        queue
    } else {
        offered(ingested(queue, oldest_open, actions.drop_last()), oldest_open, actions.last())
    }
}

/// How many of `actions` name a tick below `oldest_open`.
pub open spec fn stale_count<PlayerID, Action>(
    oldest_open: Tick,
    actions: Seq<ActionAtTick<PlayerID, Action>>,
) -> nat
    decreases actions.len(),
{
    if actions.len() == 0 {
        0
    } else if actions.last().tick.0 < oldest_open.0 {
        stale_count(oldest_open, actions.drop_last()) + 1
    } else {
        stale_count(oldest_open, actions.drop_last())
    }
}

/// An insertion that came too late: its tick had already been retired, so
/// no consumer could ever have seen the action. The action was dropped.
#[derive(PartialEq, Eq, Structural, Clone, Copy, Debug)]
pub struct StaleInsertion {
    /// The tick that the insertion named.
    pub tick: Tick,
    /// The oldest tick that was still open at that moment.
    pub oldest_open: Tick,
}

/// All inputs that have been submitted for ticks not yet retired, by tick.
///
/// The queue remembers the oldest tick that is still open. Every tick
/// below it has been retired and holds nothing, now or ever again.
pub struct InputQueue<PlayerID, Action> {
    steps: HashMap<u64, Step<PlayerID, Action>>,
    oldest_open: Tick,
}

impl<PlayerID, Action> View for InputQueue<PlayerID, Action> {
    type V = Map<Tick, Map<PlayerID, Seq<Action>>>;

    closed spec fn view(&self) -> Map<Tick, Map<PlayerID, Seq<Action>>> {
        Map::new(|tick: Tick| self.steps@.contains_key(tick.0), |tick: Tick| self.steps@[tick.0]@)
    }
}

impl<PlayerID, Action> Default for InputQueue<PlayerID, Action> {
    /// An empty queue on which every tick is still open.
    fn default() -> (queue: Self)
        ensures
            queue@ == Map::<Tick, Map<PlayerID, Seq<Action>>>::empty(),
            queue.oldest_open() == Tick(0),
    {
        let queue = InputQueue { steps: HashMap::new(), oldest_open: Tick(0) };
        assert(queue@ =~= Map::<Tick, Map<PlayerID, Seq<Action>>>::empty());
        queue
    }
}

impl<PlayerID, Action> InputQueue<PlayerID, Action> {
    /// The oldest tick that has not been retired.
    pub closed spec fn oldest_open(&self) -> Tick {
        self.oldest_open
    }

    /// The queue is well formed when player identifiers behave as keys
    /// should and no entry has outlived its tick.
    pub open spec fn wf(&self) -> bool {
        &&& obeys_key_model::<PlayerID>()
        &&& forall|tick: Tick| #[trigger] self@.contains_key(tick) ==> self.oldest_open().0 <= tick.0
    }
}

impl<PlayerID: Eq + Hash, Action> InputQueue<PlayerID, Action> {
    /// An empty queue on which every tick is still open.
    pub fn new() -> (queue: Self)
        requires
            obeys_key_model::<PlayerID>(),
        ensures
            queue.wf(),
            queue@ == Map::<Tick, Map<PlayerID, Seq<Action>>>::empty(),
            queue.oldest_open() == Tick(0),
    {
        let queue = InputQueue { steps: HashMap::new(), oldest_open: Tick(0) };
        assert(queue@ =~= Map::<Tick, Map<PlayerID, Seq<Action>>>::empty());
        queue
    }

    /// The oldest tick that has not been retired.
    pub fn oldest_open_tick(&self) -> (tick: Tick)
        ensures
            tick == self.oldest_open(),
    {
        self.oldest_open
    }

    /// Queues `command` of `player` for `tick`.
    ///
    /// For a tick that is still open the command is appended to the
    /// player's list for that tick; the step and the list are created on
    /// first use, and nothing queued before is lost or replaced. For a tick
    /// that has been retired the queue is left as it is and the insertion
    /// is reported as stale.
    pub fn insert(&mut self, tick: Tick, player: PlayerID, command: Action) -> (outcome: Result<
        (),
        StaleInsertion,
    >)
        requires
            old(self).wf(),
        ensures
            final(self).wf(),
            final(self).oldest_open() == old(self).oldest_open(),
            final(self)@ == offered(
                old(self)@,
                old(self).oldest_open(),
                (ActionAtTick { player, action: command, tick }),
            ),
            outcome == if tick.0 < old(self).oldest_open().0 {
                Err::<(), StaleInsertion>(
                    StaleInsertion { tick, oldest_open: old(self).oldest_open() },
                )
            } else {
                Ok::<(), StaleInsertion>(())
            },
    {
        if tick.0 < self.oldest_open.0 {
            return Err(StaleInsertion { tick, oldest_open: self.oldest_open });
        }
        let step = self.steps.entry(tick.0).or_insert(Step::default());
        step.submit(player, command);
        assert(self@ =~= queued(old(self)@, tick, player, command));
        Ok(())
    }

    /// The step queued for `tick`, if anything has been queued for it.
    pub fn get(&self, tick: Tick) -> (step: Option<&Step<PlayerID, Action>>)
        ensures
            match step {
                Some(found) => self@.contains_key(tick) && found@ == self@[tick],
                None => !self@.contains_key(tick),
            },
    {
        self.steps.get(&tick.0)
    }

    /// Removes the entry of `tick`, the oldest open tick, and closes that
    /// tick for good: the tick after it becomes the oldest open one.
    pub fn retire(&mut self, tick: Tick)
        requires
            old(self).wf(),
            tick == old(self).oldest_open(),
            tick.0 < u64::MAX,
        ensures
            final(self).wf(),
            final(self)@ == old(self)@.remove(tick),
            final(self).oldest_open().0 == tick.0 + 1,
    {
        self.steps.remove(&tick.0);
        self.oldest_open.advance();
        assert(self@ =~= old(self)@.remove(tick));
    }
}

} // verus!
