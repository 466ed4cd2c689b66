//! What holds of the queue and the barrier whatever the inputs are.

use crate::action::ActionAtTick;
use crate::barrier::step_ready;
use crate::queue::{ingested, queued, step_at};
use crate::step::actions_of;
use crate::tick::Tick;
use vstd::prelude::*;

verus! {

/// The actions that `log` holds for `tick` and `player`, in the order in
/// which they stand in `log`.
pub open spec fn submissions<PlayerID, Action>(
    log: Seq<ActionAtTick<PlayerID, Action>>,
    tick: Tick,
    player: PlayerID,
) -> Seq<Action> {
    log.filter(|entry: ActionAtTick<PlayerID, Action>| entry.tick == tick && entry.player == player)
        .map_values(|entry: ActionAtTick<PlayerID, Action>| entry.action)
}

/// Whether `log` holds any action for `tick`.
pub open spec fn mentions_tick<PlayerID, Action>(
    log: Seq<ActionAtTick<PlayerID, Action>>,
    tick: Tick,
) -> bool {
    exists|i: int| 0 <= i < log.len() && (#[trigger] log[i]).tick == tick
}

/// After any sequence of insertions the queue holds, for every open tick
/// and every player, what it held before followed by exactly the actions
/// inserted for that tick and player, in the order of their insertion.
/// What it holds for a retired tick is not touched.
pub proof fn law_queue_accumulates_in_order<PlayerID, Action>(
    queue: Map<Tick, Map<PlayerID, Seq<Action>>>,
    oldest_open: Tick,
    log: Seq<ActionAtTick<PlayerID, Action>>,
    tick: Tick,
    player: PlayerID,
)
    ensures
        tick.0 >= oldest_open.0 ==> actions_of(
            step_at(ingested(queue, oldest_open, log), tick),
            player,
        ) == actions_of(step_at(queue, tick), player) + submissions(log, tick, player),
        tick.0 < oldest_open.0 ==> actions_of(
            step_at(ingested(queue, oldest_open, log), tick),
            player,
        ) == actions_of(step_at(queue, tick), player),
    decreases log.len(),
{
    let wanted = |entry: ActionAtTick<PlayerID, Action>|
        entry.tick == tick && entry.player == player;
    let before = actions_of(step_at(queue, tick), player);
    if log.len() == 0 {
        reveal(Seq::filter);
        assert(submissions(log, tick, player) =~= Seq::<Action>::empty());
        assert(before + Seq::<Action>::empty() =~= before);
    } else {
        let earlier = log.drop_last();
        let last = log.last();
        law_queue_accumulates_in_order(queue, oldest_open, earlier, tick, player);
        assert(log =~= earlier.push(last));
        earlier.lemma_filter_push(last, wanted);
        if wanted(last) {
            assert(submissions(log, tick, player) =~= submissions(earlier, tick, player).push(
                last.action,
            ));
            if tick.0 >= oldest_open.0 {
                assert(before + submissions(log, tick, player) =~= (before + submissions(
                    earlier,
                    tick,
                    player,
                )).push(last.action));
            }
        } else {
            assert(submissions(log, tick, player) =~= submissions(earlier, tick, player));
        }
    }
}

/// After any sequence of insertions the queue holds nothing but what it
/// held before and what was inserted for open ticks: a tick has a step if
/// it had one or an insertion named it, and a player has an entry in that
/// step if the player had one or an insertion for that tick was theirs.
pub proof fn law_queue_holds_nothing_else<PlayerID, Action>(
    queue: Map<Tick, Map<PlayerID, Seq<Action>>>,
    oldest_open: Tick,
    log: Seq<ActionAtTick<PlayerID, Action>>,
    tick: Tick,
    player: PlayerID,
)
    ensures
        ingested(queue, oldest_open, log).contains_key(tick) <==> queue.contains_key(tick) || (
        tick.0 >= oldest_open.0 && mentions_tick(log, tick)),
        step_at(ingested(queue, oldest_open, log), tick).contains_key(player) <==> step_at(
            queue,
            tick,
        ).contains_key(player) || (tick.0 >= oldest_open.0 && submissions(log, tick, player).len()
            > 0),
    decreases log.len(),
{
    let wanted = |entry: ActionAtTick<PlayerID, Action>|
        entry.tick == tick && entry.player == player;
    if log.len() == 0 {
        reveal(Seq::filter);
        assert(submissions(log, tick, player) =~= Seq::<Action>::empty());
    } else {
        let earlier = log.drop_last();
        let last = log.last();
        law_queue_holds_nothing_else(queue, oldest_open, earlier, tick, player);
        assert(log =~= earlier.push(last));
        earlier.lemma_filter_push(last, wanted);
        if mentions_tick(earlier, tick) {
            let i = choose|i: int| 0 <= i < earlier.len() && (#[trigger] earlier[i]).tick == tick;
            assert(log[i].tick == tick);
        }
        if last.tick == tick {
            assert(log[log.len() - 1].tick == tick);
        }
        if mentions_tick(log, tick) {
            let i = choose|i: int| 0 <= i < log.len() && (#[trigger] log[i]).tick == tick;
            if i < earlier.len() {
                assert(earlier[i].tick == tick);
            }
        }
    }
}

/// Nothing is deduplicated: to insert the same action for the same tick and
/// player twice is to append it twice. Each accepted insertion makes the
/// list of its tick and player longer by one.
pub proof fn law_insertion_never_deduplicates<PlayerID, Action>(
    queue: Map<Tick, Map<PlayerID, Seq<Action>>>,
    tick: Tick,
    player: PlayerID,
    command: Action,
)
    ensures
        actions_of(step_at(queued(queue, tick, player, command), tick), player) == actions_of(
            step_at(queue, tick),
            player,
        ).push(command),
        actions_of(
            step_at(queued(queued(queue, tick, player, command), tick, player, command), tick),
            player,
        ) == actions_of(step_at(queue, tick), player).push(command).push(command),
        actions_of(step_at(queued(queue, tick, player, command), tick), player).len()
            == actions_of(step_at(queue, tick), player).len() + 1,
{
}

/// An insertion touches one list only: the lists of every other tick and
/// of every other player are as they were.
pub proof fn law_insertion_is_local<PlayerID, Action>(
    queue: Map<Tick, Map<PlayerID, Seq<Action>>>,
    tick: Tick,
    player: PlayerID,
    command: Action,
    other_tick: Tick,
    other_player: PlayerID,
)
    requires
        other_tick != tick || other_player != player,
    ensures
        actions_of(step_at(queued(queue, tick, player, command), other_tick), other_player)
            == actions_of(step_at(queue, other_tick), other_player),
{
}

/// Where every entry of a step belongs to a registered player, the count
/// that the barrier tests says what it is meant to say: the step has an
/// entry for as many distinct players as are registered exactly when every
/// registered player has an entry.
pub proof fn law_full_count_means_every_player<PlayerID, Action>(
    queue: Map<Tick, Map<PlayerID, Seq<Action>>>,
    tick: Tick,
    registered: Set<PlayerID>,
)
    requires
        registered.finite(),
        queue.contains_key(tick),
        queue[tick].dom().finite(),
        queue[tick].dom().subset_of(registered),
        registered.len() <= usize::MAX,
    ensures
        step_ready(queue, tick, registered.len() as usize) <==> forall|player: PlayerID|
            registered.contains(player) ==> #[trigger] queue[tick].contains_key(player),
{
    let present = queue[tick].dom();
    if present.len() == registered.len() {
        vstd::set_lib::lemma_subset_equality(present, registered);
    }
    if forall|player: PlayerID|
        registered.contains(player) ==> #[trigger] queue[tick].contains_key(player) {
        assert(present =~= registered);
    }
}

} // verus!
