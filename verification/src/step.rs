//! The inputs of one tick, and the snapshot handed to the simulation.

use std::collections::HashMap;
use std::hash::Hash;
use vstd::prelude::*;
use vstd::std_specs::hash::obeys_key_model;

verus! {

broadcast use vstd::std_specs::hash::group_hash_axioms;

/// The actions that `player` has in `inputs`, in the order of their
/// submission; none when the player has no entry.
pub open spec fn actions_of<PlayerID, Action>(
    inputs: Map<PlayerID, Seq<Action>>,
    player: PlayerID,
) -> Seq<Action> {
    if inputs.contains_key(player) {
        inputs[player]
    } else {
        Seq::empty()
    }
}

/// `inputs` after `player` has submitted `command`: the command goes to the
/// end of that player's list, and nothing else changes.
pub open spec fn submitted<PlayerID, Action>(
    inputs: Map<PlayerID, Seq<Action>>,
    player: PlayerID,
    command: Action,
) -> Map<PlayerID, Seq<Action>> {
    inputs.insert(player, actions_of(inputs, player).push(command))
}

/// What a table of per-player action lists holds, as a mathematical map
/// from player to sequence of actions.
pub open spec fn inputs_view<PlayerID, Action>(
    inputs: HashMap<PlayerID, Vec<Action>>,
) -> Map<PlayerID, Seq<Action>> {
    Map::new(|player: PlayerID| inputs@.contains_key(player), |player: PlayerID| inputs@[player]@)
}

/// The inputs pending for one tick: for every player that has submitted
/// something, that player's actions in the order of submission.
pub struct Step<PlayerID, Action> {
    pub inputs: HashMap<PlayerID, Vec<Action>>,
}

impl<PlayerID, Action> View for Step<PlayerID, Action> {
    type V = Map<PlayerID, Seq<Action>>;

    open spec fn view(&self) -> Map<PlayerID, Seq<Action>> {
        inputs_view(self.inputs)
    }
}

impl<PlayerID, Action> Default for Step<PlayerID, Action> {
    /// A step for which nobody has submitted anything.
    fn default() -> (step: Self)
        ensures
            step@ == Map::<PlayerID, Seq<Action>>::empty(),
    {
        let step = Step { inputs: HashMap::new() };
        assert(step@ =~= Map::<PlayerID, Seq<Action>>::empty());
        step
    }
}

impl<PlayerID: Eq + Hash, Action> Step<PlayerID, Action> {
    /// A step is complete for `num_players` registered players when it has
    /// an entry for that many distinct players. An entry counts whatever
    /// its list holds: silence is never taken for consent.
    pub open spec fn complete(&self, num_players: usize) -> bool {
        self@.dom().len() == num_players
    }

    /// Appends `command` to the list of `player`, creating the list on the
    /// player's first submission.
    pub fn submit(&mut self, player: PlayerID, command: Action)
        requires
            obeys_key_model::<PlayerID>(),
        ensures
            final(self)@ == submitted(old(self)@, player, command),
    {
        let actions = self.inputs.entry(player).or_insert(Vec::new());
        actions.push(command);
        assert(self@ =~= submitted(old(self)@, player, command));
    }

    /// The number of distinct players that have an entry in this step.
    pub fn player_count(&self) -> (count: usize)
        requires
            obeys_key_model::<PlayerID>(),
        ensures
            count == self@.dom().len(),
    {
        assert(self@.dom() =~= self.inputs@.dom());
        self.inputs.len()
    }

    /// Whether every one of `num_players` registered players has an entry.
    pub fn is_complete(&self, num_players: usize) -> (complete: bool)
        requires
            obeys_key_model::<PlayerID>(),
        ensures
            complete == self.complete(num_players),
    {
        self.player_count() == num_players
    }
}

} // verus!
