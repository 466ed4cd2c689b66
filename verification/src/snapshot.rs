//! The inputs of the tick that is being simulated.

use crate::step::{inputs_view, Step};
use std::collections::HashMap;
use std::hash::Hash;
use vstd::prelude::*;
use vstd::std_specs::hash::obeys_key_model;

verus! {

broadcast use vstd::std_specs::hash::group_hash_axioms;

/// The inputs of one tick as the simulation sees them during the step:
/// for every player, the actions in the order of submission.
///
/// A snapshot is a copy. Nothing that happens to the queue afterwards
/// changes it; it is replaced as a whole when the next tick is released.
pub struct CurrentInputs<PlayerID, Action>(pub HashMap<PlayerID, Vec<Action>>);

impl<PlayerID, Action> View for CurrentInputs<PlayerID, Action> {
    type V = Map<PlayerID, Seq<Action>>;

    open spec fn view(&self) -> Map<PlayerID, Seq<Action>> {
        inputs_view(self.0)
    }
}

impl<PlayerID, Action> Default for CurrentInputs<PlayerID, Action> {
    /// The snapshot before any tick has been released: no inputs.
    fn default() -> (snapshot: Self)
        ensures
            snapshot@ == Map::<PlayerID, Seq<Action>>::empty(),
    {
        let snapshot = CurrentInputs(HashMap::new());
        assert(snapshot@ =~= Map::<PlayerID, Seq<Action>>::empty());
        snapshot
    }
}

impl<PlayerID: Eq + Hash + Clone, Action: Clone> CurrentInputs<PlayerID, Action> {
    /// A copy of everything that `step` holds.
    pub fn capture(step: &Step<PlayerID, Action>) -> (snapshot: Self)
        ensures
            snapshot@ == step@,
    {
        let snapshot = CurrentInputs(step.inputs.clone());
        assert(snapshot@ =~= step@);
        snapshot
    }
}

impl<PlayerID: Eq + Hash, Action> CurrentInputs<PlayerID, Action> {
    /// The actions of `player` in this snapshot, in the order of
    /// submission, if the player has an entry.
    pub fn actions(&self, player: &PlayerID) -> (actions: Option<&Vec<Action>>)
        requires
            obeys_key_model::<PlayerID>(),
        ensures
            match actions {
                Some(list) => self@.contains_key(*player) && list@ == self@[*player],
                None => !self@.contains_key(*player),
            },
    {
        self.0.get(player)
    }
}

} // verus!
