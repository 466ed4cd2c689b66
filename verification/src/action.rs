//! Actions on their way into the queue.

use crate::tick::Tick;
use vstd::prelude::*;

verus! {

/// One action of one player, tagged with the tick that it is meant for.
#[derive(Default, Clone)]
pub struct ActionAtTick<PlayerID, Action> {
    pub player: PlayerID,
    pub action: Action,
    pub tick: Tick,
}

/// An action that this process produced itself.
#[derive(Default, Clone)]
pub struct LocalAction<PlayerID, Action>(pub ActionAtTick<PlayerID, Action>);

/// An action that a peer produced and the transport delivered.
#[derive(Default, Clone)]
pub struct RemoteAction<PlayerID, Action>(pub ActionAtTick<PlayerID, Action>);

} // verus!
