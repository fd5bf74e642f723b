//! Events emitted for each successfully handled action.

use vstd::prelude::*;

use crate::actor::ActorId;
use crate::state::GameID;

verus! {

/// What a successful action produced; the host boundary encodes one of
/// these as the reply to the caller.
#[derive(Debug, Clone, Copy, PartialEq, Eq)]
pub enum Event {
    /// A game was created under a fresh identifier.
    Created { id: GameID, player_0: ActorId, player_1: ActorId },
    /// The game was canceled by one of its players.
    Canceled(GameID),
    /// A mark was placed and the game continues.
    NewTurn { id: GameID, x: u64, y: u64, player: ActorId },
    /// The game ended this call, with a winner or as a draw.
    Finished { id: GameID, winner: Option<ActorId> },
}

} // verus!
