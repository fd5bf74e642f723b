//! Inbound actions, already decoded by the host boundary.

use vstd::prelude::*;

use crate::actor::ActorId;
use crate::state::GameID;

verus! {

/// A request to mutate the registry or one of its games.  The caller's
/// identity travels beside the action, supplied by the host environment.
#[derive(Debug, Clone, Copy, PartialEq, Eq)]
pub enum Action {
    /// Start a new game between the caller and the given opponent.
    Create(ActorId),
    /// Cancel the game with the given identifier.
    Cancel(GameID),
    /// Place the caller's mark at column `x`, row `y` of the given game.
    Turn { id: GameID, x: u64, y: u64 },
}

} // verus!
