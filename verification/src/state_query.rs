//! Read-only queries over the registry and typed replies to them.

use vstd::prelude::*;

use crate::actor::ActorId;
use crate::state::{BoardMark, GameID};

verus! {

/// A read-only request; none of these mutates any state.
#[derive(Debug, Clone, Copy, PartialEq, Eq)]
pub enum StateQuery {
    /// The last allocated game identifier.
    GetNonce,
    /// How many games the registry holds.
    GetGamesLen,
    /// Whether the game is in a terminal state.
    IsEnded(GameID),
    /// Whether every cell of the game's board holds a mark.
    IsBoardFilled(GameID),
    /// The mark the given player places in the given game.
    GetBoardMark((GameID, ActorId)),
    /// The player who places the given mark in the given game.
    GetPlayer((GameID, BoardMark)),
    /// Whose move the given game expects next, and with which mark.
    GetNextTurn(GameID),
    /// The winner recorded for the given game, if any.
    GetWinner(GameID),
}

/// The typed reply to one [`StateQuery`].
#[derive(Debug, Clone, Copy, PartialEq, Eq)]
pub enum StateQueryReply {
    Nonce(GameID),
    GamesLen(GameID),
    IsEnded(bool),
    IsBoardFilled(bool),
    BoardMark(BoardMark),
    Player(ActorId),
    NextTurn { player: ActorId, board_mark: BoardMark },
    Winner(Option<ActorId>),
}

} // verus!
