//! Verified core of a multi-session tic-tac-toe service.
//!
//! The crate keeps many independent two-player games in a registry keyed by
//! a monotonically allocated numeric identifier.  Every mutation of a game
//! (creating it, placing a mark, cancelling it) is guarded by validity rules
//! and specified by a contract; the host boundary that decodes inbound
//! messages and encodes replies lives outside this crate and hands plain
//! values in.
//!
//! [`handle`] dispatches one action to the right game and says in its
//! contract which event or error every action produces; [`meta_state`]
//! answers read-only queries.

pub mod action;
pub mod actor;
pub mod event;
pub mod state;
pub mod state_query;

use vstd::prelude::*;

use crate::action::Action;
use crate::actor::ActorId;
use crate::event::Event;
use crate::state::{Game, GameError, GameID, GameView};
use crate::state_query::{StateQuery, StateQueryReply};

verus! {

/// The registry: every game ever created, at position `id - 1` of `games`,
/// and the last allocated identifier.  Games are never removed; a terminal
/// game stays for historical queries.
#[derive(Debug)]
pub struct TicTacToe {
    pub games: Vec<Game>,
    pub nonce: GameID,
}

impl TicTacToe {
    /// Well-formedness: the counter equals the number of games ever
    /// created, and every stored game is well formed.  Identifiers are
    /// therefore exactly `1..=nonce`, with no gaps and no repeats.
    pub open spec fn wf(self) -> bool {
        &&& self.nonce == self.games@.len()
        &&& forall|i: int| 0 <= i < self.games@.len() ==> (#[trigger] self.games@[i])@.wf()
    }

    /// The registry holds a game under this identifier.
    pub open spec fn has_game(self, id: GameID) -> bool {
        1 <= id <= self.games@.len()
    }

    /// The model of the game stored under this identifier.
    pub open spec fn game_at(self, id: GameID) -> GameView {
        self.games@[id as int - 1]@
    }
}

/// Allocation law: in a well-formed registry the identifiers present are
/// exactly `1..=nonce` — successive creations issue 1, 2, 3, … with no gap
/// and no repeat, and cancelling a game never frees its identifier.
pub proof fn lemma_identifiers_consecutive(ttt: TicTacToe)
    requires
        ttt.wf(),
    ensures
        forall|id: GameID| ttt.has_game(id) <==> 1 <= id <= ttt.nonce,
{
}

/// A fresh registry with no games and the identifier counter at zero.
pub fn init() -> (r: TicTacToe)
    ensures
        r.nonce == 0,
        r.games@.len() == 0,
        r.wf(),
{
    TicTacToe { games: Vec::new(), nonce: 0 }
}

/// Dispatches one action by `caller` against the registry.
///
/// `Create` allocates the next identifier and stores a fresh game between
/// the caller and the opponent.  `Cancel` and `Turn` resolve their game by
/// identifier and delegate to it, following [`GameView::cancel_outcome`]
/// and [`GameView::turn_outcome`]; their errors propagate unchanged.  A
/// rejected action leaves the registry exactly as it was.
pub fn handle(ttt: &mut TicTacToe, caller: ActorId, action: Action) -> (r: Result<
    Event,
    GameError,
>)
    ensures
        old(ttt).wf() ==> final(ttt).wf(),
        action matches Action::Create(opponent) ==> {
            if old(ttt).nonce == GameID::MAX {
                &&& r == Err::<Event, GameError>(GameError::MathOverflow)
                &&& final(ttt).games@ == old(ttt).games@
                &&& final(ttt).nonce == old(ttt).nonce
            } else if caller == opponent {
                &&& r == Err::<Event, GameError>(GameError::InvalidPlayers)
                &&& final(ttt).games@ == old(ttt).games@
                &&& final(ttt).nonce == old(ttt).nonce
            } else {
                &&& final(ttt).nonce == old(ttt).nonce + 1
                &&& final(ttt).games@.len() == old(ttt).games@.len() + 1
                &&& forall|i: int|
                    0 <= i < old(ttt).games@.len() ==> final(ttt).games@[i] == old(ttt).games@[i]
                &&& ({
                    let g = final(ttt).games@.last()@;
                    &&& g.player_0 == caller
                    &&& g.player_1 == opponent
                    &&& g.next_turn == (caller, state::BoardMark::X)
                    &&& g.status == state::GameStatus::Created
                    &&& forall|x: int, y: int|
                        0 <= x < 3 && 0 <= y < 3 ==> (#[trigger] g.cell(x, y)) is None
                    &&& g.wf()
                })
                &&& r == Ok::<Event, GameError>(
                    Event::Created {
                        id: (old(ttt).nonce + 1) as GameID,
                        player_0: caller,
                        player_1: opponent,
                    },
                )
            }
        },
        action matches Action::Cancel(id) ==> {
            if !old(ttt).has_game(id) {
                &&& r == Err::<Event, GameError>(GameError::GameNotFound)
                &&& final(ttt).games@ == old(ttt).games@
                &&& final(ttt).nonce == old(ttt).nonce
            } else {
                let (g2, res) = old(ttt).game_at(id).cancel_outcome(caller);
                &&& final(ttt).nonce == old(ttt).nonce
                &&& final(ttt).games@.len() == old(ttt).games@.len()
                &&& forall|i: int|
                    0 <= i < old(ttt).games@.len() && i != id - 1 ==> final(ttt).games@[i] == old(
                        ttt,
                    ).games@[i]
                &&& final(ttt).game_at(id) == g2
                &&& r == match res {
                    Ok(u) => Ok::<Event, GameError>(Event::Canceled(id)),
                    Err(e) => Err(e),
                }
            }
        },
        action matches Action::Turn { id, x, y } ==> {
            if !old(ttt).has_game(id) {
                &&& r == Err::<Event, GameError>(GameError::GameNotFound)
                &&& final(ttt).games@ == old(ttt).games@
                &&& final(ttt).nonce == old(ttt).nonce
            } else {
                let (g2, res) = old(ttt).game_at(id).turn_outcome(caller, x as int, y as int);
                &&& final(ttt).nonce == old(ttt).nonce
                &&& final(ttt).games@.len() == old(ttt).games@.len()
                &&& forall|i: int|
                    0 <= i < old(ttt).games@.len() && i != id - 1 ==> final(ttt).games@[i] == old(
                        ttt,
                    ).games@[i]
                &&& final(ttt).game_at(id) == g2
                &&& r == match res {
                    Ok(finished) => if finished {
                        Ok::<Event, GameError>(Event::Finished { id, winner: g2.spec_winner() })
                    } else {
                        Ok::<Event, GameError>(Event::NewTurn { id, x, y, player: caller })
                    },
                    Err(e) => Err(e),
                }
            }
        },
{
    match action {
        Action::Create(opponent) => {
            let id = match ttt.nonce.checked_add(1) {
                Some(n) => n,
                None => {
                    return Err(GameError::MathOverflow);
                },
            };

            let game = match Game::init(caller, opponent) {
                Ok(g) => g,
                Err(e) => {
                    return Err(e);
                },
            };

            ttt.games.push(game);
            ttt.nonce = id;

            Ok(Event::Created { id, player_0: caller, player_1: opponent })
        },
        Action::Cancel(id) => {
            if id == 0 || id > ttt.games.len() as GameID {
                return Err(GameError::GameNotFound);
            }
            let idx: usize = (id - 1) as usize;

            let game = &mut ttt.games[idx];
            match game.cancel(&caller) {
                Ok(_) => Ok(Event::Canceled(id)),
                Err(e) => Err(e),
            }
        },
        Action::Turn { id, x, y } => {
            if id == 0 || id > ttt.games.len() as GameID {
                return Err(GameError::GameNotFound);
            }
            let idx: usize = (id - 1) as usize;

            let xi: usize = if x >= state::BOARD_SIZE as u64 {
                state::BOARD_SIZE
            } else {
                x as usize
            };
            let yi: usize = if y >= state::BOARD_SIZE as u64 {
                state::BOARD_SIZE
            } else {
                y as usize
            };

            let game = &mut ttt.games[idx];
            let is_game_finished = match game.turn(&caller, xi, yi) {
                Ok(f) => f,
                Err(e) => {
                    return Err(e);
                },
            };
            let maybe_winner = game.get_winner();

            if is_game_finished {
                Ok(Event::Finished { id, winner: maybe_winner })
            } else {
                Ok(Event::NewTurn { id, x, y, player: caller })
            }
        },
    }
}

/// Answers one read-only query against the registry; the registry is not
/// touched.  Queries that name a game fail with `GameNotFound` when the
/// identifier is absent; `GetBoardMark` fails with `PlayerNotFound` when
/// the named identity takes no part in the named game.
pub fn meta_state(ttt: &TicTacToe, query: StateQuery) -> (r: Result<StateQueryReply, GameError>)
    ensures
        query == StateQuery::GetNonce ==> r == Ok::<StateQueryReply, GameError>(
            StateQueryReply::Nonce(ttt.nonce),
        ),
        query == StateQuery::GetGamesLen ==> r == Ok::<StateQueryReply, GameError>(
            StateQueryReply::GamesLen(ttt.games@.len() as GameID),
        ),
        query matches StateQuery::IsEnded(id) ==> r == (if ttt.has_game(id) {
            Ok::<StateQueryReply, GameError>(StateQueryReply::IsEnded(ttt.game_at(id).ended()))
        } else {
            Err(GameError::GameNotFound)
        }),
        query matches StateQuery::IsBoardFilled(id) ==> r == (if ttt.has_game(id) {
            Ok::<StateQueryReply, GameError>(
                StateQueryReply::IsBoardFilled(ttt.game_at(id).board_full()),
            )
        } else {
            Err(GameError::GameNotFound)
        }),
        query matches StateQuery::GetBoardMark((id, player)) ==> r == (if !ttt.has_game(id) {
            Err::<StateQueryReply, GameError>(GameError::GameNotFound)
        } else if ttt.game_at(id).in_game(player) {
            Ok(StateQueryReply::BoardMark(ttt.game_at(id).mark_of_player(player)))
        } else {
            Err(GameError::PlayerNotFound)
        }),
        query matches StateQuery::GetPlayer((id, board_mark)) ==> r == (if ttt.has_game(id) {
            Ok::<StateQueryReply, GameError>(
                StateQueryReply::Player(ttt.game_at(id).player_of_mark(board_mark)),
            )
        } else {
            Err(GameError::GameNotFound)
        }),
        query matches StateQuery::GetNextTurn(id) ==> r == (if ttt.has_game(id) {
            Ok::<StateQueryReply, GameError>(
                StateQueryReply::NextTurn {
                    player: ttt.game_at(id).next_turn.0,
                    board_mark: ttt.game_at(id).next_turn.1,
                },
            )
        } else {
            Err(GameError::GameNotFound)
        }),
        query matches StateQuery::GetWinner(id) ==> r == (if ttt.has_game(id) {
            Ok::<StateQueryReply, GameError>(StateQueryReply::Winner(ttt.game_at(id).spec_winner()))
        } else {
            Err(GameError::GameNotFound)
        }),
{
    match query {
        StateQuery::GetNonce => Ok(StateQueryReply::Nonce(ttt.nonce)),
        StateQuery::GetGamesLen => Ok(StateQueryReply::GamesLen(ttt.games.len() as GameID)),
        StateQuery::IsEnded(id) => {
            let game = match get_game(ttt, id) {
                Ok(g) => g,
                Err(e) => {
                    return Err(e);
                },
            };
            Ok(StateQueryReply::IsEnded(game.is_ended()))
        },
        StateQuery::IsBoardFilled(id) => {
            let game = match get_game(ttt, id) {
                Ok(g) => g,
                Err(e) => {
                    return Err(e);
                },
            };
            Ok(StateQueryReply::IsBoardFilled(game.is_board_filled()))
        },
        StateQuery::GetBoardMark((id, player)) => {
            let game = match get_game(ttt, id) {
                Ok(g) => g,
                Err(e) => {
                    return Err(e);
                },
            };
            match game.get_board_mark(&player) {
                Ok(m) => Ok(StateQueryReply::BoardMark(m)),
                Err(e) => Err(e),
            }
        },
        StateQuery::GetPlayer((id, board_mark)) => {
            let game = match get_game(ttt, id) {
                Ok(g) => g,
                Err(e) => {
                    return Err(e);
                },
            };
            Ok(StateQueryReply::Player(game.get_player(board_mark)))
        },
        StateQuery::GetNextTurn(id) => {
            let game = match get_game(ttt, id) {
                Ok(g) => g,
                Err(e) => {
                    return Err(e);
                },
            };
            let (player, board_mark) = game.get_next_turn();
            Ok(StateQueryReply::NextTurn { player, board_mark })
        },
        StateQuery::GetWinner(id) => {
            let game = match get_game(ttt, id) {
                Ok(g) => g,
                Err(e) => {
                    return Err(e);
                },
            };
            Ok(StateQueryReply::Winner(game.get_winner()))
        },
    }
}

/// Resolves an identifier to its game, or `GameNotFound`.
fn get_game(ttt: &TicTacToe, id: GameID) -> (r: Result<&Game, GameError>)
    ensures
        ttt.has_game(id) ==> (r matches Ok(g) && g@ == ttt.game_at(id)),
        !ttt.has_game(id) ==> r == Err::<&Game, GameError>(GameError::GameNotFound),
{
    if id == 0 || id > ttt.games.len() as GameID {
        return Err(GameError::GameNotFound);
    }
    let idx: usize = (id - 1) as usize;
    Ok(&ttt.games[idx])
}

} // verus!
