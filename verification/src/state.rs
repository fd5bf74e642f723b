//! One tic-tac-toe session: board, players, turn ownership, status, and the
//! transition rules that guard every mutation.
//!
//! The contracts are stated over [`GameView`], a mathematical model of a
//! session, and over the transition functions [`GameView::turn_outcome`] and
//! [`GameView::cancel_outcome`], which say exactly which state and result
//! every call produces.

use vstd::prelude::*;

use crate::actor::ActorId;

verus! {

broadcast use vstd::array::group_array_axioms;

/// Side length of the square board.
pub const BOARD_SIZE: usize = 3;

/// Identifier of a game in the registry.
pub type GameID = u128;

/// The symbol a player places on the board.
#[derive(Debug, Clone, Copy, PartialEq, Eq, Structural)]
pub enum BoardMark {
    X,
    O,
}

/// Lifecycle of a session.  `Canceled` and `Finished` are terminal: no
/// operation ever leaves them.  `Finished` with `winner == None` is a draw.
#[derive(Debug, Clone, Copy, PartialEq, Eq)]
pub enum GameStatus {
    Created,
    Canceled,
    Finished { winner: Option<ActorId> },
}

/// Why an operation was rejected.  No operation mutates any state when it
/// returns one of these.
#[derive(Debug, Clone, Copy, PartialEq, Eq, Structural)]
pub enum GameError {
    /// The two identities handed to `init` are equal.
    InvalidPlayers,
    /// The registry holds no game under the given identifier.
    GameNotFound,
    /// The game is already `Canceled` or `Finished`.
    GameEnded,
    /// The caller is neither of the game's two players.
    PlayerNotInGame,
    /// The caller is a player of the game but it is not their move.
    NotYourTurn,
    /// A coordinate lies outside the board.
    IndexOutOfRange,
    /// The addressed cell already holds a mark.
    CellOccupied,
    /// Allocating one more game identifier would overflow the counter.
    MathOverflow,
    /// A mark inconsistent with the fixed player/mark association; cannot
    /// arise while the association is the two fixed fields of [`Game`].
    InvalidMark,
    /// An identity that is not associated with any mark of the game.
    PlayerNotFound,
}

/// One session.  `player_0` always plays `X`, `player_1` always plays `O`;
/// the association is fixed for the session's lifetime.
#[derive(Debug, Clone, Copy, PartialEq, Eq)]
pub struct Game {
    pub board: [[Option<BoardMark>; BOARD_SIZE]; BOARD_SIZE],
    pub player_0: ActorId,
    pub player_1: ActorId,
    pub next_turn: (ActorId, BoardMark),
    pub status: GameStatus,
}

/// Mathematical model of a session; the board becomes a sequence of rows.
pub ghost struct GameView {
    pub board: Seq<Seq<Option<BoardMark>>>,
    pub player_0: ActorId,
    pub player_1: ActorId,
    pub next_turn: (ActorId, BoardMark),
    pub status: GameStatus,
}

impl View for Game {
    type V = GameView;

    open spec fn view(&self) -> GameView {
        GameView {
            board: Seq::new(3, |y: int| Seq::new(3, |x: int| self.board[y][x])),
            player_0: self.player_0,
            player_1: self.player_1,
            next_turn: self.next_turn,
            status: self.status,
        }
    }
}

/// The mark the given mark's opponent plays.
pub open spec fn opposite(m: BoardMark) -> BoardMark {
    match m {
        BoardMark::X => BoardMark::O,
        BoardMark::O => BoardMark::X,
    }
}

impl GameView {
    /// The mark at column `x`, row `y`, if any.
    pub open spec fn cell(self, x: int, y: int) -> Option<BoardMark> {
        self.board[y][x]
    }

    /// The board has its full shape: three rows of three cells.
    pub open spec fn board_shaped(self) -> bool {
        &&& self.board.len() == 3
        &&& forall|y: int| 0 <= y < 3 ==> (#[trigger] self.board[y]).len() == 3
    }

    /// Every cell holds a mark.
    pub open spec fn board_full(self) -> bool {
        forall|x: int, y: int| 0 <= x < 3 && 0 <= y < 3 ==> (#[trigger] self.cell(x, y)) is Some
    }

    /// The game is in a terminal state.
    pub open spec fn ended(self) -> bool {
        self.status is Canceled || self.status is Finished
    }

    /// The identity takes part in this game.
    pub open spec fn in_game(self, player: ActorId) -> bool {
        player == self.player_0 || player == self.player_1
    }

    /// The mark the given player places, under the fixed association.
    pub open spec fn mark_of_player(self, player: ActorId) -> BoardMark {
        if player == self.player_0 {
            BoardMark::X
        } else {
            BoardMark::O
        }
    }

    /// The player who places the given mark, under the fixed association.
    pub open spec fn player_of_mark(self, m: BoardMark) -> ActorId {
        match m {
            BoardMark::X => self.player_0,
            BoardMark::O => self.player_1,
        }
    }

    /// Well-formedness: two distinct players, and the expected next move
    /// names one of them together with the mark that player owns.
    pub open spec fn wf(self) -> bool {
        &&& self.board_shaped()
        &&& self.player_0 != self.player_1
        &&& self.in_game(self.next_turn.0)
        &&& self.next_turn.1 == self.mark_of_player(self.next_turn.0)
    }

    /// The (player, mark) pair expected after the current one has moved:
    /// the other player and the other mark.
    pub open spec fn flipped_turn(self) -> (ActorId, BoardMark) {
        (
            if self.next_turn.0 == self.player_0 {
                self.player_1
            } else {
                self.player_0
            },
            opposite(self.next_turn.1),
        )
    }

    /// The same session with another status.
    pub open spec fn with_status(self, status: GameStatus) -> GameView {
        GameView { status, ..self }
    }

    /// The same session with `m` placed at column `x`, row `y`.
    pub open spec fn placed(self, x: int, y: int, m: BoardMark) -> GameView {
        GameView { board: self.board.update(y, self.board[y].update(x, Some(m))), ..self }
    }

    /// The winning mark of one line, given by its three cells in order:
    /// `Some(m)` when all three hold `m`, else `None`.
    pub open spec fn line_winner(
        self,
        x0: int,
        y0: int,
        x1: int,
        y1: int,
        x2: int,
        y2: int,
    ) -> Option<BoardMark> {
        if self.cell(x0, y0) is Some && self.cell(x1, y1) == self.cell(x0, y0) && self.cell(x2, y2)
            == self.cell(x0, y0) {
            self.cell(x0, y0)
        } else {
            None
        }
    }

    /// The mark holds three in a row on some line of the board.
    pub open spec fn mark_wins(self, m: BoardMark) -> bool {
        ||| self.line_winner(0, 0, 1, 0, 2, 0) == Some(m)
        ||| self.line_winner(0, 1, 1, 1, 2, 1) == Some(m)
        ||| self.line_winner(0, 2, 1, 2, 2, 2) == Some(m)
        ||| self.line_winner(0, 0, 0, 1, 0, 2) == Some(m)
        ||| self.line_winner(1, 0, 1, 1, 1, 2) == Some(m)
        ||| self.line_winner(2, 0, 2, 1, 2, 2) == Some(m)
        ||| self.line_winner(2, 0, 1, 1, 0, 2) == Some(m)
        ||| self.line_winner(0, 0, 1, 1, 2, 2) == Some(m)
    }

    /// The winning mark of the board, evaluating the eight lines in a fixed
    /// order: rows top to bottom, columns left to right, then the two
    /// diagonals.  The first complete line decides.
    pub open spec fn winner_of_board(self) -> Option<BoardMark> {
        if self.line_winner(0, 0, 1, 0, 2, 0) is Some {
            self.line_winner(0, 0, 1, 0, 2, 0)
        } else if self.line_winner(0, 1, 1, 1, 2, 1) is Some {
            self.line_winner(0, 1, 1, 1, 2, 1)
        } else if self.line_winner(0, 2, 1, 2, 2, 2) is Some {
            self.line_winner(0, 2, 1, 2, 2, 2)
        } else if self.line_winner(0, 0, 0, 1, 0, 2) is Some {
            self.line_winner(0, 0, 0, 1, 0, 2)
        } else if self.line_winner(1, 0, 1, 1, 1, 2) is Some {
            self.line_winner(1, 0, 1, 1, 1, 2)
        } else if self.line_winner(2, 0, 2, 1, 2, 2) is Some {
            self.line_winner(2, 0, 2, 1, 2, 2)
        } else if self.line_winner(2, 0, 1, 1, 0, 2) is Some {
            self.line_winner(2, 0, 1, 1, 0, 2)
        } else if self.line_winner(0, 0, 1, 1, 2, 2) is Some {
            self.line_winner(0, 0, 1, 1, 2, 2)
        } else {
            None
        }
    }

    /// The winner recorded in the status, if the game finished with one.
    pub open spec fn spec_winner(self) -> Option<ActorId> {
        match self.status {
            GameStatus::Finished { winner } => winner,
            _ => None,
        }
    }

    /// End-of-round rule: a complete line finishes the game in favour of the
    /// owner of its mark; a full board without one finishes it as a draw.
    /// Returns the state after the check and whether the game ended by it.
    pub open spec fn round_check(self) -> (GameView, bool) {
        match self.winner_of_board() {
            Some(m) => (
                self.with_status(GameStatus::Finished { winner: Some(self.player_of_mark(m)) }),
                true,
            ),
            None => if self.board_full() {
                (self.with_status(GameStatus::Finished { winner: None }), true)
            } else {
                (self, false)
            },
        }
    }

    /// The first rule a move by `caller` at `(x, y)` violates, if any.  The
    /// rules are checked in this order: the game must not have ended, the
    /// caller must take part, a round already decided (checked before the
    /// move) pre-empts the remaining rules, the move must be the caller's,
    /// the coordinates must lie on the board, and the cell must be empty.
    pub open spec fn turn_error(self, caller: ActorId, x: int, y: int) -> Option<GameError> {
        if self.ended() {
            Some(GameError::GameEnded)
        } else if !self.in_game(caller) {
            Some(GameError::PlayerNotInGame)
        } else if self.round_check().1 {
            None
        } else if caller != self.next_turn.0 {
            Some(GameError::NotYourTurn)
        } else if !(0 <= x < 3 && 0 <= y < 3) {
            Some(GameError::IndexOutOfRange)
        } else if self.cell(x, y) is Some {
            Some(GameError::CellOccupied)
        } else {
            None
        }
    }

    /// Full transition of one `turn` call: the state after the call and its
    /// result.  A rejected move leaves the state unchanged.  A round found
    /// already decided on entry finishes the game without consuming the
    /// move.  Otherwise the current mark is placed, the end-of-round rule
    /// runs again, and either the game finishes this call (`Ok(true)`) or
    /// the expected move flips to the other player (`Ok(false)`).
    pub open spec fn turn_outcome(self, caller: ActorId, x: int, y: int) -> (
        GameView,
        Result<bool, GameError>,
    ) {
        match self.turn_error(caller, x, y) {
            Some(e) => (self, Err(e)),
            None => if self.round_check().1 {
                (self.round_check().0, Ok(true))
            } else {
                let moved = self.placed(x, y, self.next_turn.1);
                if moved.round_check().1 {
                    (moved.round_check().0, Ok(true))
                } else {
                    (GameView { next_turn: self.flipped_turn(), ..moved }, Ok(false))
                }
            },
        }
    }

    /// Full transition of one `cancel` call: a terminal game or a caller who
    /// is no player rejects it unchanged; otherwise the status becomes
    /// `Canceled` unconditionally.
    pub open spec fn cancel_outcome(self, caller: ActorId) -> (GameView, Result<(), GameError>) {
        if self.ended() {
            (self, Err(GameError::GameEnded))
        } else if !self.in_game(caller) {
            (self, Err(GameError::PlayerNotInGame))
        } else {
            (self.with_status(GameStatus::Canceled), Ok(()))
        }
    }
}

/// Alternation law: in a well-formed session the pair expected after the
/// current move names the other player and the other mark, stays within the
/// session's two players, and keeps the fixed player/mark association.
pub proof fn lemma_turn_alternates(v: GameView)
    requires
        v.wf(),
    ensures
        v.flipped_turn().0 != v.next_turn.0,
        v.flipped_turn().1 != v.next_turn.1,
        v.in_game(v.flipped_turn().0),
        v.flipped_turn().1 == v.mark_of_player(v.flipped_turn().0),
{
}

/// A move answered with `Ok(false)` (the game continues) hands the next
/// move to the other player with the other mark, in lock-step.
pub proof fn lemma_turn_alternation(v: GameView, caller: ActorId, x: int, y: int)
    requires
        v.wf(),
        v.turn_outcome(caller, x, y).1 == Ok::<bool, GameError>(false),
    ensures
        ({
            let g2 = v.turn_outcome(caller, x, y).0;
            &&& g2.next_turn == v.flipped_turn()
            &&& g2.next_turn.0 != v.next_turn.0
            &&& g2.next_turn.1 == opposite(v.next_turn.1)
            &&& g2.wf()
        }),
{
    lemma_turn_alternates(v);
}

/// A move at an occupied cell, when no earlier rule pre-empts it, is
/// rejected with `CellOccupied` and changes nothing.
pub proof fn lemma_occupied_cell_rejects(v: GameView, caller: ActorId, x: int, y: int)
    requires
        !v.ended(),
        v.in_game(caller),
        !v.round_check().1,
        caller == v.next_turn.0,
        0 <= x < 3,
        0 <= y < 3,
        v.cell(x, y) is Some,
    ensures
        v.turn_outcome(caller, x, y) == (v, Err::<bool, GameError>(GameError::CellOccupied)),
{
}

/// A move by a player whose turn it is not, when no earlier rule pre-empts
/// it, is rejected with `NotYourTurn` and changes nothing.
pub proof fn lemma_wrong_player_rejects(v: GameView, caller: ActorId, x: int, y: int)
    requires
        !v.ended(),
        v.in_game(caller),
        !v.round_check().1,
        caller != v.next_turn.0,
    ensures
        v.turn_outcome(caller, x, y) == (v, Err::<bool, GameError>(GameError::NotYourTurn)),
{
}

/// Three in a row of one mark (and none of the other) finishes the game in
/// favour of that mark's owner at the next end-of-round check.
pub proof fn lemma_three_in_a_row_finishes(v: GameView, m: BoardMark)
    requires
        v.mark_wins(m),
        !v.mark_wins(opposite(m)),
    ensures
        v.round_check() == (
            v.with_status(GameStatus::Finished { winner: Some(v.player_of_mark(m)) }),
            true,
        ),
{
}

/// An accepted move that completes three in a row of the caller's mark
/// finishes the game this call, with the caller as the winner.  The rules
/// guarantee that the opponent cannot hold a complete line at the same
/// time: an accepted move presupposes that no line was complete before it,
/// and placing one mark completes no line of the other.
pub proof fn lemma_completing_move_wins(v: GameView, caller: ActorId, x: int, y: int)
    requires
        v.wf(),
        v.turn_error(caller, x, y) is None,
        !v.round_check().1,
        v.placed(x, y, v.next_turn.1).mark_wins(v.next_turn.1),
    ensures
        v.turn_outcome(caller, x, y).1 == Ok::<bool, GameError>(true),
        v.turn_outcome(caller, x, y).0.status == (GameStatus::Finished { winner: Some(caller) }),
{
    let m = v.next_turn.1;
    let moved = v.placed(x, y, m);
    assert(forall|i: int, j: int|
        0 <= i < 3 && 0 <= j < 3 && !(i == x && j == y) ==> moved.cell(i, j) == v.cell(i, j));
    assert(moved.cell(x, y) == Some(m));
    assert(!moved.mark_wins(opposite(m)));
    lemma_three_in_a_row_finishes(moved, m);
}

/// A fully filled board without three in a row of either mark finishes the
/// game as a draw at the next end-of-round check.
pub proof fn lemma_full_board_draws(v: GameView)
    requires
        v.board_full(),
        !v.mark_wins(BoardMark::X),
        !v.mark_wins(BoardMark::O),
    ensures
        v.round_check() == (v.with_status(GameStatus::Finished { winner: None }), true),
{
}

/// Terminal states absorb: once a game is `Canceled` or `Finished`, every
/// `turn` and every `cancel` fails with `GameEnded` and changes nothing.
pub proof fn lemma_terminal_absorbs(v: GameView, caller: ActorId, x: int, y: int)
    requires
        v.ended(),
    ensures
        v.turn_outcome(caller, x, y) == (v, Err::<bool, GameError>(GameError::GameEnded)),
        v.cancel_outcome(caller) == (v, Err::<(), GameError>(GameError::GameEnded)),
{
}

impl Game {
    /// Starts a session between two distinct players.  `player_0` receives
    /// `X` and the first move; `player_1` receives `O`.
    pub fn init(player_0: ActorId, player_1: ActorId) -> (r: Result<Game, GameError>)
        ensures
            player_0 == player_1 ==> r == Err::<Game, GameError>(GameError::InvalidPlayers),
            player_0 != player_1 ==> {
                &&& r matches Ok(g)
                &&& g@.player_0 == player_0
                &&& g@.player_1 == player_1
                &&& g@.next_turn == (player_0, BoardMark::X)
                &&& g@.status == GameStatus::Created
                &&& forall|x: int, y: int|
                    0 <= x < 3 && 0 <= y < 3 ==> (#[trigger] g@.cell(x, y)) is None
                &&& g@.wf()
            },
    {
        if player_0 == player_1 {
            return Err(GameError::InvalidPlayers);
        }

        let next_turn = (player_0, BoardMark::X);

        Ok(
            Game {
                board: [[None, None, None], [None, None, None], [None, None, None]],
                player_0,
                player_1,
                next_turn,
                status: GameStatus::Created,
            },
        )
    }

    /// The game is in a terminal state (`Canceled` or `Finished`).
    pub fn is_ended(&self) -> (r: bool)
        ensures
            r == self@.ended(),
    {
        match self.status {
            GameStatus::Created => false,
            GameStatus::Canceled => true,
            GameStatus::Finished { winner: _ } => true,
        }
    }

    /// Every cell of the board holds a mark.
    pub fn is_board_filled(&self) -> (r: bool)
        ensures
            r == self@.board_full(),
    {
        let mut y: usize = 0;
        while y < BOARD_SIZE
            invariant
                y <= 3,
                forall|i: int, j: int|
                    0 <= i < 3 && 0 <= j < y ==> (#[trigger] self@.cell(i, j)) is Some,
            decreases 3 - y,
        {
            let mut x: usize = 0;
            while x < BOARD_SIZE
                invariant
                    x <= 3,
                    y < 3,
                    forall|i: int, j: int|
                        0 <= i < 3 && 0 <= j < y ==> (#[trigger] self@.cell(i, j)) is Some,
                    forall|i: int| 0 <= i < x ==> (#[trigger] self@.cell(i, y as int)) is Some,
                decreases 3 - x,
            {
                if self.board[y][x].is_none() {
                    proof {
                        assert(self@.cell(x as int, y as int) is None);
                    }
                    return false;
                }
                x = x + 1;
            }
            y = y + 1;
        }
        true
    }

    /// The mark the given player places; `PlayerNotFound` if the identity
    /// takes no part in this game.
    pub fn get_board_mark(&self, player: &ActorId) -> (r: Result<BoardMark, GameError>)
        ensures
            self@.in_game(*player) ==> r == Ok::<BoardMark, GameError>(
                self@.mark_of_player(*player),
            ),
            !self@.in_game(*player) ==> r == Err::<BoardMark, GameError>(GameError::PlayerNotFound),
    {
        if *player == self.player_0 {
            Ok(BoardMark::X)
        } else if *player == self.player_1 {
            Ok(BoardMark::O)
        } else {
            Err(GameError::PlayerNotFound)
        }
    }

    /// The player who places the given mark.  The association is the two
    /// fixed fields of the game, so the lookup cannot fail.
    pub fn get_player(&self, board_mark: BoardMark) -> (r: ActorId)
        ensures
            r == self@.player_of_mark(board_mark),
    {
        match board_mark {
            BoardMark::X => self.player_0,
            BoardMark::O => self.player_1,
        }
    }

    /// The (player, mark) pair expected to make the following move: the
    /// stored `next_turn` projection.
    pub fn get_next_turn(&self) -> (r: (ActorId, BoardMark))
        ensures
            r == self@.next_turn,
    {
        self.next_turn
    }

    /// The pair that follows the stored one once its move has been made:
    /// the other player and the other mark.  Used by `turn` to advance the
    /// expected move.
    fn flip_turn(&self) -> (r: (ActorId, BoardMark))
        ensures
            r == self@.flipped_turn(),
    {
        let (last_player, last_board_mark) = self.next_turn;

        let next_player = if last_player == self.player_0 {
            self.player_1
        } else {
            self.player_0
        };

        let next_board_mark = if last_board_mark == BoardMark::X {
            BoardMark::O
        } else {
            BoardMark::X
        };

        (next_player, next_board_mark)
    }

    /// The winner recorded in the status: `Some` only for a game finished
    /// with a winner, `None` for a draw or a game still in progress.
    pub fn get_winner(&self) -> (r: Option<ActorId>)
        ensures
            r == self@.spec_winner(),
    {
        match self.status {
            GameStatus::Finished { winner } => winner,
            _ => None,
        }
    }

    /// The winning mark of one line, its cells given by the three
    /// coordinate pairs `(x_indexes[i], y_indexes[i])` in order.
    pub fn check_winner_row(
        &self,
        x_indexes: [usize; BOARD_SIZE],
        y_indexes: [usize; BOARD_SIZE],
    ) -> (res: Option<BoardMark>)
        requires
            forall|i: int| 0 <= i < 3 ==> x_indexes[i] < 3 && y_indexes[i] < 3,
        ensures
            res == self@.line_winner(
                x_indexes[0] as int,
                y_indexes[0] as int,
                x_indexes[1] as int,
                y_indexes[1] as int,
                x_indexes[2] as int,
                y_indexes[2] as int,
            ),
    {
        let a = self.board[y_indexes[0]][x_indexes[0]];
        let b = self.board[y_indexes[1]][x_indexes[1]];
        let c = self.board[y_indexes[2]][x_indexes[2]];

        match (a, b, c) {
            (Some(am), Some(bm), Some(cm)) => if am == bm && am == cm {
                Some(am)
            } else {
                None
            },
            _ => None,
        }
    }

    /// The winning mark of the board, checking rows top to bottom, columns
    /// left to right, then the two diagonals, and returning on the first
    /// complete line.
    pub fn check_winner(&self) -> (r: Option<BoardMark>)
        ensures
            r == self@.winner_of_board(),
    {
        let res = self.check_winner_row([0, 1, 2], [0, 0, 0]);
        if res.is_some() {
            return res;
        }

        let res = self.check_winner_row([0, 1, 2], [1, 1, 1]);
        if res.is_some() {
            return res;
        }

        let res = self.check_winner_row([0, 1, 2], [2, 2, 2]);
        if res.is_some() {
            return res;
        }

        let res = self.check_winner_row([0, 0, 0], [0, 1, 2]);
        if res.is_some() {
            return res;
        }

        let res = self.check_winner_row([1, 1, 1], [0, 1, 2]);
        if res.is_some() {
            return res;
        }

        let res = self.check_winner_row([2, 2, 2], [0, 1, 2]);
        if res.is_some() {
            return res;
        }

        let res = self.check_winner_row([2, 1, 0], [0, 1, 2]);
        if res.is_some() {
            return res;
        }

        self.check_winner_row([0, 1, 2], [0, 1, 2])
    }

    /// Runs the end-of-round rule and records its verdict in the status:
    /// a complete line finishes the game in favour of the owner of its
    /// mark, a full board finishes it as a draw.  Returns whether the game
    /// ended by this check.
    fn handle_game_round(&mut self) -> (r: bool)
        ensures
            final(self)@ == old(self)@.round_check().0,
            r == old(self)@.round_check().1,
    {
        match self.check_winner() {
            Some(winner_mark) => {
                let winner = self.get_player(winner_mark);
                self.status = GameStatus::Finished { winner: Some(winner) };
                true
            },
            None => {
                if self.is_board_filled() {
                    self.status = GameStatus::Finished { winner: None };
                    true
                } else {
                    false
                }
            },
        }
    }

    /// Handles one move by `player` at column `x`, row `y`, following
    /// [`GameView::turn_outcome`] exactly: the first violated rule rejects
    /// the move with its error and no state change; otherwise the mark is
    /// placed, the end-of-round rule runs, and the call reports whether the
    /// game finished by it (`Ok(true)`) or continues with the expected move
    /// flipped to the other player (`Ok(false)`).
    pub fn turn(&mut self, player: &ActorId, x: usize, y: usize) -> (r: Result<bool, GameError>)
        ensures
            final(self)@ == old(self)@.turn_outcome(*player, x as int, y as int).0,
            r == old(self)@.turn_outcome(*player, x as int, y as int).1,
            old(self)@.wf() ==> final(self)@.wf(),
    {
        if self.is_ended() {
            return Err(GameError::GameEnded);
        }
        if !(*player == self.player_0 || *player == self.player_1) {
            return Err(GameError::PlayerNotInGame);
        }

        let (current_player, current_mark) = self.next_turn;

        if self.handle_game_round() {
            return Ok(true);
        }

        if !(*player == current_player) {
            return Err(GameError::NotYourTurn);
        }

        if x >= BOARD_SIZE || y >= BOARD_SIZE {
            return Err(GameError::IndexOutOfRange);
        }

        if self.board[y][x].is_some() {
            return Err(GameError::CellOccupied);
        }

        self.board[y][x] = Some(current_mark);
        proof {
            assert(self@.board =~~= old(self)@.placed(x as int, y as int, current_mark).board);
        }

        if self.handle_game_round() {
            return Ok(true);
        }

        self.next_turn = self.flip_turn();
        Ok(false)
    }

    /// Cancels the session following [`GameView::cancel_outcome`]: a
    /// terminal game or a caller who is no player rejects the call
    /// unchanged; otherwise the status becomes `Canceled` unconditionally.
    pub fn cancel(&mut self, player: &ActorId) -> (r: Result<(), GameError>)
        ensures
            final(self)@ == old(self)@.cancel_outcome(*player).0,
            r == old(self)@.cancel_outcome(*player).1,
            old(self)@.wf() ==> final(self)@.wf(),
    {
        if self.is_ended() {
            return Err(GameError::GameEnded);
        }
        if !(*player == self.player_0 || *player == self.player_1) {
            return Err(GameError::PlayerNotInGame);
        }

        self.status = GameStatus::Canceled;
        Ok(())
    }
}

} // verus!
