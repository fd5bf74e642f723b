use tic_tac_toe::action::Action;
use tic_tac_toe::actor::ActorId;
use tic_tac_toe::state::{BoardMark, Game, GameError, GameStatus};
use tic_tac_toe::state_query::StateQuery;
use tic_tac_toe::{handle, init, meta_state};

fn setup() -> (ActorId, ActorId, Game) {
    let player_0 = ActorId::new([0u8; 32]);
    let player_1 = ActorId::new([1u8; 32]);

    (
        player_0,
        player_1,
        Game::init(player_0, player_1).unwrap(),
    )
}

#[test]
fn error_init_players_eq() {
    let player_0 = ActorId::new([0u8; 32]);
    assert_eq!(
        Game::init(player_0, player_0),
        Err(GameError::InvalidPlayers)
    );
}

#[test]
fn error_turn_ended() {
    let (player_0, _, mut game) = setup();

    game.cancel(&player_0).unwrap();
    assert_eq!(game.turn(&player_0, 0, 0), Err(GameError::GameEnded));
    assert_eq!(game.status, GameStatus::Canceled);
}

#[test]
fn error_turn_player_not_exists() {
    let (_, _, mut game) = setup();
    let player_2 = ActorId::new([2u8; 32]);

    assert_eq!(game.turn(&player_2, 0, 0), Err(GameError::PlayerNotInGame));
    assert!(game.board[0][0].is_none());
}

#[test]
fn error_turn_invalid_sequence() {
    let (player_0, player_1, mut game) = setup();

    assert_eq!(game.turn(&player_1, 0, 0), Err(GameError::NotYourTurn));
    assert!(game.board[0][0].is_none());
    assert_eq!(game.next_turn, (player_0, BoardMark::X));
}

#[test]
fn error_turn_location_not_empty() {
    let (player_0, player_1, mut game) = setup();

    game.turn(&player_0, 0, 0).unwrap();
    assert_eq!(game.turn(&player_1, 0, 0), Err(GameError::CellOccupied));
    assert_eq!(game.board[0][0], Some(BoardMark::X));
    assert_eq!(game.next_turn, (player_1, BoardMark::O));
}

#[test]
fn error_turn_index_out_of_range() {
    let (player_0, _, mut game) = setup();

    assert_eq!(game.turn(&player_0, 3, 0), Err(GameError::IndexOutOfRange));
    assert_eq!(game.turn(&player_0, 0, 3), Err(GameError::IndexOutOfRange));
    assert_eq!(game.status, GameStatus::Created);
}

#[test]
fn error_cancel_ended() {
    let (player_0, _, mut game) = setup();

    game.cancel(&player_0).unwrap();
    assert_eq!(game.cancel(&player_0), Err(GameError::GameEnded));
}

#[test]
fn error_cancel_player_not_exists() {
    let (_, _, mut game) = setup();
    let player_2 = ActorId::new([2u8; 32]);

    assert_eq!(game.cancel(&player_2), Err(GameError::PlayerNotInGame));
    assert_eq!(game.status, GameStatus::Created);
}

#[test]
fn error_get_board_mark_player_not_found() {
    let (_, _, game) = setup();
    let player_2 = ActorId::new([2u8; 32]);

    assert_eq!(
        game.get_board_mark(&player_2),
        Err(GameError::PlayerNotFound)
    );
}

#[test]
fn error_game_not_found() {
    let player_0 = ActorId::new([0u8; 32]);
    let mut tic_tac_toe = init();

    assert_eq!(
        handle(&mut tic_tac_toe, player_0, Action::Cancel(1)),
        Err(GameError::GameNotFound)
    );
    assert_eq!(
        handle(&mut tic_tac_toe, player_0, Action::Turn { id: 1, x: 0, y: 0 }),
        Err(GameError::GameNotFound)
    );
    assert_eq!(
        meta_state(&tic_tac_toe, StateQuery::IsEnded(1)),
        Err(GameError::GameNotFound)
    );
}

#[test]
fn error_math_overflow() {
    let player_0 = ActorId::new([0u8; 32]);
    let player_1 = ActorId::new([1u8; 32]);
    let mut tic_tac_toe = init();
    tic_tac_toe.nonce = u128::MAX;

    assert_eq!(
        handle(&mut tic_tac_toe, player_0, Action::Create(player_1)),
        Err(GameError::MathOverflow)
    );
    assert_eq!(tic_tac_toe.nonce, u128::MAX);
    assert_eq!(tic_tac_toe.games.len(), 0);
}

#[test]
fn error_turn_coordinates_beyond_u64_range() {
    let player_0 = actor_bytes(4);
    let player_1 = actor_bytes(5);
    let mut tic_tac_toe = init();

    handle(&mut tic_tac_toe, player_0, Action::Create(player_1)).unwrap();
    assert_eq!(
        handle(
            &mut tic_tac_toe,
            player_0,
            Action::Turn {
                id: 1,
                x: u64::MAX,
                y: 0
            }
        ),
        Err(GameError::IndexOutOfRange)
    );
}

fn actor_bytes(n: u8) -> ActorId {
    ActorId::new([n; 32])
}
