use tic_tac_toe::actor::ActorId;
use tic_tac_toe::state::{BoardMark, Game, GameStatus};

fn setup() -> (ActorId, ActorId, Game) {
    let player_0 = ActorId::new([0u8; 32]);
    let player_1 = ActorId::new([1u8; 32]);

    (
        player_0,
        player_1,
        Game::init(player_0, player_1).unwrap(),
    )
}

#[test]
fn success_init() {
    let (player_0, player_1, game) = setup();

    assert_eq!(game.player_0, player_0);
    assert_eq!(game.player_1, player_1);
    assert_eq!(game.next_turn, (player_0, BoardMark::X));
    assert_eq!(game.status, GameStatus::Created);
}

#[test]
fn success_turn_handle_game_round_winner() {
    let (player_0, player_1, mut game) = setup();
    assert_eq!(game.next_turn, (player_0, BoardMark::X));
    assert_eq!(game.get_next_turn(), (player_0, BoardMark::X));

    game.turn(&player_0, 0, 0).unwrap();
    assert_eq!(game.next_turn, (player_1, BoardMark::O));
    assert_eq!(game.get_next_turn(), (player_1, BoardMark::O));

    game.turn(&player_1, 2, 2).unwrap();
    assert_eq!(game.next_turn, (player_0, BoardMark::X));
    assert_eq!(game.get_next_turn(), (player_0, BoardMark::X));

    game.turn(&player_0, 0, 1).unwrap();
    assert_eq!(game.next_turn, (player_1, BoardMark::O));
    assert_eq!(game.get_next_turn(), (player_1, BoardMark::O));

    game.turn(&player_1, 1, 1).unwrap();
    assert_eq!(game.next_turn, (player_0, BoardMark::X));
    assert_eq!(game.get_next_turn(), (player_0, BoardMark::X));

    let turn_result = game.turn(&player_0, 0, 2).unwrap();
    assert_eq!(game.next_turn, (player_0, BoardMark::X));
    assert_eq!(game.get_next_turn(), (player_0, BoardMark::X));

    assert!(turn_result);
    assert!(game.is_ended());
    assert!(!game.is_board_filled());
    assert_eq!(game.get_winner(), Some(player_0));
    assert_eq!(
        game.status,
        GameStatus::Finished {
            winner: Some(player_0)
        }
    );
}

#[test]
fn success_turn_handle_game_round_filled() {
    let (player_0, player_1, mut game) = setup();
    assert_eq!(game.next_turn, (player_0, BoardMark::X));
    assert_eq!(game.get_next_turn(), (player_0, BoardMark::X));

    game.turn(&player_0, 1, 1).unwrap();
    assert_eq!(game.next_turn, (player_1, BoardMark::O));
    assert_eq!(game.get_next_turn(), (player_1, BoardMark::O));

    game.turn(&player_1, 0, 0).unwrap();
    assert_eq!(game.next_turn, (player_0, BoardMark::X));
    assert_eq!(game.get_next_turn(), (player_0, BoardMark::X));

    game.turn(&player_0, 2, 2).unwrap();
    assert_eq!(game.next_turn, (player_1, BoardMark::O));
    assert_eq!(game.get_next_turn(), (player_1, BoardMark::O));

    game.turn(&player_1, 2, 1).unwrap();
    assert_eq!(game.next_turn, (player_0, BoardMark::X));
    assert_eq!(game.get_next_turn(), (player_0, BoardMark::X));

    game.turn(&player_0, 2, 0).unwrap();
    assert_eq!(game.next_turn, (player_1, BoardMark::O));
    assert_eq!(game.get_next_turn(), (player_1, BoardMark::O));

    game.turn(&player_1, 0, 2).unwrap();
    assert_eq!(game.next_turn, (player_0, BoardMark::X));
    assert_eq!(game.get_next_turn(), (player_0, BoardMark::X));

    game.turn(&player_0, 0, 1).unwrap();
    assert_eq!(game.next_turn, (player_1, BoardMark::O));
    assert_eq!(game.get_next_turn(), (player_1, BoardMark::O));

    game.turn(&player_1, 1, 0).unwrap();
    assert_eq!(game.next_turn, (player_0, BoardMark::X));
    assert_eq!(game.get_next_turn(), (player_0, BoardMark::X));

    let turn_result = game.turn(&player_0, 1, 2).unwrap();
    assert_eq!(game.next_turn, (player_0, BoardMark::X));
    assert_eq!(game.get_next_turn(), (player_0, BoardMark::X));

    assert!(turn_result);
    assert!(game.is_ended());
    assert!(game.is_board_filled());
    assert_eq!(game.get_winner(), None);
    assert_eq!(game.status, GameStatus::Finished { winner: None });
}

#[test]
fn success_turn() {
    let (player_0, player_1, mut game) = setup();

    let turn_result = game.turn(&player_0, 0, 0).unwrap();

    assert!(!turn_result);
    assert!(!game.is_ended());
    assert!(!game.is_board_filled());
    assert!(game.board[0][0].is_some());
    assert_eq!(game.next_turn, (player_1, BoardMark::O));
}

#[test]
fn success_cancel() {
    let (player_0, _, mut game) = setup();

    game.cancel(&player_0).unwrap();

    assert!(game.is_ended());
    assert!(!game.is_board_filled());
    assert_eq!(game.status, GameStatus::Canceled);
}
