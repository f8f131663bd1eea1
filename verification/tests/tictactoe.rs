use tictactoe_server::tictactoe::{best_next_move, Board, Difficulty, Field, Player};

#[test]
fn x_is_first() {
    let game = Board::new();
    assert!(game.next_turn == Player::X);
}

#[test]
fn o_is_second() {
    let mut game = Board::new();
    game.add_turn(0);
    assert_eq!(game.next_turn, Player::O);
}

#[test]
fn occupied_fields_are_not_overwritten() {
    let mut game = Board::new();
    game.add_turn(0);
    assert!(!game.add_turn(0));
    assert_eq!(game.fields[0], Field::X);
}

#[test]
fn out_of_range_moves_are_rejected() {
    let mut game = Board::new();
    assert!(!game.add_turn(9));
    assert!(!game.add_turn(100));
    assert_eq!(game.next_turn, Player::X);
    assert!(game.fields.iter().all(|f| *f == Field::Empty));
}

#[test]
fn first_row_wins_for_x() {
    let mut game = Board::new();
    for pos in [0, 3, 1, 4, 2] {
        assert!(game.add_turn(pos));
    }
    assert_eq!(game.get_winner(), Some((Field::X, 0)));
}

#[test]
fn no_moves_after_win() {
    let mut game = Board::new();
    for pos in [0, 3, 1, 4, 2] {
        assert!(game.add_turn(pos));
    }
    let before = game.show();
    assert!(!game.add_turn(5));
    assert_eq!(game.show(), before);
    assert_eq!(game.next_turn, Player::O);
}

#[test]
fn winner_is_deterministic() {
    let mut game = Board::new();
    for pos in [0, 3, 1, 4, 2] {
        assert!(game.add_turn(pos));
    }
    assert_eq!(game.get_winner(), game.get_winner());
}

#[test]
fn blocked_board_is_a_draw() {
    // X O X
    // O O X
    // X X O
    let mut game = Board::new();
    for pos in [0, 1, 2, 3, 5, 4, 6, 8, 7] {
        assert!(game.add_turn(pos));
    }
    assert_eq!(game.get_winner(), Some((Field::Empty, 10)));
}

#[test]
fn column_win_reports_its_line_index() {
    let mut game = Board::new();
    // X takes the first column (cells 0, 3, 6): line index 3.
    for pos in [0, 1, 3, 2, 6] {
        assert!(game.add_turn(pos));
    }
    assert_eq!(game.get_winner(), Some((Field::X, 3)));
}

#[test]
fn bot_takes_an_immediate_win() {
    let mut game = Board::new();
    // X at 0 and 1, O at 3 and 4; X to move can win at 2.
    for pos in [0, 3, 1, 4] {
        assert!(game.add_turn(pos));
    }
    assert_eq!(best_next_move(&game, &Difficulty::hardest()), 2);
}

#[test]
fn bot_blocks_an_opponent_win() {
    let mut game = Board::new();
    // X at 0 and 1; O (to move after X's two turns) must block at 2.
    for pos in [0, 3, 1] {
        assert!(game.add_turn(pos));
    }
    assert_eq!(best_next_move(&game, &Difficulty::hardest()), 2);
}

#[test]
fn bot_prefers_the_center() {
    let game = Board::new();
    assert_eq!(best_next_move(&game, &Difficulty::hardest()), 4);
}

#[test]
fn bot_without_switches_still_plays_an_empty_cell() {
    let mut game = Board::new();
    game.add_turn(4);
    let pick = best_next_move(&game, &Difficulty::easiest());
    assert!(pick < 9);
    assert_ne!(pick, 4);
    assert_eq!(game.fields[pick], Field::Empty);
}

#[test]
fn bot_on_a_full_board_returns_the_sentinel() {
    let mut game = Board::new();
    for pos in [0, 1, 2, 3, 5, 4, 6, 8, 7] {
        assert!(game.add_turn(pos));
    }
    assert_eq!(best_next_move(&game, &Difficulty::hardest()), 11);
}

#[test]
fn difficulty_presets_set_their_switches() {
    assert_eq!(Difficulty::hardest(), Difficulty {
        block: true,
        prefer_center: true,
        prefer_corners: true,
        take_win: true,
    });
    assert_eq!(Difficulty::easy(), Difficulty {
        block: false,
        prefer_center: false,
        prefer_corners: false,
        take_win: true,
    });
    assert!(!Difficulty::easiest().take_win);
    assert!(Difficulty::hard().block && Difficulty::hard().take_win);
    assert!(Difficulty::medium().prefer_center && !Difficulty::medium().block);
    assert!(Difficulty::beatable().prefer_corners && !Difficulty::beatable().prefer_center);
}

#[test]
fn marks_convert_to_players() {
    assert_eq!(Player::try_from(Field::X), Ok(Player::X));
    assert_eq!(Player::try_from(Field::O), Ok(Player::O));
    assert_eq!(Player::try_from(Field::Empty), Err(()));
    assert_eq!(Player::X.other(), Player::O);
    assert_eq!(Player::O.other(), Player::X);
}
