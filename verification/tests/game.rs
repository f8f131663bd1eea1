use tictactoe_server::game::{Game, GameError, Notice, Outgoing};
use tictactoe_server::tictactoe::{Field, Player};

#[test]
fn rematch_works() {
    let mut g = Game::new();
    g.join(1, true, true);
    assert_eq!(Ok(false), g.healtchcheck(true, true));
    g.join(2, true, true);
    assert_eq!(Ok(true), g.healtchcheck(true, true));
    let cred1 = g.players[0].as_ref().unwrap().credentials.clone();
    let cred2 = g.players[1].as_ref().unwrap().credentials.clone();
    assert!(g.rematch(cred1.clone(), true, true));
    let credafter1 = g.players[0].as_ref().unwrap().credentials.clone();
    let credafter2 = g.players[1].as_ref().unwrap().credentials.clone();
    assert_eq!(cred1, credafter2);
    assert_eq!(cred2, credafter1);
}

#[test]
fn can_add_moves() {
    let mut g = Game::new();
    g.join(1, true, true);
    assert_eq!(Ok(false), g.healtchcheck(true, true));
    g.join(2, true, true);
    assert!(g.game_ok(true, true).is_ok());
    let players = g.game_ok(true, true).unwrap();
    assert!(g.addmove(0, players[0].credentials.clone(), true, true));
    assert!(!g.addmove(1, players[0].credentials.clone(), true, true));
    assert!(g.addmove(6, players[1].credentials.clone(), true, true));
    assert!(g.addmove(1, players[0].credentials.clone(), true, true));
    assert!(g.addmove(7, players[1].credentials.clone(), true, true));
    assert!(None == g.board.get_winner());
    assert!(g.addmove(2, players[0].credentials.clone(), true, true));
    assert!(Some((Field::X, 0)) == g.board.get_winner());
    assert!(!g.addmove(8, players[1].credentials.clone(), true, true));
}

#[test]
fn can_join_empty_game() {
    let mut g = Game::new();
    g.join(1, true, true);
    assert_eq!(Ok(false), g.healtchcheck(true, true));
    g.join(2, true, true);
    assert_eq!(Ok(true), g.healtchcheck(true, true));
}

#[test]
fn rejoin_when_player_drops() {
    let mut g = Game::new();
    g.join(1, true, true);
    assert_eq!(Ok(false), g.healtchcheck(true, true));
    g.join(2, true, true);
    assert!(g.game_ok(true, true).is_ok());
    // the first player's connection goes dead
    assert_eq!(Ok(false), g.healtchcheck(false, true));
    g.join(3, true, true);
    assert!(g.game_ok(true, true).is_ok());
}

#[test]
fn spectators_can_just_drop() {
    let mut g = Game::new();
    g.join(1, true, true);
    assert_eq!(Ok(false), g.healtchcheck(true, true));
    g.join(2, true, true);
    assert!(g.game_ok(true, true).is_ok());
    assert_eq!(0, g.spectators.len());
    g.join(3, true, true);
    assert!(g.game_ok(true, true).is_ok());
    assert_eq!(1, g.spectators.len());
    // a spectator disappearing never affects the seats
    assert!(g.game_ok(true, true).is_ok());
}

#[test]
fn first_join_fills_seat_zero_with_a_credential() {
    let mut g = Game::new();
    g.join(7, true, true);
    let seat0 = g.players[0].as_ref().unwrap();
    assert_eq!(seat0.chan, 7);
    assert_eq!(seat0.credentials.len(), 12);
    assert!(g.players[1].is_none());
}

#[test]
fn third_join_becomes_a_spectator() {
    let mut g = Game::new();
    g.join(1, true, true);
    g.join(2, true, true);
    let cred0 = g.players[0].as_ref().unwrap().credentials.clone();
    let cred1 = g.players[1].as_ref().unwrap().credentials.clone();
    assert_ne!(cred0, cred1);
    g.join(3, true, true);
    assert_eq!(g.players[0].as_ref().unwrap().chan, 1);
    assert_eq!(g.players[1].as_ref().unwrap().chan, 2);
    assert_eq!(g.spectators, vec![3]);
}

#[test]
fn health_check_evicts_dead_seats_and_rejoin_keeps_the_other() {
    let mut g = Game::new();
    g.join(1, true, true);
    g.join(2, true, true);
    let cred0 = g.players[0].as_ref().unwrap().credentials.clone();
    let cred1 = g.players[1].as_ref().unwrap().credentials.clone();
    assert_eq!(Ok(false), g.healtchcheck(false, true));
    assert!(g.players[0].is_none());
    g.join(3, true, true);
    let seat0 = g.players[0].as_ref().unwrap();
    assert_eq!(seat0.chan, 3);
    assert_ne!(seat0.credentials, cred0);
    assert_eq!(g.players[1].as_ref().unwrap().credentials, cred1);
}

#[test]
fn moves_need_the_mover_credential() {
    let mut g = Game::new();
    g.join(1, true, true);
    g.join(2, true, true);
    let cred_a = g.players[0].as_ref().unwrap().credentials.clone();
    let cred_b = g.players[1].as_ref().unwrap().credentials.clone();
    // X (seat 0) moves first: B's credential is refused at that moment.
    assert!(!g.addmove(0, cred_b.clone(), true, true));
    assert!(g.addmove(0, cred_a.clone(), true, true));
    // now the roles invert
    assert!(!g.addmove(1, cred_a.clone(), true, true));
    assert!(g.addmove(1, cred_b.clone(), true, true));
}

#[test]
fn moves_need_two_healthy_seats() {
    let mut g = Game::new();
    g.join(1, true, true);
    let cred_a = g.players[0].as_ref().unwrap().credentials.clone();
    assert!(!g.addmove(0, cred_a.clone(), true, true));
    assert!(matches!(g.game_ok(true, true), Err(GameError::MissingPlayer)));
}

#[test]
fn rematch_resets_the_board_with_x_to_move() {
    let mut g = Game::new();
    g.join(1, true, true);
    g.join(2, true, true);
    let cred_a = g.players[0].as_ref().unwrap().credentials.clone();
    assert!(g.addmove(0, cred_a.clone(), true, true));
    assert!(g.rematch(cred_a.clone(), true, true));
    assert!(g.board.show().iter().all(|f| *f == Field::Empty));
    assert_eq!(g.board.next_turn, Player::X);
    // the old seat-0 credential now authorizes seat 1 (mark O)
    assert!(!g.addmove(0, cred_a.clone(), true, true));
}

#[test]
fn rematch_needs_a_seated_credential() {
    let mut g = Game::new();
    g.join(1, true, true);
    g.join(2, true, true);
    assert!(!g.rematch("not-a-credential".to_string(), true, true));
}

#[test]
fn end_to_end_win_on_the_first_row() {
    let mut g = Game::new();
    g.join(1, true, true);
    g.join(2, true, true);
    let cred_a = g.players[0].as_ref().unwrap().credentials.clone();
    let cred_b = g.players[1].as_ref().unwrap().credentials.clone();
    assert!(g.addmove(0, cred_a.clone(), true, true));
    assert!(g.addmove(3, cred_b.clone(), true, true));
    assert!(g.addmove(1, cred_a.clone(), true, true));
    assert!(g.addmove(4, cred_b.clone(), true, true));
    assert!(g.addmove(2, cred_a.clone(), true, true));
    assert_eq!(g.board.get_winner(), Some((Field::X, 0)));
    assert!(!g.addmove(5, cred_b.clone(), true, true));
    assert!(!g.addmove(5, cred_a.clone(), true, true));
}

#[test]
fn joins_queue_the_admission_and_ready_events() {
    let mut g = Game::new();
    g.join(1, true, true);
    assert_eq!(g.outbox, vec![
        Outgoing::Credentials(1),
        Outgoing::Notice(1, Notice::SeatAssigned(Player::X)),
    ]);
    g.join(2, true, true);
    assert_eq!(g.outbox, vec![
        Outgoing::Credentials(1),
        Outgoing::Notice(1, Notice::SeatAssigned(Player::X)),
        Outgoing::Credentials(2),
        Outgoing::Notice(2, Notice::SeatAssigned(Player::O)),
        Outgoing::StartGame(1),
        Outgoing::Notice(1, Notice::ReadyFirstMove),
        Outgoing::StartGame(2),
        Outgoing::Notice(2, Notice::ReadyWaitForMove),
    ]);
    g.outbox.clear();
    g.join(3, true, true);
    assert_eq!(g.outbox, vec![
        Outgoing::StartGame(3),
        Outgoing::Notice(3, Notice::Spectator),
        Outgoing::BoardState(3),
    ]);
}

#[test]
fn show_fans_out_to_seats_and_spectators() {
    let mut g = Game::new();
    g.join(1, true, true);
    g.join(2, true, true);
    g.join(3, true, true);
    g.outbox.clear();
    g.show();
    assert_eq!(g.outbox, vec![
        Outgoing::BoardState(1),
        Outgoing::Notice(1, Notice::YourTurn(Player::X)),
        Outgoing::BoardState(2),
        Outgoing::Notice(2, Notice::WaitForOpponent),
        Outgoing::BoardState(3),
    ]);
}

#[test]
fn show_suppresses_turn_notices_once_decided() {
    let mut g = Game::new();
    g.join(1, true, true);
    g.join(2, true, true);
    let cred_a = g.players[0].as_ref().unwrap().credentials.clone();
    let cred_b = g.players[1].as_ref().unwrap().credentials.clone();
    for (pos, cred) in [(0, &cred_a), (3, &cred_b), (1, &cred_a), (4, &cred_b), (2, &cred_a)] {
        assert!(g.addmove(pos, cred.clone(), true, true));
    }
    g.outbox.clear();
    g.show();
    assert_eq!(g.outbox, vec![Outgoing::BoardState(1), Outgoing::BoardState(2)]);
}

#[test]
fn vacated_session_is_empty() {
    let mut g = Game::new();
    assert!(g.is_empty());
    g.join(1, true, true);
    assert!(!g.is_empty());
    assert_eq!(Ok(false), g.healtchcheck(false, false));
    assert!(g.is_empty());
}
