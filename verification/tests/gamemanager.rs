use tictactoe_server::game::Game;
use tictactoe_server::gamemanager::GameManager;
use tictactoe_server::routes;
use tictactoe_server::routes::RouteResponse;

#[test]
fn can_create_game() {
    let mut gm = GameManager::init();
    gm.newgame("foo".to_string());
    assert!(gm.getgame("foo".to_string()).is_some());
}

#[test]
fn empty_games_are_deleted() {
    let mut gm = GameManager::init();
    gm.newgame("bar".to_string());
    gm.remove_dead_games();
    assert!(gm.getgame("bar".to_string()).is_none());
}

#[test]
fn non_empty_games_are_not_deleted() {
    let mut gm = GameManager::init();
    gm.newgame("baz".to_string());
    gm.games[0].1.join(1, true, true);
    gm.remove_dead_games();
    assert!(gm.getgame("baz".to_string()).is_some());
    // the seated connection goes dead: the next health check vacates it
    assert_eq!(Ok(false), gm.games[0].1.healtchcheck(false, false));
    gm.remove_dead_games();
    assert!(gm.getgame("baz".to_string()).is_none());
}

#[test]
fn creating_under_a_taken_id_overwrites() {
    let mut gm = GameManager::init();
    gm.newgame("same".to_string());
    gm.games[0].1.join(1, true, true);
    gm.newgame("same".to_string());
    assert_eq!(gm.games.len(), 1);
    assert!(gm.games[0].1.is_empty());
}

#[test]
fn sessions_with_one_seat_survive_the_sweep() {
    let mut gm = GameManager::init();
    gm.newgame("alpha".to_string());
    gm.newgame("beta".to_string());
    gm.games[0].1.join(1, true, true);
    gm.remove_dead_games();
    assert!(gm.getgame("alpha".to_string()).is_some());
    assert!(gm.getgame("beta".to_string()).is_none());
}

#[test]
fn route_newgame_registers_a_fresh_id() {
    let mut gm = GameManager::init();
    let id = routes::newgame(&mut gm);
    assert_eq!(id.len(), 8);
    assert!(gm.getgame(id.clone()).is_some());
    let game: &Game = gm.getgame(id).unwrap();
    assert!(game.is_empty());
}

#[test]
fn route_game_events_joins_or_reports_absence() {
    let mut gm = GameManager::init();
    assert!(!routes::game_events(&mut gm, "nope".to_string(), 1, true, true));
    gm.newgame("here".to_string());
    assert!(routes::game_events(&mut gm, "here".to_string(), 1, true, true));
    assert!(!gm.games[0].1.is_empty());
}

#[test]
fn route_addmove_classifies_outcomes() {
    let mut gm = GameManager::init();
    assert_eq!(
        routes::addmove(&mut gm, "nope".to_string(), 0, "c".to_string(), true, true),
        RouteResponse::NotFound
    );
    gm.newgame("g".to_string());
    routes::game_events(&mut gm, "g".to_string(), 1, true, true);
    routes::game_events(&mut gm, "g".to_string(), 2, true, true);
    let cred_a = gm.games[0].1.players[0].as_ref().unwrap().credentials.clone();
    assert_eq!(
        routes::addmove(&mut gm, "g".to_string(), 0, "wrong".to_string(), true, true),
        RouteResponse::Rejected
    );
    assert_eq!(
        routes::addmove(&mut gm, "g".to_string(), 0, cred_a, true, true),
        RouteResponse::Accepted
    );
}

#[test]
fn route_rematch_classifies_outcomes() {
    let mut gm = GameManager::init();
    assert_eq!(
        routes::rematch(&mut gm, "nope".to_string(), "c".to_string(), true, true),
        RouteResponse::NotFound
    );
    gm.newgame("g".to_string());
    routes::game_events(&mut gm, "g".to_string(), 1, true, true);
    routes::game_events(&mut gm, "g".to_string(), 2, true, true);
    let cred_b = gm.games[0].1.players[1].as_ref().unwrap().credentials.clone();
    assert_eq!(
        routes::rematch(&mut gm, "g".to_string(), "wrong".to_string(), true, true),
        RouteResponse::Rejected
    );
    assert_eq!(
        routes::rematch(&mut gm, "g".to_string(), cred_b.clone(), true, true),
        RouteResponse::Accepted
    );
    // the credential moved to seat 0 with the swap
    assert_eq!(
        gm.games[0].1.players[0].as_ref().unwrap().credentials,
        cred_b
    );
}
