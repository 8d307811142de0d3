use backend::config::GameConfig;
use backend::grid::CellState;
use backend::player::Player;
use backend::protocol::{ErrorKind, ServerMessage, ShipPlacement, UpdateStatus};
use backend::session::{Game, GameStatus};

fn standard_fleet() -> Vec<ShipPlacement> {
    vec![
        ShipPlacement { x: 0, y: 0, size: 5, vertical: false },
        ShipPlacement { x: 0, y: 1, size: 4, vertical: false },
        ShipPlacement { x: 0, y: 2, size: 3, vertical: false },
        ShipPlacement { x: 0, y: 3, size: 3, vertical: false },
        ShipPlacement { x: 0, y: 4, size: 2, vertical: false },
    ]
}

fn joined_game() -> Game {
    let mut game = Game::new(1, "p1".to_string(), GameConfig::default(), 0);
    game.handle_join(2, "p2".to_string(), Some(true), 0);
    game
}

#[test]
fn test_valid_fleet_accepted() {
    let mut p = Player::new(1, "a".to_string());
    assert!(p.place_fleet(&standard_fleet()).is_ok());
    assert!(p.ships_placed);
    assert_eq!(p.ships.len(), 5);
    assert_eq!(p.grid.count(CellState::Ship), 5 + 4 + 3 + 3 + 2);
}

#[test]
fn test_wrong_ship_count_rejected() {
    let mut p = Player::new(1, "a".to_string());
    let mut fleet = standard_fleet();
    fleet.pop();
    assert_eq!(p.place_fleet(&fleet).unwrap_err(), ErrorKind::ValidationFailed);
    assert!(!p.ships_placed);
    assert_eq!(p.ships.len(), 0);
}

#[test]
fn test_wrong_size_multiset_rejected() {
    let mut p = Player::new(1, "a".to_string());
    let mut fleet = standard_fleet();
    // Two carriers instead of carrier + battleship: same count, wrong sizes.
    fleet[1].size = 5;
    assert_eq!(p.place_fleet(&fleet).unwrap_err(), ErrorKind::ValidationFailed);
    assert_eq!(p.ships.len(), 0);
    assert_eq!(p.grid.count(CellState::Ship), 0);
}

#[test]
fn test_overlap_rejected_without_partial_placement() {
    let mut p = Player::new(1, "a".to_string());
    let mut fleet = standard_fleet();
    // The battleship crosses the carrier's row.
    fleet[1] = ShipPlacement { x: 2, y: 1, size: 4, vertical: true };
    fleet[1].y = 0;
    assert_eq!(p.place_fleet(&fleet).unwrap_err(), ErrorKind::ValidationFailed);
    assert!(!p.ships_placed, "failed submission must not count as placed");
    assert_eq!(p.ships.len(), 0, "no partial fleet may remain");
    assert_eq!(p.grid.count(CellState::Ship), 0, "no partially marked cells may remain");
}

#[test]
fn test_out_of_bounds_extent_rejected() {
    let mut p = Player::new(1, "a".to_string());
    let mut fleet = standard_fleet();
    fleet[0] = ShipPlacement { x: 6, y: 0, size: 5, vertical: false };
    assert_eq!(p.place_fleet(&fleet).unwrap_err(), ErrorKind::ValidationFailed);
    assert_eq!(p.ships.len(), 0);
    assert_eq!(p.grid.count(CellState::Ship), 0);
}

#[test]
fn test_place_ships_idempotent_replay() {
    let mut game = joined_game();
    let fleet = standard_fleet();

    let first = game.handle_place_ships(2, &fleet, 10);
    assert_eq!(first.broadcast.len(), 1, "fresh placement broadcasts the confirmation");
    assert!(matches!(
        first.broadcast[0],
        ServerMessage::ShipsConfirmed { player_id: 2 }
    ));
    let placed = game.player2.as_ref().unwrap().clone();
    assert!(placed.ships_placed);

    // Identical replay: confirmation again, no broadcast, no mutation.
    let second = game.handle_place_ships(2, &fleet, 20);
    assert_eq!(second.broadcast.len(), 0, "replay must not re-broadcast");
    assert_eq!(second.direct.len(), 2);
    assert!(matches!(
        second.direct[0],
        ServerMessage::ShipsConfirmed { player_id: 2 }
    ));
    assert!(matches!(
        second.direct[1],
        ServerMessage::GameUpdate { status: UpdateStatus::ShipsPlaced, .. }
    ));
    let after = game.player2.as_ref().unwrap();
    assert_eq!(after.ships.len(), placed.ships.len());
    assert_eq!(after.ships_placed, placed.ships_placed);
    assert_eq!(game.status, GameStatus::PlacingShips, "no second transition is triggered");
}

#[test]
fn test_both_fleets_placed_starts_match() {
    let mut game = joined_game();
    let fleet = standard_fleet();

    let r1 = game.handle_place_ships(1, &fleet, 10);
    assert_eq!(game.status, GameStatus::PlacingShips);
    assert!(matches!(
        r1.direct[0],
        ServerMessage::GameUpdate { status: UpdateStatus::PlacementComplete, is_active: false, .. }
    ));

    let r2 = game.handle_place_ships(2, &fleet, 11);
    assert_eq!(game.status, GameStatus::Playing, "second fleet starts the match");
    assert_eq!(game.game_started_at, Some(11));
    assert_eq!(r2.broadcast.len(), 2);
    assert!(matches!(r2.broadcast[0], ServerMessage::ShipsConfirmed { player_id: 2 }));
    assert!(matches!(r2.broadcast[1], ServerMessage::GameStart));
}

#[test]
fn test_place_after_start_rejected() {
    let mut game = joined_game();
    let fleet = standard_fleet();
    game.handle_place_ships(1, &fleet, 0);
    game.handle_place_ships(2, &fleet, 0);
    assert_eq!(game.status, GameStatus::Playing);

    let mut late = standard_fleet();
    late[0].y = 5;
    let r = game.handle_place_ships(1, &late, 1);
    assert!(matches!(
        r.direct[0],
        ServerMessage::Error { kind: ErrorKind::InvalidState }
    ));
}

#[test]
fn test_place_by_stranger_rejected() {
    let mut game = joined_game();
    let r = game.handle_place_ships(99, &standard_fleet(), 0);
    assert!(matches!(
        r.direct[0],
        ServerMessage::Error { kind: ErrorKind::NotFound }
    ));
}
