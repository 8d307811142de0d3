use backend::config::GameConfig;
use backend::grid::CellState;
use backend::protocol::{ErrorKind, ServerMessage, ShipPlacement, UnlockReason, UpdateStatus};
use backend::session::{Game, GameStatus};

fn standard_fleet() -> Vec<ShipPlacement> {
    vec![
        ShipPlacement { x: 0, y: 0, size: 5, vertical: false },
        ShipPlacement { x: 0, y: 1, size: 4, vertical: false },
        ShipPlacement { x: 0, y: 2, size: 3, vertical: false },
        ShipPlacement { x: 0, y: 3, size: 3, vertical: false },
        ShipPlacement { x: 0, y: 4, size: 2, vertical: false },
    ]
}

fn playing_game() -> Game {
    let mut game = Game::new(1, "p1".to_string(), GameConfig::default(), 0);
    game.handle_join(2, "p2".to_string(), Some(true), 0);
    game.handle_place_ships(1, &standard_fleet(), 5);
    game.handle_place_ships(2, &standard_fleet(), 5);
    assert_eq!(game.status, GameStatus::Playing);
    game
}

#[test]
fn test_join_advances_to_placing() {
    let mut game = Game::new(1, "p1".to_string(), GameConfig::default(), 0);
    assert_eq!(game.status, GameStatus::Waiting);
    let r = game.handle_join(2, "p2".to_string(), Some(true), 0);
    assert_eq!(game.status, GameStatus::PlacingShips);
    assert_eq!(r.direct.len(), 2);
    assert!(matches!(r.direct[0], ServerMessage::GameJoined { player_id: 2, .. }));
    assert!(matches!(r.direct[1], ServerMessage::PlayerJoined { player_id: 1 }));
    assert_eq!(r.broadcast.len(), 1);
    assert!(matches!(r.broadcast[0], ServerMessage::PlayerJoined { player_id: 2 }));
}

#[test]
fn test_join_fails_closed_when_verifier_unavailable() {
    let mut game = Game::new(1, "p1".to_string(), GameConfig::default(), 0);
    let r = game.handle_join(2, "p2".to_string(), None, 0);
    assert!(matches!(
        r.direct[0],
        ServerMessage::Error { kind: ErrorKind::ExternalUnavailable }
    ));
    assert_eq!(game.status, GameStatus::Waiting);
    assert!(game.player2.is_none());
}

#[test]
fn test_join_unknown_handle_rejected() {
    let mut game = Game::new(1, "p1".to_string(), GameConfig::default(), 0);
    let r = game.handle_join(2, "nobody".to_string(), Some(false), 0);
    assert!(matches!(
        r.direct[0],
        ServerMessage::Error { kind: ErrorKind::ValidationFailed }
    ));
    assert!(game.player2.is_none());
}

#[test]
fn test_join_full_game_rejected() {
    let mut game = Game::new(1, "p1".to_string(), GameConfig::default(), 0);
    game.handle_join(2, "p2".to_string(), Some(true), 0);
    let r = game.handle_join(3, "p3".to_string(), Some(true), 0);
    assert!(matches!(
        r.direct[0],
        ServerMessage::Error { kind: ErrorKind::InvalidState }
    ));
}

#[test]
fn test_self_join_rejected() {
    let mut game = Game::new(1, "p1".to_string(), GameConfig::default(), 0);
    let mut direct_join = Game::new(1, "p1".to_string(), GameConfig::default(), 0);
    assert_eq!(
        direct_join.join(1, "p1".to_string()).unwrap_err(),
        ErrorKind::ValidationFailed
    );
    // Through the handler the host's own id is treated as a reconnection.
    let r = game.handle_join(1, "p1".to_string(), Some(true), 0);
    assert!(matches!(r.direct[0], ServerMessage::GameJoined { player_id: 1, .. }));
    assert!(game.player2.is_none());
}

#[test]
fn test_reconnection_resync_is_idempotent() {
    let mut game = playing_game();
    let before = game.clone();

    let r = game.handle_join(2, "p2".to_string(), Some(true), 100);
    assert_eq!(r.broadcast.len(), 0, "a resync is never broadcast");
    // GameJoined, GameUpdate, ShipsConfirmed, YourShips, GameStart, GridSync.
    assert_eq!(r.direct.len(), 6);
    assert!(matches!(r.direct[0], ServerMessage::GameJoined { player_id: 2, .. }));
    assert!(matches!(r.direct[1], ServerMessage::GameUpdate { .. }));
    assert!(matches!(r.direct[2], ServerMessage::ShipsConfirmed { player_id: 2 }));
    match &r.direct[3] {
        ServerMessage::YourShips { ships } => {
            assert_eq!(ships.len(), 5);
            assert_eq!(ships[0].size, 5);
        },
        other => panic!("expected YourShips, got {:?}", other),
    }
    assert!(matches!(r.direct[4], ServerMessage::GameStart));
    match &r.direct[5] {
        ServerMessage::GridSync { my_grid, enemy_grid } => {
            assert_eq!(my_grid[0][0], CellState::Ship, "own ships are visible");
            assert_eq!(enemy_grid[0][0], CellState::Empty, "enemy ships are masked");
        },
        other => panic!("expected GridSync, got {:?}", other),
    }

    // Replaying the resync never mutates session state.
    assert_eq!(game.status, before.status);
    assert_eq!(game.player1.heat, before.player1.heat);
    assert_eq!(
        game.player2.as_ref().unwrap().ships.len(),
        before.player2.as_ref().unwrap().ships.len()
    );
    assert_eq!(game.game_started_at, before.game_started_at);
}

#[test]
fn test_join_after_finish_rejected() {
    let mut game = playing_game();
    game.status = GameStatus::Finished;
    game.finished_at = Some(50);
    let r = game.handle_join(2, "p2".to_string(), Some(true), 60);
    assert!(matches!(
        r.direct[0],
        ServerMessage::Error { kind: ErrorKind::InvalidState }
    ));
}

#[test]
fn test_fire_before_playing_rejected() {
    let mut game = Game::new(1, "p1".to_string(), GameConfig::default(), 0);
    game.handle_join(2, "p2".to_string(), Some(true), 0);
    let r = game.handle_fire(1, 0, 0, 1);
    assert!(matches!(
        r.direct[0],
        ServerMessage::Error { kind: ErrorKind::InvalidState }
    ));
}

#[test]
fn test_fire_broadcasts_shot_result() {
    let mut game = playing_game();
    let r = game.handle_fire(1, 9, 9, 10);
    assert_eq!(r.direct.len(), 1);
    assert!(matches!(
        r.direct[0],
        ServerMessage::ShotResult { x: 9, y: 9, hit: false, sunk: false, shooter_id: 1 }
    ));
    assert_eq!(r.broadcast.len(), 1);
    assert!(matches!(
        r.broadcast[0],
        ServerMessage::ShotResult { x: 9, y: 9, hit: false, sunk: false, shooter_id: 1 }
    ));
    assert_eq!(game.player1.heat, 1);
}

#[test]
fn test_seventh_shot_broadcasts_weapons_locked() {
    let mut game = playing_game();
    for i in 0..6usize {
        game.handle_fire(1, i, 9, 10);
    }
    let r = game.handle_fire(1, 6, 9, 10);
    assert_eq!(r.broadcast.len(), 2);
    assert!(matches!(r.broadcast[1], ServerMessage::WeaponsLocked { player_id: 1 }));
    assert!(game.player1.is_locked);
}

#[test]
fn test_sudden_death_hit_wins_regardless_of_fleet() {
    let mut game = playing_game();
    game.status = GameStatus::SuddenDeath;
    // Both fleets are fully intact; a single hit still ends the match.
    let r = game.handle_fire(2, 0, 0, 99);
    assert_eq!(game.status, GameStatus::Finished);
    assert_eq!(game.finished_at, Some(99));
    let last = r.broadcast.last().unwrap();
    assert!(matches!(
        last,
        ServerMessage::GameOver {
            winner_id: Some(2),
            reason: backend::protocol::GameOverReason::SuddenDeathHit,
            ..
        }
    ));
}

#[test]
fn test_sudden_death_miss_does_not_end() {
    let mut game = playing_game();
    game.status = GameStatus::SuddenDeath;
    game.handle_fire(2, 9, 9, 99);
    assert_eq!(game.status, GameStatus::SuddenDeath);
}

#[test]
fn test_wiping_fleet_ends_match() {
    let mut game = playing_game();
    // Sink everything but one cell of the destroyer.
    let cells: Vec<(usize, usize)> = (0..5).map(|x| (x, 0))
        .chain((0..4).map(|x| (x, 1)))
        .chain((0..3).map(|x| (x, 2)))
        .chain((0..3).map(|x| (x, 3)))
        .chain((0..1).map(|x| (x, 4)))
        .collect();
    for (x, y) in cells {
        game.player1.unlock_weapons();
        game.handle_fire(1, x, y, 10);
    }
    assert_eq!(game.status, GameStatus::Playing);
    game.player1.unlock_weapons();
    let r = game.handle_fire(1, 1, 4, 42);
    assert_eq!(game.status, GameStatus::Finished);
    assert_eq!(game.finished_at, Some(42));
    let last = r.broadcast.last().unwrap();
    assert!(matches!(
        last,
        ServerMessage::GameOver {
            winner_id: Some(1),
            reason: backend::protocol::GameOverReason::AllShipsSunk,
            ..
        }
    ));
}

#[test]
fn test_veto_requires_lock_and_quota() {
    let mut game = playing_game();
    let r = game.handle_veto(1, 10);
    assert!(matches!(
        r.direct[0],
        ServerMessage::Error { kind: ErrorKind::InvalidState }
    ), "an unlocked player cannot veto");

    game.player1.heat = 7;
    game.player1.is_locked = true;
    game.player1.vetoes_used = 3;
    let r = game.handle_veto(1, 10);
    assert!(matches!(
        r.direct[0],
        ServerMessage::Error { kind: ErrorKind::ValidationFailed }
    ), "the veto quota is enforced");
}

#[test]
fn test_veto_uses_penalty_table_and_counts() {
    let mut game = playing_game();
    game.player1.heat = 7;
    game.player1.is_locked = true;
    game.player1.vetoes_used = 1;

    let r = game.handle_veto(1, 1000);
    // Index 1 of the default table: 600 seconds.
    match &r.direct[0] {
        ServerMessage::GameUpdate {
            status: UpdateStatus::VetoActive,
            is_active: false,
            is_locked: true,
            vetoes_remaining,
            veto_time_remaining_secs,
            ..
        } => {
            assert_eq!(*veto_time_remaining_secs, Some(600));
            assert_eq!(*vetoes_remaining, 1);
        },
        other => panic!("expected a veto GameUpdate, got {:?}", other),
    }
    assert_eq!(game.player1.vetoes_used, 2);
    assert_eq!(game.player1.veto_started_at, Some(1000));
    assert!(game.player1.is_locked, "the player stays locked for the penalty");
}

#[test]
fn test_solve_begin_blocked_during_veto() {
    let mut game = playing_game();
    game.player1.heat = 7;
    game.player1.is_locked = true;
    game.handle_veto(1, 1000);
    let r = game.solve_begin(1, 1001);
    assert_eq!(r.unwrap_err(), ErrorKind::InvalidState);
}

#[test]
fn test_solve_begin_rate_limited() {
    let mut game = playing_game();
    let first = game.solve_begin(1, 1000);
    assert_eq!(first.unwrap(), "p1".to_string());
    let again = game.solve_begin(1, 1005);
    assert_eq!(again.unwrap_err(), ErrorKind::RateLimited);
    let later = game.solve_begin(1, 1010);
    assert!(later.is_ok(), "the cooldown is exactly ten seconds");
}

#[test]
fn test_solve_apply_accepted_unlocks_and_credits() {
    let mut game = playing_game();
    game.player1.heat = 7;
    game.player1.is_locked = true;

    let r = game.solve_apply(1, true, 2000);
    assert_eq!(game.player1.heat, 0);
    assert!(!game.player1.is_locked);
    assert_eq!(game.player1.stats.problems_solved, 1);
    assert_eq!(r.broadcast.len(), 1);
    assert!(matches!(
        r.broadcast[0],
        ServerMessage::WeaponsUnlocked { player_id: 1, reason: UnlockReason::Solved }
    ));
    assert!(matches!(
        r.direct[0],
        ServerMessage::GameUpdate { status: UpdateStatus::WeaponsUnlocked, heat: 0, is_locked: false, .. }
    ));
}

#[test]
fn test_solve_apply_rejected_changes_nothing() {
    let mut game = playing_game();
    game.player1.heat = 7;
    game.player1.is_locked = true;
    let r = game.solve_apply(1, false, 2000);
    assert!(matches!(
        r.direct[0],
        ServerMessage::Error { kind: ErrorKind::ValidationFailed }
    ));
    assert!(game.player1.is_locked);
    assert_eq!(game.player1.stats.problems_solved, 0);
}

#[test]
fn test_fire_time_penalty_lookup_clamps_to_last_entry() {
    let config = GameConfig::default();
    let mut game = playing_game();
    game.player1.heat = 7;
    game.player1.is_locked = true;
    game.player1.vetoes_used = 3;
    game.player1.veto_started_at = Some(5000);
    assert_eq!(config.veto_penalties[2], 900);

    // The third veto (and any further) runs the last table entry: 900s.
    let r = game.handle_fire(1, 0, 9, 5000 + 899);
    assert!(matches!(
        r.direct[0],
        ServerMessage::Error { kind: ErrorKind::Locked }
    ));
    let r = game.handle_fire(1, 0, 9, 5000 + 900);
    assert!(matches!(r.direct[0], ServerMessage::ShotResult { .. }));
    assert!(!game.player1.is_locked);
}

#[test]
fn test_resync_before_match_start_omits_grids() {
    let mut game = Game::new(1, "p1".to_string(), GameConfig::default(), 0);
    game.handle_join(2, "p2".to_string(), Some(true), 0);
    game.handle_place_ships(2, &standard_fleet(), 3);

    let r = game.handle_join(2, "p2".to_string(), Some(true), 4);
    // GameJoined, GameUpdate, ShipsConfirmed, YourShips; no GameStart yet.
    assert_eq!(r.direct.len(), 4);
    assert!(matches!(r.direct[2], ServerMessage::ShipsConfirmed { player_id: 2 }));
    assert!(matches!(r.direct[3], ServerMessage::YourShips { .. }));

    // The host has not placed: only confirmation and snapshot.
    let r = game.handle_join(1, "p1".to_string(), Some(true), 4);
    assert_eq!(r.direct.len(), 2);
}

#[test]
fn test_tick_snapshot_fields() {
    let mut game = playing_game();
    game.game_started_at = Some(100);
    game.player1.heat = 3;
    let snap = game.tick_snapshot(1, 400).unwrap();
    match snap {
        ServerMessage::GameUpdate {
            status,
            is_active,
            heat,
            is_locked,
            time_remaining_secs,
            vetoes_remaining,
            veto_time_remaining_secs,
        } => {
            assert_eq!(status, UpdateStatus::Phase(GameStatus::Playing));
            assert!(is_active);
            assert_eq!(heat, 3);
            assert!(!is_locked);
            assert_eq!(time_remaining_secs, 2700 - 300);
            assert_eq!(vetoes_remaining, 3);
            assert_eq!(veto_time_remaining_secs, None);
        },
        other => panic!("expected GameUpdate, got {:?}", other),
    }
    assert!(game.tick_snapshot(42, 400).is_none(), "strangers get no snapshot");
}
