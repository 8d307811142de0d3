use backend::config::GameConfig;
use backend::grid::{CellState, Grid, ShotOutcome};
use backend::player::{Player, Ship};
use backend::protocol::ErrorKind;
use backend::session::{Game, TiebreakResult};

fn create_ships() -> Vec<Ship> {
    vec![
        Ship { size: 5, hits: 0, sunk: false, x: 0, y: 0, vertical: false },
        Ship { size: 4, hits: 0, sunk: false, x: 0, y: 1, vertical: false },
        Ship { size: 3, hits: 0, sunk: false, x: 0, y: 2, vertical: false },
    ]
}

#[test]
fn test_determine_winner() {
    let p1_id: u128 = 1;
    let p2_id: u128 = 2;
    let config = GameConfig::default();
    let mut game = Game::new(p1_id, "p1".to_string(), config, 0);
    game.join(p2_id, "p2".to_string()).unwrap();

    // Add ships to both players
    game.player1.ships = create_ships();
    game.player2.as_mut().unwrap().ships = create_ships();

    // Case 1: P1 has more ships remaining (fewer sunk)
    game.player1.ships[0].sunk = false; // 3 remaining
    game.player2.as_mut().unwrap().ships[0].sunk = true; // 2 remaining
    assert_eq!(game.determine_winner(), TiebreakResult::Player1Wins);

    // Case 2: Ships equal, P2 has more hits
    game.player1.ships[0].sunk = true; // Both have 2 remaining
    game.player2.as_mut().unwrap().ships[0].sunk = true;
    game.player1.stats.cells_hit = 5;
    game.player2.as_mut().unwrap().stats.cells_hit = 10;
    assert_eq!(game.determine_winner(), TiebreakResult::Player2Wins);

    // Case 3: Ships and hits equal, P1 solved more problems
    game.player1.stats.cells_hit = 10;
    game.player2.as_mut().unwrap().stats.cells_hit = 10;
    game.player1.stats.problems_solved = 1;
    game.player2.as_mut().unwrap().stats.problems_solved = 0;
    assert_eq!(game.determine_winner(), TiebreakResult::Player1Wins);

    // Case 4: Complete Tie -> Sudden Death
    game.player1.stats.problems_solved = 0;
    game.player2.as_mut().unwrap().stats.problems_solved = 0;
    assert_eq!(game.determine_winner(), TiebreakResult::SuddenDeath);
}

#[test]
fn test_determine_winner_missing_second_player_forfeits() {
    let game = Game::new(7, "host".to_string(), GameConfig::default(), 0);
    assert_eq!(game.determine_winner(), TiebreakResult::Player1Wins);
}

#[test]
fn test_heat_accumulation_and_lock() {
    let config = GameConfig::default();
    let mut shooter = Player::new(1, "player1".to_string());
    let mut opponent = Player::new(2, "opponent".to_string());

    assert_eq!(shooter.heat, 0, "Initial heat should be 0");
    assert!(!shooter.is_locked, "Should not be locked initially");

    for i in 0..6usize {
        let result = shooter.fire(
            &mut opponent,
            i % 10,
            0,
            config.heat_threshold,
            &config.veto_penalties,
            0,
        );
        assert!(result.is_ok(), "Shot {} should succeed", i);
    }
    assert_eq!(shooter.heat, 6, "Heat should be 6 after 6 shots");
    assert!(!shooter.is_locked, "Should NOT be locked at heat 6");

    let result = shooter.fire(&mut opponent, 6, 0, config.heat_threshold, &config.veto_penalties, 0);
    assert!(result.is_ok(), "7th shot should succeed");
    assert_eq!(shooter.heat, 7, "Heat should be 7 after 7 shots");
    assert!(shooter.is_locked, "Should BE locked at heat 7");

    let result = shooter.fire(&mut opponent, 7, 0, config.heat_threshold, &config.veto_penalties, 0);
    assert!(result.is_err(), "Shot should fail when locked");

    shooter.unlock_weapons();
    assert_eq!(shooter.heat, 0, "Heat should reset to 0 after unlock");
    assert!(!shooter.is_locked, "Should be unlocked after unlock_weapons");

    let result = shooter.fire(&mut opponent, 8, 0, config.heat_threshold, &config.veto_penalties, 0);
    assert!(result.is_ok(), "Should be able to fire after unlock");
}

#[test]
fn test_heat_unchanged_on_repeated_cell() {
    let config = GameConfig::default();
    let mut shooter = Player::new(1, "a".to_string());
    let mut opponent = Player::new(2, "b".to_string());

    let (outcome, _) = shooter
        .fire(&mut opponent, 3, 3, config.heat_threshold, &config.veto_penalties, 0)
        .unwrap();
    assert_eq!(outcome, ShotOutcome::Miss);
    assert_eq!(shooter.heat, 1);
    assert_eq!(shooter.stats.cells_missed, 1);

    // Same cell again: already fired, no heat, no stat change.
    let (outcome, sunk) = shooter
        .fire(&mut opponent, 3, 3, config.heat_threshold, &config.veto_penalties, 0)
        .unwrap();
    assert_eq!(outcome, ShotOutcome::AlreadyFired);
    assert!(!sunk);
    assert_eq!(shooter.heat, 1);
    assert_eq!(shooter.stats.cells_missed, 1);
}

#[test]
fn test_fire_while_locked_fails_with_locked() {
    let config = GameConfig::default();
    let mut shooter = Player::new(1, "a".to_string());
    let mut opponent = Player::new(2, "b".to_string());
    shooter.heat = 7;
    shooter.is_locked = true;

    let r = shooter.fire(&mut opponent, 0, 0, config.heat_threshold, &config.veto_penalties, 100);
    assert_eq!(r.unwrap_err(), ErrorKind::Locked);
}

#[test]
fn test_fire_out_of_bounds_rejected() {
    let config = GameConfig::default();
    let mut shooter = Player::new(1, "a".to_string());
    let mut opponent = Player::new(2, "b".to_string());

    let r = shooter.fire(&mut opponent, 10, 0, config.heat_threshold, &config.veto_penalties, 0);
    assert_eq!(r.unwrap_err(), ErrorKind::ValidationFailed);
    assert_eq!(shooter.heat, 0);
}

#[test]
fn test_expired_veto_clears_lock_within_fire() {
    let config = GameConfig::default();
    let mut shooter = Player::new(1, "a".to_string());
    let mut opponent = Player::new(2, "b".to_string());
    shooter.heat = 7;
    shooter.is_locked = true;
    shooter.vetoes_used = 1;
    shooter.veto_started_at = Some(1000);

    // First penalty entry is 420s: at 1419s it still runs, at 1420s it is over.
    let r = shooter.fire(&mut opponent, 0, 0, config.heat_threshold, &config.veto_penalties, 1419);
    assert_eq!(r.unwrap_err(), ErrorKind::Locked);

    let r = shooter.fire(&mut opponent, 0, 0, config.heat_threshold, &config.veto_penalties, 1420);
    assert!(r.is_ok(), "expired veto must unlock within the same operation");
    assert_eq!(shooter.heat, 1, "heat restarts after the lazy unlock plus one shot");
    assert!(!shooter.is_locked);
    assert_eq!(shooter.veto_started_at, None);
}

#[test]
fn test_hit_sinks_ship_and_credits_shooter() {
    let config = GameConfig::default();
    let mut shooter = Player::new(1, "a".to_string());
    let mut opponent = Player::new(2, "b".to_string());
    opponent
        .place_ship(Ship { size: 2, hits: 0, sunk: false, x: 0, y: 0, vertical: false }, 4, 4, false)
        .unwrap();
    assert_eq!(opponent.grid.at(4, 4), CellState::Ship);
    assert_eq!(opponent.grid.at(5, 4), CellState::Ship);

    let (outcome, sunk) = shooter
        .fire(&mut opponent, 4, 4, config.heat_threshold, &config.veto_penalties, 0)
        .unwrap();
    assert_eq!(outcome, ShotOutcome::Hit);
    assert!(!sunk);
    assert_eq!(shooter.stats.cells_hit, 1);
    assert_eq!(shooter.stats.ships_sunk, 0);

    let (outcome, sunk) = shooter
        .fire(&mut opponent, 5, 4, config.heat_threshold, &config.veto_penalties, 0)
        .unwrap();
    assert_eq!(outcome, ShotOutcome::Hit);
    assert!(sunk, "second hit on a size-2 ship sinks it");
    assert_eq!(shooter.stats.ships_sunk, 1);
    assert!(opponent.ships[0].sunk);
}

#[test]
fn test_unlock_weapons_unconditional() {
    let mut p = Player::new(1, "a".to_string());
    p.heat = 19;
    p.is_locked = true;
    p.unlock_weapons();
    assert_eq!(p.heat, 0);
    assert!(!p.is_locked);

    // Already unlocked: still exactly 0 and false.
    p.unlock_weapons();
    assert_eq!(p.heat, 0);
    assert!(!p.is_locked);
}

#[test]
fn test_grid_shots() {
    let mut g = Grid::new();
    assert_eq!(g.receive_shot(12, 0), ShotOutcome::OutOfBounds);
    assert_eq!(g.receive_shot(3, 7), ShotOutcome::Miss);
    assert_eq!(g.receive_shot(3, 7), ShotOutcome::AlreadyFired);
    g.cells[2 * 10 + 9] = CellState::Ship;
    assert_eq!(g.receive_shot(9, 2), ShotOutcome::Hit);
    assert_eq!(g.receive_shot(9, 2), ShotOutcome::AlreadyFired);
    assert_eq!(g.count(CellState::Miss), 1);
    assert_eq!(g.count(CellState::Hit), 1);
    assert_eq!(g.count(CellState::Ship), 0);
}

#[test]
fn test_grid_rows_masking() {
    let mut g = Grid::new();
    g.cells[0] = CellState::Ship;
    g.cells[1] = CellState::Hit;
    g.cells[2] = CellState::Miss;
    let own = g.rows(false);
    assert_eq!(own.len(), 10);
    assert_eq!(own[0][0], CellState::Ship);
    assert_eq!(own[0][1], CellState::Hit);
    assert_eq!(own[0][2], CellState::Miss);
    let masked = g.rows(true);
    assert_eq!(masked[0][0], CellState::Empty, "intact ship cells are hidden");
    assert_eq!(masked[0][1], CellState::Hit);
    assert_eq!(masked[0][2], CellState::Miss);
    assert_eq!(masked[0][3], CellState::Empty);
}
