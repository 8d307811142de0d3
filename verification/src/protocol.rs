//! The socket protocol: one closed sum type per direction, plus the small
//! payload types they carry. All fields are plain values; the transport
//! layer outside this crate does the framing and the JSON.

use vstd::prelude::*;

use crate::grid::CellState;
use crate::session::GameStatus;

verus! {

/// Requested position for one ship of the fleet.
#[derive(Clone, Copy, Debug, PartialEq, Eq, Structural)]
pub struct ShipPlacement {
    pub x: usize,
    pub y: usize,
    pub size: u8,
    pub vertical: bool,
}

/// Messages a client may send over its session socket.
#[derive(Clone, Debug)]
pub enum ClientMessage {
    JoinGame { player_id: u128, cf_handle: String },
    PlaceShips { ships: Vec<ShipPlacement> },
    Fire { x: usize, y: usize },
    SolveCP { contest_id: i32, problem_index: String },
    Veto,
}

/// The error taxonomy. Every failed request is answered with exactly one of
/// these; none of them ever terminates the session.
#[derive(Clone, Copy, Debug, PartialEq, Eq, Structural)]
pub enum ErrorKind {
    /// Session or player absent.
    NotFound,
    /// Action illegal for the current phase.
    InvalidState,
    /// Malformed fleet or out-of-bounds shot.
    ValidationFailed,
    /// Solve-check attempted before the cooldown elapsed.
    RateLimited,
    /// Fire attempted while weapons are locked and no timer has expired.
    Locked,
    /// The external verification collaborator could not be reached.
    ExternalUnavailable,
}

/// Why a player's weapons were unlocked.
#[derive(Clone, Copy, Debug, PartialEq, Eq, Structural)]
pub enum UnlockReason {
    Solved,
    VetoExpired,
}

/// Why a match ended.
#[derive(Clone, Copy, Debug, PartialEq, Eq, Structural)]
pub enum GameOverReason {
    AllShipsSunk,
    Timeout,
    SuddenDeathHit,
}

/// The headline carried by a `GameUpdate`.
#[derive(Clone, Copy, Debug, PartialEq, Eq, Structural)]
pub enum UpdateStatus {
    Phase(GameStatus),
    ShipsPlaced,
    PlacementComplete,
    WeaponsUnlocked,
    VetoActive,
    SuddenDeathStart,
}

/// Messages the server sends to clients.
#[derive(Clone, Debug)]
pub enum ServerMessage {
    GameJoined {
        game_id: u128,
        player_id: u128,
        difficulty: u32,
        max_heat: u32,
        max_vetoes: u32,
    },
    PlayerJoined { player_id: u128 },
    ShipsConfirmed { player_id: u128 },
    GameStart,
    GameUpdate {
        status: UpdateStatus,
        is_active: bool,
        heat: u32,
        is_locked: bool,
        time_remaining_secs: u64,
        vetoes_remaining: u32,
        veto_time_remaining_secs: Option<u64>,
    },
    ShotResult { x: usize, y: usize, hit: bool, sunk: bool, shooter_id: u128 },
    WeaponsLocked { player_id: u128 },
    WeaponsUnlocked { player_id: u128, reason: UnlockReason },
    GameOver {
        winner_id: Option<u128>,
        reason: GameOverReason,
        your_shots_hit: u32,
        your_shots_missed: u32,
        your_ships_sunk: u32,
        your_problems_solved: u32,
    },
    Error { kind: ErrorKind },
    YourShips { ships: Vec<ShipPlacement> },
    GridSync { my_grid: Vec<Vec<CellState>>, enemy_grid: Vec<Vec<CellState>> },
}

/// One event on a session's fanout channel: either the periodic tick that
/// makes every subscriber push a personalized snapshot, or a pre-built
/// message relayed verbatim to every subscriber.
#[derive(Clone, Debug)]
pub enum GameEvent {
    Tick,
    Message(ServerMessage),
}

/// What one handled request produces: messages for the requesting
/// connection only, and messages for the session's fanout channel.
#[derive(Clone, Debug)]
pub struct Reply {
    pub direct: Vec<ServerMessage>,
    pub broadcast: Vec<ServerMessage>,
}

impl Reply {
    /// A reply that answers the requester with a single protocol error and
    /// broadcasts nothing.
    pub fn error(kind: ErrorKind) -> (r: Reply)
        ensures
            r.direct@.len() == 1,
            r.direct@[0] == (ServerMessage::Error { kind }),
            r.broadcast@.len() == 0,
    {
        let mut direct: Vec<ServerMessage> = Vec::new();
        direct.push(ServerMessage::Error { kind });
        Reply { direct, broadcast: Vec::new() }
    }
}

} // verus!
