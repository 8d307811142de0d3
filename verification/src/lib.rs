//! A verified session engine for two-player grid-combat matches whose weapon
//! lockouts are cleared by solving competitive-programming problems.
//!
//! The crate models the full server core: a registry of live sessions, the
//! per-session phase state machine (waiting, placing ships, playing, sudden
//! death, finished), combat resolution on a 10x10 grid, the heat/lockout/veto
//! mechanism, and the once-per-second background sweep that expires timers
//! and garbage-collects dead sessions.
//!
//! All time is passed in as seconds on a monotone clock, all identifiers as
//! plain 128-bit integers; the surrounding process supplies both, performs
//! the socket and HTTP I/O, and holds the registry behind its lock. Every
//! state transition and every protocol decision is made here, under contract.

pub mod config;
pub mod grid;
pub mod ids;
pub mod judge;
pub mod player;
pub mod protocol;
pub mod registry;
pub mod session;
