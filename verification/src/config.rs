//! Per-session configuration: tunables, their server-side clamping, the veto
//! penalty table, and the small time helpers shared by all timer checks.

use vstd::prelude::*;

verus! {

/// Immutable configuration of one session.
#[derive(Clone, Copy, Debug)]
pub struct GameConfig {
    /// Problem rating requested from the verification collaborator.
    pub difficulty: u32,
    /// Heat value at which weapons lock.
    pub heat_threshold: u32,
    /// Veto penalty durations in seconds, indexed by vetoes already used.
    pub veto_penalties: [u64; 3],
    /// Vetoes each player may use over the whole match.
    pub max_vetoes: u32,
    /// Match duration in seconds.
    pub game_duration_secs: u64,
}

/// The configurations the engine works with: a lock threshold of zero would
/// make "unlocked" an unreachable state.
pub open spec fn config_wf(c: GameConfig) -> bool {
    c.heat_threshold >= 1
}

impl Default for GameConfig {
    /// The default used when a creation request leaves everything open.
    fn default() -> (c: Self)
        ensures
            c.difficulty == 800,
            c.heat_threshold == 7,
            c.veto_penalties@ == seq![420u64, 600u64, 900u64],
            c.max_vetoes == 3,
            c.game_duration_secs == 2700,
            config_wf(c),
    {
        GameConfig {
            difficulty: 800,
            heat_threshold: 7,
            veto_penalties: [420u64, 600u64, 900u64],
            max_vetoes: 3,
            game_duration_secs: 2700,
        }
    }
}

/// Seconds elapsed from `start` to `now` on a monotone clock; a `start` in
/// the future counts as no time elapsed.
pub open spec fn spec_elapsed(now: u64, start: u64) -> u64 {
    now.saturating_sub(start)
}

/// The penalty duration at position `idx` of the table, clamped to the last
/// entry for any further veto.
pub open spec fn spec_penalty(p: [u64; 3], idx: u32) -> u64 {
    if idx >= 2 {
        p@[2]
    } else {
        p@[idx as int]
    }
}

/// Look up the veto penalty table, clamping past its end.
pub fn penalty(p: &[u64; 3], idx: u32) -> (d: u64)
    ensures
        d == spec_penalty(*p, idx),
{
    if idx >= 2 {
        p[2]
    } else {
        p[idx as usize]
    }
}

/// `v` clamped into `[lo, hi]` (callers keep `lo <= hi`).
pub open spec fn spec_clamp_u32(v: u32, lo: u32, hi: u32) -> u32 {
    if v < lo {
        lo
    } else if v > hi {
        hi
    } else {
        v
    }
}

/// Clamp a tunable into its safe range.
pub fn clamp_u32(v: u32, lo: u32, hi: u32) -> (r: u32)
    requires
        lo <= hi,
    ensures
        r == spec_clamp_u32(v, lo, hi),
{
    if v < lo {
        lo
    } else if v > hi {
        hi
    } else {
        v
    }
}

/// How harsh the veto penalties are; selects one fixed three-entry table.
#[derive(Clone, Copy, Debug, PartialEq, Eq, Structural)]
pub enum VetoStrictness {
    Low,
    Medium,
    High,
}

/// The penalty table for a requested strictness; `Medium` is the default.
pub open spec fn spec_penalties_for(s: Option<VetoStrictness>) -> Seq<u64> {
    match s {
        Some(VetoStrictness::Low) => seq![300u64, 420u64, 600u64],
        Some(VetoStrictness::High) => seq![600u64, 900u64, 1200u64],
        _ => seq![420u64, 600u64, 900u64],
    }
}

/// A match-creation request, already decoded: the requesting player's
/// external handle and the optional tunables.
#[derive(Clone, Debug)]
pub struct CreateGameRequest {
    pub cf_handle: String,
    pub difficulty: Option<u32>,
    pub heat_threshold: Option<u32>,
    pub game_duration_mins: Option<u32>,
    pub veto_strictness: Option<VetoStrictness>,
}

/// The match duration in seconds for a requested duration in minutes:
/// minutes clamped to [1, 120], converted, then clamped to [300, 7200].
pub open spec fn spec_duration_secs(mins: Option<u32>) -> u64 {
    match mins {
        Some(m) => {
            let s = spec_clamp_u32(m, 1, 120) as int * 60;
            if s < 300 {
                300u64
            } else {
                s as u64
            }
        },
        None => 2700,
    }
}

/// Build a session configuration from a creation request, clamping every
/// numeric input into its safe range.
pub fn build_config(req: &CreateGameRequest) -> (c: GameConfig)
    ensures
        c.difficulty == spec_clamp_u32(
            match req.difficulty {
                Some(d) => d,
                None => 800,
            },
            800,
            3500,
        ),
        c.heat_threshold == spec_clamp_u32(
            match req.heat_threshold {
                Some(t) => t,
                None => 7,
            },
            3,
            20,
        ),
        c.veto_penalties@ == spec_penalties_for(req.veto_strictness),
        c.max_vetoes == 3,
        c.game_duration_secs == spec_duration_secs(req.game_duration_mins),
        config_wf(c),
{
    let difficulty = clamp_u32(
        match req.difficulty {
            Some(d) => d,
            None => 800,
        },
        800,
        3500,
    );
    let heat_threshold = clamp_u32(
        match req.heat_threshold {
            Some(t) => t,
            None => 7,
        },
        3,
        20,
    );
    let veto_penalties: [u64; 3] = match req.veto_strictness {
        Some(VetoStrictness::Low) => [300u64, 420u64, 600u64],
        Some(VetoStrictness::High) => [600u64, 900u64, 1200u64],
        _ => [420u64, 600u64, 900u64],
    };
    let game_duration_secs: u64 = match req.game_duration_mins {
        Some(m) => {
            let s = (clamp_u32(m, 1, 120) as u64) * 60;
            if s < 300 {
                300
            } else {
                s
            }
        },
        None => 2700,
    };
    GameConfig { difficulty, heat_threshold, veto_penalties, max_vetoes: 3, game_duration_secs }
}

} // verus!
