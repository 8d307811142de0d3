//! The per-session state machine: phases, the two players, timers, and the
//! handling of every inbound protocol message.

use vstd::prelude::*;

use crate::config::{GameConfig, config_wf, spec_elapsed, spec_penalty, penalty};
use crate::grid::{CellState, ShotOutcome, count_cells, mask_cell};
use crate::ids::fresh_id;
use crate::player::{
    Player, PlayerStats, Ship, fire_post, player_wf, fresh_player, spec_unlocked, veto_expired,
};
use crate::protocol::{
    ErrorKind, GameEvent, GameOverReason, Reply, ServerMessage, ShipPlacement, UnlockReason,
    UpdateStatus,
};

verus! {

/// The phase a session is in.
#[derive(Clone, Copy, Debug, PartialEq, Eq, Structural)]
pub enum GameStatus {
    /// Waiting for the second player to join.
    Waiting,
    /// Both players joined, placing their fleets.
    PlacingShips,
    /// Combat phase.
    Playing,
    /// Tiebreaker overtime: the first confirmed hit wins.
    SuddenDeath,
    /// Terminal.
    Finished,
}

/// Result of the tie-break comparison at duration timeout.
#[derive(Clone, Copy, Debug, PartialEq, Eq, Structural)]
pub enum TiebreakResult {
    Player1Wins,
    Player2Wins,
    SuddenDeath,
}

/// One session: two players, a phase, its configuration and its clocks.
#[derive(Clone, Debug)]
pub struct Game {
    pub id: u128,
    pub player1: Player,
    /// Absent until a second player has joined.
    pub player2: Option<Player>,
    pub status: GameStatus,
    pub config: GameConfig,
    /// When the session was created (for stale-lobby cleanup).
    pub created_at: u64,
    /// Set on the transition to `Playing`.
    pub game_started_at: Option<u64>,
    /// Set on the transition to `Finished` (for finished-session cleanup).
    pub finished_at: Option<u64>,
}

/// Number of ships in `ships` that are still afloat.
pub open spec fn surviving_ships(ships: Seq<Ship>) -> nat
    decreases ships.len(),
{
    if ships.len() == 0 {
        0
    } else {
        surviving_ships(ships.drop_last()) + if ships.last().sunk {
            0nat
        } else {
            1nat
        }
    }
}

/// The strict lexicographic tie-break over (surviving ships, cells hit,
/// problems solved), each descending; total equality goes to sudden death.
pub open spec fn spec_tiebreak(p1: Player, p2: Player) -> TiebreakResult {
    if surviving_ships(p1.ships@) > surviving_ships(p2.ships@) {
        TiebreakResult::Player1Wins
    } else if surviving_ships(p2.ships@) > surviving_ships(p1.ships@) {
        TiebreakResult::Player2Wins
    } else if p1.stats.cells_hit > p2.stats.cells_hit {
        TiebreakResult::Player1Wins
    } else if p2.stats.cells_hit > p1.stats.cells_hit {
        TiebreakResult::Player2Wins
    } else if p1.stats.problems_solved > p2.stats.problems_solved {
        TiebreakResult::Player1Wins
    } else if p2.stats.problems_solved > p1.stats.problems_solved {
        TiebreakResult::Player2Wins
    } else {
        TiebreakResult::SuddenDeath
    }
}

impl Game {
    /// The session invariant every operation preserves.
    pub open spec fn wf(self) -> bool {
        &&& config_wf(self.config)
        &&& player_wf(self.player1, self.config.heat_threshold)
        &&& match self.player2 {
            Some(p) => player_wf(p, self.config.heat_threshold),
            None => true,
        }
        &&& (self.status != GameStatus::Waiting ==> self.player2 is Some)
        &&& ((self.status == GameStatus::Playing || self.status == GameStatus::SuddenDeath)
            ==> self.game_started_at is Some)
        &&& (self.finished_at is Some <==> self.status == GameStatus::Finished)
    }

    /// Whether `pid` is the first player.
    pub open spec fn is_p1(self, pid: u128) -> bool {
        self.player1.id == pid
    }

    /// Whether `pid` is the (joined) second player.
    pub open spec fn is_p2(self, pid: u128) -> bool {
        match self.player2 {
            Some(p) => p.id == pid,
            None => false,
        }
    }

    /// Whether `pid` is bound to this session.
    pub open spec fn is_member(self, pid: u128) -> bool {
        self.is_p1(pid) || self.is_p2(pid)
    }

    /// The member player `pid` (the first player if `pid` is not a member).
    pub open spec fn spec_player(self, pid: u128) -> Player {
        if self.is_p1(pid) {
            self.player1
        } else {
            self.player2->Some_0
        }
    }

    /// The opponent of member `pid`.
    pub open spec fn spec_opponent(self, pid: u128) -> Player {
        if self.is_p1(pid) {
            self.player2->Some_0
        } else {
            self.player1
        }
    }

    /// `self` with the state of member `pid` replaced by `p`.
    pub open spec fn with_player(self, pid: u128, p: Player) -> Game {
        if self.is_p1(pid) {
            Game { player1: p, ..self }
        } else {
            Game { player2: Some(p), ..self }
        }
    }

    /// Vetoes player `p` still has.
    pub open spec fn vetoes_remaining(self, p: Player) -> u32 {
        self.config.max_vetoes.saturating_sub(p.vetoes_used)
    }

    /// Match clock remaining at `now` (the full duration before the match
    /// has started).
    pub open spec fn time_remaining(self, now: u64) -> u64 {
        self.config.game_duration_secs.saturating_sub(
            match self.game_started_at {
                Some(st) => spec_elapsed(now, st),
                None => 0,
            },
        )
    }

    /// Seconds left on `p`'s running veto penalty, if one is running.
    pub open spec fn veto_time_remaining(self, p: Player, now: u64) -> Option<u64> {
        match p.veto_started_at {
            Some(st) => {
                let d = spec_penalty(self.config.veto_penalties, p.vetoes_used.saturating_sub(1));
                let e = spec_elapsed(now, st);
                if e < d {
                    Some((d - e) as u64)
                } else {
                    None
                }
            },
            None => None,
        }
    }

    /// The personalized state snapshot pushed to `p` on every tick and on
    /// reconnection.
    pub open spec fn snapshot_update(self, p: Player, now: u64) -> ServerMessage {
        ServerMessage::GameUpdate {
            status: UpdateStatus::Phase(self.status),
            is_active: true,
            heat: p.heat,
            is_locked: p.is_locked,
            time_remaining_secs: self.time_remaining(now),
            vetoes_remaining: self.vetoes_remaining(p),
            veto_time_remaining_secs: self.veto_time_remaining(p, now),
        }
    }

    /// A new session: the creating player waits alone, the clock starts for
    /// lobby cleanup. The session identifier is freshly generated.
    pub fn new(player1_id: u128, player1_handle: String, config: GameConfig, now: u64) -> (g: Game)
        requires
            config_wf(config),
        ensures
            g.wf(),
            fresh_player(g.player1, player1_id, player1_handle@),
            g.player2 is None,
            g.status == GameStatus::Waiting,
            g.config == config,
            g.created_at == now,
            g.game_started_at is None,
            g.finished_at is None,
    {
        Game {
            id: fresh_id(),
            player1: Player::new(player1_id, player1_handle),
            player2: None,
            status: GameStatus::Waiting,
            config,
            created_at: now,
            game_started_at: None,
            finished_at: None,
        }
    }

    /// Let a second player join. Rejected when the seat is taken or the
    /// joining identity is the host itself; the phase is left to the caller.
    pub fn join(&mut self, player2_id: u128, player2_handle: String) -> (r: Result<(), ErrorKind>)
        ensures
            player2_id == old(self).player1.id ==> r == Result::<(), ErrorKind>::Err(
                ErrorKind::ValidationFailed,
            ) && *final(self) == *old(self),
            player2_id != old(self).player1.id && old(self).player2 is Some ==> r == Result::<
                (),
                ErrorKind,
            >::Err(ErrorKind::InvalidState) && *final(self) == *old(self),
            player2_id != old(self).player1.id && old(self).player2 is None ==> r == Result::<
                (),
                ErrorKind,
            >::Ok(()) && final(self).player2 is Some && fresh_player(
                final(self).player2->Some_0,
                player2_id,
                player2_handle@,
            ) && *final(self) == (Game { player2: final(self).player2, ..*old(self) }),
    {
        if player2_id == self.player1.id {
            return Err(ErrorKind::ValidationFailed);
        }
        if self.player2.is_some() {
            return Err(ErrorKind::InvalidState);
        }
        self.player2 = Some(Player::new(player2_id, player2_handle));
        Ok(())
    }

    /// The tie-break outcome between the two players; a missing second
    /// player forfeits.
    pub fn determine_winner(&self) -> (r: TiebreakResult)
        ensures
            r == match self.player2 {
                Some(p2) => spec_tiebreak(self.player1, p2),
                None => TiebreakResult::Player1Wins,
            },
    {
        let p2 = match &self.player2 {
            Some(p) => p,
            None => {
                return TiebreakResult::Player1Wins;
            },
        };
        let s1 = count_surviving(&self.player1.ships);
        let s2 = count_surviving(&p2.ships);
        if s1 > s2 {
            return TiebreakResult::Player1Wins;
        }
        if s2 > s1 {
            return TiebreakResult::Player2Wins;
        }
        if self.player1.stats.cells_hit > p2.stats.cells_hit {
            return TiebreakResult::Player1Wins;
        }
        if p2.stats.cells_hit > self.player1.stats.cells_hit {
            return TiebreakResult::Player2Wins;
        }
        if self.player1.stats.problems_solved > p2.stats.problems_solved {
            return TiebreakResult::Player1Wins;
        }
        if p2.stats.problems_solved > self.player1.stats.problems_solved {
            return TiebreakResult::Player2Wins;
        }
        TiebreakResult::SuddenDeath
    }
}

/// `r` answers the requester with the single protocol error `kind`.
pub open spec fn error_reply(r: Reply, kind: ErrorKind) -> bool {
    &&& r.direct@.len() == 1
    &&& r.direct@[0] == (ServerMessage::Error { kind })
    &&& r.broadcast@.len() == 0
}

/// The `GameJoined` confirmation for `pid` on session `g`.
pub open spec fn joined_msg(g: Game, pid: u128) -> ServerMessage {
    ServerMessage::GameJoined {
        game_id: g.id,
        player_id: pid,
        difficulty: g.config.difficulty,
        max_heat: g.config.heat_threshold,
        max_vetoes: g.config.max_vetoes,
    }
}

/// The wire form of one placed ship.
pub open spec fn placement_of(s: Ship) -> ShipPlacement {
    ShipPlacement { x: s.x, y: s.y, size: s.size, vertical: s.vertical }
}

/// `m` re-delivers exactly the fleet `ships`.
pub open spec fn is_your_ships(m: ServerMessage, ships: Seq<Ship>) -> bool {
    &&& m matches ServerMessage::YourShips { ships: sp }
    &&& sp@.len() == ships.len()
    &&& forall|i: int| 0 <= i < ships.len() ==> sp@[i] == placement_of(#[trigger] ships[i])
}

/// `rows` is grid `g` as ten rows of ten cells, masked if `mask`.
pub open spec fn rows_of(rows: Seq<Vec<CellState>>, g: crate::grid::Grid, mask: bool) -> bool {
    &&& rows.len() == 10
    &&& forall|i: int| 0 <= i < 10 ==> (#[trigger] rows[i])@.len() == 10
    &&& forall|i: int, j: int|
        0 <= i < 10 && 0 <= j < 10 ==> #[trigger] rows[i]@[j] == if mask {
            mask_cell(g.spec_at(j, i))
        } else {
            g.spec_at(j, i)
        }
}

/// `m` resynchronizes both grids: the player's own fully, the enemy's with
/// intact ship cells masked.
pub open spec fn is_grid_sync(m: ServerMessage, own: crate::grid::Grid, enemy: crate::grid::Grid) -> bool {
    &&& m matches ServerMessage::GridSync { my_grid, enemy_grid }
    &&& rows_of(my_grid@, own, false)
    &&& rows_of(enemy_grid@, enemy, true)
}

/// The `GameOver` announcement carrying the winner's statistics.
pub open spec fn game_over_msg(winner: u128, reason: GameOverReason, stats: PlayerStats) -> ServerMessage {
    ServerMessage::GameOver {
        winner_id: Some(winner),
        reason,
        your_shots_hit: stats.cells_hit,
        your_shots_missed: stats.cells_missed,
        your_ships_sunk: stats.ships_sunk,
        your_problems_solved: stats.problems_solved,
    }
}

/// The full resynchronization a recognized identity receives on rejoining:
/// confirmation, snapshot, and (as far as the session has progressed) its
/// fleet and both grids. Nothing is broadcast and nothing is mutated.
pub open spec fn resync_reply(g: Game, pid: u128, now: u64, r: Reply) -> bool {
    let p = g.spec_player(pid);
    let placed_n: int = if p.ships_placed {
        if p.ships@.len() > 0 {
            2int
        } else {
            1int
        }
    } else {
        0int
    };
    let started = g.status == GameStatus::Playing || g.status == GameStatus::SuddenDeath;
    &&& r.broadcast@.len() == 0
    &&& r.direct@.len() == 2 + placed_n + if started {
        2int
    } else {
        0int
    }
    &&& r.direct@[0] == joined_msg(g, pid)
    &&& r.direct@[1] == g.snapshot_update(p, now)
    &&& (p.ships_placed ==> r.direct@[2] == (ServerMessage::ShipsConfirmed { player_id: pid }))
    &&& ((p.ships_placed && p.ships@.len() > 0) ==> is_your_ships(r.direct@[3], p.ships@))
    &&& (started ==> r.direct@[2 + placed_n] == ServerMessage::GameStart)
    &&& (started ==> is_grid_sync(r.direct@[3 + placed_n], p.grid, g.spec_opponent(pid).grid))
}

/// Everything `handle_join` promises: a terminal session rejects, a known
/// identity is resynchronized without mutation, a full session rejects, and
/// a second player joins only with a positively verified handle (fail
/// closed), advancing the phase to ship placement.
pub open spec fn join_post(
    pre: Game,
    post: Game,
    pid: u128,
    handle: Seq<char>,
    handle_exists: Option<bool>,
    now: u64,
    r: Reply,
) -> bool {
    if pre.status == GameStatus::Finished {
        post == pre && error_reply(r, ErrorKind::InvalidState)
    } else if pre.is_member(pid) {
        post == pre && resync_reply(pre, pid, now, r)
    } else if pre.player2 is Some {
        post == pre && error_reply(r, ErrorKind::InvalidState)
    } else {
        match handle_exists {
            None => post == pre && error_reply(r, ErrorKind::ExternalUnavailable),
            Some(false) => post == pre && error_reply(r, ErrorKind::ValidationFailed),
            Some(true) => {
                &&& post.player2 is Some
                &&& fresh_player(post.player2->Some_0, pid, handle)
                &&& post == (Game {
                    player2: post.player2,
                    status: GameStatus::PlacingShips,
                    ..pre
                })
                &&& r.broadcast@ == seq![ServerMessage::PlayerJoined { player_id: pid }]
                &&& r.direct@.len() == 2
                &&& r.direct@[0] == joined_msg(pre, pid)
                &&& r.direct@[1] == (ServerMessage::PlayerJoined { player_id: pre.player1.id })
            },
        }
    }
}

impl Game {
    /// Whether `pid` is bound to this session.
    pub fn member(&self, pid: u128) -> (b: bool)
        ensures
            b == self.is_member(pid),
    {
        if self.player1.id == pid {
            true
        } else {
            match &self.player2 {
                Some(p) => p.id == pid,
                None => false,
            }
        }
    }

    /// The state of member `pid`.
    pub fn player_ref(&self, pid: u128) -> (p: &Player)
        requires
            self.is_member(pid),
        ensures
            *p == self.spec_player(pid),
    {
        if self.player1.id == pid {
            return &self.player1;
        }
        match &self.player2 {
            Some(p) => p,
            None => &self.player1,
        }
    }

    /// The state of member `pid`'s opponent.
    fn opponent_ref(&self, pid: u128) -> (p: &Player)
        requires
            self.is_member(pid),
            self.player2 is Some,
        ensures
            *p == self.spec_opponent(pid),
    {
        if self.player1.id == pid {
            match &self.player2 {
                Some(p) => p,
                None => &self.player1,
            }
        } else {
            &self.player1
        }
    }

    /// Build the personalized snapshot for player `p` at `now`.
    fn snapshot(&self, p: &Player, now: u64) -> (m: ServerMessage)
        ensures
            m == self.snapshot_update(*p, now),
    {
        let elapsed_secs: u64 = match self.game_started_at {
            Some(st) => now.saturating_sub(st),
            None => 0,
        };
        let remaining = self.config.game_duration_secs.saturating_sub(elapsed_secs);
        let veto_remaining: Option<u64> = match p.veto_started_at {
            Some(st) => {
                let d = penalty(&self.config.veto_penalties, p.vetoes_used.saturating_sub(1));
                let e = now.saturating_sub(st);
                if e < d {
                    Some(d - e)
                } else {
                    None
                }
            },
            None => None,
        };
        ServerMessage::GameUpdate {
            status: UpdateStatus::Phase(self.status),
            is_active: true,
            heat: p.heat,
            is_locked: p.is_locked,
            time_remaining_secs: remaining,
            vetoes_remaining: self.config.max_vetoes.saturating_sub(p.vetoes_used),
            veto_time_remaining_secs: veto_remaining,
        }
    }

    /// The state snapshot pushed to connection `pid` on a fanout tick;
    /// nothing for a connection that never identified itself.
    pub fn tick_snapshot(&self, pid: u128, now: u64) -> (r: Option<ServerMessage>)
        ensures
            r == if self.is_member(pid) {
                Some(self.snapshot_update(self.spec_player(pid), now))
            } else {
                None::<ServerMessage>
            },
    {
        if !self.member(pid) {
            return None;
        }
        let m = self.snapshot(self.player_ref(pid), now);
        Some(m)
    }

    /// Handle a `JoinGame` request from `pid`. `handle_exists` is what the
    /// external verification collaborator said of the handle just before
    /// this call, with the registry lock released (`None`: it could not be
    /// reached).
    pub fn handle_join(
        &mut self,
        pid: u128,
        cf_handle: String,
        handle_exists: Option<bool>,
        now: u64,
    ) -> (r: Reply)
        requires
            old(self).wf(),
        ensures
            final(self).wf(),
            join_post(*old(self), *final(self), pid, cf_handle@, handle_exists, now, r),
            final(self).id == old(self).id,
    {
        if self.status == GameStatus::Finished {
            return Reply::error(ErrorKind::InvalidState);
        }
        if self.member(pid) {
            // Reconnection: resynchronize, never mutate.
            let mut direct: Vec<ServerMessage> = Vec::new();
            direct.push(ServerMessage::GameJoined {
                game_id: self.id,
                player_id: pid,
                difficulty: self.config.difficulty,
                max_heat: self.config.heat_threshold,
                max_vetoes: self.config.max_vetoes,
            });
            let snap = self.snapshot(self.player_ref(pid), now);
            direct.push(snap);
            let p = self.player_ref(pid);
            if p.ships_placed {
                direct.push(ServerMessage::ShipsConfirmed { player_id: pid });
                if p.ships.len() > 0 {
                    let mut placements: Vec<ShipPlacement> = Vec::new();
                    let mut i: usize = 0;
                    while i < p.ships.len()
                        invariant
                            i <= p.ships@.len(),
                            placements@.len() == i as int,
                            forall|j: int|
                                0 <= j < i as int ==> placements@[j] == placement_of(
                                    #[trigger] p.ships@[j],
                                ),
                        decreases p.ships@.len() - i,
                    {
                        let s = p.ships[i];
                        placements.push(ShipPlacement {
                            x: s.x,
                            y: s.y,
                            size: s.size,
                            vertical: s.vertical,
                        });
                        i = i + 1;
                    }
                    direct.push(ServerMessage::YourShips { ships: placements });
                }
            }
            if self.status == GameStatus::Playing || self.status == GameStatus::SuddenDeath {
                direct.push(ServerMessage::GameStart);
                let my_grid = self.player_ref(pid).grid.rows(false);
                let enemy_grid = self.opponent_ref(pid).grid.rows(true);
                direct.push(ServerMessage::GridSync { my_grid, enemy_grid });
            }
            return Reply { direct, broadcast: Vec::new() };
        }
        if self.player2.is_some() {
            return Reply::error(ErrorKind::InvalidState);
        }
        match handle_exists {
            None => {
                // Fail closed: the collaborator could not be reached.
                return Reply::error(ErrorKind::ExternalUnavailable);
            },
            Some(false) => {
                return Reply::error(ErrorKind::ValidationFailed);
            },
            Some(true) => {},
        }
        let p1_id = self.player1.id;
        match self.join(pid, cf_handle) {
            Ok(()) => {},
            Err(e) => {
                return Reply::error(e);
            },
        }
        self.status = GameStatus::PlacingShips;
        let mut direct: Vec<ServerMessage> = Vec::new();
        direct.push(ServerMessage::GameJoined {
            game_id: self.id,
            player_id: pid,
            difficulty: self.config.difficulty,
            max_heat: self.config.heat_threshold,
            max_vetoes: self.config.max_vetoes,
        });
        direct.push(ServerMessage::PlayerJoined { player_id: p1_id });
        let mut broadcast: Vec<ServerMessage> = Vec::new();
        broadcast.push(ServerMessage::PlayerJoined { player_id: pid });
        proof {
            assert(broadcast@ =~= seq![ServerMessage::PlayerJoined { player_id: pid }]);
        }
        Reply { direct, broadcast }
    }

    /// Handle a `PlaceShips` request from `pid`.
    pub fn handle_place_ships(&mut self, pid: u128, ships: &Vec<ShipPlacement>, now: u64) -> (r:
        Reply)
        requires
            old(self).wf(),
        ensures
            final(self).wf(),
            place_post(*old(self), *final(self), pid, ships@, now, r),
            final(self).id == old(self).id,
    {
        if !self.member(pid) {
            return Reply::error(ErrorKind::NotFound);
        }
        if self.status == GameStatus::Playing || self.status == GameStatus::SuddenDeath
            || self.status == GameStatus::Finished {
            return Reply::error(ErrorKind::InvalidState);
        }
        if self.player_ref(pid).ships_placed {
            // Identical replay after success: just re-confirm.
            let p = self.player_ref(pid);
            let mut direct: Vec<ServerMessage> = Vec::new();
            direct.push(ServerMessage::ShipsConfirmed { player_id: pid });
            direct.push(ServerMessage::GameUpdate {
                status: UpdateStatus::ShipsPlaced,
                is_active: true,
                heat: p.heat,
                is_locked: p.is_locked,
                time_remaining_secs: self.config.game_duration_secs,
                vetoes_remaining: self.config.max_vetoes.saturating_sub(p.vetoes_used),
                veto_time_remaining_secs: None,
            });
            return Reply { direct, broadcast: Vec::new() };
        }
        let res = if self.player1.id == pid {
            self.player1.place_fleet(ships)
        } else {
            match self.player2 {
                Some(ref mut p) => p.place_fleet(ships),
                None => Err(ErrorKind::NotFound),
            }
        };
        match res {
            Err(_) => Reply::error(ErrorKind::ValidationFailed),
            Ok(()) => {
                let both = self.player1.ships_placed && (match &self.player2 {
                    Some(o) => o.ships_placed,
                    None => false,
                });
                let mut broadcast: Vec<ServerMessage> = Vec::new();
                broadcast.push(ServerMessage::ShipsConfirmed { player_id: pid });
                if both {
                    self.status = GameStatus::Playing;
                    self.game_started_at = Some(now);
                    broadcast.push(ServerMessage::GameStart);
                }
                let p = self.player_ref(pid);
                let mut direct: Vec<ServerMessage> = Vec::new();
                direct.push(ServerMessage::GameUpdate {
                    status: if both {
                        UpdateStatus::Phase(GameStatus::Playing)
                    } else {
                        UpdateStatus::PlacementComplete
                    },
                    is_active: both,
                    heat: p.heat,
                    is_locked: p.is_locked,
                    time_remaining_secs: self.config.game_duration_secs,
                    vetoes_remaining: self.config.max_vetoes.saturating_sub(p.vetoes_used),
                    veto_time_remaining_secs: None,
                });
                Reply { direct, broadcast }
            },
        }
    }

    /// Handle a `Fire` request from `pid`.
    pub fn handle_fire(&mut self, pid: u128, x: usize, y: usize, now: u64) -> (r: Reply)
        requires
            old(self).wf(),
        ensures
            final(self).wf(),
            fire_reply_post(*old(self), *final(self), pid, x, y, now, r),
            final(self).id == old(self).id,
    {
        if !self.member(pid) {
            return Reply::error(ErrorKind::NotFound);
        }
        if !(self.status == GameStatus::Playing || self.status == GameStatus::SuddenDeath) {
            return Reply::error(ErrorKind::InvalidState);
        }
        let threshold = self.config.heat_threshold;
        let penalties = self.config.veto_penalties;
        let was_sudden_death = self.status == GameStatus::SuddenDeath;
        let res = if self.player1.id == pid {
            match self.player2 {
                Some(ref mut p2) => self.player1.fire(p2, x, y, threshold, &penalties, now),
                None => Err(ErrorKind::NotFound),
            }
        } else {
            match self.player2 {
                Some(ref mut p2) => p2.fire(&mut self.player1, x, y, threshold, &penalties, now),
                None => Err(ErrorKind::NotFound),
            }
        };
        match res {
            Err(e) => Reply::error(e),
            Ok((outcome, sunk)) => {
                let all_sunk = if self.player1.id == pid {
                    match &self.player2 {
                        Some(p2) => p2.grid.count(CellState::Ship) == 0,
                        None => false,
                    }
                } else {
                    self.player1.grid.count(CellState::Ship) == 0
                };
                let sd_hit = was_sudden_death && outcome == ShotOutcome::Hit;
                let ended = sd_hit || all_sunk;
                if ended {
                    self.status = GameStatus::Finished;
                    self.finished_at = Some(now);
                }
                let mut direct: Vec<ServerMessage> = Vec::new();
                direct.push(ServerMessage::ShotResult {
                    x,
                    y,
                    hit: outcome == ShotOutcome::Hit,
                    sunk,
                    shooter_id: pid,
                });
                let mut broadcast: Vec<ServerMessage> = Vec::new();
                broadcast.push(ServerMessage::ShotResult {
                    x,
                    y,
                    hit: outcome == ShotOutcome::Hit,
                    sunk,
                    shooter_id: pid,
                });
                if self.player_ref(pid).is_locked {
                    broadcast.push(ServerMessage::WeaponsLocked { player_id: pid });
                }
                if ended {
                    let stats = self.player_ref(pid).stats;
                    broadcast.push(ServerMessage::GameOver {
                        winner_id: Some(pid),
                        reason: if sd_hit {
                            GameOverReason::SuddenDeathHit
                        } else {
                            GameOverReason::AllShipsSunk
                        },
                        your_shots_hit: stats.cells_hit,
                        your_shots_missed: stats.cells_missed,
                        your_ships_sunk: stats.ships_sunk,
                        your_problems_solved: stats.problems_solved,
                    });
                }
                Reply { direct, broadcast }
            },
        }
    }

    /// Handle a `Veto` request from `pid`.
    pub fn handle_veto(&mut self, pid: u128, now: u64) -> (r: Reply)
        requires
            old(self).wf(),
        ensures
            final(self).wf(),
            veto_post(*old(self), *final(self), pid, now, r),
            final(self).id == old(self).id,
    {
        if !self.member(pid) {
            return Reply::error(ErrorKind::NotFound);
        }
        if self.status == GameStatus::Finished {
            return Reply::error(ErrorKind::InvalidState);
        }
        let max_vetoes = self.config.max_vetoes;
        let penalties = self.config.veto_penalties;
        let res = if self.player1.id == pid {
            self.player1.veto_start(max_vetoes, &penalties, now)
        } else {
            match self.player2 {
                Some(ref mut p) => p.veto_start(max_vetoes, &penalties, now),
                None => Err(ErrorKind::NotFound),
            }
        };
        match res {
            Err(e) => Reply::error(e),
            Ok(d) => {
                let p = self.player_ref(pid);
                let mut direct: Vec<ServerMessage> = Vec::new();
                let elapsed_secs: u64 = match self.game_started_at {
                    Some(st) => now.saturating_sub(st),
                    None => 0,
                };
                direct.push(ServerMessage::GameUpdate {
                    status: UpdateStatus::VetoActive,
                    is_active: false,
                    heat: p.heat,
                    is_locked: p.is_locked,
                    time_remaining_secs: self.config.game_duration_secs.saturating_sub(
                        elapsed_secs,
                    ),
                    vetoes_remaining: self.config.max_vetoes.saturating_sub(p.vetoes_used),
                    veto_time_remaining_secs: Some(d),
                });
                Reply { direct, broadcast: Vec::new() }
            },
        }
    }

    /// Begin a solve-check for `pid`: validate and record the attempt, and
    /// hand back the external handle to check. The caller performs the
    /// external call with the registry lock released and then applies the
    /// verdict through `solve_apply`.
    pub fn solve_begin(&mut self, pid: u128, now: u64) -> (r: Result<String, ErrorKind>)
        requires
            old(self).wf(),
        ensures
            final(self).wf(),
            solve_begin_post(*old(self), *final(self), pid, now, r),
            final(self).id == old(self).id,
    {
        if !self.member(pid) {
            return Err(ErrorKind::NotFound);
        }
        if self.status == GameStatus::Finished {
            return Err(ErrorKind::InvalidState);
        }
        let res = if self.player1.id == pid {
            self.player1.solve_gate(now)
        } else {
            match self.player2 {
                Some(ref mut p) => p.solve_gate(now),
                None => Err(ErrorKind::NotFound),
            }
        };
        match res {
            Err(e) => Err(e),
            Ok(()) => Ok(self.player_ref(pid).cf_handle.clone()),
        }
    }

    /// Apply the verifier's verdict for `pid`'s solve-check, re-validating
    /// the session state that may have changed while the lock was released.
    pub fn solve_apply(&mut self, pid: u128, accepted: bool, now: u64) -> (r: Reply)
        requires
            old(self).wf(),
        ensures
            final(self).wf(),
            solve_apply_post(*old(self), *final(self), pid, accepted, now, r),
            final(self).id == old(self).id,
    {
        if !self.member(pid) {
            return Reply::error(ErrorKind::NotFound);
        }
        if self.status == GameStatus::Finished {
            return Reply::error(ErrorKind::InvalidState);
        }
        if !accepted {
            return Reply::error(ErrorKind::ValidationFailed);
        }
        if self.player1.id == pid {
            self.player1.unlock_weapons();
            self.player1.stats.problems_solved = self.player1.stats.problems_solved.saturating_add(
                1,
            );
        } else {
            match self.player2 {
                Some(ref mut p) => {
                    p.unlock_weapons();
                    p.stats.problems_solved = p.stats.problems_solved.saturating_add(1);
                },
                None => {},
            }
        }
        let p = self.player_ref(pid);
        let elapsed_secs: u64 = match self.game_started_at {
            Some(st) => now.saturating_sub(st),
            None => 0,
        };
        let mut direct: Vec<ServerMessage> = Vec::new();
        direct.push(ServerMessage::GameUpdate {
            status: UpdateStatus::WeaponsUnlocked,
            is_active: true,
            heat: 0,
            is_locked: false,
            time_remaining_secs: self.config.game_duration_secs.saturating_sub(elapsed_secs),
            vetoes_remaining: self.config.max_vetoes.saturating_sub(p.vetoes_used),
            veto_time_remaining_secs: None,
        });
        let mut broadcast: Vec<ServerMessage> = Vec::new();
        broadcast.push(ServerMessage::WeaponsUnlocked {
            player_id: pid,
            reason: UnlockReason::Solved,
        });
        Reply { direct, broadcast }
    }

    /// One sweep tick over this session: clear expired veto lockouts,
    /// resolve a duration timeout, and return the events to fan out.
    pub fn sweep_step(&mut self, now: u64) -> (evs: Vec<GameEvent>)
        requires
            old(self).wf(),
        ensures
            final(self).wf(),
            *final(self) == sweep_session(*old(self), now),
            evs@ == sweep_events(*old(self), now),
            final(self).id == old(self).id,
    {
        let mut evs: Vec<GameEvent> = Vec::new();
        evs.push(GameEvent::Tick);
        if !(self.status == GameStatus::Playing || self.status == GameStatus::SuddenDeath) {
            proof {
                assert(evs@ =~= sweep_events(*old(self), now));
            }
            return evs;
        }
        let pen = self.config.veto_penalties;
        if self.player1.is_locked {
            let expired = match self.player1.veto_started_at {
                Some(st) => now.saturating_sub(st) >= penalty(
                    &pen,
                    self.player1.vetoes_used.saturating_sub(1),
                ),
                None => false,
            };
            if expired {
                self.player1.unlock_weapons();
                self.player1.veto_started_at = None;
                evs.push(GameEvent::Message(ServerMessage::WeaponsUnlocked {
                    player_id: self.player1.id,
                    reason: UnlockReason::VetoExpired,
                }));
            }
        }
        match self.player2 {
            Some(ref mut p) => {
                if p.is_locked {
                    let expired = match p.veto_started_at {
                        Some(st) => now.saturating_sub(st) >= penalty(
                            &pen,
                            p.vetoes_used.saturating_sub(1),
                        ),
                        None => false,
                    };
                    if expired {
                        p.unlock_weapons();
                        p.veto_started_at = None;
                        let id = p.id;
                        evs.push(GameEvent::Message(ServerMessage::WeaponsUnlocked {
                            player_id: id,
                            reason: UnlockReason::VetoExpired,
                        }));
                    }
                }
            },
            None => {},
        }
        if self.status == GameStatus::Playing {
            let over = match self.game_started_at {
                Some(st) => now.saturating_sub(st) >= self.config.game_duration_secs,
                None => false,
            };
            if over {
                match self.determine_winner() {
                    TiebreakResult::Player1Wins => {
                        self.status = GameStatus::Finished;
                        self.finished_at = Some(now);
                        let stats = self.player1.stats;
                        evs.push(GameEvent::Message(ServerMessage::GameOver {
                            winner_id: Some(self.player1.id),
                            reason: GameOverReason::Timeout,
                            your_shots_hit: stats.cells_hit,
                            your_shots_missed: stats.cells_missed,
                            your_ships_sunk: stats.ships_sunk,
                            your_problems_solved: stats.problems_solved,
                        }));
                    },
                    TiebreakResult::Player2Wins => {
                        self.status = GameStatus::Finished;
                        self.finished_at = Some(now);
                        match &self.player2 {
                            Some(p) => {
                                evs.push(GameEvent::Message(ServerMessage::GameOver {
                                    winner_id: Some(p.id),
                                    reason: GameOverReason::Timeout,
                                    your_shots_hit: p.stats.cells_hit,
                                    your_shots_missed: p.stats.cells_missed,
                                    your_ships_sunk: p.stats.ships_sunk,
                                    your_problems_solved: p.stats.problems_solved,
                                }));
                            },
                            None => {},
                        }
                    },
                    TiebreakResult::SuddenDeath => {
                        self.status = GameStatus::SuddenDeath;
                        self.player1.unlock_weapons();
                        match self.player2 {
                            Some(ref mut p) => p.unlock_weapons(),
                            None => {},
                        }
                        evs.push(GameEvent::Message(ServerMessage::GameUpdate {
                            status: UpdateStatus::SuddenDeathStart,
                            is_active: true,
                            heat: 0,
                            is_locked: false,
                            time_remaining_secs: 0,
                            vetoes_remaining: 0,
                            veto_time_remaining_secs: None,
                        }));
                    },
                }
            }
        }
        proof {
            assert(evs@ =~= sweep_events(*old(self), now));
        }
        evs
    }

    /// Whether the sweeper keeps this session at `now`: finished sessions
    /// are kept 300 seconds past their finish, never-joined lobbies 1800
    /// seconds past creation, live sessions indefinitely.
    pub fn should_retain(&self, now: u64) -> (b: bool)
        ensures
            b == spec_retain(*self, now),
    {
        match self.finished_at {
            Some(f) => now.saturating_sub(f) <= 300,
            None => {
                if self.status == GameStatus::Waiting {
                    now.saturating_sub(self.created_at) <= 1800
                } else {
                    true
                }
            },
        }
    }
}

/// Whether, once member `pid` has a placed fleet, both seats have one.
pub open spec fn other_placed(pre: Game, pid: u128) -> bool {
    if pre.is_p1(pid) {
        match pre.player2 {
            Some(o) => o.ships_placed,
            None => false,
        }
    } else {
        pre.player1.ships_placed
    }
}

/// Everything `handle_place_ships` promises: rejected for strangers, after
/// the match has started, and for any fleet that is not exactly the size
/// multiset {5, 4, 3, 3, 2} or does not fit the grid; a repeated submission
/// after success re-confirms without mutating or re-broadcasting; a fresh
/// success places atomically, and the match starts once both fleets stand.
pub open spec fn place_post(
    pre: Game,
    post: Game,
    pid: u128,
    ships: Seq<ShipPlacement>,
    now: u64,
    r: Reply,
) -> bool {
    if !pre.is_member(pid) {
        post == pre && error_reply(r, ErrorKind::NotFound)
    } else if pre.status == GameStatus::Playing || pre.status == GameStatus::SuddenDeath
        || pre.status == GameStatus::Finished {
        post == pre && error_reply(r, ErrorKind::InvalidState)
    } else {
        let p = pre.spec_player(pid);
        if p.ships_placed {
            // Idempotent replay: confirm, change nothing, broadcast nothing.
            &&& post == pre
            &&& r.broadcast@.len() == 0
            &&& r.direct@.len() == 2
            &&& r.direct@[0] == (ServerMessage::ShipsConfirmed { player_id: pid })
            &&& r.direct@[1] == (ServerMessage::GameUpdate {
                status: UpdateStatus::ShipsPlaced,
                is_active: true,
                heat: p.heat,
                is_locked: p.is_locked,
                time_remaining_secs: pre.config.game_duration_secs,
                vetoes_remaining: pre.vetoes_remaining(p),
                veto_time_remaining_secs: None,
            })
        } else if !crate::player::valid_fleet_sizes(
            ships.map_values(|sp: ShipPlacement| sp.size),
        ) {
            post == pre && error_reply(r, ErrorKind::ValidationFailed)
        } else {
            match crate::player::fleet_grid(crate::player::empty_cells(), ships) {
                None => {
                    let pp = if pre.is_p1(pid) {
                        post.player1
                    } else {
                        post.player2->Some_0
                    };
                    &&& pp.grid.cells@ == crate::player::empty_cells()
                    &&& pp.ships@.len() == 0
                    &&& pp == (Player { grid: pp.grid, ships: pp.ships, ships_placed: false, ..p })
                    &&& post == pre.with_player(pid, pp)
                    &&& error_reply(r, ErrorKind::ValidationFailed)
                },
                Some(cells) => {
                    let pp = if pre.is_p1(pid) {
                        post.player1
                    } else {
                        post.player2->Some_0
                    };
                    let both = other_placed(pre, pid);
                    &&& pp.grid.cells@ == cells
                    &&& pp.ships@ == ships.map_values(
                        |sp: ShipPlacement| crate::player::placement_ship(sp),
                    )
                    &&& pp == (Player { grid: pp.grid, ships: pp.ships, ships_placed: true, ..p })
                    &&& post == (Game {
                        status: if both {
                            GameStatus::Playing
                        } else {
                            pre.status
                        },
                        game_started_at: if both {
                            Some(now)
                        } else {
                            pre.game_started_at
                        },
                        ..pre.with_player(pid, pp)
                    })
                    &&& r.broadcast@.len() == if both {
                        2int
                    } else {
                        1int
                    }
                    &&& r.broadcast@[0] == (ServerMessage::ShipsConfirmed { player_id: pid })
                    &&& (both ==> r.broadcast@[1] == ServerMessage::GameStart)
                    &&& r.direct@.len() == 1
                    &&& r.direct@[0] == (ServerMessage::GameUpdate {
                        status: if both {
                            UpdateStatus::Phase(GameStatus::Playing)
                        } else {
                            UpdateStatus::PlacementComplete
                        },
                        is_active: both,
                        heat: p.heat,
                        is_locked: p.is_locked,
                        time_remaining_secs: pre.config.game_duration_secs,
                        vetoes_remaining: pre.vetoes_remaining(p),
                        veto_time_remaining_secs: None,
                    })
                },
            }
        }
    }
}

/// Everything `handle_fire` promises: rejected for strangers and outside
/// combat; otherwise the shot resolves as `fire` says, the broadcast carries
/// the result (and the lockout, if one was tripped), a fleet wiped out ends
/// the match for the shooter, and in sudden death any confirmed hit ends it
/// immediately, whatever is left afloat.
pub open spec fn fire_reply_post(
    pre: Game,
    post: Game,
    pid: u128,
    x: usize,
    y: usize,
    now: u64,
    r: Reply,
) -> bool {
    if !pre.is_member(pid) {
        post == pre && error_reply(r, ErrorKind::NotFound)
    } else if !(pre.status == GameStatus::Playing || pre.status == GameStatus::SuddenDeath) {
        post == pre && error_reply(r, ErrorKind::InvalidState)
    } else {
        let ps = pre.spec_player(pid);
        let po = pre.spec_opponent(pid);
        if x >= 10 || y >= 10 {
            post == pre && error_reply(r, ErrorKind::ValidationFailed)
        } else if ps.is_locked && !veto_expired(ps, pre.config.veto_penalties, now) {
            post == pre && error_reply(r, ErrorKind::Locked)
        } else {
            let qs = if pre.is_p1(pid) {
                post.player1
            } else {
                post.player2->Some_0
            };
            let qo = if pre.is_p1(pid) {
                post.player2->Some_0
            } else {
                post.player1
            };
            let cell = po.grid.spec_at(x as int, y as int);
            let outcome = match cell {
                CellState::Empty => ShotOutcome::Miss,
                CellState::Ship => ShotOutcome::Hit,
                _ => ShotOutcome::AlreadyFired,
            };
            let k = crate::player::first_cover(po.ships@, x as int, y as int);
            let struck = outcome == ShotOutcome::Hit && k >= 0;
            let sunk = struck && !po.ships@[k].sunk && crate::player::hit_once(po.ships@[k]).sunk;
            let all_sunk = count_cells(qo.grid.cells@, CellState::Ship) == 0;
            let sd_hit = pre.status == GameStatus::SuddenDeath && outcome == ShotOutcome::Hit;
            let ended = sd_hit || all_sunk;
            let shot = ServerMessage::ShotResult {
                x,
                y,
                hit: outcome == ShotOutcome::Hit,
                sunk,
                shooter_id: pid,
            };
            &&& fire_post(
                ps,
                qs,
                po,
                qo,
                x,
                y,
                pre.config.heat_threshold,
                pre.config.veto_penalties,
                now,
                Ok((outcome, sunk)),
            )
            &&& post == (Game {
                player1: if pre.is_p1(pid) {
                    qs
                } else {
                    qo
                },
                player2: Some(
                    if pre.is_p1(pid) {
                        qo
                    } else {
                        qs
                    },
                ),
                status: if ended {
                    GameStatus::Finished
                } else {
                    pre.status
                },
                finished_at: if ended {
                    Some(now)
                } else {
                    pre.finished_at
                },
                ..pre
            })
            &&& r.direct@ == seq![shot]
            &&& r.broadcast@.len() == 1 + (if qs.is_locked {
                1int
            } else {
                0int
            }) + (if ended {
                1int
            } else {
                0int
            })
            &&& r.broadcast@[0] == shot
            &&& (qs.is_locked ==> r.broadcast@[1] == (ServerMessage::WeaponsLocked {
                player_id: pid,
            }))
            &&& (ended ==> r.broadcast@[if qs.is_locked {
                2int
            } else {
                1int
            }] == game_over_msg(
                pid,
                if sd_hit {
                    GameOverReason::SuddenDeathHit
                } else {
                    GameOverReason::AllShipsSunk
                },
                qs.stats,
            ))
        }
    }
}

/// Everything `handle_veto` promises: only a locked member of a live
/// session with quota left may veto; the penalty at the index of the vetoes
/// already used starts at `now`, and the count goes up by one.
pub open spec fn veto_post(pre: Game, post: Game, pid: u128, now: u64, r: Reply) -> bool {
    if !pre.is_member(pid) {
        post == pre && error_reply(r, ErrorKind::NotFound)
    } else if pre.status == GameStatus::Finished {
        post == pre && error_reply(r, ErrorKind::InvalidState)
    } else {
        let p = pre.spec_player(pid);
        if !p.is_locked {
            post == pre && error_reply(r, ErrorKind::InvalidState)
        } else if p.vetoes_used >= pre.config.max_vetoes {
            post == pre && error_reply(r, ErrorKind::ValidationFailed)
        } else {
            let d = spec_penalty(pre.config.veto_penalties, p.vetoes_used);
            let pp = Player {
                veto_started_at: Some(now),
                vetoes_used: (p.vetoes_used + 1) as u32,
                ..p
            };
            &&& post == pre.with_player(pid, pp)
            &&& r.broadcast@.len() == 0
            &&& r.direct@ == seq![
                ServerMessage::GameUpdate {
                    status: UpdateStatus::VetoActive,
                    is_active: false,
                    heat: p.heat,
                    is_locked: p.is_locked,
                    time_remaining_secs: pre.time_remaining(now),
                    vetoes_remaining: pre.vetoes_remaining(pp),
                    veto_time_remaining_secs: Some(d),
                },
            ]
        }
    }
}

/// Everything `solve_begin` promises: a member of a live session may start
/// a solve-check unless a veto penalty is pending (the two unlock paths are
/// mutually exclusive) or the cooldown since the last attempt has not
/// elapsed; the attempt is recorded and the handle for the external check
/// is handed back.
pub open spec fn solve_begin_post(
    pre: Game,
    post: Game,
    pid: u128,
    now: u64,
    r: Result<String, ErrorKind>,
) -> bool {
    if !pre.is_member(pid) {
        post == pre && r == Result::<String, ErrorKind>::Err(ErrorKind::NotFound)
    } else if pre.status == GameStatus::Finished {
        post == pre && r == Result::<String, ErrorKind>::Err(ErrorKind::InvalidState)
    } else {
        let p = pre.spec_player(pid);
        if p.veto_started_at is Some {
            post == pre && r == Result::<String, ErrorKind>::Err(ErrorKind::InvalidState)
        } else if match p.last_verification_attempt {
            Some(t) => spec_elapsed(now, t) < 10,
            None => false,
        } {
            post == pre && r == Result::<String, ErrorKind>::Err(ErrorKind::RateLimited)
        } else {
            &&& post == pre.with_player(
                pid,
                Player { last_verification_attempt: Some(now), ..p },
            )
            &&& r matches Ok(h) && h@ == p.cf_handle@
        }
    }
}

/// Everything `solve_apply` promises: the verifier's verdict is applied
/// only after re-validating, under the lock, that the session is still live
/// and the player still bound; a rejected submission changes nothing, an
/// accepted one unlocks the weapons, credits the solve, and broadcasts the
/// unlock.
pub open spec fn solve_apply_post(
    pre: Game,
    post: Game,
    pid: u128,
    accepted: bool,
    now: u64,
    r: Reply,
) -> bool {
    if !pre.is_member(pid) {
        post == pre && error_reply(r, ErrorKind::NotFound)
    } else if pre.status == GameStatus::Finished {
        post == pre && error_reply(r, ErrorKind::InvalidState)
    } else if !accepted {
        post == pre && error_reply(r, ErrorKind::ValidationFailed)
    } else {
        let p = pre.spec_player(pid);
        let pp = Player {
            heat: 0,
            is_locked: false,
            stats: PlayerStats {
                problems_solved: p.stats.problems_solved.saturating_add(1),
                ..p.stats
            },
            ..p
        };
        &&& post == pre.with_player(pid, pp)
        &&& r.broadcast@ == seq![
            ServerMessage::WeaponsUnlocked { player_id: pid, reason: UnlockReason::Solved },
        ]
        &&& r.direct@ == seq![
            ServerMessage::GameUpdate {
                status: UpdateStatus::WeaponsUnlocked,
                is_active: true,
                heat: 0,
                is_locked: false,
                time_remaining_secs: pre.time_remaining(now),
                vetoes_remaining: pre.vetoes_remaining(p),
                veto_time_remaining_secs: None,
            },
        ]
    }
}

/// Law: replaying a fleet submission after a successful one never mutates
/// the session a second time and never re-broadcasts a transition — whether
/// the match has started in the meantime (the replay is then rejected) or
/// not (it is then re-confirmed).
pub proof fn lemma_place_ships_idempotent(
    g0: Game,
    g1: Game,
    g2: Game,
    pid: u128,
    ships: Seq<ShipPlacement>,
    t1: u64,
    t2: u64,
    r1: Reply,
    r2: Reply,
)
    requires
        place_post(g0, g1, pid, ships, t1, r1),
        place_post(g1, g2, pid, ships, t2, r2),
        g0.is_member(pid),
        g0.status == GameStatus::Waiting || g0.status == GameStatus::PlacingShips,
        !g0.spec_player(pid).ships_placed,
        crate::player::valid_fleet_sizes(ships.map_values(|sp: ShipPlacement| sp.size)),
        crate::player::fleet_grid(crate::player::empty_cells(), ships) is Some,
    ensures
        g2 == g1,
        r2.broadcast@.len() == 0,
        !other_placed(g0, pid) ==> r2.direct@[0] == (ServerMessage::ShipsConfirmed {
            player_id: pid,
        }),
{
    assert(g1.is_member(pid));
    assert(g1.spec_player(pid).ships_placed);
}

/// Law: in sudden death any confirmed hit ends the match at once in the
/// shooter's favor, whatever is left of either fleet.
pub proof fn lemma_sudden_death_hit_ends(
    pre: Game,
    post: Game,
    pid: u128,
    x: usize,
    y: usize,
    now: u64,
    r: Reply,
)
    requires
        fire_reply_post(pre, post, pid, x, y, now, r),
        pre.is_member(pid),
        pre.status == GameStatus::SuddenDeath,
        x < 10,
        y < 10,
        !(pre.spec_player(pid).is_locked && !veto_expired(
            pre.spec_player(pid),
            pre.config.veto_penalties,
            now,
        )),
        // A confirmed hit: the targeted cell held an intact ship cell.
        pre.spec_opponent(pid).grid.spec_at(x as int, y as int) == CellState::Ship,
    ensures
        post.status == GameStatus::Finished,
        post.finished_at == Some(now),
        (r.broadcast@.last() matches ServerMessage::GameOver { winner_id, reason, .. }
            && winner_id == Some(pid) && reason == GameOverReason::SuddenDeathHit),
{
}

/// A player after one sweep tick: a lockout whose veto penalty has expired
/// is cleared, anything else is left alone.
pub open spec fn sweep_player(p: Player, penalties: [u64; 3], now: u64) -> Player {
    if p.is_locked && veto_expired(p, penalties, now) {
        spec_unlocked(p)
    } else {
        p
    }
}

/// Whether the match clock of `g` has run out at `now`.
pub open spec fn timed_out(g: Game, now: u64) -> bool {
    match g.game_started_at {
        Some(st) => spec_elapsed(now, st) >= g.config.game_duration_secs,
        None => false,
    }
}

/// The tie-break outcome of `g` (a missing second player forfeits).
pub open spec fn spec_winner(g: Game) -> TiebreakResult {
    match g.player2 {
        Some(q) => spec_tiebreak(g.player1, q),
        None => TiebreakResult::Player1Wins,
    }
}

/// A session after one sweep tick: in combat, expired veto lockouts are
/// cleared for both players; then, if the match duration has elapsed while
/// `Playing`, the tie-break either finishes the match or sends it to sudden
/// death with both players' weapons unlocked.
pub open spec fn sweep_session(g: Game, now: u64) -> Game {
    if g.status == GameStatus::Playing || g.status == GameStatus::SuddenDeath {
        let pen = g.config.veto_penalties;
        let p1 = sweep_player(g.player1, pen, now);
        let p2 = match g.player2 {
            Some(p) => Some(sweep_player(p, pen, now)),
            None => None::<Player>,
        };
        let g1 = Game { player1: p1, player2: p2, ..g };
        if g.status == GameStatus::Playing && timed_out(g, now) {
            match spec_winner(g) {
                TiebreakResult::SuddenDeath => Game {
                    status: GameStatus::SuddenDeath,
                    player1: Player { heat: 0, is_locked: false, ..p1 },
                    player2: match p2 {
                        Some(q) => Some(Player { heat: 0, is_locked: false, ..q }),
                        None => None::<Player>,
                    },
                    ..g1
                },
                _ => Game { status: GameStatus::Finished, finished_at: Some(now), ..g1 },
            }
        } else {
            g1
        }
    } else {
        g
    }
}

/// The events one sweep tick publishes on a session's fanout channel: the
/// tick itself, an unlock notice per expired veto lockout, and the verdict
/// of a duration timeout.
pub open spec fn sweep_events(g: Game, now: u64) -> Seq<GameEvent> {
    seq![GameEvent::Tick] + if g.status == GameStatus::Playing || g.status
        == GameStatus::SuddenDeath {
        let pen = g.config.veto_penalties;
        let u1 = if g.player1.is_locked && veto_expired(g.player1, pen, now) {
            seq![
                GameEvent::Message(
                    ServerMessage::WeaponsUnlocked {
                        player_id: g.player1.id,
                        reason: UnlockReason::VetoExpired,
                    },
                ),
            ]
        } else {
            Seq::<GameEvent>::empty()
        };
        let u2 = match g.player2 {
            Some(p) => if p.is_locked && veto_expired(p, pen, now) {
                seq![
                    GameEvent::Message(
                        ServerMessage::WeaponsUnlocked {
                            player_id: p.id,
                            reason: UnlockReason::VetoExpired,
                        },
                    ),
                ]
            } else {
                Seq::<GameEvent>::empty()
            },
            None => Seq::<GameEvent>::empty(),
        };
        let t = if g.status == GameStatus::Playing && timed_out(g, now) {
            match spec_winner(g) {
                TiebreakResult::Player1Wins => seq![
                    GameEvent::Message(
                        game_over_msg(g.player1.id, GameOverReason::Timeout, g.player1.stats),
                    ),
                ],
                TiebreakResult::Player2Wins => seq![
                    GameEvent::Message(
                        game_over_msg(
                            g.player2->Some_0.id,
                            GameOverReason::Timeout,
                            g.player2->Some_0.stats,
                        ),
                    ),
                ],
                TiebreakResult::SuddenDeath => seq![
                    GameEvent::Message(
                        ServerMessage::GameUpdate {
                            status: UpdateStatus::SuddenDeathStart,
                            is_active: true,
                            heat: 0,
                            is_locked: false,
                            time_remaining_secs: 0,
                            vetoes_remaining: 0,
                            veto_time_remaining_secs: None,
                        },
                    ),
                ],
            }
        } else {
            Seq::<GameEvent>::empty()
        };
        u1 + u2 + t
    } else {
        Seq::<GameEvent>::empty()
    }
}

/// Whether the sweeper keeps session `g` at `now`: a finished session for
/// 300 seconds past its finish, a never-joined lobby for 1800 seconds past
/// its creation, and any live session indefinitely.
pub open spec fn spec_retain(g: Game, now: u64) -> bool {
    match g.finished_at {
        Some(f) => spec_elapsed(now, f) <= 300,
        None => if g.status == GameStatus::Waiting {
            spec_elapsed(now, g.created_at) <= 1800
        } else {
            true
        },
    }
}

/// Count the ships of `ships` that are still afloat.
pub fn count_surviving(ships: &Vec<Ship>) -> (n: usize)
    ensures
        n == surviving_ships(ships@),
{
    let mut n: usize = 0;
    let mut i: usize = 0;
    while i < ships.len()
        invariant
            i <= ships@.len(),
            n <= i,
            n == surviving_ships(ships@.take(i as int)),
        decreases ships@.len() - i,
    {
        proof {
            assert(ships@.take(i as int + 1).drop_last() =~= ships@.take(i as int));
            assert(ships@.take(i as int + 1).last() == ships@[i as int]);
        }
        if !ships[i].sunk {
            n = n + 1;
        }
        i = i + 1;
    }
    proof {
        assert(ships@.take(ships@.len() as int) =~= ships@);
    }
    n
}

} // verus!
