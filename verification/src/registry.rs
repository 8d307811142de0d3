//! The session registry: the single owned map from session identifier to
//! session. The surrounding process holds it behind its read/write lock;
//! every mutation of session state goes through one of these accessors.

use vstd::prelude::*;

use crate::config::{CreateGameRequest, build_config};
use crate::ids::fresh_id;
use crate::player::fresh_player;
use crate::protocol::{ErrorKind, GameEvent, Reply, ServerMessage, ShipPlacement};
use crate::session::{
    Game, GameStatus, error_reply, fire_reply_post, join_post, place_post, solve_apply_post,
    solve_begin_post, spec_retain, sweep_events, sweep_session, veto_post,
};

verus! {

/// Index of the session with identifier `id` in `s`, or -1 if none.
pub open spec fn find_idx(s: Seq<Game>, id: u128) -> int
    decreases s.len(),
{
    if s.len() == 0 {
        -1
    } else if s[0].id == id {
        0
    } else {
        let r = find_idx(s.subrange(1, s.len() as int), id);
        if r < 0 {
            -1
        } else {
            r + 1
        }
    }
}

proof fn lemma_find_idx_at(s: Seq<Game>, id: u128, i: int)
    requires
        0 <= i < s.len(),
        s[i].id == id,
        forall|j: int| 0 <= j < i ==> s[j].id != id,
    ensures
        find_idx(s, id) == i,
    decreases i,
{
    if i > 0 {
        lemma_find_idx_at(s.subrange(1, s.len() as int), id, i - 1);
    }
}

proof fn lemma_find_idx_none(s: Seq<Game>, id: u128)
    requires
        forall|j: int| 0 <= j < s.len() ==> s[j].id != id,
    ensures
        find_idx(s, id) == -1,
    decreases s.len(),
{
    if s.len() > 0 {
        lemma_find_idx_none(s.subrange(1, s.len() as int), id);
    }
}

proof fn lemma_find_idx_props(s: Seq<Game>, id: u128)
    ensures
        -1 <= find_idx(s, id) < s.len(),
        find_idx(s, id) >= 0 ==> s[find_idx(s, id)].id == id,
        find_idx(s, id) == -1 ==> forall|j: int| 0 <= j < s.len() ==> s[j].id != id,
    decreases s.len(),
{
    if s.len() > 0 && s[0].id != id {
        let rest = s.subrange(1, s.len() as int);
        lemma_find_idx_props(rest, id);
        if find_idx(s, id) == -1 {
            assert forall|j: int| 0 <= j < s.len() implies s[j].id != id by {
                if j > 0 {
                    assert(s[j] == rest[j - 1]);
                }
            }
        }
    }
}

/// `s` after inserting `g`: replacing the session with the same identifier
/// if one exists, appended otherwise.
pub open spec fn spec_insert(s: Seq<Game>, g: Game) -> Seq<Game> {
    let k = find_idx(s, g.id);
    if k >= 0 {
        s.update(k, g)
    } else {
        s.push(g)
    }
}

/// The sessions of `s` that the sweeper keeps at `now`, in order.
pub open spec fn retained(s: Seq<Game>, now: u64) -> Seq<Game>
    decreases s.len(),
{
    if s.len() == 0 {
        Seq::empty()
    } else if spec_retain(s.last(), now) {
        retained(s.drop_last(), now).push(s.last())
    } else {
        retained(s.drop_last(), now)
    }
}

/// Law: pruning keeps only what the retention rule allows — every session
/// that survives a sweep satisfies `spec_retain` at that sweep's time.
pub proof fn lemma_retained_only_keeps(s: Seq<Game>, now: u64)
    ensures
        forall|j: int|
            0 <= j < retained(s, now).len() ==> spec_retain(#[trigger] retained(s, now)[j], now),
    decreases s.len(),
{
    if s.len() > 0 {
        lemma_retained_only_keeps(s.drop_last(), now);
        let pre = retained(s.drop_last(), now);
        if spec_retain(s.last(), now) {
            assert forall|j: int|
                0 <= j < retained(s, now).len() implies spec_retain(retained(s, now)[j], now) by {
                if j < pre.len() {
                    assert(retained(s, now)[j] == pre[j]);
                } else {
                    assert(retained(s, now)[j] == s.last());
                }
            }
        }
    }
}

/// Law: pruning removes nothing the retention rule keeps — a session still
/// within its retention window survives the sweep.
pub proof fn lemma_retained_keeps_all(s: Seq<Game>, now: u64, i: int)
    requires
        0 <= i < s.len(),
        spec_retain(s[i], now),
    ensures
        retained(s, now).contains(s[i]),
    decreases s.len(),
{
    if i == s.len() - 1 {
        assert(retained(s, now).last() == s[i]);
    } else {
        lemma_retained_keeps_all(s.drop_last(), now, i);
        let pre = retained(s.drop_last(), now);
        let k = choose|k: int| 0 <= k < pre.len() && pre[k] == s[i];
        assert(retained(s, now)[k] == s[i]);
    }
}

/// The registry of live sessions.
pub struct Registry {
    games: Vec<Game>,
}

impl View for Registry {
    type V = Seq<Game>;

    closed spec fn view(&self) -> Seq<Game> {
        self.games@
    }
}

impl Registry {
    /// Every session is well formed and no identifier occurs twice.
    pub open spec fn wf(&self) -> bool {
        &&& forall|i: int| 0 <= i < self@.len() ==> (#[trigger] self@[i]).wf()
        &&& forall|i: int, j: int| 0 <= i < j < self@.len() ==> self@[i].id != self@[j].id
    }

    /// An empty registry.
    pub fn new() -> (r: Registry)
        ensures
            r@.len() == 0,
            r.wf(),
    {
        Registry { games: Vec::new() }
    }

    /// Number of live sessions.
    pub fn len(&self) -> (n: usize)
        ensures
            n == self@.len(),
    {
        self.games.len()
    }

    /// Position of the session `id`, if present.
    fn find(&self, id: u128) -> (r: Option<usize>)
        ensures
            match r {
                Some(i) => i < self@.len() && find_idx(self@, id) == i as int,
                None => find_idx(self@, id) == -1,
            },
    {
        let n = self.games.len();
        let mut i: usize = 0;
        while i < n
            invariant
                n == self@.len(),
                i <= n,
                forall|j: int| 0 <= j < i as int ==> self@[j].id != id,
            decreases n - i,
        {
            if self.games[i].id == id {
                proof {
                    lemma_find_idx_at(self@, id, i as int);
                }
                return Some(i);
            }
            i = i + 1;
        }
        proof {
            lemma_find_idx_none(self@, id);
        }
        None
    }

    /// Whether a session `id` is live.
    pub fn contains(&self, id: u128) -> (b: bool)
        ensures
            b == (find_idx(self@, id) >= 0),
    {
        match self.find(id) {
            Some(_) => true,
            None => false,
        }
    }

    /// Shared access to session `id`.
    pub fn get(&self, id: u128) -> (r: Option<&Game>)
        ensures
            match r {
                Some(g) => find_idx(self@, id) >= 0 && *g == self@[find_idx(self@, id)],
                None => find_idx(self@, id) == -1,
            },
    {
        match self.find(id) {
            Some(i) => Some(&self.games[i]),
            None => None,
        }
    }

    /// Insert session `g`, replacing any session with the same identifier.
    pub fn insert(&mut self, g: Game)
        requires
            old(self).wf(),
            g.wf(),
        ensures
            final(self).wf(),
            final(self)@ == spec_insert(old(self)@, g),
            find_idx(final(self)@, g.id) >= 0,
            final(self)@[find_idx(final(self)@, g.id)] == g,
    {
        proof {
            lemma_find_idx_props(self@, g.id);
        }
        match self.find(g.id) {
            Some(i) => {
                self.games[i] = g;
                proof {
                    lemma_find_idx_at(self@, g.id, i as int);
                }
            },
            None => {
                let ghost n = self@.len();
                self.games.push(g);
                proof {
                    lemma_find_idx_at(self@, g.id, n as int);
                }
            },
        }
    }

    /// Handle a `JoinGame` request against session `game_id`.
    pub fn join(
        &mut self,
        game_id: u128,
        pid: u128,
        cf_handle: String,
        handle_exists: Option<bool>,
        now: u64,
    ) -> (r: Reply)
        requires
            old(self).wf(),
        ensures
            final(self).wf(),
            ({
                let k = find_idx(old(self)@, game_id);
                &&& (k == -1 ==> *final(self) == *old(self) && error_reply(r, ErrorKind::NotFound))
                &&& (k >= 0 ==> final(self)@ == old(self)@.update(k, final(self)@[k]) && join_post(
                    old(self)@[k],
                    final(self)@[k],
                    pid,
                    cf_handle@,
                    handle_exists,
                    now,
                    r,
                ))
            }),
    {
        let i = match self.find(game_id) {
            Some(i) => i,
            None => {
                return Reply::error(ErrorKind::NotFound);
            },
        };
        let g = &mut self.games[i];
        g.handle_join(pid, cf_handle, handle_exists, now)
    }

    /// Handle a `PlaceShips` request against session `game_id`.
    pub fn place_ships(
        &mut self,
        game_id: u128,
        pid: u128,
        ships: &Vec<ShipPlacement>,
        now: u64,
    ) -> (r: Reply)
        requires
            old(self).wf(),
        ensures
            final(self).wf(),
            ({
                let k = find_idx(old(self)@, game_id);
                &&& (k == -1 ==> *final(self) == *old(self) && error_reply(r, ErrorKind::NotFound))
                &&& (k >= 0 ==> final(self)@ == old(self)@.update(k, final(self)@[k]) && place_post(
                    old(self)@[k],
                    final(self)@[k],
                    pid,
                    ships@,
                    now,
                    r,
                ))
            }),
    {
        let i = match self.find(game_id) {
            Some(i) => i,
            None => {
                return Reply::error(ErrorKind::NotFound);
            },
        };
        let g = &mut self.games[i];
        g.handle_place_ships(pid, ships, now)
    }

    /// Handle a `Fire` request against session `game_id`.
    pub fn fire(&mut self, game_id: u128, pid: u128, x: usize, y: usize, now: u64) -> (r: Reply)
        requires
            old(self).wf(),
        ensures
            final(self).wf(),
            ({
                let k = find_idx(old(self)@, game_id);
                &&& (k == -1 ==> *final(self) == *old(self) && error_reply(r, ErrorKind::NotFound))
                &&& (k >= 0 ==> final(self)@ == old(self)@.update(k, final(self)@[k])
                    && fire_reply_post(old(self)@[k], final(self)@[k], pid, x, y, now, r))
            }),
    {
        let i = match self.find(game_id) {
            Some(i) => i,
            None => {
                return Reply::error(ErrorKind::NotFound);
            },
        };
        let g = &mut self.games[i];
        g.handle_fire(pid, x, y, now)
    }

    /// Handle a `Veto` request against session `game_id`.
    pub fn veto(&mut self, game_id: u128, pid: u128, now: u64) -> (r: Reply)
        requires
            old(self).wf(),
        ensures
            final(self).wf(),
            ({
                let k = find_idx(old(self)@, game_id);
                &&& (k == -1 ==> *final(self) == *old(self) && error_reply(r, ErrorKind::NotFound))
                &&& (k >= 0 ==> final(self)@ == old(self)@.update(k, final(self)@[k]) && veto_post(
                    old(self)@[k],
                    final(self)@[k],
                    pid,
                    now,
                    r,
                ))
            }),
    {
        let i = match self.find(game_id) {
            Some(i) => i,
            None => {
                return Reply::error(ErrorKind::NotFound);
            },
        };
        let g = &mut self.games[i];
        g.handle_veto(pid, now)
    }

    /// Begin a solve-check against session `game_id` (see
    /// `Game::solve_begin`).
    pub fn solve_begin(&mut self, game_id: u128, pid: u128, now: u64) -> (r: Result<
        String,
        ErrorKind,
    >)
        requires
            old(self).wf(),
        ensures
            final(self).wf(),
            ({
                let k = find_idx(old(self)@, game_id);
                &&& (k == -1 ==> *final(self) == *old(self) && r == Result::<
                    String,
                    ErrorKind,
                >::Err(ErrorKind::NotFound))
                &&& (k >= 0 ==> final(self)@ == old(self)@.update(k, final(self)@[k])
                    && solve_begin_post(old(self)@[k], final(self)@[k], pid, now, r))
            }),
    {
        let i = match self.find(game_id) {
            Some(i) => i,
            None => {
                return Err(ErrorKind::NotFound);
            },
        };
        let g = &mut self.games[i];
        g.solve_begin(pid, now)
    }

    /// Apply a solve-check verdict against session `game_id` (see
    /// `Game::solve_apply`).
    pub fn solve_apply(&mut self, game_id: u128, pid: u128, accepted: bool, now: u64) -> (r: Reply)
        requires
            old(self).wf(),
        ensures
            final(self).wf(),
            ({
                let k = find_idx(old(self)@, game_id);
                &&& (k == -1 ==> *final(self) == *old(self) && error_reply(r, ErrorKind::NotFound))
                &&& (k >= 0 ==> final(self)@ == old(self)@.update(k, final(self)@[k])
                    && solve_apply_post(old(self)@[k], final(self)@[k], pid, accepted, now, r))
            }),
    {
        let i = match self.find(game_id) {
            Some(i) => i,
            None => {
                return Reply::error(ErrorKind::NotFound);
            },
        };
        let g = &mut self.games[i];
        g.solve_apply(pid, accepted, now)
    }

    /// The personalized snapshot for connection `pid` of session `game_id`
    /// on a fanout tick.
    pub fn tick_snapshot(&self, game_id: u128, pid: u128, now: u64) -> (r: Option<ServerMessage>)
        ensures
            ({
                let k = find_idx(self@, game_id);
                r == if k >= 0 && self@[k].is_member(pid) {
                    Some(self@[k].snapshot_update(self@[k].spec_player(pid), now))
                } else {
                    None::<ServerMessage>
                }
            }),
    {
        match self.find(game_id) {
            Some(i) => self.games[i].tick_snapshot(pid, now),
            None => None,
        }
    }

    /// Create a session from a creation request whose handle the external
    /// collaborator has just checked (fail closed), insert it, and return
    /// the new session and player identifiers.
    pub fn create_game(
        &mut self,
        req: &CreateGameRequest,
        handle_exists: Option<bool>,
        now: u64,
    ) -> (r: Result<(u128, u128), ErrorKind>)
        requires
            old(self).wf(),
        ensures
            final(self).wf(),
            match handle_exists {
                None => r == Result::<(u128, u128), ErrorKind>::Err(ErrorKind::ExternalUnavailable)
                    && *final(self) == *old(self),
                Some(false) => r == Result::<(u128, u128), ErrorKind>::Err(
                    ErrorKind::ValidationFailed,
                ) && *final(self) == *old(self),
                Some(true) => {
                    &&& r matches Ok((gid, pid))
                    &&& ({
                        let k = find_idx(final(self)@, gid);
                        let g = final(self)@[k];
                        &&& k >= 0
                        &&& final(self)@ == spec_insert(old(self)@, g)
                        &&& g.id == gid
                        &&& fresh_player(g.player1, pid, req.cf_handle@)
                        &&& g.player2 is None
                        &&& g.status == GameStatus::Waiting
                        &&& g.created_at == now
                        &&& g.game_started_at is None
                        &&& g.finished_at is None
                        &&& g.config.heat_threshold == crate::config::spec_clamp_u32(
                            match req.heat_threshold {
                                Some(t) => t,
                                None => 7,
                            },
                            3,
                            20,
                        )
                        &&& g.config.difficulty == crate::config::spec_clamp_u32(
                            match req.difficulty {
                                Some(d) => d,
                                None => 800,
                            },
                            800,
                            3500,
                        )
                        &&& g.config.veto_penalties@ == crate::config::spec_penalties_for(
                            req.veto_strictness,
                        )
                        &&& g.config.max_vetoes == 3
                        &&& g.config.game_duration_secs == crate::config::spec_duration_secs(
                            req.game_duration_mins,
                        )
                    })
                },
            },
    {
        match handle_exists {
            None => {
                // Fail closed: the collaborator could not be reached.
                return Err(ErrorKind::ExternalUnavailable);
            },
            Some(false) => {
                return Err(ErrorKind::ValidationFailed);
            },
            Some(true) => {},
        }
        let config = build_config(req);
        let pid = fresh_id();
        let g = Game::new(pid, req.cf_handle.clone(), config, now);
        let gid = g.id;
        self.insert(g);
        Ok((gid, pid))
    }

    /// One pass of the background sweeper at `now`: step every session
    /// (expire veto lockouts, resolve duration timeouts), collect each
    /// session's fanout events, and prune what is no longer retained.
    pub fn sweep(&mut self, now: u64) -> (out: Vec<(u128, Vec<GameEvent>)>)
        requires
            old(self).wf(),
        ensures
            final(self).wf(),
            out@.len() == old(self)@.len(),
            forall|i: int|
                0 <= i < old(self)@.len() ==> (#[trigger] out@[i]).0 == old(self)@[i].id
                    && out@[i].1@ == sweep_events(old(self)@[i], now),
            final(self)@ == retained(
                Seq::new(old(self)@.len(), |i: int| sweep_session(old(self)@[i], now)),
                now,
            ),
    {
        let n = self.games.len();
        let mut out: Vec<(u128, Vec<GameEvent>)> = Vec::new();
        let mut i: usize = 0;
        while i < n
            invariant
                old(self).wf(),
                n == old(self)@.len(),
                self@.len() == n,
                i <= n,
                forall|j: int| i as int <= j < n as int ==> self@[j] == old(self)@[j],
                forall|j: int|
                    0 <= j < i as int ==> self@[j] == sweep_session(old(self)@[j], now),
                out@.len() == i as int,
                forall|j: int|
                    0 <= j < i as int ==> (#[trigger] out@[j]).0 == old(self)@[j].id && out@[j].1@
                        == sweep_events(old(self)@[j], now),
            decreases n - i,
        {
            let id = self.games[i].id;
            let g = &mut self.games[i];
            let evs = g.sweep_step(now);
            out.push((id, evs));
            i = i + 1;
        }
        let ghost stepped = Seq::new(old(self)@.len(), |j: int| sweep_session(old(self)@[j], now));
        proof {
            assert(self@ =~= stepped);
            assert forall|a: int, b: int| 0 <= a < b < stepped.len() implies stepped[a].id
                != stepped[b].id by {
                assert(stepped[a].id == old(self)@[a].id);
                assert(stepped[b].id == old(self)@[b].id);
            }
        }
        // Prune: rebuild the list keeping what the sweeper retains.
        let mut kept: Vec<Game> = Vec::new();
        let ghost mut c: int = 0;
        while self.games.len() > 0
            invariant
                0 <= c <= stepped.len(),
                self@ == stepped.skip(c),
                kept@ == retained(stepped.take(c), now),
                forall|j: int| 0 <= j < stepped.len() ==> (#[trigger] stepped[j]).wf(),
                forall|a: int, b: int|
                    0 <= a < b < stepped.len() ==> stepped[a].id != stepped[b].id,
                forall|a: int|
                    0 <= a < kept@.len() ==> exists|j: int|
                        0 <= j < c && (#[trigger] kept@[a]).id == stepped[j].id,
                forall|a: int, b: int| 0 <= a < b < kept@.len() ==> kept@[a].id != kept@[b].id,
                forall|a: int| 0 <= a < kept@.len() ==> (#[trigger] kept@[a]).wf(),
            decreases self@.len(),
        {
            proof {
                assert(stepped.take(c + 1).drop_last() =~= stepped.take(c));
                assert(stepped.take(c + 1).last() == stepped[c]);
                assert(self@[0] == stepped.skip(c)[0]);
            }
            let g = self.games.remove(0);
            proof {
                assert(self@ =~= stepped.skip(c + 1));
            }
            if g.should_retain(now) {
                kept.push(g);
            }
            proof {
                c = c + 1;
            }
        }
        proof {
            assert(stepped.take(c) =~= stepped);
        }
        self.games = kept;
        out
    }

    /// Remove session `id`; removing an absent identifier is a no-op.
    pub fn remove(&mut self, id: u128)
        requires
            old(self).wf(),
        ensures
            final(self).wf(),
            final(self)@ == if find_idx(old(self)@, id) >= 0 {
                old(self)@.remove(find_idx(old(self)@, id))
            } else {
                old(self)@
            },
    {
        match self.find(id) {
            Some(i) => {
                self.games.remove(i);
            },
            None => {},
        }
    }
}

} // verus!
