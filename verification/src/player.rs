//! Per-player combat state: the fleet, the grid, the heat/lockout counter,
//! veto usage, the tie-break statistics, and the operations that mutate them.

use vstd::prelude::*;
use vstd::multiset::Multiset;

use crate::config::{spec_elapsed, spec_penalty, penalty};
use crate::grid::{CellState, Grid, ShotOutcome};
use crate::protocol::{ErrorKind, ShipPlacement};

verus! {

/// The statistics feeding the tie-break. Counters saturate at their
/// maximum instead of overflowing.
#[derive(Clone, Copy, Debug, PartialEq, Eq, Structural)]
pub struct PlayerStats {
    pub ships_sunk: u32,
    pub cells_hit: u32,
    pub cells_missed: u32,
    pub problems_solved: u32,
}

impl Default for PlayerStats {
    fn default() -> (s: Self)
        ensures
            s == (PlayerStats { ships_sunk: 0, cells_hit: 0, cells_missed: 0, problems_solved: 0 }),
    {
        PlayerStats { ships_sunk: 0, cells_hit: 0, cells_missed: 0, problems_solved: 0 }
    }
}

/// One placed ship: its size, damage so far, and position.
#[derive(Clone, Copy, Debug, PartialEq, Eq, Structural)]
pub struct Ship {
    pub size: u8,
    pub hits: u8,
    pub sunk: bool,
    pub x: usize,
    pub y: usize,
    pub vertical: bool,
}

/// A ship record the combat logic can work with: its origin on the grid and
/// a size no larger than the grid side.
pub open spec fn ship_wf(s: Ship) -> bool {
    &&& 1 <= s.size <= 10
    &&& s.x < 10
    &&& s.y < 10
}

/// Whether ship `s` occupies the cell `(x, y)`.
pub open spec fn ship_covers(s: Ship, x: int, y: int) -> bool {
    if s.vertical {
        x == s.x && s.y <= y && y < s.y + s.size
    } else {
        y == s.y && s.x <= x && x < s.x + s.size
    }
}

/// Index of the first ship in `ships` covering `(x, y)`, or -1 if none does.
pub open spec fn first_cover(ships: Seq<Ship>, x: int, y: int) -> int
    decreases ships.len(),
{
    if ships.len() == 0 {
        -1
    } else if ship_covers(ships[0], x, y) {
        0
    } else {
        let r = first_cover(ships.subrange(1, ships.len() as int), x, y);
        if r < 0 {
            -1
        } else {
            r + 1
        }
    }
}

proof fn lemma_first_cover_at(ships: Seq<Ship>, x: int, y: int, i: int)
    requires
        0 <= i < ships.len(),
        ship_covers(ships[i], x, y),
        forall|j: int| 0 <= j < i ==> !ship_covers(ships[j], x, y),
    ensures
        first_cover(ships, x, y) == i,
    decreases i,
{
    if i > 0 {
        let rest = ships.subrange(1, ships.len() as int);
        lemma_first_cover_at(rest, x, y, i - 1);
    }
}

proof fn lemma_first_cover_none(ships: Seq<Ship>, x: int, y: int)
    requires
        forall|j: int| 0 <= j < ships.len() ==> !ship_covers(ships[j], x, y),
    ensures
        first_cover(ships, x, y) == -1,
    decreases ships.len(),
{
    if ships.len() > 0 {
        lemma_first_cover_none(ships.subrange(1, ships.len() as int), x, y);
    }
}

/// A ship after taking one more hit: it sinks when the damage reaches its
/// size.
pub open spec fn hit_once(s: Ship) -> Ship {
    let h = s.hits.saturating_add(1);
    Ship { hits: h, sunk: s.sunk || h >= s.size, ..s }
}

/// A whole ship extent stays on the grid.
pub open spec fn extent_ok(x: usize, y: usize, size: u8, vertical: bool) -> bool {
    &&& x < 10
    &&& y < 10
    &&& if vertical {
        y + size <= 10
    } else {
        x + size <= 10
    }
}

/// Linear index of the `k`-th cell of a ship at `(x, y)`.
pub open spec fn seg_pos(x: usize, y: usize, vertical: bool, k: int) -> int {
    if vertical {
        (y + k) * 10 + x
    } else {
        y * 10 + x + k
    }
}

/// Every cell of the ship extent is still water.
pub open spec fn cells_free(cells: Seq<CellState>, x: usize, y: usize, size: u8, vertical: bool) -> bool {
    forall|k: int| 0 <= k < size ==> cells[#[trigger] seg_pos(x, y, vertical, k)] == CellState::Empty
}

/// `cells` with the first `j` cells of the ship extent marked as ship.
pub open spec fn place_seg(cells: Seq<CellState>, x: usize, y: usize, vertical: bool, j: int) -> Seq<CellState>
    decreases j,
{
    if j <= 0 {
        cells
    } else {
        place_seg(cells, x, y, vertical, j - 1).update(seg_pos(x, y, vertical, j - 1), CellState::Ship)
    }
}

/// The ship record created for an accepted placement.
pub open spec fn placement_ship(sp: ShipPlacement) -> Ship {
    Ship { size: sp.size, hits: 0, sunk: false, x: sp.x, y: sp.y, vertical: sp.vertical }
}

/// An all-water grid content.
pub open spec fn empty_cells() -> Seq<CellState> {
    Seq::new(100, |i: int| CellState::Empty)
}

/// Number of occurrences of `v` in `s`.
pub open spec fn count_val(s: Seq<u8>, v: u8) -> nat
    decreases s.len(),
{
    if s.len() == 0 {
        0
    } else {
        count_val(s.drop_last(), v) + if s.last() == v {
            1nat
        } else {
            0nat
        }
    }
}

/// The one accepted fleet composition: exactly the size multiset
/// {5, 4, 3, 3, 2}.
pub open spec fn valid_fleet_sizes(sizes: Seq<u8>) -> bool {
    &&& sizes.len() == 5
    &&& count_val(sizes, 5) == 1
    &&& count_val(sizes, 4) == 1
    &&& count_val(sizes, 3) == 2
    &&& count_val(sizes, 2) == 1
}

proof fn lemma_counts_le(s: Seq<u8>)
    ensures
        count_val(s, 5) + count_val(s, 4) + count_val(s, 3) + count_val(s, 2) <= s.len(),
    decreases s.len(),
{
    if s.len() > 0 {
        lemma_counts_le(s.drop_last());
    }
}

/// In a valid fleet every ship size is one of 5, 4, 3, 2.
proof fn lemma_fleet_sizes_cover(s: Seq<u8>)
    requires
        count_val(s, 5) + count_val(s, 4) + count_val(s, 3) + count_val(s, 2) == s.len(),
    ensures
        forall|i: int| 0 <= i < s.len() ==> (s[i] == 5 || s[i] == 4 || s[i] == 3 || s[i] == 2),
    decreases s.len(),
{
    if s.len() > 0 {
        let pre = s.drop_last();
        let last = s.last();
        lemma_counts_le(pre);
        if last == 5 || last == 4 || last == 3 || last == 2 {
            lemma_fleet_sizes_cover(pre);
            assert(forall|i: int| 0 <= i < pre.len() ==> s[i] == pre[i]);
        } else {
            // The last element would make the counts fall short of the length.
            assert(false);
        }
    }
}

proof fn lemma_count_val_is_multiset_count(s: Seq<u8>, v: u8)
    ensures
        count_val(s, v) == s.to_multiset().count(v),
    decreases s.len(),
{
    broadcast use vstd::seq_lib::group_to_multiset_ensures;
    broadcast use vstd::multiset::group_multiset_axioms;

    if s.len() == 0 {
        assert(!s.contains(v));
    } else {
        let pre = s.drop_last();
        lemma_count_val_is_multiset_count(pre, v);
        assert(s =~= pre.push(s.last()));
    }
}

proof fn lemma_count_val_absent(s: Seq<u8>, v: u8)
    requires
        forall|i: int| 0 <= i < s.len() ==> s[i] != v,
    ensures
        count_val(s, v) == 0,
    decreases s.len(),
{
    if s.len() > 0 {
        lemma_count_val_absent(s.drop_last(), v);
    }
}

/// The number of times `v` occurs in the fleet composition {5, 4, 3, 3, 2}.
pub open spec fn fleet_count(v: u8) -> nat {
    if v == 5 || v == 4 || v == 2 {
        1
    } else if v == 3 {
        2
    } else {
        0
    }
}

proof fn lemma_fleet_seq_counts(v: u8)
    ensures
        count_val(seq![5u8, 4u8, 3u8, 3u8, 2u8], v) == fleet_count(v),
{
    let t5 = seq![5u8, 4u8, 3u8, 3u8, 2u8];
    let t4 = seq![5u8, 4u8, 3u8, 3u8];
    let t3 = seq![5u8, 4u8, 3u8];
    let t2 = seq![5u8, 4u8];
    let t1 = seq![5u8];
    assert(t5.drop_last() =~= t4);
    assert(t4.drop_last() =~= t3);
    assert(t3.drop_last() =~= t2);
    assert(t2.drop_last() =~= t1);
    assert(t1.drop_last() =~= Seq::<u8>::empty());
    assert(t5.last() == 2 && t4.last() == 3 && t3.last() == 3 && t2.last() == 4 && t1.last() == 5);
    assert(count_val(Seq::<u8>::empty(), v) == 0);
    assert(count_val(t1, v) == count_val(Seq::<u8>::empty(), v) + if v == 5 {
        1nat
    } else {
        0nat
    });
    assert(count_val(t2, v) == count_val(t1, v) + if v == 4 {
        1nat
    } else {
        0nat
    });
    assert(count_val(t3, v) == count_val(t2, v) + if v == 3 {
        1nat
    } else {
        0nat
    });
    assert(count_val(t4, v) == count_val(t3, v) + if v == 3 {
        1nat
    } else {
        0nat
    });
    assert(count_val(t5, v) == count_val(t4, v) + if v == 2 {
        1nat
    } else {
        0nat
    });
}

/// The fleet composition {5, 4, 3, 3, 2} as a multiset.
pub open spec fn fleet_multiset() -> Multiset<u8> {
    seq![5u8, 4u8, 3u8, 3u8, 2u8].to_multiset()
}

/// Law: the accepted fleet compositions are exactly those whose sizes form
/// the multiset {5, 4, 3, 3, 2}.
pub proof fn lemma_valid_fleet_is_multiset(sizes: Seq<u8>)
    ensures
        valid_fleet_sizes(sizes) <==> sizes.to_multiset() == fleet_multiset(),
{
    broadcast use vstd::seq_lib::group_to_multiset_ensures;

    let target = seq![5u8, 4u8, 3u8, 3u8, 2u8];
    assert(fleet_multiset() == target.to_multiset());
    if valid_fleet_sizes(sizes) {
        lemma_fleet_sizes_cover(sizes);
        assert forall|v: u8| sizes.to_multiset().count(v) == target.to_multiset().count(v) by {
            lemma_count_val_is_multiset_count(sizes, v);
            lemma_count_val_is_multiset_count(target, v);
            lemma_fleet_seq_counts(v);
            if !(v == 5 || v == 4 || v == 3 || v == 2) {
                lemma_count_val_absent(sizes, v);
            }
        }
        assert(sizes.to_multiset() =~= target.to_multiset());
    }
    if sizes.to_multiset() == fleet_multiset() {
        assert(sizes.len() == target.len()) by {
            assert(sizes.to_multiset().len() == target.to_multiset().len());
        }
        assert forall|v: u8| #[trigger] count_val(sizes, v) == fleet_count(v) by {
            lemma_count_val_is_multiset_count(sizes, v);
            lemma_count_val_is_multiset_count(target, v);
            lemma_fleet_seq_counts(v);
        }
        assert(count_val(sizes, 5) == 1);
        assert(count_val(sizes, 4) == 1);
        assert(count_val(sizes, 3) == 2);
        assert(count_val(sizes, 2) == 1);
        assert(valid_fleet_sizes(sizes));
    }
}

/// The grid produced by placing `ps` one after the other onto `cells`, or
/// `None` if some ship leaves the grid or overlaps an earlier one.
pub open spec fn fleet_grid(cells: Seq<CellState>, ps: Seq<ShipPlacement>) -> Option<Seq<CellState>>
    decreases ps.len(),
{
    if ps.len() == 0 {
        Some(cells)
    } else {
        let sp = ps[0];
        if extent_ok(sp.x, sp.y, sp.size, sp.vertical) && cells_free(cells, sp.x, sp.y, sp.size, sp.vertical) {
            fleet_grid(
                place_seg(cells, sp.x, sp.y, sp.vertical, sp.size as int),
                ps.subrange(1, ps.len() as int),
            )
        } else {
            None
        }
    }
}

/// Everything `place_fleet` promises.
pub open spec fn place_fleet_post(
    pre: Player,
    post: Player,
    ps: Seq<ShipPlacement>,
    r: Result<(), ErrorKind>,
) -> bool {
    if !valid_fleet_sizes(ps.map_values(|sp: ShipPlacement| sp.size)) {
        &&& r == Result::<(), ErrorKind>::Err(ErrorKind::ValidationFailed)
        &&& post == pre
    } else {
        match fleet_grid(empty_cells(), ps) {
            Some(cells) => {
                &&& r == Result::<(), ErrorKind>::Ok(())
                &&& post.grid.cells@ == cells
                &&& post.ships@ == ps.map_values(|sp: ShipPlacement| placement_ship(sp))
                &&& post.ships_placed
                &&& post == (Player {
                    grid: post.grid,
                    ships: post.ships,
                    ships_placed: true,
                    ..pre
                })
            },
            None => {
                // Atomicity: a rejected submission leaves no partial fleet.
                &&& r == Result::<(), ErrorKind>::Err(ErrorKind::ValidationFailed)
                &&& post.grid.cells@ == empty_cells()
                &&& post.ships@.len() == 0
                &&& post == (Player {
                    grid: post.grid,
                    ships: post.ships,
                    ships_placed: false,
                    ..pre
                })
            },
        }
    }
}

/// A player of one session.
#[derive(Clone, Debug)]
pub struct Player {
    pub id: u128,
    /// Identity known to the external verification collaborator.
    pub cf_handle: String,
    pub grid: Grid,
    pub ships: Vec<Ship>,
    /// Shots fired since the weapons were last unlocked.
    pub heat: u32,
    pub is_locked: bool,
    pub vetoes_used: u32,
    pub stats: PlayerStats,
    pub ships_placed: bool,
    /// When the running veto penalty started, if one does.
    pub veto_started_at: Option<u64>,
    /// When the last solve-check was attempted (rate-limit gate).
    pub last_verification_attempt: Option<u64>,
}

/// Player state the combat operations preserve, for the session's lock
/// threshold: the grid has its 100 cells, every ship record is sound, and
/// the lock is exactly the heat counter having reached the threshold.
pub open spec fn player_wf(p: Player, threshold: u32) -> bool {
    &&& p.grid.wf()
    &&& forall|i: int| 0 <= i < p.ships@.len() ==> ship_wf(#[trigger] p.ships@[i])
    &&& p.is_locked <==> p.heat >= threshold
    &&& p.heat <= threshold
}

/// A freshly created player with identity `id` and external handle `handle`.
pub open spec fn fresh_player(p: Player, id: u128, handle: Seq<char>) -> bool {
    &&& p.id == id
    &&& p.cf_handle@ == handle
    &&& p.grid.wf()
    &&& forall|i: int| 0 <= i < 100 ==> p.grid.cells@[i] == CellState::Empty
    &&& p.ships@.len() == 0
    &&& p.heat == 0
    &&& !p.is_locked
    &&& p.vetoes_used == 0
    &&& p.stats == (PlayerStats { ships_sunk: 0, cells_hit: 0, cells_missed: 0, problems_solved: 0 })
    &&& !p.ships_placed
    &&& p.veto_started_at is None
    &&& p.last_verification_attempt is None
}

/// Whether the running veto penalty of `p`, if any, has expired at `now`.
/// The penalty length is looked up at the index of the veto that started it.
pub open spec fn veto_expired(p: Player, penalties: [u64; 3], now: u64) -> bool {
    match p.veto_started_at {
        Some(st) => spec_elapsed(now, st) >= spec_penalty(penalties, p.vetoes_used.saturating_sub(1)),
        None => false,
    }
}

/// `p` with its lockout lifted: no heat, no lock, no pending veto timer.
pub open spec fn spec_unlocked(p: Player) -> Player {
    Player { heat: 0, is_locked: false, veto_started_at: None, ..p }
}

/// Everything `fire` promises, relating the shooter and the shot-at opponent
/// before and after the call.
pub open spec fn fire_post(
    pre_s: Player,
    post_s: Player,
    pre_o: Player,
    post_o: Player,
    x: usize,
    y: usize,
    threshold: u32,
    penalties: [u64; 3],
    now: u64,
    r: Result<(ShotOutcome, bool), ErrorKind>,
) -> bool {
    if x >= 10 || y >= 10 {
        &&& r == Result::<(ShotOutcome, bool), ErrorKind>::Err(ErrorKind::ValidationFailed)
        &&& post_s == pre_s
        &&& post_o == pre_o
    } else if pre_s.is_locked && !veto_expired(pre_s, penalties, now) {
        &&& r == Result::<(ShotOutcome, bool), ErrorKind>::Err(ErrorKind::Locked)
        &&& post_s == pre_s
        &&& post_o == pre_o
    } else {
        // The shooter, after a lazily expired veto lockout was cleared.
        let s0 = if pre_s.is_locked {
            spec_unlocked(pre_s)
        } else {
            pre_s
        };
        let cell = pre_o.grid.spec_at(x as int, y as int);
        let outcome = match cell {
            CellState::Empty => ShotOutcome::Miss,
            CellState::Ship => ShotOutcome::Hit,
            _ => ShotOutcome::AlreadyFired,
        };
        let k = first_cover(pre_o.ships@, x as int, y as int);
        let struck = outcome == ShotOutcome::Hit && k >= 0;
        let sunk = struck && !pre_o.ships@[k].sunk && hit_once(pre_o.ships@[k]).sunk;
        &&& r == Result::<(ShotOutcome, bool), ErrorKind>::Ok((outcome, sunk))
        &&& post_o.grid.cells@ == match outcome {
            ShotOutcome::Miss => pre_o.grid.cells@.update(y as int * 10 + x as int, CellState::Miss),
            ShotOutcome::Hit => pre_o.grid.cells@.update(y as int * 10 + x as int, CellState::Hit),
            _ => pre_o.grid.cells@,
        }
        &&& post_o.ships@ == if struck {
            pre_o.ships@.update(k, hit_once(pre_o.ships@[k]))
        } else {
            pre_o.ships@
        }
        &&& post_o == (Player { grid: post_o.grid, ships: post_o.ships, ..pre_o })
        &&& post_s.stats == (PlayerStats {
            cells_hit: if outcome == ShotOutcome::Hit {
                s0.stats.cells_hit.saturating_add(1)
            } else {
                s0.stats.cells_hit
            },
            cells_missed: if outcome == ShotOutcome::Miss {
                s0.stats.cells_missed.saturating_add(1)
            } else {
                s0.stats.cells_missed
            },
            ships_sunk: if sunk {
                s0.stats.ships_sunk.saturating_add(1)
            } else {
                s0.stats.ships_sunk
            },
            problems_solved: s0.stats.problems_solved,
        })
        &&& post_s.heat == if outcome == ShotOutcome::AlreadyFired {
            s0.heat
        } else {
            (s0.heat + 1) as u32
        }
        &&& post_s.is_locked == (post_s.heat >= threshold)
        &&& post_s == (Player {
            heat: post_s.heat,
            is_locked: post_s.is_locked,
            stats: post_s.stats,
            veto_started_at: s0.veto_started_at,
            ..pre_s
        })
    }
}

/// Law: a resolved shot raises the shooter's heat by exactly one for a hit
/// or a miss and not at all for a repeated cell, and the weapons are locked
/// exactly when the heat has reached the threshold.
pub proof fn lemma_heat_per_shot(
    pre_s: Player,
    post_s: Player,
    pre_o: Player,
    post_o: Player,
    x: usize,
    y: usize,
    threshold: u32,
    penalties: [u64; 3],
    now: u64,
    outcome: ShotOutcome,
    sunk: bool,
)
    requires
        fire_post(
            pre_s,
            post_s,
            pre_o,
            post_o,
            x,
            y,
            threshold,
            penalties,
            now,
            Ok((outcome, sunk)),
        ),
        player_wf(pre_s, threshold),
        threshold >= 1,
        x < 10,
        y < 10,
        !(pre_s.is_locked && !veto_expired(pre_s, penalties, now)),
    ensures
        ({
            let s0 = if pre_s.is_locked {
                spec_unlocked(pre_s)
            } else {
                pre_s
            };
            &&& ((outcome == ShotOutcome::Hit || outcome == ShotOutcome::Miss) ==> post_s.heat
                == s0.heat + 1)
            &&& (outcome == ShotOutcome::AlreadyFired ==> post_s.heat == s0.heat)
            &&& (post_s.is_locked <==> post_s.heat >= threshold)
        }),
{
}

/// Law: firing while locked always fails with `Locked`, unless the running
/// veto penalty has expired, in which case the lock is cleared within the
/// same operation and the shot resolves.
pub proof fn lemma_locked_fire_rejected(
    pre_s: Player,
    post_s: Player,
    pre_o: Player,
    post_o: Player,
    x: usize,
    y: usize,
    threshold: u32,
    penalties: [u64; 3],
    now: u64,
    r: Result<(ShotOutcome, bool), ErrorKind>,
)
    requires
        fire_post(pre_s, post_s, pre_o, post_o, x, y, threshold, penalties, now, r),
        x < 10,
        y < 10,
        pre_s.is_locked,
    ensures
        !veto_expired(pre_s, penalties, now) ==> r == Result::<(ShotOutcome, bool), ErrorKind>::Err(
            ErrorKind::Locked,
        ) && post_s == pre_s && post_o == pre_o,
        veto_expired(pre_s, penalties, now) ==> r is Ok && post_s.is_locked == (post_s.heat
            >= threshold),
{
}

impl Player {
    /// A fresh player: empty grid, no fleet, cold weapons, zeroed stats.
    pub fn new(id: u128, cf_handle: String) -> (p: Player)
        ensures
            fresh_player(p, id, cf_handle@),
            forall|t: u32| t >= 1 ==> player_wf(p, t),
    {
        Player {
            id,
            cf_handle,
            grid: Grid::new(),
            ships: Vec::new(),
            heat: 0,
            is_locked: false,
            vetoes_used: 0,
            stats: PlayerStats { ships_sunk: 0, cells_hit: 0, cells_missed: 0, problems_solved: 0 },
            ships_placed: false,
            veto_started_at: None,
            last_verification_attempt: None,
        }
    }

    /// Unconditionally clear the lockout: heat back to exactly 0, lock off.
    pub fn unlock_weapons(&mut self)
        ensures
            final(self).heat == 0,
            !final(self).is_locked,
            *final(self) == (Player { heat: 0, is_locked: false, ..*old(self) }),
    {
        self.is_locked = false;
        self.heat = 0;
    }

    /// Fire at `(x, y)` of `opponent`'s grid.
    ///
    /// Rejected while the weapons are locked, unless the running veto
    /// penalty has expired, in which case the lock is cleared first and the
    /// shot proceeds. A hit or a miss raises the shooter's heat by exactly
    /// one, and the weapons lock exactly when the heat reaches the
    /// threshold; a repeated shot at the same cell changes nothing. A hit is
    /// attributed to the first ship covering the cell, and sinking it
    /// credits the shooter once.
    pub fn fire(
        &mut self,
        opponent: &mut Player,
        x: usize,
        y: usize,
        heat_threshold: u32,
        veto_penalties: &[u64; 3],
        now: u64,
    ) -> (r: Result<(ShotOutcome, bool), ErrorKind>)
        requires
            player_wf(*old(self), heat_threshold),
            player_wf(*old(opponent), heat_threshold),
            heat_threshold >= 1,
        ensures
            player_wf(*final(self), heat_threshold),
            player_wf(*final(opponent), heat_threshold),
            fire_post(
                *old(self),
                *final(self),
                *old(opponent),
                *final(opponent),
                x,
                y,
                heat_threshold,
                *veto_penalties,
                now,
                r,
            ),
    {
        if x >= 10 || y >= 10 {
            return Err(ErrorKind::ValidationFailed);
        }
        if self.is_locked {
            let expired = match self.veto_started_at {
                Some(st) => {
                    now.saturating_sub(st) >= penalty(
                        veto_penalties,
                        self.vetoes_used.saturating_sub(1),
                    )
                },
                None => false,
            };
            if expired {
                // The veto penalty has run out: clear the lockout lazily.
                self.is_locked = false;
                self.heat = 0;
                self.veto_started_at = None;
            } else {
                return Err(ErrorKind::Locked);
            }
        }
        let result = opponent.grid.receive_shot(x, y);
        let mut sunk_this_shot = false;
        if result == ShotOutcome::Hit {
            self.stats.cells_hit = self.stats.cells_hit.saturating_add(1);
            // Attribute the hit to the first ship covering the cell.
            let n = opponent.ships.len();
            let mut i: usize = 0;
            let mut found: Option<usize> = None;
            while i < n
                invariant
                    n == opponent.ships@.len(),
                    i <= n,
                    forall|j: int|
                        0 <= j < opponent.ships@.len() ==> ship_wf(#[trigger] opponent.ships@[j]),
                    match found {
                        None => forall|j: int|
                            0 <= j < i as int ==> !ship_covers(
                                #[trigger] opponent.ships@[j],
                                x as int,
                                y as int,
                            ),
                        Some(k) => {
                            &&& k < n
                            &&& i == n
                            &&& ship_covers(opponent.ships@[k as int], x as int, y as int)
                            &&& forall|j: int|
                                0 <= j < k as int ==> !ship_covers(
                                    #[trigger] opponent.ships@[j],
                                    x as int,
                                    y as int,
                                )
                        },
                    },
                decreases n - i,
            {
                let s = opponent.ships[i];
                let covers = if s.vertical {
                    x == s.x && y >= s.y && y < s.y + s.size as usize
                } else {
                    y == s.y && x >= s.x && x < s.x + s.size as usize
                };
                if covers {
                    found = Some(i);
                    i = n;
                } else {
                    i = i + 1;
                }
            }
            match found {
                Some(k) => {
                    proof {
                        lemma_first_cover_at(opponent.ships@, x as int, y as int, k as int);
                    }
                    let s = opponent.ships[k];
                    let new_hits = s.hits.saturating_add(1);
                    let newly_sunk = new_hits >= s.size && !s.sunk;
                    opponent.ships[k] = Ship {
                        hits: new_hits,
                        sunk: s.sunk || new_hits >= s.size,
                        ..s
                    };
                    if newly_sunk {
                        self.stats.ships_sunk = self.stats.ships_sunk.saturating_add(1);
                        sunk_this_shot = true;
                    }
                },
                None => {
                    proof {
                        lemma_first_cover_none(opponent.ships@, x as int, y as int);
                    }
                },
            }
        } else if result == ShotOutcome::Miss {
            self.stats.cells_missed = self.stats.cells_missed.saturating_add(1);
        }
        if result == ShotOutcome::Hit || result == ShotOutcome::Miss {
            self.heat = self.heat + 1;
        }
        if self.heat >= heat_threshold {
            self.is_locked = true;
        }
        Ok((result, sunk_this_shot))
    }

    /// Place one ship with its origin at `(x, y)`: rejected if the extent
    /// leaves the grid or touches a cell that is not water; otherwise the
    /// cells are marked and the ship is appended to the fleet.
    pub fn place_ship(&mut self, ship: Ship, x: usize, y: usize, vertical: bool) -> (r: Result<
        (),
        ErrorKind,
    >)
        requires
            old(self).grid.wf(),
        ensures
            final(self).grid.wf(),
            !(extent_ok(x, y, ship.size, vertical) && cells_free(
                old(self).grid.cells@,
                x,
                y,
                ship.size,
                vertical,
            )) ==> r == Result::<(), ErrorKind>::Err(ErrorKind::ValidationFailed) && *final(self)
                == *old(self),
            (extent_ok(x, y, ship.size, vertical) && cells_free(
                old(self).grid.cells@,
                x,
                y,
                ship.size,
                vertical,
            )) ==> {
                &&& r == Result::<(), ErrorKind>::Ok(())
                &&& final(self).grid.cells@ == place_seg(
                    old(self).grid.cells@,
                    x,
                    y,
                    vertical,
                    ship.size as int,
                )
                &&& final(self).ships@ == old(self).ships@.push(
                    Ship { size: ship.size, hits: ship.hits, sunk: ship.sunk, x, y, vertical },
                )
                &&& *final(self) == (Player {
                    grid: final(self).grid,
                    ships: final(self).ships,
                    ..*old(self)
                })
            },
    {
        if x >= 10 || y >= 10 {
            return Err(ErrorKind::ValidationFailed);
        }
        let size = ship.size as usize;
        if vertical {
            if y + size > 10 {
                return Err(ErrorKind::ValidationFailed);
            }
        } else {
            if x + size > 10 {
                return Err(ErrorKind::ValidationFailed);
            }
        }
        // First pass: the whole extent must still be water.
        let mut k: usize = 0;
        while k < size
            invariant
                *self == *old(self),
                self.grid.wf(),
                size == ship.size,
                extent_ok(x, y, ship.size, vertical),
                k <= size,
                forall|j: int|
                    0 <= j < k as int ==> self.grid.cells@[#[trigger] seg_pos(x, y, vertical, j)]
                        == CellState::Empty,
            decreases size - k,
        {
            let pos: usize = if vertical {
                (y + k) * 10 + x
            } else {
                y * 10 + x + k
            };
            if self.grid.cells[pos] != CellState::Empty {
                proof {
                    assert(seg_pos(x, y, vertical, k as int) == pos as int);
                    assert(!cells_free(self.grid.cells@, x, y, ship.size, vertical));
                }
                return Err(ErrorKind::ValidationFailed);
            }
            k = k + 1;
        }
        // Second pass: mark the extent.
        k = 0;
        while k < size
            invariant
                self.grid.wf(),
                size == ship.size,
                extent_ok(x, y, ship.size, vertical),
                k <= size,
                self.grid.cells@ == place_seg(old(self).grid.cells@, x, y, vertical, k as int),
                *self == (Player { grid: self.grid, ..*old(self) }),
            decreases size - k,
        {
            let pos: usize = if vertical {
                (y + k) * 10 + x
            } else {
                y * 10 + x + k
            };
            self.grid.cells[pos] = CellState::Ship;
            k = k + 1;
        }
        let mut placed = ship;
        placed.x = x;
        placed.y = y;
        placed.vertical = vertical;
        self.ships.push(placed);
        Ok(())
    }

    /// Validate and place a whole submitted fleet atomically. The
    /// composition must be exactly the size multiset {5, 4, 3, 3, 2}; the
    /// ships are then placed in order onto a cleared grid, and any single
    /// failure rejects the submission and leaves the fleet empty.
    pub fn place_fleet(&mut self, ships: &Vec<ShipPlacement>) -> (r: Result<(), ErrorKind>)
        requires
            old(self).grid.wf(),
        ensures
            final(self).grid.wf(),
            place_fleet_post(*old(self), *final(self), ships@, r),
            r is Ok ==> forall|i: int|
                0 <= i < final(self).ships@.len() ==> ship_wf(#[trigger] final(self).ships@[i]),
    {
        let ghost sizes = ships@.map_values(|sp: ShipPlacement| sp.size);
        let n = ships.len();
        if n != 5 {
            return Err(ErrorKind::ValidationFailed);
        }
        let mut c5: usize = 0;
        let mut c4: usize = 0;
        let mut c3: usize = 0;
        let mut c2: usize = 0;
        let mut i: usize = 0;
        while i < n
            invariant
                n == ships@.len(),
                i <= n,
                c5 <= i && c4 <= i && c3 <= i && c2 <= i,
                c5 == count_val(ships@.take(i as int).map_values(|sp: ShipPlacement| sp.size), 5),
                c4 == count_val(ships@.take(i as int).map_values(|sp: ShipPlacement| sp.size), 4),
                c3 == count_val(ships@.take(i as int).map_values(|sp: ShipPlacement| sp.size), 3),
                c2 == count_val(ships@.take(i as int).map_values(|sp: ShipPlacement| sp.size), 2),
            decreases n - i,
        {
            proof {
                assert(ships@.take(i as int + 1).map_values(|sp: ShipPlacement| sp.size).drop_last()
                    =~= ships@.take(i as int).map_values(|sp: ShipPlacement| sp.size));
                assert(ships@.take(i as int + 1).map_values(|sp: ShipPlacement| sp.size).last()
                    == ships@[i as int].size);
            }
            let s = ships[i].size;
            if s == 5 {
                c5 = c5 + 1;
            } else if s == 4 {
                c4 = c4 + 1;
            } else if s == 3 {
                c3 = c3 + 1;
            } else if s == 2 {
                c2 = c2 + 1;
            }
            i = i + 1;
        }
        proof {
            assert(ships@.take(n as int) =~= ships@);
            assert(ships@.take(n as int).map_values(|sp: ShipPlacement| sp.size) =~= sizes);
        }
        if !(c5 == 1 && c4 == 1 && c3 == 2 && c2 == 1) {
            return Err(ErrorKind::ValidationFailed);
        }
        proof {
            lemma_fleet_sizes_cover(sizes);
        }
        // The composition is right: clear any previous attempt, then place.
        self.ships = Vec::new();
        self.grid = Grid::new();
        proof {
            assert(self.grid.cells@ =~= empty_cells());
        }
        let mut ok = true;
        i = 0;
        while i < n && ok
            invariant
                n == ships@.len(),
                n == 5,
                i <= n,
                sizes == ships@.map_values(|sp: ShipPlacement| sp.size),
                valid_fleet_sizes(sizes),
                forall|j: int|
                    0 <= j < n as int ==> (#[trigger] sizes[j] == 5 || sizes[j] == 4 || sizes[j]
                        == 3 || sizes[j] == 2),
                self.grid.wf(),
                ok ==> fleet_grid(empty_cells(), ships@) == fleet_grid(
                    self.grid.cells@,
                    ships@.subrange(i as int, n as int),
                ),
                ok ==> self.ships@ == ships@.subrange(0, i as int).map_values(
                    |sp: ShipPlacement| placement_ship(sp),
                ),
                ok ==> forall|j: int|
                    0 <= j < self.ships@.len() ==> ship_wf(#[trigger] self.ships@[j]),
                *self == (Player { grid: self.grid, ships: self.ships, ..*old(self) }),
                !ok ==> fleet_grid(empty_cells(), ships@) is None,
            decreases n - i, (if ok { 1int } else { 0int }),
        {
            let sp = ships[i];
            proof {
                assert(sizes[i as int] == sp.size);
            }
            let res = self.place_ship(
                Ship { size: sp.size, hits: 0, sunk: false, x: sp.x, y: sp.y, vertical: sp.vertical },
                sp.x,
                sp.y,
                sp.vertical,
            );
            proof {
                assert(ships@.subrange(i as int, n as int)[0] == sp);
                assert(ships@.subrange(i as int, n as int).subrange(
                    1,
                    ships@.subrange(i as int, n as int).len() as int,
                ) =~= ships@.subrange(i as int + 1, n as int));
            }
            match res {
                Ok(()) => {
                    proof {
                        assert(ships@.subrange(0, i as int + 1).map_values(
                            |sp: ShipPlacement| placement_ship(sp),
                        ) =~= ships@.subrange(0, i as int).map_values(
                            |sp: ShipPlacement| placement_ship(sp),
                        ).push(placement_ship(sp)));
                    }
                    i = i + 1;
                },
                Err(_) => {
                    ok = false;
                },
            }
        }
        if ok {
            proof {
                assert(ships@.subrange(n as int, n as int) =~= Seq::<ShipPlacement>::empty());
                assert(ships@.subrange(0, n as int) =~= ships@);
            }
            self.ships_placed = true;
            Ok(())
        } else {
            self.ships = Vec::new();
            self.grid = Grid::new();
            self.ships_placed = false;
            proof {
                assert(self.grid.cells@ =~= empty_cells());
            }
            Err(ErrorKind::ValidationFailed)
        }
    }

    /// Start a veto penalty: only a locked player with quota left may, and
    /// the penalty length is the table entry at the number of vetoes already
    /// used, before this one is counted.
    pub fn veto_start(&mut self, max_vetoes: u32, penalties: &[u64; 3], now: u64) -> (r: Result<
        u64,
        ErrorKind,
    >)
        ensures
            !old(self).is_locked ==> r == Result::<u64, ErrorKind>::Err(ErrorKind::InvalidState)
                && *final(self) == *old(self),
            old(self).is_locked && old(self).vetoes_used >= max_vetoes ==> r == Result::<
                u64,
                ErrorKind,
            >::Err(ErrorKind::ValidationFailed) && *final(self) == *old(self),
            old(self).is_locked && old(self).vetoes_used < max_vetoes ==> r == Result::<
                u64,
                ErrorKind,
            >::Ok(spec_penalty(*penalties, old(self).vetoes_used)) && *final(self) == (Player {
                veto_started_at: Some(now),
                vetoes_used: (old(self).vetoes_used + 1) as u32,
                ..*old(self)
            }),
    {
        if !self.is_locked {
            return Err(ErrorKind::InvalidState);
        }
        if self.vetoes_used >= max_vetoes {
            return Err(ErrorKind::ValidationFailed);
        }
        let d = penalty(penalties, self.vetoes_used);
        self.veto_started_at = Some(now);
        self.vetoes_used = self.vetoes_used + 1;
        Ok(d)
    }

    /// Gate one solve-check attempt: rejected outright while a veto penalty
    /// is pending, and rate-limited to one attempt per ten seconds;
    /// otherwise the attempt is recorded at `now`.
    pub fn solve_gate(&mut self, now: u64) -> (r: Result<(), ErrorKind>)
        ensures
            old(self).veto_started_at is Some ==> r == Result::<(), ErrorKind>::Err(
                ErrorKind::InvalidState,
            ) && *final(self) == *old(self),
            old(self).veto_started_at is None && (match old(self).last_verification_attempt {
                Some(t) => spec_elapsed(now, t) < 10,
                None => false,
            }) ==> r == Result::<(), ErrorKind>::Err(ErrorKind::RateLimited) && *final(self)
                == *old(self),
            old(self).veto_started_at is None && !(match old(self).last_verification_attempt {
                Some(t) => spec_elapsed(now, t) < 10,
                None => false,
            }) ==> r == Result::<(), ErrorKind>::Ok(()) && *final(self) == (Player {
                last_verification_attempt: Some(now),
                ..*old(self)
            }),
    {
        if self.veto_started_at.is_some() {
            return Err(ErrorKind::InvalidState);
        }
        let limited = match self.last_verification_attempt {
            Some(t) => now.saturating_sub(t) < 10,
            None => false,
        };
        if limited {
            return Err(ErrorKind::RateLimited);
        }
        self.last_verification_attempt = Some(now);
        Ok(())
    }
}

} // verus!
