use vstd::prelude::*;

use crate::components::{AIAction, AIArchetype, Stats, TacticalAssessment};
use crate::geometry::{
    Entity, Position, cardinal_neighbor, cardinal_offset, cardinal_step, contains_position,
    interior_point,
    manhattan, manhattan_distance,
};
use crate::map::{MapView, TacticalMap, Tile, tile_cost};
use crate::components::WeatherType;

verus! {

/// Tactical decisions of enemy units.
pub struct TacticalAI;

/// A unit as the AI sees it: handle, position and stats.
pub type Unit = (Entity, Position, Stats);

// ------------------------------------------------------------------
// Threat look-ups
// ------------------------------------------------------------------

/// Threat recorded for `p`: the value of the first entry at `p` from index `i`
/// on, or 0 when there is none.
pub open spec fn threat_from(tm: Seq<(Position, i32)>, p: Position, i: int) -> int
    decreases tm.len() - i,
{
    if i < 0 || i >= tm.len() {
        0
    } else if tm[i].0 == p {
        tm[i].1 as int
    } else {
        threat_from(tm, p, i + 1)
    }
}

/// Threat recorded for `p` in a threat map (0 when `p` is not listed).
pub open spec fn threat_at(tm: Seq<(Position, i32)>, p: Position) -> int {
    threat_from(tm, p, 0)
}

fn lookup_threat(tm: &Vec<(Position, i32)>, p: Position) -> (r: i32)
    ensures
        r == threat_at(tm@, p),
{
    let n = tm.len();
    let mut i: usize = 0;
    while i < n
        invariant
            i <= n,
            n == tm@.len(),
            threat_from(tm@, p, 0) == threat_from(tm@, p, i as int),
        decreases n - i,
    {
        if tm[i].0 == p {
            return tm[i].1;
        }
        i = i + 1;
    }
    0
}

/// The first position of `safe` with the least threat, with that threat,
/// among the first `k` candidates.
pub open spec fn least_threat_upto(
    safe: Seq<Position>,
    tm: Seq<(Position, i32)>,
    k: int,
) -> Option<(Position, int)>
    decreases k,
{
    if k <= 0 {
        None
    } else {
        let prev = least_threat_upto(safe, tm, k - 1);
        let t = threat_at(tm, safe[k - 1]);
        match prev {
            None => Some((safe[k - 1], t)),
            Some((_, bt)) => if t < bt {
                Some((safe[k - 1], t))
            } else {
                prev
            },
        }
    }
}

/// The least threatened of the candidate positions (the first on ties).
pub open spec fn least_threatened(safe: Seq<Position>, tm: Seq<(Position, i32)>) -> Option<Position> {
    match least_threat_upto(safe, tm, safe.len() as int) {
        Some((p, _)) => Some(p),
        None => None,
    }
}

fn least_threatened_exec(safe: &Vec<Position>, tm: &Vec<(Position, i32)>) -> (r: Option<Position>)
    ensures
        r == least_threatened(safe@, tm@),
{
    let n = safe.len();
    let mut best: Option<(Position, i32)> = None;
    let mut i: usize = 0;
    while i < n
        invariant
            i <= n,
            n == safe@.len(),
            match best {
                None => least_threat_upto(safe@, tm@, i as int) is None,
                Some((p, t)) => least_threat_upto(safe@, tm@, i as int) == Some((p, t as int)),
            },
        decreases n - i,
    {
        let t = lookup_threat(tm, safe[i]);
        match best {
            None => {
                best = Some((safe[i], t));
            },
            Some((_, bt)) => {
                if t < bt {
                    best = Some((safe[i], t));
                }
            },
        }
        i = i + 1;
    }
    match best {
        Some((p, _)) => Some(p),
        None => None,
    }
}

// ------------------------------------------------------------------
// Health ratios
// ------------------------------------------------------------------

/// The health of `s` is strictly below `num / den` of its maximum; a unit with
/// no positive maximum counts as having none.
pub open spec fn health_below(s: Stats, num: int, den: int) -> bool {
    s.max_hp <= 0 || (s.hp as int) * den < num * (s.max_hp as int)
}

fn health_below_exec(s: &Stats, num: i64, den: i64) -> (r: bool)
    requires
        0 < num <= 10,
        0 < den <= 10,
    ensures
        r == health_below(*s, num as int, den as int),
{
    assert(-30000000000 <= s.hp as int * den as int <= 30000000000) by (nonlinear_arith)
        requires
            i32::MIN <= s.hp <= i32::MAX,
            0 < den <= 10,
    ;
    assert(-30000000000 <= num as int * s.max_hp as int <= 30000000000) by (nonlinear_arith)
        requires
            i32::MIN <= s.max_hp <= i32::MAX,
            0 < num <= 10,
    ;
    s.max_hp <= 0 || (s.hp as i64) * den < num * (s.max_hp as i64)
}

/// Health fraction as a pair (numerator, positive denominator): hp / max_hp, or
/// 0 when the maximum is not positive.
pub open spec fn health_fraction(s: Stats) -> (int, int) {
    if s.max_hp > 0 {
        (s.hp as int, s.max_hp as int)
    } else {
        (0, 1)
    }
}

pub open spec fn fraction_lt(a: (int, int), b: (int, int)) -> bool {
    a.0 * b.1 < b.0 * a.1
}

// ------------------------------------------------------------------
// Target selection
// ------------------------------------------------------------------

/// Index of the first unit with the least HP among the first `k`.
pub open spec fn weakest_upto(units: Seq<Unit>, k: int) -> Option<int>
    decreases k,
{
    if k <= 0 {
        None
    } else {
        match weakest_upto(units, k - 1) {
            None => Some(k - 1),
            Some(b) => if units[k - 1].2.hp < units[b].2.hp {
                Some(k - 1)
            } else {
                Some(b)
            },
        }
    }
}

/// The unit with the least HP (the first on ties), as handle and position.
pub open spec fn focus_target(units: Seq<Unit>) -> Option<(Entity, Position)> {
    match weakest_upto(units, units.len() as int) {
        Some(i) => Some((units[i].0, units[i].1)),
        None => None,
    }
}

proof fn lemma_weakest_in_range(units: Seq<Unit>, k: int)
    requires
        0 <= k <= units.len(),
    ensures
        k == 0 <==> weakest_upto(units, k) is None,
        weakest_upto(units, k) matches Some(i) ==> {
            &&& 0 <= i < k
            &&& forall|j: int| 0 <= j < k ==> units[i].2.hp <= #[trigger] units[j].2.hp
            &&& forall|j: int| 0 <= j < i ==> units[i].2.hp < #[trigger] units[j].2.hp
        },
    decreases k,
{
    if k > 0 {
        lemma_weakest_in_range(units, k - 1);
    }
}

/// Entry `i` holds the least HP, and every earlier entry holds more.
pub open spec fn first_weakest(units: Seq<Unit>, i: int) -> bool {
    &&& 0 <= i < units.len()
    &&& forall|j: int| 0 <= j < units.len() ==> units[i].2.hp <= #[trigger] units[j].2.hp
    &&& forall|j: int| 0 <= j < i ==> units[i].2.hp < #[trigger] units[j].2.hp
}

/// Index of the first unit nearest to `p` among the first `k`.
pub open spec fn nearest_upto(units: Seq<Unit>, p: Position, k: int) -> Option<int>
    decreases k,
{
    if k <= 0 {
        None
    } else {
        match nearest_upto(units, p, k - 1) {
            None => Some(k - 1),
            Some(b) => if manhattan(units[k - 1].1, p) < manhattan(units[b].1, p) {
                Some(k - 1)
            } else {
                Some(b)
            },
        }
    }
}

proof fn lemma_nearest_in_range(units: Seq<Unit>, p: Position, k: int)
    requires
        0 <= k <= units.len(),
    ensures
        k == 0 <==> nearest_upto(units, p, k) is None,
        nearest_upto(units, p, k) matches Some(i) ==> 0 <= i < k,
    decreases k,
{
    if k > 0 {
        lemma_nearest_in_range(units, p, k - 1);
    }
}

/// Index of the first unit within distance 2 of `fp` from index `k` on.
pub open spec fn close_unit_from(units: Seq<Unit>, fp: Position, k: int) -> Option<int>
    decreases units.len() - k,
{
    if k < 0 || k >= units.len() {
        None
    } else if manhattan(units[k].1, fp) <= 2 {
        Some(k)
    } else {
        close_unit_from(units, fp, k + 1)
    }
}

/// The first flank position (from index `k` on) that has a unit within
/// distance 2, paired with the first such unit.
pub open spec fn flank_pick_from(fps: Seq<Position>, units: Seq<Unit>, k: int) -> Option<(Entity, Position)>
    decreases fps.len() - k,
{
    if k < 0 || k >= fps.len() {
        None
    } else {
        match close_unit_from(units, fps[k], 0) {
            Some(i) => Some((units[i].0, fps[k])),
            None => flank_pick_from(fps, units, k + 1),
        }
    }
}

proof fn lemma_close_unit_from_range(units: Seq<Unit>, fp: Position, k: int)
    requires
        0 <= k,
    ensures
        close_unit_from(units, fp, k) matches Some(i) ==> k <= i < units.len(),
    decreases units.len() - k,
{
    if k < units.len() && manhattan(units[k].1, fp) > 2 {
        lemma_close_unit_from_range(units, fp, k + 1);
    }
}

impl TacticalAI {
    /// The living target to focus: the first unit with the least HP.
    pub fn focus_fire_target(players: &[Unit]) -> (r: Option<(Entity, Position)>)
        ensures
            r == focus_target(players@),
            r is None <==> players@.len() == 0,
            r matches Some((e, p)) ==> exists|i: int|
                #[trigger] first_weakest(players@, i) && players@[i].0 == e && players@[i].1 == p,
    {
        let n = players.len();
        let mut best: Option<usize> = None;
        let mut i: usize = 0;
        while i < n
            invariant
                i <= n,
                n == players@.len(),
                match best {
                    None => weakest_upto(players@, i as int) is None,
                    Some(b) => weakest_upto(players@, i as int) == Some(b as int) && b < i,
                },
            decreases n - i,
        {
            match best {
                None => {
                    best = Some(i);
                },
                Some(b) => {
                    if players[i].2.hp < players[b].2.hp {
                        best = Some(i);
                    }
                },
            }
            i = i + 1;
        }
        proof {
            lemma_weakest_in_range(players@, n as int);
        }
        match best {
            Some(b) => {
                assert(first_weakest(players@, b as int));
                Some((players[b].0, players[b].1))
            },
            None => None,
        }
    }
}

// ------------------------------------------------------------------
// Threat map
// ------------------------------------------------------------------

/// Integer division rounded toward zero, for a positive divisor.
pub open spec fn div_toward_zero(a: int, b: int) -> int {
    if a >= 0 {
        a / b
    } else {
        -((-a) / b)
    }
}

/// Threat a unit with attack `atk` exerts at distance `dist`: triple attack on
/// its own cell, double attack over the distance within 2, attack over the
/// distance within 5, nothing farther.
pub open spec fn threat_contribution(atk: int, dist: int) -> int {
    if dist == 0 {
        atk * 3
    } else if dist <= 2 {
        div_toward_zero(atk * 2, dist)
    } else if dist <= 5 {
        div_toward_zero(atk, dist)
    } else {
        0
    }
}

/// The threat that the first `k` units exert on cell (x, y).
pub open spec fn cell_threat_upto(units: Seq<Unit>, x: int, y: int, k: int) -> int
    decreases k,
{
    if k <= 0 {
        0
    } else {
        cell_threat_upto(units, x, y, k - 1) + threat_contribution(
            units[k - 1].2.atk as int,
            manhattan(units[k - 1].1, Position { x: x as i16, y: y as i16 }),
        )
    }
}

/// Total threat on cell (x, y): all units, plus 20 on lava.
pub open spec fn cell_threat(m: MapView, units: Seq<Unit>, x: int, y: int) -> int {
    cell_threat_upto(units, x, y, units.len() as int) + if m.tile_at(x, y) == Tile::Lava {
        20int
    } else {
        0
    }
}

pub open spec fn fits_i32(v: int) -> bool {
    i32::MIN <= v <= i32::MAX
}

/// No step of the threat sum on cell (x, y) leaves `i32`.
pub open spec fn cell_threat_fits(m: MapView, units: Seq<Unit>, x: int, y: int) -> bool {
    &&& forall|k: int|
        0 <= k <= units.len() ==> fits_i32(#[trigger] cell_threat_upto(units, x, y, k))
    &&& forall|k: int|
        0 <= k < units.len() ==> {
            let d = manhattan(units[k].1, Position { x: x as i16, y: y as i16 });
            &&& (d == 0 ==> fits_i32(#[trigger] units[k].2.atk * 3))
            &&& (1 <= d <= 2 ==> fits_i32(units[k].2.atk * 2))
        }
    &&& fits_i32(cell_threat(m, units, x, y))
}

/// The side lengths of the map as the threat scan reads them (signed 16-bit).
pub open spec fn scan_extent(n: u16) -> int {
    let v = n as i16;
    if v < 0 {
        0
    } else {
        v as int
    }
}

/// Threat entries of the first `k` cells of row `y`.
pub open spec fn threat_row(m: MapView, units: Seq<Unit>, y: int, k: int) -> Seq<(Position, i32)>
    decreases k,
{
    if k <= 0 {
        Seq::empty()
    } else {
        threat_row(m, units, y, k - 1).push(
            (Position { x: (k - 1) as i16, y: y as i16 }, cell_threat(m, units, k - 1, y) as i32),
        )
    }
}

/// Threat entries of the first `k` rows, each row `w` cells wide.
pub open spec fn threat_rows(m: MapView, units: Seq<Unit>, w: int, k: int) -> Seq<(Position, i32)>
    decreases k,
{
    if k <= 0 {
        Seq::empty()
    } else {
        threat_rows(m, units, w, k - 1) + threat_row(m, units, k - 1, w)
    }
}

fn contribution_exec(atk: i32, dist: i32) -> (r: i32)
    requires
        dist >= 0,
        dist == 0 ==> fits_i32(atk * 3),
        1 <= dist <= 2 ==> fits_i32(atk * 2),
    ensures
        r == threat_contribution(atk as int, dist as int),
{
    if dist == 0 {
        atk * 3
    } else if dist <= 2 {
        atk * 2 / dist
    } else if dist <= 5 {
        atk / dist
    } else {
        0
    }
}

impl TacticalAI {
    /// The threat on every cell of the map, row by row: the pressure of each
    /// unit by distance, plus 20 on lava.
    pub fn calculate_threat_map(map: &TacticalMap, players: &[Unit]) -> (r: Vec<(Position, i32)>)
        requires
            map.wf(),
            forall|x: int, y: int|
                0 <= x < scan_extent(map.width) && 0 <= y < scan_extent(map.height)
                    ==> #[trigger] cell_threat_fits(map@, players@, x, y),
        ensures
            r@ == threat_rows(map@, players@, scan_extent(map.width), scan_extent(map.height)),
    {
        let w: i16 = map.width as i16;
        let h: i16 = map.height as i16;
        let mut threat: Vec<(Position, i32)> = Vec::new();
        let n = players.len();
        let mut y: i16 = 0;
        while y < h
            invariant
                map.wf(),
                n == players@.len(),
                w == map.width as i16,
                h == map.height as i16,
                0 <= y,
                y < h ==> y < scan_extent(map.height),
                h >= 0 ==> y <= h,
                h < 0 ==> y == 0,
                forall|x: int, yy: int|
                    0 <= x < scan_extent(map.width) && 0 <= yy < scan_extent(map.height)
                        ==> #[trigger] cell_threat_fits(map@, players@, x, yy),
                threat@ == threat_rows(map@, players@, scan_extent(map.width), y as int),
            decreases h - y,
        {
            let mut x: i16 = 0;
            while x < w
                invariant
                    map.wf(),
                    n == players@.len(),
                    w == map.width as i16,
                    h == map.height as i16,
                    0 <= y < h,
                    y < scan_extent(map.height),
                    0 <= x,
                    w >= 0 ==> x <= w,
                    w < 0 ==> x == 0,
                    forall|xx: int, yy: int|
                        0 <= xx < scan_extent(map.width) && 0 <= yy < scan_extent(map.height)
                            ==> #[trigger] cell_threat_fits(map@, players@, xx, yy),
                    threat@ == threat_rows(map@, players@, scan_extent(map.width), y as int)
                        + threat_row(map@, players@, y as int, x as int),
                decreases w - x,
            {
                let pos = Position::new(x, y);
                assert(cell_threat_fits(map@, players@, x as int, y as int));
                let mut total_threat: i32 = 0;
                let mut k: usize = 0;
                while k < n
                    invariant
                        k <= n,
                        n == players@.len(),
                        cell_threat_fits(map@, players@, x as int, y as int),
                        pos == (Position { x, y }),
                        total_threat == cell_threat_upto(players@, x as int, y as int, k as int),
                    decreases n - k,
                {
                    let (_, ppos, stats) = players[k];
                    let dist = manhattan_distance(ppos, pos);
                    let c = contribution_exec(stats.atk, dist);
                    assert(fits_i32(cell_threat_upto(players@, x as int, y as int, k + 1)));
                    total_threat = total_threat + c;
                    k = k + 1;
                }
                if map.tile(x, y) == Tile::Lava {
                    total_threat = total_threat + 20;
                }
                threat.push((pos, total_threat));
                x = x + 1;
            }
            assert(threat@ =~= threat_rows(map@, players@, scan_extent(map.width), y + 1));
            y = y + 1;
        }
        threat
    }
}

// ------------------------------------------------------------------
// Positions around a unit
// ------------------------------------------------------------------

/// Neighbours of `pos` (north, south, west, east; the first `k` of them) that
/// are walkable and less threatened than `pos`.
pub open spec fn safe_neighbors_upto(
    m: MapView,
    pos: Position,
    tm: Seq<(Position, i32)>,
    k: int,
) -> Seq<Position>
    decreases k,
{
    if k <= 0 {
        Seq::empty()
    } else {
        let prev = safe_neighbors_upto(m, pos, tm, k - 1);
        let np = cardinal_neighbor(pos, k - 1);
        if m.walkable_at(np) && threat_at(tm, np) < threat_at(tm, pos) {
            prev.push(np)
        } else {
            prev
        }
    }
}

/// Best step among the first `k` neighbours: the least threatened walkable
/// neighbour whose cost fits in `ap`, if it is strictly safer than staying.
pub open spec fn safest_upto(
    m: MapView,
    pos: Position,
    ap: int,
    tm: Seq<(Position, i32)>,
    k: int,
) -> (Position, int)
    decreases k,
{
    if k <= 0 {
        (pos, threat_at(tm, pos))
    } else {
        let prev = safest_upto(m, pos, ap, tm, k - 1);
        let np = cardinal_neighbor(pos, k - 1);
        if m.walkable_at(np) && tile_cost(m.tile_at(np.x as int, np.y as int), WeatherType::Sunny)
            <= ap && threat_at(tm, np) < prev.1 {
            (np, threat_at(tm, np))
        } else {
            prev
        }
    }
}

impl TacticalAI {
    /// Walkable neighbours (north, south, west, east) that are less threatened
    /// than `pos`.
    pub fn find_safe_positions(map: &TacticalMap, pos: Position, threat_map: &Vec<(Position, i32)>) -> (r:
        Vec<Position>)
        requires
            map.wf(),
            interior_point(pos),
        ensures
            r@ == safe_neighbors_upto(map@, pos, threat_map@, 4),
    {
        let mut safe: Vec<Position> = Vec::new();
        let mut k: usize = 0;
        while k < 4
            invariant
                k <= 4,
                map.wf(),
                interior_point(pos),
                safe@ == safe_neighbors_upto(map@, pos, threat_map@, k as int),
            decreases 4 - k,
        {
            let np = cardinal_step(pos, k);
            if map.is_walkable(np) {
                let threat = lookup_threat(threat_map, np);
                let current_threat = lookup_threat(threat_map, pos);
                if threat < current_threat {
                    safe.push(np);
                }
            }
            k = k + 1;
        }
        safe
    }

    /// The neighbour to step to that lowers the threat the most within the AP
    /// budget; `pos` itself when no step lowers it.
    pub fn safest_move_target(
        pos: Position,
        ap: i32,
        map: &TacticalMap,
        assessment: &TacticalAssessment,
    ) -> (r: Position)
        requires
            map.wf(),
            interior_point(pos),
        ensures
            r == safest_upto(map@, pos, ap as int, assessment.threat_map@, 4).0,
            threat_at(assessment.threat_map@, r) <= threat_at(assessment.threat_map@, pos),
    {
        let mut best = pos;
        let mut best_threat = lookup_threat(&assessment.threat_map, pos);
        let mut k: usize = 0;
        while k < 4
            invariant
                k <= 4,
                map.wf(),
                interior_point(pos),
                (best, best_threat as int) == safest_upto(
                    map@,
                    pos,
                    ap as int,
                    assessment.threat_map@,
                    k as int,
                ),
                best_threat == threat_at(assessment.threat_map@, best),
                best_threat <= threat_at(assessment.threat_map@, pos),
            decreases 4 - k,
        {
            let np = cardinal_step(pos, k);
            if map.is_walkable(np) {
                let cost = map.movement_cost(np);
                if cost <= ap {
                    let threat = lookup_threat(&assessment.threat_map, np);
                    if threat < best_threat {
                        best_threat = threat;
                        best = np;
                    }
                }
            }
            k = k + 1;
        }
        best
    }
}

// ------------------------------------------------------------------
// Flanking
// ------------------------------------------------------------------

/// `s` with `p` appended unless it is already there.
pub open spec fn push_new(s: Seq<Position>, p: Position) -> Seq<Position> {
    if s.contains(p) {
        s
    } else {
        s.push(p)
    }
}

/// Offset of `a` from `t`.
pub open spec fn offset(a: Position, t: Position) -> (int, int) {
    (a.x - t.x, a.y - t.y)
}

/// The cell across `target` from an ally adjacent to it, unless that is where
/// the flanker already stands.
pub open spec fn opposite_cell(a: Position, target: Position, enemy_pos: Position) -> Option<Position> {
    if manhattan(a, target) == 1 {
        let opp = Position {
            x: (target.x - offset(a, target).0) as i16,
            y: (target.y - offset(a, target).1) as i16,
        };
        if opp != enemy_pos {
            Some(opp)
        } else {
            None
        }
    } else {
        None
    }
}

/// First phase of flanking: cells opposite the first `k` allies, within 3 of
/// the flanker, without repeats.
pub open spec fn opposite_flanks(
    enemy_pos: Position,
    allies: Seq<Position>,
    target: Position,
    k: int,
) -> Seq<Position>
    decreases k,
{
    if k <= 0 {
        Seq::empty()
    } else {
        let prev = opposite_flanks(enemy_pos, allies, target, k - 1);
        match opposite_cell(allies[k - 1], target, enemy_pos) {
            Some(opp) => if manhattan(opp, enemy_pos) <= 3 {
                push_new(prev, opp)
            } else {
                prev
            },
            None => prev,
        }
    }
}

/// Some ally adjacent to `target` lies across the axis of direction `k`.
pub open spec fn perpendicular_ally(allies: Seq<Position>, target: Position, k: int) -> bool {
    exists|i: int|
        0 <= i < allies.len() && {
            let (ax, ay) = offset(#[trigger] allies[i], target);
            &&& manhattan(allies[i], target) == 1
            &&& ((cardinal_offset(k).0 != 0 && ay != 0) || (cardinal_offset(k).1 != 0 && ax != 0))
        }
}

/// Second phase of flanking over the first `k` directions: neighbours of the
/// target (other than the flanker's cell) with an ally at a right angle.
pub open spec fn side_flanks(
    start: Seq<Position>,
    enemy_pos: Position,
    allies: Seq<Position>,
    target: Position,
    k: int,
) -> Seq<Position>
    decreases k,
{
    if k <= 0 {
        start
    } else {
        let prev = side_flanks(start, enemy_pos, allies, target, k - 1);
        let adj = cardinal_neighbor(target, k - 1);
        if adj != enemy_pos && perpendicular_ally(allies, target, k - 1) {
            push_new(prev, adj)
        } else {
            prev
        }
    }
}

/// All flank positions around `target`.
pub open spec fn flank_positions(enemy_pos: Position, allies: Seq<Position>, target: Position) -> Seq<
    Position,
> {
    side_flanks(
        opposite_flanks(enemy_pos, allies, target, allies.len() as int),
        enemy_pos,
        allies,
        target,
        4,
    )
}

impl TacticalAI {
    /// Cells from which the flanker can take `target` from the side: across the
    /// target from an adjacent ally (within 3 of the flanker), then target
    /// neighbours at a right angle to an adjacent ally; no repeats, never the
    /// flanker's own cell.
    pub fn find_flank_positions(enemy_pos: Position, allies: &[Position], target: Position) -> (r: Vec<
        Position,
    >)
        requires
            interior_point(target),
        ensures
            r@ == flank_positions(enemy_pos, allies@, target),
            forall|i: int| 0 <= i < r@.len() ==> #[trigger] r@[i] != enemy_pos,
            forall|i: int, j: int| 0 <= i < j < r@.len() ==> r@[i] != r@[j],
    {
        let n = allies.len();
        let mut flanks: Vec<Position> = Vec::new();
        let mut i: usize = 0;
        while i < n
            invariant
                i <= n,
                n == allies@.len(),
                interior_point(target),
                flanks@ == opposite_flanks(enemy_pos, allies@, target, i as int),
                forall|a: int| 0 <= a < flanks@.len() ==> #[trigger] flanks@[a] != enemy_pos,
                forall|a: int, b: int| 0 <= a < b < flanks@.len() ==> flanks@[a] != flanks@[b],
            decreases n - i,
        {
            let a = allies[i];
            if manhattan_distance(a, target) == 1 {
                let dx: i16 = (a.x as i32 - target.x as i32) as i16;
                let dy: i16 = (a.y as i32 - target.y as i32) as i16;
                let opp = Position::new(target.x - dx, target.y - dy);
                if opp != enemy_pos {
                    if manhattan_distance(opp, enemy_pos) <= 3 && !contains_position(&flanks, opp) {
                        flanks.push(opp);
                    }
                }
            }
            i = i + 1;
        }
        let ghost phase1 = flanks@;
        let mut k: usize = 0;
        while k < 4
            invariant
                k <= 4,
                n == allies@.len(),
                interior_point(target),
                flanks@ == side_flanks(phase1, enemy_pos, allies@, target, k as int),
                forall|a: int| 0 <= a < flanks@.len() ==> #[trigger] flanks@[a] != enemy_pos,
                forall|a: int, b: int| 0 <= a < b < flanks@.len() ==> flanks@[a] != flanks@[b],
            decreases 4 - k,
        {
            let adj = cardinal_step(target, k);
            if adj != enemy_pos {
                let is_perp = Self::has_perpendicular_ally(allies, target, k);
                if is_perp && !contains_position(&flanks, adj) {
                    flanks.push(adj);
                }
            }
            k = k + 1;
        }
        flanks
    }

    fn has_perpendicular_ally(allies: &[Position], target: Position, k: usize) -> (r: bool)
        requires
            k < 4,
        ensures
            r == perpendicular_ally(allies@, target, k as int),
    {
        let (kx, ky): (i32, i32) = if k == 0 {
            (0, -1)
        } else if k == 1 {
            (0, 1)
        } else if k == 2 {
            (-1, 0)
        } else {
            (1, 0)
        };
        let n = allies.len();
        let mut i: usize = 0;
        while i < n
            invariant
                i <= n,
                n == allies@.len(),
                (kx as int, ky as int) == cardinal_offset(k as int),
                forall|j: int|
                    0 <= j < i ==> !({
                        let (ax, ay) = offset(#[trigger] allies@[j], target);
                        &&& manhattan(allies@[j], target) == 1
                        &&& ((cardinal_offset(k as int).0 != 0 && ay != 0) || (cardinal_offset(
                            k as int,
                        ).1 != 0 && ax != 0))
                    }),
            decreases n - i,
        {
            let a = allies[i];
            let ax: i32 = a.x as i32 - target.x as i32;
            let ay: i32 = a.y as i32 - target.y as i32;
            if manhattan_distance(a, target) == 1 {
                if (kx != 0 && ay != 0) || (ky != 0 && ax != 0) {
                    return true;
                }
            }
            i = i + 1;
        }
        false
    }
}

// ------------------------------------------------------------------
// Strategies
// ------------------------------------------------------------------

/// Attack the focus target when within 2, otherwise close in on it; hold when
/// there is nobody to target.
pub open spec fn focus_or_approach(enemy_pos: Position, players: Seq<Unit>) -> AIAction {
    match focus_target(players) {
        Some((e, p)) => if manhattan(enemy_pos, p) <= 2 {
            AIAction::Attack(e)
        } else {
            AIAction::MoveTo(p)
        },
        None => AIAction::Defend,
    }
}

/// The chaser's choice. Below a fifth of its health it falls back to the least
/// threatened safe cell (or retreats); otherwise it takes a flank within 2 of
/// itself next to a player, or attacks / approaches the weakest player.
pub open spec fn chaser_choice(
    enemy_pos: Position,
    stats: Stats,
    players: Seq<Unit>,
    threat: Seq<(Position, i32)>,
    flanks: Seq<Position>,
    safe: Seq<Position>,
) -> AIAction {
    if players.len() == 0 {
        AIAction::Defend
    } else if health_below(stats, 1, 5) {
        match least_threatened(safe, threat) {
            Some(p) => AIAction::MoveTo(p),
            None => AIAction::Retreat,
        }
    } else {
        match flank_pick_from(flanks, players, 0) {
            Some((e, fp)) => if manhattan(enemy_pos, fp) <= 2 {
                AIAction::FlankAttack(e, fp)
            } else {
                focus_or_approach(enemy_pos, players)
            },
            None => focus_or_approach(enemy_pos, players),
        }
    }
}

/// Index of the ally most in need of healing among the first `k`: health below
/// half and strictly lower than every earlier candidate.
pub open spec fn neediest_upto(allies: Seq<Unit>, k: int) -> Option<int>
    decreases k,
{
    if k <= 0 {
        None
    } else {
        let cur = neediest_upto(allies, k - 1);
        let f = health_fraction(allies[k - 1].2);
        let lowest = match cur {
            None => (1int, 1int),
            Some(c) => health_fraction(allies[c].2),
        };
        if fraction_lt(f, (1, 2)) && fraction_lt(f, lowest) {
            Some(k - 1)
        } else {
            cur
        }
    }
}

/// The cleric's choice: heal the neediest ally within 3 or walk to it; with no
/// ally in need, fight like a chaser at full health.
pub open spec fn cleric_choice(enemy_pos: Position, allies: Seq<Unit>, players: Seq<Unit>) -> AIAction {
    match neediest_upto(allies, allies.len() as int) {
        Some(i) => if manhattan(enemy_pos, allies[i].1) <= 3 {
            AIAction::HealAlly(allies[i].0)
        } else {
            AIAction::MoveTo(allies[i].1)
        },
        None => focus_or_approach(enemy_pos, players),
    }
}

/// The coward's choice: below 30% health it runs to the first cover cell (or
/// retreats); otherwise it attacks only from a calm cell (threat under 10)
/// within 2 of the weakest player, and else slips to the least threatened safe
/// cell.
pub open spec fn coward_choice(
    enemy_pos: Position,
    stats: Stats,
    players: Seq<Unit>,
    threat: Seq<(Position, i32)>,
    cover: Seq<Position>,
    safe: Seq<Position>,
) -> AIAction {
    if health_below(stats, 3, 10) {
        if cover.len() > 0 {
            AIAction::MoveTo(cover[0])
        } else {
            AIAction::Retreat
        }
    } else {
        match focus_target(players) {
            Some((e, p)) => if manhattan(enemy_pos, p) <= 2 && threat_at(threat, enemy_pos) < 10 {
                AIAction::Attack(e)
            } else {
                match least_threatened(safe, threat) {
                    Some(sp) => AIAction::MoveTo(sp),
                    None => AIAction::Defend,
                }
            },
            None => AIAction::Defend,
        }
    }
}

/// Priority of an ally to protect: its health in whole percent (100 when it has
/// no positive maximum).
pub open spec fn protect_key(s: Stats) -> int {
    if s.max_hp > 0 {
        div_toward_zero(s.hp * 100, s.max_hp as int)
    } else {
        100
    }
}

/// Index of the first ally with the lowest priority key among the first `k`.
pub open spec fn priority_upto(allies: Seq<Unit>, k: int) -> Option<int>
    decreases k,
{
    if k <= 0 {
        None
    } else {
        match priority_upto(allies, k - 1) {
            None => Some(k - 1),
            Some(b) => if protect_key(allies[k - 1].2) < protect_key(allies[b].2) {
                Some(k - 1)
            } else {
                Some(b)
            },
        }
    }
}

/// Among the first `k` allies, the one `priority_upto` picks has the least
/// health percentage, and every ally before it has strictly more.
proof fn lemma_priority_least(allies: Seq<Unit>, k: int)
    requires
        0 < k <= allies.len(),
    ensures
        priority_upto(allies, k) is Some,
        0 <= priority_upto(allies, k)->0 < k,
        forall|j: int|
            0 <= j < k ==> protect_key(allies[priority_upto(allies, k)->0].2) <= protect_key(
                (#[trigger] allies[j]).2,
            ),
        forall|j: int|
            0 <= j < priority_upto(allies, k)->0 ==> protect_key((#[trigger] allies[j]).2) > protect_key(
                allies[priority_upto(allies, k)->0].2,
            ),
    decreases k,
{
    if k > 1 {
        lemma_priority_least(allies, k - 1);
        let b = priority_upto(allies, k - 1)->0;
        if protect_key(allies[k - 1].2) < protect_key(allies[b].2) {
            assert(priority_upto(allies, k) == Some(k - 1));
            assert forall|j: int| 0 <= j < k - 1 implies protect_key((#[trigger] allies[j]).2) > protect_key(
                allies[k - 1].2,
            ) by {
                assert(protect_key(allies[b].2) <= protect_key(allies[j].2));
            }
        } else {
            assert(priority_upto(allies, k) == Some(b));
        }
    } else {
        assert(priority_upto(allies, 0) is None);
        assert(priority_upto(allies, 1) == Some(0int));
    }
}

/// Among the first `k` units, the one `nearest_upto` picks is nearest to
/// `p`, and every unit before it is strictly farther.
proof fn lemma_nearest_least(units: Seq<Unit>, p: Position, k: int)
    requires
        0 < k <= units.len(),
    ensures
        nearest_upto(units, p, k) is Some,
        0 <= nearest_upto(units, p, k)->0 < k,
        forall|j: int|
            0 <= j < k ==> manhattan(units[nearest_upto(units, p, k)->0].1, p) <= manhattan(
                (#[trigger] units[j]).1,
                p,
            ),
        forall|j: int|
            0 <= j < nearest_upto(units, p, k)->0 ==> manhattan((#[trigger] units[j]).1, p) > manhattan(
                units[nearest_upto(units, p, k)->0].1,
                p,
            ),
    decreases k,
{
    if k > 1 {
        lemma_nearest_least(units, p, k - 1);
        let b = nearest_upto(units, p, k - 1)->0;
        if manhattan(units[k - 1].1, p) < manhattan(units[b].1, p) {
            assert(nearest_upto(units, p, k) == Some(k - 1));
            assert forall|j: int| 0 <= j < k - 1 implies manhattan((#[trigger] units[j]).1, p) > manhattan(
                units[k - 1].1,
                p,
            ) by {
                assert(manhattan(units[b].1, p) <= manhattan(units[j].1, p));
            }
        } else {
            assert(nearest_upto(units, p, k) == Some(b));
        }
    } else {
        assert(nearest_upto(units, p, 0) is None);
        assert(nearest_upto(units, p, 1) == Some(0int));
    }
}

/// Next to the ally it protects, a defender turns on the player nearest that
/// ally when that player is within 3 of it: it attacks when the player is
/// within 2 of the defender and otherwise moves onto the player's cell; with
/// no player within 3 of the ally it defends.
pub proof fn lemma_defender_guards_ally(enemy_pos: Position, stats: Stats, allies: Seq<Unit>, players: Seq<Unit>)
    requires
        allies.len() > 0,
        manhattan(enemy_pos, allies[priority_upto(allies, allies.len() as int)->0].1) <= 1,
    ensures
        ({
            let ally = allies[priority_upto(allies, allies.len() as int)->0].1;
            let r = defender_choice(enemy_pos, stats, allies, players);
            &&& (forall|q: int| 0 <= q < players.len() ==> manhattan((#[trigger] players[q]).1, ally) > 3) ==> r
                == AIAction::Defend
            &&& (exists|q: int| 0 <= q < players.len() && manhattan((#[trigger] players[q]).1, ally) <= 3) ==> exists|
                q: int,
            |
                {
                    &&& 0 <= q < players.len()
                    &&& forall|j: int|
                        0 <= j < players.len() ==> manhattan((#[trigger] players[q]).1, ally) <= manhattan(
                            players[j].1,
                            ally,
                        )
                    &&& r == if manhattan(enemy_pos, players[q].1) <= 2 {
                        AIAction::Attack(players[q].0)
                    } else {
                        AIAction::MoveTo(players[q].1)
                    }
                }
        }),
{
    lemma_priority_least(allies, allies.len() as int);
    let ally = allies[priority_upto(allies, allies.len() as int)->0].1;
    if players.len() > 0 {
        lemma_nearest_least(players, ally, players.len() as int);
        let q = nearest_upto(players, ally, players.len() as int)->0;
        if exists|j: int| 0 <= j < players.len() && manhattan((#[trigger] players[j]).1, ally) <= 3 {
            let j = choose|j: int| 0 <= j < players.len() && manhattan((#[trigger] players[j]).1, ally) <= 3;
            assert(manhattan(players[q].1, ally) <= manhattan(players[j].1, ally));
            assert(forall|i: int|
                0 <= i < players.len() ==> manhattan(players[q].1, ally) <= manhattan((#[trigger] players[i]).1, ally));
        } else {
            assert(manhattan(players[q].1, ally) > 3);
        }
    } else {
        assert(nearest_upto(players, ally, 0) is None);
    }
}

/// A defender protects the ally with the least health percentage (the first
/// such ally on a tie): no ally is weaker, every earlier ally is stronger,
/// and a defender more than one cell away from that ally moves to it.
pub proof fn lemma_defender_protects_weakest(
    enemy_pos: Position,
    stats: Stats,
    allies: Seq<Unit>,
    players: Seq<Unit>,
)
    requires
        allies.len() > 0,
    ensures
        exists|a: int|
            {
                &&& 0 <= a < allies.len()
                &&& forall|j: int|
                    0 <= j < allies.len() ==> protect_key(#[trigger] allies[a].2) <= protect_key(allies[j].2)
                &&& forall|j: int| 0 <= j < a ==> protect_key(allies[j].2) > protect_key(#[trigger] allies[a].2)
                &&& manhattan(enemy_pos, allies[a].1) > 1 ==> defender_choice(enemy_pos, stats, allies, players)
                    == AIAction::MoveTo(allies[a].1)
            },
{
    lemma_priority_least(allies, allies.len() as int);
    let a = priority_upto(allies, allies.len() as int)->0;
    assert(forall|j: int|
        0 <= j < allies.len() ==> protect_key(allies[a].2) <= protect_key(#[trigger] allies[j].2));
    assert(forall|j: int| 0 <= j < a ==> protect_key(#[trigger] allies[j].2) > protect_key(allies[a].2));
}

/// The defender's choice: with no ally it fights like a chaser (with an empty
/// assessment); otherwise it moves next to the weakest ally and strikes at the
/// player nearest that ally when the player is within 3 of it.
pub open spec fn defender_choice(
    enemy_pos: Position,
    stats: Stats,
    allies: Seq<Unit>,
    players: Seq<Unit>,
) -> AIAction {
    if allies.len() == 0 {
        chaser_choice(enemy_pos, stats, players, Seq::empty(), Seq::empty(), Seq::empty())
    } else {
        match priority_upto(allies, allies.len() as int) {
            Some(a) => {
                let ally_pos = allies[a].1;
                if manhattan(enemy_pos, ally_pos) > 1 {
                    AIAction::MoveTo(ally_pos)
                } else {
                    match nearest_upto(players, ally_pos, players.len() as int) {
                        Some(q) => if manhattan(players[q].1, ally_pos) <= 3 {
                            if manhattan(enemy_pos, players[q].1) <= 2 {
                                AIAction::Attack(players[q].0)
                            } else {
                                AIAction::MoveTo(players[q].1)
                            }
                        } else {
                            AIAction::Defend
                        },
                        None => AIAction::Defend,
                    }
                }
            },
            None => AIAction::Defend,
        }
    }
}

/// The decision each archetype makes.
pub open spec fn archetype_choice(
    archetype: AIArchetype,
    enemy_pos: Position,
    stats: Stats,
    players: Seq<Unit>,
    allies: Seq<Unit>,
    a: TacticalAssessment,
) -> AIAction {
    match archetype {
        AIArchetype::Chaser | AIArchetype::Berserker | AIArchetype::Tactician
        | AIArchetype::Assassin => chaser_choice(
            enemy_pos,
            stats,
            players,
            a.threat_map@,
            a.flank_positions@,
            a.safe_positions@,
        ),
        AIArchetype::Cleric | AIArchetype::Summoner => cleric_choice(enemy_pos, allies, players),
        AIArchetype::Coward => coward_choice(
            enemy_pos,
            stats,
            players,
            a.threat_map@,
            a.cover_positions@,
            a.safe_positions@,
        ),
        AIArchetype::Defender => defender_choice(enemy_pos, stats, allies, players),
    }
}

/// Every ally with a positive maximum has a priority key computable in `i32`.
pub open spec fn protect_keys_fit(allies: Seq<Unit>) -> bool {
    forall|i: int|
        0 <= i < allies.len() && (#[trigger] allies[i]).2.max_hp > 0 ==> fits_i32(
            allies[i].2.hp * 100,
        )
}

fn flank_pick(flanks: &Vec<Position>, players: &[Unit]) -> (r: Option<(Entity, Position)>)
    ensures
        r == flank_pick_from(flanks@, players@, 0),
{
    let nf = flanks.len();
    let np = players.len();
    let mut k: usize = 0;
    while k < nf
        invariant
            k <= nf,
            nf == flanks@.len(),
            np == players@.len(),
            flank_pick_from(flanks@, players@, 0) == flank_pick_from(flanks@, players@, k as int),
        decreases nf - k,
    {
        let fp = flanks[k];
        let mut j: usize = 0;
        while j < np
            invariant
                j <= np,
                k < nf,
                nf == flanks@.len(),
                np == players@.len(),
                fp == flanks@[k as int],
                flank_pick_from(flanks@, players@, 0) == flank_pick_from(flanks@, players@, k as int),
                close_unit_from(players@, fp, 0) == close_unit_from(players@, fp, j as int),
            decreases np - j,
        {
            if manhattan_distance(players[j].1, fp) <= 2 {
                return Some((players[j].0, fp));
            }
            j = j + 1;
        }
        k = k + 1;
    }
    None
}

fn focus_or_approach_exec(enemy_pos: Position, players: &[Unit]) -> (r: AIAction)
    ensures
        r == focus_or_approach(enemy_pos, players@),
{
    match TacticalAI::focus_fire_target(players) {
        Some((e, p)) => {
            if manhattan_distance(enemy_pos, p) <= 2 {
                AIAction::Attack(e)
            } else {
                AIAction::MoveTo(p)
            }
        },
        None => AIAction::Defend,
    }
}

fn chaser_exec(
    enemy_pos: Position,
    stats: &Stats,
    players: &[Unit],
    threat: &Vec<(Position, i32)>,
    flanks: &Vec<Position>,
    safe: &Vec<Position>,
) -> (r: AIAction)
    ensures
        r == chaser_choice(enemy_pos, *stats, players@, threat@, flanks@, safe@),
{
    if players.len() == 0 {
        return AIAction::Defend;
    }
    if health_below_exec(stats, 1, 5) {
        return match least_threatened_exec(safe, threat) {
            Some(p) => AIAction::MoveTo(p),
            None => AIAction::Retreat,
        };
    }
    if let Some((target_ent, flank_pos)) = flank_pick(flanks, players) {
        if manhattan_distance(enemy_pos, flank_pos) <= 2 {
            return AIAction::FlankAttack(target_ent, flank_pos);
        }
    }
    focus_or_approach_exec(enemy_pos, players)
}

impl TacticalAI {
    /// Decision of a chaser: see [`chaser_choice`].
    pub fn chaser_strategy(
        enemy_pos: Position,
        stats: &Stats,
        players: &[Unit],
        assessment: &TacticalAssessment,
    ) -> (r: AIAction)
        ensures
            r == chaser_choice(
                enemy_pos,
                *stats,
                players@,
                assessment.threat_map@,
                assessment.flank_positions@,
                assessment.safe_positions@,
            ),
    {
        chaser_exec(
            enemy_pos,
            stats,
            players,
            &assessment.threat_map,
            &assessment.flank_positions,
            &assessment.safe_positions,
        )
    }

    /// Decision of a cleric: see [`cleric_choice`].
    pub fn cleric_strategy(
        enemy_pos: Position,
        _stats: &Stats,
        allies: &[Unit],
        players: &[Unit],
    ) -> (r: AIAction)
        ensures
            r == cleric_choice(enemy_pos, allies@, players@),
    {
        let n = allies.len();
        let mut needy: Option<usize> = None;
        // The lowest health fraction seen so far, starting from a full one.
        let mut low_num: i64 = 1;
        let mut low_den: i64 = 1;
        let mut i: usize = 0;
        while i < n
            invariant
                i <= n,
                n == allies@.len(),
                match neediest_upto(allies@, i as int) {
                    None => needy is None && low_num == 1 && low_den == 1,
                    Some(c) => 0 <= c < i && needy == Some(c as usize) && (
                        low_num as int,
                        low_den as int,
                    ) == health_fraction(allies@[c].2),
                },
                0 < low_den <= i32::MAX,
                i32::MIN <= low_num <= i32::MAX,
            decreases n - i,
        {
            let s = allies[i].2;
            let (num, den): (i64, i64) = if s.max_hp > 0 {
                (s.hp as i64, s.max_hp as i64)
            } else {
                (0, 1)
            };
            assert(-5000000000000000000 <= num as int * 2 <= 5000000000000000000);
            assert(-5000000000000000000 <= num as int * low_den as int <= 5000000000000000000) by (nonlinear_arith)
                requires
                    i32::MIN <= num <= i32::MAX,
                    0 < low_den <= i32::MAX,
            ;
            assert(-5000000000000000000 <= low_num as int * den as int <= 5000000000000000000) by (nonlinear_arith)
                requires
                    i32::MIN <= low_num <= i32::MAX,
                    0 < den <= i32::MAX,
            ;
            if num * 2 < den && num * low_den < low_num * den {
                needy = Some(i);
                low_num = num;
                low_den = den;
            }
            i = i + 1;
        }
        match needy {
            Some(k) => {
                proof {
                    lemma_neediest_in_range(allies@, n as int);
                }
                let (ally_ent, ally_pos, _) = allies[k];
                if manhattan_distance(enemy_pos, ally_pos) <= 3 {
                    AIAction::HealAlly(ally_ent)
                } else {
                    AIAction::MoveTo(ally_pos)
                }
            },
            None => focus_or_approach_exec(enemy_pos, players),
        }
    }

    /// Decision of a coward: see [`coward_choice`].
    pub fn coward_strategy(
        enemy_pos: Position,
        stats: &Stats,
        players: &[Unit],
        assessment: &TacticalAssessment,
    ) -> (r: AIAction)
        ensures
            r == coward_choice(
                enemy_pos,
                *stats,
                players@,
                assessment.threat_map@,
                assessment.cover_positions@,
                assessment.safe_positions@,
            ),
    {
        if health_below_exec(stats, 3, 10) {
            if assessment.cover_positions.len() > 0 {
                return AIAction::MoveTo(assessment.cover_positions[0]);
            }
            return AIAction::Retreat;
        }
        match Self::focus_fire_target(players) {
            Some((target_ent, target_pos)) => {
                let dist = manhattan_distance(enemy_pos, target_pos);
                let is_safe = lookup_threat(&assessment.threat_map, enemy_pos) < 10;
                if dist <= 2 && is_safe {
                    return AIAction::Attack(target_ent);
                }
                match least_threatened_exec(&assessment.safe_positions, &assessment.threat_map) {
                    Some(sp) => AIAction::MoveTo(sp),
                    None => AIAction::Defend,
                }
            },
            None => AIAction::Defend,
        }
    }

    /// Decision of a defender: see [`defender_choice`].
    pub fn defender_strategy(
        enemy_pos: Position,
        stats: &Stats,
        allies: &[Unit],
        players: &[Unit],
    ) -> (r: AIAction)
        requires
            protect_keys_fit(allies@),
        ensures
            r == defender_choice(enemy_pos, *stats, allies@, players@),
    {
        if allies.len() == 0 {
            let empty_threat: Vec<(Position, i32)> = Vec::new();
            let empty_positions: Vec<Position> = Vec::new();
            let r = chaser_exec(
                enemy_pos,
                stats,
                players,
                &empty_threat,
                &empty_positions,
                &empty_positions,
            );
            assert(empty_threat@ =~= Seq::<(Position, i32)>::empty());
            assert(empty_positions@ =~= Seq::<Position>::empty());
            return r;
        }
        let n = allies.len();
        let mut best: usize = 0;
        let mut best_key: i32 = Self::protect_key_exec(&allies[0].2);
        assert(priority_upto(allies@, 0) is None);
        let mut i: usize = 1;
        while i < n
            invariant
                1 <= i <= n,
                n == allies@.len(),
                protect_keys_fit(allies@),
                priority_upto(allies@, i as int) == Some(best as int),
                best < i,
                best_key == protect_key(allies@[best as int].2),
            decreases n - i,
        {
            let key = Self::protect_key_exec(&allies[i].2);
            if key < best_key {
                best = i;
                best_key = key;
            }
            i = i + 1;
        }
        let ally_pos = allies[best].1;
        if manhattan_distance(enemy_pos, ally_pos) > 1 {
            return AIAction::MoveTo(ally_pos);
        }
        let np = players.len();
        if np == 0 {
            return AIAction::Defend;
        }
        let mut q: usize = 0;
        let mut q_dist: i32 = manhattan_distance(players[0].1, ally_pos);
        assert(nearest_upto(players@, ally_pos, 0) is None);
        let mut j: usize = 1;
        while j < np
            invariant
                1 <= j <= np,
                np == players@.len(),
                nearest_upto(players@, ally_pos, j as int) == Some(q as int),
                q < j,
                q_dist == manhattan(players@[q as int].1, ally_pos),
            decreases np - j,
        {
            let d = manhattan_distance(players[j].1, ally_pos);
            if d < q_dist {
                q = j;
                q_dist = d;
            }
            j = j + 1;
        }
        let (player_ent, player_pos, _) = players[q];
        if q_dist <= 3 {
            if manhattan_distance(enemy_pos, player_pos) <= 2 {
                return AIAction::Attack(player_ent);
            } else {
                return AIAction::MoveTo(player_pos);
            }
        }
        AIAction::Defend
    }

    fn protect_key_exec(s: &Stats) -> (k: i32)
        requires
            s.max_hp > 0 ==> fits_i32(s.hp * 100),
        ensures
            k == protect_key(*s),
    {
        if s.max_hp > 0 {
            (s.hp * 100) / s.max_hp
        } else {
            100
        }
    }

    /// What an enemy of the given archetype does next: see [`archetype_choice`].
    /// Berserkers, tacticians and assassins fight as chasers, summoners as
    /// clerics.
    pub fn decide_action(
        archetype: AIArchetype,
        enemy_pos: Position,
        stats: &Stats,
        players: &[Unit],
        allies: &[Unit],
        assessment: &TacticalAssessment,
    ) -> (r: AIAction)
        requires
            archetype == AIArchetype::Defender ==> protect_keys_fit(allies@),
        ensures
            r == archetype_choice(archetype, enemy_pos, *stats, players@, allies@, *assessment),
    {
        match archetype {
            AIArchetype::Chaser | AIArchetype::Berserker | AIArchetype::Tactician
            | AIArchetype::Assassin => Self::chaser_strategy(enemy_pos, stats, players, assessment),
            AIArchetype::Cleric | AIArchetype::Summoner => Self::cleric_strategy(
                enemy_pos,
                stats,
                allies,
                players,
            ),
            AIArchetype::Coward => Self::coward_strategy(enemy_pos, stats, players, assessment),
            AIArchetype::Defender => Self::defender_strategy(enemy_pos, stats, allies, players),
        }
    }

    /// Surveys the battlefield for one enemy: the threat map from the players,
    /// the given cover cells, flank cells around the first player, and the
    /// neighbouring cells safer than the enemy's own.
    pub fn assess_battlefield(
        map: &TacticalMap,
        enemy_pos: Position,
        players: &[Unit],
        allies: &[Unit],
        cover_positions: Vec<Position>,
    ) -> (r: TacticalAssessment)
        requires
            map.wf(),
            interior_point(enemy_pos),
            players@.len() > 0 ==> interior_point(players@[0].1),
            forall|x: int, y: int|
                0 <= x < scan_extent(map.width) && 0 <= y < scan_extent(map.height)
                    ==> #[trigger] cell_threat_fits(map@, players@, x, y),
        ensures
            r.threat_map@ == threat_rows(
                map@,
                players@,
                scan_extent(map.width),
                scan_extent(map.height),
            ),
            r.cover_positions@ == cover_positions@,
            r.flank_positions@ == if players@.len() > 0 {
                flank_positions(enemy_pos, allies@.map_values(|u: Unit| u.1), players@[0].1)
            } else {
                Seq::empty()
            },
            r.safe_positions@ == safe_neighbors_upto(map@, enemy_pos, r.threat_map@, 4),
    {
        let mut ally_positions: Vec<Position> = Vec::new();
        let na = allies.len();
        let mut i: usize = 0;
        while i < na
            invariant
                i <= na,
                na == allies@.len(),
                ally_positions@ == allies@.subrange(0, i as int).map_values(|u: Unit| u.1),
            decreases na - i,
        {
            ally_positions.push(allies[i].1);
            assert(allies@.subrange(0, i + 1).map_values(|u: Unit| u.1) =~= allies@.subrange(
                0,
                i as int,
            ).map_values(|u: Unit| u.1).push(allies@[i as int].1));
            i = i + 1;
        }
        assert(allies@.subrange(0, na as int) =~= allies@);
        let threat_map = Self::calculate_threat_map(map, players);
        let flank_positions = if players.len() > 0 {
            Self::find_flank_positions(enemy_pos, &ally_positions, players[0].1)
        } else {
            Vec::new()
        };
        let safe_positions = Self::find_safe_positions(map, enemy_pos, &threat_map);
        TacticalAssessment {
            threat_map,
            cover_positions,
            flank_positions,
            safe_positions,
        }
    }
}

proof fn lemma_neediest_in_range(allies: Seq<Unit>, k: int)
    requires
        0 <= k <= allies.len(),
    ensures
        neediest_upto(allies, k) matches Some(i) ==> 0 <= i < k,
    decreases k,
{
    if k > 0 {
        lemma_neediest_in_range(allies, k - 1);
    }
}

} // verus!
