use vstd::prelude::*;

use crate::components::WeatherType;
use crate::geometry::{
    Position, cardinal_neighbor, cardinal_step, contains_position, interior_point, manhattan,
    manhattan_distance,
};
use crate::map::{MapView, TacticalMap, lemma_cell_index, lemma_distinct_cells, tile_cost};

verus! {

/// A cell a unit may step onto: on the map, not a wall, not held by another unit.
pub open spec fn enterable(m: MapView, occupied: Seq<Position>, p: Position) -> bool {
    m.walkable_at(p) && !occupied.contains(p)
}

/// Action points spent to step onto `p`: the terrain's cost under the weather,
/// plus the floor's surcharge.
pub open spec fn step_cost(m: MapView, w: WeatherType, bonus: int, p: Position) -> int {
    tile_cost(m.tile_at(p.x as int, p.y as int), w) + bonus
}

/// Step `i` of `path` goes to an orthogonal neighbour that may be entered.
pub open spec fn step_ok(m: MapView, occupied: Seq<Position>, path: Seq<Position>, i: int) -> bool {
    manhattan(path[i], path[i + 1]) == 1 && enterable(m, occupied, path[i + 1])
}

/// A walk from `start`: a run of orthogonal steps, each onto a cell that may be entered.
pub open spec fn is_walk(m: MapView, occupied: Seq<Position>, start: Position, path: Seq<Position>) -> bool {
    &&& path.len() >= 1
    &&& path[0] == start
    &&& forall|i: int| 0 <= i < path.len() - 1 ==> #[trigger] step_ok(m, occupied, path, i)
}

/// Action points a walk costs: the sum of the costs of its steps.
pub open spec fn walk_cost(m: MapView, w: WeatherType, bonus: int, path: Seq<Position>) -> int
    decreases path.len(),
{
    if path.len() <= 1 {
        0
    } else {
        walk_cost(m, w, bonus, path.drop_last()) + step_cost(m, w, bonus, path.last())
    }
}

/// `p` is the end of a walk from `start` that costs at most `budget`.
pub open spec fn reaches(
    m: MapView,
    occupied: Seq<Position>,
    w: WeatherType,
    bonus: int,
    start: Position,
    budget: int,
    p: Position,
) -> bool {
    exists|path: Seq<Position>|
        #[trigger] is_walk(m, occupied, start, path) && path.last() == p && walk_cost(m, w, bonus, path)
            <= budget
}

/// No cell of the map costs a negative amount to enter.
pub open spec fn costs_nonnegative(m: MapView, w: WeatherType, bonus: int) -> bool {
    forall|x: int, y: int| m.in_map(x, y) ==> tile_cost(#[trigger] m.tile_at(x, y), w) + bonus >= 0
}

/// Every cell of the map has orthogonal neighbours that a position can name.
pub open spec fn coordinates_fit(m: MapView) -> bool {
    m.width <= i16::MAX && m.height <= i16::MAX
}

/// Where the cell `c` sits in the row-by-row tile order.
pub open spec fn cell_at(m: MapView, c: Position) -> int {
    c.y * m.width + c.x
}

/// The step from `from` onto `n` is no cheaper than what is already known of `n`:
/// it cannot be entered, it goes over the budget, or `n` is known at that cost or less.
pub open spec fn relaxed(
    m: MapView,
    occupied: Seq<Position>,
    w: WeatherType,
    bonus: int,
    budget: int,
    dist: Map<Position, int>,
    from: int,
    n: Position,
) -> bool {
    enterable(m, occupied, n) ==> (from + step_cost(m, w, bonus, n) > budget || (dist.contains_key(n)
        && dist[n] <= from + step_cost(m, w, bonus, n)))
}

/// All four neighbours of `c` are relaxed from the best known cost of `c`.
pub open spec fn settled(
    m: MapView,
    occupied: Seq<Position>,
    w: WeatherType,
    bonus: int,
    budget: int,
    dist: Map<Position, int>,
    c: Position,
) -> bool {
    forall|k: int|
        0 <= k < 4 ==> #[trigger] relaxed(m, occupied, w, bonus, budget, dist, dist[c], cardinal_neighbor(c, k))
}

/// The contribution of one cell to the search's potential.
pub open spec fn potential_term(v: i64, cap: int) -> int {
    if v < 0 {
        cap + 1
    } else {
        v as int
    }
}

/// The sum of the contributions of all cells: it falls each time a cost improves.
pub open spec fn potential(s: Seq<i64>, cap: int) -> int
    decreases s.len(),
{
    if s.len() == 0 {
        0
    } else {
        potential(s.drop_last(), cap) + potential_term(s.last(), cap)
    }
}

proof fn lemma_potential_nonnegative(s: Seq<i64>, cap: int)
    requires
        cap >= 0,
    ensures
        potential(s, cap) >= 0,
    decreases s.len(),
{
    if s.len() > 0 {
        lemma_potential_nonnegative(s.drop_last(), cap);
    }
}

proof fn lemma_potential_update(s: Seq<i64>, cap: int, i: int, v: i64)
    requires
        0 <= i < s.len(),
    ensures
        potential(s.update(i, v), cap) == potential(s, cap) - potential_term(s[i], cap)
            + potential_term(v, cap),
    decreases s.len(),
{
    let t = s.update(i, v);
    if i == s.len() - 1 {
        assert(t.drop_last() =~= s.drop_last());
    } else {
        assert(t.drop_last() =~= s.drop_last().update(i, v));
        lemma_potential_update(s.drop_last(), cap, i, v);
    }
}

/// Two cells one orthogonal step apart: the second is one of the four
/// cardinal neighbours of the first.
proof fn lemma_adjacent_is_neighbor(a: Position, b: Position) -> (k: int)
    requires
        interior_point(a),
        manhattan(a, b) == 1,
    ensures
        0 <= k < 4,
        cardinal_neighbor(a, k) == b,
{
    if b.y < a.y {
        0
    } else if b.y > a.y {
        1
    } else if b.x < a.x {
        2
    } else {
        3
    }
}

proof fn lemma_step_is_adjacent(p: Position, k: int)
    requires
        interior_point(p),
        0 <= k < 4,
    ensures
        manhattan(p, cardinal_neighbor(p, k)) == 1,
{
}

/// Extending a walk by one allowed step gives a walk that costs that step more.
proof fn lemma_walk_push(
    m: MapView,
    occupied: Seq<Position>,
    w: WeatherType,
    bonus: int,
    start: Position,
    path: Seq<Position>,
    n: Position,
)
    requires
        is_walk(m, occupied, start, path),
        manhattan(path.last(), n) == 1,
        enterable(m, occupied, n),
    ensures
        is_walk(m, occupied, start, path.push(n)),
        path.push(n).last() == n,
        walk_cost(m, w, bonus, path.push(n)) == walk_cost(m, w, bonus, path) + step_cost(
            m,
            w,
            bonus,
            n,
        ),
{
    let q = path.push(n);
    assert(q.drop_last() =~= path);
    assert forall|i: int| 0 <= i < q.len() - 1 implies #[trigger] step_ok(m, occupied, q, i) by {
        if i < path.len() - 1 {
            assert(step_ok(m, occupied, path, i));
        }
    }
}

/// A walk's prefix costs no more than the whole walk when no step is negative.
proof fn lemma_prefix_cost(
    m: MapView,
    occupied: Seq<Position>,
    w: WeatherType,
    bonus: int,
    start: Position,
    path: Seq<Position>,
    i: int,
)
    requires
        is_walk(m, occupied, start, path),
        costs_nonnegative(m, w, bonus),
        1 <= i <= path.len(),
    ensures
        walk_cost(m, w, bonus, path.take(i)) <= walk_cost(m, w, bonus, path),
    decreases path.len() - i,
{
    if i < path.len() {
        let q = path.take(i + 1);
        assert(q.drop_last() =~= path.take(i));
        assert(step_ok(m, occupied, path, i - 1));
        lemma_prefix_cost(m, occupied, w, bonus, start, path, i + 1);
    } else {
        assert(path.take(i) =~= path);
    }
}

/// Once every known cell is settled, each cell of a walk within budget is
/// known, at no more than what the walk spends to get there.
proof fn lemma_walk_known(
    m: MapView,
    occupied: Seq<Position>,
    w: WeatherType,
    bonus: int,
    budget: int,
    start: Position,
    dist: Map<Position, int>,
    path: Seq<Position>,
    i: int,
)
    requires
        is_walk(m, occupied, start, path),
        walk_cost(m, w, bonus, path) <= budget,
        costs_nonnegative(m, w, bonus),
        coordinates_fit(m),
        interior_point(start),
        dist.contains_key(start),
        dist[start] == 0,
        forall|c: Position| #[trigger]
            dist.contains_key(c) ==> settled(m, occupied, w, bonus, budget, dist, c),
        0 <= i < path.len(),
    ensures
        dist.contains_key(path[i]),
        dist[path[i]] <= walk_cost(m, w, bonus, path.take(i + 1)),
    decreases i,
{
    if i == 0 {
        assert(path.take(1).len() == 1);
    } else {
        lemma_walk_known(m, occupied, w, bonus, budget, start, dist, path, i - 1);
        let a = path[i - 1];
        let b = path[i];
        assert(step_ok(m, occupied, path, i - 1));
        if i - 1 > 0 {
            assert(step_ok(m, occupied, path, i - 2));
        }
        assert(interior_point(a));
        let k = lemma_adjacent_is_neighbor(a, b);
        assert(settled(m, occupied, w, bonus, budget, dist, a));
        assert(relaxed(m, occupied, w, bonus, budget, dist, dist[a], cardinal_neighbor(a, k)));
        let q = path.take(i + 1);
        assert(q.drop_last() =~= path.take(i));
        lemma_prefix_cost(m, occupied, w, bonus, start, path, i + 1);
    }
}

/// The cells a unit standing on `start` can move to with `max_ap` action points.
///
/// The search runs breadth first from `start` and keeps, for each cell, the
/// cheapest cost found so far; a cell is searched again whenever a cheaper way
/// to it turns up. Cells held by other units (`occupied`), walls and cells off
/// the map are never entered. Each step costs the terrain's cost under
/// `weather` plus `gravity_bonus`. A unit with no action points stays put.
/// The list starts with `start` and names a cell once for each time it was
/// searched.
pub fn reachable_tiles(
    map: &TacticalMap,
    start: Position,
    max_ap: i32,
    occupied: &Vec<Position>,
    weather: WeatherType,
    gravity_bonus: i32,
) -> (r: Vec<Position>)
    requires
        map.wf(),
        coordinates_fit(map@),
        interior_point(start),
        costs_nonnegative(map@, weather, gravity_bonus as int),
    ensures
        r.len() >= 1,
        r@[0] == start,
        forall|p: Position|
            r@.contains(p) <==> (p == start || (max_ap != 0 && reaches(
                map@,
                occupied@,
                weather,
                gravity_bonus as int,
                start,
                max_ap as int,
                p,
            ))),
{
    if max_ap == 0 {
        let v = vec![start];
        assert(v@ =~= seq![start]);
        assert forall|p: Position| v@.contains(p) <==> p == start by {
            if p == start {
                assert(v@[0] == p);
            }
        }
        return v;
    }
    let ghost m = map@;
    let ghost occ = occupied@;
    let ghost bonus = gravity_bonus as int;
    let ghost budget = max_ap as int;
    let ghost cap: int = if max_ap < 0 {
        0
    } else {
        max_ap as int
    };
    let n = map.tiles.len();
    let mut best: Vec<i64> = Vec::new();
    let mut i: usize = 0;
    while i < n
        invariant
            i <= n,
            n == map.tiles@.len(),
            best@.len() == i,
            forall|j: int| 0 <= j < i ==> best@[j] == -1,
        decreases n - i,
    {
        best.push(-1);
        i = i + 1;
    }
    let ghost mut dist: Map<Position, int> = Map::empty().insert(start, 0int);
    let ghost mut latest: Map<Position, int> = Map::empty().insert(start, 0int);
    let ghost mut route: Map<Position, Seq<Position>> = Map::empty().insert(start, seq![start]);
    if map.in_map_exec(start.x, start.y) {
        let s = map.cell_index(start.x, start.y);
        best.set(s, 0);
    }
    assert forall|c: Position| m.in_map(c.x as int, c.y as int) implies #[trigger] best@[cell_at(m, c)]
        == (if dist.contains_key(c) {
        dist[c]
    } else {
        -1int
    }) by {
        lemma_cell_index(m.width, m.height, c.x as int, c.y as int);
        if c != start && m.in_map(start.x as int, start.y as int) {
            lemma_distinct_cells(
                m.width,
                m.height,
                c.x as int,
                c.y as int,
                start.x as int,
                start.y as int,
            );
        }
    }
    assert(is_walk(m, occ, start, seq![start]));
    let mut queue: Vec<(Position, i64)> = Vec::new();
    queue.push((start, 0));
    let mut result: Vec<Position> = Vec::new();
    let mut head: usize = 0;
    proof {
        lemma_potential_nonnegative(best@, cap);
    }
    while head < queue.len()
        invariant
            map.wf(),
            m == map@,
            occ == occupied@,
            bonus == gravity_bonus as int,
            budget == max_ap as int,
            max_ap != 0,
            cap == (if max_ap < 0 {
                0
            } else {
                max_ap as int
            }),
            coordinates_fit(m),
            interior_point(start),
            costs_nonnegative(m, weather, bonus),
            best@.len() == m.width * m.height,
            forall|c: Position|
                m.in_map(c.x as int, c.y as int) ==> #[trigger] best@[cell_at(m, c)] == (if dist.contains_key(
                    c,
                ) {
                    dist[c]
                } else {
                    -1int
                }),
            dist.contains_key(start),
            dist[start] == 0,
            forall|c: Position| #[trigger]
                dist.contains_key(c) ==> (c == start || m.in_map(c.x as int, c.y as int)) && 0
                    <= dist[c] <= cap && (c == start || dist[c] <= budget),
            forall|c: Position| #[trigger]
                dist.contains_key(c) ==> latest.contains_key(c) && 0 <= latest[c] < queue@.len()
                    && queue@[latest[c]].0 == c && queue@[latest[c]].1 == dist[c],
            forall|c: Position| #[trigger]
                dist.contains_key(c) ==> route.contains_key(c) && is_walk(m, occ, start, route[c])
                    && route[c].last() == c && walk_cost(m, weather, bonus, route[c]) <= dist[c],
            forall|c: Position| #[trigger]
                dist.contains_key(c) ==> latest[c] >= head || settled(
                    m,
                    occ,
                    weather,
                    bonus,
                    budget,
                    dist,
                    c,
                ),
            queue@.len() >= 1,
            queue@[0] == (start, 0i64),
            head <= queue@.len(),
            forall|j: int|
                0 <= j < queue@.len() ==> dist.contains_key((#[trigger] queue@[j]).0) && dist[queue@[j].0]
                    <= queue@[j].1 <= cap,
            result@.len() == head,
            forall|j: int| 0 <= j < head ==> result@[j] == queue@[j].0,
        decreases 2 * potential(best@, cap) + queue@.len() - head,
    {
        let entry = queue[head];
        let current = entry.0;
        let cost_so_far = entry.1;
        result.push(current);
        head = head + 1;
        let ghost pot0 = potential(best@, cap);
        let ghost len0 = queue@.len();
        assert(queue@[head - 1] == entry);
        assert(dist.contains_key(current));
        assert(interior_point(current));
        let mut k: usize = 0;
        while k < 4
            invariant
                map.wf(),
                m == map@,
                occ == occupied@,
                bonus == gravity_bonus as int,
                budget == max_ap as int,
                cap == (if max_ap < 0 {
                    0
                } else {
                    max_ap as int
                }),
                coordinates_fit(m),
                interior_point(start),
                costs_nonnegative(m, weather, bonus),
                k <= 4,
                interior_point(current),
                0 <= cost_so_far <= cap,
                dist.contains_key(current),
                dist[current] <= cost_so_far,
                best@.len() == m.width * m.height,
                forall|c: Position|
                    m.in_map(c.x as int, c.y as int) ==> #[trigger] best@[cell_at(m, c)] == (if dist.contains_key(
                        c,
                    ) {
                        dist[c]
                    } else {
                        -1int
                    }),
                dist.contains_key(start),
                dist[start] == 0,
                forall|c: Position| #[trigger]
                    dist.contains_key(c) ==> (c == start || m.in_map(c.x as int, c.y as int)) && 0
                        <= dist[c] <= cap && (c == start || dist[c] <= budget),
                forall|c: Position| #[trigger]
                    dist.contains_key(c) ==> latest.contains_key(c) && 0 <= latest[c] < queue@.len()
                        && queue@[latest[c]].0 == c && queue@[latest[c]].1 == dist[c],
                forall|c: Position| #[trigger]
                    dist.contains_key(c) ==> route.contains_key(c) && is_walk(m, occ, start, route[c])
                        && route[c].last() == c && walk_cost(m, weather, bonus, route[c]) <= dist[c],
                forall|c: Position| #[trigger]
                    dist.contains_key(c) ==> latest[c] >= head || settled(
                        m,
                        occ,
                        weather,
                        bonus,
                        budget,
                        dist,
                        c,
                    ) || (c == current && latest[c] == head - 1 && dist[c] == cost_so_far),
                forall|kk: int|
                    0 <= kk < k ==> #[trigger] relaxed(
                        m,
                        occ,
                        weather,
                        bonus,
                        budget,
                        dist,
                        cost_so_far as int,
                        cardinal_neighbor(current, kk),
                    ),
                queue@.len() >= len0,
                queue@[0] == (start, 0i64),
                1 <= head <= len0,
                forall|j: int|
                    0 <= j < queue@.len() ==> dist.contains_key((#[trigger] queue@[j]).0)
                        && dist[queue@[j].0] <= queue@[j].1 <= cap,
                result@.len() == head,
                forall|j: int| 0 <= j < head ==> result@[j] == queue@[j].0,
                2 * potential(best@, cap) + queue@.len() <= 2 * pot0 + len0,
            decreases 4 - k,
        {
            let nb = cardinal_step(current, k);
            proof {
                lemma_step_is_adjacent(current, k as int);
            }
            if map.is_walkable(nb) && !contains_position(occupied, nb) {
                let move_cost: i64 = map.movement_cost_with_weather(nb, weather) as i64
                    + gravity_bonus as i64;
                let new_cost: i64 = cost_so_far + move_cost;
                assert(move_cost == step_cost(m, weather, bonus, nb));
                if new_cost <= max_ap as i64 {
                    let ci = map.cell_index(nb.x, nb.y);
                    let known = best[ci];
                    assert(best@[cell_at(m, nb)] == known);
                    if known < 0 || new_cost < known {
                        let ghost old_best = best@;
                        let ghost old_dist = dist;
                        let ghost old_latest = latest;
                        let ghost old_queue = queue@;
                        let ghost old_len = queue@.len();
                        best.set(ci, new_cost);
                        queue.push((nb, new_cost));
                        proof {
                            lemma_walk_push(m, occ, weather, bonus, start, route[current], nb);
                            route = route.insert(nb, route[current].push(nb));
                            dist = dist.insert(nb, new_cost as int);
                            latest = latest.insert(nb, old_len as int);
                            lemma_potential_update(old_best, cap, ci as int, new_cost);
                            lemma_potential_nonnegative(best@, cap);
                            assert forall|c: Position| m.in_map(c.x as int, c.y as int) implies #[trigger] best@[cell_at(m, c)]
                                == (if dist.contains_key(c) {
                                dist[c]
                            } else {
                                -1int
                            }) by {
                                lemma_cell_index(m.width, m.height, c.x as int, c.y as int);
                                if c != nb {
                                    lemma_distinct_cells(
                                        m.width,
                                        m.height,
                                        c.x as int,
                                        c.y as int,
                                        nb.x as int,
                                        nb.y as int,
                                    );
                                    assert(best@[cell_at(m, c)] == old_best[cell_at(m, c)]);
                                }
                            }
                            assert forall|c: Position| #[trigger] dist.contains_key(c) implies latest.contains_key(c) && 0 <= latest[c] < queue@.len()
                                && queue@[latest[c]].0 == c && queue@[latest[c]].1 == dist[c] by {
                                if c != nb {
                                    assert(old_dist.contains_key(c));
                                    assert(queue@[latest[c]] == old_queue[old_latest[c]]);
                                }
                            }
                            assert forall|c: Position| #[trigger] dist.contains_key(c) implies latest[c] >= head
                                || settled(m, occ, weather, bonus, budget, dist, c) || (c == current
                                && latest[c] == head - 1 && dist[c] == cost_so_far) by {
                                if c != nb && settled(m, occ, weather, bonus, budget, old_dist, c) {
                                    assert forall|kk: int| 0 <= kk < 4 implies #[trigger] relaxed(
                                        m,
                                        occ,
                                        weather,
                                        bonus,
                                        budget,
                                        dist,
                                        dist[c],
                                        cardinal_neighbor(c, kk),
                                    ) by {
                                        assert(relaxed(
                                            m,
                                            occ,
                                            weather,
                                            bonus,
                                            budget,
                                            old_dist,
                                            old_dist[c],
                                            cardinal_neighbor(c, kk),
                                        ));
                                    }
                                }
                            }
                            assert forall|kk: int| 0 <= kk < k + 1 implies #[trigger] relaxed(
                                m,
                                occ,
                                weather,
                                bonus,
                                budget,
                                dist,
                                cost_so_far as int,
                                cardinal_neighbor(current, kk),
                            ) by {
                                if kk < k {
                                    assert(relaxed(
                                        m,
                                        occ,
                                        weather,
                                        bonus,
                                        budget,
                                        old_dist,
                                        cost_so_far as int,
                                        cardinal_neighbor(current, kk),
                                    ));
                                }
                            }
                            assert forall|j: int| 0 <= j < queue@.len() implies dist.contains_key(
                                (#[trigger] queue@[j]).0,
                            ) && dist[queue@[j].0] <= queue@[j].1 <= cap by {
                                if j < old_len {
                                    assert(queue@[j] == old_queue[j]);
                                }
                            }
                        }
                    }
                }
            }
            k = k + 1;
        }
        proof {
            if latest[current] == head - 1 && dist[current] == cost_so_far {
                assert forall|kk: int| 0 <= kk < 4 implies #[trigger] relaxed(
                    m,
                    occ,
                    weather,
                    bonus,
                    budget,
                    dist,
                    dist[current],
                    cardinal_neighbor(current, kk),
                ) by {
                    assert(relaxed(
                        m,
                        occ,
                        weather,
                        bonus,
                        budget,
                        dist,
                        cost_so_far as int,
                        cardinal_neighbor(current, kk),
                    ));
                }
            }
            lemma_potential_nonnegative(best@, cap);
        }
    }
    proof {
        assert forall|c: Position| #[trigger] dist.contains_key(c) implies settled(
            m,
            occ,
            weather,
            bonus,
            budget,
            dist,
            c,
        ) by {}
        assert forall|p: Position| result@.contains(p) <==> (p == start || (max_ap != 0 && reaches(
            m,
            occ,
            weather,
            bonus,
            start,
            budget,
            p,
        ))) by {
            if result@.contains(p) {
                let j = choose|j: int| 0 <= j < result@.len() && result@[j] == p;
                assert(queue@[j].0 == p);
                assert(dist.contains_key(p));
                if p != start {
                    assert(is_walk(m, occ, start, route[p]));
                }
            }
            if p == start {
                assert(result@[0] == p);
            } else if reaches(m, occ, weather, bonus, start, budget, p) {
                let path = choose|path: Seq<Position>|
                    #[trigger] is_walk(m, occ, start, path) && path.last() == p && walk_cost(
                        m,
                        weather,
                        bonus,
                        path,
                    ) <= budget;
                lemma_walk_known(m, occ, weather, bonus, budget, start, dist, path, path.len() - 1);
                assert(dist.contains_key(p));
                assert(result@[latest[p]] == p);
            }
        }
    }
    result
}

/// `q` is the first cell of `reachable` outside `danger` at the least distance
/// from `pos` among those outside `danger`.
pub open spec fn first_nearest_safe(
    pos: Position,
    reachable: Seq<Position>,
    danger: Seq<Position>,
    q: Position,
) -> bool {
    exists|i: int|
        0 <= i < reachable.len() && #[trigger] reachable[i] == q && !danger.contains(q) && (forall|
            j: int,
        |
            0 <= j < reachable.len() && !danger.contains(#[trigger] reachable[j]) ==> manhattan(q, pos)
                <= manhattan(reachable[j], pos)) && (forall|j: int|
            0 <= j < i && !danger.contains(#[trigger] reachable[j]) ==> manhattan(q, pos) < manhattan(
                reachable[j],
                pos,
            ))
}

/// The nearest cell of `reachable` that lies outside `danger` (the first one
/// on ties), if there is any.
pub fn nearest_safe_tile(pos: Position, reachable: &Vec<Position>, danger: &Vec<Position>) -> (r:
    Option<Position>)
    ensures
        r is None <==> forall|j: int| 0 <= j < reachable@.len() ==> danger@.contains(#[trigger] reachable@[j]),
        r matches Some(q) ==> first_nearest_safe(pos, reachable@, danger@, q),
{
    let n = reachable.len();
    let mut best: Option<(usize, i32)> = None;
    let mut i: usize = 0;
    while i < n
        invariant
            i <= n,
            n == reachable@.len(),
            best is None <==> forall|j: int| 0 <= j < i ==> danger@.contains(#[trigger] reachable@[j]),
            best matches Some((b, d)) ==> {
                &&& b < i
                &&& !danger@.contains(reachable@[b as int])
                &&& d == manhattan(reachable@[b as int], pos)
                &&& forall|j: int|
                    0 <= j < i && !danger@.contains(#[trigger] reachable@[j]) ==> d <= manhattan(
                        reachable@[j],
                        pos,
                    )
                &&& forall|j: int|
                    0 <= j < b && !danger@.contains(#[trigger] reachable@[j]) ==> d < manhattan(
                        reachable@[j],
                        pos,
                    )
            },
        decreases n - i,
    {
        let cand = reachable[i];
        if !contains_position(danger, cand) {
            let d = manhattan_distance(cand, pos);
            match best {
                None => {
                    best = Some((i, d));
                },
                Some((_, bd)) => {
                    if d < bd {
                        best = Some((i, d));
                    }
                },
            }
        }
        i = i + 1;
    }
    match best {
        None => None,
        Some((b, _)) => {
            let q = reachable[b];
            assert(reachable@[b as int] == q);
            Some(q)
        },
    }
}

/// What stepping a unit out of the telegraphed danger comes to.
#[derive(Copy, Clone, Debug, PartialEq, Eq, Structural)]
pub enum SafetyStep {
    /// No danger is telegraphed.
    NoDanger,
    /// The unit already stands outside the danger.
    AlreadySafe,
    /// No reachable cell lies outside the danger.
    NoSafeTile,
    /// The nearest safe cell, which the unit lacks the action point to reach.
    NotEnoughAp(Position),
    /// Step to the nearest safe cell, for one action point.
    StepTo(Position),
}

/// Where a unit at `pos`, with `ap` action points and the cells `reachable`
/// it can move to, steps to leave the telegraphed `danger`.
pub fn plan_step_to_safety(pos: Position, ap: i32, danger: &Vec<Position>, reachable: &Vec<Position>) -> (r:
    SafetyStep)
    ensures
        danger@.len() == 0 ==> r == SafetyStep::NoDanger,
        danger@.len() > 0 && !danger@.contains(pos) ==> r == SafetyStep::AlreadySafe,
        danger@.len() > 0 && danger@.contains(pos) ==> {
            &&& r == SafetyStep::NoSafeTile <==> forall|j: int|
                0 <= j < reachable@.len() ==> danger@.contains(#[trigger] reachable@[j])
            &&& r matches SafetyStep::StepTo(q) ==> ap >= 1 && first_nearest_safe(pos, reachable@, danger@, q)
            &&& r matches SafetyStep::NotEnoughAp(q) ==> ap < 1 && first_nearest_safe(pos, reachable@, danger@, q)
            &&& r != SafetyStep::NoDanger && r != SafetyStep::AlreadySafe
        },
{
    if danger.len() == 0 {
        return SafetyStep::NoDanger;
    }
    if !contains_position(danger, pos) {
        return SafetyStep::AlreadySafe;
    }
    match nearest_safe_tile(pos, reachable, danger) {
        None => SafetyStep::NoSafeTile,
        Some(q) => if ap >= 1 {
            SafetyStep::StepTo(q)
        } else {
            SafetyStep::NotEnoughAp(q)
        },
    }
}

} // verus!
