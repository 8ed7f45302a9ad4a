use vstd::prelude::*;

use crate::battle::{BattleState, find_unit, selected_index, unit_index};
use crate::battle_preview::UnitRecord;
use crate::bestiary::{last_unlocked, lore_unlocked, unlock_lore, unlock_message};
use crate::components::{BossPhase, CharacterClass, GameState, LoreJournal, Stats, Team};
use crate::geometry::{Position, interior_point};
use crate::map::{MapView, TacticalMap, Tile, lemma_with_tile};
use crate::text::{decimal, push_int, push_str};

verus! {

/// Where the heroes arrive on a new floor: the first room's centre, or (4, 4)
/// when the floor has no room.
pub open spec fn arrival_point(rooms: Seq<Position>) -> Position {
    if rooms.len() > 0 {
        rooms[0]
    } else {
        Position { x: 4, y: 4 }
    }
}

/// The enemy that guards room `i` (counted from 0) of a floor with `n` rooms:
/// the boss in the last room, and otherwise in turn a shadow stalker, a
/// corrupted spore and a glacial golem.
pub open spec fn room_guard(i: int, n: int) -> CharacterClass {
    if i == n - 1 {
        CharacterClass::Boss
    } else if i % 3 == 0 {
        CharacterClass::ShadowStalker
    } else if i % 3 == 1 {
        CharacterClass::CorruptedSpore
    } else {
        CharacterClass::GlacialGolem
    }
}

/// The enemies to place on a new floor, one in each room after the first,
/// among the first `k` rooms.
pub open spec fn floor_guards(rooms: Seq<Position>, k: int) -> Seq<(Position, CharacterClass)>
    decreases k,
{
    if k <= 1 {
        Seq::empty()
    } else {
        floor_guards(rooms, k - 1).push((rooms[k - 1], room_guard(k - 1, rooms.len() as int)))
    }
}

/// The rooms (after the first, never the last) that get a patch of ice: every
/// third one from the second, among the first `k`.
pub open spec fn ice_rooms(rooms: Seq<Position>, k: int) -> Seq<Position>
    decreases k,
{
    if k <= 1 {
        Seq::empty()
    } else if k - 1 < rooms.len() - 1 && (k - 1) % 3 == 2 {
        ice_rooms(rooms, k - 1).push(rooms[k - 1])
    } else {
        ice_rooms(rooms, k - 1)
    }
}

/// How many of the first `k` units are heroes.
pub open spec fn heroes_before(units: Seq<UnitRecord>, k: int) -> int
    decreases k,
{
    if k <= 0 {
        0
    } else {
        heroes_before(units, k - 1) + if units[k - 1].team == Some(Team::Player) {
            1int
        } else {
            0int
        }
    }
}

/// The `i`-th hero on arrival: two to a row from the arrival point, with its
/// action points refilled.
pub open spec fn arrived(u: UnitRecord, at: Position, i: int) -> UnitRecord {
    UnitRecord {
        position: match u.position {
            Some(_) => Some(Position { x: (at.x + i % 2) as i16, y: (at.y + i / 2) as i16 }),
            None => None,
        },
        stats: match u.stats {
            Some(s) => Some(Stats { ap: s.max_ap, ..s }),
            None => None,
        },
        ..u
    }
}

/// The first `k` units on the new floor: enemies gone, heroes arrived, the
/// others as they were.
pub open spec fn descended(units: Seq<UnitRecord>, at: Position, k: int) -> Seq<UnitRecord>
    decreases k,
{
    if k <= 0 {
        Seq::empty()
    } else {
        let prev = descended(units, at, k - 1);
        let u = units[k - 1];
        if u.team == Some(Team::Enemy) {
            prev
        } else if u.team == Some(Team::Player) {
            prev.push(arrived(u, at, heroes_before(units, k - 1)))
        } else {
            prev.push(u)
        }
    }
}

proof fn lemma_heroes_before_bounded(units: Seq<UnitRecord>, k: int)
    requires
        0 <= k <= units.len(),
    ensures
        0 <= heroes_before(units, k) <= k,
    decreases k,
{
    if k > 0 {
        lemma_heroes_before_bounded(units, k - 1);
    }
}

/// What the descent asks of the world beyond the rules: the enemies to place
/// and the rooms to ice over, with the log lines.
#[derive(Clone, Debug)]
pub struct Descent {
    /// One enemy for each room after the first, at the room's centre.
    pub guards: Vec<(Position, CharacterClass)>,
    /// The rooms that get a patch of ice.
    pub ice_rooms: Vec<Position>,
    /// The log lines, in order.
    pub messages: Vec<String>,
}

/// The width of every floor below the first.
pub open spec fn floor_width() -> u16 {
    24
}

/// The height of every floor below the first.
pub open spec fn floor_height() -> u16 {
    16
}

/// The blank map of a new floor, 24 by 16 cells of grass, which the dungeon
/// generator then carves into rooms.
pub fn new_floor_map() -> (m: TacticalMap)
    ensures
        m.wf(),
        m.width == floor_width(),
        m.height == floor_height(),
        forall|x: int, y: int| m@.in_map(x, y) ==> #[trigger] m@.tile_at(x, y) == Tile::Grass,
{
    TacticalMap::new(24, 16)
}

/// The log line when the heroes start down to `floor`.
pub open spec fn descending_message(floor: int) -> Seq<char> {
    "Descending to Floor "@ + decimal(floor) + "..."@
}

/// The log line when the heroes arrive on `floor`.
pub open spec fn welcome_message(floor: int) -> Seq<char> {
    "Welcome to Floor "@ + decimal(floor) + "! Conquer this final level."@
}

/// Takes the heroes down to the next floor, whose 24 by 16 map (from
/// `new_floor_map`, carved by the dungeon generator) has rooms with the
/// centres `rooms`: grass round every third room turns to ice; the floor
/// number rises by one, the turn count starts again at 1 in the boss's first
/// phase with no unit selected and the cursor on the arrival point; every enemy and echo of the old floor is gone; the heroes
/// stand two to a row from the first room's centre with their action points
/// refilled; reaching the second floor reveals the lore entry
/// `descent_into_darkness`.
pub fn next_floor(
    state: &mut GameState,
    units: &mut Vec<UnitRecord>,
    echoes: &mut Vec<(Position, CharacterClass)>,
    journal: &mut LoreJournal,
    map: &mut TacticalMap,
    rooms: &[Position],
) -> (r: Descent)
    requires
        old(map).wf(),
        old(map).width == floor_width(),
        old(map).height == floor_height(),
        forall|j: int| 0 <= j < rooms@.len() ==> interior_point(#[trigger] rooms@[j]),
        old(state).floor < u32::MAX,
        arrival_point(rooms@).x < i16::MAX,
        arrival_point(rooms@).y + old(units)@.len() / 2 <= i16::MAX,
        old(units)@.len() / 2 <= i16::MAX,
    ensures
        *final(state) == (GameState {
            floor: (old(state).floor + 1) as u32,
            turn: 1,
            boss_phase: BossPhase::Phase1,
            selected_entity: None,
            cursor: arrival_point(rooms@),
            ..*old(state)
        }),
        final(units)@ == descended(old(units)@, arrival_point(rooms@), old(units)@.len() as int),
        final(echoes)@.len() == 0,
        old(state).floor + 1 == 2 ==> lore_unlocked(
            old(journal).entries@,
            final(journal).entries@,
            "descent_into_darkness"@,
            old(state).turn,
        ),
        old(state).floor + 1 != 2 ==> final(journal).entries@ == old(journal).entries@,
        r.guards@ == floor_guards(rooms@, rooms@.len() as int),
        final(map).wf(),
        final(map).width == floor_width(),
        final(map).height == floor_height(),
        forall|x: int, y: int|
            old(map)@.in_map(x, y) ==> #[trigger] final(map)@.tile_at(x, y) == iced_tile(
                old(map)@,
                ice_rooms(rooms@, rooms@.len() as int),
                x,
                y,
            ),
        r.ice_rooms@ == ice_rooms(rooms@, rooms@.len() as int),
        r.messages@.len() >= 2,
        r.messages@[0]@ == descending_message(old(state).floor + 1),
        r.messages@.last()@ == welcome_message(old(state).floor + 1),
        r.messages@.len() == 3 ==> r.messages@[1]@ == unlock_message(
            old(journal).entries@[last_unlocked(
                old(journal).entries@,
                "descent_into_darkness"@,
                old(journal).entries@.len() as int,
            )->0].title@,
        ),
        r.messages@.len() == 2 + if old(state).floor + 1 == 2 && last_unlocked(
            old(journal).entries@,
            "descent_into_darkness"@,
            old(journal).entries@.len() as int,
        ) is Some {
            1int
        } else {
            0int
        },
{
    let floor = state.floor + 1;
    let mut messages: Vec<String> = Vec::new();
    let mut first = String::new();
    push_str(&mut first, "Descending to Floor ");
    push_int(&mut first, floor as i64);
    push_str(&mut first, "...");
    messages.push(first);
    if floor == 2 {
        if let Some(line) = unlock_lore(journal, "descent_into_darkness", state.turn) {
            messages.push(line);
        }
    }
    *echoes = Vec::new();
    let at = if rooms.len() > 0 {
        rooms[0]
    } else {
        Position::new(4, 4)
    };
    let n = units.len();
    let mut kept: Vec<UnitRecord> = Vec::new();
    let mut heroes: usize = 0;
    let mut k: usize = 0;
    while k < n
        invariant
            k <= n,
            n == units@.len(),
            at == arrival_point(rooms@),
            at.x < i16::MAX,
            at.y + n / 2 <= i16::MAX,
            n / 2 <= i16::MAX,
            heroes == heroes_before(units@, k as int),
            kept@ == descended(units@, at, k as int),
        decreases n - k,
    {
        proof {
            lemma_heroes_before_bounded(units@, k as int);
        }
        let u = units[k];
        if u.team == Some(Team::Enemy) {
        } else if u.team == Some(Team::Player) {
            let dx: i16 = (heroes % 2) as i16;
            let dy: i16 = (heroes / 2) as i16;
            let position = match u.position {
                Some(_) => Some(Position::new(at.x + dx, at.y + dy)),
                None => None,
            };
            let stats = match u.stats {
                Some(s) => Some(Stats { ap: s.max_ap, ..s }),
                None => None,
            };
            kept.push(UnitRecord { position, stats, ..u });
            heroes = heroes + 1;
        } else {
            kept.push(u);
        }
        k = k + 1;
    }
    *units = kept;
    let m = rooms.len();
    let mut guards: Vec<(Position, CharacterClass)> = Vec::new();
    let mut icy: Vec<Position> = Vec::new();
    let mut i: usize = 1;
    while i < m
        invariant
            1 <= i,
            i <= m || (m == 0 && i == 1),
            m == rooms@.len(),
            guards@ == floor_guards(rooms@, i as int),
            icy@ == ice_rooms(rooms@, i as int),
            forall|j: int| 0 <= j < rooms@.len() ==> interior_point(#[trigger] rooms@[j]),
            forall|j: int| 0 <= j < icy@.len() ==> interior_point(#[trigger] icy@[j]),
        decreases m - i,
    {
        let guard = if i == m - 1 {
            CharacterClass::Boss
        } else if i % 3 == 0 {
            CharacterClass::ShadowStalker
        } else if i % 3 == 1 {
            CharacterClass::CorruptedSpore
        } else {
            CharacterClass::GlacialGolem
        };
        guards.push((rooms[i], guard));
        if i < m - 1 && i % 3 == 2 {
            icy.push(rooms[i]);
        }
        i = i + 1;
    }
    proof {
        if m == 0 {
            assert(guards@ =~= floor_guards(rooms@, 0));
            assert(icy@ =~= ice_rooms(rooms@, 0));
        } else {
            assert(i == m);
        }
    }
    state.floor = floor;
    state.cursor = at;
    state.selected_entity = None;
    state.boss_phase = BossPhase::Phase1;
    state.turn = 1;
    let mut last = String::new();
    push_str(&mut last, "Welcome to Floor ");
    push_int(&mut last, floor as i64);
    push_str(&mut last, "! Conquer this final level.");
    messages.push(last);
    ice_over_rooms(map, &icy);
    Descent { guards, ice_rooms: icy, messages }
}

/// Where a missing glacial golem goes on the first ice cell (row by row, from
/// the second row and column, short of the last ones) that borders grass:
/// the first grass neighbour, looking north, south, west, then east.
pub open spec fn ice_edge(m: MapView, x: int, y: int) -> Option<Position> {
    if m.tile_at(x, y) != Tile::Ice {
        None
    } else if m.tile_at(x, y - 1) == Tile::Grass {
        Some(Position { x: x as i16, y: (y - 1) as i16 })
    } else if m.tile_at(x, y + 1) == Tile::Grass {
        Some(Position { x: x as i16, y: (y + 1) as i16 })
    } else if m.tile_at(x - 1, y) == Tile::Grass {
        Some(Position { x: (x - 1) as i16, y: y as i16 })
    } else if m.tile_at(x + 1, y) == Tile::Grass {
        Some(Position { x: (x + 1) as i16, y: y as i16 })
    } else {
        None
    }
}

/// The first spot in row `y` among columns `1..=k`.
pub open spec fn row_spot(m: MapView, y: int, k: int) -> Option<Position>
    decreases k,
{
    if k <= 0 {
        None
    } else {
        match row_spot(m, y, k - 1) {
            Some(p) => Some(p),
            None => ice_edge(m, k, y),
        }
    }
}

/// The first spot among rows `1..=k`, columns `1..=w`.
pub open spec fn map_spot(m: MapView, w: int, k: int) -> Option<Position>
    decreases k,
{
    if k <= 0 {
        None
    } else {
        match map_spot(m, w, k - 1) {
            Some(p) => Some(p),
            None => row_spot(m, k, w),
        }
    }
}

/// Where to place a glacial golem when the new floor has none: next to the
/// first ice cell that borders grass, if there is one.
pub fn golem_spot(map: &TacticalMap) -> (r: Option<Position>)
    requires
        map.wf(),
        map.width <= i16::MAX,
        map.height <= i16::MAX,
    ensures
        r == map_spot(map@, map.width - 2, map.height - 2),
{
    let w: i16 = map.width as i16;
    let h: i16 = map.height as i16;
    let mut y: i16 = 1;
    while y < h - 1
        invariant
            map.wf(),
            w == map.width,
            h == map.height,
            1 <= y,
            y <= h - 1 || h <= 1,
            h <= 1 ==> y == 1,
            map_spot(map@, w - 2, y - 1) is None,
        decreases h - y,
    {
        let mut x: i16 = 1;
        while x < w - 1
            invariant
                map.wf(),
                w == map.width,
                h == map.height,
                1 <= y < h - 1,
                1 <= x,
                x <= w - 1 || w <= 1,
                w <= 1 ==> x == 1,
                map_spot(map@, w - 2, y - 1) is None,
                row_spot(map@, y as int, x - 1) is None,
            decreases w - x,
        {
            if map.tile(x, y) == Tile::Ice {
                let found = if map.tile(x, y - 1) == Tile::Grass {
                    Some(Position::new(x, y - 1))
                } else if map.tile(x, y + 1) == Tile::Grass {
                    Some(Position::new(x, y + 1))
                } else if map.tile(x - 1, y) == Tile::Grass {
                    Some(Position::new(x - 1, y))
                } else if map.tile(x + 1, y) == Tile::Grass {
                    Some(Position::new(x + 1, y))
                } else {
                    None
                };
                if found.is_some() {
                    proof {
                        assert(row_spot(map@, y as int, x as int) == found);
                        lemma_row_spot_stays(map@, y as int, x as int, w - 2);
                        assert(map_spot(map@, w - 2, y as int) == found);
                        lemma_map_spot_stays(map@, w - 2, y as int, h - 2);
                    }
                    return found;
                }
            }
            x = x + 1;
        }
        proof {
            if w <= 2 {
                assert(row_spot(map@, y as int, w - 2) is None);
            }
        }
        y = y + 1;
    }
    proof {
        if h <= 2 {
            assert(map_spot(map@, w - 2, h - 2) is None);
        }
    }
    None
}

proof fn lemma_row_spot_stays(m: MapView, y: int, k: int, n: int)
    requires
        k <= n,
        row_spot(m, y, k) is Some,
    ensures
        row_spot(m, y, n) == row_spot(m, y, k),
    decreases n - k,
{
    if k < n {
        lemma_row_spot_stays(m, y, k, n - 1);
    }
}

proof fn lemma_map_spot_stays(m: MapView, w: int, k: int, n: int)
    requires
        k <= n,
        map_spot(m, w, k) is Some,
    ensures
        map_spot(m, w, n) == map_spot(m, w, k),
    decreases n - k,
{
    if k < n {
        lemma_map_spot_stays(m, w, k, n - 1);
    }
}

/// Cell (x, y) lies in the 3x3 patch round `c`.
pub open spec fn in_patch(c: Position, x: int, y: int) -> bool {
    c.x - 1 <= x <= c.x + 1 && c.y - 1 <= y <= c.y + 1
}

/// Cell (x, y) lies in the patch round one of the first `k` centres.
pub open spec fn near_patch(centres: Seq<Position>, k: int, x: int, y: int) -> bool {
    exists|j: int| 0 <= j < k && in_patch(#[trigger] centres[j], x, y)
}

/// The map after patches of ice round `centres`: grass within a patch turns
/// to ice, every other cell stays as it was.
pub open spec fn iced_tile(m: MapView, centres: Seq<Position>, x: int, y: int) -> Tile {
    if m.tile_at(x, y) == Tile::Grass && near_patch(centres, centres.len() as int, x, y) {
        Tile::Ice
    } else {
        m.tile_at(x, y)
    }
}

/// Within the patch round `c`, the cells before offset (a, b), column by column.
pub open spec fn patch_done(c: Position, a: int, b: int, x: int, y: int) -> bool {
    in_patch(c, x, y) && (x - c.x < a || (x - c.x == a && y - c.y < b))
}

/// Turns the grass round each of `centres` (the rooms that get ice) to ice.
pub fn ice_over_rooms(map: &mut TacticalMap, centres: &Vec<Position>)
    requires
        old(map).wf(),
        forall|j: int| 0 <= j < centres@.len() ==> interior_point(#[trigger] centres@[j]),
    ensures
        final(map).wf(),
        final(map).width == old(map).width,
        final(map).height == old(map).height,
        forall|x: int, y: int|
            old(map)@.in_map(x, y) ==> #[trigger] final(map)@.tile_at(x, y) == iced_tile(old(map)@, centres@, x, y),
{
    let ghost m0 = map@;
    let n = centres.len();
    let mut j: usize = 0;
    while j < n
        invariant
            j <= n,
            n == centres@.len(),
            map.wf(),
            map@.width == m0.width,
            map@.height == m0.height,
            m0.tiles.len() == m0.width * m0.height,
            m0.width >= 0 && m0.height >= 0,
            forall|i: int| 0 <= i < centres@.len() ==> interior_point(#[trigger] centres@[i]),
            forall|x: int, y: int|
                m0.in_map(x, y) ==> #[trigger] map@.tile_at(x, y) == if m0.tile_at(x, y) == Tile::Grass
                    && near_patch(centres@, j as int, x, y) {
                    Tile::Ice
                } else {
                    m0.tile_at(x, y)
                },
        decreases n - j,
    {
        let c = centres[j];
        let mut a: i16 = -1;
        while a <= 1
            invariant
                -1 <= a <= 2,
                j < n,
                n == centres@.len(),
                c == centres@[j as int],
                interior_point(c),
                map.wf(),
                map@.width == m0.width,
                map@.height == m0.height,
                m0.tiles.len() == m0.width * m0.height,
                m0.width >= 0 && m0.height >= 0,
                forall|x: int, y: int|
                    m0.in_map(x, y) ==> #[trigger] map@.tile_at(x, y) == if m0.tile_at(x, y) == Tile::Grass
                        && (near_patch(centres@, j as int, x, y) || patch_done(c, a as int, -1, x, y)) {
                        Tile::Ice
                    } else {
                        m0.tile_at(x, y)
                    },
            decreases 2 - a,
        {
            let mut b: i16 = -1;
            while b <= 1
                invariant
                    -1 <= a <= 1,
                    -1 <= b <= 2,
                    j < n,
                    n == centres@.len(),
                    c == centres@[j as int],
                    interior_point(c),
                    map.wf(),
                    map@.width == m0.width,
                    map@.height == m0.height,
                    m0.tiles.len() == m0.width * m0.height,
                    m0.width >= 0 && m0.height >= 0,
                    forall|x: int, y: int|
                        m0.in_map(x, y) ==> #[trigger] map@.tile_at(x, y) == if m0.tile_at(x, y)
                            == Tile::Grass && (near_patch(centres@, j as int, x, y) || patch_done(
                            c,
                            a as int,
                            b as int,
                            x,
                            y,
                        )) {
                            Tile::Ice
                        } else {
                            m0.tile_at(x, y)
                        },
                decreases 2 - b,
            {
                let p = Position::new(c.x + a, c.y + b);
                let ghost before = map@;
                if map.in_map_exec(p.x, p.y) && map.tile(p.x, p.y) == Tile::Grass {
                    map.set_tile(p, Tile::Ice);
                    proof {
                        assert forall|x: int, y: int| m0.in_map(x, y) implies #[trigger] map@.tile_at(x, y)
                            == if m0.tile_at(x, y) == Tile::Grass && (near_patch(centres@, j as int, x, y)
                            || patch_done(c, a as int, b + 1, x, y)) {
                            Tile::Ice
                        } else {
                            m0.tile_at(x, y)
                        } by {
                            lemma_with_tile(before, p, Tile::Ice, x, y);
                            assert(before.tile_at(x, y) == if m0.tile_at(x, y) == Tile::Grass && (
                            near_patch(centres@, j as int, x, y) || patch_done(
                                c,
                                a as int,
                                b as int,
                                x,
                                y,
                            )) {
                                Tile::Ice
                            } else {
                                m0.tile_at(x, y)
                            });
                        }
                    }
                } else {
                    proof {
                        assert forall|x: int, y: int| m0.in_map(x, y) implies #[trigger] map@.tile_at(x, y)
                            == if m0.tile_at(x, y) == Tile::Grass && (near_patch(centres@, j as int, x, y)
                            || patch_done(c, a as int, b + 1, x, y)) {
                            Tile::Ice
                        } else {
                            m0.tile_at(x, y)
                        } by {
                            assert(before.tile_at(x, y) == if m0.tile_at(x, y) == Tile::Grass && (
                            near_patch(centres@, j as int, x, y) || patch_done(
                                c,
                                a as int,
                                b as int,
                                x,
                                y,
                            )) {
                                Tile::Ice
                            } else {
                                m0.tile_at(x, y)
                            });
                        }
                    }
                }
                b = b + 1;
            }
            a = a + 1;
        }
        proof {
            assert forall|x: int, y: int| m0.in_map(x, y) implies #[trigger] map@.tile_at(x, y) == if m0.tile_at(
                x,
                y,
            ) == Tile::Grass && near_patch(centres@, j + 1, x, y) {
                Tile::Ice
            } else {
                m0.tile_at(x, y)
            } by {
                if near_patch(centres@, j + 1, x, y) && !near_patch(centres@, j as int, x, y) {
                    let w = choose|w: int| 0 <= w < j + 1 && in_patch(#[trigger] centres@[w], x, y);
                    assert(w == j);
                    assert(patch_done(c, 2, -1, x, y));
                }
                if near_patch(centres@, j as int, x, y) {
                    let w = choose|w: int| 0 <= w < j && in_patch(#[trigger] centres@[w], x, y);
                    assert(0 <= w < j + 1 && in_patch(centres@[w], x, y));
                }
            }
        }
        j = j + 1;
    }
}

/// Whether the heroes may take the stairs down.
#[derive(Clone, Debug)]
pub enum StairsCheck {
    /// The selected hero stands on a staircase: the game builds the next
    /// floor and calls `next_floor`.
    Descend,
    /// The step is refused with this log line.
    Refused { message: String },
}

/// The stairs may be taken only by the selected hero standing on a
/// staircase tile.
pub fn descend_check(state: &BattleState, map: &TacticalMap) -> (r: StairsCheck)
    requires
        map.wf(),
        state.wf(),
        state.game.selected_entity is Some ==> (selected_index(*state) matches Some(i)
            && state.units@[i].position is Some),
    ensures
        match selected_index(*state) {
            None => r matches StairsCheck::Refused { message } && message@ == "Select a character first!"@,
            Some(i) => {
                let p = state.units@[i].position->0;
                if map@.tile_at(p.x as int, p.y as int) == Tile::Stairs {
                    r is Descend
                } else {
                    r matches StairsCheck::Refused { message } && message@
                        == "You must stand on a staircase to descend!"@
                }
            },
        },
{
    let e = match state.game.selected_entity {
        None => {
            return StairsCheck::Refused { message: String::from_str("Select a character first!") };
        },
        Some(e) => e,
    };
    let i = find_unit(&state.units, e).unwrap();
    assert(selected_index(*state) == unit_index(state.units@, e, state.units@.len() as int));
    let p = state.units[i].position.unwrap();
    if map.tile(p.x, p.y) == Tile::Stairs {
        StairsCheck::Descend
    } else {
        StairsCheck::Refused { message: String::from_str("You must stand on a staircase to descend!") }
    }
}

} // verus!
