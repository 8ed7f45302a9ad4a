use vstd::prelude::*;

use crate::components::{
    ActiveHazards, Destructible, ElementalStatus, HazardEffect, HazardType, Stats,
};
use crate::geometry::Position;
use crate::map::{MapView, TacticalMap, Tile, lemma_with_tile};

verus! {

pub struct HazardSystem;

#[derive(Clone, Debug)]
pub struct HazardTriggerResult {
    pub hazard_type: HazardType,
    pub damage: i32,
    pub healing: i32,
    pub status_effect: Option<ElementalStatus>,
    pub message: String,
    pub should_destroy_tile: bool,
}

/// What stepping on a tile does: (kind, damage, healing, status, triggers),
/// where a trigger count of -1 means the hazard never wears out.
pub open spec fn hazard_of_tile(tile: Tile) -> Option<
    (HazardType, i32, i32, Option<ElementalStatus>, i32),
> {
    match tile {
        Tile::SpikeTrap => Some((HazardType::SpikeTrap, 15i32, 0i32, None, 1i32)),
        Tile::PoisonCloud => Some(
            (HazardType::PoisonCloud, 5i32, 0i32, Some(ElementalStatus::Poison { duration: 3 }), -1i32),
        ),
        Tile::HealingSpring => Some((HazardType::HealingSpring, 0i32, 25i32, None, -1i32)),
        Tile::CrackedFloor => Some((HazardType::CrackedFloor, 0i32, 0i32, None, 1i32)),
        Tile::PressurePlate => Some((HazardType::PressurePlate, 0i32, 0i32, None, -1i32)),
        Tile::ThornBush => Some((HazardType::ThornBush, 10i32, 0i32, None, -1i32)),
        Tile::Lava => Some((HazardType::FireTile, 20i32, 0i32, None, -1i32)),
        Tile::Ice => Some(
            (HazardType::IceTile, 0i32, 0i32, Some(ElementalStatus::Ice { duration: 2 }), -1i32),
        ),
        _ => None,
    }
}

/// A hazard kind that wounds whoever steps on it.
pub open spec fn wounding(kind: HazardType) -> bool {
    kind == HazardType::SpikeTrap || kind == HazardType::PoisonCloud || kind == HazardType::ThornBush
        || kind == HazardType::FireTile
}

/// Hazards hurt or heal as their kind says: a wounding hazard (spikes,
/// poison, thorns, fire) deals damage and never heals, the others deal
/// none; only a healing spring heals. Fire is the hardest-hitting hazard,
/// and lava, the fire tile, burns for good (it never wears out).
pub proof fn lemma_hazards_hurt_by_kind(t: Tile)
    ensures
        hazard_of_tile(t) matches Some((kind, damage, healing, _, _)) ==> (wounding(kind) <==> damage > 0)
            && (wounding(kind) ==> healing == 0) && (healing > 0 <==> kind == HazardType::HealingSpring),
        hazard_of_tile(Tile::Lava) matches Some((kind, damage, healing, _, triggers)) && kind == HazardType::FireTile
            && damage > 0 && healing == 0 && triggers < 0,
        hazard_of_tile(t) matches Some((_, damage, _, _, _)) ==> damage <= (hazard_of_tile(Tile::Lava)->0).1,
        hazard_of_tile(t) matches Some((kind, _, _, _, _)) ==> (kind == HazardType::FireTile <==> t == Tile::Lava),
{
}

/// Describes the hazard that a tile holds, if any.
pub fn tile_to_hazard(tile: Tile) -> (r: Option<(HazardType, i32, i32, Option<ElementalStatus>, i32)>)
    ensures
        r == hazard_of_tile(tile),
{
    match tile {
        Tile::SpikeTrap => Some((HazardType::SpikeTrap, 15, 0, None, 1)),
        Tile::PoisonCloud => Some(
            (HazardType::PoisonCloud, 5, 0, Some(ElementalStatus::Poison { duration: 3 }), -1),
        ),
        Tile::HealingSpring => Some((HazardType::HealingSpring, 0, 25, None, -1)),
        Tile::CrackedFloor => Some((HazardType::CrackedFloor, 0, 0, None, 1)),
        Tile::PressurePlate => Some((HazardType::PressurePlate, 0, 0, None, -1)),
        Tile::ThornBush => Some((HazardType::ThornBush, 10, 0, None, -1)),
        Tile::Lava => Some((HazardType::FireTile, 20, 0, None, -1)),
        Tile::Ice => Some((HazardType::IceTile, 0, 0, Some(ElementalStatus::Ice { duration: 2 }), -1)),
        _ => None,
    }
}

/// The active effect that a tile sets up, if it is a hazard tile.
pub open spec fn effect_of_tile(tile: Tile) -> Option<HazardEffect> {
    match hazard_of_tile(tile) {
        Some((kind, damage, healing, status, triggers)) => Some(
            HazardEffect {
                hazard_type: kind,
                damage,
                healing,
                status,
                duration: 0,
                trigger_count: triggers,
            },
        ),
        None => None,
    }
}

/// The grid position of cell (x, y) as the game addresses it.
pub open spec fn cell_position(x: int, y: int) -> Position {
    Position { x: x as i16, y: y as i16 }
}

/// The hazard entry of one cell: empty, or its position and effect.
pub open spec fn cell_hazard(m: MapView, x: int, y: int) -> Seq<(Position, HazardEffect)> {
    let p = cell_position(x, y);
    match effect_of_tile(m.tile_at(p.x as int, p.y as int)) {
        Some(e) => seq![(p, e)],
        None => Seq::empty(),
    }
}

/// Hazard entries of the first `k` cells of row `y`, left to right.
pub open spec fn row_hazards(m: MapView, y: int, k: int) -> Seq<(Position, HazardEffect)>
    decreases k,
{
    if k <= 0 {
        Seq::empty()
    } else {
        row_hazards(m, y, k - 1) + cell_hazard(m, k - 1, y)
    }
}

/// Hazard entries of the first `k` rows, top to bottom.
pub open spec fn grid_hazards(m: MapView, k: int) -> Seq<(Position, HazardEffect)>
    decreases k,
{
    if k <= 0 {
        Seq::empty()
    } else {
        grid_hazards(m, k - 1) + row_hazards(m, k - 1, m.width)
    }
}

/// The hazard list of a whole map, row by row.
pub open spec fn map_hazards(m: MapView) -> Seq<(Position, HazardEffect)> {
    grid_hazards(m, m.height)
}

/// The hazard entry `h` is what the tile under it sets up.
pub open spec fn entry_matches_tile(m: MapView, h: (Position, HazardEffect)) -> bool {
    effect_of_tile(m.tile_at(h.0.x as int, h.0.y as int)) == Some(h.1)
}

proof fn lemma_row_entries(m: MapView, y: int, k: int)
    ensures
        forall|i: int|
            0 <= i < row_hazards(m, y, k).len() ==> entry_matches_tile(m, #[trigger] row_hazards(m, y, k)[i]),
    decreases k,
{
    if k > 0 {
        lemma_row_entries(m, y, k - 1);
        let prev = row_hazards(m, y, k - 1);
        let cell = cell_hazard(m, k - 1, y);
        assert(row_hazards(m, y, k) == prev + cell);
        assert forall|i: int| 0 <= i < row_hazards(m, y, k).len() implies entry_matches_tile(
            m,
            #[trigger] row_hazards(m, y, k)[i],
        ) by {
            if i < prev.len() {
                assert(row_hazards(m, y, k)[i] == prev[i]);
            } else {
                assert(row_hazards(m, y, k)[i] == cell[i - prev.len()]);
            }
        }
    }
}

proof fn lemma_grid_entries(m: MapView, k: int)
    ensures
        forall|i: int|
            0 <= i < grid_hazards(m, k).len() ==> entry_matches_tile(m, #[trigger] grid_hazards(m, k)[i]),
    decreases k,
{
    if k > 0 {
        lemma_grid_entries(m, k - 1);
        lemma_row_entries(m, k - 1, m.width);
        let prev = grid_hazards(m, k - 1);
        let row = row_hazards(m, k - 1, m.width);
        assert forall|i: int| 0 <= i < grid_hazards(m, k).len() implies entry_matches_tile(
            m,
            #[trigger] grid_hazards(m, k)[i],
        ) by {
            if i < prev.len() {
                assert(grid_hazards(m, k)[i] == prev[i]);
            } else {
                assert(grid_hazards(m, k)[i] == row[i - prev.len()]);
            }
        }
    }
}

/// On a freshly set-up map, every hazard entry is what the tile under it
/// sets up; so the hazard that goes off on a lava cell is fire and burns
/// (positive damage, no healing), and nothing goes off on a plain cell.
pub proof fn lemma_hazards_follow_tiles(m: MapView, pos: Position, i: int)
    ensures
        forall|j: int| 0 <= j < map_hazards(m).len() ==> entry_matches_tile(m, #[trigger] map_hazards(m)[j]),
        first_live_at(map_hazards(m), pos, i) && m.tile_at(pos.x as int, pos.y as int) == Tile::Lava ==> {
            &&& map_hazards(m)[i].1.hazard_type == HazardType::FireTile
            &&& map_hazards(m)[i].1.damage > 0
            &&& map_hazards(m)[i].1.healing == 0
        },
        first_live_at(map_hazards(m), pos, i) ==> effect_of_tile(m.tile_at(pos.x as int, pos.y as int)) is Some,
{
    lemma_grid_entries(m, m.height);
    if first_live_at(map_hazards(m), pos, i) {
        assert(entry_matches_tile(m, map_hazards(m)[i]));
    }
}

pub open spec fn hazard_message(kind: HazardType) -> Seq<char> {
    match kind {
        HazardType::SpikeTrap => "Stepped on a spike trap!"@,
        HazardType::PoisonCloud => "Enveloped in poison cloud!"@,
        HazardType::HealingSpring => "Refreshed by a healing spring!"@,
        HazardType::CrackedFloor => "The floor cracks beneath your feet!"@,
        HazardType::PressurePlate => "A pressure plate clicks!"@,
        HazardType::ThornBush => "Thorns tear at your skin!"@,
        HazardType::FireTile => "Searing heat from lava!"@,
        HazardType::IceTile => "The ice chills you to the bone!"@,
    }
}

/// A hazard entry at `pos` that can still go off.
pub open spec fn live_at(h: (Position, HazardEffect), pos: Position) -> bool {
    h.0 == pos && h.1.trigger_count != 0
}

/// Index `i` is the first live entry at `pos`.
pub open spec fn first_live_at(hz: Seq<(Position, HazardEffect)>, pos: Position, i: int) -> bool {
    &&& 0 <= i < hz.len()
    &&& live_at(hz[i], pos)
    &&& forall|j: int| 0 <= j < i ==> !live_at(#[trigger] hz[j], pos)
}

/// Index `i` is the first entry at `pos` with triggers left to count down.
pub open spec fn first_countdown_at(
    hz: Seq<(Position, HazardEffect)>,
    pos: Position,
    i: int,
) -> bool {
    &&& 0 <= i < hz.len()
    &&& hz[i].0 == pos && hz[i].1.trigger_count > 0
    &&& forall|j: int| 0 <= j < i ==> !(#[trigger] hz[j].0 == pos && hz[j].1.trigger_count > 0)
}

/// Entries that survive clean-up: positive trigger counts, or -1 (permanent).
pub open spec fn keeps_hazard(h: (Position, HazardEffect)) -> bool {
    h.1.trigger_count > 0 || h.1.trigger_count == -1
}

/// The first `k` entries of `hz` that survive clean-up, in order.
pub open spec fn kept_hazards(hz: Seq<(Position, HazardEffect)>, k: int) -> Seq<(Position, HazardEffect)>
    decreases k,
{
    if k <= 0 {
        Seq::empty()
    } else if keeps_hazard(hz[k - 1]) {
        kept_hazards(hz, k - 1).push(hz[k - 1])
    } else {
        kept_hazards(hz, k - 1)
    }
}

/// A destructible that has just been broken: no HP left, not yet marked.
pub open spec fn breaks_now(d: Destructible) -> bool {
    d.hp <= 0 && !d.destroyed
}

/// The map after the first `k` destructibles of the list were processed.
pub open spec fn map_after_destructibles(
    m: MapView,
    list: Seq<(Position, Destructible)>,
    k: int,
) -> MapView
    decreases k,
{
    if k <= 0 {
        m
    } else {
        let prev = map_after_destructibles(m, list, k - 1);
        if breaks_now(list[k - 1].1) {
            prev.with_tile(list[k - 1].0, list[k - 1].1.replacement_tile)
        } else {
            prev
        }
    }
}

/// One step of the xorshift generator.
pub open spec fn xorshift(s: u64) -> u64 {
    let a = s ^ (s << 13u64);
    let b = a ^ (a >> 7u64);
    b ^ (b << 17u64)
}

/// The tiles that random placement chooses from.
pub open spec fn placeable_hazard(i: int) -> Tile {
    if i == 0 {
        Tile::SpikeTrap
    } else if i == 1 {
        Tile::PoisonCloud
    } else if i == 2 {
        Tile::HealingSpring
    } else if i == 3 {
        Tile::CrackedFloor
    } else if i == 4 {
        Tile::PressurePlate
    } else {
        Tile::ThornBush
    }
}

/// The 16-bit offset drawn from a random value: r mod (extent - 2), read as
/// `i16` (wrapping).
pub open spec fn draw_offset(r: u64, extent: int) -> i16 {
    (r % ((extent - 2) as u64)) as i16
}

/// An interior coordinate drawn from a random value: 1 + r mod (extent - 2).
pub open spec fn draw_coord(r: u64, extent: int) -> i16 {
    (draw_offset(r, extent) + 1) as i16
}

/// Random hazard placement: each attempt draws x, then y; when the drawn cell is
/// grass a third draw picks the hazard tile. Stops after `count` placements or
/// `10 * count` attempts. Gives the map and generator state at the end.
pub open spec fn placement_run(
    m: MapView,
    count: int,
    state: u64,
    placed: int,
    attempts: int,
) -> (MapView, u64)
    decreases count * 10 - attempts,
{
    if !(placed < count && attempts < count * 10) {
        (m, state)
    } else {
        let s1 = xorshift(state);
        let x = draw_coord(s1, m.width);
        let s2 = xorshift(s1);
        let y = draw_coord(s2, m.height);
        if m.tile_at(x as int, y as int) == Tile::Grass {
            let s3 = xorshift(s2);
            let t = placeable_hazard((s3 % 6) as int);
            placement_run(m.with_tile(Position { x, y }, t), count, s3, placed + 1, attempts + 1)
        } else {
            placement_run(m, count, s2, placed, attempts + 1)
        }
    }
}

/// No coordinate drawn during the placement run is one past `i16::MAX`.
pub open spec fn placement_fits(m: MapView, count: int, state: u64, placed: int, attempts: int) -> bool
    decreases count * 10 - attempts,
{
    if !(placed < count && attempts < count * 10) {
        true
    } else {
        let s1 = xorshift(state);
        let x = draw_coord(s1, m.width);
        let s2 = xorshift(s1);
        let y = draw_coord(s2, m.height);
        &&& draw_offset(s1, m.width) < i16::MAX
        &&& draw_offset(s2, m.height) < i16::MAX
        &&& if m.tile_at(x as int, y as int) == Tile::Grass {
            let s3 = xorshift(s2);
            let t = placeable_hazard((s3 % 6) as int);
            placement_fits(m.with_tile(Position { x, y }, t), count, s3, placed + 1, attempts + 1)
        } else {
            placement_fits(m, count, s2, placed, attempts + 1)
        }
    }
}

/// On a map at most 32769 cells wide and high every draw fits.
pub proof fn lemma_placement_fits(m: MapView, count: int, state: u64, placed: int, attempts: int)
    requires
        2 < m.width <= 32769,
        2 < m.height <= 32769,
        m.tiles.len() == m.width * m.height,
    ensures
        placement_fits(m, count, state, placed, attempts),
    decreases count * 10 - attempts,
{
    if placed < count && attempts < count * 10 {
        let s1 = xorshift(state);
        let x = draw_coord(s1, m.width);
        let s2 = xorshift(s1);
        let y = draw_coord(s2, m.height);
        assert((s1 % ((m.width - 2) as u64)) < 32767);
        assert((s2 % ((m.height - 2) as u64)) < 32767);
        if m.tile_at(x as int, y as int) == Tile::Grass {
            let s3 = xorshift(s2);
            let t = placeable_hazard((s3 % 6) as int);
            lemma_with_tile(m, Position { x, y }, t, 0, 0);
            lemma_placement_fits(m.with_tile(Position { x, y }, t), count, s3, placed + 1, attempts + 1);
        } else {
            lemma_placement_fits(m, count, s2, placed, attempts + 1);
        }
    }
}

/// Number of hazards placed on a floor.
pub open spec fn hazard_count(floor: int) -> int {
    4 + floor * 2
}

fn hazard_message_exec(kind: HazardType) -> (s: String)
    ensures
        s@ == hazard_message(kind),
{
    match kind {
        HazardType::SpikeTrap => String::from_str("Stepped on a spike trap!"),
        HazardType::PoisonCloud => String::from_str("Enveloped in poison cloud!"),
        HazardType::HealingSpring => String::from_str("Refreshed by a healing spring!"),
        HazardType::CrackedFloor => String::from_str("The floor cracks beneath your feet!"),
        HazardType::PressurePlate => String::from_str("A pressure plate clicks!"),
        HazardType::ThornBush => String::from_str("Thorns tear at your skin!"),
        HazardType::FireTile => String::from_str("Searing heat from lava!"),
        HazardType::IceTile => String::from_str("The ice chills you to the bone!"),
    }
}

fn next_random(state: u64) -> (r: u64)
    ensures
        r == xorshift(state),
{
    let a = state ^ (state << 13u64);
    let b = a ^ (a >> 7u64);
    b ^ (b << 17u64)
}

impl HazardSystem {
    /// Lists the hazard of every hazard tile of the map, row by row.
    pub fn initialize_hazards(map: &TacticalMap) -> (r: ActiveHazards)
        requires
            map.wf(),
        ensures
            r.hazards@ == map_hazards(map@),
    {
        let mut hazards: Vec<(Position, HazardEffect)> = Vec::new();
        let mut y: u16 = 0;
        while y < map.height
            invariant
                map.wf(),
                y <= map.height,
                hazards@ == grid_hazards(map@, y as int),
            decreases map.height - y,
        {
            let mut x: u16 = 0;
            while x < map.width
                invariant
                    map.wf(),
                    x <= map.width,
                    y < map.height,
                    hazards@ == grid_hazards(map@, y as int) + row_hazards(map@, y as int, x as int),
                decreases map.width - x,
            {
                let pos = Position::new(x as i16, y as i16);
                let tile = map.tile(pos.x, pos.y);
                let ghost before = hazards@;
                match tile_to_hazard(tile) {
                    Some((htype, damage, healing, status, trigger_count)) => {
                        hazards.push(
                            (
                                pos,
                                HazardEffect {
                                    hazard_type: htype,
                                    damage,
                                    healing,
                                    status,
                                    duration: 0,
                                    trigger_count,
                                },
                            ),
                        );
                    },
                    None => {},
                }
                assert(hazards@ =~= grid_hazards(map@, y as int) + row_hazards(
                    map@,
                    y as int,
                    x + 1,
                ));
                x = x + 1;
            }
            assert(hazards@ =~= grid_hazards(map@, y + 1));
            y = y + 1;
        }
        ActiveHazards { hazards }
    }

    /// Sets off the first hazard at `pos` that still has triggers left.
    pub fn trigger_hazard(hazards: &ActiveHazards, pos: Position, _stats: &Stats) -> (r: Option<
        HazardTriggerResult,
    >)
        ensures
            r is None <==> forall|i: int|
                0 <= i < hazards.hazards@.len() ==> !live_at(#[trigger] hazards.hazards@[i], pos),
            r matches Some(res) ==> exists|i: int|
                {
                    &&& #[trigger] first_live_at(hazards.hazards@, pos, i)
                    &&& res.hazard_type == hazards.hazards@[i].1.hazard_type
                    &&& res.damage == hazards.hazards@[i].1.damage
                    &&& res.healing == hazards.hazards@[i].1.healing
                    &&& res.status_effect == hazards.hazards@[i].1.status
                    &&& res.message@ == hazard_message(hazards.hazards@[i].1.hazard_type)
                    &&& res.should_destroy_tile == (hazards.hazards@[i].1.hazard_type
                        == HazardType::CrackedFloor)
                },
    {
        let n = hazards.hazards.len();
        let mut i: usize = 0;
        while i < n
            invariant
                i <= n,
                n == hazards.hazards@.len(),
                forall|j: int| 0 <= j < i ==> !live_at(#[trigger] hazards.hazards@[j], pos),
            decreases n - i,
        {
            let (hazard_pos, effect) = hazards.hazards[i];
            if hazard_pos == pos && effect.trigger_count != 0 {
                let message = hazard_message_exec(effect.hazard_type);
                let res = HazardTriggerResult {
                    hazard_type: effect.hazard_type,
                    damage: effect.damage,
                    healing: effect.healing,
                    status_effect: effect.status,
                    message,
                    should_destroy_tile: effect.hazard_type == HazardType::CrackedFloor,
                };
                assert(first_live_at(hazards.hazards@, pos, i as int));
                return Some(res);
            }
            i = i + 1;
        }
        None
    }

    /// A cracked floor under `pos` caves in and becomes wall.
    pub fn process_cracked_floor(map: &mut TacticalMap, pos: Position) -> (caved: bool)
        requires
            old(map).wf(),
        ensures
            final(map).wf(),
            caved == (old(map)@.tile_at(pos.x as int, pos.y as int) == Tile::CrackedFloor),
            final(map)@ == if caved {
                old(map)@.with_tile(pos, Tile::Wall)
            } else {
                old(map)@
            },
    {
        if map.tile(pos.x, pos.y) == Tile::CrackedFloor {
            map.set_tile(pos, Tile::Wall);
            return true;
        }
        false
    }

    /// Marks every destructible with no HP left as destroyed and puts its
    /// replacement tile on the map, in list order.
    pub fn update_destructibles(
        destructibles: &mut Vec<(Position, Destructible)>,
        map: &mut TacticalMap,
    )
        requires
            old(map).wf(),
        ensures
            final(map).wf(),
            final(map)@ == map_after_destructibles(
                old(map)@,
                old(destructibles)@,
                old(destructibles)@.len() as int,
            ),
            final(destructibles)@.len() == old(destructibles)@.len(),
            forall|i: int|
                0 <= i < old(destructibles)@.len() ==> #[trigger] final(destructibles)@[i] == {
                    let (p, d) = old(destructibles)@[i];
                    if breaks_now(d) {
                        (p, Destructible { destroyed: true, ..d })
                    } else {
                        (p, d)
                    }
                },
    {
        let n = destructibles.len();
        let mut i: usize = 0;
        while i < n
            invariant
                i <= n,
                n == old(destructibles)@.len(),
                destructibles@.len() == n,
                map.wf(),
                map@ == map_after_destructibles(old(map)@, old(destructibles)@, i as int),
                forall|j: int|
                    i <= j < n ==> #[trigger] destructibles@[j] == old(destructibles)@[j],
                forall|j: int|
                    0 <= j < i ==> #[trigger] destructibles@[j] == {
                        let (p, d) = old(destructibles)@[j];
                        if breaks_now(d) {
                            (p, Destructible { destroyed: true, ..d })
                        } else {
                            (p, d)
                        }
                    },
            decreases n - i,
        {
            let (pos, d) = destructibles[i];
            if d.hp <= 0 && !d.destroyed {
                destructibles.set(i, (pos, Destructible { destroyed: true, ..d }));
                map.set_tile(pos, d.replacement_tile);
            }
            i = i + 1;
        }
    }

    /// Scatters `4 + 2 * floor` hazard tiles over random interior grass cells,
    /// then lists the hazards of the resulting map.
    pub fn populate_hazards(map: &mut TacticalMap, floor: u32, seed: u64) -> (r: ActiveHazards)
        requires
            old(map).wf(),
            2 < old(map).width,
            2 < old(map).height,
            hazard_count(floor as int) * 10 <= usize::MAX,
            placement_fits(old(map)@, hazard_count(floor as int), seed | 1u64, 0, 0),
        ensures
            final(map).wf(),
            final(map)@ == placement_run(
                old(map)@,
                hazard_count(floor as int),
                seed | 1u64,
                0,
                0,
            ).0,
            r.hazards@ == map_hazards(final(map)@),
    {
        let mut state: u64 = seed | 1;
        let count: usize = 4 + (floor as usize * 2);
        let mut placed: usize = 0;
        let mut attempts: usize = 0;
        let wrange: u64 = (map.width - 2) as u64;
        let hrange: u64 = (map.height - 2) as u64;
        while placed < count && attempts < count * 10
            invariant
                map.wf(),
                map.width == old(map).width,
                map.height == old(map).height,
                2 < map.width,
                2 < map.height,
                wrange == map.width - 2,
                hrange == map.height - 2,
                count == hazard_count(floor as int),
                count * 10 <= usize::MAX,
                placed <= count,
                attempts <= count * 10,
                placement_run(map@, count as int, state, placed as int, attempts as int)
                    == placement_run(old(map)@, count as int, seed | 1u64, 0, 0),
                placement_fits(map@, count as int, state, placed as int, attempts as int),
            decreases count * 10 - attempts,
        {
            state = next_random(state);
            let x: i16 = (state % wrange) as i16 + 1;
            state = next_random(state);
            let y: i16 = (state % hrange) as i16 + 1;
            let pos = Position::new(x, y);
            if map.tile(x, y) == Tile::Grass {
                state = next_random(state);
                let tile_idx: u64 = state % 6;
                let t = if tile_idx == 0 {
                    Tile::SpikeTrap
                } else if tile_idx == 1 {
                    Tile::PoisonCloud
                } else if tile_idx == 2 {
                    Tile::HealingSpring
                } else if tile_idx == 3 {
                    Tile::CrackedFloor
                } else if tile_idx == 4 {
                    Tile::PressurePlate
                } else {
                    Tile::ThornBush
                };
                map.set_tile(pos, t);
                placed = placed + 1;
            }
            attempts = attempts + 1;
        }
        Self::initialize_hazards(map)
    }

    /// Whether a hazard of the given kind sits at `pos`.
    pub fn has_hazard(hazards: &ActiveHazards, pos: Position, htype: HazardType) -> (r: bool)
        ensures
            r == exists|i: int|
                0 <= i < hazards.hazards@.len() && #[trigger] hazards.hazards@[i].0 == pos
                    && hazards.hazards@[i].1.hazard_type == htype,
    {
        let n = hazards.hazards.len();
        let mut i: usize = 0;
        while i < n
            invariant
                i <= n,
                n == hazards.hazards@.len(),
                forall|j: int|
                    0 <= j < i ==> !(#[trigger] hazards.hazards@[j].0 == pos
                        && hazards.hazards@[j].1.hazard_type == htype),
            decreases n - i,
        {
            let (p, e) = hazards.hazards[i];
            if p == pos && e.hazard_type == htype {
                return true;
            }
            i = i + 1;
        }
        false
    }

    /// Drops the hazards that have worn out, keeping the order of the rest.
    pub fn cleanup_hazards(hazards: &mut ActiveHazards)
        ensures
            final(hazards).hazards@ == kept_hazards(
                old(hazards).hazards@,
                old(hazards).hazards@.len() as int,
            ),
    {
        let n = hazards.hazards.len();
        let mut kept: Vec<(Position, HazardEffect)> = Vec::new();
        let mut i: usize = 0;
        while i < n
            invariant
                i <= n,
                n == hazards.hazards@.len(),
                hazards.hazards@ == old(hazards).hazards@,
                kept@ == kept_hazards(old(hazards).hazards@, i as int),
            decreases n - i,
        {
            let h = hazards.hazards[i];
            if h.1.trigger_count > 0 || h.1.trigger_count == -1 {
                kept.push(h);
            }
            i = i + 1;
        }
        hazards.hazards = kept;
    }

    /// Counts down the first hazard at `pos` that has triggers left to count.
    pub fn decrement_trigger(hazards: &mut ActiveHazards, pos: Position)
        ensures
            final(hazards).hazards@.len() == old(hazards).hazards@.len(),
            (forall|i: int| !first_countdown_at(old(hazards).hazards@, pos, i)) ==> final(hazards).hazards@ == old(hazards).hazards@,
            forall|i: int| #[trigger]
                first_countdown_at(old(hazards).hazards@, pos, i) ==> final(hazards).hazards@
                    == old(hazards).hazards@.update(
                    i,
                    (
                        pos,
                        HazardEffect {
                            trigger_count: (old(hazards).hazards@[i].1.trigger_count - 1) as i32,
                            ..old(hazards).hazards@[i].1
                        },
                    ),
                ),
    {
        let n = hazards.hazards.len();
        let mut i: usize = 0;
        while i < n
            invariant
                i <= n,
                n == hazards.hazards@.len(),
                hazards.hazards@ == old(hazards).hazards@,
                forall|j: int|
                    0 <= j < i ==> !(#[trigger] hazards.hazards@[j].0 == pos
                        && hazards.hazards@[j].1.trigger_count > 0),
            decreases n - i,
        {
            let (hazard_pos, effect) = hazards.hazards[i];
            if hazard_pos == pos && effect.trigger_count > 0 {
                let updated = HazardEffect { trigger_count: effect.trigger_count - 1, ..effect };
                hazards.hazards.set(i, (hazard_pos, updated));
                proof {
                    assert(first_countdown_at(old(hazards).hazards@, pos, i as int));
                    assert forall|k: int| #[trigger]
                        first_countdown_at(old(hazards).hazards@, pos, k) implies k == i by {
                        if k < i {
                        } else if k > i {
                            assert(!(old(hazards).hazards@[i as int].0 == pos
                                && old(hazards).hazards@[i as int].1.trigger_count > 0));
                        }
                    }
                }
                return;
            }
            i = i + 1;
        }
    }

    /// Applies a triggered hazard to the entity standing on it: its HP moves by
    /// healing minus damage, kept within 0 and its maximum; a cracked floor
    /// caves in; the hazard counts down one trigger.
    pub fn apply_hazard_to_entity(
        stats: &mut Stats,
        map: &mut TacticalMap,
        hazards: &mut ActiveHazards,
        result: &HazardTriggerResult,
        pos: Position,
    )
        requires
            old(map).wf(),
            old(stats).max_hp >= 0,
            i32::MIN <= old(stats).hp - result.damage <= i32::MAX,
            i32::MIN <= old(stats).hp - result.damage + result.healing <= i32::MAX,
        ensures
            *final(stats) == (Stats {
                hp: clamp_int(
                    old(stats).hp - result.damage + result.healing,
                    0,
                    old(stats).max_hp as int,
                ) as i32,
                ..*old(stats)
            }),
            final(map).wf(),
            final(map)@ == if result.should_destroy_tile && old(map)@.tile_at(
                pos.x as int,
                pos.y as int,
            ) == Tile::CrackedFloor {
                old(map)@.with_tile(pos, Tile::Wall)
            } else {
                old(map)@
            },
            final(hazards).hazards@.len() == old(hazards).hazards@.len(),
            (forall|i: int| !first_countdown_at(old(hazards).hazards@, pos, i)) ==> final(hazards).hazards@ == old(hazards).hazards@,
            forall|i: int| #[trigger]
                first_countdown_at(old(hazards).hazards@, pos, i) ==> final(hazards).hazards@
                    == old(hazards).hazards@.update(
                    i,
                    (
                        pos,
                        HazardEffect {
                            trigger_count: (old(hazards).hazards@[i].1.trigger_count - 1) as i32,
                            ..old(hazards).hazards@[i].1
                        },
                    ),
                ),
    {
        let v = stats.hp - result.damage + result.healing;
        stats.hp = if v < 0 {
            0
        } else if v > stats.max_hp {
            stats.max_hp
        } else {
            v
        };
        if result.should_destroy_tile {
            Self::process_cracked_floor(map, pos);
        }
        Self::decrement_trigger(hazards, pos);
    }
}

/// `v` kept within `lo` and `hi`.
pub open spec fn clamp_int(v: int, lo: int, hi: int) -> int {
    if v < lo {
        lo
    } else if v > hi {
        hi
    } else {
        v
    }
}

/// A trap that has gone off and been counted down the number of times it had
/// triggers left is removed by the next clean-up, while permanent hazards
/// (count -1) always stay.
pub proof fn lemma_cleanup_keeps_permanent(hz: Seq<(Position, HazardEffect)>, k: int, i: int)
    requires
        0 <= i < k <= hz.len(),
        hz[i].1.trigger_count == -1,
    ensures
        kept_hazards(hz, k).contains(hz[i]),
    decreases k,
{
    if i < k - 1 {
        lemma_cleanup_keeps_permanent(hz, k - 1, i);
        if keeps_hazard(hz[k - 1]) {
            assert(kept_hazards(hz, k - 1).push(hz[k - 1]).contains(hz[i])) by {
                let j = choose|j: int|
                    0 <= j < kept_hazards(hz, k - 1).len() && #[trigger] kept_hazards(hz, k - 1)[j]
                        == hz[i];
                assert(kept_hazards(hz, k - 1).push(hz[k - 1])[j] == hz[i]);
            }
        }
    } else {
        assert(kept_hazards(hz, k)[kept_hazards(hz, k).len() - 1] == hz[i]);
    }
}

/// Clean-up removes every entry whose triggers are spent (count 0).
pub proof fn lemma_cleanup_drops_spent(hz: Seq<(Position, HazardEffect)>, k: int)
    requires
        0 <= k <= hz.len(),
    ensures
        forall|j: int|
            0 <= j < kept_hazards(hz, k).len() ==> keeps_hazard(#[trigger] kept_hazards(hz, k)[j]),
    decreases k,
{
    if k > 0 {
        lemma_cleanup_drops_spent(hz, k - 1);
        let prev = kept_hazards(hz, k - 1);
        assert forall|j: int| 0 <= j < kept_hazards(hz, k).len() implies keeps_hazard(
            #[trigger] kept_hazards(hz, k)[j],
        ) by {
            if j < prev.len() {
                assert(kept_hazards(hz, k)[j] == prev[j]);
            }
        }
    }
}

} // verus!
