use vstd::prelude::*;

use crate::components::{
    AIArchetype, AoEPreview, CharacterClass, DamagePreview, EnemyIntentions, Stats, Team,
};
use crate::geometry::{Entity, Position, contains_position};
use crate::map::TacticalMap;
use crate::text::{decimal, push_int, push_str};

verus! {

/// Previews of attacks, turn order and enemy plans.
pub struct BattlePreview;

#[derive(Copy, Clone, Debug, PartialEq, Eq, Structural)]
pub enum AoEShape {
    Circle,
    Square,
    Line,
    Cone,
    Cross,
}

/// The components of one world entity that the previews read; a component the
/// entity lacks is `None`.
#[derive(Copy, Clone, Debug, PartialEq, Eq, Structural)]
pub struct UnitRecord {
    pub entity: Entity,
    pub position: Option<Position>,
    pub team: Option<Team>,
    pub class: Option<CharacterClass>,
    pub stats: Option<Stats>,
    pub archetype: Option<AIArchetype>,
}

// ------------------------------------------------------------------
// Damage
// ------------------------------------------------------------------

/// Half of `v`, rounded toward zero.
pub open spec fn half_toward_zero(v: int) -> int {
    if v >= 0 {
        v / 2
    } else {
        -((-v) / 2)
    }
}

/// Raw damage before the elemental modifier: attack minus half the defense
/// (at least 1), plus twice the level difference capped to [-10, 10]. Levels
/// are read as `i32` (wrapping) and halving rounds toward zero.
pub open spec fn modifier_base_damage(atk: i32, attacker_level: u32, def: i32, target_level: u32) -> int {
    let half_def = half_toward_zero(def as int);
    let base = if atk - half_def >= 1 {
        atk - half_def
    } else {
        1
    };
    let diff = ((attacker_level as i32) - (target_level as i32)) * 2;
    let bonus = if diff < -10 {
        -10
    } else if diff > 10 {
        10
    } else {
        diff
    };
    base + bonus
}

/// The pieces of the damage text.
pub open spec fn damage_preview_text(p: DamagePreview) -> Seq<char> {
    "DMG: "@ + decimal(p.min_damage as int) + "-"@ + decimal(p.max_damage as int) + " (avg "@
        + decimal(p.expected_damage as int) + ") | HIT: "@ + decimal(p.hit_chance as int)
        + "% | CRIT: "@ + decimal(p.crit_chance as int) + "%"@ + element_tag(p.element)
        + kill_tag(p.can_kill)
}

/// ` [element]` when the attack has an element, else nothing.
pub open spec fn element_tag(element: Option<String>) -> Seq<char> {
    match element {
        Some(e) => " ["@ + e@ + "]"@,
        None => Seq::empty(),
    }
}

/// ` [KILL]` when the attack can kill, else nothing.
pub open spec fn kill_tag(can_kill: bool) -> Seq<char> {
    if can_kill {
        " [KILL]"@
    } else {
        Seq::empty()
    }
}

impl BattlePreview {
    /// Damage of an attack before its elemental modifier is applied: attack
    /// minus half the defense (at least 1) plus the capped level bonus.
    pub fn modifier_base(
        attacker_atk: i32,
        attacker_level: u32,
        target_def: i32,
        target_level: u32,
    ) -> (r: i32)
        requires
            i32::MIN <= attacker_atk - half_toward_zero(target_def as int) <= i32::MAX,
            i32::MIN <= (attacker_level as i32) - (target_level as i32) <= i32::MAX,
            i32::MIN <= ((attacker_level as i32) - (target_level as i32)) * 2 <= i32::MAX,
            i32::MIN <= modifier_base_damage(attacker_atk, attacker_level, target_def, target_level)
                <= i32::MAX,
        ensures
            r == modifier_base_damage(attacker_atk, attacker_level, target_def, target_level),
    {
        let half_def = target_def / 2;
        let raw = attacker_atk - half_def;
        let base_damage = if raw >= 1 {
            raw
        } else {
            1
        };
        let diff = (attacker_level as i32 - target_level as i32) * 2;
        let level_bonus = if diff < -10 {
            -10
        } else if diff > 10 {
            10
        } else {
            diff
        };
        base_damage + level_bonus
    }

    /// One-line summary of a damage preview, e.g.
    /// `DMG: 12-18 (avg 15) | HIT: 85% | CRIT: 20% [Ice] [KILL]`.
    pub fn format_damage_preview(preview: &DamagePreview) -> (s: String)
        ensures
            s@ == damage_preview_text(*preview),
    {
        let mut s = String::new();
        push_str(&mut s, "DMG: ");
        push_int(&mut s, preview.min_damage as i64);
        push_str(&mut s, "-");
        push_int(&mut s, preview.max_damage as i64);
        push_str(&mut s, " (avg ");
        push_int(&mut s, preview.expected_damage as i64);
        push_str(&mut s, ") | HIT: ");
        push_int(&mut s, preview.hit_chance as i64);
        push_str(&mut s, "% | CRIT: ");
        push_int(&mut s, preview.crit_chance as i64);
        push_str(&mut s, "%");
        let ghost before_tags = s@;
        match &preview.element {
            Some(e) => {
                push_str(&mut s, " [");
                push_str(&mut s, e.as_str());
                push_str(&mut s, "]");
            },
            None => {},
        }
        let ghost after_elem = s@;
        if preview.can_kill {
            push_str(&mut s, " [KILL]");
        }
        proof {
            assert(after_elem =~= before_tags + element_tag(preview.element));
            assert(s@ =~= after_elem + kill_tag(preview.can_kill));
            assert(s@ =~= damage_preview_text(*preview));
        }
        s
    }

    /// The description of every intent, in order.
    pub fn format_intents(intents: &EnemyIntentions) -> (r: Vec<String>)
        ensures
            r@.len() == intents.intents@.len(),
            forall|i: int|
                0 <= i < r@.len() ==> #[trigger] r@[i]@ == intents.intents@[i].description@,
    {
        let n = intents.intents.len();
        let mut out: Vec<String> = Vec::new();
        let mut i: usize = 0;
        while i < n
            invariant
                i <= n,
                n == intents.intents@.len(),
                out@.len() == i,
                forall|j: int|
                    0 <= j < i ==> #[trigger] out@[j]@ == intents.intents@[j].description@,
            decreases n - i,
        {
            out.push(intents.intents[i].description.clone());
            i = i + 1;
        }
        out
    }
}

// ------------------------------------------------------------------
// Area of effect
// ------------------------------------------------------------------

pub open spec fn offset_position(c: Position, dx: int, dy: int) -> Position {
    Position { x: (c.x + dx) as i16, y: (c.y + dy) as i16 }
}

/// Cells of row `dy` of the square of radius `r`, for the first `k` columns
/// (left to right); with `round`, only those within the circle of radius `r`.
pub open spec fn box_row(c: Position, r: int, round: bool, dy: int, k: int) -> Seq<Position>
    decreases k,
{
    if k <= 0 {
        Seq::empty()
    } else {
        let prev = box_row(c, r, round, dy, k - 1);
        let dx = -r + (k - 1);
        if !round || dx * dx + dy * dy <= r * r {
            prev.push(offset_position(c, dx, dy))
        } else {
            prev
        }
    }
}

/// Cells of the first `k` rows (top to bottom) of the square (or disc) of
/// radius `r`.
pub open spec fn box_rows(c: Position, r: int, round: bool, k: int) -> Seq<Position>
    decreases k,
{
    if k <= 0 {
        Seq::empty()
    } else {
        box_rows(c, r, round, k - 1) + box_row(c, r, round, -r + (k - 1), 2 * r + 1)
    }
}

/// The centre, then for each distance 1..=k the cells east, west, south and
/// north of it.
pub open spec fn cross_cells(c: Position, k: int) -> Seq<Position>
    decreases k,
{
    if k <= 0 {
        seq![c]
    } else {
        cross_cells(c, k - 1).push(offset_position(c, k, 0)).push(offset_position(c, -k, 0)).push(
            offset_position(c, 0, k),
        ).push(offset_position(c, 0, -k))
    }
}

/// The first `k` cells of a line going east from the centre.
pub open spec fn line_cells(c: Position, k: int) -> Seq<Position>
    decreases k,
{
    if k <= 0 {
        Seq::empty()
    } else {
        line_cells(c, k - 1).push(offset_position(c, k - 1, 0))
    }
}

/// Row `d` of the cone (cells d north of the centre, from d west to d east),
/// first `k` cells.
pub open spec fn cone_row(c: Position, d: int, k: int) -> Seq<Position>
    decreases k,
{
    if k <= 0 {
        Seq::empty()
    } else {
        cone_row(c, d, k - 1).push(offset_position(c, -d + (k - 1), -d))
    }
}

/// The first `k` rows of a cone opening northwards.
pub open spec fn cone_cells(c: Position, k: int) -> Seq<Position>
    decreases k,
{
    if k <= 0 {
        Seq::empty()
    } else {
        cone_cells(c, k - 1) + cone_row(c, k - 1, 2 * (k - 1) + 1)
    }
}

/// Every cell a shape of radius `r` around `c` covers, in generation order.
pub open spec fn shape_cells(c: Position, r: int, shape: AoEShape) -> Seq<Position> {
    match shape {
        AoEShape::Circle => if r >= 0 {
            box_rows(c, r, true, 2 * r + 1)
        } else {
            Seq::empty()
        },
        AoEShape::Square => if r >= 0 {
            box_rows(c, r, false, 2 * r + 1)
        } else {
            Seq::empty()
        },
        AoEShape::Cross => cross_cells(c, r),
        AoEShape::Line => line_cells(c, r),
        AoEShape::Cone => if r >= 0 {
            cone_cells(c, r + 1)
        } else {
            Seq::empty()
        },
    }
}

/// The shape can be generated without leaving 16-bit coordinates.
pub open spec fn shape_fits(c: Position, r: int, shape: AoEShape) -> bool {
    let reach = if r >= 0 {
        r
    } else {
        0
    };
    &&& i16::MIN <= c.x - reach && c.x + reach <= i16::MAX
    &&& i16::MIN <= c.y - reach && c.y + reach <= i16::MAX
    &&& shape == AoEShape::Circle ==> r * r <= i16::MAX && (r >= 0 ==> r * r + r * r <= i16::MAX)
}

/// A cell lies on the map as the preview reads its size (signed 16-bit).
pub open spec fn on_preview_map(p: Position, w: u16, h: u16) -> bool {
    p.x >= 0 && p.x < (w as i16) && p.y >= 0 && p.y < (h as i16)
}

/// The cells of `cells` that lie on the map, in order (first `k` cells).
pub open spec fn cells_on_map(cells: Seq<Position>, w: u16, h: u16, k: int) -> Seq<Position>
    decreases k,
{
    if k <= 0 {
        Seq::empty()
    } else if on_preview_map(cells[k - 1], w, h) {
        cells_on_map(cells, w, h, k - 1).push(cells[k - 1])
    } else {
        cells_on_map(cells, w, h, k - 1)
    }
}

/// Every tile an area preview keeps lies on the map, and comes from the shape.
pub proof fn lemma_aoe_tiles_on_map(cells: Seq<Position>, w: u16, h: u16, k: int)
    requires
        0 <= k <= cells.len(),
    ensures
        forall|i: int|
            0 <= i < cells_on_map(cells, w, h, k).len() ==> on_preview_map(
                #[trigger] cells_on_map(cells, w, h, k)[i],
                w,
                h,
            ) && cells.contains(cells_on_map(cells, w, h, k)[i]),
    decreases k,
{
    if k > 0 {
        lemma_aoe_tiles_on_map(cells, w, h, k - 1);
        let prev = cells_on_map(cells, w, h, k - 1);
        let cur = cells_on_map(cells, w, h, k);
        assert forall|i: int| 0 <= i < cur.len() implies on_preview_map(#[trigger] cur[i], w, h)
            && cells.contains(cur[i]) by {
            if i < prev.len() {
                assert(cur[i] == prev[i]);
            } else {
                assert(cur[i] == cells[k - 1]);
            }
        }
    }
}

/// The units an area of effect sees: those with a position and a team.
pub open spec fn placed(u: UnitRecord) -> bool {
    u.position is Some && u.team is Some
}

/// Units (among the first `k`) standing in the area on the attacker's team.
pub open spec fn aoe_allies(units: Seq<UnitRecord>, area: Seq<Position>, team: Team, k: int) -> Seq<Entity>
    decreases k,
{
    if k <= 0 {
        Seq::empty()
    } else {
        let u = units[k - 1];
        let prev = aoe_allies(units, area, team, k - 1);
        if placed(u) && area.contains(u.position->0) && u.team->0 == team {
            prev.push(u.entity)
        } else {
            prev
        }
    }
}

/// Units (among the first `k`) standing in the area on the other team.
pub open spec fn aoe_enemies(units: Seq<UnitRecord>, area: Seq<Position>, team: Team, k: int) -> Seq<Entity>
    decreases k,
{
    if k <= 0 {
        Seq::empty()
    } else {
        let u = units[k - 1];
        let prev = aoe_enemies(units, area, team, k - 1);
        if placed(u) && area.contains(u.position->0) && u.team->0 != team {
            prev.push(u.entity)
        } else {
            prev
        }
    }
}

/// Potential damage over the first `k` units: each enemy in the area with stats
/// counts its HP, at most 50.
pub open spec fn aoe_damage(units: Seq<UnitRecord>, area: Seq<Position>, team: Team, k: int) -> int
    decreases k,
{
    if k <= 0 {
        0
    } else {
        let u = units[k - 1];
        let prev = aoe_damage(units, area, team, k - 1);
        if placed(u) && area.contains(u.position->0) && u.team->0 != team && u.stats is Some {
            let hp = u.stats->0.hp as int;
            prev + if hp < 50 {
                hp
            } else {
                50
            }
        } else {
            prev
        }
    }
}

fn offset_pos(c: Position, dx: i32, dy: i32) -> (p: Position)
    requires
        i16::MIN <= c.x + dx <= i16::MAX,
        i16::MIN <= c.y + dy <= i16::MAX,
    ensures
        p == offset_position(c, dx as int, dy as int),
{
    let x: i32 = c.x as i32 + dx;
    let y: i32 = c.y as i32 + dy;
    Position::new(x as i16, y as i16)
}

pub(crate) fn box_tiles(center: Position, radius: i16, round: bool) -> (tiles: Vec<Position>)
    requires
        radius >= 0,
        i16::MIN <= center.x - radius && center.x + radius <= i16::MAX,
        i16::MIN <= center.y - radius && center.y + radius <= i16::MAX,
        round ==> radius * radius + radius * radius <= i16::MAX,
    ensures
        tiles@ == box_rows(center, radius as int, round, 2 * radius + 1),
{
    let mut tiles: Vec<Position> = Vec::new();
    let r: i32 = radius as i32;
    let r2: i32 = if round {
        assert(0 <= radius * radius) by (nonlinear_arith);
        r * r
    } else {
        0
    };
    let mut dy: i32 = -r;
    while dy <= r
        invariant
            r == radius,
            r >= 0,
            -r <= dy <= r + 1,
            i16::MIN <= center.x - r && center.x + r <= i16::MAX,
            i16::MIN <= center.y - r && center.y + r <= i16::MAX,
            round ==> r * r + r * r <= i16::MAX,
            round ==> r2 == r * r,
            tiles@ == box_rows(center, r as int, round, dy + r),
        decreases r + 1 - dy,
    {
        let ghost row_start = tiles@;
        let mut dx: i32 = -r;
        while dx <= r
            invariant
                r >= 0,
                -r <= dy <= r,
                -r <= dx <= r + 1,
                i16::MIN <= center.x - r && center.x + r <= i16::MAX,
                i16::MIN <= center.y - r && center.y + r <= i16::MAX,
                round ==> r * r + r * r <= i16::MAX,
                round ==> r2 == r * r,
                row_start == box_rows(center, r as int, round, dy + r),
                tiles@ == row_start + box_row(center, r as int, round, dy as int, dx + r),
            decreases r + 1 - dx,
        {
            let inside = if round {
                assert(dx * dx <= r * r && dy * dy <= r * r) by (nonlinear_arith)
                    requires
                        -r <= dx <= r,
                        -r <= dy <= r,
                ;
                assert(0 <= dx * dx && 0 <= dy * dy) by (nonlinear_arith);
                dx * dx + dy * dy <= r2
            } else {
                true
            };
            if inside {
                tiles.push(offset_pos(center, dx, dy));
            }
            assert(tiles@ =~= row_start + box_row(center, r as int, round, dy as int, dx + r + 1));
            dx = dx + 1;
        }
        assert(tiles@ =~= box_rows(center, r as int, round, dy + r + 1));
        dy = dy + 1;
    }
    tiles
}

pub(crate) fn cross_tiles(center: Position, radius: i16) -> (tiles: Vec<Position>)
    requires
        i16::MIN <= center.x - radius && center.x + radius <= i16::MAX,
        i16::MIN <= center.y - radius && center.y + radius <= i16::MAX,
    ensures
        tiles@ == cross_cells(center, radius as int),
{
    let mut tiles: Vec<Position> = Vec::new();
    tiles.push(center);
    let r: i32 = radius as i32;
    let mut d: i32 = 1;
    while d <= r
        invariant
            r == radius,
            1 <= d,
            r >= 0 ==> d <= r + 1,
            r < 0 ==> d == 1,
            i16::MIN <= center.x - r && center.x + r <= i16::MAX,
            i16::MIN <= center.y - r && center.y + r <= i16::MAX,
            tiles@ == cross_cells(center, d - 1),
        decreases r + 1 - d,
    {
        tiles.push(offset_pos(center, d, 0));
        tiles.push(offset_pos(center, -d, 0));
        tiles.push(offset_pos(center, 0, d));
        tiles.push(offset_pos(center, 0, -d));
        d = d + 1;
    }
    proof {
        if radius < 0 {
            assert(cross_cells(center, radius as int) == cross_cells(center, 0));
        }
    }
    tiles
}

fn line_tiles(center: Position, length: i16) -> (tiles: Vec<Position>)
    requires
        length >= 0 ==> center.x + length <= i16::MAX,
    ensures
        tiles@ == line_cells(center, length as int),
{
    let mut tiles: Vec<Position> = Vec::new();
    let n: i32 = length as i32;
    let mut d: i32 = 0;
    while d < n
        invariant
            n == length,
            0 <= d,
            n >= 0 ==> d <= n,
            n < 0 ==> d == 0,
            n >= 0 ==> center.x + n <= i16::MAX,
            tiles@ == line_cells(center, d as int),
        decreases n - d,
    {
        tiles.push(offset_pos(center, d, 0));
        d = d + 1;
    }
    tiles
}

fn cone_tiles(center: Position, radius: i16) -> (tiles: Vec<Position>)
    requires
        radius >= 0,
        i16::MIN <= center.x - radius && center.x + radius <= i16::MAX,
        i16::MIN <= center.y - radius,
    ensures
        tiles@ == cone_cells(center, radius + 1),
{
    let mut tiles: Vec<Position> = Vec::new();
    let r: i32 = radius as i32;
    let mut d: i32 = 0;
    while d <= r
        invariant
            r == radius,
            0 <= d <= r + 1,
            i16::MIN <= center.x - r && center.x + r <= i16::MAX,
            i16::MIN <= center.y - r,
            tiles@ == cone_cells(center, d as int),
        decreases r + 1 - d,
    {
        let ghost row_start = tiles@;
        let mut dx: i32 = -d;
        while dx <= d
            invariant
                0 <= d <= r,
                -d <= dx <= d + 1,
                i16::MIN <= center.x - r && center.x + r <= i16::MAX,
                i16::MIN <= center.y - r,
                row_start == cone_cells(center, d as int),
                tiles@ == row_start + cone_row(center, d as int, dx + d),
            decreases d + 1 - dx,
        {
            tiles.push(offset_pos(center, dx, -d));
            assert(tiles@ =~= row_start + cone_row(center, d as int, dx + d + 1));
            dx = dx + 1;
        }
        assert(tiles@ =~= cone_cells(center, d + 1));
        d = d + 1;
    }
    tiles
}

impl BattlePreview {
    /// Preview of an area attack: the cells the shape covers on the map, and the
    /// units caught in it, split by team, with the damage the enemies could take
    /// (each enemy's HP, at most 50).
    pub fn calculate_aoe_preview(
        center: Position,
        radius: i16,
        shape: AoEShape,
        units: &[UnitRecord],
        map: &TacticalMap,
        attacker_team: Team,
    ) -> (r: AoEPreview)
        requires
            shape_fits(center, radius as int, shape),
            forall|k: int|
                0 <= k <= units@.len() ==> i32::MIN <= #[trigger] aoe_damage(
                    units@,
                    cells_on_map(
                        shape_cells(center, radius as int, shape),
                        map.width,
                        map.height,
                        shape_cells(center, radius as int, shape).len() as int,
                    ),
                    attacker_team,
                    k,
                ) <= i32::MAX,
        ensures
            r.center == Some(center),
            r.affected_tiles@ == cells_on_map(
                shape_cells(center, radius as int, shape),
                map.width,
                map.height,
                shape_cells(center, radius as int, shape).len() as int,
            ),
            r.affected_allies@ == aoe_allies(units@, r.affected_tiles@, attacker_team, units@.len() as int),
            r.affected_enemies@ == aoe_enemies(units@, r.affected_tiles@, attacker_team, units@.len() as int),
            r.total_potential_damage == aoe_damage(units@, r.affected_tiles@, attacker_team, units@.len() as int),
    {
        let tiles = match shape {
            AoEShape::Circle => {
                if radius >= 0 {
                    box_tiles(center, radius, true)
                } else {
                    Vec::new()
                }
            },
            AoEShape::Square => {
                if radius >= 0 {
                    box_tiles(center, radius, false)
                } else {
                    Vec::new()
                }
            },
            AoEShape::Cross => cross_tiles(center, radius),
            AoEShape::Line => line_tiles(center, radius),
            AoEShape::Cone => {
                if radius >= 0 {
                    cone_tiles(center, radius)
                } else {
                    Vec::new()
                }
            },
        };
        let ghost all_cells = shape_cells(center, radius as int, shape);
        assert(tiles@ =~= all_cells);
        let w: i16 = map.width as i16;
        let h: i16 = map.height as i16;
        let nt = tiles.len();
        let mut valid_tiles: Vec<Position> = Vec::new();
        let mut i: usize = 0;
        while i < nt
            invariant
                i <= nt,
                nt == tiles@.len(),
                tiles@ == all_cells,
                w == map.width as i16,
                h == map.height as i16,
                valid_tiles@ == cells_on_map(all_cells, map.width, map.height, i as int),
            decreases nt - i,
        {
            let t = tiles[i];
            if t.x >= 0 && t.x < w && t.y >= 0 && t.y < h {
                valid_tiles.push(t);
            }
            i = i + 1;
        }
        let mut affected_enemies: Vec<Entity> = Vec::new();
        let mut affected_allies: Vec<Entity> = Vec::new();
        let mut total_damage: i32 = 0;
        let nu = units.len();
        let mut k: usize = 0;
        while k < nu
            invariant
                k <= nu,
                nu == units@.len(),
                valid_tiles@ == cells_on_map(all_cells, map.width, map.height, all_cells.len() as int),
                forall|j: int|
                    0 <= j <= units@.len() ==> i32::MIN <= #[trigger] aoe_damage(
                        units@,
                        valid_tiles@,
                        attacker_team,
                        j,
                    ) <= i32::MAX,
                affected_allies@ == aoe_allies(units@, valid_tiles@, attacker_team, k as int),
                affected_enemies@ == aoe_enemies(units@, valid_tiles@, attacker_team, k as int),
                total_damage == aoe_damage(units@, valid_tiles@, attacker_team, k as int),
            decreases nu - k,
        {
            let u = units[k];
            if let (Some(pos), Some(team)) = (u.position, u.team) {
                if contains_position(&valid_tiles, pos) {
                    if team == attacker_team {
                        affected_allies.push(u.entity);
                    } else {
                        affected_enemies.push(u.entity);
                        if let Some(stats) = u.stats {
                            let hp_part = if stats.hp < 50 {
                                stats.hp
                            } else {
                                50
                            };
                            assert(i32::MIN <= aoe_damage(units@, valid_tiles@, attacker_team, k + 1) <= i32::MAX);
                            total_damage = total_damage + hp_part;
                        }
                    }
                }
            }
            k = k + 1;
        }
        AoEPreview {
            center: Some(center),
            affected_tiles: valid_tiles,
            affected_enemies,
            affected_allies,
            total_potential_damage: total_damage,
        }
    }
}

} // verus!
