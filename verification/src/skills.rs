use vstd::prelude::*;

use crate::battle_preview::{box_rows, box_tiles, cross_cells, cross_tiles};
use crate::battle_preview::UnitRecord;
use crate::components::{CharacterClass, ElementalStatus, TargetingMode, Team};
use crate::geometry::{Entity, Position, contains_position, manhattan, manhattan_distance};
use crate::units::{entity_at, get_entity_at};

verus! {

/// Name, range, AP cost, whether it hits an area, and power of each hero
/// skill.
pub open spec fn skill_table(class: CharacterClass, skill: TargetingMode) -> Option<
    (Seq<char>, int, int, bool, int),
> {
    match (class, skill) {
        (CharacterClass::Warrior, TargetingMode::Skill1) => Some(("Heavy Slash"@, 1, 2, false, 45)),
        (CharacterClass::Warrior, TargetingMode::Skill2) => Some(("Dragon Fire"@, 3, 3, true, 50)),
        (CharacterClass::Warrior, TargetingMode::Skill3) => Some(("Taunt Shield"@, 0, 1, false, 0)),
        (CharacterClass::Mage, TargetingMode::Skill1) => Some(("Thunderbolt"@, 3, 2, false, 55)),
        (CharacterClass::Mage, TargetingMode::Skill2) => Some(("Glacial Tempest"@, 4, 3, true, 40)),
        (CharacterClass::Healer, TargetingMode::Skill1) => Some(("Holy Light"@, 2, 2, false, 50)),
        (CharacterClass::Healer, TargetingMode::Skill2) => Some(
            ("Divine Protection"@, 0, 3, true, 40),
        ),
        _ => None,
    }
}

/// Name, range, AP cost, area flag and power of a hero's skill, or `None` for
/// a skill the class does not have.
pub fn get_skill_info(class: CharacterClass, skill: TargetingMode) -> (r: Option<
    (String, i16, i32, bool, i32),
>)
    ensures
        match skill_table(class, skill) {
            Some((name, range, cost, area, power)) => r matches Some(x) && x.0@ == name && x.1
                == range && x.2 == cost && x.3 == area && x.4 == power,
            None => r is None,
        },
{
    match (class, skill) {
        (CharacterClass::Warrior, TargetingMode::Skill1) => Some(
            (String::from_str("Heavy Slash"), 1, 2, false, 45),
        ),
        (CharacterClass::Warrior, TargetingMode::Skill2) => Some(
            (String::from_str("Dragon Fire"), 3, 3, true, 50),
        ),
        (CharacterClass::Warrior, TargetingMode::Skill3) => Some(
            (String::from_str("Taunt Shield"), 0, 1, false, 0),
        ),
        (CharacterClass::Mage, TargetingMode::Skill1) => Some(
            (String::from_str("Thunderbolt"), 3, 2, false, 55),
        ),
        (CharacterClass::Mage, TargetingMode::Skill2) => Some(
            (String::from_str("Glacial Tempest"), 4, 3, true, 40),
        ),
        (CharacterClass::Healer, TargetingMode::Skill1) => Some(
            (String::from_str("Holy Light"), 2, 2, false, 50),
        ),
        (CharacterClass::Healer, TargetingMode::Skill2) => Some(
            (String::from_str("Divine Protection"), 0, 3, true, 40),
        ),
        _ => None,
    }
}

/// The cells a skill aimed at `target` covers: the warrior's second skill the
/// 3x3 square around it, the mage's second skill a cross of reach 2, the
/// healer's second skill no cell (it reaches every hero), any other skill the
/// target alone.
pub open spec fn skill_area(class: CharacterClass, skill: TargetingMode, target: Position) -> Seq<
    Position,
> {
    match (class, skill) {
        (CharacterClass::Warrior, TargetingMode::Skill2) => box_rows(target, 1, false, 3),
        (CharacterClass::Mage, TargetingMode::Skill2) => cross_cells(target, 2),
        (CharacterClass::Healer, TargetingMode::Skill2) => Seq::empty(),
        _ => seq![target],
    }
}

/// The cells a skill aimed at `target` covers.
pub fn get_skill_aoe(class: CharacterClass, skill: TargetingMode, target: Position) -> (r: Vec<
    Position,
>)
    requires
        class == CharacterClass::Warrior && skill == TargetingMode::Skill2 ==> i16::MIN < target.x
            < i16::MAX && i16::MIN < target.y < i16::MAX,
        class == CharacterClass::Mage && skill == TargetingMode::Skill2 ==> i16::MIN + 2
            <= target.x <= i16::MAX - 2 && i16::MIN + 2 <= target.y <= i16::MAX - 2,
    ensures
        r@ == skill_area(class, skill, target),
{
    match (class, skill) {
        (CharacterClass::Warrior, TargetingMode::Skill2) => box_tiles(target, 1, false),
        (CharacterClass::Mage, TargetingMode::Skill2) => cross_tiles(target, 2),
        (CharacterClass::Healer, TargetingMode::Skill2) => Vec::new(),
        _ => {
            let mut tiles: Vec<Position> = Vec::new();
            tiles.push(target);
            assert(tiles@ =~= seq![target]);
            tiles
        },
    }
}

/// The element a skill leaves on an enemy it hits and does not defeat.
pub open spec fn skill_element(class: CharacterClass, skill: TargetingMode) -> Option<ElementalStatus> {
    match (class, skill) {
        (CharacterClass::Warrior, TargetingMode::Skill1) => Some(ElementalStatus::Ice { duration: 3 }),
        (CharacterClass::Mage, TargetingMode::Skill1) => Some(ElementalStatus::Lightning { duration: 3 }),
        (CharacterClass::Healer, TargetingMode::Skill1) => Some(ElementalStatus::Nature { duration: 3 }),
        (CharacterClass::Mage, TargetingMode::Skill2) => Some(ElementalStatus::Ice { duration: 3 }),
        _ => None,
    }
}

/// The element a skill leaves on an enemy it hits and does not defeat, if any.
pub fn skill_element_of(class: CharacterClass, skill: TargetingMode) -> (r: Option<ElementalStatus>)
    ensures
        r == skill_element(class, skill),
{
    match (class, skill) {
        (CharacterClass::Warrior, TargetingMode::Skill1) => Some(ElementalStatus::Ice { duration: 3 }),
        (CharacterClass::Mage, TargetingMode::Skill1) => Some(ElementalStatus::Lightning { duration: 3 }),
        (CharacterClass::Healer, TargetingMode::Skill1) => Some(ElementalStatus::Nature { duration: 3 }),
        (CharacterClass::Mage, TargetingMode::Skill2) => Some(ElementalStatus::Ice { duration: 3 }),
        _ => None,
    }
}

/// The team a class's skills are aimed at: a healer's at the heroes, any other's at the enemies.
pub open spec fn aimed_team(class: CharacterClass) -> Team {
    if class == CharacterClass::Healer {
        Team::Player
    } else {
        Team::Enemy
    }
}

/// A cell an area skill reaches: a cell of its area, or, when the area is
/// widened (an archmage's), a cell next to one.
pub open spec fn in_skill_reach(area: Seq<Position>, widened: bool, p: Position) -> bool {
    area.contains(p) || (widened && exists|i: int| 0 <= i < area.len() && manhattan(#[trigger] area[i], p) == 1)
}

/// The units an area skill hits among the first `k`: those of the aimed team
/// standing in its reach, in the order of `units`.
pub open spec fn area_targets(units: Seq<UnitRecord>, team: Team, area: Seq<Position>, widened: bool, k: int) -> Seq<(Entity, Position)>
    decreases k,
{
    if k <= 0 {
        Seq::empty()
    } else {
        let prev = area_targets(units, team, area, widened, k - 1);
        let u = units[k - 1];
        if u.team == Some(team) && u.position is Some && in_skill_reach(area, widened, u.position->0) {
            prev.push((u.entity, u.position->0))
        } else {
            prev
        }
    }
}

/// The units a skill aimed at `target` hits: for an area skill, the units of
/// the aimed team in its (possibly widened) area; otherwise the unit on the
/// target cell, when it belongs to the aimed team.
pub open spec fn skill_hits(units: Seq<UnitRecord>, class: CharacterClass, skill: TargetingMode, target: Position, is_aoe: bool, widened: bool) -> Seq<(Entity, Position)> {
    if is_aoe {
        area_targets(units, aimed_team(class), skill_area(class, skill, target), widened, units.len() as int)
    } else {
        match entity_at(units, target) {
            Some((e, team, _, _)) => if team == aimed_team(class) {
                seq![(e, target)]
            } else {
                Seq::empty()
            },
            None => Seq::empty(),
        }
    }
}

fn next_to_area(area: &Vec<Position>, p: Position) -> (r: bool)
    ensures
        r == exists|i: int| 0 <= i < area@.len() && manhattan(#[trigger] area@[i], p) == 1,
{
    let n = area.len();
    let mut i: usize = 0;
    while i < n
        invariant
            i <= n,
            n == area@.len(),
            forall|j: int| 0 <= j < i ==> manhattan(#[trigger] area@[j], p) != 1,
        decreases n - i,
    {
        if manhattan_distance(area[i], p) == 1 {
            assert(manhattan(area@[i as int], p) == 1);
            return true;
        }
        i = i + 1;
    }
    false
}

/// The units a skill aimed at `target` hits (an archmage's area skills reach
/// one cell further).
pub fn skill_targets(
    units: &[UnitRecord],
    class: CharacterClass,
    skill: TargetingMode,
    target: Position,
    is_aoe: bool,
    widened: bool,
) -> (r: Vec<(Entity, Position)>)
    requires
        is_aoe && class == CharacterClass::Warrior && skill == TargetingMode::Skill2 ==> i16::MIN
            < target.x < i16::MAX && i16::MIN < target.y < i16::MAX,
        is_aoe && class == CharacterClass::Mage && skill == TargetingMode::Skill2 ==> i16::MIN + 2
            <= target.x <= i16::MAX - 2 && i16::MIN + 2 <= target.y <= i16::MAX - 2,
    ensures
        r@ == skill_hits(units@, class, skill, target, is_aoe, widened),
{
    let team = if class == CharacterClass::Healer {
        Team::Player
    } else {
        Team::Enemy
    };
    if !is_aoe {
        let mut out: Vec<(Entity, Position)> = Vec::new();
        match get_entity_at(units, target) {
            Some((e, t, _, _)) => {
                if t == team {
                    out.push((e, target));
                    assert(out@ =~= seq![(e, target)]);
                }
            },
            None => {},
        }
        return out;
    }
    let area = get_skill_aoe(class, skill, target);
    let n = units.len();
    let mut out: Vec<(Entity, Position)> = Vec::new();
    let mut k: usize = 0;
    while k < n
        invariant
            k <= n,
            n == units@.len(),
            area@ == skill_area(class, skill, target),
            team == aimed_team(class),
            out@ == area_targets(units@, team, area@, widened, k as int),
        decreases n - k,
    {
        let u = units[k];
        if u.team == Some(team) {
            if let Some(p) = u.position {
                let inside = contains_position(&area, p) || (widened && next_to_area(&area, p));
                if inside {
                    out.push((u.entity, p));
                }
            }
        }
        k = k + 1;
    }
    out
}

} // verus!
