use vstd::prelude::*;

use crate::battle::{find_unit, unit_index};
use crate::battle_preview::{BattlePreview, UnitRecord};
use crate::components::{
    BattleStats, Bestiary, BestiaryEntry, CharacterClass, ComboSkill, ComboSkillDef, EquipmentSet, EquippedItems,
    FloorModifier, GameState, LoreEntry, LoreJournal, Outcome, Team, TelegraphZone, TurnOrderEntry, TurnPhase,
    WeatherType, class_name, combo_table, floor_modifier_name, set_display_name,
};
use crate::equipment::{check_set_bonuses, complete_sets};
use crate::geometry::{Entity, Position, interior_point, manhattan, manhattan_distance};
use crate::intents::{IntentView, intents_fit, planned_intents, telegraph_intent};
use crate::map::TacticalMap;
use crate::movement::{coordinates_fit, costs_nonnegative, reachable_tiles, reaches};
use crate::outcome::texts;
use crate::text::{decimal, push_int, push_str};
use crate::turn_order::turn_units;

verus! {

// ------------------------------------------------------------------
// Team summaries
// ------------------------------------------------------------------

/// A side's head count and hit points.
#[derive(Copy, Clone, Debug, PartialEq, Eq, Structural)]
pub struct TeamSummary {
    pub count: usize,
    pub total_hp: i32,
    pub max_hp: i32,
}

/// `u` is counted for `team`: it is on that team and has stats.
pub open spec fn counted(u: UnitRecord, team: Team) -> bool {
    u.team == Some(team) && u.stats is Some
}

pub open spec fn team_count(units: Seq<UnitRecord>, team: Team, k: int) -> int
    decreases k,
{
    if k <= 0 {
        0
    } else {
        team_count(units, team, k - 1) + if counted(units[k - 1], team) {
            1int
        } else {
            0int
        }
    }
}

pub open spec fn team_hp(units: Seq<UnitRecord>, team: Team, k: int) -> int
    decreases k,
{
    if k <= 0 {
        0
    } else {
        team_hp(units, team, k - 1) + if counted(units[k - 1], team) {
            units[k - 1].stats->0.hp as int
        } else {
            0int
        }
    }
}

pub open spec fn team_max_hp(units: Seq<UnitRecord>, team: Team, k: int) -> int
    decreases k,
{
    if k <= 0 {
        0
    } else {
        team_max_hp(units, team, k - 1) + if counted(units[k - 1], team) {
            units[k - 1].stats->0.max_hp as int
        } else {
            0int
        }
    }
}

/// The running sums of a side's hit points fit an `i32`.
pub open spec fn team_fits(units: Seq<UnitRecord>, team: Team) -> bool {
    forall|k: int|
        0 <= k <= units.len() ==> i32::MIN <= #[trigger] team_hp(units, team, k) <= i32::MAX && i32::MIN
            <= team_max_hp(units, team, k) <= i32::MAX
}

/// The summary of `team` over the units.
pub open spec fn team_summary(units: Seq<UnitRecord>, team: Team) -> TeamSummary {
    TeamSummary {
        count: team_count(units, team, units.len() as int) as usize,
        total_hp: team_hp(units, team, units.len() as int) as i32,
        max_hp: team_max_hp(units, team, units.len() as int) as i32,
    }
}

pub fn summarize_team(units: &Vec<UnitRecord>, team: Team) -> (r: TeamSummary)
    requires
        team_fits(units@, team),
    ensures
        r == team_summary(units@, team),
{
    let n = units.len();
    let mut count: usize = 0;
    let mut hp: i32 = 0;
    let mut max_hp: i32 = 0;
    let mut k: usize = 0;
    while k < n
        invariant
            k <= n,
            n == units@.len(),
            team_fits(units@, team),
            count <= k,
            count == team_count(units@, team, k as int),
            hp == team_hp(units@, team, k as int),
            max_hp == team_max_hp(units@, team, k as int),
        decreases n - k,
    {
        let u = units[k];
        assert(i32::MIN <= team_hp(units@, team, k + 1) <= i32::MAX);
        assert(i32::MIN <= team_max_hp(units@, team, k + 1) <= i32::MAX);
        if u.team == Some(team) {
            match u.stats {
                Some(st) => {
                    count = count + 1;
                    hp = hp + st.hp;
                    max_hp = max_hp + st.max_hp;
                },
                None => {},
            }
        }
        k = k + 1;
    }
    TeamSummary { count, total_hp: hp, max_hp }
}

// ------------------------------------------------------------------
// What the selected hero can reach and hit
// ------------------------------------------------------------------

/// How far a hero of the class strikes: a warrior 1, a mage 3, a healer 2,
/// anyone else 1.
pub open spec fn attack_range(c: Option<CharacterClass>) -> int {
    match c {
        Some(CharacterClass::Warrior) => 1,
        Some(CharacterClass::Mage) => 3,
        Some(CharacterClass::Healer) => 2,
        _ => 1,
    }
}

/// The enemies' cells, among the first `k` units, within `range` of `cursor`.
pub open spec fn targets_near(units: Seq<UnitRecord>, cursor: Position, range: int, k: int) -> Seq<Position>
    decreases k,
{
    if k <= 0 {
        Seq::empty()
    } else {
        let u = units[k - 1];
        let prev = targets_near(units, cursor, range, k - 1);
        if u.team == Some(Team::Enemy) && u.position is Some && manhattan(u.position->0, cursor) <= range {
            prev.push(u.position->0)
        } else {
            prev
        }
    }
}

/// The cells held by the units, among the first `k`, that have a team and
/// are not `e`.
pub open spec fn held_by_others(units: Seq<UnitRecord>, e: Entity, k: int) -> Seq<Position>
    decreases k,
{
    if k <= 0 {
        Seq::empty()
    } else {
        let u = units[k - 1];
        let prev = held_by_others(units, e, k - 1);
        if u.entity != e && u.team is Some && u.position is Some {
            prev.push(u.position->0)
        } else {
            prev
        }
    }
}

/// The selected unit's index, when one is selected and on the field.
pub open spec fn selected_unit(units: Seq<UnitRecord>, g: GameState) -> Option<int> {
    match g.selected_entity {
        Some(e) => unit_index(units, e, units.len() as int),
        None => None,
    }
}

/// Where the selected unit's movement starts and with how many action
/// points, when it stands on the map with stats.
pub open spec fn reach_start(units: Seq<UnitRecord>, g: GameState) -> Option<(Position, i32)> {
    match selected_unit(units, g) {
        Some(i) => if units[i].position is Some && units[i].stats is Some {
            Some((units[i].position->0, units[i].stats->0.ap))
        } else {
            None
        },
        None => None,
    }
}

fn targets_exec(units: &Vec<UnitRecord>, cursor: Position, range: i32) -> (r: Vec<Position>)
    ensures
        r@ == targets_near(units@, cursor, range as int, units@.len() as int),
{
    let n = units.len();
    let mut r: Vec<Position> = Vec::new();
    let mut k: usize = 0;
    while k < n
        invariant
            k <= n,
            n == units@.len(),
            r@ == targets_near(units@, cursor, range as int, k as int),
        decreases n - k,
    {
        let u = units[k];
        if u.team == Some(Team::Enemy) {
            match u.position {
                Some(p) => {
                    if manhattan_distance(p, cursor) <= range {
                        r.push(p);
                    }
                },
                None => {},
            }
        }
        k = k + 1;
    }
    r
}

fn held_exec(units: &Vec<UnitRecord>, e: Entity) -> (r: Vec<Position>)
    ensures
        r@ == held_by_others(units@, e, units@.len() as int),
{
    let n = units.len();
    let mut r: Vec<Position> = Vec::new();
    let mut k: usize = 0;
    while k < n
        invariant
            k <= n,
            n == units@.len(),
            r@ == held_by_others(units@, e, k as int),
        decreases n - k,
    {
        let u = units[k];
        if u.entity != e && u.team.is_some() {
            match u.position {
                Some(p) => r.push(p),
                None => {},
            }
        }
        k = k + 1;
    }
    r
}

// ------------------------------------------------------------------
// Lines and counts
// ------------------------------------------------------------------

/// A unit's line in the turn order: its name, its speed in brackets, and a
/// star on the unit whose turn it is.
pub open spec fn turn_line(u: UnitRecord, current: Option<Entity>) -> Seq<char> {
    class_name(u.class->0) + "["@ + decimal(u.stats->0.spd as int) + "]"@ + if current == Some(u.entity) {
        "*"@
    } else {
        ""@
    }
}

fn turn_lines(units: &Vec<UnitRecord>, current: Option<Entity>) -> (r: Vec<String>)
    ensures
        texts(r@).len() == turn_units(units@, units@.len() as int).len(),
        forall|i: int|
            0 <= i < r@.len() ==> #[trigger] r@[i]@ == turn_line(turn_units(units@, units@.len() as int)[i], current),
{
    let order = BattlePreview::calculate_turn_order(units.as_slice(), current);
    let ghost tu = turn_units(units@, units@.len() as int);
    let n = order.entries.len();
    let mut r: Vec<String> = Vec::new();
    let mut k: usize = 0;
    while k < n
        invariant
            k <= n,
            n == order.entries@.len(),
            n == tu.len(),
            tu == turn_units(units@, units@.len() as int),
            forall|i: int|
                0 <= i < n ==> crate::turn_order::entry_shows(#[trigger] order.entries@[i], tu[i], current),
            r@.len() == k,
            forall|i: int| 0 <= i < k ==> #[trigger] r@[i]@ == turn_line(tu[i], current),
        decreases n - k,
    {
        let e = &order.entries[k];
        assert(crate::turn_order::entry_shows(order.entries@[k as int], tu[k as int], current));
        let mut line = String::new();
        push_str(&mut line, e.name.as_str());
        push_str(&mut line, "[");
        push_int(&mut line, e.spd as i64);
        push_str(&mut line, "]");
        if e.is_current {
            push_str(&mut line, "*");
        } else {
            push_str(&mut line, "");
        }
        r.push(line);
        k = k + 1;
    }
    r
}

/// The intents' descriptions.
pub open spec fn intent_texts(v: Seq<IntentView>) -> Seq<Seq<char>> {
    v.map_values(|i: IntentView| i.4)
}

fn intent_lines(units: &Vec<UnitRecord>, telegraph: &TelegraphZone) -> (r: Vec<String>)
    requires
        intents_fit(units@),
    ensures
        texts(r@) == intent_texts(planned_intents(units@, units@.len() as int) + telegraph_intent(*telegraph)),
{
    let found = BattlePreview::predict_enemy_intents(units.as_slice(), telegraph);
    let ghost all = planned_intents(units@, units@.len() as int) + telegraph_intent(*telegraph);
    let n = found.intents.len();
    let mut r: Vec<String> = Vec::new();
    let mut k: usize = 0;
    while k < n
        invariant
            k <= n,
            n == found.intents@.len(),
            found.intents@.map_values(|i: crate::components::EnemyIntent| crate::intents::intent_view(i)) == all,
            texts(r@) == intent_texts(all).take(k as int),
        decreases n - k,
    {
        let ghost prev = r@;
        r.push(found.intents[k].description.clone());
        assert(all[k as int] == crate::intents::intent_view(found.intents@[k as int]));
        assert(texts(r@) =~= texts(prev).push(found.intents@[k as int].description@));
        assert(intent_texts(all).take(k + 1) =~= intent_texts(all).take(k as int).push(all[k as int].4));
        k = k + 1;
    }
    assert(intent_texts(all).take(n as int) =~= intent_texts(all));
    r
}

fn combo_lines(combos: &Vec<ComboSkill>) -> (r: Vec<String>)
    ensures
        texts(r@) == combos@.map_values(|c: ComboSkill| combo_table(c).0),
{
    let n = combos.len();
    let mut r: Vec<String> = Vec::new();
    let mut k: usize = 0;
    while k < n
        invariant
            k <= n,
            n == combos@.len(),
            texts(r@) == combos@.map_values(|c: ComboSkill| combo_table(c).0).take(k as int),
        decreases n - k,
    {
        let ghost prev = r@;
        let d = ComboSkillDef::for_skill(&combos[k]);
        r.push(d.name);
        assert(texts(r@) =~= texts(prev).push(combo_table(combos@[k as int]).0));
        assert(combos@.map_values(|c: ComboSkill| combo_table(c).0).take(k + 1) =~= combos@.map_values(
            |c: ComboSkill| combo_table(c).0,
        ).take(k as int).push(combo_table(combos@[k as int]).0));
        k = k + 1;
    }
    assert(combos@.map_values(|c: ComboSkill| combo_table(c).0).take(n as int) =~= combos@.map_values(
        |c: ComboSkill| combo_table(c).0,
    ));
    r
}

fn modifier_lines(modifiers: &Vec<FloorModifier>) -> (r: Vec<String>)
    ensures
        texts(r@) == modifiers@.map_values(|m: FloorModifier| floor_modifier_name(m)),
{
    let n = modifiers.len();
    let mut r: Vec<String> = Vec::new();
    let mut k: usize = 0;
    while k < n
        invariant
            k <= n,
            n == modifiers@.len(),
            texts(r@) == modifiers@.map_values(|m: FloorModifier| floor_modifier_name(m)).take(k as int),
        decreases n - k,
    {
        let ghost prev = r@;
        r.push(String::from_str(modifiers[k].display_name()));
        assert(texts(r@) =~= texts(prev).push(floor_modifier_name(modifiers@[k as int])));
        assert(modifiers@.map_values(|m: FloorModifier| floor_modifier_name(m)).take(k + 1)
            =~= modifiers@.map_values(|m: FloorModifier| floor_modifier_name(m)).take(k as int).push(
            floor_modifier_name(modifiers@[k as int]),
        ));
        k = k + 1;
    }
    assert(modifiers@.map_values(|m: FloorModifier| floor_modifier_name(m)).take(n as int)
        =~= modifiers@.map_values(|m: FloorModifier| floor_modifier_name(m)));
    r
}

/// Bestiary entries, among the first `k`, whose enemy has been met.
pub open spec fn met_count(entries: Seq<BestiaryEntry>, k: int) -> int
    decreases k,
{
    if k <= 0 {
        0
    } else {
        met_count(entries, k - 1) + if entries[k - 1].encountered {
            1int
        } else {
            0int
        }
    }
}

/// Lore entries, among the first `k`, that have been discovered.
pub open spec fn found_count(entries: Seq<LoreEntry>, k: int) -> int
    decreases k,
{
    if k <= 0 {
        0
    } else {
        found_count(entries, k - 1) + if entries[k - 1].discovered {
            1int
        } else {
            0int
        }
    }
}

fn count_met(entries: &Vec<BestiaryEntry>) -> (r: usize)
    ensures
        r == met_count(entries@, entries@.len() as int),
{
    let n = entries.len();
    let mut c: usize = 0;
    let mut k: usize = 0;
    while k < n
        invariant
            k <= n,
            n == entries@.len(),
            c <= k,
            c == met_count(entries@, k as int),
        decreases n - k,
    {
        if entries[k].encountered {
            c = c + 1;
        }
        k = k + 1;
    }
    c
}

fn count_found(entries: &Vec<LoreEntry>) -> (r: usize)
    ensures
        r == found_count(entries@, entries@.len() as int),
{
    let n = entries.len();
    let mut c: usize = 0;
    let mut k: usize = 0;
    while k < n
        invariant
            k <= n,
            n == entries@.len(),
            c <= k,
            c == found_count(entries@, k as int),
        decreases n - k,
    {
        if entries[k].discovered {
            c = c + 1;
        }
        k = k + 1;
    }
    c
}

/// The names of the sets, joined by ", ".
pub open spec fn joined_sets(sets: Seq<EquipmentSet>, k: int) -> Seq<char>
    decreases k,
{
    if k <= 0 {
        Seq::empty()
    } else if k == 1 {
        set_display_name(sets[0])
    } else {
        joined_sets(sets, k - 1) + ", "@ + set_display_name(sets[k - 1])
    }
}

/// For each hero among the first `k` units who wears a complete set, the
/// names of its sets.
pub open spec fn set_lines(units: Seq<UnitRecord>, equipped: Seq<Option<EquippedItems>>, k: int) -> Seq<
    Seq<char>,
>
    decreases k,
{
    if k <= 0 {
        Seq::empty()
    } else {
        let prev = set_lines(units, equipped, k - 1);
        match equipped[k - 1] {
            Some(eq) => if units[k - 1].team == Some(Team::Player) && complete_sets(eq).len() > 0 {
                prev.push(joined_sets(complete_sets(eq), complete_sets(eq).len() as int))
            } else {
                prev
            },
            None => prev,
        }
    }
}

fn join_set_names(sets: &Vec<EquipmentSet>) -> (r: String)
    ensures
        r@ == joined_sets(sets@, sets@.len() as int),
{
    let n = sets.len();
    let mut r = String::new();
    let mut k: usize = 0;
    while k < n
        invariant
            k <= n,
            n == sets@.len(),
            r@ == joined_sets(sets@, k as int),
        decreases n - k,
    {
        if k > 0 {
            push_str(&mut r, ", ");
        }
        push_str(&mut r, sets[k].display_name());
        k = k + 1;
    }
    r
}

fn set_bonus_lines(units: &Vec<UnitRecord>, equipped: &Vec<Option<EquippedItems>>) -> (r: Vec<String>)
    requires
        equipped@.len() == units@.len(),
    ensures
        texts(r@) == set_lines(units@, equipped@, units@.len() as int),
{
    let n = units.len();
    let mut r: Vec<String> = Vec::new();
    let mut k: usize = 0;
    while k < n
        invariant
            k <= n,
            n == units@.len(),
            equipped@.len() == n,
            texts(r@) == set_lines(units@, equipped@, k as int),
        decreases n - k,
    {
        match &equipped[k] {
            Some(eq) => {
                if units[k].team == Some(Team::Player) {
                    let bonus = check_set_bonuses(eq);
                    if bonus.active_sets.len() > 0 {
                        let ghost prev = r@;
                        r.push(join_set_names(&bonus.active_sets));
                        assert(texts(r@) =~= texts(prev).push(joined_sets(complete_sets(*eq), complete_sets(*eq).len() as int)));
                    }
                }
            },
            None => {},
        }
        k = k + 1;
    }
    r
}

// ------------------------------------------------------------------
// The snapshot
// ------------------------------------------------------------------

/// What scripts and agents see of the game between steps.
#[derive(Clone, Debug)]
pub struct Snapshot {
    pub turn: u32,
    pub phase: TurnPhase,
    pub outcome: Outcome,
    pub cursor: Position,
    pub player_team: TeamSummary,
    pub enemy_team: TeamSummary,
    pub reachable_tiles: Vec<Position>,
    pub targetable_tiles: Vec<Position>,
    pub selected_can_act: bool,
    pub combo_count: u32,
    pub battle_stats: BattleStats,
    pub floor: u32,
    pub weather: WeatherType,
    pub turn_order: Vec<String>,
    pub enemy_intents: Vec<String>,
    pub available_combos: Vec<String>,
    pub bestiary_discovered: usize,
    pub bestiary_total: usize,
    pub lore_discovered: usize,
    pub lore_total: usize,
    pub active_modifiers: Vec<String>,
    pub active_set_bonuses: Vec<String>,
}

/// The cells the selected hero's attack reaches from the cursor: the
/// enemies within its class's range; none when no hero is selected.
pub open spec fn targetable(units: Seq<UnitRecord>, g: GameState) -> Seq<Position> {
    match g.selected_entity {
        Some(_) => {
            let class = match selected_unit(units, g) {
                Some(i) => units[i].class,
                None => None,
            };
            targets_near(units, g.cursor, attack_range(class), units.len() as int)
        },
        None => Seq::empty(),
    }
}

/// The selected hero has action points left.
pub open spec fn can_act(units: Seq<UnitRecord>, g: GameState) -> bool {
    match selected_unit(units, g) {
        Some(i) => units[i].stats matches Some(st) && st.ap > 0,
        None => false,
    }
}

/// What the snapshot needs: the sides' hit points add up within `i32`, the
/// map's movement costs are not negative, the selected hero stands where
/// its neighbours can be named, the intents can be computed, and each unit
/// has its equipment entry.
pub open spec fn snapshot_fits(
    g: GameState,
    units: Seq<UnitRecord>,
    map: TacticalMap,
    weather: WeatherType,
    gravity_bonus: int,
    equipped: Seq<Option<EquippedItems>>,
) -> bool {
    &&& team_fits(units, Team::Player)
    &&& team_fits(units, Team::Enemy)
    &&& map.wf()
    &&& coordinates_fit(map@)
    &&& costs_nonnegative(map@, weather, gravity_bonus)
    &&& reach_start(units, g) matches Some((p, _)) ==> interior_point(p)
    &&& intents_fit(units)
    &&& equipped.len() == units.len()
}

/// The snapshot of the game: the state's turn, phase, outcome, cursor, combo
/// count and floor; each side's head count and hit points; the cells the
/// selected hero can move to (with the gravity cost `gravity_bonus` the
/// floor modifiers add) and the enemy cells its attack reaches from the
/// cursor, and whether it can still act; the turn order and the enemies'
/// intents as text; the combos on offer; how much of the bestiary and the
/// lore journal is known; the active floor modifiers; and each hero's
/// complete equipment sets. `equipped[i]` is what `units[i]` wears.
pub fn snapshot(
    game: &GameState,
    units: &Vec<UnitRecord>,
    map: &TacticalMap,
    weather: WeatherType,
    gravity_bonus: i32,
    telegraph: &TelegraphZone,
    battle_stats: BattleStats,
    combos: &Vec<ComboSkill>,
    bestiary: &Bestiary,
    journal: &LoreJournal,
    modifiers: &Vec<FloorModifier>,
    equipped: &Vec<Option<EquippedItems>>,
) -> (s: Snapshot)
    requires
        snapshot_fits(*game, units@, *map, weather, gravity_bonus as int, equipped@),
    ensures
        s.turn == game.turn && s.phase == game.phase && s.outcome == game.outcome && s.cursor == game.cursor,
        s.combo_count == game.combo_count && s.floor == game.floor && s.weather == weather,
        s.battle_stats == battle_stats,
        s.player_team == team_summary(units@, Team::Player),
        s.enemy_team == team_summary(units@, Team::Enemy),
        match reach_start(units@, *game) {
            Some((p, ap)) => {
                let others = held_by_others(units@, game.selected_entity->0, units@.len() as int);
                &&& s.reachable_tiles@.len() >= 1
                &&& s.reachable_tiles@[0] == p
                &&& forall|q: Position|
                    s.reachable_tiles@.contains(q) <==> (q == p || (ap != 0 && reaches(
                        map@,
                        others,
                        weather,
                        gravity_bonus as int,
                        p,
                        ap as int,
                        q,
                    )))
            },
            None => s.reachable_tiles@.len() == 0,
        },
        s.targetable_tiles@ == targetable(units@, *game),
        s.selected_can_act == can_act(units@, *game),
        s.turn_order@.len() == turn_units(units@, units@.len() as int).len(),
        forall|i: int|
            0 <= i < s.turn_order@.len() ==> #[trigger] s.turn_order@[i]@ == turn_line(
                turn_units(units@, units@.len() as int)[i],
                game.selected_entity,
            ),
        texts(s.enemy_intents@) == intent_texts(
            planned_intents(units@, units@.len() as int) + telegraph_intent(*telegraph),
        ),
        texts(s.available_combos@) == combos@.map_values(|c: ComboSkill| combo_table(c).0),
        s.bestiary_discovered == met_count(bestiary.entries@, bestiary.entries@.len() as int),
        s.bestiary_total == bestiary.entries@.len(),
        s.lore_discovered == found_count(journal.entries@, journal.entries@.len() as int),
        s.lore_total == journal.entries@.len(),
        texts(s.active_modifiers@) == modifiers@.map_values(|m: FloorModifier| floor_modifier_name(m)),
        texts(s.active_set_bonuses@) == set_lines(units@, equipped@, units@.len() as int),
{
    let player_team = summarize_team(units, Team::Player);
    let enemy_team = summarize_team(units, Team::Enemy);
    let sel = match game.selected_entity {
        Some(e) => {
            let f = find_unit(units, e);
            f
        },
        None => None,
    };
    assert(sel == match selected_unit(units@, *game) {
        Some(i) => Some(i as usize),
        None => None::<usize>,
    });
    let (reachable_tiles, targetable_tiles, selected_can_act) = match game.selected_entity {
        None => (Vec::new(), Vec::new(), false),
        Some(e) => {
            let (class, stats, position) = match sel {
                Some(i) => (units[i].class, units[i].stats, units[i].position),
                None => (None, None, None),
            };
            let range: i32 = match class {
                Some(CharacterClass::Warrior) => 1,
                Some(CharacterClass::Mage) => 3,
                Some(CharacterClass::Healer) => 2,
                _ => 1,
            };
            let targets = targets_exec(units, game.cursor, range);
            let reach = match (position, stats) {
                (Some(p), Some(st)) => {
                    let others = held_exec(units, e);
                    reachable_tiles(map, p, st.ap, &others, weather, gravity_bonus)
                },
                _ => Vec::new(),
            };
            let act = match stats {
                Some(st) => st.ap > 0,
                None => false,
            };
            (reach, targets, act)
        },
    };
    Snapshot {
        turn: game.turn,
        phase: game.phase,
        outcome: game.outcome,
        cursor: game.cursor,
        player_team,
        enemy_team,
        reachable_tiles,
        targetable_tiles,
        selected_can_act,
        combo_count: game.combo_count,
        battle_stats,
        floor: game.floor,
        weather,
        turn_order: turn_lines(units, game.selected_entity),
        enemy_intents: intent_lines(units, telegraph),
        available_combos: combo_lines(combos),
        bestiary_discovered: count_met(&bestiary.entries),
        bestiary_total: bestiary.entries.len(),
        lore_discovered: count_found(&journal.entries),
        lore_total: journal.entries.len(),
        active_modifiers: modifier_lines(modifiers),
        active_set_bonuses: set_bonus_lines(units, equipped),
    }
}

} // verus!
