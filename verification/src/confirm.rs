use vstd::prelude::*;

use crate::battle::{BattleState, find_unit, selected_index, unit_index};
use crate::battle_preview::UnitRecord;
use crate::combat::{build_concert_energy, energy_after, energy_message};
use crate::components::{
    CharacterClass, GameState, Stats, TargetingMode, Team, class_name, get_class_name,
};
use crate::geometry::{Position, manhattan, manhattan_distance};
use crate::skills::{get_skill_info, skill_table};
use crate::text::{decimal, push_int, push_str};
use crate::units::{first_at, lemma_first_at_range, lemma_first_at_stable};

verus! {

// ------------------------------------------------------------------
// The Confirm key
// ------------------------------------------------------------------

/// How far a hero's plain attack reaches.
pub open spec fn attack_reach(class: CharacterClass) -> int {
    match class {
        CharacterClass::Warrior => 1,
        CharacterClass::Mage => 3,
        CharacterClass::Healer => 2,
        _ => 1,
    }
}

/// A skill's range, AP cost, area flag and power, with the figures an
/// unknown skill gets (range 1, cost 1, single target, power 0).
pub open spec fn skill_figures(class: CharacterClass, skill: TargetingMode) -> (int, int, bool, int) {
    match skill_table(class, skill) {
        Some((_, range, cost, area, power)) => (range, cost, area, power),
        None => (1, 1, false, 0),
    }
}

/// An Archmage pays one AP less for a skill, but never less than 1.
pub open spec fn skill_cost(cost: int, archmage: bool) -> int {
    if archmage {
        (if cost > 2 {
            cost
        } else {
            2
        }) - 1
    } else {
        cost
    }
}

/// The index of the unit on the cursor that can be acted on: the first unit
/// with a team on that cell, when it has stats and a class.
pub open spec fn target_index(s: BattleState) -> Option<int> {
    match first_at(s.units@, s.game.cursor, s.units@.len() as int) {
        Some(i) => if s.units@[i].stats is Some && s.units@[i].class is Some {
            Some(i)
        } else {
            None
        },
        None => None,
    }
}

/// How a press of Confirm turned out.
#[derive(Clone, Debug)]
pub enum ConfirmOutcome {
    /// Nothing more happens than the state changes stated, with these log lines.
    Done { messages: Vec<String> },
    /// No hero was selected: a hero with AP on the cursor may now be; the
    /// game then picks up an echo lying on the cursor.
    Picked { messages: Vec<String> },
    /// The caster paid the skill's AP; the game casts the skill at `target`
    /// with `power`, then logs `after`.
    CastSkill {
        caster: usize,
        class: CharacterClass,
        skill: TargetingMode,
        target: Position,
        power: i32,
        is_aoe: bool,
        after: Vec<String>,
    },
    /// The attacker paid 1 AP; the game resolves a hit of `base_damage` on
    /// `target` (dice, element, defeat or parry), then logs `after`.
    Attack { attacker: usize, target: usize, base_damage: i32, after: Vec<String> },
    /// The selected hero heads for the cursor's cell: whether it is
    /// reachable, the path, its cost and any slide on ice are the game's.
    MoveRequested { mover: usize },
}

/// A unit with its stats replaced.
pub open spec fn with_stats(u: UnitRecord, s: Stats) -> UnitRecord {
    UnitRecord { stats: Some(s), ..u }
}

/// The Confirm key's arithmetic fits its integer types.
pub open spec fn confirm_fits(s: BattleState) -> bool {
    &&& s.game.concert_energy + 20 <= u32::MAX
    &&& (s.game.targeting != TargetingMode::Inactive ==> selected_index(s) is Some)
    &&& (selected_index(s) matches Some(i) ==> {
        let u = s.units@[i];
        &&& u.position is Some && u.class is Some
        &&& (u.stats matches Some(st) ==> {
            &&& st.ap - 4 >= i32::MIN
            &&& (target_index(s) matches Some(t) ==> {
                &&& s.units@[t].team == Some(Team::Enemy) ==> i32::MIN <= st.atk - s.units@[t].stats->0.def
                    <= i32::MAX
                &&& (s.units@[t].team != Some(Team::Enemy) && u.class == Some(CharacterClass::Healer)) ==> (
                i32::MIN <= st.atk * 2 <= i32::MAX && i32::MIN <= s.units@[t].stats->0.hp + st.atk * 2
                    <= i32::MAX)
            })
        })
    })
}

/// The log line when a hero is selected.
pub open spec fn selected_message(class: CharacterClass, st: Stats) -> Seq<char> {
    "Selected "@ + class_name(class) + " (AP: "@ + decimal(st.ap as int) + "/"@ + decimal(
        st.max_ap as int,
    ) + ")"@
}

/// The log line of a healer's heal.
pub open spec fn heal_message(class: CharacterClass, amount: int, hp: int) -> Seq<char> {
    "Mira healed "@ + class_name(class) + " for "@ + decimal(amount) + " HP! (Target HP: "@ + decimal(hp)
        + ")"@
}

/// One log line.
pub open spec fn one(o: Seq<String>, line: Seq<char>) -> bool {
    o.len() == 1 && o[0]@ == line
}

/// What a press of Confirm does, stated over the old state `s`, the new
/// state `t` and the outcome `o`: casting a targeted skill, attacking or
/// healing the unit on the cursor, selecting another hero, clearing the
/// selection, or asking to move.
/// Confirm with a skill targeted: the selected hero casts it, or cannot.
pub open spec fn cast_done(s: BattleState, t: BattleState, archmage: bool, o: ConfirmOutcome) -> bool {
    let cursor = s.game.cursor;
    let same_sizes = t.map_width == s.map_width && t.map_height == s.map_height && t.fatigue@
        == s.fatigue@ && t.morale@ == s.morale@ && t.inventories@ == s.inventories@;
    let i = selected_index(s)->0;
    let u = s.units@[i];
    let class = u.class->0;
    let (range, cost, area, power) = skill_figures(class, s.game.targeting);
    let c = skill_cost(cost, archmage);
    if range > 0 && manhattan(u.position->0, cursor) > range {
        t == s && (o matches ConfirmOutcome::Done { messages } && one(
            messages@,
            "Target is out of skill range!"@,
        ))
    } else if u.stats is Some && u.stats->0.ap >= c {
        &&& same_sizes
        &&& t.units@ == s.units@.update(i, with_stats(u, Stats { ap: (u.stats->0.ap - c) as i32, ..u.stats->0 }))
        &&& t.game == GameState { targeting: TargetingMode::Inactive, selected_entity: None, ..s.game }
        &&& o matches ConfirmOutcome::CastSkill { caster, class: k, skill, target, power: p, is_aoe, after }
            && caster == i && k == class && skill == s.game.targeting && target == cursor && p == power
            && is_aoe == area && one(after@, "Selection cleared."@)
    } else {
        &&& same_sizes && t.units@ == s.units@
        &&& t.game == GameState { targeting: TargetingMode::Inactive, ..s.game }
        &&& o matches ConfirmOutcome::Done { messages } && one(messages@, "Not enough AP to cast this skill!"@)
    }
}

/// Confirm with no hero selected: a hero with AP on the cursor is selected.
pub open spec fn pick_done(s: BattleState, t: BattleState, o: ConfirmOutcome) -> bool {
    &&& t.map_width == s.map_width && t.map_height == s.map_height && t.fatigue@ == s.fatigue@
    &&& t.morale@ == s.morale@ && t.inventories@ == s.inventories@ && t.units@ == s.units@
    &&& match target_index(s) {
        Some(k) => if s.units@[k].team == Some(Team::Player) && s.units@[k].stats->0.ap > 0 {
            t.game == GameState { selected_entity: Some(s.units@[k].entity), ..s.game } && (
            o matches ConfirmOutcome::Picked { messages } && one(
                messages@,
                selected_message(s.units@[k].class->0, s.units@[k].stats->0),
            ))
        } else {
            t.game == s.game && (o matches ConfirmOutcome::Picked { messages } && messages@.len() == 0)
        },
        None => t.game == s.game && (o matches ConfirmOutcome::Picked { messages } && messages@.len() == 0),
    }
}

/// Confirm with hero `i` selected and no skill targeted: the unit on the cursor decides.
pub open spec fn act_done(s: BattleState, t: BattleState, i: int, o: ConfirmOutcome) -> bool {
    let cursor = s.game.cursor;
    let same_sizes = t.map_width == s.map_width && t.map_height == s.map_height && t.fatigue@
        == s.fatigue@ && t.morale@ == s.morale@ && t.inventories@ == s.inventories@;
    let u = s.units@[i];
    let class = u.class->0;
    let dist = manhattan(u.position->0, cursor);
    match target_index(s) {
        None => t == s && if u.stats is Some && u.stats->0.ap <= 0 {
            o matches ConfirmOutcome::Done { messages } && one(messages@, "Not enough AP to move there!"@)
        } else {
            o matches ConfirmOutcome::MoveRequested { mover } && mover == i
        },
        Some(k) => {
            let v = s.units@[k];
            if v.entity == u.entity {
                same_sizes && t.units@ == s.units@ && t.game == GameState { selected_entity: None, ..s.game }
                    && (o matches ConfirmOutcome::Done { messages } && one(messages@, "Selection cleared."@))
            } else if v.team == Some(Team::Enemy) {
                if dist > attack_reach(class) {
                    t == s && (o matches ConfirmOutcome::Done { messages } && one(
                        messages@,
                        "Target is out of range!"@,
                    ))
                } else if u.stats is Some && u.stats->0.ap >= 1 {
                    let st = u.stats->0;
                    let d = st.atk - v.stats->0.def;
                    let e = energy_after(s.game.concert_energy as int, 20);
                    &&& same_sizes
                    &&& t.units@ == s.units@.update(i, with_stats(u, Stats { ap: (st.ap - 1) as i32, ..st }))
                    &&& t.game == GameState { selected_entity: None, concert_energy: e as u32, ..s.game }
                    &&& o matches ConfirmOutcome::Attack { attacker, target, base_damage, after } && attacker
                        == i && target == k && base_damage == (if d > 1 {
                        d
                    } else {
                        1
                    }) && one(after@, energy_message(e))
                } else {
                    t == s && (o matches ConfirmOutcome::Done { messages } && one(
                        messages@,
                        "Not enough AP to attack!"@,
                    ))
                }
            } else if class == CharacterClass::Healer {
                if dist > 2 {
                    t == s && (o matches ConfirmOutcome::Done { messages } && one(
                        messages@,
                        "Target is out of range for healing!"@,
                    ))
                } else if u.stats is Some && u.stats->0.ap >= 1 {
                    let st = u.stats->0;
                    let heal = st.atk * 2;
                    let vs = v.stats->0;
                    let hp = if vs.max_hp < vs.hp + heal {
                        vs.max_hp as int
                    } else {
                        vs.hp + heal
                    };
                    let e = energy_after(s.game.concert_energy as int, 15);
                    &&& same_sizes
                    &&& t.units@ == s.units@.update(i, with_stats(u, Stats { ap: (st.ap - 1) as i32, ..st })).update(
                        k,
                        with_stats(v, Stats { hp: hp as i32, ..vs }),
                    )
                    &&& t.game == GameState { selected_entity: None, concert_energy: e as u32, ..s.game }
                    &&& o matches ConfirmOutcome::Done { messages } && messages@.len() == 2 && messages@[0]@
                        == heal_message(v.class->0, heal, hp) && messages@[1]@ == energy_message(e)
                } else {
                    t == s && (o matches ConfirmOutcome::Done { messages } && one(
                        messages@,
                        "Not enough AP to heal!"@,
                    ))
                }
            } else if v.stats->0.ap > 0 {
                same_sizes && t.units@ == s.units@ && t.game == GameState {
                    selected_entity: Some(v.entity),
                    ..s.game
                } && (o matches ConfirmOutcome::Done { messages } && one(
                    messages@,
                    selected_message(v.class->0, v.stats->0),
                ))
            } else {
                same_sizes && t.units@ == s.units@ && t.game == GameState { selected_entity: None, ..s.game }
                    && (o matches ConfirmOutcome::Done { messages } && one(messages@, "Selection cleared."@))
            }
        },
    }
}

/// What a press of Confirm does, stated over the old state `s`, the new
/// state `t` and the outcome `o`.
pub open spec fn confirm_done(s: BattleState, t: BattleState, archmage: bool, o: ConfirmOutcome) -> bool {
    if s.game.targeting != TargetingMode::Inactive {
        cast_done(s, t, archmage, o)
    } else {
        match selected_index(s) {
            None => pick_done(s, t, o),
            Some(i) => act_done(s, t, i, o),
        }
    }
}

fn one_line(s: &str) -> (r: Vec<String>)
    ensures
        r@.len() == 1,
        r@[0]@ == s@,
{
    let mut v: Vec<String> = Vec::new();
    v.push(String::from_str(s));
    v
}

fn unit_on(units: &Vec<UnitRecord>, pos: Position) -> (r: Option<usize>)
    ensures
        match r {
            Some(i) => first_at(units@, pos, units@.len() as int) == Some(i as int) && i < units@.len(),
            None => first_at(units@, pos, units@.len() as int) is None,
        },
{
    let n = units.len();
    let mut k: usize = 0;
    while k < n
        invariant
            k <= n,
            n == units@.len(),
            first_at(units@, pos, k as int) is None,
        decreases n - k,
    {
        let u = units[k];
        if u.position == Some(pos) && u.team.is_some() {
            assert(first_at(units@, pos, k + 1) == Some(k as int));
            proof {
                lemma_first_at_stable(units@, pos, k + 1, n as int);
            }
            return Some(k);
        }
        k = k + 1;
    }
    None
}

fn find_selected(units: &Vec<UnitRecord>, game: &GameState) -> (r: Option<usize>)
    ensures
        match r {
            Some(i) => game.selected_entity is Some && unit_index(units@, game.selected_entity->0, units@.len() as int)
                == Some(i as int) && i < units@.len(),
            None => game.selected_entity is None || unit_index(
                units@,
                game.selected_entity->0,
                units@.len() as int,
            ) is None,
        },
{
    match game.selected_entity {
        None => None,
        Some(e) => find_unit(units, e),
    }
}

/// The log line when a hero is selected, built.
fn selected_line(class: CharacterClass, st: Stats) -> (r: String)
    ensures
        r@ == selected_message(class, st),
{
    let mut line = String::new();
    push_str(&mut line, "Selected ");
    push_str(&mut line, get_class_name(class));
    push_str(&mut line, " (AP: ");
    push_int(&mut line, st.ap as i64);
    push_str(&mut line, "/");
    push_int(&mut line, st.max_ap as i64);
    push_str(&mut line, ")");
    assert(line@ =~= selected_message(class, st));
    line
}

#[verifier::rlimit(80)]
fn confirm_cast(state: &mut BattleState, i: usize, archmage: bool) -> (o: ConfirmOutcome)
    requires
        old(state).wf(),
        confirm_fits(*old(state)),
        old(state).game.targeting != TargetingMode::Inactive,
        selected_index(*old(state)) == Some(i as int),
        i < old(state).units@.len(),
    ensures
        final(state).wf(),
        cast_done(*old(state), *final(state), archmage, o),
{
    let cursor = state.game.cursor;
    let u = state.units[i];
    let class = u.class.unwrap();
    let skill = state.game.targeting;
    let (range, cost, area, power) = match get_skill_info(class, skill) {
        Some((_, r, c, a, p)) => (r as i32, c, a, p),
        None => (1, 1, false, 0),
    };
    let c = if archmage {
        (if cost > 2 {
            cost
        } else {
            2
        }) - 1
    } else {
        cost
    };
    if range > 0 && manhattan_distance(u.position.unwrap(), cursor) > range {
        return ConfirmOutcome::Done { messages: one_line("Target is out of skill range!") };
    }
    match u.stats {
        Some(st) => {
            if st.ap >= c {
                state.units.set(i, UnitRecord { stats: Some(Stats { ap: st.ap - c, ..st }), ..u });
                state.game.targeting = TargetingMode::Inactive;
                state.game.selected_entity = None;
                return ConfirmOutcome::CastSkill {
                    caster: i,
                    class,
                    skill,
                    target: cursor,
                    power,
                    is_aoe: area,
                    after: one_line("Selection cleared."),
                };
            }
        },
        None => {},
    }
    state.game.targeting = TargetingMode::Inactive;
    ConfirmOutcome::Done { messages: one_line("Not enough AP to cast this skill!") }
}

fn cursor_target(state: &BattleState) -> (r: Option<usize>)
    ensures
        match r {
            Some(k) => target_index(*state) == Some(k as int) && k < state.units@.len(),
            None => target_index(*state) is None,
        },
{
    proof {
        lemma_first_at_range(state.units@, state.game.cursor, state.units@.len() as int);
    }
    match unit_on(&state.units, state.game.cursor) {
        Some(k) => {
            let v = state.units[k];
            if v.stats.is_some() && v.class.is_some() {
                Some(k)
            } else {
                None
            }
        },
        None => None,
    }
}

fn confirm_pick(state: &mut BattleState) -> (o: ConfirmOutcome)
    requires
        old(state).wf(),
    ensures
        final(state).wf(),
        pick_done(*old(state), *final(state), o),
{
    match cursor_target(state) {
        Some(k) => {
            let v = state.units[k];
            let vs = v.stats.unwrap();
            if v.team == Some(Team::Player) && vs.ap > 0 {
                state.game.selected_entity = Some(v.entity);
                let mut messages: Vec<String> = Vec::new();
                messages.push(selected_line(v.class.unwrap(), vs));
                return ConfirmOutcome::Picked { messages };
            }
            ConfirmOutcome::Picked { messages: Vec::new() }
        },
        None => ConfirmOutcome::Picked { messages: Vec::new() },
    }
}

#[verifier::rlimit(40)]
fn confirm_act(state: &mut BattleState, i: usize) -> (o: ConfirmOutcome)
    requires
        old(state).wf(),
        confirm_fits(*old(state)),
        selected_index(*old(state)) == Some(i as int),
        i < old(state).units@.len(),
    ensures
        final(state).wf(),
        act_done(*old(state), *final(state), i as int, o),
{
    let cursor = state.game.cursor;
    let u = state.units[i];
    let class = u.class.unwrap();
    let dist = manhattan_distance(u.position.unwrap(), cursor);
    let k = match cursor_target(state) {
        None => {
            match u.stats {
                Some(st) => {
                    if st.ap <= 0 {
                        return ConfirmOutcome::Done { messages: one_line("Not enough AP to move there!") };
                    }
                },
                None => {},
            }
            return ConfirmOutcome::MoveRequested { mover: i };
        },
        Some(k) => k,
    };
    let v = state.units[k];
    if v.entity == u.entity {
        state.game.selected_entity = None;
        return ConfirmOutcome::Done { messages: one_line("Selection cleared.") };
    }
    let vs = v.stats.unwrap();
    if v.team == Some(Team::Enemy) {
        let reach: i32 = match class {
            CharacterClass::Warrior => 1,
            CharacterClass::Mage => 3,
            CharacterClass::Healer => 2,
            _ => 1,
        };
        if dist > reach {
            return ConfirmOutcome::Done { messages: one_line("Target is out of range!") };
        }
        match u.stats {
            Some(st) => {
                if st.ap >= 1 {
                    state.units.set(i, UnitRecord { stats: Some(Stats { ap: st.ap - 1, ..st }), ..u });
                    let d = st.atk - vs.def;
                    let base_damage = if d > 1 {
                        d
                    } else {
                        1
                    };
                    let line = build_concert_energy(&mut state.game.concert_energy, 20);
                    state.game.selected_entity = None;
                    let mut after: Vec<String> = Vec::new();
                    after.push(line);
                    return ConfirmOutcome::Attack { attacker: i, target: k, base_damage, after };
                }
            },
            None => {},
        }
        return ConfirmOutcome::Done { messages: one_line("Not enough AP to attack!") };
    }
    if class == CharacterClass::Healer {
        if dist > 2 {
            return ConfirmOutcome::Done { messages: one_line("Target is out of range for healing!") };
        }
        match u.stats {
            Some(st) => {
                if st.ap >= 1 {
                    state.units.set(i, UnitRecord { stats: Some(Stats { ap: st.ap - 1, ..st }), ..u });
                    let heal = st.atk * 2;
                    let raised = vs.hp + heal;
                    let hp = if vs.max_hp < raised {
                        vs.max_hp
                    } else {
                        raised
                    };
                    state.units.set(k, UnitRecord { stats: Some(Stats { hp, ..vs }), ..v });
                    let mut line = String::new();
                    push_str(&mut line, "Mira healed ");
                    push_str(&mut line, get_class_name(v.class.unwrap()));
                    push_str(&mut line, " for ");
                    push_int(&mut line, heal as i64);
                    push_str(&mut line, " HP! (Target HP: ");
                    push_int(&mut line, hp as i64);
                    push_str(&mut line, ")");
                    let energy_line = build_concert_energy(&mut state.game.concert_energy, 15);
                    state.game.selected_entity = None;
                    let mut messages: Vec<String> = Vec::new();
                    messages.push(line);
                    messages.push(energy_line);
                    return ConfirmOutcome::Done { messages };
                }
            },
            None => {},
        }
        return ConfirmOutcome::Done { messages: one_line("Not enough AP to heal!") };
    }
    if vs.ap > 0 {
        state.game.selected_entity = Some(v.entity);
        let mut messages: Vec<String> = Vec::new();
        messages.push(selected_line(v.class.unwrap(), vs));
        return ConfirmOutcome::Done { messages };
    }
    state.game.selected_entity = None;
    ConfirmOutcome::Done { messages: one_line("Selection cleared.") }
}

/// Presses Confirm: with a skill targeted, the selected hero casts it at the
/// cursor if the cursor is within the skill's range (range 0 reaches
/// anywhere) and the hero can pay its AP (one less for an Archmage, never
/// under 1); otherwise the unit on the cursor decides: the selected hero
/// itself clears the selection; an enemy within the hero's reach (Warrior 1,
/// Mage 3, Healer 2, others 1) is attacked for 1 AP with base damage
/// `max(1, atk - def)`; another hero within 2 is healed for 1 AP by a healer
/// (twice the healer's attack, up to its maximum), or else becomes the
/// selected hero when it has AP; an empty cell asks to move there. With no
/// hero selected, a hero with AP on the cursor is selected.
pub fn confirm_step(state: &mut BattleState, archmage: bool) -> (o: ConfirmOutcome)
    requires
        old(state).wf(),
        confirm_fits(*old(state)),
    ensures
        final(state).wf(),
        confirm_done(*old(state), *final(state), archmage, o),
{
    let sel = find_selected(&state.units, &state.game);
    if state.game.targeting != TargetingMode::Inactive {
        return confirm_cast(state, sel.unwrap(), archmage);
    }
    match sel {
        None => confirm_pick(state),
        Some(i) => confirm_act(state, i),
    }
}

} // verus!
