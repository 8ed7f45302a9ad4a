use vstd::prelude::*;

use crate::battle_preview::UnitRecord;
use crate::combat::healed_stats;
use crate::components::{
    BattleStats, CharacterClass, GameState, Stats, Team, class_name, get_class_name,
};
use crate::geometry::{Entity, Position, abs_int, entity_lt};
use crate::text::{decimal, push_int, push_str};

verus! {

/// A unit of the heroes' team.
pub open spec fn hero(u: UnitRecord) -> bool {
    u.team == Some(Team::Player)
}

/// `units[i]` is a hero whose handle comes after `active`, and no hero's
/// handle lies between the two.
pub open spec fn next_after(units: Seq<UnitRecord>, active: Entity, i: int) -> bool {
    &&& 0 <= i < units.len()
    &&& hero(units[i])
    &&& entity_lt(active, units[i].entity)
    &&& forall|j: int|
        0 <= j < units.len() && hero(#[trigger] units[j]) && entity_lt(active, units[j].entity)
            ==> !entity_lt(units[j].entity, units[i].entity)
}

/// `units[i]` is the hero with the lowest handle.
pub open spec fn lowest_hero(units: Seq<UnitRecord>, i: int) -> bool {
    &&& 0 <= i < units.len()
    &&& hero(units[i])
    &&& forall|j: int| 0 <= j < units.len() && hero(#[trigger] units[j]) ==> !entity_lt(units[j].entity, units[i].entity)
}

/// `units[i]` is the hero who swaps in for `active`: the next hero in handle
/// order, or the first once `active` is the last.
pub open spec fn swap_partner(units: Seq<UnitRecord>, active: Entity, i: int) -> bool {
    next_after(units, active, i) || ((forall|j: int|
        0 <= j < units.len() && hero(#[trigger] units[j]) ==> !entity_lt(active, units[j].entity))
        && lowest_hero(units, i))
}

/// At least two heroes are on the field.
pub open spec fn two_heroes(units: Seq<UnitRecord>) -> bool {
    exists|i: int, j: int|
        0 <= i < j < units.len() && hero(#[trigger] units[i]) && hero(#[trigger] units[j])
}

/// What a swap came to.
#[derive(Clone, Debug)]
pub enum SwapOutcome {
    /// Fewer than two heroes are on the field; nothing changed.
    NotEnoughHeroes { message: String },
    /// The hero at `partner` swapped places with the active one, who stood at `at`.
    Swapped { partner: usize, at: Position, message: String },
}

/// The log line when `incoming` swaps in for `outgoing`, who stood at `at`.
pub open spec fn swap_message(incoming: CharacterClass, outgoing: CharacterClass, at: Position) -> Seq<char> {
    "[fg:9933FF][b]QTE Swap![/] [fg:E6E600]"@ + class_name(incoming) + "[/] swaps in for [fg:CCCCCC]"@
        + class_name(outgoing) + "[/] at ("@ + decimal(at.x as int) + ", "@ + decimal(at.y as int)
        + ")!"@
}

/// Swaps the active hero (the unit at index `active`) with the next hero in
/// handle order: the two trade places, the concert energy is spent, the
/// incoming hero becomes the selected one, and the battle counts one more
/// swap. With fewer than two heroes on the field nothing changes.
pub fn qte_swap(
    units: &mut Vec<UnitRecord>,
    state: &mut GameState,
    stats: &mut BattleStats,
    active: usize,
) -> (r: SwapOutcome)
    requires
        two_heroes(old(units)@) ==> old(stats).total_swaps < u32::MAX,
        active < old(units)@.len(),
        hero(old(units)@[active as int]),
        old(units)@[active as int].position is Some && old(units)@[active as int].class is Some,
        forall|i: int|
            swap_partner(old(units)@, old(units)@[active as int].entity, i) ==> #[trigger] old(units)@[i].position
                is Some && old(units)@[i].class is Some,
        forall|i: int, j: int|
            0 <= i < j < old(units)@.len() && hero(#[trigger] old(units)@[i]) && hero(
                #[trigger] old(units)@[j],
            ) ==> old(units)@[i].entity != old(units)@[j].entity,
    ensures
        !two_heroes(old(units)@) ==> (r matches SwapOutcome::NotEnoughHeroes { message } && message@
            == "Need at least 2 player characters on field to QTE swap!"@ && final(units)@ == old(
            units,
        )@ && *final(state) == *old(state) && *final(stats) == *old(stats)),
        two_heroes(old(units)@) ==> (r matches SwapOutcome::Swapped { partner, at, message } && {
            let a = old(units)@[active as int];
            let b = old(units)@[partner as int];
            &&& swap_partner(old(units)@, a.entity, partner as int)
            &&& partner != active
            &&& at == a.position->0
            &&& final(units)@ == old(units)@.update(active as int, UnitRecord { position: b.position, ..a }).update(
                partner as int,
                UnitRecord { position: a.position, ..b },
            )
            &&& *final(state) == (GameState {
                concert_energy: 0,
                selected_entity: Some(b.entity),
                ..*old(state)
            })
            &&& message@ == swap_message(b.class->0, a.class->0, a.position->0)
            &&& *final(stats) == (BattleStats { total_swaps: (old(stats).total_swaps + 1) as u32, ..*old(stats) })
        }),
{
    let n = units.len();
    let me = units[active];
    let mut heroes: usize = 0;
    let mut above: Option<usize> = None;
    let mut lowest: Option<usize> = None;
    let mut k: usize = 0;
    while k < n
        invariant
            k <= n,
            n == units@.len(),
            active < n,
            me == units@[active as int],
            heroes <= k,
            heroes == 0 ==> forall|j: int| 0 <= j < k ==> !hero(#[trigger] units@[j]),
            heroes >= 1 ==> exists|j: int| 0 <= j < k && hero(#[trigger] units@[j]),
            heroes >= 2 ==> two_heroes(units@),
            heroes <= 1 ==> forall|i: int, j: int|
                0 <= i < j < k ==> !(hero(#[trigger] units@[i]) && hero(#[trigger] units@[j])),
            match above {
                None => forall|j: int|
                    0 <= j < k && hero(#[trigger] units@[j]) ==> !entity_lt(me.entity, units@[j].entity),
                Some(b) => b < k && hero(units@[b as int]) && entity_lt(me.entity, units@[b as int].entity)
                    && forall|j: int|
                    0 <= j < k && hero(#[trigger] units@[j]) && entity_lt(me.entity, units@[j].entity)
                        ==> !entity_lt(units@[j].entity, units@[b as int].entity),
            },
            match lowest {
                None => heroes == 0,
                Some(b) => b < k && hero(units@[b as int]) && forall|j: int|
                    0 <= j < k && hero(#[trigger] units@[j]) ==> !entity_lt(
                        units@[j].entity,
                        units@[b as int].entity,
                    ),
            },
        decreases n - k,
    {
        let u = units[k];
        if u.team == Some(Team::Player) {
            proof {
                if heroes >= 1 {
                    let j = choose|j: int| 0 <= j < k && hero(#[trigger] units@[j]);
                    assert(hero(units@[j]) && hero(units@[k as int]));
                }
            }
            heroes = if heroes < 2 {
                heroes + 1
            } else {
                heroes
            };
            if me.entity.precedes(&u.entity) {
                match above {
                    None => {
                        above = Some(k);
                    },
                    Some(b) => {
                        if u.entity.precedes(&units[b].entity) {
                            above = Some(k);
                        }
                    },
                }
            }
            match lowest {
                None => {
                    lowest = Some(k);
                },
                Some(b) => {
                    if u.entity.precedes(&units[b].entity) {
                        lowest = Some(k);
                    }
                },
            }
        }
        k = k + 1;
    }
    if heroes < 2 {
        return SwapOutcome::NotEnoughHeroes {
            message: String::from_str("Need at least 2 player characters on field to QTE swap!"),
        };
    }
    let partner = match above {
        Some(b) => b,
        None => lowest.unwrap(),
    };
    assert(swap_partner(units@, me.entity, partner as int));
    assert(partner != active) by {
        if partner == active {
            if above is Some {
                assert(entity_lt(me.entity, me.entity));
            } else {
                let (i, j) = choose|i: int, j: int|
                    0 <= i < j < units@.len() && hero(#[trigger] units@[i]) && hero(#[trigger] units@[j]);
                let other = if i == active as int {
                    j
                } else {
                    i
                };
                assert(hero(units@[other]));
                assert(units@[other].entity != me.entity);
                assert(!entity_lt(me.entity, units@[other].entity));
                assert(!entity_lt(units@[other].entity, me.entity));
            }
        }
    }
    let them = units[partner];
    let at = me.position.unwrap();
    units.set(active, UnitRecord { position: them.position, ..me });
    units.set(partner, UnitRecord { position: me.position, ..them });
    state.concert_energy = 0;
    state.selected_entity = Some(them.entity);
    stats.total_swaps = stats.total_swaps + 1;
    let mut message = String::new();
    push_str(&mut message, "[fg:9933FF][b]QTE Swap![/] [fg:E6E600]");
    push_str(&mut message, get_class_name(them.class.unwrap()));
    push_str(&mut message, "[/] swaps in for [fg:CCCCCC]");
    push_str(&mut message, get_class_name(me.class.unwrap()));
    push_str(&mut message, "[/] at (");
    push_int(&mut message, at.x as i64);
    push_str(&mut message, ", ");
    push_int(&mut message, at.y as i64);
    push_str(&mut message, ")!");
    SwapOutcome::Swapped { partner, at, message }
}

/// An enemy standing on the map.
pub open spec fn enemy_on_map(u: UnitRecord) -> bool {
    u.team == Some(Team::Enemy) && u.position is Some
}

/// The incoming hero's entrance strikes the unit: a warrior's reaches the
/// enemies on the eight cells round `at`, a mage's the enemies up to two
/// cells away in its row or column.
pub open spec fn entrance_hits(class: CharacterClass, at: Position, u: UnitRecord) -> bool {
    enemy_on_map(u) && {
        let dx = abs_int(u.position->0.x - at.x);
        let dy = abs_int(u.position->0.y - at.y);
        match class {
            CharacterClass::Warrior => dx <= 1 && dy <= 1,
            CharacterClass::Mage => (dx == 0 && dy <= 2) || (dy == 0 && dx <= 2),
            _ => false,
        }
    }
}

/// The damage of a class's entrance: 20 for a warrior, 30 for a mage.
pub open spec fn entrance_damage(class: CharacterClass) -> int {
    if class == CharacterClass::Warrior {
        20
    } else {
        30
    }
}

/// A unit after the incoming hero's entrance: struck enemies lose its damage,
/// and a healer's entrance heals every hero by 40, up to its maximum.
pub open spec fn after_entrance(class: CharacterClass, at: Position, u: UnitRecord) -> UnitRecord {
    if entrance_hits(class, at, u) {
        UnitRecord {
            stats: match u.stats {
                Some(s) => Some(Stats { hp: (s.hp - entrance_damage(class)) as i32, ..s }),
                None => None,
            },
            ..u
        }
    } else if class == CharacterClass::Healer && hero(u) {
        UnitRecord {
            stats: match u.stats {
                Some(s) => Some(healed_stats(s, 40)),
                None => None,
            },
            ..u
        }
    } else {
        u
    }
}

/// The HP a unit is left with after the entrance, 0 when it has no stats.
pub open spec fn hp_after(u: UnitRecord, class: CharacterClass, at: Position) -> int {
    match after_entrance(class, at, u).stats {
        Some(s) => s.hp as int,
        None => 0,
    }
}

/// The log line for unit `u` in the entrance, if it is struck or healed.
pub open spec fn entrance_line(class: CharacterClass, at: Position, u: UnitRecord) -> Option<Seq<char>> {
    if entrance_hits(class, at, u) {
        Some(
            (if class == CharacterClass::Warrior {
                "Cloud Slasher hit "@
            } else {
                "Lightning Storm hit "@
            }) + class_name(u.class->0) + " for "@ + decimal(entrance_damage(class)) + " damage! (HP: "@
                + decimal(hp_after(u, class, at)) + ")"@,
        )
    } else if class == CharacterClass::Healer && hero(u) {
        Some(
            "Holy Aura healed "@ + class_name(
                if u.stats is Some {
                    u.class->0
                } else {
                    CharacterClass::Warrior
                },
            ) + " for 40 HP! (HP: "@ + decimal(hp_after(u, class, at)) + ")"@,
        )
    } else {
        None
    }
}

/// The entrance's log lines for the first `k` units.
pub open spec fn entrance_log(units: Seq<UnitRecord>, class: CharacterClass, at: Position, k: int) -> Seq<Seq<char>>
    decreases k,
{
    if k <= 0 {
        Seq::empty()
    } else {
        match entrance_line(class, at, units[k - 1]) {
            Some(l) => entrance_log(units, class, at, k - 1).push(l),
            None => entrance_log(units, class, at, k - 1),
        }
    }
}

/// The line that announces a class's entrance skill, if it has one.
pub open spec fn entrance_title(class: CharacterClass) -> Option<Seq<char>> {
    match class {
        CharacterClass::Warrior => Some("Warrior Intro Skill: Cloud Slasher!"@),
        CharacterClass::Mage => Some("Mage Intro Skill: Lightning Storm!"@),
        CharacterClass::Healer => Some("Healer Intro Skill: Holy Aura!"@),
        _ => None,
    }
}

/// The entrance can be applied without overflow or a missing class.
pub open spec fn entrance_fits(units: Seq<UnitRecord>, class: CharacterClass, at: Position) -> bool {
    forall|i: int|
        0 <= i < units.len() ==> {
            let u = #[trigger] units[i];
            &&& (enemy_on_map(u) ==> i16::MIN < u.position->0.x - at.x <= i16::MAX && i16::MIN < u.position->0.y
                - at.y <= i16::MAX)
            &&& (entrance_hits(class, at, u) ==> u.class is Some && (u.stats matches Some(s) ==> s.hp - 30
                >= i32::MIN))
            &&& (class == CharacterClass::Healer && hero(u) ==> (u.stats matches Some(s) ==> u.class is Some
                && s.hp + 40 <= i32::MAX))
        }
}

/// The incoming hero's entrance skill after a swap at `at`: a warrior's
/// Cloud Slasher deals 20 to the enemies on the cells round `at`, a mage's
/// Lightning Storm deals 30 to the enemies up to two cells away in its row
/// or column, and a healer's Holy Aura heals every hero by 40, up to its
/// maximum. The log lines come back in order, the skill's name first.
pub fn swap_entrance(units: &mut Vec<UnitRecord>, class: CharacterClass, at: Position) -> (r: Vec<String>)
    requires
        entrance_fits(old(units)@, class, at),
    ensures
        final(units)@ == old(units)@.map_values(|u: UnitRecord| after_entrance(class, at, u)),
        r@.map_values(|s: String| s@) == match entrance_title(class) {
            Some(t) => seq![t] + entrance_log(old(units)@, class, at, old(units)@.len() as int),
            None => Seq::empty(),
        },
{
    let mut log: Vec<String> = Vec::new();
    let title: &str = match class {
        CharacterClass::Warrior => "Warrior Intro Skill: Cloud Slasher!",
        CharacterClass::Mage => "Mage Intro Skill: Lightning Storm!",
        CharacterClass::Healer => "Healer Intro Skill: Holy Aura!",
        _ => {
            assert(old(units)@.map_values(|u: UnitRecord| after_entrance(class, at, u)) =~= units@);
            return log;
        },
    };
    log.push(String::from_str(title));
    let n = units.len();
    let mut k: usize = 0;
    while k < n
        invariant
            k <= n,
            n == units@.len(),
            n == old(units)@.len(),
            entrance_title(class) is Some,
            entrance_fits(old(units)@, class, at),
            forall|i: int| 0 <= i < k ==> #[trigger] units@[i] == after_entrance(class, at, old(units)@[i]),
            forall|i: int| k <= i < n ==> #[trigger] units@[i] == old(units)@[i],
            log@.map_values(|s: String| s@) == seq![entrance_title(class)->0] + entrance_log(
                old(units)@,
                class,
                at,
                k as int,
            ),
        decreases n - k,
    {
        let u = units[k];
        assert(u == old(units)@[k as int]);
        let ghost before = log@.map_values(|s: String| s@);
        let mut hit = false;
        if u.team == Some(Team::Enemy) {
            if let Some(p) = u.position {
                let dx: i16 = if p.x >= at.x { p.x - at.x } else { at.x - p.x };
                let dy: i16 = if p.y >= at.y { p.y - at.y } else { at.y - p.y };
                hit = match class {
                    CharacterClass::Warrior => dx <= 1 && dy <= 1,
                    CharacterClass::Mage => (dx == 0 && dy <= 2) || (dy == 0 && dx <= 2),
                    _ => false,
                };
            }
        }
        assert(hit == entrance_hits(class, at, u));
        if hit {
            let damage: i32 = if class == CharacterClass::Warrior { 20 } else { 30 };
            let (stats, hp) = match u.stats {
                Some(s) => (Some(Stats { hp: s.hp - damage, ..s }), s.hp - damage),
                None => (None, 0),
            };
            units.set(k, UnitRecord { stats, ..u });
            let mut line = String::new();
            push_str(&mut line, if class == CharacterClass::Warrior { "Cloud Slasher hit " } else { "Lightning Storm hit " });
            push_str(&mut line, get_class_name(u.class.unwrap()));
            push_str(&mut line, " for ");
            push_int(&mut line, damage as i64);
            push_str(&mut line, " damage! (HP: ");
            push_int(&mut line, hp as i64);
            push_str(&mut line, ")");
            log.push(line);
            assert(log@.map_values(|s: String| s@) =~= before.push(entrance_line(class, at, u)->0));
        } else if class == CharacterClass::Healer && u.team == Some(Team::Player) {
            let (stats, hp, named) = match u.stats {
                Some(s) => {
                    let raised = s.hp + 40;
                    let h = if s.max_hp < raised { s.max_hp } else { raised };
                    (Some(Stats { hp: h, ..s }), h, u.class.unwrap())
                },
                None => (None, 0, CharacterClass::Warrior),
            };
            units.set(k, UnitRecord { stats, ..u });
            let mut line = String::new();
            push_str(&mut line, "Holy Aura healed ");
            push_str(&mut line, get_class_name(named));
            push_str(&mut line, " for 40 HP! (HP: ");
            push_int(&mut line, hp as i64);
            push_str(&mut line, ")");
            log.push(line);
            assert(log@.map_values(|s: String| s@) =~= before.push(entrance_line(class, at, u)->0));
        }
        k = k + 1;
    }
    assert(units@ =~= old(units)@.map_values(|u: UnitRecord| after_entrance(class, at, u)));
    log
}

} // verus!
