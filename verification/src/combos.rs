use vstd::prelude::*;

use crate::battle_preview::UnitRecord;
use crate::combat::{build_concert_energy, energy_after, energy_message, healed_stats};
use crate::components::{
    CharacterClass, ComboSkill, ComboSkillDef, ElementalShield, ShieldType, Stats, Team, class_name,
    combo_table, get_class_name,
};
use crate::geometry::{Entity, Position, manhattan, manhattan_distance};
use crate::text::{decimal, push_int, push_str};

verus! {

// ------------------------------------------------------------------
// Combo skills: power and targets
// ------------------------------------------------------------------

/// The summed attack of the first `k` participants that have stats.
pub open spec fn attack_sum(ps: Seq<UnitRecord>, k: int) -> int
    decreases k,
{
    if k <= 0 {
        0
    } else {
        attack_sum(ps, k - 1) + match ps[k - 1].stats {
            Some(s) => s.atk as int,
            None => 0,
        }
    }
}

/// Every partial sum of the participants' attack fits in an `i32`.
pub open spec fn attack_sums_fit(ps: Seq<UnitRecord>) -> bool {
    forall|k: int| 0 <= k <= ps.len() ==> i32::MIN <= #[trigger] attack_sum(ps, k) <= i32::MAX
}

/// The combined attack of a combo's participants, the power its figures start from.
pub fn combo_power(participants: &[UnitRecord]) -> (r: i32)
    requires
        attack_sums_fit(participants@),
    ensures
        r == attack_sum(participants@, participants@.len() as int),
{
    let n = participants.len();
    let mut total: i32 = 0;
    let mut k: usize = 0;
    while k < n
        invariant
            k <= n,
            n == participants@.len(),
            attack_sums_fit(participants@),
            total == attack_sum(participants@, k as int),
        decreases n - k,
    {
        assert(i32::MIN <= attack_sum(participants@, k + 1) <= i32::MAX);
        match participants[k].stats {
            Some(s) => {
                total = total + s.atk;
            },
            None => {},
        }
        k = k + 1;
    }
    total
}

/// The damage a combo does to a target before the dice: the combo's damage
/// less the target's defence, at least 1.
pub fn combo_base_damage(damage: i32, defence: i32) -> (r: i32)
    requires
        i32::MIN <= damage - defence <= i32::MAX,
    ensures
        r == if damage - defence > 1 {
            damage - defence
        } else {
            1
        },
{
    let d = damage - defence;
    if d > 1 {
        d
    } else {
        1
    }
}

/// A unit of the enemy team standing on the map.
pub open spec fn standing_enemy(u: UnitRecord) -> bool {
    u.team == Some(Team::Enemy) && u.position is Some
}

/// Some participant standing within `reach` of `p`.
pub open spec fn near_a_participant(ps: Seq<UnitRecord>, p: Position, reach: int) -> bool {
    exists|j: int|
        0 <= j < ps.len() && (#[trigger] ps[j]).position is Some && manhattan(ps[j].position->0, p)
            <= reach
}

/// The enemies a Blade Storm strikes among the first `k` units: those within
/// two cells of a participant, in the order of `units`.
pub open spec fn storm_targets(units: Seq<UnitRecord>, ps: Seq<UnitRecord>, k: int) -> Seq<(Entity, Position)>
    decreases k,
{
    if k <= 0 {
        Seq::empty()
    } else {
        let prev = storm_targets(units, ps, k - 1);
        let u = units[k - 1];
        if standing_enemy(u) && near_a_participant(ps, u.position->0, 2) {
            prev.push((u.entity, u.position->0))
        } else {
            prev
        }
    }
}

fn near_participant_exec(ps: &[UnitRecord], p: Position, reach: i32) -> (r: bool)
    ensures
        r == near_a_participant(ps@, p, reach as int),
{
    let n = ps.len();
    let mut j: usize = 0;
    while j < n
        invariant
            j <= n,
            n == ps@.len(),
            forall|i: int|
                0 <= i < j ==> !((#[trigger] ps@[i]).position is Some && manhattan(
                    ps@[i].position->0,
                    p,
                ) <= reach),
        decreases n - j,
    {
        match ps[j].position {
            Some(q) => {
                if manhattan_distance(q, p) <= reach {
                    assert(ps@[j as int].position is Some);
                    return true;
                }
            },
            None => {},
        }
        j = j + 1;
    }
    false
}

/// The enemies a Blade Storm strikes: every enemy within two cells of a participant.
pub fn blade_storm_targets(units: &[UnitRecord], participants: &[UnitRecord]) -> (r: Vec<
    (Entity, Position),
>)
    ensures
        r@ == storm_targets(units@, participants@, units@.len() as int),
{
    let n = units.len();
    let mut out: Vec<(Entity, Position)> = Vec::new();
    let mut k: usize = 0;
    while k < n
        invariant
            k <= n,
            n == units@.len(),
            out@ == storm_targets(units@, participants@, k as int),
        decreases n - k,
    {
        let u = units[k];
        if u.team == Some(Team::Enemy) {
            match u.position {
                Some(p) => {
                    if near_participant_exec(participants, p, 2) {
                        out.push((u.entity, p));
                    }
                },
                None => {},
            }
        }
        k = k + 1;
    }
    out
}

/// Index of the first enemy among the first `k` units that stands on
/// `cursor` with a participant within `reach`.
pub open spec fn aimed_target(units: Seq<UnitRecord>, ps: Seq<UnitRecord>, cursor: Position, reach: int, k: int) -> Option<int>
    decreases k,
{
    if k <= 0 {
        None
    } else {
        match aimed_target(units, ps, cursor, reach, k - 1) {
            Some(i) => Some(i),
            None => if units[k - 1].team == Some(Team::Enemy) && units[k - 1].position == Some(cursor)
                && near_a_participant(ps, cursor, reach) {
                Some(k - 1)
            } else {
                None
            },
        }
    }
}

proof fn lemma_aimed_target_range(units: Seq<UnitRecord>, ps: Seq<UnitRecord>, cursor: Position, reach: int, k: int)
    ensures
        aimed_target(units, ps, cursor, reach, k) matches Some(i) ==> 0 <= i < k,
    decreases k,
{
    if k > 0 {
        lemma_aimed_target_range(units, ps, cursor, reach, k - 1);
    }
}

/// The enemy a Holy Smite (reach 2) or a Trinity Strike (reach 3) hits: the
/// first enemy on the cursor's cell with a participant within reach.
pub fn combo_target_at(units: &[UnitRecord], participants: &[UnitRecord], cursor: Position, reach: i32) -> (r:
    Option<(Entity, Position)>)
    ensures
        match aimed_target(units@, participants@, cursor, reach as int, units@.len() as int) {
            Some(i) => r == Some((units@[i].entity, cursor)),
            None => r is None,
        },
{
    let n = units.len();
    let mut k: usize = 0;
    while k < n
        invariant
            k <= n,
            n == units@.len(),
            aimed_target(units@, participants@, cursor, reach as int, k as int) is None,
        decreases n - k,
    {
        let u = units[k];
        if u.team == Some(Team::Enemy) && u.position == Some(cursor) && near_participant_exec(
            participants,
            cursor,
            reach,
        ) {
            proof {
                assert(aimed_target(units@, participants@, cursor, reach as int, k + 1) == Some(
                    k as int,
                ));
                lemma_aimed_stays(units@, participants@, cursor, reach as int, k + 1, n as int);
            }
            return Some((u.entity, cursor));
        }
        k = k + 1;
    }
    None
}

proof fn lemma_aimed_stays(units: Seq<UnitRecord>, ps: Seq<UnitRecord>, cursor: Position, reach: int, k: int, m: int)
    requires
        k <= m,
        aimed_target(units, ps, cursor, reach, k) is Some,
    ensures
        aimed_target(units, ps, cursor, reach, m) == aimed_target(units, ps, cursor, reach, k),
    decreases m - k,
{
    if k < m {
        lemma_aimed_stays(units, ps, cursor, reach, k, m - 1);
    }
}

// ------------------------------------------------------------------
// Arcane Sanctuary
// ------------------------------------------------------------------

/// The HP each hero recovers in an Arcane Sanctuary.
pub open spec fn sanctuary_healing() -> int {
    15
}

/// A hero's shield after a sanctuary of strength `power`: a shield it has
/// grows by `power` (its maximum too); otherwise it gets a physical one.
pub open spec fn sanctuary_shield(s: Option<ElementalShield>, power: int) -> ElementalShield {
    match s {
        Some(sh) => ElementalShield {
            amount: (sh.amount + power) as i32,
            max_amount: (sh.max_amount + power) as i32,
            ..sh
        },
        None => ElementalShield { shield_type: ShieldType::Physical, amount: power as i32, max_amount: power as i32 },
    }
}

/// The log line for a hero of class `class` in a sanctuary of strength `power`.
pub open spec fn sanctuary_message(class: CharacterClass, power: int) -> Seq<char> {
    "Arcane Sanctuary: "@ + class_name(class) + " shielded for "@ + decimal(power) + " and healed for "@
        + decimal(sanctuary_healing()) + "!"@
}

/// The class a log line names a unit by (a warrior's when it has none).
pub open spec fn named_class(u: UnitRecord) -> CharacterClass {
    match u.class {
        Some(c) => c,
        None => CharacterClass::Warrior,
    }
}

/// The log lines of a sanctuary over the first `k` units: one per hero.
pub open spec fn sanctuary_log(units: Seq<UnitRecord>, power: int, k: int) -> Seq<Seq<char>>
    decreases k,
{
    if k <= 0 {
        Seq::empty()
    } else if units[k - 1].team == Some(Team::Player) {
        sanctuary_log(units, power, k - 1).push(sanctuary_message(named_class(units[k - 1]), power))
    } else {
        sanctuary_log(units, power, k - 1)
    }
}

/// A sanctuary's numbers can be added to every hero's without overflow.
pub open spec fn sanctuary_fits(units: Seq<UnitRecord>, shields: Seq<Option<ElementalShield>>, power: int) -> bool {
    forall|i: int|
        0 <= i < units.len() && (#[trigger] units[i]).team == Some(Team::Player) ==> {
            &&& (units[i].stats matches Some(s) ==> s.hp + sanctuary_healing() <= i32::MAX)
            &&& (shields[i] matches Some(sh) ==> i32::MIN <= sh.amount + power <= i32::MAX && i32::MIN
                <= sh.max_amount + power <= i32::MAX)
        }
}

/// Arcane Sanctuary of strength `power` (the participants' summed attack):
/// every hero's shield grows by `power`, or the hero gets a physical shield
/// of `power`, and every hero recovers 15 HP up to its maximum. `shields[i]`
/// is the shield `units[i]` carries. One log line per hero is returned.
pub fn arcane_sanctuary(
    units: &mut Vec<UnitRecord>,
    shields: &mut Vec<Option<ElementalShield>>,
    power: i32,
) -> (r: Vec<String>)
    requires
        old(shields)@.len() == old(units)@.len(),
        sanctuary_fits(old(units)@, old(shields)@, power as int),
    ensures
        final(units)@.len() == old(units)@.len(),
        final(shields)@.len() == old(shields)@.len(),
        forall|i: int|
            0 <= i < old(units)@.len() ==> {
                let u = #[trigger] old(units)@[i];
                if u.team == Some(Team::Player) {
                    &&& final(units)@[i] == UnitRecord {
                        stats: match u.stats {
                            Some(s) => Some(healed_stats(s, sanctuary_healing())),
                            None => None,
                        },
                        ..u
                    }
                    &&& final(shields)@[i] == Some(sanctuary_shield(old(shields)@[i], power as int))
                } else {
                    &&& final(units)@[i] == u
                    &&& final(shields)@[i] == old(shields)@[i]
                }
            },
        r@.map_values(|s: String| s@) == sanctuary_log(old(units)@, power as int, old(units)@.len() as int),
{
    let n = units.len();
    let mut log: Vec<String> = Vec::new();
    let mut k: usize = 0;
    while k < n
        invariant
            k <= n,
            n == units@.len(),
            n == old(units)@.len(),
            shields@.len() == n,
            old(shields)@.len() == n,
            sanctuary_fits(old(units)@, old(shields)@, power as int),
            forall|i: int|
                0 <= i < k ==> {
                    let u = #[trigger] old(units)@[i];
                    if u.team == Some(Team::Player) {
                        &&& units@[i] == UnitRecord {
                            stats: match u.stats {
                                Some(s) => Some(healed_stats(s, sanctuary_healing())),
                                None => None,
                            },
                            ..u
                        }
                        &&& shields@[i] == Some(sanctuary_shield(old(shields)@[i], power as int))
                    } else {
                        &&& units@[i] == u
                        &&& shields@[i] == old(shields)@[i]
                    }
                },
            forall|i: int| k <= i < n ==> #[trigger] units@[i] == old(units)@[i] && shields@[i] == old(
                shields,
            )@[i],
            log@.map_values(|s: String| s@) == sanctuary_log(old(units)@, power as int, k as int),
        decreases n - k,
    {
        let u = units[k];
        assert(u == old(units)@[k as int]);
        if u.team == Some(Team::Player) {
            let shield = match shields[k] {
                Some(sh) => ElementalShield {
                    amount: sh.amount + power,
                    max_amount: sh.max_amount + power,
                    ..sh
                },
                None => ElementalShield {
                    shield_type: ShieldType::Physical,
                    amount: power,
                    max_amount: power,
                },
            };
            shields.set(k, Some(shield));
            let stats = match u.stats {
                Some(s) => {
                    let raised = s.hp + 15;
                    Some(
                        Stats {
                            hp: if s.max_hp < raised {
                                s.max_hp
                            } else {
                                raised
                            },
                            ..s
                        },
                    )
                },
                None => None,
            };
            units.set(k, UnitRecord { stats, ..u });
            let class = match u.class {
                Some(c) => c,
                None => CharacterClass::Warrior,
            };
            let mut line = String::new();
            push_str(&mut line, "Arcane Sanctuary: ");
            push_str(&mut line, get_class_name(class));
            push_str(&mut line, " shielded for ");
            push_int(&mut line, power as i64);
            push_str(&mut line, " and healed for ");
            push_int(&mut line, 15);
            push_str(&mut line, "!");
            let ghost before = log@.map_values(|s: String| s@);
            log.push(line);
            assert(log@.map_values(|s: String| s@) =~= before.push(
                sanctuary_message(class, power as int),
            ));
        }
        k = k + 1;
    }
    log
}

// ------------------------------------------------------------------
// Paying for a combo
// ------------------------------------------------------------------

/// Every participant (an index into the units) has stats with at least `cost` AP.
pub open spec fn all_can_pay(units: Seq<UnitRecord>, ps: Seq<usize>, cost: int) -> bool {
    forall|j: int|
        0 <= j < ps.len() ==> ((#[trigger] units[ps[j] as int]).stats matches Some(s) && s.ap >= cost)
}

/// Unit `i` takes part in the combo.
pub open spec fn takes_part(ps: Seq<usize>, i: int) -> bool {
    exists|j: int| 0 <= j < ps.len() && ps[j] as int == i
}

/// What a combo does to its participants once carried out: each pays the
/// combo's AP cost (3 for Blade Storm, 2 for Holy Smite, 3 for Arcane
/// Sanctuary, 4 for Trinity Strike).
pub open spec fn after_payment(u: UnitRecord, paid: bool, cost: int) -> UnitRecord {
    if paid {
        UnitRecord {
            stats: match u.stats {
                Some(s) => Some(Stats { ap: (s.ap - cost) as i32, ..s }),
                None => None,
            },
            ..u
        }
    } else {
        u
    }
}

/// Whether the participants can pay for combo `skill`: each must have stats
/// with at least its AP cost.
pub fn combo_affordable(units: &Vec<UnitRecord>, participants: &Vec<usize>, skill: ComboSkill) -> (r: bool)
    requires
        forall|j: int| 0 <= j < participants@.len() ==> #[trigger] participants@[j] < units@.len(),
    ensures
        r == all_can_pay(units@, participants@, combo_table(skill).2),
{
    let cost = ComboSkillDef::for_skill(&skill).ap_cost;
    let n = participants.len();
    let mut j: usize = 0;
    while j < n
        invariant
            j <= n,
            n == participants@.len(),
            cost == combo_table(skill).2,
            forall|q: int| 0 <= q < participants@.len() ==> #[trigger] participants@[q] < units@.len(),
            forall|q: int|
                0 <= q < j ==> ((#[trigger] units@[participants@[q] as int]).stats matches Some(s)
                    && s.ap >= cost),
        decreases n - j,
    {
        match units[participants[j]].stats {
            Some(s) => {
                if s.ap < cost {
                    return false;
                }
            },
            None => {
                return false;
            },
        }
        j = j + 1;
    }
    true
}

/// After a combo: every participant pays the combo's AP cost, and the
/// concert energy grows by 50, up to 100. The participants are distinct units.
pub fn pay_for_combo(units: &mut Vec<UnitRecord>, participants: &Vec<usize>, energy: &mut u32, skill: ComboSkill) -> (msg: String)
    requires
        forall|j: int| 0 <= j < participants@.len() ==> #[trigger] participants@[j] < old(units)@.len(),
        forall|a: int, b: int|
            0 <= a < b < participants@.len() ==> #[trigger] participants@[a] != #[trigger] participants@[b],
        forall|j: int|
            0 <= j < participants@.len() ==> ((#[trigger] old(units)@[participants@[j] as int]).stats
                matches Some(s) ==> s.ap - combo_table(skill).2 >= i32::MIN),
        *old(energy) + 50 <= u32::MAX,
    ensures
        final(units)@.len() == old(units)@.len(),
        forall|i: int|
            0 <= i < old(units)@.len() ==> #[trigger] final(units)@[i] == after_payment(
                old(units)@[i],
                takes_part(participants@, i),
                combo_table(skill).2,
            ),
        *final(energy) == energy_after(*old(energy) as int, 50),
        msg@ == energy_message(*final(energy) as int),
{
    let cost = ComboSkillDef::for_skill(&skill).ap_cost;
    let n = participants.len();
    let mut j: usize = 0;
    while j < n
        invariant
            j <= n,
            n == participants@.len(),
            cost == combo_table(skill).2,
            units@.len() == old(units)@.len(),
            forall|q: int| 0 <= q < participants@.len() ==> #[trigger] participants@[q] < old(units)@.len(),
            forall|a: int, b: int|
                0 <= a < b < participants@.len() ==> #[trigger] participants@[a] != #[trigger] participants@[b],
            forall|q: int|
                0 <= q < participants@.len() ==> ((#[trigger] old(units)@[participants@[q] as int]).stats
                    matches Some(s) ==> s.ap - cost >= i32::MIN),
            forall|i: int|
                0 <= i < old(units)@.len() ==> #[trigger] units@[i] == after_payment(
                    old(units)@[i],
                    exists|q: int| 0 <= q < j && participants@[q] as int == i,
                    cost as int,
                ),
        decreases n - j,
    {
        let i = participants[j];
        let u = units[i];
        proof {
            assert(!(exists|q: int| 0 <= q < j && participants@[q] as int == i as int)) by {
                if exists|q: int| 0 <= q < j && participants@[q] as int == i as int {
                    let q = choose|q: int| 0 <= q < j && participants@[q] as int == i as int;
                    assert(participants@[q] != participants@[j as int]);
                }
            }
            assert(u == old(units)@[i as int]);
        }
        match u.stats {
            Some(s) => {
                units.set(i, UnitRecord { stats: Some(Stats { ap: s.ap - cost, ..s }), ..u });
            },
            None => {},
        }
        proof {
            assert forall|k: int| 0 <= k < old(units)@.len() implies #[trigger] units@[k] == after_payment(
                old(units)@[k],
                exists|q: int| 0 <= q < j + 1 && participants@[q] as int == k,
                cost as int,
            ) by {
                if k == i as int {
                    assert(0 <= j < j + 1 && participants@[j as int] as int == k);
                } else {
                    if exists|q: int| 0 <= q < j + 1 && participants@[q] as int == k {
                        let q = choose|q: int| 0 <= q < j + 1 && participants@[q] as int == k;
                        assert(q != j);
                    }
                }
            }
        }
        j = j + 1;
    }
    build_concert_energy(energy, 50)
}

} // verus!
