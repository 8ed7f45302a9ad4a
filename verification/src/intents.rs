use vstd::prelude::*;

use crate::battle_preview::{BattlePreview, UnitRecord};
use crate::components::{
    AIArchetype, EnemyIntent, EnemyIntentions, IntentType, Stats, Team, TelegraphZone, class_name,
    get_class_name,
};
use crate::geometry::{Entity, Position, manhattan, manhattan_distance};
use crate::text::{decimal, push_digits, push_int, push_str};

verus! {

/// What an intent says, as plain values: the acting unit, the kind of action,
/// its target cell, the predicted damage (negative for healing) and the text.
pub type IntentView = (Entity, IntentType, Option<Position>, int, Seq<char>);

pub open spec fn intent_view(i: EnemyIntent) -> IntentView {
    (i.entity, i.intent_type, i.target, i.predicted_damage as int, i.description@)
}

/// `a * num / den` rounded toward zero, for a positive denominator.
pub open spec fn scaled_toward_zero(a: int, num: int, den: int) -> int {
    if a * num >= 0 {
        (a * num) / den
    } else {
        -((-(a * num)) / den)
    }
}

/// An enemy plans its turn when it has a position, a class and stats with
/// action points left.
pub open spec fn plans_turn(u: UnitRecord) -> bool {
    &&& u.position is Some
    &&& u.team == Some(Team::Enemy)
    &&& u.class is Some
    &&& u.stats is Some
    &&& u.stats->0.ap > 0
}

/// The archetype an enemy plays; chaser when it has none.
pub open spec fn archetype_of(u: UnitRecord) -> AIArchetype {
    match u.archetype {
        Some(a) => a,
        None => AIArchetype::Chaser,
    }
}

/// A player on the map (the coward keeps away from every one of them).
pub open spec fn placed_player(u: UnitRecord) -> bool {
    u.position is Some && u.team == Some(Team::Player)
}

/// A living player on the map (what a chaser goes for).
pub open spec fn living_player(u: UnitRecord) -> bool {
    placed_player(u) && u.stats is Some && u.stats->0.hp > 0
}

/// Index of the nearest living player among the first `k` records, the first
/// one on ties.
pub open spec fn nearest_living_player(units: Seq<UnitRecord>, from: Position, k: int) -> Option<int>
    decreases k,
{
    if k <= 0 {
        None
    } else {
        let prev = nearest_living_player(units, from, k - 1);
        let u = units[k - 1];
        if living_player(u) && match prev {
            None => true,
            Some(b) => manhattan(u.position->0, from) < manhattan(units[b].position->0, from),
        } {
            Some(k - 1)
        } else {
            prev
        }
    }
}

/// Distance to the nearest player among the first `k` records, and at most
/// `i16::MAX`.
pub open spec fn nearest_player_distance(units: Seq<UnitRecord>, from: Position, k: int) -> int
    decreases k,
{
    if k <= 0 {
        i16::MAX as int
    } else {
        let prev = nearest_player_distance(units, from, k - 1);
        let u = units[k - 1];
        if placed_player(u) && manhattan(u.position->0, from) < prev {
            manhattan(u.position->0, from)
        } else {
            prev
        }
    }
}

/// Health fraction with a positive denominator, for a nonzero maximum.
pub open spec fn signed_fraction(s: Stats) -> (int, int) {
    if s.max_hp > 0 {
        (s.hp as int, s.max_hp as int)
    } else {
        (-(s.hp as int), -(s.max_hp as int))
    }
}

pub open spec fn below(a: (int, int), b: (int, int)) -> bool {
    a.0 * b.1 < b.0 * a.1
}

/// A wounded fellow enemy of `me`: alive, with its health below half of its
/// (nonzero) maximum.
pub open spec fn wounded_ally(u: UnitRecord, me: Entity) -> bool {
    &&& u.position is Some
    &&& u.team == Some(Team::Enemy)
    &&& u.entity != me
    &&& u.stats is Some
    &&& u.stats->0.hp > 0
    &&& u.stats->0.max_hp != 0
    &&& below(signed_fraction(u.stats->0), (1, 2))
}

/// Index of the wounded ally with the lowest health fraction among the first
/// `k` records, the first one on ties.
pub open spec fn neediest_ally(units: Seq<UnitRecord>, me: Entity, k: int) -> Option<int>
    decreases k,
{
    if k <= 0 {
        None
    } else {
        let prev = neediest_ally(units, me, k - 1);
        let u = units[k - 1];
        if wounded_ally(u, me) && match prev {
            None => true,
            Some(b) => below(signed_fraction(u.stats->0), signed_fraction(units[b].stats->0)),
        } {
            Some(k - 1)
        } else {
            prev
        }
    }
}

pub open spec fn at_text(p: Position) -> Seq<char> {
    " at ("@ + decimal(p.x as int) + ","@ + decimal(p.y as int) + ")"@
}

/// The intent of record `u` (one that plans its turn), if it has one.
pub open spec fn unit_intent(units: Seq<UnitRecord>, u: UnitRecord) -> Option<IntentView> {
    let name = class_name(u.class->0);
    let pos = u.position->0;
    let atk = u.stats->0.atk as int;
    match archetype_of(u) {
        AIArchetype::Chaser => match nearest_living_player(units, pos, units.len() as int) {
            Some(t) => {
                let tp = units[t].position->0;
                if manhattan(tp, pos) <= 1 {
                    Some(
                        (
                            u.entity,
                            IntentType::Attack,
                            Some(tp),
                            scaled_toward_zero(atk, 9, 10),
                            name + ": Attack nearest player"@ + at_text(tp),
                        ),
                    )
                } else {
                    Some(
                        (
                            u.entity,
                            IntentType::Move,
                            Some(tp),
                            0,
                            name + ": Move toward player"@ + at_text(tp),
                        ),
                    )
                }
            },
            None => None,
        },
        AIArchetype::Cleric => match neediest_ally(units, u.entity, units.len() as int) {
            Some(a) => {
                let heal = scaled_toward_zero(atk, 4, 5);
                Some(
                    (
                        u.entity,
                        IntentType::Heal,
                        units[a].position,
                        -heal,
                        name + ": Heal injured ally for ~"@ + decimal(heal) + " HP"@,
                    ),
                )
            },
            None => Some((u.entity, IntentType::Move, None, 0, name + ": Advance with allies"@)),
        },
        AIArchetype::Coward => if nearest_player_distance(units, pos, units.len() as int) <= 2 {
            Some((u.entity, IntentType::Move, None, 0, name + ": Retreat from player"@))
        } else {
            Some((u.entity, IntentType::Move, None, 0, name + ": Hold position (cautious)"@))
        },
        AIArchetype::Berserker => Some(
            (u.entity, IntentType::Attack, None, atk, name + ": Berserk attack"@),
        ),
        AIArchetype::Tactician => Some(
            (u.entity, IntentType::Move, None, 0, name + ": Tactical reposition"@),
        ),
        AIArchetype::Summoner => Some(
            (u.entity, IntentType::Summon, None, 0, name + ": Summon minion"@),
        ),
        AIArchetype::Assassin => Some(
            (u.entity, IntentType::Attack, None, atk * 2, name + ": Assassinate"@),
        ),
        AIArchetype::Defender => Some(
            (u.entity, IntentType::Defend, None, 0, name + ": Protecting allies"@),
        ),
    }
}

/// The intents of the first `k` records, in order.
pub open spec fn planned_intents(units: Seq<UnitRecord>, k: int) -> Seq<IntentView>
    decreases k,
{
    if k <= 0 {
        Seq::empty()
    } else {
        let prev = planned_intents(units, k - 1);
        let u = units[k - 1];
        if plans_turn(u) {
            match unit_intent(units, u) {
                Some(i) => prev.push(i),
                None => prev,
            }
        } else {
            prev
        }
    }
}

/// The boss's telegraphed attack, when it marks any cell.
pub open spec fn telegraph_intent(t: TelegraphZone) -> Seq<IntentView> {
    if t.tiles@.len() == 0 {
        Seq::empty()
    } else {
        seq![
            (
                Entity { index: u32::MAX, generation: 0 },
                IntentType::AoEAttack,
                Some(t.tiles@[0]),
                t.damage as int,
                "BOSS: Telegraphed AoE attack ("@ + decimal(t.damage as int) + " dmg) on "@
                    + decimal(t.tiles@.len() as int) + " tiles"@,
            ),
        ]
    }
}

/// The distances and damage figures of every planning enemy stay within the
/// 16-bit distances and 32-bit damage the preview computes with.
pub open spec fn intents_fit(units: Seq<UnitRecord>) -> bool {
    forall|i: int|
        0 <= i < units.len() && plans_turn(#[trigger] units[i]) ==> {
            let u = units[i];
            let pos = u.position->0;
            &&& archetype_of(u) == AIArchetype::Chaser ==> forall|j: int|
                0 <= j < units.len() && living_player(#[trigger] units[j]) ==> manhattan(
                    units[j].position->0,
                    pos,
                ) <= i16::MAX
            &&& archetype_of(u) == AIArchetype::Coward ==> forall|j: int|
                0 <= j < units.len() && placed_player(#[trigger] units[j]) ==> manhattan(
                    units[j].position->0,
                    pos,
                ) <= i16::MAX
            &&& archetype_of(u) == AIArchetype::Assassin ==> i32::MIN <= u.stats->0.atk * 2
                <= i32::MAX
        }
}

/// `|a * num / den| <= |a|` when `num < den`.
proof fn lemma_scaled_bound(a: int, num: int, den: int)
    requires
        0 < num < den,
    ensures
        a >= 0 ==> 0 <= scaled_toward_zero(a, num, den) <= a,
        a < 0 ==> a <= scaled_toward_zero(a, num, den) <= 0,
{
    let m = abs_of(a);
    vstd::arithmetic::mul::lemma_mul_inequality(num, den, m);
    vstd::arithmetic::div_mod::lemma_div_pos_is_pos(m * num, den);
    vstd::arithmetic::div_mod::lemma_div_is_ordered(m * num, m * den, den);
    vstd::arithmetic::div_mod::lemma_div_by_multiple(m, den);
    assert(m * num == num * m && m * den == den * m) by (nonlinear_arith);
    if a >= 0 {
        assert(a * num >= 0) by (nonlinear_arith)
            requires
                a >= 0,
                num > 0,
        ;
        assert(a * num == m * num);
    } else {
        assert(a * num < 0) by (nonlinear_arith)
            requires
                a < 0,
                num > 0,
        ;
        assert(-(a * num) == m * num) by (nonlinear_arith)
            requires
                m == -a,
        ;
    }
}

pub open spec fn abs_of(a: int) -> int {
    if a < 0 {
        -a
    } else {
        a
    }
}

fn scaled_exec(a: i32, num: i64, den: i64) -> (r: i32)
    requires
        0 < num < den <= 10,
    ensures
        r == scaled_toward_zero(a as int, num as int, den as int),
{
    assert(-30000000000 <= a * num <= 30000000000) by (nonlinear_arith)
        requires
            i32::MIN <= a <= i32::MAX,
            0 < num <= 10,
    ;
    let p: i64 = a as i64 * num;
    let q: i64 = p / den;
    proof {
        lemma_scaled_bound(a as int, num as int, den as int);
    }
    assert(q == scaled_toward_zero(a as int, num as int, den as int));
    q as i32
}

fn nearest_living_player_exec(units: &[UnitRecord], from: Position) -> (r: Option<usize>)
    ensures
        match r {
            Some(i) => nearest_living_player(units@, from, units@.len() as int) == Some(i as int)
                && i < units@.len() && living_player(units@[i as int]),
            None => nearest_living_player(units@, from, units@.len() as int) is None,
        },
{
    let n = units.len();
    let mut best: Option<usize> = None;
    let mut best_dist: i32 = 0;
    let mut k: usize = 0;
    while k < n
        invariant
            k <= n,
            n == units@.len(),
            match best {
                Some(i) => nearest_living_player(units@, from, k as int) == Some(i as int) && i < k
                    && living_player(units@[i as int]) && best_dist == manhattan(
                    units@[i as int].position->0,
                    from,
                ),
                None => nearest_living_player(units@, from, k as int) is None,
            },
        decreases n - k,
    {
        let u = units[k];
        if let (Some(p), Some(Team::Player), Some(s)) = (u.position, u.team, u.stats) {
            if s.hp > 0 {
                let d = manhattan_distance(p, from);
                let closer = match best {
                    None => true,
                    Some(_) => d < best_dist,
                };
                if closer {
                    best = Some(k);
                    best_dist = d;
                }
            }
        }
        k = k + 1;
    }
    best
}

fn nearest_player_distance_exec(units: &[UnitRecord], from: Position) -> (r: i32)
    ensures
        r == nearest_player_distance(units@, from, units@.len() as int),
{
    let n = units.len();
    let mut nearest: i32 = 32767;
    let mut k: usize = 0;
    while k < n
        invariant
            k <= n,
            n == units@.len(),
            nearest == nearest_player_distance(units@, from, k as int),
        decreases n - k,
    {
        let u = units[k];
        if let (Some(p), Some(Team::Player)) = (u.position, u.team) {
            let d = manhattan_distance(p, from);
            if d < nearest {
                nearest = d;
            }
        }
        k = k + 1;
    }
    nearest
}

fn signed_fraction_exec(s: &Stats) -> (r: (i64, i64))
    ensures
        r.0 == signed_fraction(*s).0,
        r.1 == signed_fraction(*s).1,
{
    if s.max_hp > 0 {
        (s.hp as i64, s.max_hp as i64)
    } else {
        (-(s.hp as i64), -(s.max_hp as i64))
    }
}

fn below_exec(a: (i64, i64), b: (i64, i64)) -> (r: bool)
    requires
        -2147483648 <= a.0 <= 2147483648,
        -2147483648 <= a.1 <= 2147483648,
        -2147483648 <= b.0 <= 2147483648,
        -2147483648 <= b.1 <= 2147483648,
    ensures
        r == below((a.0 as int, a.1 as int), (b.0 as int, b.1 as int)),
{
    let (an, ad) = a;
    let (bn, bd) = b;
    assert(-4611686018427387904 <= an * bd <= 4611686018427387904) by (nonlinear_arith)
        requires
            -2147483648 <= an <= 2147483648,
            -2147483648 <= bd <= 2147483648,
    ;
    assert(-4611686018427387904 <= bn * ad <= 4611686018427387904) by (nonlinear_arith)
        requires
            -2147483648 <= bn <= 2147483648,
            -2147483648 <= ad <= 2147483648,
    ;
    an * bd < bn * ad
}

fn neediest_ally_exec(units: &[UnitRecord], me: Entity) -> (r: Option<usize>)
    ensures
        match r {
            Some(i) => neediest_ally(units@, me, units@.len() as int) == Some(i as int) && i
                < units@.len(),
            None => neediest_ally(units@, me, units@.len() as int) is None,
        },
{
    let n = units.len();
    let mut best: Option<usize> = None;
    let mut k: usize = 0;
    while k < n
        invariant
            k <= n,
            n == units@.len(),
            match best {
                Some(i) => neediest_ally(units@, me, k as int) == Some(i as int) && i < k
                    && units@[i as int].stats is Some,
                None => neediest_ally(units@, me, k as int) is None,
            },
        decreases n - k,
    {
        let u = units[k];
        if let (Some(_), Some(Team::Enemy), Some(s)) = (u.position, u.team, u.stats) {
            if u.entity != me && s.hp > 0 && s.max_hp != 0 {
                let f = signed_fraction_exec(&s);
                if below_exec(f, (1, 2)) {
                    let lower = match best {
                        None => true,
                        Some(b) => {
                            let bs = units[b].stats.unwrap();
                            below_exec(f, signed_fraction_exec(&bs))
                        },
                    };
                    if lower {
                        best = Some(k);
                    }
                }
            }
        }
        k = k + 1;
    }
    best
}

fn push_at(s: &mut String, p: Position)
    ensures
        final(s)@ == old(s)@ + at_text(p),
{
    push_str(s, " at (");
    push_int(s, p.x as i64);
    push_str(s, ",");
    push_int(s, p.y as i64);
    push_str(s, ")");
    assert(final(s)@ =~= old(s)@ + at_text(p));
}

fn named(name: &str, what: &str) -> (s: String)
    ensures
        s@ == name@ + what@,
{
    let mut s = String::new();
    push_str(&mut s, name);
    push_str(&mut s, what);
    assert(s@ =~= name@ + what@);
    s
}

fn intent(
    entity: Entity,
    intent_type: IntentType,
    target: Option<Position>,
    predicted_damage: i32,
    description: String,
) -> (i: EnemyIntent)
    ensures
        intent_view(i) == (entity, intent_type, target, predicted_damage as int, description@),
{
    EnemyIntent { entity, intent_type, target, predicted_damage, description }
}

fn unit_intent_exec(units: &[UnitRecord], k: usize) -> (r: Option<EnemyIntent>)
    requires
        k < units@.len(),
        plans_turn(units@[k as int]),
        intents_fit(units@),
    ensures
        match r {
            Some(i) => unit_intent(units@, units@[k as int]) == Some(intent_view(i)),
            None => unit_intent(units@, units@[k as int]) is None,
        },
{
    let u = units[k];
    assert(plans_turn(units@[k as int]));
    let pos = u.position.unwrap();
    let stats = u.stats.unwrap();
    let class = u.class.unwrap();
    let name = get_class_name(class);
    let archetype = match u.archetype {
        Some(a) => a,
        None => AIArchetype::Chaser,
    };
    match archetype {
        AIArchetype::Chaser => {
            match nearest_living_player_exec(units, pos) {
                Some(t) => {
                    let tp = units[t].position.unwrap();
                    let d = manhattan_distance(tp, pos);
                    if d <= 1 {
                        let mut s = named(name, ": Attack nearest player");
                        push_at(&mut s, tp);
                        let dmg = scaled_exec(stats.atk, 9, 10);
                        assert(s@ =~= class_name(class) + ": Attack nearest player"@ + at_text(tp));
                        Some(intent(u.entity, IntentType::Attack, Some(tp), dmg, s))
                    } else {
                        let mut s = named(name, ": Move toward player");
                        push_at(&mut s, tp);
                        assert(s@ =~= class_name(class) + ": Move toward player"@ + at_text(tp));
                        Some(intent(u.entity, IntentType::Move, Some(tp), 0, s))
                    }
                },
                None => None,
            }
        },
        AIArchetype::Cleric => {
            match neediest_ally_exec(units, u.entity) {
                Some(a) => {
                    let heal = scaled_exec(stats.atk, 4, 5);
                    let mut s = named(name, ": Heal injured ally for ~");
                    push_int(&mut s, heal as i64);
                    push_str(&mut s, " HP");
                    assert(s@ =~= class_name(class) + ": Heal injured ally for ~"@ + decimal(
                        heal as int,
                    ) + " HP"@);
                    Some(intent(u.entity, IntentType::Heal, units[a].position, -heal, s))
                },
                None => Some(
                    intent(u.entity, IntentType::Move, None, 0, named(name, ": Advance with allies")),
                ),
            }
        },
        AIArchetype::Coward => {
            let d = nearest_player_distance_exec(units, pos);
            if d <= 2 {
                Some(
                    intent(u.entity, IntentType::Move, None, 0, named(name, ": Retreat from player")),
                )
            } else {
                Some(
                    intent(
                        u.entity,
                        IntentType::Move,
                        None,
                        0,
                        named(name, ": Hold position (cautious)"),
                    ),
                )
            }
        },
        AIArchetype::Berserker => Some(
            intent(u.entity, IntentType::Attack, None, stats.atk, named(name, ": Berserk attack")),
        ),
        AIArchetype::Tactician => Some(
            intent(u.entity, IntentType::Move, None, 0, named(name, ": Tactical reposition")),
        ),
        AIArchetype::Summoner => Some(
            intent(u.entity, IntentType::Summon, None, 0, named(name, ": Summon minion")),
        ),
        AIArchetype::Assassin => {
            assert(i32::MIN <= stats.atk * 2 <= i32::MAX);
            Some(
                intent(u.entity, IntentType::Attack, None, stats.atk * 2, named(name, ": Assassinate")),
            )
        },
        AIArchetype::Defender => Some(
            intent(u.entity, IntentType::Defend, None, 0, named(name, ": Protecting allies")),
        ),
    }
}

impl BattlePreview {
    /// What every enemy with action points left is about to do, in the order
    /// of `units`, then the boss's telegraphed attack if it marks any cell.
    /// Predicted attack damage is nine tenths of attack and healing four fifths
    /// of it, rounded toward zero; health fractions compare exactly.
    pub fn predict_enemy_intents(units: &[UnitRecord], telegraph: &TelegraphZone) -> (r:
        EnemyIntentions)
        requires
            intents_fit(units@),
        ensures
            r.intents@.map_values(|i: EnemyIntent| intent_view(i)) == planned_intents(
                units@,
                units@.len() as int,
            ) + telegraph_intent(*telegraph),
    {
        let n = units.len();
        let mut intents: Vec<EnemyIntent> = Vec::new();
        let mut k: usize = 0;
        while k < n
            invariant
                k <= n,
                n == units@.len(),
                intents_fit(units@),
                intents@.map_values(|i: EnemyIntent| intent_view(i)) == planned_intents(
                    units@,
                    k as int,
                ),
            decreases n - k,
        {
            let u = units[k];
            let plans = match (u.position, u.team, u.class, u.stats) {
                (Some(_), Some(Team::Enemy), Some(_), Some(s)) => s.ap > 0,
                _ => false,
            };
            if plans {
                match unit_intent_exec(units, k) {
                    Some(i) => {
                        intents.push(i);
                    },
                    None => {},
                }
            }
            assert(intents@.map_values(|i: EnemyIntent| intent_view(i)) =~= planned_intents(
                units@,
                k + 1,
            ));
            k = k + 1;
        }
        if telegraph.tiles.len() > 0 {
            let mut s = String::new();
            push_str(&mut s, "BOSS: Telegraphed AoE attack (");
            push_int(&mut s, telegraph.damage as i64);
            push_str(&mut s, " dmg) on ");
            push_digits(&mut s, telegraph.tiles.len() as u64);
            push_str(&mut s, " tiles");
            let ghost before = intents@.map_values(|i: EnemyIntent| intent_view(i));
            let boss = intent(
                Entity::invalid(),
                IntentType::AoEAttack,
                Some(telegraph.tiles[0]),
                telegraph.damage,
                s,
            );
            intents.push(boss);
            assert(intents@.map_values(|i: EnemyIntent| intent_view(i)) =~= before
                + telegraph_intent(*telegraph));
        } else {
            assert(intents@.map_values(|i: EnemyIntent| intent_view(i)) =~= planned_intents(
                units@,
                n as int,
            ) + telegraph_intent(*telegraph));
        }
        EnemyIntentions { intents }
    }
}

} // verus!
