use vstd::prelude::*;

use crate::battle_preview::UnitRecord;
use crate::components::{
    BossConfig, BossPhase, CharacterClass, ElementalShield, ElementalStatus, MoraleState, Rooted, Stats,
    Team, class_name, get_class_name,
};
use crate::ai::div_toward_zero;
use crate::battle::{find_unit, unit_index};
use crate::equipment::{
    is_arcane_robe, is_arcane_staff, is_dark_blade, is_divine_staff, is_divine_vestments, is_shadow_armor,
    set_reward_for_defeated_class,
};
use crate::outcome::{ActionOutcome, OutcomeView};
use crate::geometry::{Entity, Position, contains_position, manhattan, manhattan_distance};
use crate::text::{decimal, push_int, push_str};

verus! {

// ------------------------------------------------------------------
// Concert energy
// ------------------------------------------------------------------

/// Concert energy grows by `amount`, up to 100.
pub open spec fn energy_after(energy: int, amount: int) -> int {
    if energy + amount < 100 {
        energy + amount
    } else {
        100
    }
}

/// The log line reporting the concert energy.
pub open spec fn energy_message(energy: int) -> Seq<char> {
    "Concert Energy: "@ + crate::text::decimal(energy) + "/100"@
}

/// Concert energy never exceeds 100, and adding to it never lowers it below
/// the cap or its previous value.
pub proof fn lemma_energy_capped(energy: int, amount: int)
    requires
        amount >= 0,
    ensures
        energy_after(energy, amount) <= 100,
        energy <= 100 ==> energy <= energy_after(energy, amount),
{
}

/// Adds `amount` to the concert energy, which never exceeds 100, and returns
/// the log line that reports the new value.
pub fn build_concert_energy(energy: &mut u32, amount: u32) -> (msg: String)
    requires
        *old(energy) + amount <= u32::MAX,
    ensures
        *final(energy) == energy_after(*old(energy) as int, amount as int),
        msg@ == energy_message(*final(energy) as int),
{
    let sum = *energy + amount;
    *energy = if sum < 100 {
        sum
    } else {
        100
    };
    let mut s = String::new();
    push_str(&mut s, "Concert Energy: ");
    push_int(&mut s, *energy as i64);
    push_str(&mut s, "/100");
    assert(s@ =~= energy_message(*energy as int));
    s
}

// ------------------------------------------------------------------
// The boss's second phase
// ------------------------------------------------------------------

/// The boss enters its second phase: it is still in the first and its HP fell
/// to the configured threshold without reaching zero.
pub open spec fn enters_phase_two(phase: BossPhase, hp: int, config: BossConfig) -> bool {
    phase == BossPhase::Phase1 && hp <= config.phase2_hp_threshold && hp > 0
}

/// The boss's stats once in its second phase: new HP and AP pools, both full,
/// and the configured bonuses.
pub open spec fn phase_two_stats(s: Stats, c: BossConfig) -> Stats {
    Stats {
        max_hp: c.phase2_max_hp,
        hp: c.phase2_max_hp,
        atk: (s.atk + c.phase2_atk_bonus) as i32,
        def: (s.def + c.phase2_def_bonus) as i32,
        spd: (s.spd + c.phase2_spd_bonus) as i32,
        max_ap: c.phase2_max_ap,
        ap: c.phase2_max_ap,
        ..s
    }
}

/// The shield the boss raises on entering its second phase, if any.
pub open spec fn phase_two_shield(c: BossConfig) -> Option<ElementalShield> {
    if c.phase2_shield_amount > 0 {
        Some(
            ElementalShield {
                shield_type: c.phase2_shield_type,
                amount: c.phase2_shield_amount,
                max_amount: c.phase2_shield_amount,
            },
        )
    } else {
        None
    }
}

/// The boss enters its second phase only once: once there, no HP brings the
/// transition again.
pub proof fn lemma_phase_two_once(hp: int, config: BossConfig)
    ensures
        !enters_phase_two(BossPhase::Phase2, hp, config),
{
}

/// What the boss becomes on entering its second phase.
#[derive(Copy, Clone, Debug, PartialEq, Eq, Structural)]
pub struct BossTransition {
    pub stats: Stats,
    pub shield: Option<ElementalShield>,
}

/// Whether the boss, in `phase` and with `boss_stats` (none counts as no HP),
/// enters its second phase now, and what it becomes if so.
pub fn check_boss_phase_transition(
    phase: BossPhase,
    boss_stats: Option<Stats>,
    config: &BossConfig,
) -> (r: Option<BossTransition>)
    requires
        boss_stats is Some && enters_phase_two(phase, boss_stats->0.hp as int, *config) ==> {
            &&& i32::MIN <= boss_stats->0.atk + config.phase2_atk_bonus <= i32::MAX
            &&& i32::MIN <= boss_stats->0.def + config.phase2_def_bonus <= i32::MAX
            &&& i32::MIN <= boss_stats->0.spd + config.phase2_spd_bonus <= i32::MAX
        },
    ensures
        r is Some <==> (boss_stats matches Some(s) && enters_phase_two(phase, s.hp as int, *config)),
        r matches Some(t) ==> t.stats == phase_two_stats(boss_stats->0, *config) && t.shield
            == phase_two_shield(*config),
{
    let hp = match boss_stats {
        Some(s) => s.hp,
        None => 0,
    };
    if phase == BossPhase::Phase1 && hp <= config.phase2_hp_threshold && hp > 0 {
        let s = boss_stats.unwrap();
        let stats = Stats {
            max_hp: config.phase2_max_hp,
            hp: config.phase2_max_hp,
            atk: s.atk + config.phase2_atk_bonus,
            def: s.def + config.phase2_def_bonus,
            spd: s.spd + config.phase2_spd_bonus,
            max_ap: config.phase2_max_ap,
            ap: config.phase2_max_ap,
            ..s
        };
        let shield = if config.phase2_shield_amount > 0 {
            Some(
                ElementalShield {
                    shield_type: config.phase2_shield_type,
                    amount: config.phase2_shield_amount,
                    max_amount: config.phase2_shield_amount,
                },
            )
        } else {
            None
        };
        Some(BossTransition { stats, shield })
    } else {
        None
    }
}

/// What becomes of a unit brought to 0 HP.
#[derive(Clone, Debug)]
pub enum DefeatOutcome {
    /// The boss, still in its first phase, rises again in its second with
    /// these stats.
    BossRises { stats: Option<Stats>, message: String },
    /// The unit falls and leaves the field. The boss leaves its echo behind
    /// (`boss_echo`); a cursed sentinel or a glacial golem leaves an Upgrade
    /// Kit for the heroes (`drops_kit`). The game logs the drops.
    Falls { message: String, boss_echo: bool, drops_kit: bool },
}

/// The boss's second phase fits the integer types of its stats.
pub open spec fn phase_two_fits(s: Stats, c: BossConfig) -> bool {
    &&& i32::MIN <= s.atk + c.phase2_atk_bonus <= i32::MAX
    &&& i32::MIN <= s.def + c.phase2_def_bonus <= i32::MAX
    &&& i32::MIN <= s.spd + c.phase2_spd_bonus <= i32::MAX
}

/// Decides what a defeat comes to for a unit of `class` named `name`, with
/// `stats`, while the boss is in `phase`.
pub fn defeat_outcome(
    class: CharacterClass,
    phase: BossPhase,
    stats: Option<Stats>,
    config: &BossConfig,
    name: &str,
) -> (r: DefeatOutcome)
    requires
        class == CharacterClass::Boss && phase == BossPhase::Phase1 ==> (stats matches Some(s)
            ==> phase_two_fits(s, *config)),
    ensures
        class == CharacterClass::Boss && phase == BossPhase::Phase1 ==> (r matches DefeatOutcome::BossRises {
            stats: s2,
            message,
        } && s2 == (match stats {
            Some(s) => Some(phase_two_stats(s, *config)),
            None => None,
        }) && message@
            == "Blight Sovereign enters Phase 2! Its power intensifies, and Celestial Ruin is unleashed!"@),
        !(class == CharacterClass::Boss && phase == BossPhase::Phase1) ==> (r matches DefeatOutcome::Falls {
            message,
            boss_echo,
            drops_kit,
        } && message@ == name@ + " was defeated!"@ && boss_echo == (class == CharacterClass::Boss)
            && drops_kit == (class == CharacterClass::CursedSentinel || class == CharacterClass::GlacialGolem)),
{
    let boss = match class {
        CharacterClass::Boss => true,
        _ => false,
    };
    if boss && phase == BossPhase::Phase1 {
        let risen = match stats {
            Some(s) => Some(
                Stats {
                    max_hp: config.phase2_max_hp,
                    hp: config.phase2_max_hp,
                    atk: s.atk + config.phase2_atk_bonus,
                    def: s.def + config.phase2_def_bonus,
                    spd: s.spd + config.phase2_spd_bonus,
                    max_ap: config.phase2_max_ap,
                    ap: config.phase2_max_ap,
                    ..s
                },
            ),
            None => None,
        };
        return DefeatOutcome::BossRises {
            stats: risen,
            message: String::from_str(
                "Blight Sovereign enters Phase 2! Its power intensifies, and Celestial Ruin is unleashed!",
            ),
        };
    }
    let mut message = String::new();
    push_str(&mut message, name);
    push_str(&mut message, " was defeated!");
    let drops_kit = match class {
        CharacterClass::CursedSentinel => true,
        CharacterClass::GlacialGolem => true,
        _ => false,
    };
    DefeatOutcome::Falls { message, boss_echo: boss, drops_kit }
}

// ------------------------------------------------------------------
// The BladeMaster's counter and set rewards
// ------------------------------------------------------------------

/// A BladeMaster's counter-attack on the unit that struck it.
#[derive(Clone, Debug)]
pub struct Counter {
    /// The attacker's stats after the counter.
    pub attacker: Option<Stats>,
    pub damage: i32,
    pub message: String,
}

/// The counter's log line.
pub open spec fn counter_message(target_name: Seq<char>, damage: int, attacker_class: Option<CharacterClass>) -> Seq<
    char,
> {
    "[fg:FFD700]BladeMaster counter-attack! "@ + target_name + " strikes back for "@ + decimal(damage)
        + " damage to "@ + class_name(
        match attacker_class {
            Some(c) => c,
            None => CharacterClass::Warrior,
        },
    ) + "![/fg]"@
}

/// A promoted BladeMaster that survives a hit strikes back when the roll
/// (0 to 99) is under 25: the attacker loses the BladeMaster's attack in HP,
/// if that attack is positive. `counter_atk` is the BladeMaster's attack (0
/// without stats).
pub fn blademaster_counter(
    defeated: bool,
    blademaster: bool,
    roll: u32,
    counter_atk: i32,
    attacker: Option<Stats>,
    target_name: &str,
    attacker_class: Option<CharacterClass>,
) -> (r: Option<Counter>)
    requires
        attacker matches Some(st) ==> st.hp - counter_atk >= i32::MIN,
    ensures
        (!defeated && blademaster && roll < 25 && counter_atk > 0) ==> (r matches Some(c) && c.damage == counter_atk
            && c.attacker == (match attacker {
            Some(st) => Some(Stats { hp: (st.hp - counter_atk) as i32, ..st }),
            None => None,
        }) && c.message@ == counter_message(target_name@, counter_atk as int, attacker_class)),
        !(!defeated && blademaster && roll < 25 && counter_atk > 0) ==> r is None,
{
    if defeated || !blademaster || roll >= 25 || counter_atk <= 0 {
        return None;
    }
    let hit = match attacker {
        Some(st) => Some(Stats { hp: st.hp - counter_atk, ..st }),
        None => None,
    };
    let class = match attacker_class {
        Some(c) => c,
        None => CharacterClass::Warrior,
    };
    let mut message = String::new();
    push_str(&mut message, "[fg:FFD700]BladeMaster counter-attack! ");
    push_str(&mut message, target_name);
    push_str(&mut message, " strikes back for ");
    push_int(&mut message, counter_atk as i64);
    push_str(&mut message, " damage to ");
    push_str(&mut message, get_class_name(class));
    push_str(&mut message, "![/fg]");
    Some(Counter { attacker: hit, damage: counter_atk, message })
}

/// The set piece `e` is what defeating a unit of `class` awards to the hero
/// of class `hero`.
pub open spec fn reward_for(class: CharacterClass, hero: CharacterClass, e: crate::components::Equipment) -> bool {
    match class {
        CharacterClass::ShadowStalker => hero == CharacterClass::Warrior && is_shadow_armor(e),
        CharacterClass::CursedSentinel => hero == CharacterClass::Warrior && is_dark_blade(e),
        CharacterClass::PlagueWraith => hero == CharacterClass::Mage && is_arcane_robe(e),
        CharacterClass::GlacialGolem => hero == CharacterClass::Mage && is_arcane_staff(e),
        CharacterClass::EnemyCleric => hero == CharacterClass::Healer && is_divine_staff(e),
        CharacterClass::Boss => hero == CharacterClass::Healer && is_divine_vestments(e),
        _ => false,
    }
}

/// The hero that receives a set reward: the first unit of the heroes' team
/// with the class.
pub open spec fn first_hero_of(units: Seq<UnitRecord>, hero: CharacterClass, k: int) -> Option<int>
    decreases k,
{
    if k <= 0 {
        None
    } else {
        match first_hero_of(units, hero, k - 1) {
            Some(i) => Some(i),
            None => if units[k - 1].team == Some(Team::Player) && units[k - 1].class == Some(hero) {
                Some(k - 1)
            } else {
                None
            },
        }
    }
}

/// The class of hero that a defeat of `class` rewards, if any.
pub open spec fn rewarded_hero(class: CharacterClass) -> Option<CharacterClass> {
    match class {
        CharacterClass::ShadowStalker | CharacterClass::CursedSentinel => Some(CharacterClass::Warrior),
        CharacterClass::PlagueWraith | CharacterClass::GlacialGolem => Some(CharacterClass::Mage),
        CharacterClass::EnemyCleric | CharacterClass::Boss => Some(CharacterClass::Healer),
        _ => None,
    }
}

fn first_hero_exec(units: &Vec<UnitRecord>, hero: CharacterClass) -> (r: Option<usize>)
    ensures
        match r {
            Some(i) => first_hero_of(units@, hero, units@.len() as int) == Some(i as int) && i < units@.len(),
            None => first_hero_of(units@, hero, units@.len() as int) is None,
        },
{
    let n = units.len();
    let mut found: Option<usize> = None;
    let mut k: usize = 0;
    while k < n
        invariant
            k <= n,
            n == units@.len(),
            match found {
                Some(i) => first_hero_of(units@, hero, k as int) == Some(i as int) && i < k,
                None => first_hero_of(units@, hero, k as int) is None,
            },
        decreases n - k,
    {
        if found.is_none() && units[k].team == Some(Team::Player) && units[k].class == Some(hero) {
            found = Some(k);
        }
        k = k + 1;
    }
    found
}

/// Awards the set piece a defeat of `class` (named `defeated_name`) earns
/// to the first hero of the rewarded class, who puts it on when it wears
/// equipment (`equipped[i]` is what `units[i]` wears). Returns the log line
/// and the outcome to record, or nothing when no reward is given.
pub fn award_set_reward(
    units: &Vec<UnitRecord>,
    equipped: &mut Vec<Option<crate::components::EquippedItems>>,
    class: CharacterClass,
    defeated_name: &str,
) -> (r: Option<(String, ActionOutcome)>)
    requires
        old(equipped)@.len() == units@.len(),
    ensures
        final(equipped)@.len() == old(equipped)@.len(),
        ({
            let given = match rewarded_hero(class) {
                Some(h) => match first_hero_of(units@, h, units@.len() as int) {
                    Some(i) => old(equipped)@[i] is Some,
                    None => false,
                },
                None => false,
            };
            if given {
                let h = rewarded_hero(class)->0;
                let i = first_hero_of(units@, h, units@.len() as int)->0;
                exists|e: crate::components::Equipment|
                    #[trigger] reward_for(class, h, e) && final(equipped)@ == old(equipped)@.update(
                        i,
                        Some(crate::components::with_slot(old(equipped)@[i]->0, e.slot, Some(e))),
                    ) && (r matches Some((m, o)) && m@ == class_name(h) + " equipped "@ + e.name@ + " from "@
                        + defeated_name@ + "."@ && o@ == (OutcomeView::EquipmentRewarded {
                        item_name: e.name@,
                        hero: class_name(h),
                    }))
            } else {
                r is None && final(equipped)@ == old(equipped)@
            }
        }),
{
    let (hero, item) = match set_reward_for_defeated_class(class) {
        Some(pair) => pair,
        None => {
            return None;
        },
    };
    let i = match first_hero_exec(units, hero) {
        Some(i) => i,
        None => {
            return None;
        },
    };
    if equipped[i].is_none() {
        return None;
    }
    let ghost old_eq = equipped@;
    let taken = equipped.remove(i);
    let mut worn = taken.unwrap();
    assert(reward_for(class, hero, item));
    let ghost before = worn;
    let ghost e = item;
    let item_name = item.name.clone();
    let hero_name = get_class_name(hero);
    worn.equip(item);
    equipped.insert(i, Some(worn));
    assert(equipped@ =~= old_eq.update(i as int, Some(crate::components::with_slot(before, e.slot, Some(e)))));
    let mut message = String::new();
    push_str(&mut message, hero_name);
    push_str(&mut message, " equipped ");
    push_str(&mut message, item_name.as_str());
    push_str(&mut message, " from ");
    push_str(&mut message, defeated_name);
    push_str(&mut message, ".");
    let outcome = ActionOutcome::EquipmentRewarded { item_name, hero: String::from_str(hero_name) };
    let r = Some((message, outcome));
    assert(reward_for(class, hero, e));
    r
}

// ------------------------------------------------------------------
// Elemental statuses and their reactions
// ------------------------------------------------------------------

/// The reactions two elements trigger when one meets the other.
#[derive(Copy, Clone, Debug, PartialEq, Eq, Structural)]
pub enum ElementalReaction {
    /// Ice and Lightning: bonus damage.
    Shatter,
    /// Lightning and Nature: bonus damage, and the target is rooted.
    Overgrowth,
    /// Nature and Ice: the heroes next to the target are healed.
    Bloom,
}

pub open spec fn is_ice(s: ElementalStatus) -> bool {
    s matches ElementalStatus::Ice { .. }
}

pub open spec fn is_lightning(s: ElementalStatus) -> bool {
    s matches ElementalStatus::Lightning { .. }
}

pub open spec fn is_nature(s: ElementalStatus) -> bool {
    s matches ElementalStatus::Nature { .. }
}

/// The reaction of a new element meeting the one a unit carries, in either
/// order.
pub open spec fn reaction_of(old: ElementalStatus, new: ElementalStatus) -> Option<ElementalReaction> {
    if (is_ice(old) && is_lightning(new)) || (is_lightning(old) && is_ice(new)) {
        Some(ElementalReaction::Shatter)
    } else if (is_lightning(old) && is_nature(new)) || (is_nature(old) && is_lightning(new)) {
        Some(ElementalReaction::Overgrowth)
    } else if (is_nature(old) && is_ice(new)) || (is_ice(old) && is_nature(new)) {
        Some(ElementalReaction::Bloom)
    } else {
        None
    }
}

/// One of the three elements that react.
pub open spec fn reactive(s: ElementalStatus) -> bool {
    is_ice(s) || is_lightning(s) || is_nature(s)
}

/// Reactions do not depend on the order in which two elements meet; two
/// different reactive elements always react, and an element never reacts
/// with itself or with a non-reactive state. The reaction involving the
/// third element is never the one produced: Shatter needs no Nature,
/// Overgrowth no Ice, Bloom no Lightning.
pub proof fn lemma_reactions_symmetric(a: ElementalStatus, b: ElementalStatus)
    ensures
        reaction_of(a, b) == reaction_of(b, a),
        reactive(a) && reactive(b) && !(is_ice(a) && is_ice(b)) && !(is_lightning(a) && is_lightning(b))
            && !(is_nature(a) && is_nature(b)) ==> reaction_of(a, b) is Some,
        (!reactive(a) || !reactive(b)) ==> reaction_of(a, b) is None,
        (is_ice(a) && is_ice(b)) || (is_lightning(a) && is_lightning(b)) || (is_nature(a) && is_nature(b))
            ==> reaction_of(a, b) is None,
        reaction_of(a, b) == Some(ElementalReaction::Bloom) ==> !is_lightning(a) && !is_lightning(b),
        reaction_of(a, b) == Some(ElementalReaction::Shatter) ==> !is_nature(a) && !is_nature(b),
        reaction_of(a, b) == Some(ElementalReaction::Overgrowth) ==> !is_ice(a) && !is_ice(b),
{
}

/// Bonus damage of a reaction on its target; a Storm Chaser hero adds ten.
pub open spec fn reaction_damage(r: ElementalReaction, storm_chaser: bool) -> int {
    match r {
        ElementalReaction::Shatter => if storm_chaser {
            40
        } else {
            30
        },
        ElementalReaction::Overgrowth => if storm_chaser {
            20
        } else {
            10
        },
        ElementalReaction::Bloom => 0,
    }
}

/// How much a Bloom heals each hero next to its target.
pub open spec fn bloom_healing() -> int {
    20
}

/// The name and colour of an element in the log.
pub open spec fn badge(s: ElementalStatus) -> (Seq<char>, Seq<char>) {
    match s {
        ElementalStatus::Ice { .. } => ("Ice"@, "64C8FF"@),
        ElementalStatus::Lightning { .. } => ("Lightning"@, "FFFF64"@),
        ElementalStatus::Nature { .. } => ("Nature"@, "32DC64"@),
        ElementalStatus::Poison { .. } => ("Poison"@, "A020F0"@),
        ElementalStatus::Regen { .. } => ("Regen"@, "32CD32"@),
        ElementalStatus::Normal => ("None"@, "FFFFFF"@),
    }
}

/// The log line of a status application on a target called `name`.
pub open spec fn status_message(reaction: Option<ElementalReaction>, new: ElementalStatus, name: Seq<char>) -> Seq<char> {
    match reaction {
        Some(ElementalReaction::Shatter) => "[fg:64C8FF][b]Elemental Reaction: SHATTER[/] on "@ + name
            + "![/fg]"@,
        Some(ElementalReaction::Overgrowth) => "[fg:32DC64][b]Elemental Reaction: OVERGROWTH[/] on "@
            + name + "![/fg]"@,
        Some(ElementalReaction::Bloom) => "[fg:FFD700][b]Elemental Reaction: BLOOM[/] on "@ + name
            + "![/fg]"@,
        None => "Applied [fg:"@ + badge(new).1 + "][b]"@ + badge(new).0 + "[/] element to "@ + name
            + "."@,
    }
}

/// The game event an element application sends about its target.
#[derive(Copy, Clone, Debug, PartialEq, Eq, Structural)]
pub enum ElementEvent {
    /// Two elements reacted, with the reaction's damage to the target and the
    /// healing it gives each hero next to the target.
    ReactionTriggered { reaction: ElementalReaction, damage: i32, healing: i32 },
    /// The element was applied without a reaction.
    ElementalApplied { status: ElementalStatus },
}

/// The event sent when `new` meets the element a unit carries.
pub open spec fn element_event(reaction: Option<ElementalReaction>, new: ElementalStatus, storm_chaser: bool) -> ElementEvent {
    match reaction {
        Some(x) => ElementEvent::ReactionTriggered {
            reaction: x,
            damage: reaction_damage(x, storm_chaser) as i32,
            healing: if x == ElementalReaction::Bloom {
                bloom_healing() as i32
            } else {
                0
            },
        },
        None => ElementEvent::ElementalApplied { status: new },
    }
}

/// The effect of applying an element to a unit.
#[derive(Clone, Debug)]
pub struct StatusApplication {
    /// The reaction triggered, if any.
    pub reaction: Option<ElementalReaction>,
    /// The unit's element afterwards (a unit without one keeps none).
    pub status: Option<ElementalStatus>,
    /// The unit's stats after the reaction's damage.
    pub stats: Option<Stats>,
    /// The reaction's damage brought the unit to 0 HP or below.
    pub defeated: bool,
    /// The root the unit gets: one turn long after an Overgrowth.
    pub root: Option<Rooted>,
    /// HP that each hero next to the unit recovers.
    pub ally_healing: i32,
    /// The log line.
    pub message: String,
    /// The event sent about the unit.
    pub event: ElementEvent,
}

fn badge_exec(s: ElementalStatus) -> (r: (&'static str, &'static str))
    ensures
        r.0@ == badge(s).0,
        r.1@ == badge(s).1,
{
    match s {
        ElementalStatus::Ice { .. } => ("Ice", "64C8FF"),
        ElementalStatus::Lightning { .. } => ("Lightning", "FFFF64"),
        ElementalStatus::Nature { .. } => ("Nature", "32DC64"),
        ElementalStatus::Poison { .. } => ("Poison", "A020F0"),
        ElementalStatus::Regen { .. } => ("Regen", "32CD32"),
        ElementalStatus::Normal => ("None", "FFFFFF"),
    }
}

fn reaction_exec(old: ElementalStatus, new: ElementalStatus) -> (r: Option<ElementalReaction>)
    ensures
        r == reaction_of(old, new),
{
    let oi = matches!(old, ElementalStatus::Ice { .. });
    let ol = matches!(old, ElementalStatus::Lightning { .. });
    let on = matches!(old, ElementalStatus::Nature { .. });
    let ni = matches!(new, ElementalStatus::Ice { .. });
    let nl = matches!(new, ElementalStatus::Lightning { .. });
    let nn = matches!(new, ElementalStatus::Nature { .. });
    if (oi && nl) || (ol && ni) {
        Some(ElementalReaction::Shatter)
    } else if (ol && nn) || (on && nl) {
        Some(ElementalReaction::Overgrowth)
    } else if (on && ni) || (oi && nn) {
        Some(ElementalReaction::Bloom)
    } else {
        None
    }
}

/// Applies element `new` to a unit that carries `old` (none when it has no
/// elemental state), called by its class (a warrior's name when it has none).
/// Two elements that react consume the unit's element: Shatter and
/// Overgrowth hurt it (more when the acting hero is a Storm Chaser) and
/// Overgrowth roots it; Bloom heals the heroes next to it. Otherwise the unit
/// takes the new element.
pub fn apply_elemental_status(
    old: Option<ElementalStatus>,
    new: ElementalStatus,
    target_class: Option<CharacterClass>,
    target_stats: Option<Stats>,
    storm_chaser: bool,
) -> (r: StatusApplication)
    requires
        target_stats is Some && old is Some && reaction_of(old->0, new) is Some ==> i32::MIN
            <= target_stats->0.hp - reaction_damage(reaction_of(old->0, new)->0, storm_chaser),
    ensures
        ({
            let reaction = match old {
                Some(o) => reaction_of(o, new),
                None => None,
            };
            let name = class_name(
                match target_class {
                    Some(c) => c,
                    None => CharacterClass::Warrior,
                },
            );
            &&& r.reaction == reaction
            &&& r.message@ == status_message(reaction, new, name)
            &&& r.status == match old {
                Some(_) => Some(
                    if reaction is Some {
                        ElementalStatus::Normal
                    } else {
                        new
                    },
                ),
                None => None,
            }
            &&& r.root == (if reaction == Some(ElementalReaction::Overgrowth) {
                Some(Rooted { duration: 1 })
            } else {
                None
            })
            &&& r.event == element_event(reaction, new, storm_chaser)
            &&& r.ally_healing == if reaction == Some(ElementalReaction::Bloom) {
                bloom_healing()
            } else {
                0
            }
            &&& match reaction {
                Some(x) => {
                    let dmg = reaction_damage(x, storm_chaser);
                    &&& r.stats == match target_stats {
                        Some(s) => Some(Stats { hp: (s.hp - dmg) as i32, ..s }),
                        None => None,
                    }
                    &&& r.defeated == (x != ElementalReaction::Bloom && target_stats is Some
                        && target_stats->0.hp - dmg <= 0)
                },
                None => r.stats == target_stats && !r.defeated,
            }
        }),
{
    let class = match target_class {
        Some(c) => c,
        None => CharacterClass::Warrior,
    };
    let name = get_class_name(class);
    let reaction = match old {
        Some(o) => reaction_exec(o, new),
        None => None,
    };
    let mut s = String::new();
    match reaction {
        Some(ElementalReaction::Shatter) => {
            push_str(&mut s, "[fg:64C8FF][b]Elemental Reaction: SHATTER[/] on ");
            push_str(&mut s, name);
            push_str(&mut s, "![/fg]");
        },
        Some(ElementalReaction::Overgrowth) => {
            push_str(&mut s, "[fg:32DC64][b]Elemental Reaction: OVERGROWTH[/] on ");
            push_str(&mut s, name);
            push_str(&mut s, "![/fg]");
        },
        Some(ElementalReaction::Bloom) => {
            push_str(&mut s, "[fg:FFD700][b]Elemental Reaction: BLOOM[/] on ");
            push_str(&mut s, name);
            push_str(&mut s, "![/fg]");
        },
        None => {
            let (label, color) = badge_exec(new);
            push_str(&mut s, "Applied [fg:");
            push_str(&mut s, color);
            push_str(&mut s, "][b]");
            push_str(&mut s, label);
            push_str(&mut s, "[/] element to ");
            push_str(&mut s, name);
            push_str(&mut s, ".");
        },
    }
    assert(s@ =~= status_message(reaction, new, class_name(class)));
    let status = match old {
        Some(_) => Some(
            if reaction.is_some() {
                ElementalStatus::Normal
            } else {
                new
            },
        ),
        None => None,
    };
    let damage: i32 = match reaction {
        Some(ElementalReaction::Shatter) => if storm_chaser {
            40
        } else {
            30
        },
        Some(ElementalReaction::Overgrowth) => if storm_chaser {
            20
        } else {
            10
        },
        _ => 0,
    };
    let mut stats = target_stats;
    let mut defeated = false;
    if let Some(x) = reaction {
        if x != ElementalReaction::Bloom {
            if let Some(st) = target_stats {
                let hp = st.hp - damage;
                stats = Some(Stats { hp, ..st });
                defeated = hp <= 0;
            }
        }
    }
    StatusApplication {
        reaction,
        status,
        stats,
        defeated,
        root: if reaction == Some(ElementalReaction::Overgrowth) {
            Some(Rooted { duration: 1 })
        } else {
            None
        },
        ally_healing: if reaction == Some(ElementalReaction::Bloom) {
            20
        } else {
            0
        },
        message: s,
        event: match reaction {
            Some(x) => ElementEvent::ReactionTriggered {
                reaction: x,
                damage,
                healing: if x == ElementalReaction::Bloom {
                    20
                } else {
                    0
                },
            },
            None => ElementEvent::ElementalApplied { status: new },
        },
    }
}

/// The heroes a Bloom on the unit at `center` heals: those standing on it or
/// next to it (among the first `k` records).
pub open spec fn bloom_targets_upto(units: Seq<UnitRecord>, center: Position, k: int) -> Seq<Entity>
    decreases k,
{
    if k <= 0 {
        Seq::empty()
    } else {
        let prev = bloom_targets_upto(units, center, k - 1);
        let u = units[k - 1];
        if u.position is Some && u.team == Some(Team::Player) && manhattan(u.position->0, center)
            <= 1 {
            prev.push(u.entity)
        } else {
            prev
        }
    }
}

/// The heroes a Bloom on the unit at `center` heals, in the order of `units`.
pub fn bloom_targets(units: &[UnitRecord], center: Position) -> (r: Vec<Entity>)
    requires
        forall|i: int|
            0 <= i < units@.len() && (#[trigger] units@[i]).position is Some && units@[i].team
                == Some(Team::Player) ==> manhattan(units@[i].position->0, center) <= i16::MAX,
    ensures
        r@ == bloom_targets_upto(units@, center, units@.len() as int),
{
    let n = units.len();
    let mut out: Vec<Entity> = Vec::new();
    let mut k: usize = 0;
    while k < n
        invariant
            k <= n,
            n == units@.len(),
            out@ == bloom_targets_upto(units@, center, k as int),
        decreases n - k,
    {
        let u = units[k];
        if let (Some(p), Some(Team::Player)) = (u.position, u.team) {
            if manhattan_distance(p, center) <= 1 {
                out.push(u.entity);
            }
        }
        k = k + 1;
    }
    out
}

/// A hero healed by `amount`, up to its maximum HP.
pub open spec fn healed_stats(s: Stats, amount: int) -> Stats {
    Stats {
        hp: if s.max_hp < s.hp + amount {
            s.max_hp
        } else {
            (s.hp + amount) as i32
        },
        ..s
    }
}

/// The log line of a Bloom heal.
pub open spec fn bloom_message(class: CharacterClass, amount: int, hp: int) -> Seq<char> {
    "[fg:32FF32]Bloom healed "@ + class_name(class) + " for [b]"@ + crate::text::decimal(amount)
        + " HP![/] (HP: "@ + crate::text::decimal(hp) + ")[/fg]"@
}

/// The log line of a Bloom heal, built.
fn bloom_line(class: CharacterClass, amount: i32, hp: i32) -> (s: String)
    ensures
        s@ == bloom_message(class, amount as int, hp as int),
{
    let mut s = String::new();
    push_str(&mut s, "[fg:32FF32]Bloom healed ");
    push_str(&mut s, get_class_name(class));
    push_str(&mut s, " for [b]");
    push_int(&mut s, amount as i64);
    push_str(&mut s, " HP![/] (HP: ");
    push_int(&mut s, hp as i64);
    push_str(&mut s, ")[/fg]");
    assert(s@ =~= bloom_message(class, amount as int, hp as int));
    s
}

/// Heals a hero caught in a Bloom by `amount`, up to its maximum HP, and
/// returns its new stats with the log line.
pub fn bloom_heal(stats: Stats, class: CharacterClass, amount: i32) -> (r: (Stats, String))
    requires
        i32::MIN <= stats.hp + amount <= i32::MAX,
    ensures
        r.0 == healed_stats(stats, amount as int),
        r.1@ == bloom_message(class, amount as int, r.0.hp as int),
{
    let raised = stats.hp + amount;
    let hp = if stats.max_hp < raised {
        stats.max_hp
    } else {
        raised
    };
    let healed = Stats { hp, ..stats };
    (healed, bloom_line(class, amount, hp))
}

/// A hero a Bloom centred on `center` reaches: a player unit on that cell or next to it.
pub open spec fn in_bloom(u: UnitRecord, center: Position) -> bool {
    u.position is Some && u.team == Some(Team::Player) && manhattan(u.position->0, center) <= 1
}

/// A unit after a Bloom centred on `center`: healed when it is reached and has stats.
pub open spec fn after_bloom(u: UnitRecord, center: Position) -> UnitRecord {
    if in_bloom(u, center) && u.stats is Some {
        UnitRecord { stats: Some(healed_stats(u.stats->0, bloom_healing())), ..u }
    } else {
        u
    }
}

/// The log lines of a Bloom centred on `center`, one per hero reached among
/// the first `k` units, with its HP afterwards (0 for a unit without stats).
pub open spec fn bloom_log(units: Seq<UnitRecord>, center: Position, k: int) -> Seq<Seq<char>>
    decreases k,
{
    if k <= 0 {
        Seq::empty()
    } else {
        let prev = bloom_log(units, center, k - 1);
        let u = units[k - 1];
        if in_bloom(u, center) {
            prev.push(
                bloom_message(
                    u.class->0,
                    bloom_healing(),
                    match u.stats {
                        Some(s) => healed_stats(s, bloom_healing()).hp as int,
                        None => 0,
                    },
                ),
            )
        } else {
            prev
        }
    }
}

/// What applying an element to one unit of the world comes to.
#[derive(Clone, Debug)]
pub struct ElementOutcome {
    /// The reaction, the unit's new element and stats, rooting, the log line and the event.
    pub application: StatusApplication,
    /// One log line for each hero a Bloom healed, in the order of the units.
    pub heal_log: Vec<String>,
}

/// The units after the element's damage to the target, before any Bloom heal.
pub open spec fn struck_units(units: Seq<UnitRecord>, target: int, stats: Option<Stats>) -> Seq<UnitRecord> {
    units.update(target, UnitRecord { stats, ..units[target] })
}

/// Where the element lands: the target's cell, or (0, 0) for a unit off the map.
pub open spec fn element_center(u: UnitRecord) -> Position {
    match u.position {
        Some(p) => p,
        None => Position { x: 0, y: 0 },
    }
}

/// Applies element `new` to `units[target]`, which carries `carried` (none when it
/// has no elemental state): the target takes the reaction's damage, and a
/// Bloom heals every hero on or next to the target's cell by 20, up to its
/// maximum. Rooting, a defeat, the log lines and the event are reported.
pub fn apply_element_to_unit(
    units: &mut Vec<UnitRecord>,
    target: usize,
    carried: Option<ElementalStatus>,
    new: ElementalStatus,
    storm_chaser: bool,
) -> (r: ElementOutcome)
    requires
        target < old(units)@.len(),
        old(units)@[target as int].stats is Some && carried is Some && reaction_of(carried->0, new) is Some
            ==> i32::MIN <= old(units)@[target as int].stats->0.hp - reaction_damage(
            reaction_of(carried->0, new)->0,
            storm_chaser,
        ),
        carried is Some && reaction_of(carried->0, new) == Some(ElementalReaction::Bloom) ==> forall|i: int|
            0 <= i < old(units)@.len() ==> {
                let u = #[trigger] old(units)@[i];
                &&& u.position is Some && u.team == Some(Team::Player) ==> manhattan(
                    u.position->0,
                    element_center(old(units)@[target as int]),
                ) <= i16::MAX
                &&& in_bloom(u, element_center(old(units)@[target as int])) ==> u.class is Some && (
                u.stats matches Some(s) ==> s.hp + bloom_healing() <= i32::MAX)
            },
    ensures
        ({
            let u0 = old(units)@[target as int];
            let reaction = match carried {
                Some(o) => reaction_of(o, new),
                None => None,
            };
            let struck = struck_units(old(units)@, target as int, r.application.stats);
            let center = element_center(u0);
            &&& r.application.reaction == reaction
            &&& r.application.stats == match reaction {
                Some(x) => match u0.stats {
                    Some(s) => Some(Stats { hp: (s.hp - reaction_damage(x, storm_chaser)) as i32, ..s }),
                    None => None,
                },
                None => u0.stats,
            }
            &&& r.application.status == match carried {
                Some(_) => Some(
                    if reaction is Some {
                        ElementalStatus::Normal
                    } else {
                        new
                    },
                ),
                None => None,
            }
            &&& r.application.root == (if reaction == Some(ElementalReaction::Overgrowth) {
                Some(Rooted { duration: 1 })
            } else {
                None
            })
            &&& r.application.defeated == (reaction is Some && reaction != Some(
                ElementalReaction::Bloom,
            ) && u0.stats is Some && u0.stats->0.hp - reaction_damage(reaction->0, storm_chaser)
                <= 0)
            &&& r.application.event == element_event(reaction, new, storm_chaser)
            &&& r.application.message@ == status_message(
                reaction,
                new,
                class_name(
                    match u0.class {
                        Some(c) => c,
                        None => CharacterClass::Warrior,
                    },
                ),
            )
            &&& if reaction == Some(ElementalReaction::Bloom) {
                &&& final(units)@ == struck.map_values(|u: UnitRecord| after_bloom(u, center))
                &&& r.heal_log@.map_values(|s: String| s@) == bloom_log(struck, center, struck.len() as int)
            } else {
                &&& final(units)@ == struck
                &&& r.heal_log@.len() == 0
            }
        }),
{
    let u0 = units[target];
    let app = apply_elemental_status(carried, new, u0.class, u0.stats, storm_chaser);
    units.set(target, UnitRecord { stats: app.stats, ..u0 });
    let ghost struck = units@;
    assert(struck =~= struck_units(old(units)@, target as int, app.stats));
    let mut heal_log: Vec<String> = Vec::new();
    if app.reaction == Some(ElementalReaction::Bloom) {
        let center = match u0.position {
            Some(p) => p,
            None => Position::new(0, 0),
        };
        let n = units.len();
        let mut k: usize = 0;
        while k < n
            invariant
                k <= n,
                n == units@.len(),
                n == struck.len(),
                struck.len() == old(units)@.len(),
                center == element_center(old(units)@[target as int]),
                forall|i: int| 0 <= i < n ==> #[trigger] struck[i].position == old(units)@[i].position
                    && struck[i].team == old(units)@[i].team && struck[i].class == old(units)@[i].class
                    && (i != target ==> struck[i].stats == old(units)@[i].stats),
                struck[target as int].stats == old(units)@[target as int].stats,
                forall|i: int|
                    0 <= i < old(units)@.len() ==> {
                        let u = #[trigger] old(units)@[i];
                        &&& u.position is Some && u.team == Some(Team::Player) ==> manhattan(
                            u.position->0,
                            center,
                        ) <= i16::MAX
                        &&& in_bloom(u, center) ==> u.class is Some && (u.stats matches Some(s)
                            ==> s.hp + bloom_healing() <= i32::MAX)
                    },
                forall|i: int| 0 <= i < k ==> #[trigger] units@[i] == after_bloom(struck[i], center),
                forall|i: int| k <= i < n ==> #[trigger] units@[i] == struck[i],
                heal_log@.map_values(|s: String| s@) == bloom_log(struck, center, k as int),
            decreases n - k,
        {
            let u = units[k];
            assert(u == struck[k as int]);
            assert(old(units)@[k as int].position == u.position);
            let ghost before = heal_log@.map_values(|s: String| s@);
            if let (Some(p), Some(Team::Player)) = (u.position, u.team) {
                if manhattan_distance(p, center) <= 1 {
                    assert(in_bloom(old(units)@[k as int], center));
                    let class = u.class.unwrap();
                    match u.stats {
                        Some(s) => {
                            let (healed, line) = bloom_heal(s, class, 20);
                            units.set(k, UnitRecord { stats: Some(healed), ..u });
                            heal_log.push(line);
                        },
                        None => {
                            heal_log.push(bloom_line(class, 20, 0));
                        },
                    }
                    assert(heal_log@.map_values(|s: String| s@) =~= before.push(
                        bloom_log(struck, center, k + 1).last(),
                    ));
                }
            }
            k = k + 1;
        }
        assert(units@ =~= struck.map_values(|u: UnitRecord| after_bloom(u, center)));
    } else {
        assert(units@ == struck);
    }
    ElementOutcome { application: app, heal_log }
}

// ------------------------------------------------------------------
// Parrying the boss's telegraphed attack
// ------------------------------------------------------------------

/// The boss stands on `target`.
pub open spec fn boss_at(units: Seq<UnitRecord>, target: Position) -> bool {
    exists|i: int|
        0 <= i < units.len() && (#[trigger] units[i]).class == Some(CharacterClass::Boss)
            && units[i].position == Some(target)
}

/// The acting hero, or when none is acting any hero on the map, stands in the
/// telegraphed zone.
pub open spec fn hero_in_zone(units: Seq<UnitRecord>, acting: Option<Position>, zone: Seq<Position>) -> bool {
    match acting {
        Some(p) => zone.contains(p),
        None => exists|i: int|
            0 <= i < units.len() && (#[trigger] units[i]).team == Some(Team::Player)
                && units[i].position is Some && zone.contains(units[i].position->0),
    }
}

/// Index of the first boss among the first `k` records.
pub open spec fn first_boss(units: Seq<UnitRecord>, k: int) -> Option<int>
    decreases k,
{
    if k <= 0 {
        None
    } else {
        match first_boss(units, k - 1) {
            Some(b) => Some(b),
            None => if units[k - 1].class == Some(CharacterClass::Boss) {
                Some(k - 1)
            } else {
                None
            },
        }
    }
}

fn first_boss_exec(units: &Vec<UnitRecord>) -> (r: Option<usize>)
    ensures
        match r {
            Some(b) => first_boss(units@, units@.len() as int) == Some(b as int) && b < units@.len(),
            None => first_boss(units@, units@.len() as int) is None,
        },
{
    let n = units.len();
    let mut k: usize = 0;
    while k < n
        invariant
            k <= n,
            n == units@.len(),
            first_boss(units@, k as int) is None,
        decreases n - k,
    {
        if units[k].class == Some(CharacterClass::Boss) {
            assert(first_boss(units@, k + 1) == Some(k as int));
            proof {
                lemma_first_boss_stable(units@, k + 1, n as int);
            }
            return Some(k);
        }
        k = k + 1;
    }
    None
}

proof fn lemma_first_boss_stable(units: Seq<UnitRecord>, k: int, m: int)
    requires
        0 <= k <= m <= units.len(),
        first_boss(units, k) is Some,
    ensures
        first_boss(units, m) == first_boss(units, k),
    decreases m - k,
{
    if m > k {
        lemma_first_boss_stable(units, k, m - 1);
    }
}

/// A hero in the boss's telegraphed zone parries an attack on the boss: the
/// telegraph is cancelled and the first boss, if it has stats, loses all its
/// AP. `acting` is the position of the acting hero, if one is selected.
/// Returns the log lines (none when nothing is parried).
pub fn check_parry(
    units: &mut Vec<UnitRecord>,
    telegraph: &mut Vec<Position>,
    target_pos: Position,
    acting: Option<Position>,
) -> (log: Vec<String>)
    ensures
        ({
            let parried = boss_at(old(units)@, target_pos) && hero_in_zone(old(units)@, acting, old(telegraph)@);
            &&& parried ==> final(telegraph)@.len() == 0
            &&& !parried ==> final(telegraph)@ == old(telegraph)@
            &&& final(units)@ == if parried {
                match first_boss(old(units)@, old(units)@.len() as int) {
                    Some(b) => if old(units)@[b].stats is Some {
                        old(units)@.update(
                            b,
                            UnitRecord {
                                stats: Some(Stats { ap: 0, ..old(units)@[b].stats->0 }),
                                ..old(units)@[b]
                            },
                        )
                    } else {
                        old(units)@
                    },
                    None => old(units)@,
                }
            } else {
                old(units)@
            }
            &&& log@.len() == if !parried {
                0int
            } else if first_boss(old(units)@, old(units)@.len() as int) matches Some(b) && old(units)@[b].stats is Some {
                2
            } else {
                1
            }
            &&& parried ==> log@[0]@ == "PARRY! Blight Sovereign's telegraphed attack was canceled!"@
            &&& log@.len() == 2 ==> log@[1]@ == "Blight Sovereign is STUNNED and loses its action points!"@
        }),
{
    let n = units.len();
    let mut boss_here = false;
    let mut k: usize = 0;
    while k < n
        invariant
            k <= n,
            n == units@.len(),
            units@ == old(units)@,
            boss_here == exists|i: int|
                0 <= i < k && (#[trigger] units@[i]).class == Some(CharacterClass::Boss)
                    && units@[i].position == Some(target_pos),
        decreases n - k,
    {
        if units[k].class == Some(CharacterClass::Boss) && units[k].position == Some(target_pos) {
            boss_here = true;
        }
        k = k + 1;
    }
    let mut log: Vec<String> = Vec::new();
    if !boss_here {
        return log;
    }
    let in_zone = match acting {
        Some(p) => contains_position(telegraph, p),
        None => {
            let mut found = false;
            let mut j: usize = 0;
            while j < n
                invariant
                    j <= n,
                    n == units@.len(),
                    units@ == old(units)@,
                    telegraph@ == old(telegraph)@,
                    found == exists|i: int|
                        0 <= i < j && (#[trigger] units@[i]).team == Some(Team::Player)
                            && units@[i].position is Some && telegraph@.contains(units@[i].position->0),
                decreases n - j,
            {
                if units[j].team == Some(Team::Player) {
                    if let Some(p) = units[j].position {
                        if contains_position(telegraph, p) {
                            found = true;
                        }
                    }
                }
                j = j + 1;
            }
            found
        },
    };
    if !in_zone {
        return log;
    }
    log.push(String::from_str("PARRY! Blight Sovereign's telegraphed attack was canceled!"));
    telegraph.clear();
    match first_boss_exec(units) {
        Some(b) => {
            let u = units[b];
            match u.stats {
                Some(st) => {
                    units.set(b, UnitRecord { stats: Some(Stats { ap: 0, ..st }), ..u });
                    log.push(String::from_str("Blight Sovereign is STUNNED and loses its action points!"));
                },
                None => {},
            }
        },
        None => {},
    }
    log
}

// ------------------------------------------------------------------
// How a strike lands
// ------------------------------------------------------------------

/// The roll (out of 100) below which a strike is critical: 20, five lower for
/// a confident attacker and five higher for a stressed one, a tenth of the
/// fatigue higher once fatigue passes 50, and never below 1 nor above 95.
pub open spec fn crit_threshold_of(morale: MoraleState, fatigue: int) -> int {
    let mood = if morale == MoraleState::Confident {
        -5
    } else if morale == MoraleState::Stressed {
        5
    } else {
        0
    };
    let tired = if fatigue > 50 {
        fatigue / 10
    } else {
        0
    };
    let t = 20 + mood + tired;
    if t < 1 {
        1
    } else if t > 95 {
        95
    } else {
        t
    }
}

/// The roll below which a strike is critical.
pub fn crit_threshold(morale: MoraleState, fatigue: i32) -> (t: i32)
    ensures
        t == crit_threshold_of(morale, fatigue as int),
        1 <= t <= 95,
{
    let mut t: i32 = 20;
    match morale {
        MoraleState::Confident => {
            t = t - 5;
        },
        MoraleState::Stressed => {
            t = t + 5;
        },
        _ => {},
    }
    if fatigue > 50 {
        t = t + fatigue / 10;
    }
    if t < 1 {
        1
    } else if t > 95 {
        95
    } else {
        t
    }
}

/// How a strike turned out.
#[derive(Copy, Clone, Debug, PartialEq, Eq, Structural)]
pub enum HitKind {
    /// A breaking attacker fumbled: no damage.
    Fumble,
    Critical,
    /// Half damage, at least one.
    Blocked,
    Normal,
}

/// A breaking attacker fumbles on a fumble roll under 10; otherwise a roll
/// under the threshold is critical, one under the threshold plus 15 is
/// blocked, and any other is a plain hit.
pub open spec fn hit_kind_of(morale: MoraleState, fatigue: int, fumble_roll: int, roll: int) -> HitKind {
    let t = crit_threshold_of(morale, fatigue);
    if morale == MoraleState::Breaking && fumble_roll < 10 {
        HitKind::Fumble
    } else if roll < t {
        HitKind::Critical
    } else if roll < t + 15 {
        HitKind::Blocked
    } else {
        HitKind::Normal
    }
}

/// How a strike lands, from the attacker's morale and fatigue and the dice
/// rolled for it (the fumble roll counts only for a breaking attacker).
pub fn classify_hit(morale: MoraleState, fatigue: i32, fumble_roll: u32, roll: u32) -> (k: HitKind)
    ensures
        k == hit_kind_of(morale, fatigue as int, fumble_roll as int, roll as int),
{
    if morale == MoraleState::Breaking && fumble_roll < 10 {
        return HitKind::Fumble;
    }
    let t = crit_threshold(morale, fatigue);
    if roll < t as u32 {
        HitKind::Critical
    } else if roll < (t + 15) as u32 {
        HitKind::Blocked
    } else {
        HitKind::Normal
    }
}

/// Damage of a blocked strike: half the damage, rounded toward zero, and at least 1.
pub fn blocked_damage(damage: i32) -> (d: i32)
    ensures
        d == (if div_toward_zero(damage as int, 2) > 1 {
            div_toward_zero(damage as int, 2)
        } else {
            1
        }),
{
    let half: i32 = damage / 2;
    if half > 1 {
        half
    } else {
        1
    }
}

// ------------------------------------------------------------------
// The bookkeeping of a hit
// ------------------------------------------------------------------

/// What a hit of a given damage comes to, once the dice are rolled.
#[derive(Copy, Clone, Debug, PartialEq, Eq, Structural)]
pub struct HitResult {
    /// The attacker after the combo heal and the equipment lifesteal.
    pub attacker: Stats,
    /// The target after the damage.
    pub target: Stats,
    /// The damage brought the target to 0 HP or below.
    pub defeated: bool,
    /// The player's combo count after the hit.
    pub combo_count: u32,
    /// A third hit in a row by the heroes: the attacker healed 5 HP and the
    /// concert energy is to grow by 10.
    pub milestone: bool,
    /// HP the attacker's equipment restored.
    pub lifesteal: i32,
}

/// `hp` raised by `amount`, no higher than `max_hp`.
pub open spec fn capped_hp(hp: int, amount: int, max_hp: int) -> int {
    if hp + amount < max_hp {
        hp + amount
    } else {
        max_hp
    }
}

/// The equipment lifesteal of a hit: `damage * pct / 100`, rounded toward zero.
pub open spec fn lifesteal_of(damage: int, pct: int) -> int {
    div_toward_zero(damage * pct, 100)
}

/// The hit's arithmetic fits its integer types: the target's new HP and the
/// lifesteal product always; the combo heal when a hero's hit is a third in
/// a row; the lifesteal heal when there is one.
pub open spec fn hit_fits(attacker: Stats, target: Stats, damage: int, pct: int, player: bool, combo: int) -> bool {
    &&& i32::MIN <= target.hp - damage <= i32::MAX
    &&& (player ==> combo + 1 <= u32::MAX)
    &&& pct <= i32::MAX
    &&& i32::MIN <= damage * pct <= i32::MAX
    &&& (player && (combo + 1) % 3 == 0 ==> attacker.hp + 5 <= i32::MAX)
    &&& (lifesteal_of(damage, pct) > 0 ==> {
        &&& attacker.max_hp - attacker.hp - 5 >= i32::MIN
        &&& attacker.max_hp + lifesteal_of(damage, pct) <= i32::MAX
        &&& attacker.hp + lifesteal_of(damage, pct) <= i32::MAX
    })
}

/// Applies a hit of `damage` (the dice already rolled, the fractional
/// factors already applied): the target loses `damage` HP and is defeated at
/// 0 or below; a hero's hit raises the combo count, and every third hit in a
/// row heals the attacker 5 HP up to its maximum; then the attacker's
/// equipment gives back `damage * lifesteal_percent / 100` HP, up to its
/// maximum, when that is positive.
pub fn apply_hit(
    attacker: Stats,
    target: Stats,
    damage: i32,
    lifesteal_percent: u32,
    attacker_is_player: bool,
    combo_count: u32,
) -> (r: HitResult)
    requires
        hit_fits(attacker, target, damage as int, lifesteal_percent as int, attacker_is_player, combo_count as int),
    ensures
        r.target == (Stats { hp: (target.hp - damage) as i32, ..target }),
        r.defeated == (target.hp - damage <= 0),
        r.combo_count == combo_count + if attacker_is_player {
            1int
        } else {
            0int
        },
        r.milestone == (attacker_is_player && (combo_count + 1) % 3 == 0),
        ({
            let a1 = if r.milestone {
                capped_hp(attacker.hp as int, 5, attacker.max_hp as int)
            } else {
                attacker.hp as int
            };
            let ls = lifesteal_of(damage as int, lifesteal_percent as int);
            &&& r.attacker == (Stats {
                hp: (if ls > 0 {
                    capped_hp(a1, ls, attacker.max_hp as int)
                } else {
                    a1
                }) as i32,
                ..attacker
            })
            &&& r.lifesteal == if ls > 0 {
                capped_hp(a1, ls, attacker.max_hp as int) - a1
            } else {
                0
            }
        }),
{
    let hit = Stats { hp: target.hp - damage, ..target };
    let defeated = hit.hp <= 0;
    let combo = if attacker_is_player {
        combo_count + 1
    } else {
        combo_count
    };
    let milestone = attacker_is_player && combo % 3 == 0;
    let mut hp = attacker.hp;
    if milestone {
        hp = if hp + 5 < attacker.max_hp {
            hp + 5
        } else {
            attacker.max_hp
        };
    }
    assert(hp <= attacker.hp + 5 || hp == attacker.max_hp);
    let pct: i32 = lifesteal_percent as i32;
    let ls: i32 = (damage * pct) / 100;
    let mut gained: i32 = 0;
    if ls > 0 {
        let before = hp;
        assert(hp + ls <= i32::MAX) by {
            if milestone {
                assert(hp <= attacker.max_hp || hp <= attacker.hp + 5);
            }
        }
        hp = if hp + ls < attacker.max_hp {
            hp + ls
        } else {
            attacker.max_hp
        };
        gained = hp - before;
    }
    HitResult {
        attacker: Stats { hp, ..attacker },
        target: hit,
        defeated,
        combo_count: combo,
        milestone,
        lifesteal: gained,
    }
}

} // verus!
