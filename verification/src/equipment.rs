use vstd::prelude::*;

use crate::components::{
    CharacterClass, Element, Equipment, EquipmentSet, EquipmentSlot, EquipmentSpecial,
    EquippedItems, Item, ItemEffect, SetBonusStats, set_multipliers, set_required_names,
};

verus! {

/// The highest level a piece of equipment can be upgraded to.
pub const MAX_UPGRADE_LEVEL: u8 = 3;

/// `n / 4` rounded to the nearest integer, halves away from zero.
pub open spec fn round_quarter(n: int) -> int {
    if n >= 0 {
        (n + 2) / 4
    } else {
        -((-n + 2) / 4)
    }
}

/// A base stat raised by a quarter of itself per upgrade level, rounded to the
/// nearest integer (halves away from zero).
pub open spec fn upgraded_stat(base: int, level: int) -> int {
    base + round_quarter(base * level)
}

/// The stat a piece of equipment has at the given upgrade level.
/// The bonus, a quarter of `base` per level, is rounded exactly to the nearest
/// integer with halves away from zero.
pub fn upgrade_stat(base: i32, level: u8) -> (r: i32)
    requires
        i32::MIN <= upgraded_stat(base as int, level as int) <= i32::MAX,
    ensures
        r == upgraded_stat(base as int, level as int),
{
    assert(-550000000000 <= base as int * level as int <= 550000000000) by (nonlinear_arith)
        requires
            i32::MIN <= base <= i32::MAX,
            0 <= level <= 255,
    ;
    let n: i64 = base as i64 * level as i64;
    let bonus: i64 = if n >= 0 {
        (n + 2) / 4
    } else {
        -((-n + 2) / 4)
    };
    (base as i64 + bonus) as i32
}

/// Every bonus of `e` is its base raised to the upgrade level of `e`.
pub open spec fn bonuses_match_level(e: Equipment) -> bool {
    &&& e.atk_bonus == upgraded_stat(e.base_atk as int, e.upgrade_level as int)
    &&& e.def_bonus == upgraded_stat(e.base_def as int, e.upgrade_level as int)
    &&& e.hp_bonus == upgraded_stat(e.base_hp as int, e.upgrade_level as int)
    &&& e.spd_bonus == upgraded_stat(e.base_spd as int, e.upgrade_level as int)
}

/// All four stats of `e` stay within `i32` at the given level.
pub open spec fn upgrade_fits(e: Equipment, level: int) -> bool {
    &&& i32::MIN <= upgraded_stat(e.base_atk as int, level) <= i32::MAX
    &&& i32::MIN <= upgraded_stat(e.base_def as int, level) <= i32::MAX
    &&& i32::MIN <= upgraded_stat(e.base_hp as int, level) <= i32::MAX
    &&& i32::MIN <= upgraded_stat(e.base_spd as int, level) <= i32::MAX
}

/// Raises `item` by one upgrade level, recomputing its bonuses from its base
/// stats; items already at the highest level are left unchanged.
pub fn upgrade_equipment(item: &mut Equipment) -> (upgraded: bool)
    requires
        old(item).upgrade_level < MAX_UPGRADE_LEVEL ==> upgrade_fits(
            *old(item),
            old(item).upgrade_level + 1,
        ),
    ensures
        upgraded == (old(item).upgrade_level < MAX_UPGRADE_LEVEL),
        !upgraded ==> *final(item) == *old(item),
        old(item).upgrade_level <= MAX_UPGRADE_LEVEL ==> final(item).upgrade_level
            <= MAX_UPGRADE_LEVEL,
        upgraded ==> {
            &&& final(item).upgrade_level == old(item).upgrade_level + 1
            &&& bonuses_match_level(*final(item))
            &&& final(item).name == old(item).name
            &&& final(item).slot == old(item).slot
            &&& final(item).special == old(item).special
            &&& final(item).set_id == old(item).set_id
            &&& final(item).base_atk == old(item).base_atk
            &&& final(item).base_def == old(item).base_def
            &&& final(item).base_hp == old(item).base_hp
            &&& final(item).base_spd == old(item).base_spd
        },
{
    if item.upgrade_level >= MAX_UPGRADE_LEVEL {
        return false;
    }
    item.upgrade_level = item.upgrade_level + 1;
    item.atk_bonus = upgrade_stat(item.base_atk, item.upgrade_level);
    item.def_bonus = upgrade_stat(item.base_def, item.upgrade_level);
    item.hp_bonus = upgrade_stat(item.base_hp, item.upgrade_level);
    item.spd_bonus = upgrade_stat(item.base_spd, item.upgrade_level);
    true
}

/// Upgrading never lowers a nonnegative stat: a higher level gives at least as
/// much.
pub proof fn lemma_upgrade_monotonic(base: int, l1: int, l2: int)
    requires
        0 <= base,
        0 <= l1 <= l2,
    ensures
        upgraded_stat(base, l1) <= upgraded_stat(base, l2),
{
    vstd::arithmetic::mul::lemma_mul_inequality(l1, l2, base);
    assert(base * l1 == l1 * base && base * l2 == l2 * base) by (nonlinear_arith);
    assert(0 <= base * l1) by (nonlinear_arith)
        requires
            0 <= base,
            0 <= l1,
    ;
    vstd::arithmetic::div_mod::lemma_div_is_ordered(base * l1 + 2, base * l2 + 2, 4);
}

/// Some slot of `eq` holds a piece called `name`.
pub open spec fn slot_named(o: Option<Equipment>, name: Seq<char>) -> bool {
    match o {
        Some(e) => e.name@ == name,
        None => false,
    }
}

pub open spec fn wears_named(eq: EquippedItems, name: Seq<char>) -> bool {
    slot_named(eq.weapon, name) || slot_named(eq.armor, name) || slot_named(eq.accessory, name)
}

/// Every piece the set requires is worn, in whatever slot.
pub open spec fn set_complete(eq: EquippedItems, s: EquipmentSet) -> bool {
    wears_named(eq, set_required_names(s).0) && wears_named(eq, set_required_names(s).1)
}

/// The sets, in the order they are checked.
pub open spec fn all_sets() -> Seq<EquipmentSet> {
    seq![EquipmentSet::ShadowKnight, EquipmentSet::ArcaneWeaver, EquipmentSet::DivineGuardian]
}

/// The complete sets among the first `k` sets, in order.
pub open spec fn complete_sets_upto(eq: EquippedItems, k: int) -> Seq<EquipmentSet>
    decreases k,
{
    if k <= 0 {
        Seq::empty()
    } else {
        let prev = complete_sets_upto(eq, k - 1);
        if set_complete(eq, all_sets()[k - 1]) {
            prev.push(all_sets()[k - 1])
        } else {
            prev
        }
    }
}

/// The complete sets that `eq` wears, in check order.
pub open spec fn complete_sets(eq: EquippedItems) -> Seq<EquipmentSet> {
    complete_sets_upto(eq, 3)
}

/// The multiplier (in percent) a list of active sets gives one stat:
/// 100 with no set, that set's value with one.
pub open spec fn set_bonus_percent(active: Seq<EquipmentSet>, k: int) -> int {
    if active.len() == 0 {
        100
    } else {
        let m = set_multipliers(active[0]);
        if k == 0 {
            m.0
        } else if k == 1 {
            m.1
        } else if k == 2 {
            m.2
        } else {
            m.3
        }
    }
}

proof fn lemma_set_names_distinct()
    ensures
        "DarkBlade"@ != "ShadowArmor"@,
        "DarkBlade"@ != "ArcaneStaff"@,
        "DarkBlade"@ != "ArcaneRobe"@,
        "DarkBlade"@ != "DivineStaff"@,
        "DarkBlade"@ != "DivineVestments"@,
        "ShadowArmor"@ != "ArcaneStaff"@,
        "ShadowArmor"@ != "ArcaneRobe"@,
        "ShadowArmor"@ != "DivineStaff"@,
        "ShadowArmor"@ != "DivineVestments"@,
        "ArcaneStaff"@ != "ArcaneRobe"@,
        "ArcaneStaff"@ != "DivineStaff"@,
        "ArcaneStaff"@ != "DivineVestments"@,
        "ArcaneRobe"@ != "DivineStaff"@,
        "ArcaneRobe"@ != "DivineVestments"@,
        "DivineStaff"@ != "DivineVestments"@,
{
    reveal_strlit("DarkBlade");
    reveal_strlit("ShadowArmor");
    reveal_strlit("ArcaneStaff");
    reveal_strlit("ArcaneRobe");
    reveal_strlit("DivineStaff");
    reveal_strlit("DivineVestments");
    assert("DarkBlade"@[0] != "ShadowArmor"@[0]);
    assert("DarkBlade"@[0] != "ArcaneStaff"@[0]);
    assert("DarkBlade"@[0] != "ArcaneRobe"@[0]);
    assert("DarkBlade"@[1] != "DivineStaff"@[1]);
    assert("DarkBlade"@[1] != "DivineVestments"@[1]);
    assert("ShadowArmor"@[0] != "ArcaneStaff"@[0]);
    assert("ShadowArmor"@[0] != "ArcaneRobe"@[0]);
    assert("ShadowArmor"@[0] != "DivineStaff"@[0]);
    assert("ShadowArmor"@[0] != "DivineVestments"@[0]);
    assert("ArcaneStaff"@[6] != "ArcaneRobe"@[6]);
    assert("ArcaneStaff"@[0] != "DivineStaff"@[0]);
    assert("ArcaneStaff"@[0] != "DivineVestments"@[0]);
    assert("ArcaneRobe"@[0] != "DivineStaff"@[0]);
    assert("ArcaneRobe"@[0] != "DivineVestments"@[0]);
    assert("DivineStaff"@[6] != "DivineVestments"@[6]);
}

/// Two different sets cannot both be complete: together they name four
/// distinct pieces, and only three slots exist.
pub proof fn lemma_sets_exclusive(eq: EquippedItems, a: EquipmentSet, b: EquipmentSet)
    requires
        a != b,
        set_complete(eq, a),
    ensures
        !set_complete(eq, b),
{
    lemma_set_names_distinct();
}

/// At most one set is ever active.
pub proof fn lemma_at_most_one_active_set(eq: EquippedItems)
    ensures
        complete_sets(eq).len() <= 1,
{
    lemma_set_names_distinct();
    assert(all_sets()[0] == EquipmentSet::ShadowKnight);
    assert(all_sets()[1] == EquipmentSet::ArcaneWeaver);
    assert(all_sets()[2] == EquipmentSet::DivineGuardian);
    reveal_with_fuel(complete_sets_upto, 4);
}

fn slot_has_name(o: &Option<Equipment>, name: &str) -> (r: bool)
    ensures
        r == slot_named(*o, name@),
{
    match o {
        Some(e) => e.name == String::from_str(name),
        None => false,
    }
}

fn wears(eq: &EquippedItems, name: &str) -> (r: bool)
    ensures
        r == wears_named(*eq, name@),
{
    slot_has_name(&eq.weapon, name) || slot_has_name(&eq.armor, name) || slot_has_name(
        &eq.accessory,
        name,
    )
}

fn is_set_complete(eq: &EquippedItems, s: EquipmentSet) -> (r: bool)
    ensures
        r == set_complete(*eq, s),
{
    let required = s.required_items();
    wears(eq, required[0]) && wears(eq, required[1])
}

/// The set bonuses of what is worn: the complete sets, in check order, and the
/// multipliers they give (100 percent when no set is complete).
pub fn check_set_bonuses(equipped: &EquippedItems) -> (r: SetBonusStats)
    ensures
        r.active_sets@ == complete_sets(*equipped),
        r.active_sets@.len() <= 1,
        r.atk_multiplier == set_bonus_percent(r.active_sets@, 0),
        r.def_multiplier == set_bonus_percent(r.active_sets@, 1),
        r.hp_multiplier == set_bonus_percent(r.active_sets@, 2),
        r.spd_multiplier == set_bonus_percent(r.active_sets@, 3),
{
    let mut result = SetBonusStats::default();
    let sets = vec![
        EquipmentSet::ShadowKnight,
        EquipmentSet::ArcaneWeaver,
        EquipmentSet::DivineGuardian,
    ];
    assert(sets@ =~= all_sets());
    proof {
        lemma_at_most_one_active_set(*equipped);
    }
    let mut i: usize = 0;
    while i < 3
        invariant
            i <= 3,
            sets@ == all_sets(),
            result.active_sets@ == complete_sets_upto(*equipped, i as int),
            complete_sets(*equipped).len() <= 1,
            result.active_sets@.len() <= 1,
            result.atk_multiplier == set_bonus_percent(result.active_sets@, 0),
            result.def_multiplier == set_bonus_percent(result.active_sets@, 1),
            result.hp_multiplier == set_bonus_percent(result.active_sets@, 2),
            result.spd_multiplier == set_bonus_percent(result.active_sets@, 3),
        decreases 3 - i,
    {
        let set = sets[i];
        if is_set_complete(equipped, set) {
            proof {
                if result.active_sets@.len() == 1 {
                    let prev = result.active_sets@[0];
                    lemma_complete_sets_upto_members(*equipped, i as int);
                    lemma_sets_exclusive(*equipped, prev, set);
                    assert(false);
                }
            }
            result.atk_multiplier = result.atk_multiplier * set.atk_multiplier() / 100;
            result.def_multiplier = result.def_multiplier * set.def_multiplier() / 100;
            result.hp_multiplier = result.hp_multiplier * set.hp_multiplier() / 100;
            result.spd_multiplier = result.spd_multiplier * set.spd_multiplier() / 100;
            result.active_sets.push(set);
        }
        i = i + 1;
    }
    result
}

/// Every set listed among the complete sets up to `k` is complete and comes
/// from the first `k` sets.
proof fn lemma_complete_sets_upto_members(eq: EquippedItems, k: int)
    requires
        0 <= k <= 3,
    ensures
        forall|j: int|
            0 <= j < complete_sets_upto(eq, k).len() ==> {
                &&& set_complete(eq, #[trigger] complete_sets_upto(eq, k)[j])
                &&& exists|m: int| 0 <= m < k && all_sets()[m] == complete_sets_upto(eq, k)[j]
            },
    decreases k,
{
    if k > 0 {
        lemma_complete_sets_upto_members(eq, k - 1);
        let prev = complete_sets_upto(eq, k - 1);
        assert forall|j: int| 0 <= j < complete_sets_upto(eq, k).len() implies {
            &&& set_complete(eq, #[trigger] complete_sets_upto(eq, k)[j])
            &&& exists|m: int| 0 <= m < k && all_sets()[m] == complete_sets_upto(eq, k)[j]
        } by {
            if j < prev.len() {
                assert(complete_sets_upto(eq, k)[j] == prev[j]);
                let m = choose|m: int| 0 <= m < k - 1 && all_sets()[m] == prev[j];
                assert(0 <= m < k && all_sets()[m] == complete_sets_upto(eq, k)[j]);
            } else {
                assert(0 <= k - 1 < k && all_sets()[k - 1] == complete_sets_upto(eq, k)[j]);
            }
        }
    }
}

/// `e` is a fresh (never upgraded) piece with the given description.
pub open spec fn fresh_item(
    e: Equipment,
    name: Seq<char>,
    slot: EquipmentSlot,
    atk: int,
    def: int,
    hp: int,
    spd: int,
    special: Option<EquipmentSpecial>,
    set: Option<EquipmentSet>,
) -> bool {
    &&& e.name@ == name
    &&& e.slot == slot
    &&& e.atk_bonus == atk
    &&& e.def_bonus == def
    &&& e.hp_bonus == hp
    &&& e.spd_bonus == spd
    &&& e.special == special
    &&& e.upgrade_level == 0
    &&& e.set_id == set
    &&& e.base_atk == atk
    &&& e.base_def == def
    &&& e.base_hp == hp
    &&& e.base_spd == spd
}

fn make_equipment(
    name: &str,
    slot: EquipmentSlot,
    atk: i32,
    def: i32,
    hp: i32,
    spd: i32,
    special: Option<EquipmentSpecial>,
    set: Option<EquipmentSet>,
) -> (e: Equipment)
    ensures
        fresh_item(e, name@, slot, atk as int, def as int, hp as int, spd as int, special, set),
{
    Equipment {
        name: String::from_str(name),
        slot,
        atk_bonus: atk,
        def_bonus: def,
        hp_bonus: hp,
        spd_bonus: spd,
        special,
        upgrade_level: 0,
        set_id: set,
        base_atk: atk,
        base_def: def,
        base_hp: hp,
        base_spd: spd,
    }
}

pub open spec fn is_shadow_dagger(e: Equipment) -> bool {
    fresh_item(e, "Shadow Dagger"@, EquipmentSlot::Weapon, 6, 0, 0, 2, Some(EquipmentSpecial::CritBoost(15)), None)
}

pub open spec fn is_leather_armor(e: Equipment) -> bool {
    fresh_item(e, "Leather Armor"@, EquipmentSlot::Armor, 0, 3, 5, 1, None, None)
}

pub open spec fn is_iron_sword(e: Equipment) -> bool {
    fresh_item(e, "Iron Sword"@, EquipmentSlot::Weapon, 5, 0, 0, 0, None, None)
}

pub open spec fn is_flame_blade(e: Equipment) -> bool {
    fresh_item(
        e,
        "Flame Blade"@,
        EquipmentSlot::Weapon,
        8,
        0,
        0,
        0,
        Some(EquipmentSpecial::ElementalDamage(Element::Physical, 5)),
        None,
    )
}

pub open spec fn is_staff_of_storms(e: Equipment) -> bool {
    fresh_item(
        e,
        "Staff of Storms"@,
        EquipmentSlot::Weapon,
        10,
        0,
        0,
        0,
        Some(EquipmentSpecial::ElementalDamage(Element::Lightning, 8)),
        None,
    )
}

pub open spec fn is_healing_wand(e: Equipment) -> bool {
    fresh_item(e, "Healing Wand"@, EquipmentSlot::Weapon, 3, 0, 0, 0, Some(EquipmentSpecial::HpRegen(5)), None)
}

pub open spec fn is_chain_mail(e: Equipment) -> bool {
    fresh_item(e, "Chain Mail"@, EquipmentSlot::Armor, 0, 5, 0, 0, None, None)
}

pub open spec fn is_robe_of_warding(e: Equipment) -> bool {
    fresh_item(e, "Robe of Warding"@, EquipmentSlot::Armor, 0, 3, 0, 2, None, None)
}

pub open spec fn is_holy_vestments(e: Equipment) -> bool {
    fresh_item(e, "Holy Vestments"@, EquipmentSlot::Armor, 0, 4, 20, 0, None, None)
}

pub open spec fn is_plate_armor(e: Equipment) -> bool {
    fresh_item(e, "Plate Armor"@, EquipmentSlot::Armor, 0, 8, 0, -1, None, None)
}

pub open spec fn is_speed_ring(e: Equipment) -> bool {
    fresh_item(e, "Speed Ring"@, EquipmentSlot::Accessory, 0, 0, 0, 3, None, None)
}

pub open spec fn is_life_amulet(e: Equipment) -> bool {
    fresh_item(e, "Life Amulet"@, EquipmentSlot::Accessory, 0, 0, 30, 0, None, None)
}

pub open spec fn is_crit_gem(e: Equipment) -> bool {
    fresh_item(e, "Crit Gem"@, EquipmentSlot::Accessory, 0, 0, 0, 0, Some(EquipmentSpecial::CritBoost(15)), None)
}

pub open spec fn is_vampiric_ring(e: Equipment) -> bool {
    fresh_item(
        e,
        "Vampiric Ring"@,
        EquipmentSlot::Accessory,
        0,
        0,
        0,
        0,
        Some(EquipmentSpecial::LifestealPercent(10)),
        None,
    )
}

pub open spec fn is_dark_blade(e: Equipment) -> bool {
    fresh_item(
        e,
        "DarkBlade"@,
        EquipmentSlot::Weapon,
        12,
        0,
        0,
        1,
        Some(EquipmentSpecial::CritBoost(10)),
        Some(EquipmentSet::ShadowKnight),
    )
}

pub open spec fn is_shadow_armor(e: Equipment) -> bool {
    fresh_item(e, "ShadowArmor"@, EquipmentSlot::Armor, 2, 6, 10, 2, None, Some(EquipmentSet::ShadowKnight))
}

pub open spec fn is_arcane_staff(e: Equipment) -> bool {
    fresh_item(
        e,
        "ArcaneStaff"@,
        EquipmentSlot::Weapon,
        14,
        0,
        0,
        0,
        Some(EquipmentSpecial::ElementalDamage(Element::Lightning, 12)),
        Some(EquipmentSet::ArcaneWeaver),
    )
}

pub open spec fn is_arcane_robe(e: Equipment) -> bool {
    fresh_item(e, "ArcaneRobe"@, EquipmentSlot::Armor, 3, 4, 0, 3, None, Some(EquipmentSet::ArcaneWeaver))
}

pub open spec fn is_divine_staff(e: Equipment) -> bool {
    fresh_item(
        e,
        "DivineStaff"@,
        EquipmentSlot::Weapon,
        6,
        0,
        0,
        0,
        Some(EquipmentSpecial::HpRegen(10)),
        Some(EquipmentSet::DivineGuardian),
    )
}

pub open spec fn is_divine_vestments(e: Equipment) -> bool {
    fresh_item(e, "DivineVestments"@, EquipmentSlot::Armor, 0, 6, 40, 0, None, Some(EquipmentSet::DivineGuardian))
}

pub fn shadow_dagger() -> (e: Equipment)
    ensures
        is_shadow_dagger(e),
{
    make_equipment("Shadow Dagger", EquipmentSlot::Weapon, 6, 0, 0, 2, Some(EquipmentSpecial::CritBoost(15)), None)
}

pub fn leather_armor() -> (e: Equipment)
    ensures
        is_leather_armor(e),
{
    make_equipment("Leather Armor", EquipmentSlot::Armor, 0, 3, 5, 1, None, None)
}

pub fn iron_sword() -> (e: Equipment)
    ensures
        is_iron_sword(e),
{
    make_equipment("Iron Sword", EquipmentSlot::Weapon, 5, 0, 0, 0, None, None)
}

pub fn flame_blade() -> (e: Equipment)
    ensures
        is_flame_blade(e),
{
    make_equipment(
        "Flame Blade",
        EquipmentSlot::Weapon,
        8,
        0,
        0,
        0,
        Some(EquipmentSpecial::ElementalDamage(Element::Physical, 5)),
        None,
    )
}

pub fn staff_of_storms() -> (e: Equipment)
    ensures
        is_staff_of_storms(e),
{
    make_equipment(
        "Staff of Storms",
        EquipmentSlot::Weapon,
        10,
        0,
        0,
        0,
        Some(EquipmentSpecial::ElementalDamage(Element::Lightning, 8)),
        None,
    )
}

pub fn healing_wand() -> (e: Equipment)
    ensures
        is_healing_wand(e),
{
    make_equipment("Healing Wand", EquipmentSlot::Weapon, 3, 0, 0, 0, Some(EquipmentSpecial::HpRegen(5)), None)
}

pub fn chain_mail() -> (e: Equipment)
    ensures
        is_chain_mail(e),
{
    make_equipment("Chain Mail", EquipmentSlot::Armor, 0, 5, 0, 0, None, None)
}

pub fn robe_of_warding() -> (e: Equipment)
    ensures
        is_robe_of_warding(e),
{
    make_equipment("Robe of Warding", EquipmentSlot::Armor, 0, 3, 0, 2, None, None)
}

pub fn holy_vestments() -> (e: Equipment)
    ensures
        is_holy_vestments(e),
{
    make_equipment("Holy Vestments", EquipmentSlot::Armor, 0, 4, 20, 0, None, None)
}

pub fn plate_armor() -> (e: Equipment)
    ensures
        is_plate_armor(e),
{
    make_equipment("Plate Armor", EquipmentSlot::Armor, 0, 8, 0, -1, None, None)
}

pub fn speed_ring() -> (e: Equipment)
    ensures
        is_speed_ring(e),
{
    make_equipment("Speed Ring", EquipmentSlot::Accessory, 0, 0, 0, 3, None, None)
}

pub fn life_amulet() -> (e: Equipment)
    ensures
        is_life_amulet(e),
{
    make_equipment("Life Amulet", EquipmentSlot::Accessory, 0, 0, 30, 0, None, None)
}

pub fn crit_gem() -> (e: Equipment)
    ensures
        is_crit_gem(e),
{
    make_equipment("Crit Gem", EquipmentSlot::Accessory, 0, 0, 0, 0, Some(EquipmentSpecial::CritBoost(15)), None)
}

pub fn vampiric_ring() -> (e: Equipment)
    ensures
        is_vampiric_ring(e),
{
    make_equipment(
        "Vampiric Ring",
        EquipmentSlot::Accessory,
        0,
        0,
        0,
        0,
        Some(EquipmentSpecial::LifestealPercent(10)),
        None,
    )
}

pub fn dark_blade() -> (e: Equipment)
    ensures
        is_dark_blade(e),
{
    make_equipment(
        "DarkBlade",
        EquipmentSlot::Weapon,
        12,
        0,
        0,
        1,
        Some(EquipmentSpecial::CritBoost(10)),
        Some(EquipmentSet::ShadowKnight),
    )
}

pub fn shadow_armor() -> (e: Equipment)
    ensures
        is_shadow_armor(e),
{
    make_equipment("ShadowArmor", EquipmentSlot::Armor, 2, 6, 10, 2, None, Some(EquipmentSet::ShadowKnight))
}

pub fn arcane_staff() -> (e: Equipment)
    ensures
        is_arcane_staff(e),
{
    make_equipment(
        "ArcaneStaff",
        EquipmentSlot::Weapon,
        14,
        0,
        0,
        0,
        Some(EquipmentSpecial::ElementalDamage(Element::Lightning, 12)),
        Some(EquipmentSet::ArcaneWeaver),
    )
}

pub fn arcane_robe() -> (e: Equipment)
    ensures
        is_arcane_robe(e),
{
    make_equipment("ArcaneRobe", EquipmentSlot::Armor, 3, 4, 0, 3, None, Some(EquipmentSet::ArcaneWeaver))
}

pub fn divine_staff() -> (e: Equipment)
    ensures
        is_divine_staff(e),
{
    make_equipment(
        "DivineStaff",
        EquipmentSlot::Weapon,
        6,
        0,
        0,
        0,
        Some(EquipmentSpecial::HpRegen(10)),
        Some(EquipmentSet::DivineGuardian),
    )
}

pub fn divine_vestments() -> (e: Equipment)
    ensures
        is_divine_vestments(e),
{
    make_equipment(
        "DivineVestments",
        EquipmentSlot::Armor,
        0,
        6,
        40,
        0,
        None,
        Some(EquipmentSet::DivineGuardian),
    )
}

/// The starting gear of a hero class: a weapon, then an armor. Other classes
/// start with nothing.
pub fn equipment_for_class(class: CharacterClass) -> (r: Vec<Equipment>)
    ensures
        match class {
            CharacterClass::Warrior => r@.len() == 2 && is_iron_sword(r@[0]) && is_chain_mail(r@[1]),
            CharacterClass::Rogue => r@.len() == 2 && is_shadow_dagger(r@[0]) && is_leather_armor(r@[1]),
            CharacterClass::Mage => r@.len() == 2 && is_staff_of_storms(r@[0]) && is_robe_of_warding(
                r@[1],
            ),
            CharacterClass::Healer => r@.len() == 2 && is_healing_wand(r@[0]) && is_holy_vestments(
                r@[1],
            ),
            _ => r@.len() == 0,
        },
{
    match class {
        CharacterClass::Warrior => vec![iron_sword(), chain_mail()],
        CharacterClass::Rogue => vec![shadow_dagger(), leather_armor()],
        CharacterClass::Mage => vec![staff_of_storms(), robe_of_warding()],
        CharacterClass::Healer => vec![healing_wand(), holy_vestments()],
        _ => Vec::new(),
    }
}

/// The set piece awarded for defeating an enemy of the given class, together
/// with the hero class that receives it.
pub fn set_reward_for_defeated_class(class: CharacterClass) -> (r: Option<(CharacterClass, Equipment)>)
    ensures
        match class {
            CharacterClass::ShadowStalker => r matches Some((h, e)) && h == CharacterClass::Warrior
                && is_shadow_armor(e),
            CharacterClass::CursedSentinel => r matches Some((h, e)) && h == CharacterClass::Warrior
                && is_dark_blade(e),
            CharacterClass::PlagueWraith => r matches Some((h, e)) && h == CharacterClass::Mage
                && is_arcane_robe(e),
            CharacterClass::GlacialGolem => r matches Some((h, e)) && h == CharacterClass::Mage
                && is_arcane_staff(e),
            CharacterClass::EnemyCleric => r matches Some((h, e)) && h == CharacterClass::Healer
                && is_divine_staff(e),
            CharacterClass::Boss => r matches Some((h, e)) && h == CharacterClass::Healer
                && is_divine_vestments(e),
            _ => r is None,
        },
{
    match class {
        CharacterClass::ShadowStalker => Some((CharacterClass::Warrior, shadow_armor())),
        CharacterClass::CursedSentinel => Some((CharacterClass::Warrior, dark_blade())),
        CharacterClass::PlagueWraith => Some((CharacterClass::Mage, arcane_robe())),
        CharacterClass::GlacialGolem => Some((CharacterClass::Mage, arcane_staff())),
        CharacterClass::EnemyCleric => Some((CharacterClass::Healer, divine_staff())),
        CharacterClass::Boss => Some((CharacterClass::Healer, divine_vestments())),
        _ => None,
    }
}

/// A consumable that raises one piece of equipment by a level.
pub fn upgrade_kit() -> (kit: Item)
    ensures
        kit.name@ == "Upgrade Kit"@,
        kit.effect == ItemEffect::UpgradeKit,
        !kit.consumed,
{
    Item { name: String::from_str("Upgrade Kit"), effect: ItemEffect::UpgradeKit, consumed: false }
}

} // verus!
