use wuthering_terminal::components::{
    CharacterClass, EquipmentSet, EquipmentSlot, EquippedItems, ItemEffect,
};
use wuthering_terminal::equipment::{
    arcane_robe, arcane_staff, chain_mail, check_set_bonuses, dark_blade, divine_staff,
    divine_vestments, equipment_for_class, flame_blade, healing_wand, iron_sword, life_amulet,
    plate_armor, set_reward_for_defeated_class, shadow_armor, shadow_dagger, speed_ring,
    upgrade_equipment, upgrade_kit, upgrade_stat, vampiric_ring,
};

#[test]
fn test_equip_and_unequip() {
    let mut eq = EquippedItems::default();
    let sword = iron_sword();
    let old = eq.equip(sword);
    assert!(old.is_none());
    assert_eq!(eq.weapon.as_ref().unwrap().name, "Iron Sword");

    let chain = chain_mail();
    let old = eq.equip(chain);
    assert!(old.is_none());
    assert_eq!(eq.armor.as_ref().unwrap().name, "Chain Mail");

    let removed = eq.unequip(EquipmentSlot::Weapon);
    assert_eq!(removed.unwrap().name, "Iron Sword");
    assert!(eq.weapon.is_none());
}

#[test]
fn test_slot_replacement() {
    let mut eq = EquippedItems::default();
    eq.equip(iron_sword());
    let replaced = eq.equip(flame_blade());
    assert_eq!(replaced.unwrap().name, "Iron Sword");
    assert_eq!(eq.weapon.as_ref().unwrap().name, "Flame Blade");
}

#[test]
fn test_stat_bonus_aggregation() {
    let mut eq = EquippedItems::default();
    eq.equip(iron_sword());
    eq.equip(chain_mail());
    eq.equip(speed_ring());

    assert_eq!(eq.total_atk_bonus(), 5);
    assert_eq!(eq.total_def_bonus(), 5);
    assert_eq!(eq.total_hp_bonus(), 0);
    assert_eq!(eq.total_spd_bonus(), 3);
}

#[test]
fn test_equipment_for_class_warrior() {
    let gear = equipment_for_class(CharacterClass::Warrior);
    assert_eq!(gear.len(), 2);
    assert_eq!(gear[0].slot, EquipmentSlot::Weapon);
    assert_eq!(gear[1].slot, EquipmentSlot::Armor);
}

#[test]
fn test_equipment_for_class_mage() {
    let gear = equipment_for_class(CharacterClass::Mage);
    assert_eq!(gear.len(), 2);
    assert!(gear.iter().any(|e| e.name == "Staff of Storms"));
    assert!(gear.iter().any(|e| e.name == "Robe of Warding"));
}

#[test]
fn test_equipment_for_class_healer() {
    let gear = equipment_for_class(CharacterClass::Healer);
    assert_eq!(gear.len(), 2);
    assert!(gear.iter().any(|e| e.name == "Healing Wand"));
    assert!(gear.iter().any(|e| e.name == "Holy Vestments"));
}

#[test]
fn test_equipment_for_enemy_class_returns_empty() {
    let gear = equipment_for_class(CharacterClass::Boss);
    assert!(gear.is_empty());
    let gear = equipment_for_class(CharacterClass::ShadowStalker);
    assert!(gear.is_empty());
}

#[test]
fn test_set_reward_for_defeated_class() {
    let (hero, equipment) = set_reward_for_defeated_class(CharacterClass::CursedSentinel)
        .expect("sentinel should award a set piece");
    assert_eq!(hero, CharacterClass::Warrior);
    assert_eq!(equipment.name, "DarkBlade");
    assert_eq!(equipment.set_id, Some(EquipmentSet::ShadowKnight));

    let (hero, equipment) = set_reward_for_defeated_class(CharacterClass::EnemyCleric)
        .expect("cleric should award a set piece");
    assert_eq!(hero, CharacterClass::Healer);
    assert_eq!(equipment.name, "DivineStaff");

    assert!(set_reward_for_defeated_class(CharacterClass::CorruptedSpore).is_none());
}

#[test]
fn test_special_effects_exist() {
    assert!(shadow_dagger().special.is_some());
    assert!(vampiric_ring().special.is_some());
    assert!(iron_sword().special.is_none());
}

#[test]
fn test_unequip_empty_slot_returns_none() {
    let mut eq = EquippedItems::default();
    assert!(eq.unequip(EquipmentSlot::Weapon).is_none());
    assert!(eq.unequip(EquipmentSlot::Armor).is_none());
    assert!(eq.unequip(EquipmentSlot::Accessory).is_none());
}

#[test]
fn test_full_equip_all_slots() {
    let mut eq = EquippedItems::default();
    eq.equip(iron_sword());
    eq.equip(chain_mail());
    eq.equip(life_amulet());

    assert_eq!(eq.total_atk_bonus(), 5);
    assert_eq!(eq.total_def_bonus(), 5);
    assert_eq!(eq.total_hp_bonus(), 30);
    assert_eq!(eq.total_spd_bonus(), 0);
}

#[test]
fn test_plate_armor_negative_spd() {
    let armor = plate_armor();
    assert_eq!(armor.spd_bonus, -1);
    assert_eq!(armor.def_bonus, 8);
}

#[test]
fn test_set_items_have_set_id() {
    assert_eq!(dark_blade().set_id, Some(EquipmentSet::ShadowKnight));
    assert_eq!(shadow_armor().set_id, Some(EquipmentSet::ShadowKnight));
    assert_eq!(arcane_staff().set_id, Some(EquipmentSet::ArcaneWeaver));
    assert_eq!(arcane_robe().set_id, Some(EquipmentSet::ArcaneWeaver));
    assert_eq!(divine_staff().set_id, Some(EquipmentSet::DivineGuardian));
    assert_eq!(
        divine_vestments().set_id,
        Some(EquipmentSet::DivineGuardian)
    );
}

#[test]
fn test_regular_items_have_no_set_id() {
    assert!(iron_sword().set_id.is_none());
    assert!(chain_mail().set_id.is_none());
    assert!(speed_ring().set_id.is_none());
}

#[test]
fn test_check_set_bonuses_shadow_knight() {
    let mut eq = EquippedItems::default();
    eq.equip(dark_blade());
    eq.equip(shadow_armor());
    let bonuses = check_set_bonuses(&eq);
    assert_eq!(bonuses.active_sets.len(), 1);
    assert_eq!(bonuses.active_sets[0], EquipmentSet::ShadowKnight);
    assert!((bonuses.atk_multiplier as f32 / 100.0 - 1.15).abs() < 0.01);
    assert!((bonuses.def_multiplier as f32 / 100.0 - 1.05).abs() < 0.01);
}

#[test]
fn test_check_set_bonuses_arcane_weaver() {
    let mut eq = EquippedItems::default();
    eq.equip(arcane_staff());
    eq.equip(arcane_robe());
    let bonuses = check_set_bonuses(&eq);
    assert_eq!(bonuses.active_sets.len(), 1);
    assert_eq!(bonuses.active_sets[0], EquipmentSet::ArcaneWeaver);
    assert!((bonuses.atk_multiplier as f32 / 100.0 - 1.10).abs() < 0.01);
    assert!((bonuses.spd_multiplier as f32 / 100.0 - 1.10).abs() < 0.01);
}

#[test]
fn test_check_set_bonuses_divine_guardian() {
    let mut eq = EquippedItems::default();
    eq.equip(divine_staff());
    eq.equip(divine_vestments());
    let bonuses = check_set_bonuses(&eq);
    assert_eq!(bonuses.active_sets.len(), 1);
    assert_eq!(bonuses.active_sets[0], EquipmentSet::DivineGuardian);
    assert!((bonuses.def_multiplier as f32 / 100.0 - 1.15).abs() < 0.01);
    assert!((bonuses.hp_multiplier as f32 / 100.0 - 1.10).abs() < 0.01);
}

#[test]
fn test_check_set_bonuses_no_set() {
    let mut eq = EquippedItems::default();
    eq.equip(iron_sword());
    eq.equip(chain_mail());
    eq.equip(speed_ring());
    let bonuses = check_set_bonuses(&eq);
    assert!(bonuses.active_sets.is_empty());
    assert!((bonuses.atk_multiplier as f32 / 100.0 - 1.0).abs() < 0.01);
}

#[test]
fn test_check_set_bonuses_partial_set() {
    let mut eq = EquippedItems::default();
    eq.equip(dark_blade());
    let bonuses = check_set_bonuses(&eq);
    assert!(bonuses.active_sets.is_empty());
}

#[test]
fn test_upgrade_equipment_basic() {
    let mut sword = iron_sword();
    assert_eq!(sword.upgrade_level, 0);
    assert!(upgrade_equipment(&mut sword));
    assert_eq!(sword.upgrade_level, 1);
    assert_eq!(sword.atk_bonus, 6);
}

#[test]
fn test_upgrade_equipment_to_max() {
    let mut sword = iron_sword();
    assert!(upgrade_equipment(&mut sword));
    assert!(upgrade_equipment(&mut sword));
    assert!(upgrade_equipment(&mut sword));
    assert_eq!(sword.upgrade_level, 3);
    assert!(!upgrade_equipment(&mut sword));
    assert_eq!(sword.upgrade_level, 3);
}

#[test]
fn test_upgrade_stat_calculation() {
    assert_eq!(upgrade_stat(10, 1), 13);
    assert_eq!(upgrade_stat(10, 2), 15);
    assert_eq!(upgrade_stat(10, 3), 18);
}

#[test]
fn test_upgrade_defensive_item() {
    let mut armor = chain_mail();
    upgrade_equipment(&mut armor);
    assert_eq!(armor.upgrade_level, 1);
    assert_eq!(armor.def_bonus, 6);
}

#[test]
fn test_upgrade_negative_stat() {
    let mut armor = plate_armor();
    assert_eq!(armor.spd_bonus, -1);
    upgrade_equipment(&mut armor);
    assert_eq!(armor.spd_bonus, -1);
}

#[test]
fn test_upgrade_kit_item() {
    let kit = upgrade_kit();
    assert_eq!(kit.name, "Upgrade Kit");
    assert_eq!(kit.effect, ItemEffect::UpgradeKit);
}

#[test]
fn test_equipped_items_sum_lifesteal_specials() {
    let mut equipped = EquippedItems::default();
    equipped.equip(vampiric_ring());

    assert_eq!(equipped.total_lifesteal_percent(), 10);
    assert_eq!(equipped.total_hp_regen(), 0);
}

#[test]
fn test_equipped_items_sum_hp_regen_specials() {
    let mut equipped = EquippedItems::default();
    equipped.equip(healing_wand());
    equipped.equip(divine_vestments());

    assert_eq!(equipped.total_hp_regen(), 5);
    assert_eq!(equipped.total_lifesteal_percent(), 0);
}

#[test]
fn test_set_display_names() {
    assert_eq!(EquipmentSet::ShadowKnight.display_name(), "Shadow Knight");
    assert_eq!(EquipmentSet::ArcaneWeaver.display_name(), "Arcane Weaver");
    assert_eq!(
        EquipmentSet::DivineGuardian.display_name(),
        "Divine Guardian"
    );
}

#[test]
fn test_set_required_items() {
    assert_eq!(
        EquipmentSet::ShadowKnight.required_items(),
        &["DarkBlade", "ShadowArmor"]
    );
    assert_eq!(
        EquipmentSet::ArcaneWeaver.required_items(),
        &["ArcaneStaff", "ArcaneRobe"]
    );
    assert_eq!(
        EquipmentSet::DivineGuardian.required_items(),
        &["DivineStaff", "DivineVestments"]
    );
}
