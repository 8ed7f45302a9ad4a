use wuthering_terminal::battle_preview::{AoEShape, BattlePreview, UnitRecord};
use wuthering_terminal::components::{
    CharacterClass, EquipmentSlot, EquippedItems, MoraleState, Stats, Team,
};
use wuthering_terminal::equipment::{
    arcane_robe, arcane_staff, check_set_bonuses, chain_mail, dark_blade, divine_staff,
    divine_vestments, flame_blade, iron_sword, shadow_armor, speed_ring, upgrade_stat,
};
use wuthering_terminal::geometry::{Entity, Position};
use wuthering_terminal::map::TacticalMap;

#[test]
fn equipping_then_unequipping_hands_the_item_back() {
    let mut eq = EquippedItems::default();
    eq.equip(chain_mail());
    eq.equip(speed_ring());
    let before_armor = eq.armor.as_ref().unwrap().name.clone();
    let previous = eq.equip(flame_blade());
    assert!(previous.is_none());
    let back = eq.unequip(EquipmentSlot::Weapon).unwrap();
    assert_eq!(back.name, "Flame Blade");
    assert!(eq.weapon.is_none());
    assert_eq!(eq.armor.as_ref().unwrap().name, before_armor);
    assert_eq!(eq.accessory.as_ref().unwrap().name, "Speed Ring");
}

#[test]
fn equipping_replaces_the_slot_contribution_in_totals() {
    let mut eq = EquippedItems::default();
    eq.equip(iron_sword());
    eq.equip(chain_mail());
    let atk_before = eq.total_atk_bonus();
    let old_sword = eq.equip(flame_blade()).unwrap();
    let blade = eq.weapon.as_ref().unwrap().atk_bonus;
    assert_eq!(eq.total_atk_bonus(), atk_before - old_sword.atk_bonus + blade);
    let def_before = eq.total_def_bonus();
    let armor = eq.unequip(EquipmentSlot::Armor).unwrap();
    assert_eq!(eq.total_def_bonus(), def_before - armor.def_bonus);
}

#[test]
fn at_most_one_set_is_active() {
    let mut eq = EquippedItems::default();
    eq.equip(dark_blade());
    eq.equip(shadow_armor());
    assert_eq!(check_set_bonuses(&eq).active_sets.len(), 1);
    eq.equip(arcane_robe());
    assert_eq!(check_set_bonuses(&eq).active_sets.len(), 0);
    let mut eq2 = EquippedItems::default();
    eq2.equip(arcane_staff());
    eq2.equip(divine_vestments());
    eq2.equip(divine_staff());
    assert!(check_set_bonuses(&eq2).active_sets.len() <= 1);
}

#[test]
fn upgrades_never_lower_a_nonnegative_stat() {
    for base in [0, 1, 2, 5, 10, 33, 1000] {
        for level in 0u8..4 {
            assert!(upgrade_stat(base, level) <= upgrade_stat(base, level + 1));
        }
    }
    assert_eq!(upgrade_stat(-1, 3), -2);
    assert_eq!(upgrade_stat(-2, 1), -3);
    assert_eq!(upgrade_stat(2, 1), 3);
}

#[test]
fn higher_morale_is_never_in_a_worse_band() {
    let rank = |s: MoraleState| match s {
        MoraleState::Broken => 0,
        MoraleState::Breaking => 1,
        MoraleState::Stressed => 2,
        MoraleState::Steady => 3,
        MoraleState::Confident => 4,
    };
    let mut last = 0;
    for m in -5..120 {
        let r = rank(MoraleState::from_morale(m));
        assert!(r >= last);
        last = r;
    }
    assert_eq!(MoraleState::from_morale(0), MoraleState::Broken);
    assert_eq!(MoraleState::from_morale(1), MoraleState::Breaking);
    assert_eq!(MoraleState::from_morale(25), MoraleState::Stressed);
    assert_eq!(MoraleState::from_morale(50), MoraleState::Steady);
    assert_eq!(MoraleState::from_morale(80), MoraleState::Confident);
}

fn unit(index: u32, hp: i32, spd: i32) -> UnitRecord {
    UnitRecord {
        entity: Entity { index, generation: 0 },
        position: Some(Position::new(index as i16, 0)),
        team: Some(Team::Player),
        class: Some(CharacterClass::Warrior),
        stats: Some(Stats { hp, max_hp: 10, atk: 1, def: 1, spd, ap: 1, max_ap: 1, level: 1, xp: 0 }),
        archetype: None,
    }
}

#[test]
fn turn_order_lists_each_living_unit_once() {
    let mut units = vec![unit(0, 5, 3), unit(1, 0, 9), unit(2, 7, 3), unit(3, -1, 1), unit(4, 2, 8)];
    units.push(UnitRecord { class: None, ..unit(5, 5, 5) });
    let order = BattlePreview::calculate_turn_order(&units, None);
    let listed: Vec<u32> = order.entries.iter().map(|e| e.entity.index).collect();
    assert_eq!(listed, vec![4, 0, 2]);
}

#[test]
fn area_tiles_stay_on_the_map() {
    let map = TacticalMap::new(6, 4);
    for shape in [AoEShape::Circle, AoEShape::Square, AoEShape::Line, AoEShape::Cone, AoEShape::Cross] {
        for r in 0..5 {
            let p = BattlePreview::calculate_aoe_preview(Position::new(1, 1), r, shape, &[], &map, Team::Player);
            for t in &p.affected_tiles {
                assert!(t.x >= 0 && t.x < 6 && t.y >= 0 && t.y < 4);
            }
        }
    }
}
