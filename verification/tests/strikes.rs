use wuthering_terminal::combat::{
    apply_hit, award_set_reward, blademaster_counter, blocked_damage, classify_hit, crit_threshold, defeat_outcome,
    DefeatOutcome, HitKind,
};
use wuthering_terminal::battle_preview::UnitRecord;
use wuthering_terminal::components::{EquippedItems, Team};
use wuthering_terminal::equipment::iron_sword;
use wuthering_terminal::geometry::{Entity, Position};
use wuthering_terminal::outcome::ActionOutcome;
use wuthering_terminal::components::{BossConfig, BossPhase, CharacterClass, MoraleState, Stats};

#[test]
fn crit_threshold_follows_mood_and_fatigue() {
    assert_eq!(crit_threshold(MoraleState::Steady, 0), 20);
    assert_eq!(crit_threshold(MoraleState::Confident, 0), 15);
    assert_eq!(crit_threshold(MoraleState::Stressed, 50), 25);
    assert_eq!(crit_threshold(MoraleState::Stressed, 79), 32);
    assert_eq!(crit_threshold(MoraleState::Steady, 2000), 95);
    assert_eq!(crit_threshold(MoraleState::Confident, -500), 15);
}

#[test]
fn strikes_fumble_crit_block_or_hit() {
    assert_eq!(classify_hit(MoraleState::Breaking, 0, 9, 50), HitKind::Fumble);
    assert_eq!(classify_hit(MoraleState::Breaking, 0, 10, 19), HitKind::Critical);
    assert_eq!(classify_hit(MoraleState::Steady, 0, 0, 19), HitKind::Critical);
    assert_eq!(classify_hit(MoraleState::Steady, 0, 0, 20), HitKind::Blocked);
    assert_eq!(classify_hit(MoraleState::Steady, 0, 0, 34), HitKind::Blocked);
    assert_eq!(classify_hit(MoraleState::Steady, 0, 0, 35), HitKind::Normal);
    assert_eq!(classify_hit(MoraleState::Confident, 0, 0, 15), HitKind::Blocked);
    assert_eq!(classify_hit(MoraleState::Steady, 2000, 0, 99), HitKind::Blocked);
}

#[test]
fn blocked_strikes_do_half_and_at_least_one() {
    assert_eq!(blocked_damage(10), 5);
    assert_eq!(blocked_damage(7), 3);
    assert_eq!(blocked_damage(3), 1);
    assert_eq!(blocked_damage(1), 1);
    assert_eq!(blocked_damage(0), 1);
    assert_eq!(blocked_damage(-9), 1);
}

#[test]
fn a_hit_is_booked() {
    let hero = Stats { hp: 70, max_hp: 80, atk: 10, def: 2, spd: 3, ap: 2, max_ap: 3, level: 1, xp: 0 };
    let foe = Stats { hp: 25, max_hp: 50, atk: 8, def: 1, spd: 2, ap: 2, max_ap: 2, level: 1, xp: 0 };
    let r = apply_hit(hero, foe, 30, 20, true, 2);
    assert_eq!(r.target.hp, -5);
    assert!(r.defeated);
    assert_eq!(r.combo_count, 3);
    assert!(r.milestone);
    assert_eq!(r.attacker.hp, 80);
    assert_eq!(r.lifesteal, 5);
    let e = apply_hit(foe, hero, 12, 0, false, 2);
    assert_eq!(e.target.hp, 58);
    assert!(!e.defeated && !e.milestone);
    assert_eq!(e.combo_count, 2);
    assert_eq!(e.attacker, foe);
    let s = apply_hit(hero, foe, 9, 50, true, 0);
    assert_eq!(s.attacker.hp, 74);
    assert_eq!(s.lifesteal, 4);
}

#[test]
fn a_boss_in_its_first_phase_rises_again() {
    let boss = Stats { hp: -4, max_hp: 400, atk: 20, def: 10, spd: 4, ap: 0, max_ap: 5, level: 5, xp: 0 };
    match defeat_outcome(CharacterClass::Boss, BossPhase::Phase1, Some(boss), &BossConfig::default(), "Blight Sovereign") {
        DefeatOutcome::BossRises { stats, message } => {
            assert_eq!(
                stats,
                Some(Stats { hp: 500, max_hp: 500, atk: 30, def: 15, spd: 6, ap: 7, max_ap: 7, level: 5, xp: 0 })
            );
            assert_eq!(
                message,
                "Blight Sovereign enters Phase 2! Its power intensifies, and Celestial Ruin is unleashed!"
            );
        },
        other => panic!("unexpected {:?}", other),
    }
    match defeat_outcome(CharacterClass::Boss, BossPhase::Phase2, Some(boss), &BossConfig::default(), "Blight Sovereign") {
        DefeatOutcome::Falls { message, boss_echo, drops_kit } => {
            assert_eq!(message, "Blight Sovereign was defeated!");
            assert!(boss_echo);
            assert!(!drops_kit);
        },
        other => panic!("unexpected {:?}", other),
    }
}

#[test]
fn sentinels_and_golems_leave_an_upgrade_kit() {
    for (class, kit) in [
        (CharacterClass::CursedSentinel, true),
        (CharacterClass::GlacialGolem, true),
        (CharacterClass::ShadowStalker, false),
        (CharacterClass::Warrior, false),
    ] {
        match defeat_outcome(class, BossPhase::Phase1, None, &BossConfig::default(), "Foe") {
            DefeatOutcome::Falls { message, boss_echo, drops_kit } => {
                assert_eq!(message, "Foe was defeated!");
                assert!(!boss_echo);
                assert_eq!(drops_kit, kit);
            },
            other => panic!("unexpected {:?}", other),
        }
    }
}

#[test]
fn a_blademaster_strikes_back_on_a_low_roll() {
    let attacker = Stats { hp: 30, max_hp: 40, atk: 6, def: 3, spd: 4, ap: 1, max_ap: 2, level: 1, xp: 0 };
    let c = blademaster_counter(false, true, 24, 9, Some(attacker), "Kael", Some(CharacterClass::ShadowStalker)).unwrap();
    assert_eq!(c.damage, 9);
    assert_eq!(c.attacker, Some(Stats { hp: 21, ..attacker }));
    assert_eq!(c.message, "[fg:FFD700]BladeMaster counter-attack! Kael strikes back for 9 damage to Shadow Stalker![/fg]");
    let c = blademaster_counter(false, true, 0, 9, None, "Kael", None).unwrap();
    assert_eq!(c.message, "[fg:FFD700]BladeMaster counter-attack! Kael strikes back for 9 damage to Kael![/fg]");
    assert!(blademaster_counter(false, true, 25, 9, Some(attacker), "Kael", None).is_none());
    assert!(blademaster_counter(true, true, 3, 9, Some(attacker), "Kael", None).is_none());
    assert!(blademaster_counter(false, false, 3, 9, Some(attacker), "Kael", None).is_none());
    assert!(blademaster_counter(false, true, 3, 0, Some(attacker), "Kael", None).is_none());
}

fn hero(index: u32, class: CharacterClass) -> UnitRecord {
    UnitRecord {
        entity: Entity { index, generation: 0 },
        position: Some(Position::new(1, 1)),
        team: Some(Team::Player),
        class: Some(class),
        stats: None,
        archetype: None,
    }
}

#[test]
fn a_defeat_awards_a_set_piece_to_its_hero() {
    let units = vec![hero(1, CharacterClass::Mage), hero(2, CharacterClass::Warrior)];
    let mut worn = vec![None, Some(EquippedItems { weapon: Some(iron_sword()), armor: None, accessory: None })];
    let (line, rec) = award_set_reward(&units, &mut worn, CharacterClass::ShadowStalker, "Shadow Stalker").unwrap();
    assert_eq!(line, "Kael equipped ShadowArmor from Shadow Stalker.");
    assert_eq!(rec, ActionOutcome::EquipmentRewarded { item_name: "ShadowArmor".to_string(), hero: "Kael".to_string() });
    let w = worn[1].clone().unwrap();
    assert_eq!(w.armor.unwrap().name, "ShadowArmor");
    assert_eq!(w.weapon.unwrap().name, "Iron Sword");
    assert!(award_set_reward(&units, &mut worn, CharacterClass::GlacialGolem, "Glacial Golem").is_none());
    assert!(worn[0].is_none());
    assert!(award_set_reward(&units, &mut worn, CharacterClass::CorruptedSpore, "Corrupted Spore").is_none());
}
