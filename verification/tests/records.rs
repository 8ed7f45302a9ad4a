use wuthering_terminal::battle_preview::UnitRecord;
use wuthering_terminal::bestiary::{
    create_initial_bestiary, create_initial_lore_journal, record_enemy_defeat,
    record_enemy_encounter, record_enemy_hit_taken, record_player_defeat_by, unlock_lore,
};
use wuthering_terminal::combat::{
    apply_element_to_unit, apply_elemental_status, bloom_heal, bloom_targets,
    build_concert_energy, check_boss_phase_transition, ElementEvent, ElementalReaction,
};
use wuthering_terminal::components::{
    BossConfig, BossPhase, CharacterClass, ElementalShield, ElementalStatus, LoreCategory,
    Rooted, ShieldType, Stats, TargetingMode, Team,
};
use wuthering_terminal::geometry::{Entity, Position};
use wuthering_terminal::skills::{get_skill_aoe, get_skill_info};
use wuthering_terminal::turn_order::cycle_character;

#[test]
fn starting_bestiary_and_journal() {
    let b = create_initial_bestiary();
    assert_eq!(b.entries.len(), 7);
    assert_eq!(b.entries[0].class, CharacterClass::ShadowStalker);
    assert_eq!(b.entries[0].drop_table, vec!["Frostbite Echo".to_string(), "Shadow Essence".to_string()]);
    assert_eq!(b.entries[5].name, "Dark Cleric");
    assert!(b.entries.iter().all(|e| !e.encountered && e.defeated_count == 0));
    let j = create_initial_lore_journal();
    assert_eq!(j.entries.len(), 10);
    assert_eq!(j.entries[6].id, "combat_insights");
    assert!(!j.entries[6].discovered);
    assert_eq!(j.entries[1].category, LoreCategory::Mechanic);
    assert_eq!(j.entries.iter().filter(|e| e.discovered).count(), 6);
}

#[test]
fn first_encounter_is_announced_once() {
    let mut b = create_initial_bestiary();
    let m = record_enemy_encounter(&mut b, CharacterClass::PlagueWraith);
    assert_eq!(m.as_deref(), Some("[fg:FFD700]New bestiary entry discovered: Plague Wraith![/fg]"));
    assert!(b.entries[3].encountered);
    assert!(!b.entries[0].encountered);
    assert_eq!(record_enemy_encounter(&mut b, CharacterClass::PlagueWraith), None);
    assert_eq!(record_enemy_encounter(&mut b, CharacterClass::Warrior), None);
}

#[test]
fn third_defeat_reveals_the_weakness_and_unlocks_lore() {
    let mut b = create_initial_bestiary();
    let mut j = create_initial_lore_journal();
    assert!(record_enemy_defeat(&mut b, &mut j, CharacterClass::GlacialGolem, 4).is_empty());
    assert!(record_enemy_defeat(&mut b, &mut j, CharacterClass::GlacialGolem, 5).is_empty());
    let log = record_enemy_defeat(&mut b, &mut j, CharacterClass::GlacialGolem, 7);
    assert_eq!(
        log,
        vec![
            "[fg:FFD700]Bestiary: Glacial Golem weakness -- Fire and Lightning deal extra damage![/fg]"
                .to_string(),
            "[fg:9933FF]Lore unlocked: 'Combat Insights'![/fg]".to_string(),
        ]
    );
    assert_eq!(b.entries[4].defeated_count, 3);
    assert_eq!(b.entries[4].known_weakness.as_deref(), Some("Fire and Lightning deal extra damage"));
    assert!(j.entries[6].discovered);
    assert_eq!(j.entries[6].turn_discovered, 7);
    let mut again = create_initial_bestiary();
    for _ in 0..2 {
        record_enemy_defeat(&mut again, &mut j, CharacterClass::Boss, 9);
    }
    let log = record_enemy_defeat(&mut again, &mut j, CharacterClass::Boss, 9);
    assert_eq!(log.len(), 1);
    assert_eq!(j.entries[6].turn_discovered, 7);
    let log = record_enemy_defeat(&mut b, &mut j, CharacterClass::GlacialGolem, 8);
    assert!(log.is_empty());
    assert_eq!(b.entries[4].defeated_count, 4);
}

#[test]
fn tenth_hit_reveals_the_resistance() {
    let mut b = create_initial_bestiary();
    for _ in 0..9 {
        assert_eq!(record_enemy_hit_taken(&mut b, CharacterClass::EnemyCleric), None);
    }
    assert_eq!(
        record_enemy_hit_taken(&mut b, CharacterClass::EnemyCleric).as_deref(),
        Some("[fg:FFD700]Bestiary: Dark Cleric resistance -- Resists Holy/Nature debuffs![/fg]")
    );
    assert_eq!(b.entries[5].hits_taken, 10);
    assert_eq!(record_enemy_hit_taken(&mut b, CharacterClass::EnemyCleric), None);
    record_player_defeat_by(&mut b, CharacterClass::Boss);
    record_player_defeat_by(&mut b, CharacterClass::Boss);
    assert_eq!(b.entries[6].times_killed_by, 2);
    assert_eq!(b.entries[5].times_killed_by, 0);
}

#[test]
fn lore_unlocks_once() {
    let mut j = create_initial_lore_journal();
    assert_eq!(
        unlock_lore(&mut j, "echo_lore", 3).as_deref(),
        Some("[fg:9933FF]Lore unlocked: 'Echo Lore'![/fg]")
    );
    assert_eq!(j.entries[9].turn_discovered, 3);
    assert_eq!(unlock_lore(&mut j, "echo_lore", 4), None);
    assert_eq!(unlock_lore(&mut j, "the_blight", 4), None);
    assert_eq!(unlock_lore(&mut j, "no_such_entry", 4), None);
    assert_eq!(j.entries[9].turn_discovered, 3);
}

#[test]
fn concert_energy_is_capped() {
    let mut e = 90u32;
    assert_eq!(build_concert_energy(&mut e, 5), "Concert Energy: 95/100");
    assert_eq!(build_concert_energy(&mut e, 30), "Concert Energy: 100/100");
    assert_eq!(e, 100);
    let mut z = 0u32;
    assert_eq!(build_concert_energy(&mut z, 0), "Concert Energy: 0/100");
}

fn boss_stats(hp: i32) -> Stats {
    Stats { hp, max_hp: 400, atk: 30, def: 12, spd: 4, ap: 2, max_ap: 5, level: 9, xp: 11 }
}

#[test]
fn boss_enters_phase_two_at_the_threshold() {
    let config = BossConfig::default();
    let t = check_boss_phase_transition(BossPhase::Phase1, Some(boss_stats(250)), &config).unwrap();
    assert_eq!(
        t.stats,
        Stats { hp: 500, max_hp: 500, atk: 40, def: 17, spd: 6, ap: 7, max_ap: 7, level: 9, xp: 11 }
    );
    assert_eq!(
        t.shield,
        Some(ElementalShield { shield_type: ShieldType::Physical, amount: 100, max_amount: 100 })
    );
    assert!(check_boss_phase_transition(BossPhase::Phase1, Some(boss_stats(251)), &config).is_none());
    assert!(check_boss_phase_transition(BossPhase::Phase1, Some(boss_stats(0)), &config).is_none());
    assert!(check_boss_phase_transition(BossPhase::Phase2, Some(boss_stats(10)), &config).is_none());
    assert!(check_boss_phase_transition(BossPhase::Phase1, None, &config).is_none());
    let no_shield = BossConfig { phase2_shield_amount: 0, ..config };
    let t = check_boss_phase_transition(BossPhase::Phase1, Some(boss_stats(1)), &no_shield).unwrap();
    assert_eq!(t.shield, None);
}

fn target() -> Stats {
    Stats { hp: 35, max_hp: 80, atk: 10, def: 3, spd: 5, ap: 3, max_ap: 3, level: 1, xp: 0 }
}

#[test]
fn ice_meeting_lightning_shatters() {
    let r = apply_elemental_status(
        Some(ElementalStatus::Ice { duration: 2 }),
        ElementalStatus::Lightning { duration: 1 },
        Some(CharacterClass::GlacialGolem),
        Some(target()),
        true,
    );
    assert_eq!(r.reaction, Some(ElementalReaction::Shatter));
    assert_eq!(r.status, Some(ElementalStatus::Normal));
    assert_eq!(r.stats.unwrap().hp, -5);
    assert!(r.defeated);
    assert!(r.root.is_none());
    assert_eq!(r.message, "[fg:64C8FF][b]Elemental Reaction: SHATTER[/] on Glacial Golem![/fg]");
}

#[test]
fn overgrowth_roots_and_bloom_heals() {
    let r = apply_elemental_status(
        Some(ElementalStatus::Nature { duration: 2 }),
        ElementalStatus::Lightning { duration: 1 },
        None,
        Some(target()),
        false,
    );
    assert_eq!(r.reaction, Some(ElementalReaction::Overgrowth));
    assert_eq!(r.stats.unwrap().hp, 25);
    assert_eq!(r.root, Some(Rooted { duration: 1 }));
    assert!(!r.defeated);
    assert_eq!(r.message, "[fg:32DC64][b]Elemental Reaction: OVERGROWTH[/] on Kael![/fg]");
    let b = apply_elemental_status(
        Some(ElementalStatus::Ice { duration: 2 }),
        ElementalStatus::Nature { duration: 2 },
        Some(CharacterClass::Boss),
        Some(target()),
        true,
    );
    assert_eq!(b.reaction, Some(ElementalReaction::Bloom));
    assert_eq!(b.ally_healing, 20);
    assert_eq!(b.stats.unwrap().hp, 35);
    assert!(!b.defeated);
}

#[test]
fn plain_elements_are_applied() {
    let r = apply_elemental_status(
        Some(ElementalStatus::Normal),
        ElementalStatus::Poison { duration: 3 },
        Some(CharacterClass::Rogue),
        Some(target()),
        false,
    );
    assert_eq!(r.reaction, None);
    assert_eq!(r.status, Some(ElementalStatus::Poison { duration: 3 }));
    assert_eq!(r.stats.unwrap().hp, 35);
    assert_eq!(r.message, "Applied [fg:A020F0][b]Poison[/] element to Jax.");
    let none = apply_elemental_status(None, ElementalStatus::Ice { duration: 1 }, None, None, false);
    assert_eq!(none.status, None);
    assert_eq!(none.message, "Applied [fg:64C8FF][b]Ice[/] element to Kael.");
}

#[test]
fn bloom_reaches_adjacent_heroes() {
    let unit = |i: u32, x: i16, y: i16, team: Team| UnitRecord {
        entity: Entity { index: i, generation: 0 },
        position: Some(Position::new(x, y)),
        team: Some(team),
        class: None,
        stats: None,
        archetype: None,
    };
    let units = vec![
        unit(0, 4, 4, Team::Player),
        unit(1, 5, 5, Team::Player),
        unit(2, 4, 5, Team::Enemy),
        unit(3, 3, 4, Team::Player),
        unit(4, 4, 6, Team::Player),
    ];
    let healed = bloom_targets(&units, Position::new(4, 5));
    assert_eq!(
        healed,
        vec![Entity { index: 0, generation: 0 }, Entity { index: 1, generation: 0 }, Entity { index: 4, generation: 0 }]
    );
    let (s, msg) = bloom_heal(target(), CharacterClass::Healer, 20);
    assert_eq!(s.hp, 55);
    assert_eq!(msg, "[fg:32FF32]Bloom healed Mira for [b]20 HP![/] (HP: 55)[/fg]");
    let full = Stats { hp: 75, ..target() };
    assert_eq!(bloom_heal(full, CharacterClass::Healer, 20).0.hp, 80);
}

#[test]
fn skill_table_and_areas() {
    let info = get_skill_info(CharacterClass::Mage, TargetingMode::Skill2).unwrap();
    assert_eq!(info, ("Glacial Tempest".to_string(), 4, 3, true, 40));
    assert_eq!(
        get_skill_info(CharacterClass::Warrior, TargetingMode::Skill3),
        Some(("Taunt Shield".to_string(), 0, 1, false, 0))
    );
    assert_eq!(get_skill_info(CharacterClass::Healer, TargetingMode::Skill3), None);
    assert_eq!(get_skill_info(CharacterClass::Boss, TargetingMode::Skill1), None);
    let t = Position::new(5, 5);
    assert_eq!(get_skill_aoe(CharacterClass::Warrior, TargetingMode::Skill2, t).len(), 9);
    assert_eq!(get_skill_aoe(CharacterClass::Warrior, TargetingMode::Skill2, t)[0], Position::new(4, 4));
    assert_eq!(
        get_skill_aoe(CharacterClass::Mage, TargetingMode::Skill2, t),
        vec![
            t,
            Position::new(6, 5),
            Position::new(4, 5),
            Position::new(5, 6),
            Position::new(5, 4),
            Position::new(7, 5),
            Position::new(3, 5),
            Position::new(5, 7),
            Position::new(5, 3),
        ]
    );
    assert!(get_skill_aoe(CharacterClass::Healer, TargetingMode::Skill2, t).is_empty());
    assert_eq!(get_skill_aoe(CharacterClass::Healer, TargetingMode::Skill1, t), vec![t]);
}

fn hero(index: u32, x: i16, y: i16, ap: i32) -> UnitRecord {
    UnitRecord {
        entity: Entity { index, generation: 0 },
        position: Some(Position::new(x, y)),
        team: Some(Team::Player),
        class: Some(CharacterClass::Warrior),
        stats: Some(Stats { hp: 10, max_hp: 10, atk: 1, def: 1, spd: 1, ap, max_ap: 3, level: 1, xp: 0 }),
        archetype: None,
    }
}

#[test]
fn cycling_walks_the_ready_heroes_by_handle() {
    let units = vec![hero(7, 7, 0, 2), hero(2, 2, 0, 1), hero(5, 5, 0, 0), hero(4, 4, 0, 3)];
    let e = |i: u32| Entity { index: i, generation: 0 };
    assert_eq!(cycle_character(&units, None, true), Some((e(2), Position::new(2, 0))));
    assert_eq!(cycle_character(&units, Some(e(2)), true), Some((e(4), Position::new(4, 0))));
    assert_eq!(cycle_character(&units, Some(e(7)), true), Some((e(2), Position::new(2, 0))));
    assert_eq!(cycle_character(&units, Some(e(2)), false), Some((e(7), Position::new(7, 0))));
    assert_eq!(cycle_character(&units, Some(e(5)), false), Some((e(2), Position::new(2, 0))));
    assert_eq!(cycle_character(&[hero(1, 0, 0, 0)], None, true), None);
}

#[test]
fn a_bloom_on_a_unit_heals_the_heroes_beside_it() {
    let rec = |i: u32, x: i16, y: i16, team: Team, hp: i32| UnitRecord {
        entity: Entity { index: i, generation: 0 },
        position: Some(Position::new(x, y)),
        team: Some(team),
        class: Some(CharacterClass::Healer),
        stats: Some(Stats { hp, ..target() }),
        archetype: None,
    };
    let mut units = vec![
        rec(0, 4, 4, Team::Player, 35),
        rec(1, 4, 5, Team::Enemy, 60),
        rec(2, 5, 5, Team::Player, 75),
        rec(3, 2, 2, Team::Player, 10),
    ];
    let out = apply_element_to_unit(
        &mut units,
        1,
        Some(ElementalStatus::Ice { duration: 2 }),
        ElementalStatus::Nature { duration: 2 },
        false,
    );
    assert_eq!(
        out.application.event,
        ElementEvent::ReactionTriggered { reaction: ElementalReaction::Bloom, damage: 0, healing: 20 }
    );
    assert_eq!(out.application.status, Some(ElementalStatus::Normal));
    assert_eq!(units[0].stats.unwrap().hp, 55);
    assert_eq!(units[1].stats.unwrap().hp, 60);
    assert_eq!(units[2].stats.unwrap().hp, 80);
    assert_eq!(units[3].stats.unwrap().hp, 10);
    assert_eq!(
        out.heal_log,
        vec![
            "[fg:32FF32]Bloom healed Mira for [b]20 HP![/] (HP: 55)[/fg]".to_string(),
            "[fg:32FF32]Bloom healed Mira for [b]20 HP![/] (HP: 80)[/fg]".to_string(),
        ]
    );
}

#[test]
fn a_shatter_on_a_unit_hurts_it_and_sends_its_event() {
    let mut units = vec![UnitRecord {
        entity: Entity { index: 7, generation: 0 },
        position: Some(Position::new(1, 1)),
        team: Some(Team::Enemy),
        class: Some(CharacterClass::GlacialGolem),
        stats: Some(Stats { hp: 50, ..target() }),
        archetype: None,
    }];
    let out = apply_element_to_unit(
        &mut units,
        0,
        Some(ElementalStatus::Lightning { duration: 1 }),
        ElementalStatus::Ice { duration: 1 },
        true,
    );
    assert_eq!(units[0].stats.unwrap().hp, 10);
    assert!(!out.application.defeated);
    assert!(out.heal_log.is_empty());
    assert_eq!(
        out.application.event,
        ElementEvent::ReactionTriggered { reaction: ElementalReaction::Shatter, damage: 40, healing: 0 }
    );
    let plain = apply_element_to_unit(&mut units, 0, None, ElementalStatus::Poison { duration: 2 }, false);
    assert_eq!(plain.application.event, ElementEvent::ElementalApplied { status: ElementalStatus::Poison { duration: 2 } });
    assert_eq!(units[0].stats.unwrap().hp, 10);
}
