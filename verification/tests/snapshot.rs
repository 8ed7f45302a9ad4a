use wuthering_terminal::battle_preview::{BattlePreview, UnitRecord};
use wuthering_terminal::bestiary::{create_initial_bestiary, create_initial_lore_journal, record_enemy_encounter, unlock_lore};
use wuthering_terminal::components::{
    BattleStats, BossPhase, CharacterClass, ComboSkill, EquippedItems, FloorModifier, GameState, Outcome, Stats,
    TargetingMode, Team, TelegraphZone, TurnPhase, UIState, WeatherType,
};
use wuthering_terminal::equipment::{dark_blade, iron_sword, shadow_armor};
use wuthering_terminal::geometry::{Entity, Position};
use wuthering_terminal::map::TacticalMap;
use wuthering_terminal::snapshot::{snapshot, TeamSummary};

fn unit(index: u32, x: i16, y: i16, team: Team, class: CharacterClass, hp: i32, ap: i32, spd: i32) -> UnitRecord {
    UnitRecord {
        entity: Entity { index, generation: 0 },
        position: Some(Position::new(x, y)),
        team: Some(team),
        class: Some(class),
        stats: Some(Stats { hp, max_hp: 50, atk: 5, def: 2, spd, ap, max_ap: 3, level: 1, xp: 0 }),
        archetype: None,
    }
}

fn game() -> GameState {
    GameState {
        turn: 2,
        phase: TurnPhase::Player,
        outcome: Outcome::Playing,
        cursor: Position::new(2, 2),
        selected_entity: Some(Entity { index: 1, generation: 0 }),
        concert_energy: 0,
        targeting: TargetingMode::Inactive,
        boss_phase: BossPhase::Phase1,
        ui_state: UIState::Normal,
        show_perf: false,
        auto_battle: false,
        is_recording: false,
        show_minimap: false,
        combo_count: 4,
        floor: 1,
        log_scroll_offset: 0,
        selected_save_slot: 0,
        show_threat_map: false,
    }
}

#[test]
fn a_snapshot_sums_sides_and_names_what_is_active() {
    let units = vec![
        unit(1, 2, 2, Team::Player, CharacterClass::Warrior, 40, 1, 5),
        unit(2, 0, 0, Team::Player, CharacterClass::Mage, 30, 2, 7),
        unit(3, 3, 2, Team::Enemy, CharacterClass::ShadowStalker, 20, 2, 6),
        unit(4, 5, 5, Team::Enemy, CharacterClass::CorruptedSpore, 25, 2, 2),
    ];
    let map = TacticalMap::new(6, 6);
    let mut bestiary = create_initial_bestiary();
    record_enemy_encounter(&mut bestiary, CharacterClass::ShadowStalker);
    let mut journal = create_initial_lore_journal();
    unlock_lore(&mut journal, "descent_into_darkness", 2);
    let equipped = vec![
        Some(EquippedItems { weapon: Some(dark_blade()), armor: Some(shadow_armor()), accessory: None }),
        Some(EquippedItems { weapon: Some(iron_sword()), armor: None, accessory: None }),
        None,
        None,
    ];
    let telegraph = TelegraphZone::default();
    let s = snapshot(
        &game(),
        &units,
        &map,
        WeatherType::Sunny,
        0,
        &telegraph,
        BattleStats::default(),
        &vec![ComboSkill::BladeStorm],
        &bestiary,
        &journal,
        &vec![FloorModifier::Frenzy, FloorModifier::FogOfWar],
        &equipped,
    );
    assert_eq!((s.turn, s.combo_count, s.floor), (2, 4, 1));
    assert_eq!(s.player_team, TeamSummary { count: 2, total_hp: 70, max_hp: 100 });
    assert_eq!(s.enemy_team, TeamSummary { count: 2, total_hp: 45, max_hp: 100 });
    assert_eq!(s.targetable_tiles, vec![Position::new(3, 2)]);
    assert!(s.selected_can_act);
    assert_eq!(s.reachable_tiles[0], Position::new(2, 2));
    assert!(s.reachable_tiles.contains(&Position::new(2, 1)));
    assert!(!s.reachable_tiles.contains(&Position::new(3, 2)));
    assert!(!s.reachable_tiles.contains(&Position::new(4, 2)));
    assert_eq!(
        s.turn_order,
        vec!["Lyra[7]".to_string(), "Shadow Stalker[6]".to_string(), "Kael[5]*".to_string(), "Corrupted Spore[2]".to_string()]
    );
    let expected: Vec<String> = BattlePreview::predict_enemy_intents(&units, &telegraph)
        .intents
        .iter()
        .map(|i| i.description.clone())
        .collect();
    assert_eq!(s.enemy_intents, expected);
    assert_eq!(s.available_combos, vec!["Blade Storm".to_string()]);
    assert_eq!(s.bestiary_discovered, 1);
    assert_eq!(s.bestiary_total, bestiary.entries.len());
    assert_eq!(s.lore_discovered, 7);
    assert_eq!(s.lore_total, journal.entries.len());
    assert_eq!(s.active_modifiers, vec!["Frenzy".to_string(), "Fog of War".to_string()]);
    assert_eq!(s.active_set_bonuses, vec!["Shadow Knight".to_string()]);
}

#[test]
fn without_a_selection_nothing_is_in_reach() {
    let units = vec![unit(3, 3, 2, Team::Enemy, CharacterClass::ShadowStalker, 20, 2, 6)];
    let g = GameState { selected_entity: None, ..game() };
    let s = snapshot(
        &g,
        &units,
        &TacticalMap::new(6, 6),
        WeatherType::Sunny,
        0,
        &TelegraphZone::default(),
        BattleStats::default(),
        &vec![],
        &create_initial_bestiary(),
        &create_initial_lore_journal(),
        &vec![],
        &vec![None],
    );
    assert!(s.reachable_tiles.is_empty());
    assert!(s.targetable_tiles.is_empty());
    assert!(!s.selected_can_act);
    assert_eq!(s.player_team, TeamSummary { count: 0, total_hp: 0, max_hp: 0 });
}
