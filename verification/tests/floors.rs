use wuthering_terminal::battle_preview::UnitRecord;
use wuthering_terminal::bestiary::create_initial_lore_journal;
use wuthering_terminal::components::{
    BossPhase, CharacterClass, GameState, Outcome, Stats, TargetingMode, Team, TurnPhase, UIState,
};
use wuthering_terminal::floors::{golem_spot, ice_over_rooms, new_floor_map, next_floor};
use wuthering_terminal::map::TacticalMap;
use wuthering_terminal::geometry::{Entity, Position};

fn state(floor: u32) -> GameState {
    GameState {
        turn: 9,
        phase: TurnPhase::Player,
        outcome: Outcome::Playing,
        cursor: Position::new(1, 1),
        selected_entity: Some(Entity { index: 0, generation: 0 }),
        concert_energy: 40,
        targeting: TargetingMode::Inactive,
        boss_phase: BossPhase::Phase2,
        ui_state: UIState::Normal,
        show_perf: false,
        auto_battle: false,
        is_recording: false,
        show_minimap: false,
        combo_count: 2,
        floor,
        log_scroll_offset: 0,
        selected_save_slot: 0,
        show_threat_map: false,
    }
}

fn unit(index: u32, team: Team) -> UnitRecord {
    UnitRecord {
        entity: Entity { index, generation: 0 },
        position: Some(Position::new(9, 9)),
        team: Some(team),
        class: Some(CharacterClass::Warrior),
        stats: Some(Stats { hp: 10, max_hp: 10, atk: 1, def: 1, spd: 1, ap: 0, max_ap: 4, level: 1, xp: 0 }),
        archetype: None,
    }
}

#[test]
fn descending_to_the_second_floor() {
    let mut s = state(1);
    let mut units = vec![
        unit(0, Team::Player),
        unit(1, Team::Enemy),
        unit(2, Team::Player),
        unit(3, Team::Player),
    ];
    let mut echoes = vec![(Position::new(2, 2), CharacterClass::Boss)];
    let mut journal = create_initial_lore_journal();
    let rooms = vec![
        Position::new(5, 5),
        Position::new(10, 3),
        Position::new(3, 12),
        Position::new(15, 8),
        Position::new(20, 12),
    ];
    let mut map = new_floor_map();
    assert_eq!((map.width, map.height), (24, 16));
    let d = next_floor(&mut s, &mut units, &mut echoes, &mut journal, &mut map, &rooms);
    assert_eq!(map.tile(2, 11), wuthering_terminal::map::Tile::Ice);
    assert_eq!(map.tile(5, 5), wuthering_terminal::map::Tile::Grass);
    assert_eq!(s.floor, 2);
    assert_eq!(s.turn, 1);
    assert_eq!(s.boss_phase, BossPhase::Phase1);
    assert_eq!(s.selected_entity, None);
    assert_eq!(s.cursor, Position::new(5, 5));
    assert_eq!(s.concert_energy, 40);
    assert!(echoes.is_empty());
    assert_eq!(units.len(), 3);
    assert_eq!(units[0].position, Some(Position::new(5, 5)));
    assert_eq!(units[1].position, Some(Position::new(6, 5)));
    assert_eq!(units[2].position, Some(Position::new(5, 6)));
    assert!(units.iter().all(|u| u.stats.unwrap().ap == 4 && u.team == Some(Team::Player)));
    assert_eq!(
        d.guards,
        vec![
            (Position::new(10, 3), CharacterClass::CorruptedSpore),
            (Position::new(3, 12), CharacterClass::GlacialGolem),
            (Position::new(15, 8), CharacterClass::ShadowStalker),
            (Position::new(20, 12), CharacterClass::Boss),
        ]
    );
    assert_eq!(d.ice_rooms, vec![Position::new(3, 12)]);
    assert_eq!(d.messages.len(), 3);
    assert_eq!(d.messages[0], "Descending to Floor 2...");
    assert_eq!(d.messages[1], "[fg:9933FF]Lore unlocked: 'Descent into Darkness'![/fg]");
    assert_eq!(d.messages[2], "Welcome to Floor 2! Conquer this final level.");
    let entry = journal.entries.iter().find(|e| e.id == "descent_into_darkness").unwrap();
    assert!(entry.discovered);
    assert_eq!(entry.turn_discovered, 9);
}

#[test]
fn a_floor_without_rooms_lands_on_four_four() {
    let mut s = state(2);
    let mut units = vec![unit(0, Team::Player)];
    let mut journal = create_initial_lore_journal();
    let mut map = new_floor_map();
    let d = next_floor(&mut s, &mut units, &mut Vec::new(), &mut journal, &mut map, &[]);
    assert_eq!(s.floor, 3);
    assert_eq!(units[0].position, Some(Position::new(4, 4)));
    assert!(d.guards.is_empty());
    assert_eq!(d.messages.len(), 2);
    assert!(journal.entries.iter().all(|e| !e.discovered || e.id != "descent_into_darkness"));
}

#[test]
fn a_missing_golem_goes_beside_the_ice() {
    let map = TacticalMap::from_ascii("#####\n#**.#\n#*#.#\n#####");
    // (1,1) is ice with walls north and west and ice south and east; (2,1)
    // is ice with grass to the east.
    assert_eq!(golem_spot(&map), Some(Position::new(3, 1)));
    let dry = TacticalMap::from_ascii("#####\n#...#\n#####");
    assert_eq!(golem_spot(&dry), None);
    let frozen = TacticalMap::from_ascii("***\n***\n***");
    assert_eq!(golem_spot(&frozen), None);
}

#[test]
fn ice_patches_cover_the_grass_round_a_room() {
    let mut map = TacticalMap::from_ascii(".....\n.#...\n...~.\n.....");
    ice_over_rooms(&mut map, &vec![Position::new(1, 1), Position::new(4, 3)]);
    assert_eq!(map.tile(0, 0), wuthering_terminal::map::Tile::Ice);
    assert_eq!(map.tile(2, 2), wuthering_terminal::map::Tile::Ice);
    assert_eq!(map.tile(1, 1), wuthering_terminal::map::Tile::Wall);
    assert_eq!(map.tile(3, 2), wuthering_terminal::map::Tile::Water);
    assert_eq!(map.tile(3, 3), wuthering_terminal::map::Tile::Ice);
    assert_eq!(map.tile(4, 2), wuthering_terminal::map::Tile::Ice);
    assert_eq!(map.tile(3, 0), wuthering_terminal::map::Tile::Grass);
    assert_eq!(map.tile(0, 3), wuthering_terminal::map::Tile::Grass);
}
