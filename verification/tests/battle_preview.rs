use wuthering_terminal::battle_preview::{AoEShape, BattlePreview, UnitRecord};
use wuthering_terminal::components::{
    AIArchetype, CharacterClass, DamagePreview, IntentType, Stats, Team, TelegraphZone,
};
use wuthering_terminal::geometry::{Entity, Position};
use wuthering_terminal::map::TacticalMap;

fn stats(hp: i32, max_hp: i32, atk: i32, def: i32, spd: i32, ap: i32, level: u32) -> Stats {
    Stats {
        hp,
        max_hp,
        atk,
        def,
        spd,
        ap,
        max_ap: ap.max(3),
        level,
        xp: 0,
    }
}

fn unit(
    index: u32,
    pos: Position,
    team: Team,
    class: CharacterClass,
    s: Stats,
    archetype: Option<AIArchetype>,
) -> UnitRecord {
    UnitRecord {
        entity: Entity { index, generation: 0 },
        position: Some(pos),
        team: Some(team),
        class: Some(class),
        stats: Some(s),
        archetype,
    }
}

fn warrior(index: u32, pos: Position) -> UnitRecord {
    unit(
        index,
        pos,
        Team::Player,
        CharacterClass::Warrior,
        Stats { hp: 100, max_hp: 100, atk: 20, def: 10, spd: 5, ap: 3, max_ap: 3, level: 1, xp: 0 },
        None,
    )
}

#[test]
fn test_aoe_circle_shape() {
    let map = TacticalMap::new(24, 16);
    let center = Position::new(5, 5);
    let preview =
        BattlePreview::calculate_aoe_preview(center, 1, AoEShape::Circle, &[], &map, Team::Player);
    assert_eq!(preview.affected_tiles.len(), 5);
    assert!(preview.affected_tiles.contains(&center));
    assert!(preview.affected_tiles.contains(&Position::new(5, 4)));
    assert!(preview.affected_tiles.contains(&Position::new(5, 6)));
    assert!(preview.affected_tiles.contains(&Position::new(4, 5)));
    assert!(preview.affected_tiles.contains(&Position::new(6, 5)));
}

#[test]
fn test_aoe_square_shape() {
    let map = TacticalMap::new(24, 16);
    let center = Position::new(5, 5);
    let preview =
        BattlePreview::calculate_aoe_preview(center, 1, AoEShape::Square, &[], &map, Team::Player);
    assert_eq!(preview.affected_tiles.len(), 9);
}

#[test]
fn test_aoe_cross_shape() {
    let map = TacticalMap::new(24, 16);
    let center = Position::new(5, 5);
    let preview =
        BattlePreview::calculate_aoe_preview(center, 2, AoEShape::Cross, &[], &map, Team::Player);
    assert_eq!(preview.affected_tiles.len(), 9);
    assert!(preview.affected_tiles.contains(&center));
    assert!(preview.affected_tiles.contains(&Position::new(7, 5)));
    assert!(preview.affected_tiles.contains(&Position::new(3, 5)));
    assert!(preview.affected_tiles.contains(&Position::new(5, 7)));
    assert!(preview.affected_tiles.contains(&Position::new(5, 3)));
}

#[test]
fn test_turn_order_sorts_by_spd_desc() {
    let e1 = unit(
        0,
        Position::new(0, 0),
        Team::Player,
        CharacterClass::Warrior,
        stats(100, 100, 20, 10, 5, 3, 1),
        None,
    );
    let e2 = unit(
        1,
        Position::new(1, 0),
        Team::Enemy,
        CharacterClass::ShadowStalker,
        stats(80, 80, 25, 5, 8, 4, 1),
        None,
    );
    let e3 = unit(
        2,
        Position::new(2, 0),
        Team::Player,
        CharacterClass::Healer,
        stats(70, 70, 10, 8, 6, 3, 1),
        None,
    );
    let units = vec![e1, e2, e3];

    let order = BattlePreview::calculate_turn_order(&units, Some(e1.entity));

    assert_eq!(order.entries.len(), 3);
    assert_eq!(order.entries[0].entity, e2.entity);
    assert_eq!(order.entries[1].entity, e3.entity);
    assert_eq!(order.entries[2].entity, e1.entity);
}

#[test]
fn test_turn_order_includes_all_alive() {
    let units = vec![
        unit(
            0,
            Position::new(0, 0),
            Team::Player,
            CharacterClass::Warrior,
            stats(100, 100, 20, 10, 5, 3, 1),
            None,
        ),
        unit(
            1,
            Position::new(1, 0),
            Team::Enemy,
            CharacterClass::ShadowStalker,
            Stats { hp: 0, max_hp: 80, atk: 25, def: 5, spd: 8, ap: 0, max_ap: 4, level: 1, xp: 0 },
            None,
        ),
        unit(
            2,
            Position::new(2, 0),
            Team::Player,
            CharacterClass::Healer,
            stats(70, 70, 10, 8, 6, 3, 1),
            None,
        ),
    ];

    let order = BattlePreview::calculate_turn_order(&units, None);
    assert_eq!(order.entries.len(), 2);
}

#[test]
fn test_enemy_intent_chaser() {
    let units = vec![
        warrior(0, Position::new(5, 5)),
        unit(
            1,
            Position::new(5, 6),
            Team::Enemy,
            CharacterClass::ShadowStalker,
            Stats { hp: 80, max_hp: 80, atk: 25, def: 5, spd: 8, ap: 4, max_ap: 4, level: 1, xp: 0 },
            Some(AIArchetype::Chaser),
        ),
    ];
    let telegraph = TelegraphZone::default();
    let intents = BattlePreview::predict_enemy_intents(&units, &telegraph);

    assert_eq!(intents.intents.len(), 1);
    assert_eq!(intents.intents[0].intent_type, IntentType::Attack);
    assert!(intents.intents[0].predicted_damage > 0);
}

#[test]
fn test_enemy_intent_cleric_heal() {
    let units = vec![
        warrior(0, Position::new(0, 0)),
        unit(
            1,
            Position::new(15, 8),
            Team::Enemy,
            CharacterClass::ShadowStalker,
            Stats { hp: 20, max_hp: 80, atk: 25, def: 5, spd: 8, ap: 0, max_ap: 4, level: 1, xp: 0 },
            Some(AIArchetype::Chaser),
        ),
        unit(
            2,
            Position::new(15, 9),
            Team::Enemy,
            CharacterClass::EnemyCleric,
            Stats { hp: 55, max_hp: 55, atk: 12, def: 6, spd: 5, ap: 3, max_ap: 3, level: 2, xp: 0 },
            Some(AIArchetype::Cleric),
        ),
    ];
    let telegraph = TelegraphZone::default();
    let intents = BattlePreview::predict_enemy_intents(&units, &telegraph);

    let heal_intent = intents.intents.iter().find(|i| i.intent_type == IntentType::Heal);
    assert!(heal_intent.is_some(), "Cleric should have a heal intent");
    assert!(heal_intent.unwrap().predicted_damage < 0);
}

#[test]
fn test_format_damage_preview() {
    let preview = DamagePreview {
        min_damage: 12,
        max_damage: 18,
        expected_damage: 15,
        hit_chance: 85,
        crit_chance: 20,
        element: Some("Ice".to_string()),
        can_kill: true,
    };
    let formatted = BattlePreview::format_damage_preview(&preview);
    assert!(formatted.contains("12-18"));
    assert!(formatted.contains("avg 15"));
    assert!(formatted.contains("HIT: 85%"));
    assert!(formatted.contains("CRIT: 20%"));
    assert!(formatted.contains("[Ice]"));
    assert!(formatted.contains("[KILL]"));
}

fn single_enemy_intents(class: CharacterClass, s: Stats, archetype: AIArchetype) -> Vec<IntentType> {
    let units = vec![
        warrior(0, Position::new(5, 5)),
        unit(1, Position::new(5, 6), Team::Enemy, class, s, Some(archetype)),
    ];
    let telegraph = TelegraphZone::default();
    BattlePreview::predict_enemy_intents(&units, &telegraph)
        .intents
        .iter()
        .map(|i| i.intent_type)
        .collect()
}

#[test]
fn test_enemy_intent_berserker() {
    let kinds = single_enemy_intents(
        CharacterClass::Berserker,
        Stats { hp: 80, max_hp: 80, atk: 30, def: 3, spd: 8, ap: 4, max_ap: 4, level: 1, xp: 0 },
        AIArchetype::Berserker,
    );
    assert!(
        kinds.iter().any(|k| *k == IntentType::Attack),
        "Berserker should have an attack intent"
    );
}

#[test]
fn test_enemy_intent_tactician() {
    let kinds = single_enemy_intents(
        CharacterClass::Tactician,
        Stats { hp: 70, max_hp: 70, atk: 18, def: 8, spd: 6, ap: 3, max_ap: 3, level: 2, xp: 0 },
        AIArchetype::Tactician,
    );
    assert!(
        kinds.iter().any(|k| *k == IntentType::Move),
        "Tactician should have a move intent"
    );
}

#[test]
fn test_enemy_intent_summoner() {
    let kinds = single_enemy_intents(
        CharacterClass::Summoner,
        Stats { hp: 60, max_hp: 60, atk: 15, def: 5, spd: 4, ap: 3, max_ap: 3, level: 2, xp: 0 },
        AIArchetype::Summoner,
    );
    assert!(
        kinds.iter().any(|k| *k == IntentType::Summon),
        "Summoner should have a summon intent"
    );
}

#[test]
fn test_enemy_intent_assassin() {
    let kinds = single_enemy_intents(
        CharacterClass::Assassin,
        Stats { hp: 50, max_hp: 50, atk: 35, def: 2, spd: 12, ap: 4, max_ap: 4, level: 3, xp: 0 },
        AIArchetype::Assassin,
    );
    assert!(
        kinds.iter().any(|k| *k == IntentType::Attack),
        "Assassin should have an attack intent"
    );
}
