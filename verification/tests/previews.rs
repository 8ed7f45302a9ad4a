use wuthering_terminal::battle_preview::{AoEShape, BattlePreview, UnitRecord};
use wuthering_terminal::components::{
    AIArchetype, CharacterClass, DamagePreview, EnemyIntentions, IntentType, Stats, Team,
    TelegraphZone,
};
use wuthering_terminal::geometry::{Entity, Position};
use wuthering_terminal::map::TacticalMap;

fn st(hp: i32, max_hp: i32, atk: i32, spd: i32, ap: i32) -> Stats {
    Stats { hp, max_hp, atk, def: 5, spd, ap, max_ap: 4, level: 1, xp: 0 }
}

fn rec(
    index: u32,
    x: i16,
    y: i16,
    team: Team,
    class: CharacterClass,
    s: Stats,
    archetype: Option<AIArchetype>,
) -> UnitRecord {
    UnitRecord {
        entity: Entity { index, generation: 0 },
        position: Some(Position::new(x, y)),
        team: Some(team),
        class: Some(class),
        stats: Some(s),
        archetype,
    }
}

fn player(index: u32, x: i16, y: i16, hp: i32) -> UnitRecord {
    rec(index, x, y, Team::Player, CharacterClass::Warrior, st(hp, 100, 20, 5, 3), None)
}

fn no_telegraph() -> TelegraphZone {
    TelegraphZone::default()
}

#[test]
fn chaser_next_to_a_player_attacks_for_nine_tenths() {
    let units = vec![
        player(0, 5, 5, 100),
        rec(1, 5, 6, Team::Enemy, CharacterClass::ShadowStalker, st(80, 80, 25, 8, 4), None),
    ];
    let intents = BattlePreview::predict_enemy_intents(&units, &no_telegraph());
    assert_eq!(intents.intents.len(), 1);
    let i = &intents.intents[0];
    assert_eq!(i.entity, Entity { index: 1, generation: 0 });
    assert_eq!(i.intent_type, IntentType::Attack);
    assert_eq!(i.target, Some(Position::new(5, 5)));
    assert_eq!(i.predicted_damage, 22);
    assert_eq!(i.description, "Shadow Stalker: Attack nearest player at (5,5)");
}

#[test]
fn chaser_far_from_players_moves_toward_the_nearest() {
    let units = vec![
        player(0, 0, 0, 100),
        player(1, 5, 5, 100),
        rec(
            2,
            5,
            9,
            Team::Enemy,
            CharacterClass::ShadowStalker,
            st(80, 80, 25, 8, 4),
            Some(AIArchetype::Chaser),
        ),
    ];
    let intents = BattlePreview::predict_enemy_intents(&units, &no_telegraph());
    assert_eq!(intents.intents.len(), 1);
    let i = &intents.intents[0];
    assert_eq!(i.intent_type, IntentType::Move);
    assert_eq!(i.target, Some(Position::new(5, 5)));
    assert_eq!(i.predicted_damage, 0);
    assert_eq!(i.description, "Shadow Stalker: Move toward player at (5,5)");
}

#[test]
fn chaser_without_living_players_plans_nothing() {
    let units = vec![
        player(0, 5, 5, 0),
        rec(1, 5, 6, Team::Enemy, CharacterClass::ShadowStalker, st(80, 80, 25, 8, 4), None),
    ];
    let intents = BattlePreview::predict_enemy_intents(&units, &no_telegraph());
    assert!(intents.intents.is_empty());
}

#[test]
fn cleric_heals_the_most_wounded_ally() {
    let units = vec![
        player(0, 0, 0, 100),
        rec(1, 15, 8, Team::Enemy, CharacterClass::ShadowStalker, st(30, 80, 25, 8, 0), None),
        rec(2, 12, 3, Team::Enemy, CharacterClass::VoidTerror, st(20, 80, 25, 8, 0), None),
        rec(
            3,
            15,
            9,
            Team::Enemy,
            CharacterClass::EnemyCleric,
            st(55, 55, 12, 5, 3),
            Some(AIArchetype::Cleric),
        ),
    ];
    let intents = BattlePreview::predict_enemy_intents(&units, &no_telegraph());
    assert_eq!(intents.intents.len(), 1);
    let i = &intents.intents[0];
    assert_eq!(i.intent_type, IntentType::Heal);
    assert_eq!(i.target, Some(Position::new(12, 3)));
    assert_eq!(i.predicted_damage, -9);
    assert_eq!(i.description, "Dark Cleric: Heal injured ally for ~9 HP");
}

#[test]
fn cleric_without_wounded_allies_advances() {
    let units = vec![
        rec(1, 15, 8, Team::Enemy, CharacterClass::ShadowStalker, st(40, 80, 25, 8, 0), None),
        rec(
            2,
            15,
            9,
            Team::Enemy,
            CharacterClass::EnemyCleric,
            st(10, 55, 12, 5, 3),
            Some(AIArchetype::Cleric),
        ),
    ];
    let intents = BattlePreview::predict_enemy_intents(&units, &no_telegraph());
    assert_eq!(intents.intents.len(), 1);
    assert_eq!(intents.intents[0].intent_type, IntentType::Move);
    assert_eq!(intents.intents[0].target, None);
    assert_eq!(intents.intents[0].description, "Dark Cleric: Advance with allies");
}

#[test]
fn coward_retreats_within_two_cells_and_holds_otherwise() {
    let near = vec![
        player(0, 5, 5, 100),
        rec(
            1,
            5,
            7,
            Team::Enemy,
            CharacterClass::CorruptedSpore,
            st(30, 30, 8, 3, 2),
            Some(AIArchetype::Coward),
        ),
    ];
    let far = vec![
        player(0, 5, 5, 100),
        rec(
            1,
            5,
            8,
            Team::Enemy,
            CharacterClass::CorruptedSpore,
            st(30, 30, 8, 3, 2),
            Some(AIArchetype::Coward),
        ),
    ];
    let n = BattlePreview::predict_enemy_intents(&near, &no_telegraph());
    let f = BattlePreview::predict_enemy_intents(&far, &no_telegraph());
    assert_eq!(n.intents[0].description, "Corrupted Spore: Retreat from player");
    assert_eq!(f.intents[0].description, "Corrupted Spore: Hold position (cautious)");
}

#[test]
fn fixed_archetype_intents() {
    let units = vec![
        player(0, 0, 0, 100),
        rec(1, 9, 9, Team::Enemy, CharacterClass::Assassin, st(50, 50, 35, 12, 4), Some(AIArchetype::Assassin)),
        rec(2, 9, 8, Team::Enemy, CharacterClass::Berserker, st(80, 80, 30, 8, 4), Some(AIArchetype::Berserker)),
        rec(3, 9, 7, Team::Enemy, CharacterClass::CursedSentinel, st(90, 90, 14, 3, 2), Some(AIArchetype::Defender)),
        rec(4, 9, 6, Team::Enemy, CharacterClass::Summoner, st(60, 60, 15, 4, 3), Some(AIArchetype::Summoner)),
        rec(5, 9, 5, Team::Enemy, CharacterClass::Tactician, st(70, 70, 18, 6, 3), Some(AIArchetype::Tactician)),
        rec(6, 9, 4, Team::Enemy, CharacterClass::Tactician, st(70, 70, 18, 6, 0), Some(AIArchetype::Tactician)),
    ];
    let intents = BattlePreview::predict_enemy_intents(&units, &no_telegraph());
    assert_eq!(intents.intents.len(), 5);
    assert_eq!(intents.intents[0].predicted_damage, 70);
    assert_eq!(intents.intents[0].description, "Assassin: Assassinate");
    assert_eq!(intents.intents[1].predicted_damage, 30);
    assert_eq!(intents.intents[1].description, "Berserker: Berserk attack");
    assert_eq!(intents.intents[2].intent_type, IntentType::Defend);
    assert_eq!(intents.intents[2].description, "Cursed Sentinel: Protecting allies");
    assert_eq!(intents.intents[3].intent_type, IntentType::Summon);
    assert_eq!(intents.intents[3].description, "Summoner: Summon minion");
    assert_eq!(intents.intents[4].intent_type, IntentType::Move);
    assert_eq!(intents.intents[4].description, "Tactician: Tactical reposition");
}

#[test]
fn telegraphed_attack_comes_last() {
    let units = vec![
        player(0, 5, 5, 100),
        rec(1, 5, 6, Team::Enemy, CharacterClass::Berserker, st(80, 80, 30, 8, 4), Some(AIArchetype::Berserker)),
    ];
    let telegraph = TelegraphZone {
        tiles: vec![Position::new(1, 2), Position::new(3, 4)],
        damage: 30,
    };
    let intents = BattlePreview::predict_enemy_intents(&units, &telegraph);
    assert_eq!(intents.intents.len(), 2);
    let boss = &intents.intents[1];
    assert!(boss.entity.is_invalid());
    assert_eq!(boss.intent_type, IntentType::AoEAttack);
    assert_eq!(boss.target, Some(Position::new(1, 2)));
    assert_eq!(boss.predicted_damage, 30);
    assert_eq!(boss.description, "BOSS: Telegraphed AoE attack (30 dmg) on 2 tiles");
    assert_eq!(
        BattlePreview::format_intents(&intents),
        vec![
            "Berserker: Berserk attack".to_string(),
            "BOSS: Telegraphed AoE attack (30 dmg) on 2 tiles".to_string(),
        ]
    );
    assert!(BattlePreview::format_intents(&EnemyIntentions::default()).is_empty());
}

#[test]
fn turn_order_names_marks_and_breaks_ties_by_handle() {
    let units = vec![
        rec(3, 0, 0, Team::Player, CharacterClass::Mage, st(50, 60, 10, 5, 3), None),
        rec(1, 1, 0, Team::Enemy, CharacterClass::PlagueWraith, st(40, 40, 12, 5, 3), None),
        rec(2, 2, 0, Team::Player, CharacterClass::Rogue, st(30, 30, 9, 7, 3), None),
    ];
    let order = BattlePreview::calculate_turn_order(&units, Some(Entity { index: 3, generation: 0 }));
    let names: Vec<&str> = order.entries.iter().map(|e| e.name.as_str()).collect();
    assert_eq!(names, vec!["Jax", "Plague Wraith", "Lyra"]);
    assert_eq!(order.current_index, 2);
    assert!(order.entries[2].is_current);
    assert!(!order.entries[0].is_current);
    assert_eq!(order.entries[2].hp, 50);
    assert_eq!(order.entries[2].max_hp, 60);
    assert_eq!(order.entries[1].team, Team::Enemy);

    let none = BattlePreview::calculate_turn_order(&units, None);
    assert_eq!(none.current_index, 0);
    assert!(none.entries.iter().all(|e| !e.is_current));
    let empty = BattlePreview::calculate_turn_order(&[], None);
    assert!(empty.entries.is_empty());
}

#[test]
fn turn_order_is_sorted_for_many_units() {
    let mut units = Vec::new();
    for k in 0..20u32 {
        let spd = ((k * 7) % 5) as i32;
        units.push(rec(19 - k, k as i16, 0, Team::Player, CharacterClass::Warrior, st(10, 10, 1, spd, 1), None));
    }
    let order = BattlePreview::calculate_turn_order(&units, None);
    assert_eq!(order.entries.len(), 20);
    for w in order.entries.windows(2) {
        assert!(w[0].spd > w[1].spd || (w[0].spd == w[1].spd && w[0].entity < w[1].entity));
    }
}

#[test]
fn aoe_keeps_cells_on_the_map_and_splits_teams() {
    let map = TacticalMap::new(24, 16);
    let units = vec![
        rec(0, 0, 0, Team::Player, CharacterClass::Warrior, st(100, 100, 20, 5, 3), None),
        rec(1, 1, 0, Team::Enemy, CharacterClass::VoidTerror, st(80, 80, 20, 5, 3), None),
        rec(2, 0, 1, Team::Enemy, CharacterClass::VoidTerror, st(20, 80, 20, 5, 3), None),
        rec(3, 5, 5, Team::Enemy, CharacterClass::VoidTerror, st(20, 80, 20, 5, 3), None),
        UnitRecord {
            entity: Entity { index: 4, generation: 0 },
            position: Some(Position::new(1, 0)),
            team: Some(Team::Enemy),
            class: None,
            stats: None,
            archetype: None,
        },
    ];
    let p = BattlePreview::calculate_aoe_preview(
        Position::new(0, 0),
        1,
        AoEShape::Circle,
        &units,
        &map,
        Team::Player,
    );
    assert_eq!(p.center, Some(Position::new(0, 0)));
    assert_eq!(
        p.affected_tiles,
        vec![Position::new(0, 0), Position::new(1, 0), Position::new(0, 1)]
    );
    assert_eq!(p.affected_allies, vec![Entity { index: 0, generation: 0 }]);
    assert_eq!(
        p.affected_enemies,
        vec![
            Entity { index: 1, generation: 0 },
            Entity { index: 2, generation: 0 },
            Entity { index: 4, generation: 0 },
        ]
    );
    assert_eq!(p.total_potential_damage, 70);
}

#[test]
fn aoe_line_cone_and_edge_square() {
    let map = TacticalMap::new(24, 16);
    let line = BattlePreview::calculate_aoe_preview(Position::new(3, 3), 3, AoEShape::Line, &[], &map, Team::Enemy);
    assert_eq!(line.affected_tiles, vec![Position::new(3, 3), Position::new(4, 3), Position::new(5, 3)]);
    let cone = BattlePreview::calculate_aoe_preview(Position::new(5, 5), 1, AoEShape::Cone, &[], &map, Team::Enemy);
    assert_eq!(
        cone.affected_tiles,
        vec![Position::new(5, 5), Position::new(4, 4), Position::new(5, 4), Position::new(6, 4)]
    );
    let square = BattlePreview::calculate_aoe_preview(Position::new(23, 15), 1, AoEShape::Square, &[], &map, Team::Enemy);
    assert_eq!(square.affected_tiles.len(), 4);
    let none = BattlePreview::calculate_aoe_preview(Position::new(3, 3), -1, AoEShape::Circle, &[], &map, Team::Enemy);
    assert!(none.affected_tiles.is_empty());
    let dot = BattlePreview::calculate_aoe_preview(Position::new(3, 3), -2, AoEShape::Cross, &[], &map, Team::Enemy);
    assert_eq!(dot.affected_tiles, vec![Position::new(3, 3)]);
}

#[test]
fn modifier_base_formula() {
    assert_eq!(BattlePreview::modifier_base(20, 1, 10, 1), 15);
    assert_eq!(BattlePreview::modifier_base(10, 1, 15, 5), -5);
    assert_eq!(BattlePreview::modifier_base(5, 1, -7, 1), 8);
    assert_eq!(BattlePreview::modifier_base(40, 10, 20, 1), 40);
    assert_eq!(BattlePreview::modifier_base(1, 1, 100, 2), -1);
}

#[test]
fn damage_text_without_tags() {
    let preview = DamagePreview {
        min_damage: -3,
        max_damage: 0,
        expected_damage: -1,
        hit_chance: 85,
        crit_chance: 0,
        element: None,
        can_kill: false,
    };
    assert_eq!(
        BattlePreview::format_damage_preview(&preview),
        "DMG: -3-0 (avg -1) | HIT: 85% | CRIT: 0%"
    );
}
