use wuthering_terminal::ai::TacticalAI;
use wuthering_terminal::components::{AIAction, AIArchetype, AIBehavior, Stats, TacticalAssessment};
use wuthering_terminal::geometry::{Entity, Position};
use wuthering_terminal::map::TacticalMap;

fn make_test_map() -> TacticalMap {
    TacticalMap::from_ascii(
        "\
....#....\n\
....#....\n\
.........\n\
.........\n\
.........",
    )
}

fn entity(index: u32) -> Entity {
    Entity { index, generation: 0 }
}

fn unit_stats(hp: i32, max_hp: i32, atk: i32) -> Stats {
    Stats {
        hp,
        max_hp,
        atk,
        def: 10,
        spd: 5,
        ap: 3,
        max_ap: 3,
        level: 1,
        xp: 0,
    }
}

fn assessment_for(map: &TacticalMap, players: &[(Entity, Position, Stats)]) -> TacticalAssessment {
    TacticalAssessment {
        threat_map: TacticalAI::calculate_threat_map(map, players),
        cover_positions: vec![],
        flank_positions: vec![],
        safe_positions: vec![],
    }
}

#[test]
fn test_flanking_calculation() {
    let enemy_pos = Position::new(2, 2);
    let target = Position::new(3, 2);
    let allies = vec![Position::new(3, 1)];

    let flanks = TacticalAI::find_flank_positions(enemy_pos, &allies, target);
    assert!(
        flanks.iter().any(|p| *p == Position::new(3, 3)),
        "Should find position opposite ally as flanking position"
    );
}

#[test]
fn test_flanking_no_allies() {
    let enemy_pos = Position::new(2, 2);
    let target = Position::new(3, 2);
    let allies: Vec<Position> = vec![];

    let flanks = TacticalAI::find_flank_positions(enemy_pos, &allies, target);
    assert!(
        flanks.is_empty(),
        "Should find no flanking positions without allies"
    );
}

#[test]
fn test_threat_map() {
    let map = make_test_map();
    let pe = entity(0);
    let players = vec![(pe, Position::new(4, 2), unit_stats(100, 100, 20))];

    let threat_map = TacticalAI::calculate_threat_map(&map, &players);
    let threat_at_player = threat_map
        .iter()
        .find(|(p, _)| *p == Position::new(4, 2))
        .map(|(_, t)| *t)
        .unwrap_or(0);
    let threat_far = threat_map
        .iter()
        .find(|(p, _)| *p == Position::new(0, 0))
        .map(|(_, t)| *t)
        .unwrap_or(0);

    assert!(
        threat_at_player > threat_far,
        "Threat at player ({}) should exceed far ({})",
        threat_at_player,
        threat_far
    );
}

fn chaser_stats() -> Stats {
    Stats {
        hp: 80,
        max_hp: 80,
        atk: 20,
        def: 5,
        spd: 5,
        ap: 3,
        max_ap: 3,
        level: 1,
        xp: 0,
    }
}

fn cleric_stats() -> Stats {
    Stats {
        hp: 55,
        max_hp: 55,
        atk: 12,
        def: 6,
        spd: 5,
        ap: 3,
        max_ap: 3,
        level: 2,
        xp: 0,
    }
}

#[test]
fn test_chaser_strategy_pursues_nearest() {
    let map = make_test_map();
    let enemy_pos = Position::new(0, 0);
    let stats = chaser_stats();
    let players = vec![(entity(0), Position::new(3, 0), unit_stats(100, 100, 20))];
    let assessment = assessment_for(&map, &players);

    let action = TacticalAI::chaser_strategy(enemy_pos, &stats, &players, &assessment);
    match action {
        AIAction::MoveTo(pos) => {
            let dist_before = (enemy_pos.x - 3).abs() + enemy_pos.y.abs();
            let dist_after = (pos.x - 3).abs() + pos.y.abs();
            assert!(dist_after <= dist_before, "Chaser should move closer to player");
        }
        AIAction::Attack(_) => {}
        other => panic!("Expected MoveTo or Attack, got {:?}", other),
    }
}

#[test]
fn test_cleric_strategy_heals_low_hp_ally() {
    let enemy_pos = Position::new(2, 2);
    let stats = cleric_stats();
    let ally = entity(0);
    let allies = vec![(ally, Position::new(2, 3), unit_stats(100, 500, 40))];
    let players = vec![(entity(1), Position::new(5, 5), unit_stats(100, 100, 20))];

    let action = TacticalAI::cleric_strategy(enemy_pos, &stats, &allies, &players);
    match action {
        AIAction::HealAlly(e) => assert_eq!(e, ally),
        AIAction::MoveTo(pos) => assert_eq!(pos, Position::new(2, 3)),
        other => panic!("Expected HealAlly or MoveTo, got {:?}", other),
    }
}

#[test]
fn test_focus_fire_targets_lowest_hp() {
    let e1 = entity(0);
    let e2 = entity(1);
    let players = vec![
        (e1, Position::new(4, 4), unit_stats(100, 100, 20)),
        (e2, Position::new(4, 8), unit_stats(30, 60, 35)),
    ];

    let result = TacticalAI::focus_fire_target(&players);
    assert!(result.is_some());
    let (ent, pos) = result.unwrap();
    assert_eq!(ent, e2, "Should target lowest HP player");
    assert_eq!(pos, Position::new(4, 8));
}

#[test]
fn test_safest_move_target() {
    let map = TacticalMap::from_ascii("...\n...\n...");
    let pos = Position::new(1, 1);
    let players = vec![(entity(0), Position::new(2, 1), unit_stats(100, 100, 20))];
    let assessment = assessment_for(&map, &players);

    let safest = TacticalAI::safest_move_target(pos, 1, &map, &assessment);
    let threat_at_current = assessment
        .threat_map
        .iter()
        .find(|(p, _)| *p == pos)
        .map(|(_, t)| *t)
        .unwrap_or(0);
    let threat_at_safest = assessment
        .threat_map
        .iter()
        .find(|(p, _)| *p == safest)
        .map(|(_, t)| *t)
        .unwrap_or(0);

    assert!(
        threat_at_safest <= threat_at_current,
        "Safest move should have threat <= current. current={}, safest={}",
        threat_at_current,
        threat_at_safest
    );
}

#[test]
fn test_ai_behavior_defaults() {
    let behavior = AIBehavior::new(AIArchetype::Chaser);
    assert_eq!(behavior.archetype, AIArchetype::Chaser);
    assert_eq!(behavior.aggression, 80);
    assert_eq!(behavior.caution, 20);
    assert_eq!(behavior.coordination, 40);
    assert!(behavior.last_action.is_none());

    let cleric = AIBehavior::new(AIArchetype::Cleric);
    assert_eq!(cleric.coordination, 80);

    let coward = AIBehavior::new(AIArchetype::Coward);
    assert_eq!(coward.caution, 90);
}

#[test]
fn test_berserker_behavior_defaults() {
    let berserker = AIBehavior::new(AIArchetype::Berserker);
    assert_eq!(berserker.aggression, 95);
    assert_eq!(berserker.caution, 5);
    assert_eq!(berserker.coordination, 10);
}

#[test]
fn test_tactician_behavior_defaults() {
    let tactician = AIBehavior::new(AIArchetype::Tactician);
    assert_eq!(tactician.aggression, 70);
    assert_eq!(tactician.caution, 40);
    assert_eq!(tactician.coordination, 85);
}

#[test]
fn test_summoner_behavior_defaults() {
    let summoner = AIBehavior::new(AIArchetype::Summoner);
    assert_eq!(summoner.aggression, 50);
    assert_eq!(summoner.caution, 30);
    assert_eq!(summoner.coordination, 70);
}

#[test]
fn test_assassin_behavior_defaults() {
    let assassin = AIBehavior::new(AIArchetype::Assassin);
    assert_eq!(assassin.aggression, 85);
    assert_eq!(assassin.caution, 15);
    assert_eq!(assassin.coordination, 50);
}

#[test]
fn test_berserker_strategy_attacks() {
    let map = make_test_map();
    let enemy_pos = Position::new(0, 0);
    let stats = chaser_stats();
    let players = vec![(entity(0), Position::new(1, 0), unit_stats(100, 100, 20))];
    let assessment = assessment_for(&map, &players);

    let action = TacticalAI::chaser_strategy(enemy_pos, &stats, &players, &assessment);
    match action {
        AIAction::Attack(_) | AIAction::MoveTo(_) => {}
        other => panic!("Expected Attack or MoveTo, got {:?}", other),
    }
}

#[test]
fn test_tactician_strategy_moves() {
    let map = make_test_map();
    let enemy_pos = Position::new(0, 0);
    let stats = chaser_stats();
    let players = vec![(entity(0), Position::new(3, 0), unit_stats(100, 100, 20))];
    let assessment = assessment_for(&map, &players);

    let action = TacticalAI::chaser_strategy(enemy_pos, &stats, &players, &assessment);
    match action {
        AIAction::MoveTo(pos) => {
            let dist_before = (enemy_pos.x - 3).abs() + enemy_pos.y.abs();
            let dist_after = (pos.x - 3).abs() + pos.y.abs();
            assert!(dist_after <= dist_before);
        }
        AIAction::Attack(_) => {}
        other => panic!("Expected MoveTo or Attack, got {:?}", other),
    }
}

#[test]
fn test_summoner_strategy_heals_allies() {
    let enemy_pos = Position::new(2, 2);
    let stats = cleric_stats();
    let ally = entity(0);
    let allies = vec![(ally, Position::new(2, 3), unit_stats(100, 500, 40))];
    let players = vec![(entity(1), Position::new(5, 5), unit_stats(100, 100, 20))];

    let action = TacticalAI::cleric_strategy(enemy_pos, &stats, &allies, &players);
    match action {
        AIAction::HealAlly(e) => assert_eq!(e, ally),
        AIAction::MoveTo(pos) => assert_eq!(pos, Position::new(2, 3)),
        other => panic!("Expected HealAlly or MoveTo, got {:?}", other),
    }
}

#[test]
fn test_assassin_strategy_pursues() {
    let map = make_test_map();
    let enemy_pos = Position::new(0, 0);
    let stats = chaser_stats();
    let players = vec![(entity(0), Position::new(3, 0), unit_stats(100, 100, 20))];
    let assessment = assessment_for(&map, &players);

    let action = TacticalAI::chaser_strategy(enemy_pos, &stats, &players, &assessment);
    match action {
        AIAction::MoveTo(pos) => {
            let dist_before = (enemy_pos.x - 3).abs() + enemy_pos.y.abs();
            let dist_after = (pos.x - 3).abs() + pos.y.abs();
            assert!(dist_after <= dist_before);
        }
        AIAction::Attack(_) => {}
        other => panic!("Expected MoveTo or Attack, got {:?}", other),
    }
}

#[test]
fn test_coward_strategy_retreats_when_low_hp() {
    let map = make_test_map();
    let enemy_pos = Position::new(2, 2);
    let stats = Stats {
        hp: 20,
        max_hp: 80,
        atk: 15,
        def: 0,
        spd: 10,
        ap: 2,
        max_ap: 2,
        level: 1,
        xp: 0,
    };
    let pe = entity(1);
    let pstats = unit_stats(100, 100, 20);
    let players = vec![(pe, Position::new(2, 1), pstats)];

    let threat_map = TacticalAI::calculate_threat_map(&map, &players);
    // The cells beside the wall that hide from the hero at (2, 1), worked out
    // by line of sight on this map.
    let cover_positions = vec![Position::new(5, 0), Position::new(5, 1)];
    let assessment = TacticalAssessment {
        threat_map,
        cover_positions,
        flank_positions: vec![],
        safe_positions: vec![],
    };

    let action = TacticalAI::coward_strategy(enemy_pos, &stats, &players, &assessment);
    match action {
        AIAction::Retreat | AIAction::MoveTo(_) => {}
        other => panic!("Expected Retreat or MoveTo, got {:?}", other),
    }
    assert_eq!(action, AIAction::MoveTo(Position::new(5, 0)));
}
