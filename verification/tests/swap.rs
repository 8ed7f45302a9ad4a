use wuthering_terminal::battle_preview::UnitRecord;
use wuthering_terminal::components::{
    BattleStats, BossPhase, CharacterClass, GameState, Outcome, Stats, TargetingMode, Team, TurnPhase, UIState,
};
use wuthering_terminal::geometry::{Entity, Position};
use wuthering_terminal::swap::{qte_swap, swap_entrance, SwapOutcome};

fn state() -> GameState {
    GameState {
        turn: 3,
        phase: TurnPhase::Player,
        outcome: Outcome::Playing,
        cursor: Position::new(0, 0),
        selected_entity: None,
        concert_energy: 100,
        targeting: TargetingMode::Inactive,
        boss_phase: BossPhase::Phase1,
        ui_state: UIState::Normal,
        show_perf: false,
        auto_battle: false,
        is_recording: false,
        show_minimap: false,
        combo_count: 0,
        floor: 1,
        log_scroll_offset: 0,
        selected_save_slot: 0,
        show_threat_map: false,
    }
}

fn rec(i: u32, x: i16, y: i16, team: Team, class: CharacterClass, hp: i32) -> UnitRecord {
    UnitRecord {
        entity: Entity { index: i, generation: 0 },
        position: Some(Position::new(x, y)),
        team: Some(team),
        class: Some(class),
        stats: Some(Stats { hp, max_hp: 100, atk: 5, def: 1, spd: 3, ap: 3, max_ap: 3, level: 1, xp: 0 }),
        archetype: None,
    }
}

#[test]
fn heroes_swap_in_handle_order() {
    let mut units = vec![
        rec(5, 1, 1, Team::Player, CharacterClass::Mage, 50),
        rec(9, 9, 9, Team::Enemy, CharacterClass::Boss, 500),
        rec(2, 3, 4, Team::Player, CharacterClass::Warrior, 50),
        rec(7, 6, 2, Team::Player, CharacterClass::Healer, 50),
    ];
    let mut s = state();
    let mut bs = BattleStats { total_damage_dealt: 0, total_damage_taken: 0, total_healing_done: 0, total_turns: 0, total_kills: 0, max_combo_reached: 0, total_swaps: 4 };
    match qte_swap(&mut units, &mut s, &mut bs, 0) {
        SwapOutcome::Swapped { partner, at, message } => {
            assert_eq!(partner, 3);
            assert_eq!(at, Position::new(1, 1));
            assert_eq!(
                message,
                "[fg:9933FF][b]QTE Swap![/] [fg:E6E600]Mira[/] swaps in for [fg:CCCCCC]Lyra[/] at (1, 1)!"
            );
        }
        other => panic!("unexpected {:?}", other),
    }
    assert_eq!(units[0].position, Some(Position::new(6, 2)));
    assert_eq!(units[3].position, Some(Position::new(1, 1)));
    assert_eq!(s.concert_energy, 0);
    assert_eq!(s.selected_entity, Some(Entity { index: 7, generation: 0 }));
    // The last in handle order hands over to the first.
    assert_eq!(bs.total_swaps, 5);
    match qte_swap(&mut units, &mut s, &mut bs, 3) {
        SwapOutcome::Swapped { partner, .. } => assert_eq!(partner, 2),
        other => panic!("unexpected {:?}", other),
    }
    let mut alone = vec![rec(1, 0, 0, Team::Player, CharacterClass::Mage, 50)];
    let mut s2 = state();
    match qte_swap(&mut alone, &mut s2, &mut bs, 0) {
        SwapOutcome::NotEnoughHeroes { message } => {
            assert_eq!(message, "Need at least 2 player characters on field to QTE swap!")
        }
        other => panic!("unexpected {:?}", other),
    }
    assert_eq!(s2.concert_energy, 100);
    assert_eq!(bs.total_swaps, 6);
}

#[test]
fn entrance_skills() {
    let mut units = vec![
        rec(1, 2, 2, Team::Player, CharacterClass::Warrior, 95),
        rec(2, 3, 3, Team::Enemy, CharacterClass::ShadowStalker, 50),
        rec(3, 4, 2, Team::Enemy, CharacterClass::ShadowStalker, 50),
        rec(4, 2, 4, Team::Enemy, CharacterClass::ShadowStalker, 25),
    ];
    let log = swap_entrance(&mut units, CharacterClass::Warrior, Position::new(2, 2));
    assert_eq!(log[0], "Warrior Intro Skill: Cloud Slasher!");
    assert_eq!(log.len(), 2);
    assert_eq!(units[1].stats.unwrap().hp, 30);
    assert_eq!(units[2].stats.unwrap().hp, 50);
    let log = swap_entrance(&mut units, CharacterClass::Mage, Position::new(2, 2));
    assert_eq!(log.len(), 3);
    assert_eq!(units[2].stats.unwrap().hp, 20);
    assert_eq!(units[3].stats.unwrap().hp, -5);
    assert_eq!(units[1].stats.unwrap().hp, 30);
    let log = swap_entrance(&mut units, CharacterClass::Healer, Position::new(2, 2));
    assert_eq!(log, vec![
        "Healer Intro Skill: Holy Aura!".to_string(),
        "Holy Aura healed Kael for 40 HP! (HP: 100)".to_string(),
    ]);
    assert!(swap_entrance(&mut units, CharacterClass::Rogue, Position::new(2, 2)).is_empty());
}
