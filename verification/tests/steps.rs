use wuthering_terminal::action::Action;
use wuthering_terminal::components::{
    BattleStats, ElementalShield, ElementalStatus, Fatigue, GameEvent, ItemEffect, Morale, Outcome,
    RedoStack, ShieldType, Stats, Team, TurnPhase, UIState, UndoStack,
};
use wuthering_terminal::geometry::{Direction, Entity, Position};
use wuthering_terminal::steps::{
    keep_replaced_state, move_cursor, record_for_undo, rest, take_state, tally_battle_stats,
    use_item, route_action, apply_view_step, Routing,
};
use wuthering_terminal::components::{BossPhase, GameState, TargetingMode};

fn hero() -> Stats {
    Stats { hp: 50, max_hp: 80, atk: 5, def: 5, spd: 5, ap: 1, max_ap: 3, level: 1, xp: 0 }
}

#[test]
fn the_cursor_stays_on_the_map() {
    assert_eq!(move_cursor(Position::new(3, 3), Direction::North, 10, 8), Position::new(3, 2));
    assert_eq!(move_cursor(Position::new(0, 3), Direction::West, 10, 8), Position::new(0, 3));
    assert_eq!(move_cursor(Position::new(9, 7), Direction::East, 10, 8), Position::new(9, 7));
    assert_eq!(move_cursor(Position::new(9, 7), Direction::South, 10, 8), Position::new(9, 7));
    assert_eq!(move_cursor(Position::new(20, -5), Direction::South, 10, 8), Position::new(9, 0));
}

#[test]
fn items_heal_refill_cleanse_and_shield() {
    let h = use_item(ItemEffect::Heal(75), Some(hero()));
    assert_eq!(h.stats.unwrap().hp, 80);
    assert!(h.consumed && !h.cleanses && h.shield.is_none());
    let c = use_item(ItemEffect::Combined(10, 4), Some(hero()));
    assert_eq!((c.stats.unwrap().hp, c.stats.unwrap().ap), (60, 3));
    let a = use_item(ItemEffect::ReplenishAp(1), Some(hero()));
    assert_eq!(a.stats.unwrap().ap, 2);
    let d = use_item(ItemEffect::CleanseAndHeal(80), Some(hero()));
    assert!(d.cleanses);
    assert_eq!(d.stats.unwrap().hp, 80);
    let s = use_item(ItemEffect::RestoreShield(ShieldType::Physical, 30), Some(hero()));
    assert_eq!(
        s.shield,
        Some(ElementalShield { shield_type: ShieldType::Physical, amount: 30, max_amount: 30 })
    );
    let k = use_item(ItemEffect::UpgradeKit, Some(hero()));
    assert!(!k.consumed);
    assert_eq!(k.stats, Some(hero()));
}

#[test]
fn resting_recovers_fatigue_and_morale() {
    let (f, m, recovered, gained) = rest(
        Some(Fatigue { value: 15, max: 100, actions_taken: 3 }),
        Some(Morale { value: 98, max: 100 }),
    );
    assert_eq!(f.unwrap().value, 0);
    assert_eq!(m.unwrap().value, 100);
    assert_eq!((recovered, gained), (15, 2));
    let (_, _, r2, g2) = rest(Some(Fatigue { value: 60, max: 100, actions_taken: 0 }), None);
    assert_eq!((r2, g2), (20, 0));
}

#[test]
fn undo_history_keeps_ten_states() {
    let mut undo = UndoStack { states: Vec::new() };
    let mut redo = RedoStack { states: vec!["r".to_string()] };
    for i in 0..12 {
        record_for_undo(&mut undo, &mut redo, Action::Wait, TurnPhase::Player, format!("s{}", i));
    }
    assert_eq!(undo.states.len(), 10);
    assert_eq!(undo.states[0], "s2");
    assert!(redo.states.is_empty());
    record_for_undo(&mut undo, &mut redo, Action::Save, TurnPhase::Player, "x".to_string());
    record_for_undo(&mut undo, &mut redo, Action::Wait, TurnPhase::Enemy, "y".to_string());
    assert_eq!(undo.states.len(), 10);
    assert_eq!(undo.states[9], "s11");

    let back = take_state(&mut undo.states);
    assert_eq!(back, Some("s11".to_string()));
    keep_replaced_state(&mut redo.states, "now".to_string());
    assert_eq!(take_state(&mut redo.states), Some("now".to_string()));

    record_for_undo(&mut undo, &mut redo, Action::EndTurn, TurnPhase::Player, "z".to_string());
    assert!(undo.states.is_empty() && redo.states.is_empty());
    assert_eq!(take_state(&mut undo.states), None);
}

#[test]
fn actions_pass_the_overlays_first() {
    let play = Outcome::Playing;
    assert_eq!(route_action(true, UIState::Normal, play, None, Action::Confirm), Routing::Dialogue);
    assert_eq!(
        route_action(false, UIState::Inventory, play, None, Action::Skill2),
        Routing::Proceed(Action::UseItem(1))
    );
    assert_eq!(
        route_action(false, UIState::Inventory, play, None, Action::SwapCharacter(2)),
        Routing::Proceed(Action::UseItem(5))
    );
    assert_eq!(
        route_action(false, UIState::Inventory, play, None, Action::Cancel),
        Routing::CloseOverlay(UIState::Inventory)
    );
    assert_eq!(route_action(false, UIState::Inventory, play, None, Action::MoveNorth), Routing::Ignored);
    assert_eq!(
        route_action(false, UIState::Help, play, None, Action::ToggleHelp),
        Routing::CloseOverlay(UIState::Help)
    );
    assert_eq!(route_action(false, UIState::Bestiary, play, None, Action::Confirm), Routing::Ignored);
    assert_eq!(
        route_action(false, UIState::Bestiary, play, None, Action::Quit),
        Routing::Proceed(Action::Quit)
    );
    assert_eq!(route_action(false, UIState::Normal, Outcome::Victory, None, Action::Confirm), Routing::Ignored);
    assert_eq!(route_action(false, UIState::Normal, play, Some(0), Action::Confirm), Routing::TooDemoralized);
    assert_eq!(
        route_action(false, UIState::Normal, play, Some(0), Action::Rest),
        Routing::Proceed(Action::Rest)
    );
    assert_eq!(
        route_action(false, UIState::Normal, play, Some(3), Action::Confirm),
        Routing::Proceed(Action::Confirm)
    );
}

#[test]
fn battle_statistics_add_up_the_events() {
    let hero = Entity { index: 1, generation: 0 };
    let foe = Entity { index: 2, generation: 0 };
    let teams = vec![(hero, Team::Player), (foe, Team::Enemy)];
    let events = vec![
        GameEvent::Attacked { attacker: hero, target: foe, damage: 12 },
        GameEvent::Attacked { attacker: foe, target: hero, damage: 7 },
        GameEvent::Healed { healer: hero, target: hero, amount: 5 },
        GameEvent::Healed { healer: foe, target: foe, amount: 9 },
        GameEvent::ReactionTriggered { entity: foe, reaction: "Shatter".to_string(), damage: 30, healing: 0 },
        GameEvent::ReactionTriggered { entity: hero, reaction: "Bloom".to_string(), damage: 0, healing: 20 },
        GameEvent::ElementalApplied { entity: foe, status: ElementalStatus::Normal },
        GameEvent::Defeated { entity: foe },
        GameEvent::Defeated { entity: hero },
    ];
    let mut stats = BattleStats {
        total_damage_dealt: 0,
        total_damage_taken: 0,
        total_healing_done: 0,
        total_turns: 4,
        total_kills: 1,
        max_combo_reached: 3,
        total_swaps: 2,
    };
    tally_battle_stats(&mut stats, &events, &teams, true, 2);
    assert_eq!(stats.total_damage_dealt, 42);
    assert_eq!(stats.total_damage_taken, 7);
    assert_eq!(stats.total_healing_done, 25);
    assert_eq!(stats.total_kills, 2);
    assert_eq!(stats.total_turns, 5);
    assert_eq!(stats.max_combo_reached, 3);
    assert_eq!(stats.total_swaps, 2);
}

fn game() -> GameState {
    GameState {
        turn: 1,
        phase: TurnPhase::Player,
        outcome: Outcome::Playing,
        cursor: Position::new(0, 0),
        selected_entity: None,
        concert_energy: 0,
        targeting: TargetingMode::Inactive,
        boss_phase: BossPhase::Phase1,
        ui_state: UIState::Normal,
        show_perf: false,
        auto_battle: false,
        is_recording: false,
        show_minimap: false,
        combo_count: 0,
        floor: 1,
        log_scroll_offset: 0,
        selected_save_slot: 0,
        show_threat_map: false,
    }
}

#[test]
fn view_steps() {
    let mut s = game();
    assert_eq!(apply_view_step(&mut s, Action::MoveWest, 5, 5), Some(None));
    assert_eq!(s.cursor, Position::new(0, 0));
    apply_view_step(&mut s, Action::MoveSouth, 5, 5);
    assert_eq!(s.cursor, Position::new(0, 1));
    assert_eq!(
        apply_view_step(&mut s, Action::ToggleInventory, 5, 5),
        Some(Some("Select a character first to view their inventory!"))
    );
    assert_eq!(s.ui_state, UIState::Normal);
    s.selected_entity = Some(Entity { index: 1, generation: 0 });
    assert_eq!(
        apply_view_step(&mut s, Action::ToggleInventory, 5, 5),
        Some(Some("Inventory opened. Press [1-9] to use item."))
    );
    assert_eq!(s.ui_state, UIState::Inventory);
    assert_eq!(apply_view_step(&mut s, Action::ToggleHelp, 5, 5), Some(Some("Help overlay opened. Press [?] or [Esc] to close.")));
    assert_eq!(apply_view_step(&mut s, Action::ToggleHelp, 5, 5), Some(Some("Help closed.")));
    assert_eq!(apply_view_step(&mut s, Action::ToggleMinimap, 5, 5), Some(Some("Minimap enabled.")));
    assert_eq!(apply_view_step(&mut s, Action::AutoBattle, 5, 5), Some(Some("Auto-Battle ENABLED.")));
    assert_eq!(apply_view_step(&mut s, Action::ClearCursor, 5, 5), Some(Some("Selection cleared.")));
    assert_eq!(s.selected_entity, None);
    assert_eq!(apply_view_step(&mut s, Action::Confirm, 5, 5), None);
    assert_eq!(apply_view_step(&mut s, Action::Quit, 5, 5), Some(None));
    assert_eq!(s.outcome, Outcome::Quit);
}
