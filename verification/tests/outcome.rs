use wuthering_terminal::action::Action;
use wuthering_terminal::battle_preview::UnitRecord;
use wuthering_terminal::components::{
    BossPhase, CharacterClass, ElementalStatus, EquipmentSlot, GameEvent, Outcome, Stats, Team, TurnPhase,
};
use wuthering_terminal::geometry::{Entity, Position};
use wuthering_terminal::components::{GameState, TargetingMode, UIState};
use wuthering_terminal::outcome::{break_combo, compute_outcome, ActionOutcome, StateSummary};

fn calm() -> StateSummary {
    StateSummary { turn: 3, phase: TurnPhase::Player, outcome: Outcome::Playing, floor: 1 }
}

fn hero() -> UnitRecord {
    UnitRecord {
        entity: Entity { index: 1, generation: 0 },
        position: Some(Position::new(2, 2)),
        team: Some(Team::Player),
        class: Some(CharacterClass::Warrior),
        stats: Some(Stats { hp: 40, max_hp: 80, atk: 5, def: 5, spd: 5, ap: 1, max_ap: 3, level: 1, xp: 0 }),
        archetype: None,
    }
}

fn outcome_of(action: Action, after: StateSummary, last: ActionOutcome, lines: &[&str], events: Vec<GameEvent>) -> ActionOutcome {
    let msgs: Vec<String> = lines.iter().map(|l| l.to_string()).collect();
    compute_outcome(action, &calm(), &after, &last, &msgs, BossPhase::Phase1, false, &events, &vec![hero()])
}

#[test]
fn a_refusal_line_becomes_a_failure() {
    assert_eq!(
        outcome_of(Action::RerollModifiers, calm(), ActionOutcome::NoOp, &["Not enough AP to reroll modifiers! (Costs 1 AP)"], vec![]),
        ActionOutcome::Failed { reason: "Not enough AP to reroll modifiers! (Costs 1 AP)".to_string() }
    );
    assert_eq!(
        outcome_of(Action::Confirm, calm(), ActionOutcome::NoOp, &["Kael attacks.", "Target is out of range!"], vec![]),
        ActionOutcome::Failed { reason: "Target is out of range!".to_string() }
    );
}

#[test]
fn the_end_of_the_game_comes_first() {
    let won = StateSummary { outcome: Outcome::Victory, ..calm() };
    assert_eq!(
        outcome_of(Action::Confirm, won, ActionOutcome::NoOp, &["Not enough AP"], vec![]),
        ActionOutcome::GameOver { outcome: Outcome::Victory }
    );
    assert_eq!(
        outcome_of(Action::Quit, calm(), ActionOutcome::NoOp, &[], vec![]),
        ActionOutcome::GameOver { outcome: Outcome::Playing }
    );
}

#[test]
fn a_recorded_outcome_stands_for_its_action() {
    let used = ActionOutcome::ItemUsed { name: "Healing Potion".to_string() };
    assert_eq!(outcome_of(Action::UseItem(0), calm(), used.clone(), &[], vec![]), used);
    assert_eq!(outcome_of(Action::Confirm, calm(), used, &[], vec![]), ActionOutcome::NoOp);
    let rerolled = ActionOutcome::ModifiersRerolled { modifiers: vec!["Frenzy".to_string()] };
    assert_eq!(outcome_of(Action::RerollModifiers, calm(), rerolled.clone(), &[], vec![]), rerolled);
}

#[test]
fn floors_phases_and_turns() {
    let deeper = StateSummary { floor: 2, ..calm() };
    assert_eq!(
        outcome_of(Action::NextFloor, deeper, ActionOutcome::NoOp, &[], vec![]),
        ActionOutcome::FloorTransition { from: 1, to: 2 }
    );
    let enemy = StateSummary { phase: TurnPhase::Enemy, ..calm() };
    assert_eq!(outcome_of(Action::EndTurn, enemy, ActionOutcome::NoOp, &[], vec![]), ActionOutcome::PhaseChanged);
    let next = StateSummary { turn: 4, ..calm() };
    assert_eq!(outcome_of(Action::EndTurn, next, ActionOutcome::NoOp, &[], vec![]), ActionOutcome::TurnAdvanced);
    let msgs: Vec<String> = Vec::new();
    assert_eq!(
        compute_outcome(Action::Confirm, &calm(), &calm(), &ActionOutcome::NoOp, &msgs, BossPhase::Phase2, true, &vec![], &vec![]),
        ActionOutcome::BossPhaseChanged { phase: "Phase2".to_string() }
    );
    assert_eq!(
        compute_outcome(Action::EndTurn, &calm(), &calm(), &ActionOutcome::NoOp, &msgs, BossPhase::Phase2, true, &vec![], &vec![]),
        ActionOutcome::NoOp
    );
}

#[test]
fn log_lines_name_crafted_and_upgraded_items() {
    assert_eq!(
        outcome_of(Action::Confirm, calm(), ActionOutcome::NoOp, &["You crafted Elixir! Well done."], vec![]),
        ActionOutcome::Crafted { item_name: "Elixir".to_string() }
    );
    assert_eq!(
        outcome_of(Action::Confirm, calm(), ActionOutcome::NoOp, &["Alchemy success! Crafted Elixir from A and B."], vec![]),
        ActionOutcome::Crafted { item_name: "Elixir from A and B.".to_string() }
    );
    assert_eq!(
        outcome_of(Action::Confirm, calm(), ActionOutcome::NoOp, &["Nothing was crafted"], vec![]),
        ActionOutcome::Crafted { item_name: "Unknown".to_string() }
    );
    assert_eq!(
        outcome_of(
            Action::UpgradeEquipment(EquipmentSlot::Weapon),
            calm(),
            ActionOutcome::StateUpdated,
            &["Upgraded Iron Sword +2."],
            vec![]
        ),
        ActionOutcome::EquipmentUpgraded { item_name: "Iron Sword".to_string(), slot: EquipmentSlot::Weapon, level: 2 }
    );
    assert_eq!(
        outcome_of(
            Action::UpgradeEquipment(EquipmentSlot::Armor),
            calm(),
            ActionOutcome::NoOp,
            &["Upgraded Robe +300."],
            vec![]
        ),
        ActionOutcome::StateUpdated
    );
}

#[test]
fn events_tell_hits_heals_moves_and_statuses() {
    let hit = GameEvent::Attacked { attacker: Entity { index: 1, generation: 0 }, target: Entity { index: 9, generation: 0 }, damage: 12 };
    assert_eq!(
        outcome_of(Action::Confirm, calm(), ActionOutcome::NoOp, &["CRITICAL HIT!"], vec![hit.clone()]),
        ActionOutcome::CritHit { damage: 12 }
    );
    assert_eq!(
        outcome_of(Action::Confirm, calm(), ActionOutcome::NoOp, &["BLOCKED"], vec![hit.clone()]),
        ActionOutcome::Blocked { damage_reduced: 12 }
    );
    assert_eq!(
        outcome_of(Action::Confirm, calm(), ActionOutcome::NoOp, &[], vec![hit]),
        ActionOutcome::Hit { damage: 12, target: String::new(), was_critical: false, was_blocked: false }
    );
    let moved = GameEvent::Moved { entity: Entity { index: 1, generation: 0 }, from: Position::new(2, 2), to: Position::new(3, 2) };
    assert_eq!(
        outcome_of(Action::Confirm, calm(), ActionOutcome::NoOp, &[], vec![moved]),
        ActionOutcome::Moved { entity: "Kael".to_string(), to: Position::new(3, 2) }
    );
    let iced = GameEvent::ElementalApplied { entity: Entity { index: 7, generation: 0 }, status: ElementalStatus::Ice { duration: 2 } };
    assert_eq!(
        outcome_of(Action::Confirm, calm(), ActionOutcome::NoOp, &[], vec![iced]),
        ActionOutcome::StatusApplied { status: "Ice { duration: 2 }".to_string(), target: "Unknown".to_string() }
    );
    assert_eq!(outcome_of(Action::MoveNorth, calm(), ActionOutcome::NoOp, &[], vec![]), ActionOutcome::StateUpdated);
    assert_eq!(outcome_of(Action::Wait, calm(), ActionOutcome::NoOp, &[], vec![]), ActionOutcome::NoOp);
}

#[test]
fn a_failure_or_a_wait_breaks_the_combo() {
    let mut g = GameState {
        turn: 1,
        phase: TurnPhase::Player,
        outcome: Outcome::Playing,
        cursor: Position::new(0, 0),
        selected_entity: None,
        concert_energy: 0,
        targeting: TargetingMode::Inactive,
        boss_phase: BossPhase::Phase1,
        ui_state: UIState::Normal,
        show_perf: false,
        auto_battle: false,
        is_recording: false,
        show_minimap: false,
        combo_count: 3,
        floor: 1,
        log_scroll_offset: 0,
        selected_save_slot: 0,
        show_threat_map: false,
    };
    assert_eq!(break_combo(&mut g, &ActionOutcome::StateUpdated, Action::MoveNorth), None);
    assert_eq!(g.combo_count, 3);
    let failed = ActionOutcome::Failed { reason: "Not enough AP".to_string() };
    assert_eq!(break_combo(&mut g, &failed, Action::Confirm), Some("Combo broken by failed action."));
    assert_eq!(g.combo_count, 0);
    g.combo_count = 2;
    assert_eq!(break_combo(&mut g, &ActionOutcome::NoOp, Action::Wait), Some("Combo broken by waiting."));
    assert_eq!(break_combo(&mut g, &ActionOutcome::NoOp, Action::Wait), None);
}
