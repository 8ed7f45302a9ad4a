use wuthering_terminal::components::{BossPhase, GameState, Outcome, TargetingMode, TurnPhase, UIState};
use wuthering_terminal::geometry::Position;
use wuthering_terminal::replay::{
    note_mismatch, step_replay, toggle_recording, toggle_replay, toggle_replay_auto, ReplayCursor, ReplayStep,
};
use wuthering_terminal::outcome::ActionOutcome;

fn idle() -> ReplayCursor {
    ReplayCursor { active: false, auto: false, steps: 0, next_index: 0, errors: 0 }
}

fn failed(reason: &str) -> ActionOutcome {
    ActionOutcome::Failed { reason: reason.to_string() }
}

#[test]
fn a_loaded_trace_plays_step_by_step_to_its_end() {
    let mut c = idle();
    let (lines, report) = toggle_replay(&mut c, Some(2));
    assert_eq!(
        lines,
        vec![
            "Replay mode ENABLED. Trace loaded (2 actions).".to_string(),
            "Press F12 to step through replay.".to_string()
        ]
    );
    assert_eq!(report, ActionOutcome::ReplayChanged { enabled: true, actions: 2, errors: 0 });
    assert!(matches!(step_replay(&mut c), ReplayStep::Play { index: 0 }));
    note_mismatch(&mut c);
    assert!(matches!(step_replay(&mut c), ReplayStep::Play { index: 1 }));
    match step_replay(&mut c) {
        ReplayStep::Stopped { message, report } => {
            assert_eq!(message, "End of replay trace reached.");
            assert_eq!(report, ActionOutcome::ReplayChanged { enabled: false, actions: 2, errors: 1 });
        },
        other => panic!("unexpected {:?}", other),
    }
    assert!(!c.active);
}

#[test]
fn replay_controls_need_a_running_replay() {
    let mut c = idle();
    let (lines, report) = toggle_replay(&mut c, None);
    assert_eq!(lines, vec!["No last_recording.json found to replay!".to_string()]);
    assert_eq!(report, failed("No last_recording.json found to replay"));
    match step_replay(&mut c) {
        ReplayStep::Stopped { message, report } => {
            assert_eq!(message, "Enable Replay mode first (F11)!");
            assert_eq!(report, failed("Enable Replay mode first"));
        },
        other => panic!("unexpected {:?}", other),
    }
    assert_eq!(toggle_replay_auto(&mut c), (None, failed("Replay mode must be active to toggle auto-play")));
    toggle_replay(&mut c, Some(0));
    assert_eq!(
        toggle_replay_auto(&mut c),
        (Some("Replay AUTO-PLAY enabled.".to_string()), ActionOutcome::ReplayAutoChanged { enabled: true })
    );
    assert_eq!(
        toggle_replay_auto(&mut c),
        (Some("Replay AUTO-PLAY disabled.".to_string()), ActionOutcome::ReplayAutoChanged { enabled: false })
    );
    let (lines, report) = toggle_replay(&mut c, None);
    assert_eq!(lines, vec!["Replay mode DISABLED.".to_string()]);
    assert_eq!(report, failed("No last_recording.json found to replay"));
}

#[test]
fn recording_switches_on_and_off() {
    let mut g = GameState {
        turn: 1,
        phase: TurnPhase::Player,
        outcome: Outcome::Playing,
        cursor: Position::new(0, 0),
        selected_entity: None,
        concert_energy: 0,
        targeting: TargetingMode::Inactive,
        boss_phase: BossPhase::Phase1,
        ui_state: UIState::Normal,
        show_perf: false,
        auto_battle: false,
        is_recording: false,
        show_minimap: false,
        combo_count: 0,
        floor: 1,
        log_scroll_offset: 0,
        selected_save_slot: 0,
        show_threat_map: false,
    };
    assert_eq!(
        toggle_recording(&mut g, 7),
        ("Action recording STARTED.".to_string(), ActionOutcome::RecordingChanged { enabled: true, records: 0 })
    );
    assert!(g.is_recording);
    assert_eq!(
        toggle_recording(&mut g, 7),
        ("Action recording STOPPED.".to_string(), ActionOutcome::RecordingChanged { enabled: false, records: 7 })
    );
    assert!(!g.is_recording);
}
