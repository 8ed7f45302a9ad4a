use vstd::prelude::*;

use crate::components::GameState;
use crate::outcome::{ActionOutcome, OutcomeView};
use crate::text::{decimal, push_digits, push_str};

verus! {

/// Where a replay of a recorded trace stands: whether it runs, whether it
/// plays by itself, how many steps the loaded trace holds, the next step to
/// play, and how many replayed steps ended otherwise than recorded.
#[derive(Copy, Clone, Debug, PartialEq, Eq, Structural)]
pub struct ReplayCursor {
    pub active: bool,
    pub auto: bool,
    pub steps: usize,
    pub next_index: usize,
    pub errors: usize,
}

/// A freshly loaded trace of `n` steps, ready to play from its start.
pub open spec fn loaded_cursor(n: usize) -> ReplayCursor {
    ReplayCursor { active: true, auto: false, steps: n, next_index: 0, errors: 0 }
}

/// The replay key. A running replay stops; otherwise the trace the game
/// could load (`loaded`, its number of steps, or `None` when there is no
/// recording) starts playing from its first step.
pub fn toggle_replay(cursor: &mut ReplayCursor, loaded: Option<usize>) -> (r: (Vec<String>, ActionOutcome))
    ensures
        ({
            let c = *old(cursor);
            let (messages, report) = r;
            if c.active {
                &&& *final(cursor) == ReplayCursor { active: false, ..c }
                &&& messages@.len() == 1 && messages@[0]@ == "Replay mode DISABLED."@
                &&& if c.steps > 0 || c.errors > 0 {
                    report@ == (OutcomeView::ReplayChanged { enabled: false, actions: c.steps, errors: c.errors })
                } else {
                    report@ == (OutcomeView::Failed { reason: "No last_recording.json found to replay"@ })
                }
            } else {
                match loaded {
                    Some(n) => {
                        &&& *final(cursor) == loaded_cursor(n)
                        &&& messages@.len() == 2
                        &&& messages@[0]@ == "Replay mode ENABLED. Trace loaded ("@ + decimal(n as int)
                            + " actions)."@
                        &&& messages@[1]@ == "Press F12 to step through replay."@
                        &&& report@ == (OutcomeView::ReplayChanged { enabled: true, actions: n, errors: 0 })
                    },
                    None => {
                        &&& *final(cursor) == c
                        &&& messages@.len() == 1
                        &&& messages@[0]@ == "No last_recording.json found to replay!"@
                        &&& report@ == (OutcomeView::Failed { reason: "No last_recording.json found to replay"@ })
                    },
                }
            }
        }),
{
    let mut messages: Vec<String> = Vec::new();
    if cursor.active {
        cursor.active = false;
        messages.push(String::from_str("Replay mode DISABLED."));
        let report = if cursor.steps > 0 || cursor.errors > 0 {
            ActionOutcome::ReplayChanged { enabled: false, actions: cursor.steps, errors: cursor.errors }
        } else {
            ActionOutcome::Failed { reason: String::from_str("No last_recording.json found to replay") }
        };
        return (messages, report);
    }
    match loaded {
        Some(n) => {
            *cursor = ReplayCursor { active: true, auto: false, steps: n, next_index: 0, errors: 0 };
            let mut line = String::new();
            push_str(&mut line, "Replay mode ENABLED. Trace loaded (");
            push_digits(&mut line, n as u64);
            push_str(&mut line, " actions).");
            messages.push(line);
            messages.push(String::from_str("Press F12 to step through replay."));
            (messages, ActionOutcome::ReplayChanged { enabled: true, actions: n, errors: 0 })
        },
        None => {
            messages.push(String::from_str("No last_recording.json found to replay!"));
            (messages, ActionOutcome::Failed { reason: String::from_str("No last_recording.json found to replay") })
        },
    }
}

/// What the replay step key does.
#[derive(Clone, Debug)]
pub enum ReplayStep {
    /// Play step `index` of the trace; the game replays it and compares
    /// the outcome with the recorded one.
    Play { index: usize },
    /// Nothing to play, with this log line and report.
    Stopped { message: String, report: ActionOutcome },
}

/// The replay step key: the next step of a running replay is handed out;
/// past the end of the trace the replay stops.
pub fn step_replay(cursor: &mut ReplayCursor) -> (r: ReplayStep)
    ensures
        ({
            let c = *old(cursor);
            if c.active && c.next_index < c.steps {
                &&& *final(cursor) == ReplayCursor { next_index: (c.next_index + 1) as usize, ..c }
                &&& r == ReplayStep::Play { index: c.next_index }
            } else if c.next_index >= c.steps && c.steps > 0 {
                &&& *final(cursor) == ReplayCursor { active: false, ..c }
                &&& r matches ReplayStep::Stopped { message, report } && message@
                    == "End of replay trace reached."@ && report@ == (OutcomeView::ReplayChanged {
                    enabled: false,
                    actions: c.steps,
                    errors: c.errors,
                })
            } else {
                &&& *final(cursor) == ReplayCursor { active: false, ..c }
                &&& r matches ReplayStep::Stopped { message, report } && message@
                    == "Enable Replay mode first (F11)!"@ && report@ == (OutcomeView::Failed { reason: "Enable Replay mode first"@ })
            }
        }),
{
    if cursor.active && cursor.next_index < cursor.steps {
        let index = cursor.next_index;
        cursor.next_index = index + 1;
        return ReplayStep::Play { index };
    }
    cursor.active = false;
    if cursor.next_index >= cursor.steps && cursor.steps > 0 {
        ReplayStep::Stopped {
            message: String::from_str("End of replay trace reached."),
            report: ActionOutcome::ReplayChanged { enabled: false, actions: cursor.steps, errors: cursor.errors },
        }
    } else {
        ReplayStep::Stopped {
            message: String::from_str("Enable Replay mode first (F11)!"),
            report: ActionOutcome::Failed { reason: String::from_str("Enable Replay mode first") },
        }
    }
}

/// A replayed step ended otherwise than recorded.
pub fn note_mismatch(cursor: &mut ReplayCursor)
    requires
        old(cursor).errors < usize::MAX,
    ensures
        *final(cursor) == (ReplayCursor { errors: (old(cursor).errors + 1) as usize, ..*old(cursor) }),
{
    cursor.errors = cursor.errors + 1;
}

/// The auto-play key: switches auto-play of a running replay.
pub fn toggle_replay_auto(cursor: &mut ReplayCursor) -> (r: (Option<String>, ActionOutcome))
    ensures
        ({
            let c = *old(cursor);
            let (message, report) = r;
            if c.active {
                &&& *final(cursor) == ReplayCursor { auto: !c.auto, ..c }
                &&& message matches Some(m) && m@ == if !c.auto {
                    "Replay AUTO-PLAY enabled."@
                } else {
                    "Replay AUTO-PLAY disabled."@
                }
                &&& report@ == (OutcomeView::ReplayAutoChanged { enabled: !c.auto })
            } else {
                &&& *final(cursor) == c
                &&& message is None
                &&& report@ == (OutcomeView::Failed { reason: "Replay mode must be active to toggle auto-play"@ })
            }
        }),
{
    if !cursor.active {
        return (
            None,
            ActionOutcome::Failed { reason: String::from_str("Replay mode must be active to toggle auto-play") },
        );
    }
    cursor.auto = !cursor.auto;
    let line = if cursor.auto {
        String::from_str("Replay AUTO-PLAY enabled.")
    } else {
        String::from_str("Replay AUTO-PLAY disabled.")
    };
    (Some(line), ActionOutcome::ReplayAutoChanged { enabled: cursor.auto })
}

/// The recording key: a running recording of `records` steps stops (the
/// game then saves it), otherwise a new one starts.
pub fn toggle_recording(game: &mut GameState, records: usize) -> (r: (String, ActionOutcome))
    ensures
        ({
            let (message, report) = r;
            if old(game).is_recording {
                &&& *final(game) == GameState { is_recording: false, ..*old(game) }
                &&& message@ == "Action recording STOPPED."@
                &&& report@ == (OutcomeView::RecordingChanged { enabled: false, records })
            } else {
                &&& *final(game) == GameState { is_recording: true, ..*old(game) }
                &&& message@ == "Action recording STARTED."@
                &&& report@ == (OutcomeView::RecordingChanged { enabled: true, records: 0 })
            }
        }),
{
    if game.is_recording {
        game.is_recording = false;
        (String::from_str("Action recording STOPPED."), ActionOutcome::RecordingChanged { enabled: false, records })
    } else {
        game.is_recording = true;
        (String::from_str("Action recording STARTED."), ActionOutcome::RecordingChanged { enabled: true, records: 0 })
    }
}

} // verus!
