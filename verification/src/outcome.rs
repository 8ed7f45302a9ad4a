use vstd::prelude::*;

use crate::action::Action;
use crate::battle::{find_unit, unit_index};
use crate::battle_preview::UnitRecord;
use crate::components::{
    BossPhase, CharacterClass, ElementalStatus, EquipmentSlot, GameEvent, GameState, Outcome, TurnPhase,
    class_name, get_class_name,
};
use crate::geometry::{Entity, Position};
use crate::text::{decimal, push_digits, push_str};
use crate::token::{chars_of, range_is, range_starts_with};

verus! {

// ------------------------------------------------------------------
// The outcome of a step
// ------------------------------------------------------------------

/// What a step came to, as reported to scripts and agents.
#[derive(Clone, Debug, PartialEq, Eq)]
pub enum ActionOutcome {
    NoOp,
    StateUpdated,
    Failed { reason: String },
    GameOver { outcome: Outcome },
    FloorTransition { from: u32, to: u32 },
    BossPhaseChanged { phase: String },
    PhaseChanged,
    TurnAdvanced,
    Crafted { item_name: String },
    EquipmentUpgraded { item_name: String, slot: EquipmentSlot, level: u8 },
    EquipmentRewarded { item_name: String, hero: String },
    Absorbed { echo_name: String },
    ToggleChanged { name: String, enabled: bool },
    StatusViewed { name: String },
    ItemUsed { name: String },
    Rested { entity: String, fatigue_recovered: i32, morale_gained: i32 },
    ModifiersRerolled { modifiers: Vec<String> },
    GameSaved { path: String },
    GameLoaded { path: String },
    RecordingChanged { enabled: bool, records: usize },
    ReplayChanged { enabled: bool, actions: usize, errors: usize },
    ReplayStepped { index: usize, action: String, verified: bool },
    ReplayAutoChanged { enabled: bool },
    CritHit { damage: i32 },
    Blocked { damage_reduced: i32 },
    Hit { damage: i32, target: String, was_critical: bool, was_blocked: bool },
    Healed { amount: i32, target: String },
    Moved { entity: String, to: Position },
    StatusApplied { status: String, target: String },
}

/// An `ActionOutcome` with its texts as character sequences.
pub enum OutcomeView {
    NoOp,
    StateUpdated,
    Failed { reason: Seq<char> },
    GameOver { outcome: Outcome },
    FloorTransition { from: u32, to: u32 },
    BossPhaseChanged { phase: Seq<char> },
    PhaseChanged,
    TurnAdvanced,
    Crafted { item_name: Seq<char> },
    EquipmentUpgraded { item_name: Seq<char>, slot: EquipmentSlot, level: u8 },
    EquipmentRewarded { item_name: Seq<char>, hero: Seq<char> },
    Absorbed { echo_name: Seq<char> },
    ToggleChanged { name: Seq<char>, enabled: bool },
    StatusViewed { name: Seq<char> },
    ItemUsed { name: Seq<char> },
    Rested { entity: Seq<char>, fatigue_recovered: i32, morale_gained: i32 },
    ModifiersRerolled { modifiers: Seq<Seq<char>> },
    GameSaved { path: Seq<char> },
    GameLoaded { path: Seq<char> },
    RecordingChanged { enabled: bool, records: usize },
    ReplayChanged { enabled: bool, actions: usize, errors: usize },
    ReplayStepped { index: usize, action: Seq<char>, verified: bool },
    ReplayAutoChanged { enabled: bool },
    CritHit { damage: i32 },
    Blocked { damage_reduced: i32 },
    Hit { damage: i32, target: Seq<char>, was_critical: bool, was_blocked: bool },
    Healed { amount: i32, target: Seq<char> },
    Moved { entity: Seq<char>, to: Position },
    StatusApplied { status: Seq<char>, target: Seq<char> },
}

impl View for ActionOutcome {
    type V = OutcomeView;

    open spec fn view(&self) -> OutcomeView {
        match self {
            ActionOutcome::NoOp => OutcomeView::NoOp,
            ActionOutcome::StateUpdated => OutcomeView::StateUpdated,
            ActionOutcome::Failed { reason } => OutcomeView::Failed { reason: reason@ },
            ActionOutcome::GameOver { outcome } => OutcomeView::GameOver { outcome: *outcome },
            ActionOutcome::FloorTransition { from, to } => OutcomeView::FloorTransition { from: *from, to: *to },
            ActionOutcome::BossPhaseChanged { phase } => OutcomeView::BossPhaseChanged { phase: phase@ },
            ActionOutcome::PhaseChanged => OutcomeView::PhaseChanged,
            ActionOutcome::TurnAdvanced => OutcomeView::TurnAdvanced,
            ActionOutcome::Crafted { item_name } => OutcomeView::Crafted { item_name: item_name@ },
            ActionOutcome::EquipmentUpgraded { item_name, slot, level } => OutcomeView::EquipmentUpgraded {
                item_name: item_name@,
                slot: *slot,
                level: *level,
            },
            ActionOutcome::EquipmentRewarded { item_name, hero } => OutcomeView::EquipmentRewarded {
                item_name: item_name@,
                hero: hero@,
            },
            ActionOutcome::Absorbed { echo_name } => OutcomeView::Absorbed { echo_name: echo_name@ },
            ActionOutcome::ToggleChanged { name, enabled } => OutcomeView::ToggleChanged {
                name: name@,
                enabled: *enabled,
            },
            ActionOutcome::StatusViewed { name } => OutcomeView::StatusViewed { name: name@ },
            ActionOutcome::ItemUsed { name } => OutcomeView::ItemUsed { name: name@ },
            ActionOutcome::Rested { entity, fatigue_recovered, morale_gained } => OutcomeView::Rested {
                entity: entity@,
                fatigue_recovered: *fatigue_recovered,
                morale_gained: *morale_gained,
            },
            ActionOutcome::ModifiersRerolled { modifiers } => OutcomeView::ModifiersRerolled {
                modifiers: modifiers@.map_values(|m: String| m@),
            },
            ActionOutcome::GameSaved { path } => OutcomeView::GameSaved { path: path@ },
            ActionOutcome::GameLoaded { path } => OutcomeView::GameLoaded { path: path@ },
            ActionOutcome::RecordingChanged { enabled, records } => OutcomeView::RecordingChanged {
                enabled: *enabled,
                records: *records,
            },
            ActionOutcome::ReplayChanged { enabled, actions, errors } => OutcomeView::ReplayChanged {
                enabled: *enabled,
                actions: *actions,
                errors: *errors,
            },
            ActionOutcome::ReplayStepped { index, action, verified } => OutcomeView::ReplayStepped {
                index: *index,
                action: action@,
                verified: *verified,
            },
            ActionOutcome::ReplayAutoChanged { enabled } => OutcomeView::ReplayAutoChanged { enabled: *enabled },
            ActionOutcome::CritHit { damage } => OutcomeView::CritHit { damage: *damage },
            ActionOutcome::Blocked { damage_reduced } => OutcomeView::Blocked { damage_reduced: *damage_reduced },
            ActionOutcome::Hit { damage, target, was_critical, was_blocked } => OutcomeView::Hit {
                damage: *damage,
                target: target@,
                was_critical: *was_critical,
                was_blocked: *was_blocked,
            },
            ActionOutcome::Healed { amount, target } => OutcomeView::Healed { amount: *amount, target: target@ },
            ActionOutcome::Moved { entity, to } => OutcomeView::Moved { entity: entity@, to: *to },
            ActionOutcome::StatusApplied { status, target } => OutcomeView::StatusApplied {
                status: status@,
                target: target@,
            },
        }
    }
}

/// What the outcome of a step reads of the state before and after it.
#[derive(Copy, Clone, Debug, PartialEq, Eq, Structural)]
pub struct StateSummary {
    pub turn: u32,
    pub phase: TurnPhase,
    pub outcome: Outcome,
    pub floor: u32,
}

// ------------------------------------------------------------------
// Reading log lines
// ------------------------------------------------------------------

/// `p` occurs in `s` at index `i`.
pub open spec fn occurs_at(s: Seq<char>, p: Seq<char>, i: int) -> bool {
    0 <= i && i + p.len() <= s.len() && s.subrange(i, i + p.len()) == p
}

/// The first index from `i` on at which `p` occurs in `s`.
pub open spec fn first_match(s: Seq<char>, p: Seq<char>, i: int) -> Option<int>
    decreases s.len() + 1 - i,
{
    if i < 0 || i + p.len() > s.len() {
        None
    } else if s.subrange(i, i + p.len()) == p {
        Some(i)
    } else {
        first_match(s, p, i + 1)
    }
}

/// `p` occurs somewhere in `s`.
pub open spec fn contains_text(s: Seq<char>, p: Seq<char>) -> bool {
    first_match(s, p, 0) is Some
}

/// The last index below `k` at which `p` occurs in `s`.
pub open spec fn last_match(s: Seq<char>, p: Seq<char>, k: int) -> Option<int>
    decreases k,
{
    if k <= 0 {
        None
    } else if occurs_at(s, p, k - 1) {
        Some(k - 1)
    } else {
        last_match(s, p, k - 1)
    }
}

/// `s` without the copies of `c` at its end.
pub open spec fn trim_end(s: Seq<char>, c: char) -> Seq<char>
    decreases s.len(),
{
    if s.len() > 0 && s.last() == c {
        trim_end(s.drop_last(), c)
    } else {
        s
    }
}

/// `s` up to its first `c`.
pub open spec fn up_to(s: Seq<char>, c: char) -> Seq<char> {
    match first_match(s, seq![c], 0) {
        Some(j) => s.take(j),
        None => s,
    }
}

/// The piece of `s` after the first `p` and before the next one (what the
/// second piece of splitting `s` at `p` is), if `p` occurs.
pub open spec fn second_piece(s: Seq<char>, p: Seq<char>) -> Option<Seq<char>> {
    match first_match(s, p, 0) {
        Some(i) => {
            let rest = s.skip(i + p.len());
            match first_match(rest, p, 0) {
                Some(j) => Some(rest.take(j)),
                None => Some(rest),
            }
        },
        None => None,
    }
}

pub open spec fn is_digit(c: char) -> bool {
    '0' <= c && c <= '9'
}

/// Every character of `t` is a decimal digit.
pub open spec fn all_digits(t: Seq<char>) -> bool {
    forall|i: int| 0 <= i < t.len() ==> is_digit(#[trigger] t[i])
}

/// The value of a string of decimal digits.
pub open spec fn digits_value(s: Seq<char>) -> int
    decreases s.len(),
{
    if s.len() == 0 {
        0
    } else {
        digits_value(s.drop_last()) * 10 + (s.last() as int - '0' as int)
    }
}

/// `s` read as a `u8` the way Rust's `str::parse` reads it: an optional
/// `+`, then one or more decimal digits, worth at most 255.
pub open spec fn parse_u8(s: Seq<char>) -> Option<u8> {
    let t = if s.len() > 0 && s[0] == '+' {
        s.skip(1)
    } else {
        s
    };
    if t.len() > 0 && all_digits(t) && digits_value(t) <= 255 {
        Some(digits_value(t) as u8)
    } else {
        None
    }
}

fn find_from(t: &Vec<char>, lo: usize, hi: usize, p: &str) -> (r: Option<usize>)
    requires
        lo <= hi <= t@.len(),
    ensures
        match r {
            Some(j) => lo <= j && j + p@.len() <= hi && first_match(t@.subrange(lo as int, hi as int), p@, 0)
                == Some(j - lo),
            None => first_match(t@.subrange(lo as int, hi as int), p@, 0) is None,
        },
{
    let ghost s = t@.subrange(lo as int, hi as int);
    let n = p.unicode_len();
    if n == 0 {
        assert(s.subrange(0, 0) =~= p@);
        return Some(lo);
    }
    let mut i: usize = lo;
    while n <= hi - i
        invariant
            lo <= i <= hi,
            hi <= t@.len(),
            n == p@.len(),
            n >= 1,
            s == t@.subrange(lo as int, hi as int),
            first_match(s, p@, 0) == first_match(s, p@, i - lo),
        decreases hi - i,
    {
        let hit = range_is(t, i, i + n, p);
        assert(t@.subrange(i as int, i + n) == s.subrange(i - lo, i - lo + n));
        if hit {
            return Some(i);
        }
        i = i + 1;
    }
    None
}

fn find_last(t: &Vec<char>, lo: usize, hi: usize, p: &str) -> (r: Option<usize>)
    requires
        lo <= hi <= t@.len(),
    ensures
        match r {
            Some(j) => lo <= j && j + p@.len() <= hi && last_match(
                t@.subrange(lo as int, hi as int),
                p@,
                hi - lo + 1,
            ) == Some(j - lo),
            None => last_match(t@.subrange(lo as int, hi as int), p@, hi - lo + 1) is None,
        },
{
    let ghost s = t@.subrange(lo as int, hi as int);
    let n = p.unicode_len();
    if n == 0 {
        assert(s.subrange(s.len() as int, s.len() as int) =~= p@);
        assert(occurs_at(s, p@, s.len() as int));
        return Some(hi);
    }
    assert(!occurs_at(s, p@, s.len() as int));
    let mut k: usize = hi - lo;
    while k > 0
        invariant
            k <= hi - lo,
            lo <= hi <= t@.len(),
            n == p@.len(),
            s == t@.subrange(lo as int, hi as int),
            last_match(s, p@, hi - lo + 1) == last_match(s, p@, k as int),
        decreases k,
    {
        let i = k - 1;
        if n <= hi - lo - i {
            let hit = range_is(t, lo + i, lo + i + n, p);
            assert(t@.subrange(lo + i, lo + i + n) == s.subrange(i as int, i + n));
            if hit {
                return Some(lo + i);
            }
        }
        k = i;
    }
    None
}

/// The end of `lo..hi` once the copies of `c` at its end are dropped.
fn trim_end_at(t: &Vec<char>, lo: usize, hi: usize, c: char) -> (r: usize)
    requires
        lo <= hi <= t@.len(),
    ensures
        lo <= r <= hi,
        t@.subrange(lo as int, r as int) == trim_end(t@.subrange(lo as int, hi as int), c),
{
    let mut e = hi;
    while e > lo && t[e - 1] == c
        invariant
            lo <= e <= hi,
            hi <= t@.len(),
            trim_end(t@.subrange(lo as int, hi as int), c) == trim_end(t@.subrange(lo as int, e as int), c),
        decreases e,
    {
        assert(t@.subrange(lo as int, e as int).drop_last() =~= t@.subrange(lo as int, e - 1));
        e = e - 1;
    }
    e
}

proof fn lemma_digits_grow(s: Seq<char>)
    requires
        forall|i: int| 0 <= i < s.len() ==> is_digit(#[trigger] s[i]),
    ensures
        digits_value(s) >= 0,
    decreases s.len(),
{
    if s.len() > 0 {
        assert(forall|i: int| 0 <= i < s.drop_last().len() ==> s.drop_last()[i] == s[i]);
        lemma_digits_grow(s.drop_last());
    }
}

fn parse_u8_at(t: &Vec<char>, lo: usize, hi: usize) -> (r: Option<u8>)
    requires
        lo <= hi <= t@.len(),
    ensures
        r == parse_u8(t@.subrange(lo as int, hi as int)),
{
    let ghost s = t@.subrange(lo as int, hi as int);
    let start = if lo < hi && t[lo] == '+' {
        lo + 1
    } else {
        lo
    };
    let ghost u = t@.subrange(start as int, hi as int);
    assert(u =~= (if s.len() > 0 && s[0] == '+' {
        s.skip(1)
    } else {
        s
    }));
    if start >= hi {
        assert(u.len() == 0);
        assert(parse_u8(s) is None);
        return None;
    }
    let mut acc: u32 = 0;
    let mut k: usize = start;
    while k < hi
        invariant
            start <= k <= hi,
            hi <= t@.len(),
            u == t@.subrange(start as int, hi as int),
            s == t@.subrange(lo as int, hi as int),
            u == (if s.len() > 0 && s[0] == '+' {
                s.skip(1)
            } else {
                s
            }),
            forall|i: int| 0 <= i < k - start ==> is_digit(#[trigger] u[i]),
            acc <= 256,
            acc == (if digits_value(u.take(k - start)) < 256 {
                digits_value(u.take(k - start))
            } else {
                256
            }),
        decreases hi - k,
    {
        let c = t[k];
        if !('0' <= c && c <= '9') {
            assert(!is_digit(u[k - start]));
            return None;
        }
        let d = (c as u32) - ('0' as u32);
        let ghost pre = u.take(k - start);
        assert(u.take(k - start + 1).drop_last() =~= pre);
        assert(u.take(k - start + 1).last() == c);
        proof {
            assert(forall|i: int| 0 <= i < pre.len() ==> pre[i] == u[i]);
            lemma_digits_grow(pre);
        }
        let next = acc * 10 + d;
        acc = if next < 256 {
            next
        } else {
            256
        };
        k = k + 1;
    }
    assert(u.take(hi - start) =~= u);
    if acc <= 255 {
        Some(acc as u8)
    } else {
        None
    }
}

// ------------------------------------------------------------------
// Deciding the outcome
// ------------------------------------------------------------------

/// A log line that reports a refused step.
pub open spec fn failure_line(m: Seq<char>) -> bool {
    ||| "Not enough AP"@.is_prefix_of(m)
    ||| "Target is out of"@.is_prefix_of(m)
    ||| "Cannot move"@.is_prefix_of(m)
    ||| "Select a character"@.is_prefix_of(m)
    ||| "Concert Energy not full"@.is_prefix_of(m)
    ||| "No reachable safe"@.is_prefix_of(m)
}

/// Index of the first refusal among the lines from `i` on.
pub open spec fn first_failure(msgs: Seq<Seq<char>>, i: int) -> Option<int>
    decreases msgs.len() - i,
{
    if i < 0 || i >= msgs.len() {
        None
    } else if failure_line(msgs[i]) {
        Some(i)
    } else {
        first_failure(msgs, i + 1)
    }
}

/// The outcome the step recorded while it ran stands for the action.
pub open spec fn kept_last(last: OutcomeView, a: Action) -> bool {
    match last {
        OutcomeView::Failed { .. } => true,
        OutcomeView::ItemUsed { .. } => a is UseItem || a is Skill1 || a is Skill2 || a is Skill3,
        OutcomeView::Crafted { .. } => a is CraftItem,
        OutcomeView::EquipmentUpgraded { .. } => a is UpgradeEquipment,
        OutcomeView::EquipmentRewarded { .. } => true,
        OutcomeView::Absorbed { .. } => a is Confirm,
        OutcomeView::BossPhaseChanged { .. } => true,
        OutcomeView::ToggleChanged { .. } => true,
        OutcomeView::StatusViewed { .. } => a is ViewPrestige,
        OutcomeView::Rested { .. } => a is Rest,
        OutcomeView::ModifiersRerolled { .. } => a is RerollModifiers,
        OutcomeView::GameSaved { .. } => a is Save,
        OutcomeView::GameLoaded { .. } => a is Load,
        OutcomeView::RecordingChanged { .. } => a is ToggleRecording,
        OutcomeView::ReplayChanged { .. } => a is ToggleReplay || a is StepReplay,
        OutcomeView::ReplayStepped { .. } => a is StepReplay,
        OutcomeView::ReplayAutoChanged { .. } => a is ToggleReplayAuto,
        _ => false,
    }
}

/// The name of the crafted item in a line that mentions crafting: what
/// follows "crafted " (or else "Crafted ") up to the next `!`, or
/// "Unknown".
pub open spec fn crafted_name(m: Seq<char>) -> Seq<char> {
    match second_piece(m, "crafted "@) {
        Some(p) => up_to(p, '!'),
        None => match second_piece(m, "Crafted "@) {
            Some(p) => up_to(p, '!'),
            None => "Unknown"@,
        },
    }
}

/// What one new log line says of the step: an item was crafted, or (for
/// an upgrade) which item rose to which level.
pub open spec fn line_outcome(m: Seq<char>, a: Action) -> Option<OutcomeView> {
    if contains_text(m, "crafted"@) || contains_text(m, "Crafted"@) {
        Some(OutcomeView::Crafted { item_name: crafted_name(m) })
    } else if "Upgraded "@.is_prefix_of(m) {
        let body = trim_end(m.skip(9), '.');
        match last_match(body, " +"@, body.len() as int + 1) {
            Some(i) => match (a, parse_u8(body.skip(i + 2))) {
                (Action::UpgradeEquipment(slot), Some(level)) => Some(
                    OutcomeView::EquipmentUpgraded { item_name: body.take(i), slot, level },
                ),
                _ => None,
            },
            None => None,
        }
    } else {
        None
    }
}

/// The first new line, from index `i` on, that says what the step did.
pub open spec fn lines_outcome(msgs: Seq<Seq<char>>, a: Action, i: int) -> Option<OutcomeView>
    decreases msgs.len() - i,
{
    if i < 0 || i >= msgs.len() {
        None
    } else {
        match line_outcome(msgs[i], a) {
            Some(o) => Some(o),
            None => lines_outcome(msgs, a, i + 1),
        }
    }
}

/// Some new line mentions `p`.
pub open spec fn any_line_has(msgs: Seq<Seq<char>>, p: Seq<char>) -> bool {
    exists|j: int| 0 <= j < msgs.len() && contains_text(#[trigger] msgs[j], p)
}

/// The name a unit is reported by: its class, or `default`.
pub open spec fn name_or(units: Seq<UnitRecord>, e: Entity, default: Seq<char>) -> Seq<char> {
    match unit_index(units, e, units.len() as int) {
        Some(i) => match units[i].class {
            Some(c) => class_name(c),
            None => default,
        },
        None => default,
    }
}

/// An elemental status written as the game's reports write it.
pub open spec fn status_text(st: ElementalStatus) -> Seq<char> {
    match st {
        ElementalStatus::Normal => "None"@,
        ElementalStatus::Ice { duration } => "Ice"@ + " { duration: "@ + decimal(duration as int) + " }"@,
        ElementalStatus::Lightning { duration } => "Lightning"@ + " { duration: "@ + decimal(duration as int) + " }"@,
        ElementalStatus::Nature { duration } => "Nature"@ + " { duration: "@ + decimal(duration as int) + " }"@,
        ElementalStatus::Poison { duration } => "Poison"@ + " { duration: "@ + decimal(duration as int) + " }"@,
        ElementalStatus::Regen { duration } => "Regen"@ + " { duration: "@ + decimal(duration as int) + " }"@,
    }
}

/// What one event of the step says of it, if anything.
pub open spec fn event_outcome(ev: GameEvent, units: Seq<UnitRecord>, msgs: Seq<Seq<char>>) -> Option<
    OutcomeView,
> {
    match ev {
        GameEvent::Attacked { damage, .. } => if damage > 0 {
            if any_line_has(msgs, "CRITICAL HIT"@) {
                Some(OutcomeView::CritHit { damage })
            } else if any_line_has(msgs, "BLOCKED"@) {
                Some(OutcomeView::Blocked { damage_reduced: damage })
            } else {
                Some(OutcomeView::Hit { damage, target: Seq::empty(), was_critical: false, was_blocked: false })
            }
        } else {
            None
        },
        GameEvent::Healed { amount, .. } => if amount > 0 {
            Some(OutcomeView::Healed { amount, target: Seq::empty() })
        } else {
            None
        },
        GameEvent::PhaseChanged(_) => Some(OutcomeView::PhaseChanged),
        GameEvent::Moved { entity, to, .. } => Some(
            OutcomeView::Moved { entity: name_or(units, entity, ""@), to },
        ),
        GameEvent::ElementalApplied { entity, status } => Some(
            OutcomeView::StatusApplied { status: status_text(status), target: name_or(units, entity, "Unknown"@) },
        ),
        _ => None,
    }
}

/// The first event, from index `i` on, that says what the step did.
pub open spec fn events_outcome(
    events: Seq<GameEvent>,
    units: Seq<UnitRecord>,
    msgs: Seq<Seq<char>>,
    i: int,
) -> Option<OutcomeView>
    decreases events.len() - i,
{
    if i < 0 || i >= events.len() {
        None
    } else {
        match event_outcome(events[i], units, msgs) {
            Some(o) => Some(o),
            None => events_outcome(events, units, msgs, i + 1),
        }
    }
}

/// Actions that, when nothing else is reported, changed the view state.
pub open spec fn quiet_action(a: Action) -> bool {
    ||| a is MoveNorth || a is MoveSouth || a is MoveEast || a is MoveWest
    ||| a is Inspect || a is ClearCursor || a is NextCharacter || a is PrevCharacter
    ||| a is Skill1 || a is Skill2 || a is Skill3
    ||| a is ToggleInventory || a is TogglePerf || a is ToggleMinimap || a is ToggleHelp
    ||| a is AutoBattle || a is ToggleBestiary || a is UpgradeEquipment
}

/// The outcome of a step of `a`: the end of the game; else the first
/// refusal among the new log lines; else what the step recorded while it
/// ran, where that stands for the action; else a new floor, the boss's new
/// phase after a combat action, a new turn phase, a new turn; else what the
/// new lines or the step's events say; else that the view changed, or that
/// nothing happened.
pub open spec fn outcome_of(
    a: Action,
    before: StateSummary,
    after: StateSummary,
    last: OutcomeView,
    msgs: Seq<Seq<char>>,
    boss_phase: BossPhase,
    boss_transitioned: bool,
    events: Seq<GameEvent>,
    units: Seq<UnitRecord>,
) -> OutcomeView {
    if a is Quit || after.outcome != Outcome::Playing {
        OutcomeView::GameOver { outcome: after.outcome }
    } else if first_failure(msgs, 0) is Some {
        OutcomeView::Failed { reason: msgs[first_failure(msgs, 0)->0] }
    } else if kept_last(last, a) {
        last
    } else if before.floor != after.floor {
        OutcomeView::FloorTransition { from: before.floor, to: after.floor }
    } else if boss_phase == BossPhase::Phase2 && (a is Confirm || a is Skill1 || a is Skill2 || a is Skill3)
        && boss_transitioned {
        OutcomeView::BossPhaseChanged { phase: "Phase2"@ }
    } else if before.phase != after.phase {
        OutcomeView::PhaseChanged
    } else if before.turn != after.turn {
        OutcomeView::TurnAdvanced
    } else if lines_outcome(msgs, a, 0) is Some {
        lines_outcome(msgs, a, 0)->0
    } else if events_outcome(events, units, msgs, 0) is Some {
        events_outcome(events, units, msgs, 0)->0
    } else if quiet_action(a) {
        OutcomeView::StateUpdated
    } else {
        OutcomeView::NoOp
    }
}

// ------------------------------------------------------------------
// Computing the outcome
// ------------------------------------------------------------------

/// The texts of a list of log lines.
pub open spec fn texts(v: Seq<String>) -> Seq<Seq<char>> {
    v.map_values(|m: String| m@)
}

fn is_failure_line(t: &Vec<char>) -> (r: bool)
    ensures
        r == failure_line(t@),
{
    let n = t.len();
    assert(t@.subrange(0, n as int) =~= t@);
    range_starts_with(t, 0, n, "Not enough AP") || range_starts_with(t, 0, n, "Target is out of")
        || range_starts_with(t, 0, n, "Cannot move") || range_starts_with(t, 0, n, "Select a character")
        || range_starts_with(t, 0, n, "Concert Energy not full") || range_starts_with(
        t,
        0,
        n,
        "No reachable safe",
    )
}

fn failure_index(msgs: &Vec<String>) -> (r: Option<usize>)
    ensures
        match r {
            Some(i) => first_failure(texts(msgs@), 0) == Some(i as int) && i < msgs@.len(),
            None => first_failure(texts(msgs@), 0) is None,
        },
{
    let ghost ms = texts(msgs@);
    let n = msgs.len();
    let mut i: usize = 0;
    while i < n
        invariant
            i <= n,
            n == msgs@.len(),
            ms == texts(msgs@),
            first_failure(ms, 0) == first_failure(ms, i as int),
        decreases n - i,
    {
        let t = chars_of(msgs[i].as_str());
        assert(ms[i as int] == msgs@[i as int]@);
        if is_failure_line(&t) {
            return Some(i);
        }
        i = i + 1;
    }
    None
}

/// A copy of `o`.
fn copy_outcome(o: &ActionOutcome) -> (r: ActionOutcome)
    ensures
        r@ == o@,
{
    match o {
        ActionOutcome::NoOp => ActionOutcome::NoOp,
        ActionOutcome::StateUpdated => ActionOutcome::StateUpdated,
        ActionOutcome::Failed { reason } => ActionOutcome::Failed { reason: reason.clone() },
        ActionOutcome::GameOver { outcome } => ActionOutcome::GameOver { outcome: *outcome },
        ActionOutcome::FloorTransition { from, to } => ActionOutcome::FloorTransition { from: *from, to: *to },
        ActionOutcome::BossPhaseChanged { phase } => ActionOutcome::BossPhaseChanged { phase: phase.clone() },
        ActionOutcome::PhaseChanged => ActionOutcome::PhaseChanged,
        ActionOutcome::TurnAdvanced => ActionOutcome::TurnAdvanced,
        ActionOutcome::Crafted { item_name } => ActionOutcome::Crafted { item_name: item_name.clone() },
        ActionOutcome::EquipmentUpgraded { item_name, slot, level } => ActionOutcome::EquipmentUpgraded {
            item_name: item_name.clone(),
            slot: *slot,
            level: *level,
        },
        ActionOutcome::EquipmentRewarded { item_name, hero } => ActionOutcome::EquipmentRewarded {
            item_name: item_name.clone(),
            hero: hero.clone(),
        },
        ActionOutcome::Absorbed { echo_name } => ActionOutcome::Absorbed { echo_name: echo_name.clone() },
        ActionOutcome::ToggleChanged { name, enabled } => ActionOutcome::ToggleChanged {
            name: name.clone(),
            enabled: *enabled,
        },
        ActionOutcome::StatusViewed { name } => ActionOutcome::StatusViewed { name: name.clone() },
        ActionOutcome::ItemUsed { name } => ActionOutcome::ItemUsed { name: name.clone() },
        ActionOutcome::Rested { entity, fatigue_recovered, morale_gained } => ActionOutcome::Rested {
            entity: entity.clone(),
            fatigue_recovered: *fatigue_recovered,
            morale_gained: *morale_gained,
        },
        ActionOutcome::ModifiersRerolled { modifiers } => {
            let mut copied: Vec<String> = Vec::new();
            let n = modifiers.len();
            let mut i: usize = 0;
            while i < n
                invariant
                    i <= n,
                    n == modifiers@.len(),
                    texts(copied@) == texts(modifiers@).take(i as int),
                decreases n - i,
            {
                let ghost prev = copied@;
                copied.push(modifiers[i].clone());
                assert(copied@ == prev.push(modifiers@[i as int]));
                assert(texts(copied@) =~= texts(prev).push(modifiers@[i as int]@));
                assert(texts(modifiers@).take(i + 1) =~= texts(modifiers@).take(i as int).push(
                    modifiers@[i as int]@,
                ));
                i = i + 1;
            }
            assert(texts(copied@) =~= texts(modifiers@));
            ActionOutcome::ModifiersRerolled { modifiers: copied }
        },
        ActionOutcome::GameSaved { path } => ActionOutcome::GameSaved { path: path.clone() },
        ActionOutcome::GameLoaded { path } => ActionOutcome::GameLoaded { path: path.clone() },
        ActionOutcome::RecordingChanged { enabled, records } => ActionOutcome::RecordingChanged {
            enabled: *enabled,
            records: *records,
        },
        ActionOutcome::ReplayChanged { enabled, actions, errors } => ActionOutcome::ReplayChanged {
            enabled: *enabled,
            actions: *actions,
            errors: *errors,
        },
        ActionOutcome::ReplayStepped { index, action, verified } => ActionOutcome::ReplayStepped {
            index: *index,
            action: action.clone(),
            verified: *verified,
        },
        ActionOutcome::ReplayAutoChanged { enabled } => ActionOutcome::ReplayAutoChanged { enabled: *enabled },
        ActionOutcome::CritHit { damage } => ActionOutcome::CritHit { damage: *damage },
        ActionOutcome::Blocked { damage_reduced } => ActionOutcome::Blocked { damage_reduced: *damage_reduced },
        ActionOutcome::Hit { damage, target, was_critical, was_blocked } => ActionOutcome::Hit {
            damage: *damage,
            target: target.clone(),
            was_critical: *was_critical,
            was_blocked: *was_blocked,
        },
        ActionOutcome::Healed { amount, target } => ActionOutcome::Healed { amount: *amount, target: target.clone() },
        ActionOutcome::Moved { entity, to } => ActionOutcome::Moved { entity: entity.clone(), to: *to },
        ActionOutcome::StatusApplied { status, target } => ActionOutcome::StatusApplied {
            status: status.clone(),
            target: target.clone(),
        },
    }
}

fn kept_last_exec(last: &ActionOutcome, a: Action) -> (r: bool)
    ensures
        r == kept_last(last@, a),
{
    match last {
        ActionOutcome::Failed { .. } => true,
        ActionOutcome::ItemUsed { .. } => match a {
            Action::UseItem(_) | Action::Skill1 | Action::Skill2 | Action::Skill3 => true,
            _ => false,
        },
        ActionOutcome::Crafted { .. } => match a {
            Action::CraftItem(_, _) => true,
            _ => false,
        },
        ActionOutcome::EquipmentUpgraded { .. } => match a {
            Action::UpgradeEquipment(_) => true,
            _ => false,
        },
        ActionOutcome::EquipmentRewarded { .. } => true,
        ActionOutcome::Absorbed { .. } => match a {
            Action::Confirm => true,
            _ => false,
        },
        ActionOutcome::BossPhaseChanged { .. } => true,
        ActionOutcome::ToggleChanged { .. } => true,
        ActionOutcome::StatusViewed { .. } => match a {
            Action::ViewPrestige => true,
            _ => false,
        },
        ActionOutcome::Rested { .. } => match a {
            Action::Rest => true,
            _ => false,
        },
        ActionOutcome::ModifiersRerolled { .. } => match a {
            Action::RerollModifiers => true,
            _ => false,
        },
        ActionOutcome::GameSaved { .. } => match a {
            Action::Save => true,
            _ => false,
        },
        ActionOutcome::GameLoaded { .. } => match a {
            Action::Load => true,
            _ => false,
        },
        ActionOutcome::RecordingChanged { .. } => match a {
            Action::ToggleRecording => true,
            _ => false,
        },
        ActionOutcome::ReplayChanged { .. } => match a {
            Action::ToggleReplay | Action::StepReplay => true,
            _ => false,
        },
        ActionOutcome::ReplayStepped { .. } => match a {
            Action::StepReplay => true,
            _ => false,
        },
        ActionOutcome::ReplayAutoChanged { .. } => match a {
            Action::ToggleReplayAuto => true,
            _ => false,
        },
        _ => false,
    }
}

/// The range of `t` holding the second piece of splitting it at `p`.
fn second_piece_at(t: &Vec<char>, p: &str) -> (r: Option<(usize, usize)>)
    ensures
        match r {
            Some((lo, hi)) => lo <= hi <= t@.len() && second_piece(t@, p@) == Some(
                t@.subrange(lo as int, hi as int),
            ),
            None => second_piece(t@, p@) is None,
        },
{
    let n = t.len();
    assert(t@.subrange(0, n as int) =~= t@);
    match find_from(t, 0, n, p) {
        None => None,
        Some(i) => {
            let k = p.unicode_len();
            let start = i + k;
            let ghost rest = t@.skip(i + k);
            assert(rest =~= t@.subrange(start as int, n as int));
            match find_from(t, start, n, p) {
                Some(j) => {
                    assert(rest.take(j - start) =~= t@.subrange(start as int, j as int));
                    Some((start, j))
                },
                None => Some((start, n)),
            }
        },
    }
}

fn crafted_name_exec(m: &String, t: &Vec<char>) -> (r: String)
    requires
        t@ == m@,
    ensures
        r@ == crafted_name(m@),
{
    let piece = match second_piece_at(t, "crafted ") {
        Some(pr) => Some(pr),
        None => second_piece_at(t, "Crafted "),
    };
    match piece {
        Some((lo, hi)) => {
            let end = match find_from(t, lo, hi, "!") {
                Some(j) => j,
                None => hi,
            };
            assert(seq!['!'] =~= "!"@) by {
                reveal_strlit("!");
            }
            assert(t@.subrange(lo as int, end as int) == up_to(t@.subrange(lo as int, hi as int), '!')) by {
                assert(t@.subrange(lo as int, hi as int).take(end - lo) =~= t@.subrange(lo as int, end as int));
            }
            String::from_str(m.as_str().substring_char(lo, end))
        },
        None => String::from_str("Unknown"),
    }
}

fn line_result(m: &String, a: Action) -> (r: Option<ActionOutcome>)
    ensures
        match r {
            Some(o) => line_outcome(m@, a) == Some(o@),
            None => line_outcome(m@, a) is None,
        },
{
    let t = chars_of(m.as_str());
    let n = t.len();
    assert(t@.subrange(0, n as int) =~= t@);
    if find_from(&t, 0, n, "crafted").is_some() || find_from(&t, 0, n, "Crafted").is_some() {
        return Some(ActionOutcome::Crafted { item_name: crafted_name_exec(m, &t) });
    }
    if !range_starts_with(&t, 0, n, "Upgraded ") {
        return None;
    }
    proof {
        reveal_strlit("Upgraded ");
    }
    assert(t@.subrange(9, n as int) =~= m@.skip(9));
    let hi = trim_end_at(&t, 9, n, '.');
    let ghost body = t@.subrange(9, hi as int);
    match find_last(&t, 9, hi, " +") {
        None => None,
        Some(i) => {
            proof {
                reveal_strlit(" +");
            }
            assert(t@.subrange(i + 2, hi as int) =~= body.skip(i - 9 + 2));
            let level = parse_u8_at(&t, i + 2, hi);
            match (a, level) {
                (Action::UpgradeEquipment(slot), Some(lv)) => {
                    assert(t@.subrange(9, i as int) =~= body.take(i - 9));
                    let name = String::from_str(m.as_str().substring_char(9, i));
                    Some(ActionOutcome::EquipmentUpgraded { item_name: name, slot, level: lv })
                },
                _ => None,
            }
        },
    }
}

fn lines_result(msgs: &Vec<String>, a: Action) -> (r: Option<ActionOutcome>)
    ensures
        match r {
            Some(o) => lines_outcome(texts(msgs@), a, 0) == Some(o@),
            None => lines_outcome(texts(msgs@), a, 0) is None,
        },
{
    let ghost ms = texts(msgs@);
    let n = msgs.len();
    let mut i: usize = 0;
    while i < n
        invariant
            i <= n,
            n == msgs@.len(),
            ms == texts(msgs@),
            lines_outcome(ms, a, 0) == lines_outcome(ms, a, i as int),
        decreases n - i,
    {
        assert(ms[i as int] == msgs@[i as int]@);
        match line_result(&msgs[i], a) {
            Some(o) => {
                return Some(o);
            },
            None => {},
        }
        i = i + 1;
    }
    None
}

fn any_line_contains(msgs: &Vec<String>, p: &str) -> (r: bool)
    ensures
        r == any_line_has(texts(msgs@), p@),
{
    let ghost ms = texts(msgs@);
    let n = msgs.len();
    let mut i: usize = 0;
    while i < n
        invariant
            i <= n,
            n == msgs@.len(),
            ms == texts(msgs@),
            forall|j: int| 0 <= j < i ==> !contains_text(#[trigger] ms[j], p@),
        decreases n - i,
    {
        let t = chars_of(msgs[i].as_str());
        let k = t.len();
        assert(t@.subrange(0, k as int) =~= t@);
        assert(ms[i as int] == msgs@[i as int]@);
        if find_from(&t, 0, k, p).is_some() {
            assert(contains_text(ms[i as int], p@));
            return true;
        }
        i = i + 1;
    }
    false
}

fn name_or_exec(units: &Vec<UnitRecord>, e: Entity, default: &str) -> (r: String)
    ensures
        r@ == name_or(units@, e, default@),
{
    match find_unit(units, e) {
        Some(i) => match units[i].class {
            Some(c) => String::from_str(get_class_name(c)),
            None => String::from_str(default),
        },
        None => String::from_str(default),
    }
}

fn duration_text(kind: &str, d: u32) -> (r: String)
    ensures
        r@ == kind@ + " { duration: "@ + decimal(d as int) + " }"@,
{
    let mut r = String::new();
    push_str(&mut r, kind);
    push_str(&mut r, " { duration: ");
    push_digits(&mut r, d as u64);
    push_str(&mut r, " }");
    r
}

fn status_string(st: ElementalStatus) -> (r: String)
    ensures
        r@ == status_text(st),
{
    match st {
        ElementalStatus::Normal => String::from_str("None"),
        ElementalStatus::Ice { duration } => duration_text("Ice", duration),
        ElementalStatus::Lightning { duration } => duration_text("Lightning", duration),
        ElementalStatus::Nature { duration } => duration_text("Nature", duration),
        ElementalStatus::Poison { duration } => duration_text("Poison", duration),
        ElementalStatus::Regen { duration } => duration_text("Regen", duration),
    }
}

fn event_result(ev: &GameEvent, units: &Vec<UnitRecord>, msgs: &Vec<String>) -> (r: Option<ActionOutcome>)
    ensures
        match r {
            Some(o) => event_outcome(*ev, units@, texts(msgs@)) == Some(o@),
            None => event_outcome(*ev, units@, texts(msgs@)) is None,
        },
{
    match ev {
        GameEvent::Attacked { damage, .. } => {
            if *damage > 0 {
                let crit = any_line_contains(msgs, "CRITICAL HIT");
                let blocked = any_line_contains(msgs, "BLOCKED");
                if crit {
                    Some(ActionOutcome::CritHit { damage: *damage })
                } else if blocked {
                    Some(ActionOutcome::Blocked { damage_reduced: *damage })
                } else {
                    let target = String::new();
                    Some(ActionOutcome::Hit { damage: *damage, target, was_critical: false, was_blocked: false })
                }
            } else {
                None
            }
        },
        GameEvent::Healed { amount, .. } => {
            if *amount > 0 {
                let target = String::new();
                Some(ActionOutcome::Healed { amount: *amount, target })
            } else {
                None
            }
        },
        GameEvent::PhaseChanged(_) => Some(ActionOutcome::PhaseChanged),
        GameEvent::Moved { entity, to, .. } => {
            let name = name_or_exec(units, *entity, "");
            Some(ActionOutcome::Moved { entity: name, to: *to })
        },
        GameEvent::ElementalApplied { entity, status } => {
            let target = name_or_exec(units, *entity, "Unknown");
            Some(ActionOutcome::StatusApplied { status: status_string(*status), target })
        },
        _ => None,
    }
}

fn events_result(events: &Vec<GameEvent>, units: &Vec<UnitRecord>, msgs: &Vec<String>) -> (r: Option<
    ActionOutcome,
>)
    ensures
        match r {
            Some(o) => events_outcome(events@, units@, texts(msgs@), 0) == Some(o@),
            None => events_outcome(events@, units@, texts(msgs@), 0) is None,
        },
{
    let n = events.len();
    let mut i: usize = 0;
    while i < n
        invariant
            i <= n,
            n == events@.len(),
            events_outcome(events@, units@, texts(msgs@), 0) == events_outcome(
                events@,
                units@,
                texts(msgs@),
                i as int,
            ),
        decreases n - i,
    {
        match event_result(&events[i], units, msgs) {
            Some(o) => {
                return Some(o);
            },
            None => {},
        }
        i = i + 1;
    }
    None
}

fn is_quiet(a: Action) -> (r: bool)
    ensures
        r == quiet_action(a),
{
    match a {
        Action::MoveNorth | Action::MoveSouth | Action::MoveEast | Action::MoveWest | Action::Inspect(_)
        | Action::ClearCursor | Action::NextCharacter | Action::PrevCharacter | Action::Skill1
        | Action::Skill2 | Action::Skill3 | Action::ToggleInventory | Action::TogglePerf
        | Action::ToggleMinimap | Action::ToggleHelp | Action::AutoBattle | Action::ToggleBestiary
        | Action::UpgradeEquipment(_) => true,
        _ => false,
    }
}

/// The outcome reported for a step of `action`, from the state before and
/// after it (`before`, `after`), the outcome the step recorded while it ran
/// (`last`), the log lines it added, the boss's phase and whether the boss
/// has just changed phase, the step's events, and the units (which name the
/// units the events speak of).
pub fn compute_outcome(
    action: Action,
    before: &StateSummary,
    after: &StateSummary,
    last: &ActionOutcome,
    new_messages: &Vec<String>,
    boss_phase: BossPhase,
    boss_transitioned: bool,
    events: &Vec<GameEvent>,
    units: &Vec<UnitRecord>,
) -> (r: ActionOutcome)
    ensures
        r@ == outcome_of(
            action,
            *before,
            *after,
            last@,
            texts(new_messages@),
            boss_phase,
            boss_transitioned,
            events@,
            units@,
        ),
{
    let quit = match action {
        Action::Quit => true,
        _ => false,
    };
    if quit || after.outcome != Outcome::Playing {
        return ActionOutcome::GameOver { outcome: after.outcome };
    }
    match failure_index(new_messages) {
        Some(i) => {
            return ActionOutcome::Failed { reason: new_messages[i].clone() };
        },
        None => {},
    }
    if kept_last_exec(last, action) {
        return copy_outcome(last);
    }
    if before.floor != after.floor {
        return ActionOutcome::FloorTransition { from: before.floor, to: after.floor };
    }
    let combat = match action {
        Action::Confirm | Action::Skill1 | Action::Skill2 | Action::Skill3 => true,
        _ => false,
    };
    if boss_phase == BossPhase::Phase2 && combat && boss_transitioned {
        return ActionOutcome::BossPhaseChanged { phase: String::from_str("Phase2") };
    }
    if before.phase != after.phase {
        return ActionOutcome::PhaseChanged;
    }
    if before.turn != after.turn {
        return ActionOutcome::TurnAdvanced;
    }
    match lines_result(new_messages, action) {
        Some(o) => {
            return o;
        },
        None => {},
    }
    match events_result(events, units, new_messages) {
        Some(o) => {
            return o;
        },
        None => {},
    }
    if is_quiet(action) {
        ActionOutcome::StateUpdated
    } else {
        ActionOutcome::NoOp
    }
}

/// After a step: a failed step, or waiting, breaks a running combo.
/// Returns the log line when a combo was broken.
pub fn break_combo(game: &mut GameState, outcome: &ActionOutcome, action: Action) -> (r: Option<&'static str>)
    ensures
        ({
            let failed = outcome@ is Failed;
            let waited = action is Wait;
            if (failed || waited) && old(game).combo_count > 0 {
                &&& *final(game) == (GameState { combo_count: 0, ..*old(game) })
                &&& r matches Some(m) && m@ == if failed {
                    "Combo broken by failed action."@
                } else {
                    "Combo broken by waiting."@
                }
            } else {
                *final(game) == *old(game) && r is None
            }
        }),
{
    let failed = match outcome {
        ActionOutcome::Failed { .. } => true,
        _ => false,
    };
    let waited = match action {
        Action::Wait => true,
        _ => false,
    };
    if (failed || waited) && game.combo_count > 0 {
        game.combo_count = 0;
        if failed {
            Some("Combo broken by failed action.")
        } else {
            Some("Combo broken by waiting.")
        }
    } else {
        None
    }
}

/// A failure the step recorded is what the step reports, unless the game
/// ended or a log line reported a refusal first.
pub proof fn lemma_recorded_failure_reported(
    a: Action,
    before: StateSummary,
    after: StateSummary,
    reason: Seq<char>,
    msgs: Seq<Seq<char>>,
    boss_phase: BossPhase,
    boss_transitioned: bool,
    events: Seq<GameEvent>,
    units: Seq<UnitRecord>,
)
    requires
        !(a is Quit),
        after.outcome == Outcome::Playing,
        first_failure(msgs, 0) is None,
    ensures
        outcome_of(
            a,
            before,
            after,
            OutcomeView::Failed { reason },
            msgs,
            boss_phase,
            boss_transitioned,
            events,
            units,
        ) == (OutcomeView::Failed { reason }),
{
}

} // verus!
