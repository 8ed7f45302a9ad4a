use vstd::prelude::*;

use crate::action::Action;
use crate::components::{
    BattleStats, ElementalShield, GameEvent, GameState, Team, Fatigue, ItemEffect, Morale, Outcome, RedoStack, Stats, TargetingMode,
    TurnPhase, UIState, UndoStack,
};
use crate::geometry::{Direction, Entity, Position};

verus! {

// ------------------------------------------------------------------
// The cursor
// ------------------------------------------------------------------

/// `v` kept within `lo..=hi`.
pub open spec fn clamp_int(v: int, lo: int, hi: int) -> int {
    if v < lo {
        lo
    } else if v > hi {
        hi
    } else {
        v
    }
}

/// One step of the cursor in direction `d` (north is up), kept on a map of
/// `width` by `height` cells.
pub open spec fn cursor_after(c: Position, d: Direction, width: int, height: int) -> Position {
    let (dx, dy) = match d {
        Direction::North => (0int, -1int),
        Direction::South => (0int, 1int),
        Direction::East => (1int, 0int),
        Direction::West => (-1int, 0int),
    };
    Position {
        x: clamp_int(c.x + dx, 0, width - 1) as i16,
        y: clamp_int(c.y + dy, 0, height - 1) as i16,
    }
}

/// Moves the cursor one cell in direction `d`, keeping it on the map.
pub fn move_cursor(cursor: Position, d: Direction, width: u16, height: u16) -> (r: Position)
    requires
        1 <= width <= i16::MAX,
        1 <= height <= i16::MAX,
        d == Direction::North ==> cursor.y > i16::MIN,
        d == Direction::South ==> cursor.y < i16::MAX,
        d == Direction::East ==> cursor.x < i16::MAX,
        d == Direction::West ==> cursor.x > i16::MIN,
    ensures
        r == cursor_after(cursor, d, width as int, height as int),
        0 <= r.x < width,
        0 <= r.y < height,
{
    let (x, y) = match d {
        Direction::North => (cursor.x, cursor.y - 1),
        Direction::South => (cursor.x, cursor.y + 1),
        Direction::East => (cursor.x + 1, cursor.y),
        Direction::West => (cursor.x - 1, cursor.y),
    };
    let w: i16 = width as i16 - 1;
    let h: i16 = height as i16 - 1;
    let cx = if x < 0 {
        0
    } else if x > w {
        w
    } else {
        x
    };
    let cy = if y < 0 {
        0
    } else if y > h {
        h
    } else {
        y
    };
    Position::new(cx, cy)
}

// ------------------------------------------------------------------
// Using an item
// ------------------------------------------------------------------

/// What using an item does to the hero who uses it.
#[derive(Copy, Clone, Debug, PartialEq, Eq, Structural)]
pub struct ItemUse {
    /// The hero's stats afterwards.
    pub stats: Option<Stats>,
    /// The hero loses its element, rooting and stun.
    pub cleanses: bool,
    /// The shield the hero now carries, if the item makes one.
    pub shield: Option<ElementalShield>,
    /// The item is used up (an upgrade kit is not: it goes back).
    pub consumed: bool,
}

/// `v + amount`, but no more than `cap`.
pub open spec fn raised_to(v: int, amount: int, cap: int) -> int {
    if cap < v + amount {
        cap
    } else {
        v + amount
    }
}

/// The effect of an item on its user's stats.
pub open spec fn stats_after_item(effect: ItemEffect, s: Stats) -> Stats {
    match effect {
        ItemEffect::Heal(a) => Stats { hp: raised_to(s.hp as int, a as int, s.max_hp as int) as i32, ..s },
        ItemEffect::CleanseAndHeal(a) => Stats {
            hp: raised_to(s.hp as int, a as int, s.max_hp as int) as i32,
            ..s
        },
        ItemEffect::ReplenishAp(a) => Stats { ap: raised_to(s.ap as int, a as int, s.max_ap as int) as i32, ..s },
        ItemEffect::Combined(h, a) => Stats {
            hp: raised_to(s.hp as int, h as int, s.max_hp as int) as i32,
            ap: raised_to(s.ap as int, a as int, s.max_ap as int) as i32,
            ..s
        },
        _ => s,
    }
}

/// The item's healing and action points can be added to the user's without overflow.
pub open spec fn item_fits(effect: ItemEffect, stats: Option<Stats>) -> bool {
    match stats {
        Some(s) => match effect {
            ItemEffect::Heal(a) => i32::MIN <= s.hp + a <= i32::MAX,
            ItemEffect::CleanseAndHeal(a) => i32::MIN <= s.hp + a <= i32::MAX,
            ItemEffect::ReplenishAp(a) => i32::MIN <= s.ap + a <= i32::MAX,
            ItemEffect::Combined(h, a) => i32::MIN <= s.hp + h <= i32::MAX && i32::MIN <= s.ap + a
                <= i32::MAX,
            _ => true,
        },
        None => true,
    }
}

fn raise(v: i32, amount: i32, cap: i32) -> (r: i32)
    requires
        i32::MIN <= v + amount <= i32::MAX,
    ensures
        r == raised_to(v as int, amount as int, cap as int),
{
    let t = v + amount;
    if cap < t {
        cap
    } else {
        t
    }
}

/// Uses an item with effect `effect` on a hero with stats `stats`: healing
/// and action points rise by the item's amounts up to the hero's maxima,
/// cleansing items clear the hero's statuses, a shield item gives a full
/// shield of its amount, and an upgrade kit does nothing and is kept.
pub fn use_item(effect: ItemEffect, stats: Option<Stats>) -> (r: ItemUse)
    requires
        item_fits(effect, stats),
    ensures
        r.stats == match stats {
            Some(s) => Some(stats_after_item(effect, s)),
            None => None,
        },
        r.cleanses == (effect is Cleanse || effect is CleanseAndHeal),
        r.shield == match effect {
            ItemEffect::RestoreShield(t, a) => Some(
                ElementalShield { shield_type: t, amount: a, max_amount: a },
            ),
            _ => None,
        },
        r.consumed == !(effect is UpgradeKit),
{
    let new_stats = match stats {
        None => None,
        Some(s) => Some(
            match effect {
                ItemEffect::Heal(a) => Stats { hp: raise(s.hp, a, s.max_hp), ..s },
                ItemEffect::CleanseAndHeal(a) => Stats { hp: raise(s.hp, a, s.max_hp), ..s },
                ItemEffect::ReplenishAp(a) => Stats { ap: raise(s.ap, a, s.max_ap), ..s },
                ItemEffect::Combined(h, a) => Stats {
                    hp: raise(s.hp, h, s.max_hp),
                    ap: raise(s.ap, a, s.max_ap),
                    ..s
                },
                _ => s,
            },
        ),
    };
    let cleanses = match effect {
        ItemEffect::Cleanse => true,
        ItemEffect::CleanseAndHeal(_) => true,
        _ => false,
    };
    let shield = match effect {
        ItemEffect::RestoreShield(t, a) => Some(
            ElementalShield { shield_type: t, amount: a, max_amount: a },
        ),
        _ => None,
    };
    let consumed = match effect {
        ItemEffect::UpgradeKit => false,
        _ => true,
    };
    ItemUse { stats: new_stats, cleanses, shield, consumed }
}

// ------------------------------------------------------------------
// Resting
// ------------------------------------------------------------------

/// A rest takes 20 fatigue off (not below 0) and adds 5 morale (not above the
/// maximum); it reports the fatigue recovered and the morale gained (0 for a
/// hero without that state).
pub fn rest(fatigue: Option<Fatigue>, morale: Option<Morale>) -> (r: (
    Option<Fatigue>,
    Option<Morale>,
    i32,
    i32,
))
    requires
        morale matches Some(m) ==> m.value + 5 <= i32::MAX && m.max - m.value >= i32::MIN,
        fatigue matches Some(f) ==> f.value - 20 >= i32::MIN,
    ensures
        r.0 == match fatigue {
            Some(f) => Some(
                Fatigue {
                    value: if f.value - 20 > 0 {
                        (f.value - 20) as i32
                    } else {
                        0
                    },
                    ..f
                },
            ),
            None => None,
        },
        r.1 == match morale {
            Some(m) => Some(Morale { value: raised_to(m.value as int, 5, m.max as int) as i32, ..m }),
            None => None,
        },
        r.2 == match (fatigue, r.0) {
            (Some(f), Some(g)) => f.value - g.value,
            _ => 0,
        },
        r.3 == match (morale, r.1) {
            (Some(m), Some(n)) => n.value - m.value,
            _ => 0,
        },
{
    let f2 = match fatigue {
        Some(f) => Some(
            Fatigue {
                value: if f.value - 20 > 0 {
                    f.value - 20
                } else {
                    0
                },
                ..f
            },
        ),
        None => None,
    };
    let m2 = match morale {
        Some(m) => Some(Morale { value: raise(m.value, 5, m.max), ..m }),
        None => None,
    };
    let recovered: i32 = match (fatigue, f2) {
        (Some(f), Some(g)) => f.value - g.value,
        _ => 0,
    };
    let gained: i32 = match (morale, m2) {
        (Some(m), Some(n)) => n.value - m.value,
        _ => 0,
    };
    (f2, m2, recovered, gained)
}

// ------------------------------------------------------------------
// Undo and redo
// ------------------------------------------------------------------

/// How many saved states each of the undo and redo stacks keeps.
pub open spec fn history_depth() -> int {
    10
}

/// A stack after `x` is pushed on it, the oldest state dropped when it then
/// holds more than ten.
pub open spec fn pushed_bounded(s: Seq<Seq<char>>, x: Seq<char>) -> Seq<Seq<char>> {
    let t = s.push(x);
    if t.len() > history_depth() {
        t.subrange(1, t.len() as int)
    } else {
        t
    }
}

/// The states a stack holds, as texts.
pub open spec fn texts(v: Seq<String>) -> Seq<Seq<char>> {
    v.map_values(|s: String| s@)
}

fn push_bounded(states: &mut Vec<String>, x: String)
    ensures
        texts(final(states)@) == pushed_bounded(texts(old(states)@), x@),
{
    let ghost x_view = x@;
    states.push(x);
    assert(texts(states@) =~= texts(old(states)@).push(x_view));
    if states.len() > 10 {
        states.remove(0);
        assert(texts(states@) =~= texts(old(states)@).push(x_view).subrange(
            1,
            texts(old(states)@).len() + 1int,
        ));
    }
}

/// Actions that leave the undo history alone.
pub open spec fn undoable(a: Action) -> bool {
    !(a is Undo || a is Redo || a is Save || a is Load || a is Quit || a is ToggleRecording
        || a is ToggleReplay || a is ToggleReplayAuto || a is StepReplay || a is TogglePerf
        || a is ToggleMinimap || a is ChangeWeather || a is ViewPrestige)
}

/// Before an action is carried out: an undoable action in the player's phase
/// saves the state `saved` on the undo stack (keeping the last ten) and
/// empties the redo stack; ending the turn empties both.
pub fn record_for_undo(
    undo: &mut UndoStack,
    redo: &mut RedoStack,
    action: Action,
    phase: TurnPhase,
    saved: String,
)
    ensures
        action is EndTurn ==> final(undo).states@.len() == 0 && final(redo).states@.len() == 0,
        !(action is EndTurn) ==> if undoable(action) && phase == TurnPhase::Player {
            &&& texts(final(undo).states@) == pushed_bounded(texts(old(undo).states@), saved@)
            &&& final(redo).states@.len() == 0
        } else {
            &&& final(undo).states@ == old(undo).states@
            &&& final(redo).states@ == old(redo).states@
        },
{
    let keep = match action {
        Action::Undo | Action::Redo | Action::Save | Action::Load | Action::Quit
        | Action::ToggleRecording | Action::ToggleReplay | Action::ToggleReplayAuto
        | Action::StepReplay | Action::TogglePerf | Action::ToggleMinimap | Action::ChangeWeather(_)
        | Action::ViewPrestige => false,
        _ => true,
    };
    let player = match phase {
        TurnPhase::Player => true,
        TurnPhase::Enemy => false,
    };
    if keep && player {
        push_bounded(&mut undo.states, saved);
        redo.states = Vec::new();
    }
    if let Action::EndTurn = action {
        undo.states = Vec::new();
        redo.states = Vec::new();
    }
}

/// Takes the latest state off a stack, to be loaded (an undo takes it from the
/// undo stack, a redo from the redo stack).
pub fn take_state(states: &mut Vec<String>) -> (r: Option<String>)
    ensures
        old(states)@.len() == 0 ==> r is None && final(states)@ == old(states)@,
        old(states)@.len() > 0 ==> (r matches Some(s) && s@ == old(states)@.last()@
            && final(states)@ == old(states)@.drop_last()),
{
    states.pop()
}

/// Once the state taken for an undo (or a redo) has loaded, the state it
/// replaced goes on the redo (or undo) stack, which keeps the last ten.
pub fn keep_replaced_state(states: &mut Vec<String>, replaced: String)
    ensures
        texts(final(states)@) == pushed_bounded(texts(old(states)@), replaced@),
{
    push_bounded(states, replaced);
}

/// Undoing and then redoing returns to the state the undo replaced: after
/// the replaced state `current` is kept on a redo stack, the redo takes
/// `current` back, and every stack keeps at most ten states.
pub proof fn lemma_undo_then_redo(redo: Seq<Seq<char>>, current: Seq<char>)
    requires
        redo.len() <= history_depth(),
    ensures
        pushed_bounded(redo, current).last() == current,
        pushed_bounded(redo, current).len() <= history_depth(),
        pushed_bounded(redo, current).drop_last() == if redo.len() == history_depth() {
            redo.subrange(1, redo.len() as int)
        } else {
            redo
        },
{
    let t = redo.push(current);
    if t.len() > history_depth() {
        assert(t.subrange(1, t.len() as int).drop_last() =~= redo.subrange(1, redo.len() as int));
    } else {
        assert(t.drop_last() =~= redo);
    }
}

// ------------------------------------------------------------------
// Which handling an action gets
// ------------------------------------------------------------------

/// Where an action goes before the game carries it out.
#[derive(Copy, Clone, Debug, PartialEq, Eq, Structural)]
pub enum Routing {
    /// An open dialogue takes the action.
    Dialogue,
    /// The open overlay closes, back to the normal view.
    CloseOverlay(UIState),
    /// The action does nothing: an overlay swallows it, or the game is over.
    Ignored,
    /// The selected hero has no morale left and cannot act.
    TooDemoralized,
    /// The game carries out this action (in the inventory, the skill keys
    /// stand for using an item).
    Proceed(Action),
}

/// In the inventory, the skill keys and the character keys use items: the
/// first three keys the first three items, character key `i` item `i + 3`.
pub open spec fn inventory_key(a: Action) -> Action {
    match a {
        Action::Skill1 => Action::UseItem(0),
        Action::Skill2 => Action::UseItem(1),
        Action::Skill3 => Action::UseItem(2),
        Action::SwapCharacter(i) => Action::UseItem((i + 3) as usize),
        _ => a,
    }
}

/// Actions a hero with no morale may still take.
pub open spec fn allowed_without_morale(a: Action) -> bool {
    a is Wait || a is EndTurn || a is Rest || a is Cancel
}

/// The checks an action passes before it is carried out, in order: an open
/// dialogue takes it; the inventory turns skill keys into item use, closes
/// on its key or Cancel and swallows anything but item use and Quit; the help
/// and bestiary overlays close on their key or Cancel and swallow anything
/// but Quit; once the game is over only Quit goes on; and a selected hero
/// with no morale may only wait, end the turn, rest or cancel.
pub open spec fn routing(
    dialogue_open: bool,
    ui: UIState,
    outcome: Outcome,
    selected_morale: Option<i32>,
    action: Action,
) -> Routing {
    let a = if ui == UIState::Inventory {
        inventory_key(action)
    } else {
        action
    };
    if dialogue_open {
        Routing::Dialogue
    } else if ui == UIState::Inventory && (a is ToggleInventory || a is Cancel) {
        Routing::CloseOverlay(UIState::Inventory)
    } else if ui == UIState::Inventory && !(a is UseItem || a is Quit) {
        Routing::Ignored
    } else if ui == UIState::Help && (a is Cancel || a is ToggleHelp) {
        Routing::CloseOverlay(UIState::Help)
    } else if ui == UIState::Help && !(a is Quit) {
        Routing::Ignored
    } else if ui == UIState::Bestiary && (a is Cancel || a is ToggleBestiary) {
        Routing::CloseOverlay(UIState::Bestiary)
    } else if ui == UIState::Bestiary && !(a is Quit) {
        Routing::Ignored
    } else if outcome != Outcome::Playing && !(a is Quit) {
        Routing::Ignored
    } else if selected_morale == Some(0i32) && !allowed_without_morale(a) {
        Routing::TooDemoralized
    } else {
        Routing::Proceed(a)
    }
}

/// Where an action goes before the game carries it out; `selected_morale`
/// is the selected hero's morale, if a hero with morale is selected.
pub fn route_action(
    dialogue_open: bool,
    ui: UIState,
    outcome: Outcome,
    selected_morale: Option<i32>,
    action: Action,
) -> (r: Routing)
    requires
        ui == UIState::Inventory ==> (action matches Action::SwapCharacter(i) ==> i + 3 <= usize::MAX),
    ensures
        r == routing(dialogue_open, ui, outcome, selected_morale, action),
{
    let a = if ui == UIState::Inventory {
        match action {
            Action::Skill1 => Action::UseItem(0),
            Action::Skill2 => Action::UseItem(1),
            Action::Skill3 => Action::UseItem(2),
            Action::SwapCharacter(i) => Action::UseItem(i + 3),
            _ => action,
        }
    } else {
        action
    };
    let is_quit = match a {
        Action::Quit => true,
        _ => false,
    };
    if dialogue_open {
        return Routing::Dialogue;
    }
    match ui {
        UIState::Inventory => {
            match a {
                Action::ToggleInventory | Action::Cancel => {
                    return Routing::CloseOverlay(UIState::Inventory);
                },
                Action::UseItem(_) | Action::Quit => {},
                _ => {
                    return Routing::Ignored;
                },
            }
        },
        UIState::Help => {
            match a {
                Action::ToggleHelp | Action::Cancel => {
                    return Routing::CloseOverlay(UIState::Help);
                },
                Action::Quit => {},
                _ => {
                    return Routing::Ignored;
                },
            }
        },
        UIState::Bestiary => {
            match a {
                Action::ToggleBestiary | Action::Cancel => {
                    return Routing::CloseOverlay(UIState::Bestiary);
                },
                Action::Quit => {},
                _ => {
                    return Routing::Ignored;
                },
            }
        },
        UIState::Normal => {},
    }
    let playing = match outcome {
        Outcome::Playing => true,
        _ => false,
    };
    if !playing && !is_quit {
        return Routing::Ignored;
    }
    let allowed = match a {
        Action::Wait | Action::EndTurn | Action::Rest | Action::Cancel => true,
        _ => false,
    };
    if selected_morale == Some(0i32) && !allowed {
        return Routing::TooDemoralized;
    }
    Routing::Proceed(a)
}

// ------------------------------------------------------------------
// Battle statistics
// ------------------------------------------------------------------

/// The team `e` belongs to, by the last entry for it in `teams`.
pub open spec fn team_of(teams: Seq<(Entity, Team)>, e: Entity, k: int) -> Option<Team>
    decreases k,
{
    if k <= 0 {
        None
    } else if teams[k - 1].0 == e {
        Some(teams[k - 1].1)
    } else {
        team_of(teams, e, k - 1)
    }
}

/// The damage dealt, damage taken, healing done and kills, as the first `k`
/// events add them to `base`.
pub open spec fn tallied(base: (int, int, int, int), events: Seq<GameEvent>, teams: Seq<(Entity, Team)>, k: int) -> (int, int, int, int)
    decreases k,
{
    if k <= 0 {
        base
    } else {
        let (dealt, taken, healed, kills) = tallied(base, events, teams, k - 1);
        let team = |e: Entity| team_of(teams, e, teams.len() as int);
        match events[k - 1] {
            GameEvent::Attacked { attacker, target, damage } => (
                if team(attacker) == Some(Team::Player) {
                    dealt + damage
                } else {
                    dealt
                },
                if team(target) == Some(Team::Player) {
                    taken + damage
                } else {
                    taken
                },
                healed,
                kills,
            ),
            GameEvent::Healed { healer, amount, .. } => (
                dealt,
                taken,
                if team(healer) == Some(Team::Player) {
                    healed + amount
                } else {
                    healed
                },
                kills,
            ),
            GameEvent::Defeated { entity } => (
                dealt,
                taken,
                healed,
                if team(entity) == Some(Team::Enemy) {
                    kills + 1
                } else {
                    kills
                },
            ),
            GameEvent::ReactionTriggered { entity, damage, healing, .. } => if team(entity) == Some(
                Team::Player,
            ) {
                (dealt, taken + damage, healed + healing, kills)
            } else {
                (dealt + damage, taken, healed, kills)
            },
            _ => (dealt, taken, healed, kills),
        }
    }
}

/// The running totals of the battle statistics stay within their types
/// while the events are added.
pub open spec fn tally_fits(base: (int, int, int, int), events: Seq<GameEvent>, teams: Seq<(Entity, Team)>) -> bool {
    forall|k: int|
        0 <= k <= events.len() ==> {
            let t = #[trigger] tallied(base, events, teams, k);
            &&& i32::MIN <= t.0 <= i32::MAX
            &&& i32::MIN <= t.1 <= i32::MAX
            &&& i32::MIN <= t.2 <= i32::MAX
            &&& 0 <= t.3 <= u32::MAX
        }
}

fn team_lookup(teams: &[(Entity, Team)], e: Entity) -> (r: Option<Team>)
    ensures
        r == team_of(teams@, e, teams@.len() as int),
{
    let n = teams.len();
    let mut found: Option<Team> = None;
    let mut k: usize = 0;
    while k < n
        invariant
            k <= n,
            n == teams@.len(),
            found == team_of(teams@, e, k as int),
        decreases n - k,
    {
        if teams[k].0 == e {
            found = Some(teams[k].1);
        }
        k = k + 1;
    }
    found
}

/// Adds a step's events to the battle statistics: damage the heroes deal and
/// take, healing they do, enemies defeated, reactions on heroes (damage taken,
/// healing done) and on enemies (damage dealt); a step that advanced the turn
/// counts one more turn, and the best combo so far is kept. `teams` gives
/// each unit's team.
pub fn tally_battle_stats(
    stats: &mut BattleStats,
    events: &[GameEvent],
    teams: &[(Entity, Team)],
    turn_advanced: bool,
    combo: u32,
)
    requires
        tally_fits(
            (
                old(stats).total_damage_dealt as int,
                old(stats).total_damage_taken as int,
                old(stats).total_healing_done as int,
                old(stats).total_kills as int,
            ),
            events@,
            teams@,
        ),
        turn_advanced ==> old(stats).total_turns < u32::MAX,
    ensures
        ({
            let t = tallied(
                (
                    old(stats).total_damage_dealt as int,
                    old(stats).total_damage_taken as int,
                    old(stats).total_healing_done as int,
                    old(stats).total_kills as int,
                ),
                events@,
                teams@,
                events@.len() as int,
            );
            &&& final(stats).total_damage_dealt == t.0
            &&& final(stats).total_damage_taken == t.1
            &&& final(stats).total_healing_done == t.2
            &&& final(stats).total_kills == t.3
        }),
        final(stats).total_turns == if turn_advanced {
            old(stats).total_turns + 1
        } else {
            old(stats).total_turns as int
        },
        final(stats).max_combo_reached == if combo > old(stats).max_combo_reached {
            combo
        } else {
            old(stats).max_combo_reached
        },
        final(stats).total_swaps == old(stats).total_swaps,
{
    let ghost base = (
        stats.total_damage_dealt as int,
        stats.total_damage_taken as int,
        stats.total_healing_done as int,
        stats.total_kills as int,
    );
    let n = events.len();
    let mut k: usize = 0;
    while k < n
        invariant
            k <= n,
            n == events@.len(),
            tally_fits(base, events@, teams@),
            tallied(base, events@, teams@, k as int) == (
                stats.total_damage_dealt as int,
                stats.total_damage_taken as int,
                stats.total_healing_done as int,
                stats.total_kills as int,
            ),
            stats.total_turns == old(stats).total_turns,
            stats.max_combo_reached == old(stats).max_combo_reached,
            stats.total_swaps == old(stats).total_swaps,
        decreases n - k,
    {
        let ghost next = tallied(base, events@, teams@, k + 1);
        assert(i32::MIN <= next.0 <= i32::MAX && i32::MIN <= next.1 <= i32::MAX && i32::MIN <= next.2
            <= i32::MAX && 0 <= next.3 <= u32::MAX);
        match &events[k] {
            GameEvent::Attacked { attacker, target, damage } => {
                if team_lookup(teams, *attacker) == Some(Team::Player) {
                    stats.total_damage_dealt = stats.total_damage_dealt + *damage;
                }
                if team_lookup(teams, *target) == Some(Team::Player) {
                    stats.total_damage_taken = stats.total_damage_taken + *damage;
                }
            },
            GameEvent::Healed { healer, amount, .. } => {
                if team_lookup(teams, *healer) == Some(Team::Player) {
                    stats.total_healing_done = stats.total_healing_done + *amount;
                }
            },
            GameEvent::Defeated { entity } => {
                if team_lookup(teams, *entity) == Some(Team::Enemy) {
                    stats.total_kills = stats.total_kills + 1;
                }
            },
            GameEvent::ReactionTriggered { entity, damage, healing, .. } => {
                if team_lookup(teams, *entity) == Some(Team::Player) {
                    stats.total_damage_taken = stats.total_damage_taken + *damage;
                    stats.total_healing_done = stats.total_healing_done + *healing;
                } else {
                    stats.total_damage_dealt = stats.total_damage_dealt + *damage;
                }
            },
            _ => {},
        }
        k = k + 1;
    }
    if turn_advanced {
        stats.total_turns = stats.total_turns + 1;
    }
    if combo > stats.max_combo_reached {
        stats.max_combo_reached = combo;
    }
}

// ------------------------------------------------------------------
// Steps that only change the view
// ------------------------------------------------------------------

/// The direction of a cursor move.
pub open spec fn move_direction(a: Action) -> Option<Direction> {
    match a {
        Action::MoveNorth => Some(Direction::North),
        Action::MoveSouth => Some(Direction::South),
        Action::MoveEast => Some(Direction::East),
        Action::MoveWest => Some(Direction::West),
        _ => None,
    }
}

/// An overlay's key: open it, or close it when it is the one open.
pub open spec fn toggled(ui: UIState, overlay: UIState) -> UIState {
    if ui == overlay {
        UIState::Normal
    } else {
        overlay
    }
}

/// What an action that only changes the game's view state does: the new
/// state and the log line, if any; `None` for the other actions, which
/// change the world.
pub open spec fn view_step(s: GameState, a: Action, w: int, h: int) -> Option<(GameState, Option<Seq<char>>)> {
    match a {
        Action::MoveNorth | Action::MoveSouth | Action::MoveEast | Action::MoveWest => Some(
            (GameState { cursor: cursor_after(s.cursor, move_direction(a)->0, w, h), ..s }, None),
        ),
        Action::ToggleInventory => if s.selected_entity is Some {
            Some(
                (
                    GameState { ui_state: toggled(s.ui_state, UIState::Inventory), ..s },
                    Some(
                        if s.ui_state == UIState::Inventory {
                            "Inventory closed."@
                        } else {
                            "Inventory opened. Press [1-9] to use item."@
                        },
                    ),
                ),
            )
        } else {
            Some((s, Some("Select a character first to view their inventory!"@)))
        },
        Action::ToggleHelp => Some(
            (
                GameState { ui_state: toggled(s.ui_state, UIState::Help), ..s },
                Some(
                    if s.ui_state == UIState::Help {
                        "Help closed."@
                    } else {
                        "Help overlay opened. Press [?] or [Esc] to close."@
                    },
                ),
            ),
        ),
        Action::ToggleBestiary => Some(
            (
                GameState { ui_state: toggled(s.ui_state, UIState::Bestiary), ..s },
                Some(
                    if s.ui_state == UIState::Bestiary {
                        "Bestiary closed."@
                    } else {
                        "Bestiary opened. Press [J] or [Esc] to close."@
                    },
                ),
            ),
        ),
        Action::ToggleMinimap => Some(
            (
                GameState { show_minimap: !s.show_minimap, ..s },
                Some(
                    if !s.show_minimap {
                        "Minimap enabled."@
                    } else {
                        "Minimap disabled."@
                    },
                ),
            ),
        ),
        Action::TogglePerf => Some((GameState { show_perf: !s.show_perf, ..s }, None)),
        Action::AutoBattle => Some(
            (
                GameState { auto_battle: !s.auto_battle, ..s },
                Some(
                    if !s.auto_battle {
                        "Auto-Battle ENABLED."@
                    } else {
                        "Auto-Battle DISABLED."@
                    },
                ),
            ),
        ),
        Action::ClearCursor => Some((GameState { selected_entity: None, ..s }, Some("Selection cleared."@))),
        Action::Quit => Some((GameState { outcome: Outcome::Quit, ..s }, None)),
        Action::Cancel => if s.targeting != TargetingMode::Inactive {
            Some((GameState { targeting: TargetingMode::Inactive, ..s }, Some("Skill targeting canceled."@)))
        } else if s.selected_entity is Some {
            Some((GameState { selected_entity: None, ..s }, Some("Selection cleared."@)))
        } else {
            Some((s, None))
        },
        Action::Skill1 | Action::Skill2 => if s.selected_entity is Some {
            if a is Skill1 {
                Some(
                    (
                        GameState { targeting: TargetingMode::Skill1, ..s },
                        Some("Skill 1 targeted! Use cursor to select target and press Confirm."@),
                    ),
                )
            } else {
                Some(
                    (
                        GameState { targeting: TargetingMode::Skill2, ..s },
                        Some("Skill 2 targeted! Use cursor to select target and press Confirm."@),
                    ),
                )
            }
        } else {
            Some((s, Some("Select a character first to cast a skill!"@)))
        },
        Action::Inspect(p) => if 0 <= p.x < w && 0 <= p.y < h {
            Some((GameState { cursor: p, ..s }, None))
        } else {
            Some((s, None))
        },
        _ => None,
    }
}

/// Carries out an action that only changes the game's view state (cursor
/// moves, inspecting a cell, overlays, display switches, skill targeting,
/// cancelling, clearing the selection, quitting) on a
/// map of `width` by `height` cells, and returns its log line. Any other
/// action leaves the state alone and returns `None`.
pub fn apply_view_step(state: &mut GameState, action: Action, width: u16, height: u16) -> (r: Option<
    Option<&'static str>,
>)
    requires
        1 <= width <= i16::MAX,
        1 <= height <= i16::MAX,
        i16::MIN < old(state).cursor.x < i16::MAX,
        i16::MIN < old(state).cursor.y < i16::MAX,
    ensures
        match view_step(*old(state), action, width as int, height as int) {
            Some((s, line)) => *final(state) == s && (r matches Some(l) && match line {
                Some(t) => l matches Some(x) && x@ == t,
                None => l is None,
            }),
            None => *final(state) == *old(state) && r is None,
        },
{
    match action {
        Action::MoveNorth => {
            state.cursor = move_cursor(state.cursor, Direction::North, width, height);
            Some(None)
        },
        Action::MoveSouth => {
            state.cursor = move_cursor(state.cursor, Direction::South, width, height);
            Some(None)
        },
        Action::MoveEast => {
            state.cursor = move_cursor(state.cursor, Direction::East, width, height);
            Some(None)
        },
        Action::MoveWest => {
            state.cursor = move_cursor(state.cursor, Direction::West, width, height);
            Some(None)
        },
        Action::ToggleInventory => {
            if state.selected_entity.is_some() {
                if state.ui_state == UIState::Inventory {
                    state.ui_state = UIState::Normal;
                    Some(Some("Inventory closed."))
                } else {
                    state.ui_state = UIState::Inventory;
                    Some(Some("Inventory opened. Press [1-9] to use item."))
                }
            } else {
                Some(Some("Select a character first to view their inventory!"))
            }
        },
        Action::ToggleHelp => {
            if state.ui_state == UIState::Help {
                state.ui_state = UIState::Normal;
                Some(Some("Help closed."))
            } else {
                state.ui_state = UIState::Help;
                Some(Some("Help overlay opened. Press [?] or [Esc] to close."))
            }
        },
        Action::ToggleBestiary => {
            if state.ui_state == UIState::Bestiary {
                state.ui_state = UIState::Normal;
                Some(Some("Bestiary closed."))
            } else {
                state.ui_state = UIState::Bestiary;
                Some(Some("Bestiary opened. Press [J] or [Esc] to close."))
            }
        },
        Action::ToggleMinimap => {
            state.show_minimap = !state.show_minimap;
            if state.show_minimap {
                Some(Some("Minimap enabled."))
            } else {
                Some(Some("Minimap disabled."))
            }
        },
        Action::TogglePerf => {
            state.show_perf = !state.show_perf;
            Some(None)
        },
        Action::AutoBattle => {
            state.auto_battle = !state.auto_battle;
            if state.auto_battle {
                Some(Some("Auto-Battle ENABLED."))
            } else {
                Some(Some("Auto-Battle DISABLED."))
            }
        },
        Action::ClearCursor => {
            state.selected_entity = None;
            Some(Some("Selection cleared."))
        },
        Action::Quit => {
            state.outcome = Outcome::Quit;
            Some(None)
        },
        Action::Cancel => {
            if state.targeting != TargetingMode::Inactive {
                state.targeting = TargetingMode::Inactive;
                Some(Some("Skill targeting canceled."))
            } else if state.selected_entity.is_some() {
                state.selected_entity = None;
                Some(Some("Selection cleared."))
            } else {
                Some(None)
            }
        },
        Action::Skill1 => {
            if state.selected_entity.is_some() {
                state.targeting = TargetingMode::Skill1;
                Some(Some("Skill 1 targeted! Use cursor to select target and press Confirm."))
            } else {
                Some(Some("Select a character first to cast a skill!"))
            }
        },
        Action::Skill2 => {
            if state.selected_entity.is_some() {
                state.targeting = TargetingMode::Skill2;
                Some(Some("Skill 2 targeted! Use cursor to select target and press Confirm."))
            } else {
                Some(Some("Select a character first to cast a skill!"))
            }
        },
        Action::Inspect(p) => {
            if 0 <= p.x && (p.x as i32) < (width as i32) && 0 <= p.y && (p.y as i32) < (height as i32) {
                state.cursor = p;
            }
            Some(None)
        },
        _ => None,
    }
}

} // verus!
