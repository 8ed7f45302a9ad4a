use vstd::prelude::*;

use crate::battle::{BattleState, StepOutcome, find_unit, selected_index, unit_index};
use crate::battle_preview::UnitRecord;
use crate::components::{CharacterClass, GameState, TargetingMode, class_name, get_class_name};
use crate::geometry::{Entity, entity_lt};
use crate::swap::hero;
use crate::text::{decimal, push_int, push_str};

verus! {

// ------------------------------------------------------------------
// Picking a hero by its place in handle order
// ------------------------------------------------------------------

/// Number of heroes among the first `k` units whose handle comes before `e`.
pub open spec fn heroes_below(units: Seq<UnitRecord>, e: Entity, k: int) -> int
    decreases k,
{
    if k <= 0 {
        0
    } else {
        heroes_below(units, e, k - 1) + if hero(units[k - 1]) && entity_lt(units[k - 1].entity, e) {
            1int
        } else {
            0int
        }
    }
}

/// Index of the first of the first `k` units that is a hero with exactly
/// `idx` heroes before it in handle order: the hero at place `idx` when the
/// heroes are sorted by handle.
pub open spec fn hero_ranked(units: Seq<UnitRecord>, idx: int, k: int) -> Option<int>
    decreases k,
{
    if k <= 0 {
        None
    } else {
        match hero_ranked(units, idx, k - 1) {
            Some(j) => Some(j),
            None => if hero(units[k - 1]) && heroes_below(units, units[k - 1].entity, units.len() as int)
                == idx {
                Some(k - 1)
            } else {
                None
            },
        }
    }
}

/// A position the cursor can rest on: strictly inside the range of `i16`.
pub open spec fn cursor_range(u: UnitRecord) -> bool {
    u.position matches Some(p) && i16::MIN < p.x < i16::MAX && i16::MIN < p.y < i16::MAX
}

fn count_heroes_below(units: &Vec<UnitRecord>, e: Entity) -> (r: usize)
    ensures
        r == heroes_below(units@, e, units@.len() as int),
{
    let n = units.len();
    let mut count: usize = 0;
    let mut k: usize = 0;
    while k < n
        invariant
            k <= n,
            n == units@.len(),
            count <= k,
            count == heroes_below(units@, e, k as int),
        decreases n - k,
    {
        let u = units[k];
        if u.team == Some(crate::components::Team::Player) && u.entity.precedes(&e) {
            count = count + 1;
        }
        k = k + 1;
    }
    count
}

fn find_ranked(units: &Vec<UnitRecord>, idx: usize) -> (r: Option<usize>)
    ensures
        match r {
            Some(j) => hero_ranked(units@, idx as int, units@.len() as int) == Some(j as int) && j
                < units@.len(),
            None => hero_ranked(units@, idx as int, units@.len() as int) is None,
        },
{
    let n = units.len();
    let mut found: Option<usize> = None;
    let mut k: usize = 0;
    while k < n
        invariant
            k <= n,
            n == units@.len(),
            match found {
                Some(j) => hero_ranked(units@, idx as int, k as int) == Some(j as int) && j < k,
                None => hero_ranked(units@, idx as int, k as int) is None,
            },
        decreases n - k,
    {
        if found.is_none() {
            let u = units[k];
            if u.team == Some(crate::components::Team::Player) {
                if count_heroes_below(units, u.entity) == idx {
                    found = Some(k);
                }
            }
        }
        k = k + 1;
    }
    found
}

/// What selecting the hero at place `idx` in handle order does to `s`.
pub open spec fn select_done(s: BattleState, t: BattleState, idx: int, o: StepOutcome) -> bool {
    match hero_ranked(s.units@, idx, s.units@.len() as int) {
        Some(j) => {
            let u = s.units@[j];
            &&& t == (BattleState {
                game: GameState { selected_entity: Some(u.entity), cursor: u.position->0, ..s.game },
                ..s
            })
            &&& o matches StepOutcome::Done { messages } && messages@.len() == 1 && messages@[0]@
                == "Selected character: "@ + class_name(u.class->0) + "."@
        },
        None => t == s && (o matches StepOutcome::Done { messages } && messages@.len() == 1
            && messages@[0]@ == "Invalid character index."@),
    }
}

/// Selects the hero at place `idx` when the heroes are sorted by handle,
/// and puts the cursor on it; with fewer heroes the index is refused.
pub fn select_hero(state: &mut BattleState, idx: usize) -> (o: StepOutcome)
    requires
        old(state).wf(),
        hero_ranked(old(state).units@, idx as int, old(state).units@.len() as int) matches Some(j)
            ==> cursor_range(old(state).units@[j]) && old(state).units@[j].class is Some,
    ensures
        final(state).wf(),
        select_done(*old(state), *final(state), idx as int, o),
{
    match find_ranked(&state.units, idx) {
        Some(j) => {
            let u = state.units[j];
            state.game.selected_entity = Some(u.entity);
            state.game.cursor = u.position.unwrap();
            let mut line = String::new();
            push_str(&mut line, "Selected character: ");
            push_str(&mut line, get_class_name(u.class.unwrap()));
            push_str(&mut line, ".");
            let mut messages: Vec<String> = Vec::new();
            messages.push(line);
            StepOutcome::Done { messages }
        },
        None => {
            let mut messages: Vec<String> = Vec::new();
            messages.push(String::from_str("Invalid character index."));
            StepOutcome::Done { messages }
        },
    }
}

// ------------------------------------------------------------------
// The third skill key
// ------------------------------------------------------------------

/// What the third skill key does to `s`: a warrior short of full concert
/// energy aims Taunt Shield; any hero with full energy calls a swap; others
/// are told the energy is not full.
pub open spec fn skill3_done(s: BattleState, t: BattleState, o: StepOutcome) -> bool {
    match s.game.selected_entity {
        None => t == s && (o matches StepOutcome::Done { messages } && messages@.len() == 1
            && messages@[0]@ == "Select a character first!"@),
        Some(_) => {
            let i = selected_index(s)->0;
            let energy = s.game.concert_energy;
            if s.units@[i].class == Some(CharacterClass::Warrior) && energy < 100 {
                &&& t == (BattleState { game: GameState { targeting: TargetingMode::Skill3, ..s.game }, ..s })
                &&& o matches StepOutcome::Done { messages } && messages@.len() == 1 && messages@[0]@
                    == "Taunt Shield targeted! Use cursor to select target (self) and press Confirm."@
            } else if energy >= 100 {
                t == s && (o matches StepOutcome::SwapCalled { active } && active == i)
            } else {
                t == s && (o matches StepOutcome::Done { messages } && messages@.len() == 1
                    && messages@[0]@ == "Concert Energy not full ("@ + decimal(energy as int) + "/100)!"@)
            }
        },
    }
}

/// The third skill key, outside the inventory.
pub fn skill3_step(state: &mut BattleState) -> (o: StepOutcome)
    requires
        old(state).wf(),
        old(state).game.selected_entity is Some ==> (selected_index(*old(state)) matches Some(i)
            && old(state).units@[i].class is Some),
    ensures
        final(state).wf(),
        skill3_done(*old(state), *final(state), o),
{
    let e = match state.game.selected_entity {
        None => {
            let mut messages: Vec<String> = Vec::new();
            messages.push(String::from_str("Select a character first!"));
            return StepOutcome::Done { messages };
        },
        Some(e) => e,
    };
    let i = find_unit(&state.units, e).unwrap();
    assert(selected_index(*old(state)) == unit_index(state.units@, e, state.units@.len() as int));
    let energy = state.game.concert_energy;
    let warrior = match state.units[i].class {
        Some(CharacterClass::Warrior) => true,
        _ => false,
    };
    if warrior && energy < 100 {
        state.game.targeting = TargetingMode::Skill3;
        let mut messages: Vec<String> = Vec::new();
        messages.push(
            String::from_str("Taunt Shield targeted! Use cursor to select target (self) and press Confirm."),
        );
        StepOutcome::Done { messages }
    } else if energy >= 100 {
        StepOutcome::SwapCalled { active: i }
    } else {
        let mut line = String::new();
        push_str(&mut line, "Concert Energy not full (");
        push_int(&mut line, energy as i64);
        push_str(&mut line, "/100)!");
        let mut messages: Vec<String> = Vec::new();
        messages.push(line);
        StepOutcome::Done { messages }
    }
}

// ------------------------------------------------------------------
// Cycling through the heroes that can still act
// ------------------------------------------------------------------

/// A hero that can still act: on the map, with stats and action points left.
pub open spec fn ready(u: UnitRecord) -> bool {
    &&& hero(u)
    &&& u.position is Some
    &&& u.stats is Some
    &&& u.stats->0.ap > 0
}

/// `units[j]` is the ready hero with the lowest handle.
pub open spec fn first_ready(units: Seq<UnitRecord>, j: int) -> bool {
    &&& 0 <= j < units.len()
    &&& ready(units[j])
    &&& forall|i: int| 0 <= i < units.len() && ready(#[trigger] units[i]) ==> !entity_lt(units[i].entity, units[j].entity)
}

/// `units[j]` is the ready hero with the highest handle.
pub open spec fn last_ready(units: Seq<UnitRecord>, j: int) -> bool {
    &&& 0 <= j < units.len()
    &&& ready(units[j])
    &&& forall|i: int| 0 <= i < units.len() && ready(#[trigger] units[i]) ==> !entity_lt(units[j].entity, units[i].entity)
}

/// `units[j]` is the ready hero whose handle comes next after `e`.
pub open spec fn ready_after(units: Seq<UnitRecord>, e: Entity, j: int) -> bool {
    &&& 0 <= j < units.len()
    &&& ready(units[j])
    &&& entity_lt(e, units[j].entity)
    &&& forall|i: int|
        0 <= i < units.len() && ready(#[trigger] units[i]) && entity_lt(e, units[i].entity) ==> !entity_lt(
            units[i].entity,
            units[j].entity,
        )
}

/// `units[j]` is the ready hero whose handle comes last before `e`.
pub open spec fn ready_before(units: Seq<UnitRecord>, e: Entity, j: int) -> bool {
    &&& 0 <= j < units.len()
    &&& ready(units[j])
    &&& entity_lt(units[j].entity, e)
    &&& forall|i: int|
        0 <= i < units.len() && ready(#[trigger] units[i]) && entity_lt(units[i].entity, e) ==> !entity_lt(
            units[j].entity,
            units[i].entity,
        )
}

/// Some ready hero has handle `e`.
pub open spec fn is_ready_handle(units: Seq<UnitRecord>, e: Entity) -> bool {
    exists|i: int| 0 <= i < units.len() && ready(#[trigger] units[i]) && units[i].entity == e
}

/// `units[j]` is the hero that cycling forward (or back) from the selection
/// `sel` picks among the ready heroes in handle order, wrapping round at the
/// ends; from no ready hero it picks the first.
#[verifier::opaque]
pub open spec fn cycle_pick(units: Seq<UnitRecord>, sel: Option<Entity>, forward: bool, j: int) -> bool {
    match sel {
        Some(e) => if is_ready_handle(units, e) {
            if forward {
                ready_after(units, e, j) || ((forall|i: int|
                    0 <= i < units.len() && ready(#[trigger] units[i]) ==> !entity_lt(e, units[i].entity))
                    && first_ready(units, j))
            } else {
                ready_before(units, e, j) || ((forall|i: int|
                    0 <= i < units.len() && ready(#[trigger] units[i]) ==> !entity_lt(units[i].entity, e))
                    && last_ready(units, j))
            }
        } else {
            first_ready(units, j)
        },
        None => first_ready(units, j),
    }
}

/// The log line when `u` is picked: its class and action points, or none
/// for a unit without a class.
pub open spec fn picked_lines(u: UnitRecord, messages: Seq<String>) -> bool {
    match u.class {
        Some(c) => messages.len() == 1 && messages[0]@ == "Selected "@ + class_name(c) + " (AP: "@ + decimal(
            u.stats->0.ap as int,
        ) + "/"@ + decimal(u.stats->0.max_ap as int) + ")"@,
        None => messages.len() == 0,
    }
}

/// What cycling through the ready heroes does to `s`: with none, nothing;
/// otherwise the picked hero is selected and the cursor put on it.
pub open spec fn cycle_done(s: BattleState, t: BattleState, forward: bool, o: StepOutcome) -> bool {
    let units = s.units@;
    if forall|i: int| 0 <= i < units.len() ==> !ready(#[trigger] units[i]) {
        t == s && (o matches StepOutcome::Done { messages } && messages@.len() == 0)
    } else {
        exists|j: int|
            #[trigger] cycle_pick(units, s.game.selected_entity, forward, j) && t == (BattleState {
                game: GameState {
                    selected_entity: Some(units[j].entity),
                    cursor: units[j].position->0,
                    ..s.game
                },
                ..s
            }) && (o matches StepOutcome::Done { messages } && picked_lines(units[j], messages@))
    }
}

/// What one pass over the first `k` units finds about the ready heroes
/// around the handle `e`.
struct ReadyScan {
    first: Option<usize>,
    last: Option<usize>,
    after: Option<usize>,
    before: Option<usize>,
    current: bool,
}

#[verifier::opaque]
spec fn scan_holds(units: Seq<UnitRecord>, e: Entity, r: ReadyScan, k: int) -> bool {
    &&& r.current == exists|i: int| 0 <= i < k && ready(#[trigger] units[i]) && units[i].entity == e
    &&& match r.first {
        None => forall|i: int| 0 <= i < k ==> !ready(#[trigger] units[i]),
        Some(b) => b < k && ready(units[b as int]) && forall|i: int|
            0 <= i < k && ready(#[trigger] units[i]) ==> !entity_lt(units[i].entity, units[b as int].entity),
    }
    &&& match r.last {
        None => forall|i: int| 0 <= i < k ==> !ready(#[trigger] units[i]),
        Some(b) => b < k && ready(units[b as int]) && forall|i: int|
            0 <= i < k && ready(#[trigger] units[i]) ==> !entity_lt(units[b as int].entity, units[i].entity),
    }
    &&& match r.after {
        None => forall|i: int| 0 <= i < k && ready(#[trigger] units[i]) ==> !entity_lt(e, units[i].entity),
        Some(b) => b < k && ready(units[b as int]) && entity_lt(e, units[b as int].entity) && forall|i: int|
            0 <= i < k && ready(#[trigger] units[i]) && entity_lt(e, units[i].entity) ==> !entity_lt(
                units[i].entity,
                units[b as int].entity,
            ),
    }
    &&& match r.before {
        None => forall|i: int| 0 <= i < k && ready(#[trigger] units[i]) ==> !entity_lt(units[i].entity, e),
        Some(b) => b < k && ready(units[b as int]) && entity_lt(units[b as int].entity, e) && forall|i: int|
            0 <= i < k && ready(#[trigger] units[i]) && entity_lt(units[i].entity, e) ==> !entity_lt(
                units[b as int].entity,
                units[i].entity,
            ),
    }
}

fn is_ready(u: &UnitRecord) -> (r: bool)
    ensures
        r == ready(*u),
{
    u.team == Some(crate::components::Team::Player) && u.position.is_some() && match u.stats {
        Some(st) => st.ap > 0,
        None => false,
    }
}

/// `b` if `u` does not come before it in the order `lower`.
fn keep_lowest(units: &Vec<UnitRecord>, b: Option<usize>, k: usize) -> (r: Option<usize>)
    requires
        k < units@.len(),
        b matches Some(x) ==> x < units@.len(),
    ensures
        r == match b {
            None => Some(k),
            Some(x) => if entity_lt(units@[k as int].entity, units@[x as int].entity) {
                Some(k)
            } else {
                Some(x)
            },
        },
{
    match b {
        None => Some(k),
        Some(x) => if units[k].entity.precedes(&units[x].entity) {
            Some(k)
        } else {
            Some(x)
        },
    }
}

fn keep_highest(units: &Vec<UnitRecord>, b: Option<usize>, k: usize) -> (r: Option<usize>)
    requires
        k < units@.len(),
        b matches Some(x) ==> x < units@.len(),
    ensures
        r == match b {
            None => Some(k),
            Some(x) => if entity_lt(units@[x as int].entity, units@[k as int].entity) {
                Some(k)
            } else {
                Some(x)
            },
        },
{
    match b {
        None => Some(k),
        Some(x) => if units[x].entity.precedes(&units[k].entity) {
            Some(k)
        } else {
            Some(x)
        },
    }
}

#[verifier::rlimit(40)]
fn scan_ready(units: &Vec<UnitRecord>, e: Entity) -> (r: ReadyScan)
    ensures
        scan_holds(units@, e, r, units@.len() as int),
        r.first is Some <==> r.last is Some,
        r.first is None ==> forall|i: int| 0 <= i < units@.len() ==> !ready(#[trigger] units@[i]),
        r.first matches Some(b) ==> b < units@.len(),
        r.last matches Some(b) ==> b < units@.len(),
        r.after matches Some(b) ==> b < units@.len(),
        r.before matches Some(b) ==> b < units@.len(),
{
    reveal(scan_holds);
    let n = units.len();
    let mut r = ReadyScan { first: None, last: None, after: None, before: None, current: false };
    let mut k: usize = 0;
    while k < n
        invariant
            k <= n,
            n == units@.len(),
            scan_holds(units@, e, r, k as int),
        decreases n - k,
    {
        reveal(scan_holds);
        let ghost r0 = r;
        if is_ready(&units[k]) {
            let ek = units[k].entity;
            r = ReadyScan {
                first: keep_lowest(units, r.first, k),
                last: keep_highest(units, r.last, k),
                after: if e.precedes(&ek) {
                    keep_lowest(units, r.after, k)
                } else {
                    r.after
                },
                before: if ek.precedes(&e) {
                    keep_highest(units, r.before, k)
                } else {
                    r.before
                },
                current: r.current || ek == e,
            };
            assert(scan_holds(units@, e, r, k + 1)) by {
                let us = units@;
                assert(r.current == exists|i: int| 0 <= i < k + 1 && ready(#[trigger] us[i]) && us[i].entity == e)
                    by {
                    if r.current && !r0.current {
                        assert(ready(us[k as int]) && us[k as int].entity == e);
                    }
                }
            }
        }
        k = k + 1;
    }
    r
}

spec fn scan_pick(r: ReadyScan, cycling: bool, forward: bool) -> usize {
    if cycling {
        if forward {
            match r.after {
                Some(b) => b,
                None => r.first->0,
            }
        } else {
            match r.before {
                Some(b) => b,
                None => r.last->0,
            }
        }
    } else {
        r.first->0
    }
}

proof fn lemma_scan_pick(units: Seq<UnitRecord>, sel: Option<Entity>, e: Entity, r: ReadyScan, forward: bool)
    requires
        scan_holds(units, e, r, units.len() as int),
        r.first is Some,
        r.last is Some,
        sel matches Some(x) ==> x == e,
    ensures
        cycle_pick(units, sel, forward, scan_pick(r, sel is Some && r.current, forward) as int),
        ready(units[r.first->0 as int]),
        scan_pick(r, sel is Some && r.current, forward) < units.len(),
        ready(units[scan_pick(r, sel is Some && r.current, forward) as int]),
{
    reveal(scan_holds);
    reveal(cycle_pick);
    if sel is Some && r.current {
        assert(is_ready_handle(units, e));
    } else if sel is Some {
        assert(!is_ready_handle(units, e));
    }
}

/// Selects the next (or, going back, the previous) hero that can still act,
/// in handle order, and puts the cursor on it.
#[verifier::rlimit(60)]
pub fn cycle_hero(state: &mut BattleState, forward: bool) -> (o: StepOutcome)
    requires
        old(state).wf(),
        forall|j: int|
            0 <= j < old(state).units@.len() && ready(#[trigger] old(state).units@[j]) ==> cursor_range(
                old(state).units@[j],
            ),
    ensures
        final(state).wf(),
        cycle_done(*old(state), *final(state), forward, o),
{
    let sel = state.game.selected_entity;
    let e = match sel {
        Some(e) => e,
        None => Entity { index: 0, generation: 0 },
    };
    let ghost units = state.units@;
    let ghost s0 = *state;
    let scan = scan_ready(&state.units, e);
    let lowest = match scan.first {
        None => {
            let messages: Vec<String> = Vec::new();
            return StepOutcome::Done { messages };
        },
        Some(b) => b,
    };
    let highest = scan.last.unwrap();
    let cycling = sel.is_some() && scan.current;
    let pick = if cycling {
        if forward {
            match scan.after {
                Some(b) => b,
                None => lowest,
            }
        } else {
            match scan.before {
                Some(b) => b,
                None => highest,
            }
        }
    } else {
        lowest
    };
    proof {
        lemma_scan_pick(units, sel, e, scan, forward);
        assert(pick == scan_pick(scan, cycling, forward));
    }
    let u = state.units[pick];
    state.game.selected_entity = Some(u.entity);
    state.game.cursor = u.position.unwrap();
    let mut messages: Vec<String> = Vec::new();
    match u.class {
        Some(c) => {
            let st = u.stats.unwrap();
            let mut line = String::new();
            push_str(&mut line, "Selected ");
            push_str(&mut line, get_class_name(c));
            push_str(&mut line, " (AP: ");
            push_int(&mut line, st.ap as i64);
            push_str(&mut line, "/");
            push_int(&mut line, st.max_ap as i64);
            push_str(&mut line, ")");
            messages.push(line);
        },
        None => {},
    }
    let o = StepOutcome::Done { messages };
    assert(picked_lines(units[pick as int], messages@));
    assert(*state == (BattleState {
        game: GameState { selected_entity: Some(units[pick as int].entity), cursor: units[pick as int].position->0, ..s0.game },
        ..s0
    }));
    assert(!(forall|i: int| 0 <= i < units.len() ==> !ready(#[trigger] units[i])));
    o
}

/// Distinct handles compare one way or the other.
proof fn lemma_entity_total(a: Entity, b: Entity)
    ensures
        a == b || entity_lt(a, b) || entity_lt(b, a),
        !(entity_lt(a, b) && entity_lt(b, a)),
{
}

proof fn lemma_pick_back(units: Seq<UnitRecord>, e: Entity, forward: bool, j: int, k: int)
    requires
        is_ready_handle(units, e),
        cycle_pick(units, Some(e), forward, j),
        cycle_pick(units, Some(units[j].entity), !forward, k),
    ensures
        units[k].entity == e,
{
    reveal(cycle_pick);
    let i0 = choose|i: int| 0 <= i < units.len() && ready(#[trigger] units[i]) && units[i].entity == e;
    let ej = units[j].entity;
    let ek = units[k].entity;
    assert(0 <= j < units.len() && ready(units[j]));
    assert(is_ready_handle(units, ej)) by {
        assert(ready(units[j]));
    }
    assert(0 <= k < units.len() && ready(units[k]));
    lemma_entity_total(e, ek);
    lemma_entity_total(e, ej);
    lemma_entity_total(ej, ek);
    assert(ready(units[i0]));
    if forward {
        if ready_after(units, e, j) {
            assert(ready_before(units, ej, k));
        } else {
            assert(!ready_before(units, ej, k));
        }
    } else {
        if ready_before(units, e, j) {
            assert(ready_after(units, ej, k));
        } else {
            assert(!ready_after(units, ej, k));
        }
    }
}

/// Cycling to the next hero that can act and then back (or back and then
/// forward) returns the selection to where it was, when it was on such a
/// hero.
pub proof fn lemma_cycle_there_and_back(
    s: BattleState,
    t: BattleState,
    u: BattleState,
    forward: bool,
    o1: StepOutcome,
    o2: StepOutcome,
)
    requires
        s.game.selected_entity matches Some(e) && is_ready_handle(s.units@, e),
        cycle_done(s, t, forward, o1),
        cycle_done(t, u, !forward, o2),
    ensures
        u.game.selected_entity == s.game.selected_entity,
        u.units@ == s.units@,
{
    let e = s.game.selected_entity->0;
    let units = s.units@;
    let i0 = choose|i: int| 0 <= i < units.len() && ready(#[trigger] units[i]) && units[i].entity == e;
    assert(ready(units[i0]));
    let j = choose|j: int|
        #[trigger] cycle_pick(units, s.game.selected_entity, forward, j) && t == (BattleState {
            game: GameState { selected_entity: Some(units[j].entity), cursor: units[j].position->0, ..s.game },
            ..s
        }) && (o1 matches StepOutcome::Done { messages } && picked_lines(units[j], messages@));
    assert(t.units@ == units);
    assert(0 <= j < units.len() && ready(units[j])) by {
        reveal(cycle_pick);
    }
    let back = !forward;
    let k = choose|k: int|
        #[trigger] cycle_pick(units, t.game.selected_entity, back, k) && u == (BattleState {
            game: GameState { selected_entity: Some(units[k].entity), cursor: units[k].position->0, ..t.game },
            ..t
        }) && (o2 matches StepOutcome::Done { messages } && picked_lines(units[k], messages@));
    lemma_pick_back(units, e, forward, j, k);
}

} // verus!
