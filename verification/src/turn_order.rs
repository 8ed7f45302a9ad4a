use vstd::prelude::*;

use crate::battle_preview::{BattlePreview, UnitRecord};
use crate::components::{Team, TurnOrderDisplay, TurnOrderEntry, class_name, get_class_name};
use crate::geometry::{Entity, Position, entity_lt};

verus! {

/// A unit takes part in the turn order when it has stats, a team and a class,
/// and is alive.
pub open spec fn takes_turn(u: UnitRecord) -> bool {
    u.stats is Some && u.team is Some && u.class is Some && u.stats->0.hp > 0
}

/// `a` acts before `b`: the higher speed first, then the lower handle.
pub open spec fn acts_before(a: UnitRecord, b: UnitRecord) -> bool {
    a.stats->0.spd > b.stats->0.spd || (a.stats->0.spd == b.stats->0.spd && entity_lt(
        a.entity,
        b.entity,
    ))
}

/// `x` placed into `s` just before the first unit it acts before, that is after
/// every unit it ties with.
pub open spec fn insert_in_turn(s: Seq<UnitRecord>, x: UnitRecord) -> Seq<UnitRecord>
    decreases s.len(),
{
    if s.len() == 0 {
        seq![x]
    } else if acts_before(x, s[0]) {
        seq![x] + s
    } else {
        seq![s[0]] + insert_in_turn(s.drop_first(), x)
    }
}

/// The units among the first `k` records that take part, in turn order; units
/// that tie keep their order of appearance.
pub open spec fn turn_units(units: Seq<UnitRecord>, k: int) -> Seq<UnitRecord>
    decreases k,
{
    if k <= 0 {
        Seq::empty()
    } else {
        let prev = turn_units(units, k - 1);
        if takes_turn(units[k - 1]) {
            insert_in_turn(prev, units[k - 1])
        } else {
            prev
        }
    }
}

/// No unit of `s` acts before a unit that comes earlier.
pub open spec fn in_turn_order(s: Seq<UnitRecord>) -> bool {
    forall|i: int, j: int| 0 <= i < j < s.len() ==> !acts_before(#[trigger] s[j], #[trigger] s[i])
}

/// The entry shows unit `u` of the turn order.
pub open spec fn entry_shows(e: TurnOrderEntry, u: UnitRecord, current: Option<Entity>) -> bool {
    &&& e.entity == u.entity
    &&& e.name@ == class_name(u.class->0)
    &&& e.team == u.team->0
    &&& e.spd == u.stats->0.spd
    &&& e.is_current == (current == Some(u.entity))
    &&& e.hp == u.stats->0.hp
    &&& e.max_hp == u.stats->0.max_hp
}

/// Index of the first unit of `s`, from `i` on, that is the current one; 0 when
/// there is none.
pub open spec fn current_slot(s: Seq<UnitRecord>, current: Option<Entity>, i: int) -> int
    decreases s.len() - i,
{
    if i < 0 || i >= s.len() {
        0
    } else if current == Some(s[i].entity) {
        i
    } else {
        current_slot(s, current, i + 1)
    }
}

/// Inserting at the first unit that `x` acts before is `Seq::insert` there.
proof fn lemma_insert_in_turn(s: Seq<UnitRecord>, x: UnitRecord, p: int)
    requires
        0 <= p <= s.len(),
        forall|j: int| 0 <= j < p ==> !acts_before(x, #[trigger] s[j]),
        p < s.len() ==> acts_before(x, s[p]),
    ensures
        insert_in_turn(s, x) == s.insert(p, x),
    decreases p,
{
    if p == 0 {
        if s.len() == 0 {
            assert(s.insert(0, x) =~= seq![x]);
        } else {
            assert(s.insert(0, x) =~= seq![x] + s);
        }
    } else {
        let t = s.drop_first();
        assert forall|j: int| 0 <= j < p - 1 implies !acts_before(x, #[trigger] t[j]) by {
            assert(t[j] == s[j + 1]);
        }
        lemma_insert_in_turn(t, x, p - 1);
        assert(s.insert(p, x) =~= seq![s[0]] + t.insert(p - 1, x));
    }
}

/// Inserting keeps a sequence in turn order, and adds exactly `x`.
proof fn lemma_insert_keeps_order(s: Seq<UnitRecord>, x: UnitRecord)
    requires
        in_turn_order(s),
    ensures
        in_turn_order(insert_in_turn(s, x)),
        insert_in_turn(s, x).to_multiset() == s.to_multiset().insert(x),
    decreases s.len(),
{
    broadcast use vstd::seq_lib::group_to_multiset_ensures, vstd::multiset::group_multiset_axioms;
    let r = insert_in_turn(s, x);
    if s.len() == 0 {
        assert(r =~= seq![x]);
        assert(seq![x] =~= Seq::<UnitRecord>::empty().push(x));
    } else if acts_before(x, s[0]) {
        assert forall|i: int, j: int| 0 <= i < j < r.len() implies !acts_before(
            #[trigger] r[j],
            #[trigger] r[i],
        ) by {
            if i == 0 {
                assert(r[j] == s[j - 1]);
                if j - 1 > 0 {
                    assert(!acts_before(s[j - 1], s[0]));
                }
            } else {
                assert(r[i] == s[i - 1] && r[j] == s[j - 1]);
            }
        }
        assert(r =~= seq![x] + s);
        vstd::seq_lib::lemma_multiset_commutative(seq![x], s);
        assert(seq![x] =~= Seq::<UnitRecord>::empty().push(x));
    } else {
        let t = s.drop_first();
        assert(in_turn_order(t)) by {
            assert forall|i: int, j: int| 0 <= i < j < t.len() implies !acts_before(
                #[trigger] t[j],
                #[trigger] t[i],
            ) by {
                assert(t[i] == s[i + 1] && t[j] == s[j + 1]);
            }
        }
        lemma_insert_keeps_order(t, x);
        let rt = insert_in_turn(t, x);
        assert(r =~= seq![s[0]] + rt);
        assert forall|i: int, j: int| 0 <= i < j < r.len() implies !acts_before(
            #[trigger] r[j],
            #[trigger] r[i],
        ) by {
            if i == 0 {
                assert(r[j] == rt[j - 1]);
                assert(rt.to_multiset().count(rt[j - 1]) > 0);
                assert(t.to_multiset().insert(x).count(rt[j - 1]) > 0);
                if rt[j - 1] != x {
                    assert(t.to_multiset().count(rt[j - 1]) > 0);
                    assert(t.contains(rt[j - 1]));
                    let m = choose|m: int| 0 <= m < t.len() && t[m] == rt[j - 1];
                    assert(s[m + 1] == t[m]);
                }
            } else {
                assert(r[i] == rt[i - 1] && r[j] == rt[j - 1]);
            }
        }
        vstd::seq_lib::lemma_multiset_commutative(seq![s[0]], rt);
        vstd::seq_lib::lemma_multiset_commutative(seq![s[0]], t);
        assert(s =~= seq![s[0]] + t);
    }
}

/// Every unit of the turn order takes part, and the order is kept.
proof fn lemma_turn_units(units: Seq<UnitRecord>, k: int)
    requires
        0 <= k <= units.len(),
    ensures
        in_turn_order(turn_units(units, k)),
        forall|i: int|
            0 <= i < turn_units(units, k).len() ==> takes_turn(#[trigger] turn_units(units, k)[i]),
    decreases k,
{
    broadcast use vstd::seq_lib::group_to_multiset_ensures, vstd::multiset::group_multiset_axioms;
    if k > 0 {
        lemma_turn_units(units, k - 1);
        let prev = turn_units(units, k - 1);
        if takes_turn(units[k - 1]) {
            lemma_insert_keeps_order(prev, units[k - 1]);
            let r = turn_units(units, k);
            assert forall|i: int| 0 <= i < r.len() implies takes_turn(#[trigger] r[i]) by {
                assert(r.to_multiset().count(r[i]) > 0);
                if r[i] != units[k - 1] {
                    assert(prev.to_multiset().count(r[i]) > 0);
                    assert(prev.contains(r[i]));
                }
            }
        }
    }
}

/// Turn order is by speed, fastest first, ties broken by the lower handle: no
/// unit of the computed order acts before one listed ahead of it.
pub proof fn lemma_turn_order_sorted(units: Seq<UnitRecord>)
    ensures
        in_turn_order(turn_units(units, units.len() as int)),
{
    lemma_turn_units(units, units.len() as int);
}

/// The units that take part, as a filter predicate.
pub open spec fn taking_turns() -> spec_fn(UnitRecord) -> bool {
    |u: UnitRecord| takes_turn(u)
}

proof fn lemma_turn_units_multiset(units: Seq<UnitRecord>, k: int)
    requires
        0 <= k <= units.len(),
    ensures
        turn_units(units, k).to_multiset() == units.take(k).filter(taking_turns()).to_multiset(),
    decreases k,
{
    broadcast use vstd::seq_lib::group_to_multiset_ensures, vstd::multiset::group_multiset_axioms;
    reveal(Seq::filter);
    if k == 0 {
        assert(units.take(0).filter(taking_turns()) =~= Seq::<UnitRecord>::empty());
        assert(turn_units(units, 0) =~= Seq::<UnitRecord>::empty());
    } else {
        lemma_turn_units_multiset(units, k - 1);
        lemma_turn_units(units, k - 1);
        let prev = turn_units(units, k - 1);
        let u = units[k - 1];
        let t = units.take(k);
        let before = units.take(k - 1).filter(taking_turns());
        assert(t.drop_last() =~= units.take(k - 1));
        assert(t.last() == u);
        assert(t.filter(taking_turns()) == (if takes_turn(u) {
            before.push(u)
        } else {
            before
        }));
        if takes_turn(u) {
            lemma_insert_keeps_order(prev, u);
            assert(before.push(u).to_multiset() =~= before.to_multiset().insert(u));
        }
    }
}

/// The turn order lists every living unit with stats, a team and a class,
/// each as often as it appears, and nothing else.
pub proof fn lemma_turn_order_lists_living(units: Seq<UnitRecord>)
    ensures
        turn_units(units, units.len() as int).to_multiset() == units.filter(
            taking_turns(),
        ).to_multiset(),
{
    lemma_turn_units_multiset(units, units.len() as int);
    assert(units.take(units.len() as int) =~= units);
}

fn acts_before_exec(a: &UnitRecord, b: &UnitRecord) -> (r: bool)
    requires
        a.stats is Some,
        b.stats is Some,
    ensures
        r == acts_before(*a, *b),
{
    let sa = a.stats.unwrap().spd;
    let sb = b.stats.unwrap().spd;
    sa > sb || (sa == sb && a.entity.precedes(&b.entity))
}

impl BattlePreview {
    /// The living units in the order they act: fastest first, ties broken by
    /// the lower handle, each shown with its name, team, speed and health; the
    /// current unit is marked and its index is `current_index` (0 when it is
    /// not listed).
    pub fn calculate_turn_order(units: &[UnitRecord], current_entity: Option<Entity>) -> (r:
        TurnOrderDisplay)
        ensures
            r.entries@.len() == turn_units(units@, units@.len() as int).len(),
            forall|i: int|
                0 <= i < r.entries@.len() ==> entry_shows(
                    #[trigger] r.entries@[i],
                    turn_units(units@, units@.len() as int)[i],
                    current_entity,
                ),
            r.current_index == current_slot(
                turn_units(units@, units@.len() as int),
                current_entity,
                0,
            ),
    {
        let n = units.len();
        let mut order: Vec<UnitRecord> = Vec::new();
        let mut k: usize = 0;
        while k < n
            invariant
                k <= n,
                n == units@.len(),
                order@ == turn_units(units@, k as int),
            decreases n - k,
        {
            proof {
                lemma_turn_units(units@, k as int);
            }
            let u = units[k];
            let alive = match u.stats {
                Some(s) => s.hp > 0 && u.team.is_some() && u.class.is_some(),
                None => false,
            };
            if alive {
                let m = order.len();
                let mut p: usize = 0;
                while p < m && !acts_before_exec(&u, &order[p])
                    invariant
                        p <= m,
                        m == order@.len(),
                        takes_turn(u),
                        forall|i: int| 0 <= i < order@.len() ==> takes_turn(#[trigger] order@[i]),
                        forall|j: int| 0 <= j < p ==> !acts_before(u, #[trigger] order@[j]),
                    decreases m - p,
                {
                    p = p + 1;
                }
                proof {
                    lemma_insert_in_turn(order@, u, p as int);
                }
                order.insert(p, u);
            }
            k = k + 1;
        }
        proof {
            lemma_turn_units(units@, n as int);
        }
        let ghost turn = order@;
        let mut entries: Vec<TurnOrderEntry> = Vec::new();
        let mut current_index: usize = 0;
        let mut found = false;
        let m = order.len();
        let mut i: usize = 0;
        while i < m
            invariant
                i <= m,
                m == turn.len(),
                order@ == turn,
                forall|j: int| 0 <= j < turn.len() ==> takes_turn(#[trigger] turn[j]),
                entries@.len() == i,
                forall|j: int|
                    0 <= j < i ==> entry_shows(#[trigger] entries@[j], turn[j], current_entity),
                found ==> current_index < i && current_slot(turn, current_entity, 0)
                    == current_index,
                !found ==> current_slot(turn, current_entity, 0) == current_slot(
                    turn,
                    current_entity,
                    i as int,
                ),
                !found ==> current_index == 0,
            decreases m - i,
        {
            let u = order[i];
            assert(takes_turn(turn[i as int]));
            let stats = u.stats.unwrap();
            let is_current = match current_entity {
                Some(c) => c == u.entity,
                None => false,
            };
            let entry = TurnOrderEntry {
                entity: u.entity,
                name: get_class_name(u.class.unwrap()).to_owned(),
                team: u.team.unwrap(),
                spd: stats.spd,
                is_current,
                hp: stats.hp,
                max_hp: stats.max_hp,
            };
            entries.push(entry);
            if is_current && !found {
                found = true;
                current_index = i;
            }
            i = i + 1;
        }
        TurnOrderDisplay { entries, current_index }
    }
}

// ------------------------------------------------------------------
// Cycling through the heroes that can act
// ------------------------------------------------------------------

/// A hero that can still act: on the map, on the player's team, with AP left.
pub open spec fn can_act(u: UnitRecord) -> bool {
    u.position is Some && u.team == Some(Team::Player) && u.stats is Some && u.stats->0.ap > 0
}

/// `x` placed into `s` before the first unit with a greater handle.
pub open spec fn insert_by_handle(s: Seq<UnitRecord>, x: UnitRecord) -> Seq<UnitRecord>
    decreases s.len(),
{
    if s.len() == 0 {
        seq![x]
    } else if entity_lt(x.entity, s[0].entity) {
        seq![x] + s
    } else {
        seq![s[0]] + insert_by_handle(s.drop_first(), x)
    }
}

/// The heroes among the first `k` records that can act, by handle.
pub open spec fn ready_heroes(units: Seq<UnitRecord>, k: int) -> Seq<UnitRecord>
    decreases k,
{
    if k <= 0 {
        Seq::empty()
    } else {
        let prev = ready_heroes(units, k - 1);
        if can_act(units[k - 1]) {
            insert_by_handle(prev, units[k - 1])
        } else {
            prev
        }
    }
}

/// Index of the first unit of `s`, from `i` on, that is `selected`.
pub open spec fn selected_slot(s: Seq<UnitRecord>, selected: Option<Entity>, i: int) -> Option<int>
    decreases s.len() - i,
{
    if i < 0 || i >= s.len() {
        None
    } else if selected == Some(s[i].entity) {
        Some(i)
    } else {
        selected_slot(s, selected, i + 1)
    }
}

/// The slot after (or before) the current one, wrapping around; the first
/// slot when nothing is selected.
pub open spec fn cycled_slot(len: int, current: Option<int>, next: bool) -> int {
    match current {
        Some(i) => if next {
            (i + 1) % len
        } else {
            (i + len - 1) % len
        },
        None => 0,
    }
}

/// Cycling forward and then back lands on the hero one started from.
pub proof fn lemma_cycle_round_trip(len: int, i: int)
    requires
        0 <= i < len,
    ensures
        cycled_slot(len, Some(cycled_slot(len, Some(i), true)), false) == i,
        cycled_slot(len, Some(cycled_slot(len, Some(i), false)), true) == i,
{
    if i + 1 < len {
        vstd::arithmetic::div_mod::lemma_small_mod((i + 1) as nat, len as nat);
        vstd::arithmetic::div_mod::lemma_mod_add_multiples_vanish(i, len);
        vstd::arithmetic::div_mod::lemma_small_mod(i as nat, len as nat);
    } else {
        vstd::arithmetic::div_mod::lemma_mod_self_0(len);
        vstd::arithmetic::div_mod::lemma_small_mod((len - 1) as nat, len as nat);
    }
    if i > 0 {
        vstd::arithmetic::div_mod::lemma_mod_add_multiples_vanish(i - 1, len);
        vstd::arithmetic::div_mod::lemma_small_mod((i - 1) as nat, len as nat);
        vstd::arithmetic::div_mod::lemma_small_mod(i as nat, len as nat);
    } else {
        vstd::arithmetic::div_mod::lemma_small_mod((len - 1) as nat, len as nat);
        vstd::arithmetic::div_mod::lemma_mod_self_0(len);
    }
}

proof fn lemma_insert_by_handle(s: Seq<UnitRecord>, x: UnitRecord, p: int)
    requires
        0 <= p <= s.len(),
        forall|j: int| 0 <= j < p ==> !entity_lt(x.entity, #[trigger] s[j].entity),
        p < s.len() ==> entity_lt(x.entity, s[p].entity),
    ensures
        insert_by_handle(s, x) == s.insert(p, x),
    decreases p,
{
    if p == 0 {
        if s.len() == 0 {
            assert(s.insert(0, x) =~= seq![x]);
        } else {
            assert(s.insert(0, x) =~= seq![x] + s);
        }
    } else {
        let t = s.drop_first();
        assert forall|j: int| 0 <= j < p - 1 implies !entity_lt(x.entity, #[trigger] t[j].entity) by {
            assert(t[j] == s[j + 1]);
        }
        lemma_insert_by_handle(t, x, p - 1);
        assert(s.insert(p, x) =~= seq![s[0]] + t.insert(p - 1, x));
    }
}

proof fn lemma_insert_by_handle_acts(s: Seq<UnitRecord>, x: UnitRecord)
    requires
        can_act(x),
        forall|i: int| 0 <= i < s.len() ==> can_act(#[trigger] s[i]),
    ensures
        forall|i: int| 0 <= i < insert_by_handle(s, x).len() ==> can_act(#[trigger] insert_by_handle(s, x)[i]),
    decreases s.len(),
{
    let r = insert_by_handle(s, x);
    if s.len() > 0 && !entity_lt(x.entity, s[0].entity) {
        let t = s.drop_first();
        assert forall|i: int| 0 <= i < t.len() implies can_act(#[trigger] t[i]) by {
            assert(t[i] == s[i + 1]);
        }
        lemma_insert_by_handle_acts(t, x);
        assert forall|i: int| 0 <= i < r.len() implies can_act(#[trigger] r[i]) by {
            if i > 0 {
                assert(r[i] == insert_by_handle(t, x)[i - 1]);
            }
        }
    } else if s.len() > 0 {
        assert forall|i: int| 0 <= i < r.len() implies can_act(#[trigger] r[i]) by {
            if i > 0 {
                assert(r[i] == s[i - 1]);
            }
        }
    }
}

proof fn lemma_ready_heroes_act(units: Seq<UnitRecord>, k: int)
    requires
        0 <= k <= units.len(),
    ensures
        forall|i: int| 0 <= i < ready_heroes(units, k).len() ==> can_act(#[trigger] ready_heroes(units, k)[i]),
    decreases k,
{
    if k > 0 {
        lemma_ready_heroes_act(units, k - 1);
        if can_act(units[k - 1]) {
            lemma_insert_by_handle_acts(ready_heroes(units, k - 1), units[k - 1]);
        }
    }
}

/// The next (or previous) hero that can act after the selected one, in
/// handle order and wrapping around, with its position; the first one when
/// the selection is not among them; none when no hero can act.
pub fn cycle_character(units: &[UnitRecord], selected: Option<Entity>, next: bool) -> (r: Option<
    (Entity, Position),
>)
    ensures
        ({
            let s = ready_heroes(units@, units@.len() as int);
            &&& s.len() == 0 ==> r is None
            &&& s.len() > 0 ==> {
                let k = cycled_slot(s.len() as int, selected_slot(s, selected, 0), next);
                r == Some((s[k].entity, s[k].position->0))
            }
        }),
{
    let n = units.len();
    let mut ready: Vec<UnitRecord> = Vec::new();
    let mut k: usize = 0;
    while k < n
        invariant
            k <= n,
            n == units@.len(),
            ready@ == ready_heroes(units@, k as int),
        decreases n - k,
    {
        let u = units[k];
        let acts = match (u.position, u.team, u.stats) {
            (Some(_), Some(Team::Player), Some(st)) => st.ap > 0,
            _ => false,
        };
        if acts {
            let m = ready.len();
            let mut p: usize = 0;
            while p < m && !u.entity.precedes(&ready[p].entity)
                invariant
                    p <= m,
                    m == ready@.len(),
                    forall|j: int| 0 <= j < p ==> !entity_lt(u.entity, #[trigger] ready@[j].entity),
                decreases m - p,
            {
                p = p + 1;
            }
            proof {
                lemma_insert_by_handle(ready@, u, p as int);
            }
            ready.insert(p, u);
        }
        k = k + 1;
    }
    let m = ready.len();
    if m == 0 {
        return None;
    }
    proof {
        lemma_ready_heroes_act(units@, n as int);
    }
    let ghost s = ready@;
    let mut current: Option<usize> = None;
    let mut i: usize = 0;
    while i < m && current.is_none()
        invariant
            i <= m,
            m == s.len(),
            ready@ == s,
            current matches Some(c) ==> c < m && selected_slot(s, selected, 0) == Some(c as int),
            current is None ==> selected_slot(s, selected, 0) == selected_slot(s, selected, i as int),
        decreases m - i + (if current is None {
            1int
        } else {
            0
        }),
    {
        let is_sel = match selected {
            Some(e) => e == ready[i].entity,
            None => false,
        };
        if is_sel {
            current = Some(i);
        } else {
            i = i + 1;
        }
    }
    let idx: usize = match current {
        Some(c) => {
            if next {
                (c + 1) % m
            } else {
                proof {
                    if c == 0 {
                        vstd::arithmetic::div_mod::lemma_small_mod((m - 1) as nat, m as nat);
                    } else {
                        vstd::arithmetic::div_mod::lemma_mod_add_multiples_vanish(c - 1, m as int);
                        vstd::arithmetic::div_mod::lemma_small_mod((c - 1) as nat, m as nat);
                    }
                }
                if c == 0 {
                    m - 1
                } else {
                    c - 1
                }
            }
        },
        None => 0,
    };
    assert(current is None ==> selected_slot(s, selected, i as int) is None);
    assert(idx == cycled_slot(m as int, selected_slot(s, selected, 0), next));
    let chosen = ready[idx];
    assert(can_act(s[idx as int]));
    Some((chosen.entity, chosen.position.unwrap()))
}

} // verus!
