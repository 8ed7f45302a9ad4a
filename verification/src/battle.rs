use vstd::prelude::*;

use crate::action::Action;
use crate::battle_preview::UnitRecord;
use crate::components::{
    EquipmentSlot, Equipment, EquippedItems, Fatigue, GameState, ItemEffect, Morale, ShieldType, Stats, UIState,
    class_name, get_class_name, slot_content, with_slot,
};
use crate::equipment::{MAX_UPGRADE_LEVEL, bonuses_match_level, upgrade_equipment, upgrade_fits};
use crate::crafting::{
    CarriedItem, CraftOutcome, craft_items, craft_result, kept_upto, recipe, use_inventory_item,
};
use crate::geometry::Entity;
use crate::outcome::{ActionOutcome, OutcomeView};
use crate::selection::{
    cursor_range, cycle_done, cycle_hero, hero_ranked, ready, select_done, select_hero, skill3_done,
    skill3_step,
};
use crate::steps::{
    Routing, apply_view_step, item_fits, rest, route_action, routing, stats_after_item, view_step,
};
use crate::text::{decimal, push_int, push_str};

verus! {

/// The part of the game a player's step works on: the game state, the map's
/// size, and for each unit its record, fatigue, morale and inventory.
pub struct BattleState {
    pub game: GameState,
    pub map_width: u16,
    pub map_height: u16,
    pub units: Vec<UnitRecord>,
    pub fatigue: Vec<Option<Fatigue>>,
    pub morale: Vec<Option<Morale>>,
    pub inventories: Vec<Vec<CarriedItem>>,
}

impl BattleState {
    /// One fatigue, morale and inventory entry per unit; a map of a size that
    /// positions can name, and the cursor away from the edges of that range.
    pub open spec fn wf(&self) -> bool {
        &&& self.fatigue@.len() == self.units@.len()
        &&& self.morale@.len() == self.units@.len()
        &&& self.inventories@.len() == self.units@.len()
        &&& 1 <= self.map_width <= i16::MAX
        &&& 1 <= self.map_height <= i16::MAX
        &&& i16::MIN < self.game.cursor.x < i16::MAX
        &&& i16::MIN < self.game.cursor.y < i16::MAX
    }
}

/// Index of the first of the first `k` units with handle `e`.
pub open spec fn unit_index(units: Seq<UnitRecord>, e: Entity, k: int) -> Option<int>
    decreases k,
{
    if k <= 0 {
        None
    } else {
        match unit_index(units, e, k - 1) {
            Some(i) => Some(i),
            None => if units[k - 1].entity == e {
                Some(k - 1)
            } else {
                None
            },
        }
    }
}

/// Index of the selected unit, if one is selected and on the field.
pub open spec fn selected_index(s: BattleState) -> Option<int> {
    match s.game.selected_entity {
        Some(e) => unit_index(s.units@, e, s.units@.len() as int),
        None => None,
    }
}

/// The selected hero's morale, if it has one.
pub open spec fn selected_morale(s: BattleState) -> Option<i32> {
    match selected_index(s) {
        Some(i) => match s.morale@[i] {
            Some(m) => Some(m.value),
            None => None,
        },
        None => None,
    }
}

/// The class a log line names a unit by: its own, or none.
pub open spec fn unit_name(u: UnitRecord) -> Seq<char> {
    match u.class {
        Some(c) => class_name(c),
        None => Seq::empty(),
    }
}

/// How a player's step ended.
#[derive(Clone, Debug)]
pub enum StepOutcome {
    /// An open dialogue takes the action.
    Dialogue,
    /// The step did nothing.
    Ignored,
    /// The step was carried out here, with these log lines.
    Done { messages: Vec<String> },
    /// The selected hero paid 1 AP to reroll the floor modifiers; the game
    /// now draws them.
    RerollPaid { messages: Vec<String> },
    /// The hero at index `active` has full concert energy and calls a swap
    /// (`swap::qte_swap`).
    SwapCalled { active: usize },
    /// The action acts on the world (attacks, skills, moving units, the
    /// enemy turn, saving...): the game carries it out.
    ForWorld(Action),
}

pub(crate) fn find_unit(units: &Vec<UnitRecord>, e: Entity) -> (r: Option<usize>)
    ensures
        match r {
            Some(i) => unit_index(units@, e, units@.len() as int) == Some(i as int) && i < units@.len(),
            None => unit_index(units@, e, units@.len() as int) is None,
        },
{
    let n = units.len();
    let mut found: Option<usize> = None;
    let mut k: usize = 0;
    while k < n
        invariant
            k <= n,
            n == units@.len(),
            match found {
                Some(i) => unit_index(units@, e, k as int) == Some(i as int) && i < k,
                None => unit_index(units@, e, k as int) is None,
            },
        decreases n - k,
    {
        if found.is_none() && units[k].entity == e {
            found = Some(k);
        }
        k = k + 1;
    }
    found
}

fn one_line(s: &str) -> (r: Vec<String>)
    ensures
        r@.len() == 1,
        r@[0]@ == s@,
{
    let mut v: Vec<String> = Vec::new();
    v.push(String::from_str(s));
    v
}

/// Resting the selected hero (at index `sel`), or the message that none is selected.
fn rest_selected(state: &mut BattleState, sel: Option<usize>) -> (o: StepOutcome)
    requires
        old(state).wf(),
        match sel {
            Some(i) => selected_index(*old(state)) == Some(i as int),
            None => selected_index(*old(state)) is None,
        },
        selected_index(*old(state)) matches Some(i) ==> 0 <= i < old(state).units@.len() && (
        old(state).morale@[i] matches Some(m) ==> m.value + 5 <= i32::MAX && m.max - m.value >= i32::MIN)
            && (old(state).fatigue@[i] matches Some(f) ==> f.value - 20 >= i32::MIN),
    ensures
        final(state).wf(),
        rest_done(*old(state), *final(state), o),
{
    match sel {
        Some(i) => {
            assert(selected_index(*old(state)) == Some(i as int));
            let (f2, m2, _, _) = rest(state.fatigue[i], state.morale[i]);
            state.fatigue.set(i, f2);
            state.morale.set(i, m2);
            state.game.selected_entity = None;
            let mut line = String::new();
            match state.units[i].class {
                Some(c) => push_str(&mut line, get_class_name(c)),
                None => {},
            }
            push_str(&mut line, " rests and recovers stamina.");
            let mut messages: Vec<String> = Vec::new();
            messages.push(line);
            StepOutcome::Done { messages }
        },
        None => StepOutcome::Done { messages: one_line("Select a character first to rest!") },
    }
}

/// What resting does to the state: the selected hero's fatigue falls by 20
/// (not below 0), its morale rises by 5 (not above its maximum) and the
/// selection clears; with no hero selected only a message comes back.
pub open spec fn rest_done(s: BattleState, t: BattleState, o: StepOutcome) -> bool {
    match selected_index(s) {
        Some(i) => {
            &&& t.game == GameState { selected_entity: None, ..s.game }
            &&& t.map_width == s.map_width && t.map_height == s.map_height
            &&& t.units@ == s.units@
            &&& t.inventories@ == s.inventories@
            &&& t.fatigue@ == s.fatigue@.update(
                i,
                match s.fatigue@[i] {
                    Some(f) => Some(
                        Fatigue {
                            value: if f.value - 20 > 0 {
                                (f.value - 20) as i32
                            } else {
                                0
                            },
                            ..f
                        },
                    ),
                    None => None,
                },
            )
            &&& t.morale@ == s.morale@.update(
                i,
                match s.morale@[i] {
                    Some(m) => Some(
                        Morale {
                            value: if m.max < m.value + 5 {
                                m.max
                            } else {
                                (m.value + 5) as i32
                            },
                            ..m
                        },
                    ),
                    None => None,
                },
            )
            &&& o matches StepOutcome::Done { messages } && messages@.len() == 1 && messages@[0]@
                == unit_name(s.units@[i]) + " rests and recovers stamina."@
        },
        None => t == s && (o matches StepOutcome::Done { messages } && messages@.len() == 1
            && messages@[0]@ == "Select a character first to rest!"@),
    }
}

/// What using item `k` does to the state: with the inventory open, the
/// selected hero's item `k` acts on its stats and is used up (an upgrade kit
/// stays), and the inventory closes; otherwise only a message comes back.
pub open spec fn use_done(s: BattleState, t: BattleState, k: usize, o: StepOutcome) -> bool {
    match selected_index(s) {
        Some(i) => if s.game.ui_state == UIState::Inventory {
            if k < s.inventories@[i]@.len() {
                let it = s.inventories@[i]@[k as int];
                &&& t.game == GameState { ui_state: UIState::Normal, ..s.game }
                &&& t.map_width == s.map_width && t.map_height == s.map_height
                &&& t.units@ == s.units@.update(
                    i,
                    UnitRecord {
                        stats: match s.units@[i].stats {
                            Some(st) => Some(stats_after_item(it.effect, st)),
                            None => None,
                        },
                        ..s.units@[i]
                    },
                )
                &&& t.fatigue@ == s.fatigue@
                &&& t.morale@ == s.morale@
                &&& t.inventories@.len() == s.inventories@.len()
                &&& forall|j: int|
                    0 <= j < s.inventories@.len() && j != i ==> t.inventories@[j] == #[trigger] s.inventories@[j]
                &&& t.inventories@[i]@.map_values(|c: CarriedItem| c@) == if it.effect is UpgradeKit {
                    s.inventories@[i]@.map_values(|c: CarriedItem| c@)
                } else {
                    s.inventories@[i]@.map_values(|c: CarriedItem| c@).remove(k as int)
                }
                &&& o matches StepOutcome::Done { messages } && messages@[0]@ == "Used "@ + it.name@ + "!"@
                    && match effect_line(it.effect, s.units@[i].stats) {
                    Some(line) => messages@.len() == 2 && messages@[1]@ == line,
                    None => messages@.len() == 1,
                }
            } else {
                t == s && (o matches StepOutcome::Done { messages } && messages@.len() == 1
                    && messages@[0]@ == "Invalid item slot!"@)
            }
        } else {
            t == s && (o matches StepOutcome::Done { messages } && messages@.len() == 1 && messages@[0]@
                == "Inventory must be open to use items!"@)
        },
        None => t == s && (o matches StepOutcome::Done { messages } && messages@.len() == 1
            && messages@[0]@ == "Select a character first to use an item!"@),
    }
}

/// How a shield kind is written in a log line.
pub open spec fn shield_kind_name(t: ShieldType) -> Seq<char> {
    match t {
        ShieldType::Ice => "Ice"@,
        ShieldType::Lightning => "Lightning"@,
        ShieldType::Nature => "Nature"@,
        ShieldType::Physical => "Physical"@,
    }
}

/// The log line that tells what an item did for a hero with `stats`
/// (none when a healing or action-point item meets a hero without stats).
pub open spec fn effect_line(effect: ItemEffect, stats: Option<Stats>) -> Option<Seq<char>> {
    match effect {
        ItemEffect::Heal(a) => if stats is Some {
            Some("Healed for "@ + decimal(a as int) + " HP."@)
        } else {
            None
        },
        ItemEffect::Combined(h, a) => if stats is Some {
            Some("Combined effect! Healed for "@ + decimal(h as int) + " HP and replenished "@ + decimal(a as int)
                + " AP."@)
        } else {
            None
        },
        ItemEffect::ReplenishAp(a) => if stats is Some {
            Some("Replenished "@ + decimal(a as int) + " AP."@)
        } else {
            None
        },
        ItemEffect::CleanseAndHeal(a) => Some(
            "Cleansed and healed for "@ + decimal(a as int) + " HP! (HP: "@ + decimal(
                match stats {
                    Some(st) => stats_after_item(effect, st).hp as int,
                    None => 0,
                },
            ) + ")"@,
        ),
        ItemEffect::Cleanse => Some("All negative statuses cleansed!"@),
        ItemEffect::RestoreShield(t, a) => Some(
            "Shielded! Created a "@ + decimal(a as int) + " HP "@ + shield_kind_name(t) + " Shield."@,
        ),
        ItemEffect::UpgradeKit => Some("Upgrade Kit must be used with equip_upgrade:<slot>."@),
    }
}

fn effect_text(effect: ItemEffect, stats: Option<Stats>, after: Option<Stats>) -> (r: Option<String>)
    requires
        after == (match stats {
            Some(st) => Some(stats_after_item(effect, st)),
            None => None,
        }),
    ensures
        match effect_line(effect, stats) {
            Some(t) => r matches Some(x) && x@ == t,
            None => r is None,
        },
{
    let mut line = String::new();
    match effect {
        ItemEffect::Heal(a) => {
            if stats.is_none() {
                return None;
            }
            push_str(&mut line, "Healed for ");
            push_int(&mut line, a as i64);
            push_str(&mut line, " HP.");
        },
        ItemEffect::Combined(h, a) => {
            if stats.is_none() {
                return None;
            }
            push_str(&mut line, "Combined effect! Healed for ");
            push_int(&mut line, h as i64);
            push_str(&mut line, " HP and replenished ");
            push_int(&mut line, a as i64);
            push_str(&mut line, " AP.");
        },
        ItemEffect::ReplenishAp(a) => {
            if stats.is_none() {
                return None;
            }
            push_str(&mut line, "Replenished ");
            push_int(&mut line, a as i64);
            push_str(&mut line, " AP.");
        },
        ItemEffect::CleanseAndHeal(a) => {
            let hp: i32 = match after {
                Some(st) => st.hp,
                None => 0,
            };
            push_str(&mut line, "Cleansed and healed for ");
            push_int(&mut line, a as i64);
            push_str(&mut line, " HP! (HP: ");
            push_int(&mut line, hp as i64);
            push_str(&mut line, ")");
        },
        ItemEffect::Cleanse => {
            push_str(&mut line, "All negative statuses cleansed!");
        },
        ItemEffect::RestoreShield(t, a) => {
            push_str(&mut line, "Shielded! Created a ");
            push_int(&mut line, a as i64);
            push_str(&mut line, " HP ");
            push_str(
                &mut line,
                match t {
                    ShieldType::Ice => "Ice",
                    ShieldType::Lightning => "Lightning",
                    ShieldType::Nature => "Nature",
                    ShieldType::Physical => "Physical",
                },
            );
            push_str(&mut line, " Shield.");
        },
        ItemEffect::UpgradeKit => {
            push_str(&mut line, "Upgrade Kit must be used with equip_upgrade:<slot>.");
        },
    }
    Some(line)
}

/// Using item `k` of the selected hero (at index `sel`).
fn use_selected_item(state: &mut BattleState, sel: Option<usize>, k: usize) -> (o: StepOutcome)
    requires
        old(state).wf(),
        match sel {
            Some(i) => selected_index(*old(state)) == Some(i as int),
            None => selected_index(*old(state)) is None,
        },
        selected_index(*old(state)) matches Some(i) ==> 0 <= i < old(state).units@.len() && (k
            < old(state).inventories@[i]@.len() ==> item_fits(
            old(state).inventories@[i]@[k as int].effect,
            old(state).units@[i].stats,
        )),
    ensures
        final(state).wf(),
        use_done(*old(state), *final(state), k, o),
{
    match sel {
        Some(i) => {
            assert(selected_index(*old(state)) == Some(i as int));
            if state.game.ui_state != UIState::Inventory {
                return StepOutcome::Done { messages: one_line("Inventory must be open to use items!") };
            }
            if k >= state.inventories[i].len() {
                return StepOutcome::Done { messages: one_line("Invalid item slot!") };
            }
            let ghost before = state.inventories@;
            let kind = state.inventories[i][k].effect;
            let mut inv = state.inventories.remove(i);
            assert(item_fits(inv@[k as int].effect, state.units@[i as int].stats));
            let used = use_inventory_item(&mut inv, k, state.units[i].stats);
            state.inventories.insert(i, inv);
            assert forall|j: int| 0 <= j < before.len() && j != i implies state.inventories@[j]
                == #[trigger] before[j] by {}
            let (name, effect) = used.unwrap();
            let u = state.units[i];
            state.units.set(i, UnitRecord { stats: effect.stats, ..u });
            state.game.ui_state = UIState::Normal;
            let mut line = String::new();
            push_str(&mut line, "Used ");
            push_str(&mut line, name.as_str());
            push_str(&mut line, "!");
            let mut messages: Vec<String> = Vec::new();
            messages.push(line);
            match effect_text(kind, u.stats, effect.stats) {
                Some(t) => messages.push(t),
                None => {},
            }
            StepOutcome::Done { messages }
        },
        None => StepOutcome::Done { messages: one_line("Select a character first to use an item!") },
    }
}

/// What crafting items `a` and `b` does to the state: the selected hero's
/// inventory changes as `craft_items` says, nothing else does; the log line
/// tells how it went.
pub open spec fn craft_done(s: BattleState, t: BattleState, a: usize, b: usize, o: StepOutcome) -> bool {
    match selected_index(s) {
        Some(i) => {
            let inv = s.inventories@[i]@.map_values(|c: CarriedItem| c@);
            &&& t.game == s.game && t.map_width == s.map_width && t.map_height == s.map_height
            &&& t.units@ == s.units@ && t.fatigue@ == s.fatigue@ && t.morale@ == s.morale@
            &&& t.inventories@.len() == s.inventories@.len()
            &&& forall|j: int|
                0 <= j < s.inventories@.len() && j != i ==> t.inventories@[j] == #[trigger] s.inventories@[j]
            &&& o matches StepOutcome::Done { messages } && messages@.len() == 1 && if a < inv.len() && b
                < inv.len() && a != b {
                match recipe(inv[a as int].0, inv[b as int].0) {
                    Some((name, effect)) => {
                        &&& t.inventories@[i]@.map_values(|c: CarriedItem| c@) == kept_upto(
                            inv,
                            a as int,
                            b as int,
                            inv.len() as int,
                        ).push((name, effect))
                        &&& messages@[0]@ == "Alchemy success! Crafted "@ + name + " from "@ + inv[a as int].0
                            + " and "@ + inv[b as int].0 + "."@
                    },
                    None => t.inventories@[i]@ == s.inventories@[i]@ && messages@[0]@
                        == "No valid recipe for those items!"@,
                }
            } else {
                t.inventories@[i]@ == s.inventories@[i]@ && messages@[0]@ == "Invalid crafting slots chosen!"@
            }
        },
        None => t == s && (o matches StepOutcome::Done { messages } && messages@.len() == 1
            && messages@[0]@ == "Select a character first!"@),
    }
}

/// Crafting items `a` and `b` of the selected hero (at index `sel`).
fn craft_selected(state: &mut BattleState, sel: Option<usize>, a: usize, b: usize) -> (o: StepOutcome)
    requires
        old(state).wf(),
        match sel {
            Some(i) => selected_index(*old(state)) == Some(i as int) && i < old(state).units@.len(),
            None => selected_index(*old(state)) is None,
        },
    ensures
        final(state).wf(),
        craft_done(*old(state), *final(state), a, b, o),
{
    match sel {
        Some(i) => {
            let ghost before = state.inventories@;
            let mut inv = state.inventories.remove(i);
            let made = craft_items(&mut inv, a, b);
            state.inventories.insert(i, inv);
            assert forall|j: int| 0 <= j < before.len() && j != i implies state.inventories@[j]
                == #[trigger] before[j] by {}
            let line = match made {
                CraftOutcome::Crafted { message, .. } => message,
                CraftOutcome::NoRecipe => String::from_str("No valid recipe for those items!"),
                CraftOutcome::InvalidSlots => String::from_str("Invalid crafting slots chosen!"),
            };
            let mut messages: Vec<String> = Vec::new();
            messages.push(line);
            StepOutcome::Done { messages }
        },
        None => StepOutcome::Done { messages: one_line("Select a character first!") },
    }
}

// ------------------------------------------------------------------
// Equipment upgrades and modifier rerolls
// ------------------------------------------------------------------

/// Index of the first Upgrade Kit among the first `k` items.
pub open spec fn first_kit(items: Seq<CarriedItem>, k: int) -> Option<int>
    decreases k,
{
    if k <= 0 {
        None
    } else {
        match first_kit(items, k - 1) {
            Some(i) => Some(i),
            None => if items[k - 1].effect is UpgradeKit {
                Some(k - 1)
            } else {
                None
            },
        }
    }
}

/// `b` is `a` raised one upgrade level, its bonuses recomputed from its base stats.
pub open spec fn upgraded_from(a: Equipment, b: Equipment) -> bool {
    &&& b.upgrade_level == a.upgrade_level + 1
    &&& bonuses_match_level(b)
    &&& b.name == a.name
    &&& b.slot == a.slot
    &&& b.special == a.special
    &&& b.set_id == a.set_id
    &&& b.base_atk == a.base_atk
    &&& b.base_def == a.base_def
    &&& b.base_hp == a.base_hp
    &&& b.base_spd == a.base_spd
}

/// The log line of an upgrade: the item's name and its new level.
pub open spec fn upgrade_message(e: Equipment) -> Seq<char> {
    "Upgraded "@ + e.name@ + " +"@ + decimal(e.upgrade_level as int) + "."@
}

fn find_kit(items: &Vec<CarriedItem>) -> (r: Option<usize>)
    ensures
        match r {
            Some(i) => first_kit(items@, items@.len() as int) == Some(i as int) && i < items@.len(),
            None => first_kit(items@, items@.len() as int) is None,
        },
{
    let n = items.len();
    let mut found: Option<usize> = None;
    let mut k: usize = 0;
    while k < n
        invariant
            k <= n,
            n == items@.len(),
            match found {
                Some(i) => first_kit(items@, k as int) == Some(i as int) && i < k,
                None => first_kit(items@, k as int) is None,
            },
        decreases n - k,
    {
        if found.is_none() {
            if let ItemEffect::UpgradeKit = items[k].effect {
                found = Some(k);
            }
        }
        k = k + 1;
    }
    found
}

/// Upgrades the equipment in `slot` of the selected hero with one of its
/// Upgrade Kits: the item rises one level (recomputed from its base stats)
/// and the first kit in the inventory is used up. Nothing changes when no
/// hero is selected, it carries no kit, or the slot is empty or already at
/// the highest level. `equipped[i]` is what `units[i]` wears.
pub fn upgrade_selected_equipment(
    state: &mut BattleState,
    equipped: &mut Vec<EquippedItems>,
    slot: EquipmentSlot,
) -> (o: StepOutcome)
    requires
        old(state).wf(),
        old(equipped)@.len() == old(state).units@.len(),
        selected_index(*old(state)) matches Some(i) ==> (slot_content(old(equipped)@[i], slot) matches Some(e)
            ==> (e.upgrade_level < MAX_UPGRADE_LEVEL ==> upgrade_fits(e, e.upgrade_level + 1))),
    ensures
        final(state).wf(),
        final(equipped)@.len() == old(equipped)@.len(),
        ({
            let s = *old(state);
            match selected_index(s) {
                None => *final(state) == s && final(equipped)@ == old(equipped)@ && (o matches StepOutcome::Done {
                    messages,
                } && messages@.len() == 1 && messages@[0]@
                    == "Select a character first to upgrade equipment!"@),
                Some(i) => match first_kit(s.inventories@[i]@, s.inventories@[i]@.len() as int) {
                    None => *final(state) == s && final(equipped)@ == old(equipped)@ && (o matches StepOutcome::Done {
                        messages,
                    } && messages@.len() == 1 && messages@[0]@ == "No Upgrade Kit available!"@),
                    Some(kit) => match slot_content(old(equipped)@[i], slot) {
                        Some(e) => if e.upgrade_level < MAX_UPGRADE_LEVEL {
                            let e2 = slot_content(final(equipped)@[i], slot)->0;
                            &&& slot_content(final(equipped)@[i], slot) is Some
                            &&& upgraded_from(e, e2)
                            &&& final(equipped)@[i] == with_slot(old(equipped)@[i], slot, Some(e2))
                            &&& forall|j: int|
                                0 <= j < old(equipped)@.len() && j != i ==> #[trigger] final(equipped)@[j]
                                    == old(equipped)@[j]
                            &&& final(state).game == s.game && final(state).units@ == s.units@
                            &&& final(state).fatigue@ == s.fatigue@ && final(state).morale@ == s.morale@
                            &&& final(state).map_width == s.map_width && final(state).map_height == s.map_height
                            &&& final(state).inventories@.len() == s.inventories@.len()
                            &&& forall|j: int|
                                0 <= j < s.inventories@.len() && j != i ==> #[trigger] final(state).inventories@[j]
                                    == s.inventories@[j]
                            &&& final(state).inventories@[i]@ == s.inventories@[i]@.remove(kit)
                            &&& o matches StepOutcome::Done { messages } && messages@.len() == 1
                                && messages@[0]@ == upgrade_message(e2)
                        } else {
                            *final(state) == s && final(equipped)@ == old(equipped)@ && (o matches StepOutcome::Done {
                                messages,
                            } && messages@.len() == 1 && messages@[0]@
                                == "No upgradeable equipment in that slot!"@)
                        },
                        None => *final(state) == s && final(equipped)@ == old(equipped)@ && (o matches StepOutcome::Done {
                            messages,
                        } && messages@.len() == 1 && messages@[0]@
                            == "No upgradeable equipment in that slot!"@),
                    },
                },
            }
        }),
{
    let sel = match state.game.selected_entity {
        Some(e) => {
            let f = find_unit(&state.units, e);
            assert(selected_index(*old(state)) == unit_index(state.units@, e, state.units@.len() as int));
            f
        },
        None => None,
    };
    let i = match sel {
        None => {
            return StepOutcome::Done { messages: one_line("Select a character first to upgrade equipment!") };
        },
        Some(i) => i,
    };
    assert(selected_index(*old(state)) == Some(i as int));
    let kit = match find_kit(&state.inventories[i]) {
        None => {
            return StepOutcome::Done { messages: one_line("No Upgrade Kit available!") };
        },
        Some(k) => k,
    };
    let mut eq = equipped.remove(i);
    let taken = match slot {
        EquipmentSlot::Weapon => eq.weapon.take(),
        EquipmentSlot::Armor => eq.armor.take(),
        EquipmentSlot::Accessory => eq.accessory.take(),
    };
    let mut item = match taken {
        None => {
            equipped.insert(i, put_in_slot(eq, slot, None));
            assert(equipped@ =~= old(equipped)@);
            return StepOutcome::Done { messages: one_line("No upgradeable equipment in that slot!") };
        },
        Some(it) => it,
    };
    if item.upgrade_level >= MAX_UPGRADE_LEVEL {
        equipped.insert(i, put_in_slot(eq, slot, Some(item)));
        assert(equipped@ =~= old(equipped)@);
        return StepOutcome::Done { messages: one_line("No upgradeable equipment in that slot!") };
    }
    let ghost before = item;
    upgrade_equipment(&mut item);
    let mut line = String::new();
    push_str(&mut line, "Upgraded ");
    push_str(&mut line, item.name.as_str());
    push_str(&mut line, " +");
    push_int(&mut line, item.upgrade_level as i64);
    push_str(&mut line, ".");
    let ghost after = item;
    equipped.insert(i, put_in_slot(eq, slot, Some(item)));
    assert forall|j: int| 0 <= j < old(equipped)@.len() && j != i implies #[trigger] equipped@[j]
        == old(equipped)@[j] by {}
    let ghost inv_before = state.inventories@;
    let mut inv = state.inventories.remove(i);
    inv.remove(kit);
    state.inventories.insert(i, inv);
    assert forall|j: int| 0 <= j < inv_before.len() && j != i implies #[trigger] state.inventories@[j]
        == inv_before[j] by {}
    let mut messages: Vec<String> = Vec::new();
    messages.push(line);
    StepOutcome::Done { messages }
}

/// `eq` with `o` put in `slot`.
fn put_in_slot(eq: EquippedItems, slot: EquipmentSlot, o: Option<Equipment>) -> (r: EquippedItems)
    ensures
        r == with_slot(eq, slot, o),
{
    match slot {
        EquipmentSlot::Weapon => EquippedItems { weapon: o, ..eq },
        EquipmentSlot::Armor => EquippedItems { armor: o, ..eq },
        EquipmentSlot::Accessory => EquippedItems { accessory: o, ..eq },
    }
}

/// What paying for a reroll does to `s`, giving `t` and `o`.
pub open spec fn reroll_done(s: BattleState, t: BattleState, o: StepOutcome) -> bool {
    match selected_index(s) {
        None => t == s && (o matches StepOutcome::Done { messages } && messages@.len() == 1
            && messages@[0]@ == "Select a character first to reroll modifiers!"@),
        Some(i) => {
            let st = s.units@[i].stats->0;
            if s.units@[i].stats is Some && st.ap >= 1 {
                &&& t.units@ == s.units@.update(
                    i,
                    UnitRecord { stats: Some(Stats { ap: (st.ap - 1) as i32, ..st }), ..s.units@[i] },
                )
                &&& t.game == s.game && t.fatigue@ == s.fatigue@
                &&& t.morale@ == s.morale@ && t.inventories@ == s.inventories@
                &&& t.map_width == s.map_width && t.map_height == s.map_height
                &&& o matches StepOutcome::RerollPaid { messages } && messages@.len() == 1
                    && messages@[0]@ == "[fg:FF00FF]Rerolling floor modifiers (-1 AP)...[/fg]"@
            } else {
                t == s && (o matches StepOutcome::Done { messages } && messages@.len() == 1
                    && messages@[0]@ == "Not enough AP to reroll modifiers! (Costs 1 AP)"@)
            }
        },
    }
}

/// Rerolling the floor modifiers costs the selected hero 1 AP (a hero
/// without stats counts as having none); the game then draws the new
/// modifiers.
pub fn pay_reroll(state: &mut BattleState) -> (o: StepOutcome)
    requires
        old(state).wf(),
    ensures
        final(state).wf(),
        reroll_done(*old(state), *final(state), o),
{
    let sel = match state.game.selected_entity {
        Some(e) => {
            let f = find_unit(&state.units, e);
            assert(selected_index(*old(state)) == unit_index(state.units@, e, state.units@.len() as int));
            f
        },
        None => None,
    };
    let i = match sel {
        None => {
            return StepOutcome::Done { messages: one_line("Select a character first to reroll modifiers!") };
        },
        Some(i) => i,
    };
    let u = state.units[i];
    match u.stats {
        Some(st) => {
            if st.ap >= 1 {
                state.units.set(i, UnitRecord { stats: Some(Stats { ap: st.ap - 1, ..st }), ..u });
                return StepOutcome::RerollPaid {
                    messages: one_line("[fg:FF00FF]Rerolling floor modifiers (-1 AP)...[/fg]"),
                };
            }
        },
        None => {},
    }
    StepOutcome::Done { messages: one_line("Not enough AP to reroll modifiers! (Costs 1 AP)") }
}

/// The fatigue a rest takes off.
pub open spec fn fatigue_recovered(f: Option<Fatigue>) -> int {
    match f {
        Some(f) => f.value - if f.value - 20 > 0 {
            f.value - 20
        } else {
            0
        },
        None => 0,
    }
}

/// The morale a rest adds.
pub open spec fn morale_gained(m: Option<Morale>) -> int {
    match m {
        Some(m) => (if m.max < m.value + 5 {
            m.max as int
        } else {
            m.value + 5
        }) - m.value,
        None => 0,
    }
}

/// The name of the overlay a routing closes.
pub open spec fn overlay_name(ov: UIState) -> Seq<char> {
    if ov == UIState::Inventory {
        "inventory"@
    } else if ov == UIState::Help {
        "help"@
    } else {
        "bestiary"@
    }
}

pub open spec fn failed_view(reason: Seq<char>) -> OutcomeView {
    OutcomeView::Failed { reason }
}

/// The outcome a step records while it runs, from the state before it and
/// its routing: a switched overlay or display, a rest with what it
/// recovered, a used or crafted item, or the reason a step was refused.
/// Other steps record nothing; a paid reroll is recorded by the game once it
/// has drawn the new modifiers.
pub open spec fn record_for(s: BattleState, r: Routing) -> OutcomeView {
    match r {
        Routing::CloseOverlay(ov) => OutcomeView::ToggleChanged { name: overlay_name(ov), enabled: false },
        Routing::Proceed(a) => match a {
            Action::ToggleInventory => if s.game.selected_entity is Some {
                OutcomeView::ToggleChanged { name: "inventory"@, enabled: s.game.ui_state != UIState::Inventory }
            } else {
                OutcomeView::NoOp
            },
            Action::ToggleHelp => OutcomeView::ToggleChanged {
                name: "help"@,
                enabled: s.game.ui_state != UIState::Help,
            },
            Action::ToggleBestiary => OutcomeView::ToggleChanged {
                name: "bestiary"@,
                enabled: s.game.ui_state != UIState::Bestiary,
            },
            Action::ToggleMinimap => OutcomeView::ToggleChanged { name: "minimap"@, enabled: !s.game.show_minimap },
            Action::TogglePerf => OutcomeView::ToggleChanged {
                name: "performance_overlay"@,
                enabled: !s.game.show_perf,
            },
            Action::AutoBattle => OutcomeView::ToggleChanged { name: "auto_battle"@, enabled: !s.game.auto_battle },
            Action::Rest => match selected_index(s) {
                Some(i) => OutcomeView::Rested {
                    entity: unit_name(s.units@[i]),
                    fatigue_recovered: fatigue_recovered(s.fatigue@[i]) as i32,
                    morale_gained: morale_gained(s.morale@[i]) as i32,
                },
                None => failed_view("Select a character first"@),
            },
            Action::UseItem(k) => match selected_index(s) {
                Some(i) => if s.game.ui_state != UIState::Inventory {
                    failed_view("Inventory must be open to use items"@)
                } else if k >= s.inventories@[i]@.len() {
                    failed_view("Invalid item slot"@)
                } else if s.inventories@[i]@[k as int].effect is UpgradeKit {
                    failed_view("Upgrade Kit requires an equipment slot"@)
                } else {
                    OutcomeView::ItemUsed { name: s.inventories@[i]@[k as int].name@ }
                },
                None => failed_view("Select a character first"@),
            },
            Action::CraftItem(x, y) => match selected_index(s) {
                Some(i) => {
                    let inv = s.inventories@[i]@;
                    if x < inv.len() && y < inv.len() && x != y {
                        match recipe(inv[x as int].name@, inv[y as int].name@) {
                            Some((name, _)) => OutcomeView::Crafted { item_name: name },
                            None => failed_view("No valid recipe for those items"@),
                        }
                    } else {
                        failed_view("Invalid crafting slots chosen"@)
                    }
                },
                None => failed_view("Select a character first"@),
            },
            Action::RerollModifiers => match selected_index(s) {
                Some(i) => if s.units@[i].stats is Some && s.units@[i].stats->0.ap >= 1 {
                    OutcomeView::NoOp
                } else {
                    failed_view("Not enough AP to reroll modifiers"@)
                },
                None => failed_view("Select a character first"@),
            },
            _ => OutcomeView::NoOp,
        },
        _ => OutcomeView::NoOp,
    }
}

fn failed(reason: &str) -> (r: ActionOutcome)
    ensures
        r@ == failed_view(reason@),
{
    ActionOutcome::Failed { reason: String::from_str(reason) }
}

fn toggled_record(name: &str, enabled: bool) -> (r: ActionOutcome)
    ensures
        r@ == (OutcomeView::ToggleChanged { name: name@, enabled }),
{
    ActionOutcome::ToggleChanged { name: String::from_str(name), enabled }
}

/// The outcome a step routed as `r` records (`sel` is the selected hero's
/// index).
#[verifier::rlimit(40)]
fn record_step(state: &BattleState, sel: Option<usize>, r: Routing) -> (rec: ActionOutcome)
    requires
        state.wf(),
        match sel {
            Some(i) => selected_index(*state) == Some(i as int) && i < state.units@.len(),
            None => selected_index(*state) is None,
        },
    ensures
        rec@ == record_for(*state, r),
{
    let g = state.game;
    match r {
        Routing::CloseOverlay(ov) => {
            let name = match ov {
                UIState::Inventory => "inventory",
                UIState::Help => "help",
                _ => "bestiary",
            };
            toggled_record(name, false)
        },
        Routing::Proceed(a) => match a {
            Action::ToggleInventory => if g.selected_entity.is_some() {
                toggled_record("inventory", g.ui_state != UIState::Inventory)
            } else {
                ActionOutcome::NoOp
            },
            Action::ToggleHelp => toggled_record("help", g.ui_state != UIState::Help),
            Action::ToggleBestiary => toggled_record("bestiary", g.ui_state != UIState::Bestiary),
            Action::ToggleMinimap => toggled_record("minimap", !g.show_minimap),
            Action::TogglePerf => toggled_record("performance_overlay", !g.show_perf),
            Action::AutoBattle => toggled_record("auto_battle", !g.auto_battle),
            Action::Rest => match sel {
                Some(i) => {
                    let fat: i32 = match state.fatigue[i] {
                        Some(f) => f.value - if f.value > 20 {
                            f.value - 20
                        } else {
                            0
                        },
                        None => 0,
                    };
                    let mor: i32 = match state.morale[i] {
                        Some(m) => {
                            let room: i64 = (m.max as i64) - (m.value as i64);
                            if room < 5 {
                                room as i32
                            } else {
                                5
                            }
                        },
                        None => 0,
                    };
                    let mut name = String::new();
                    match state.units[i].class {
                        Some(c) => push_str(&mut name, get_class_name(c)),
                        None => {},
                    }
                    proof {
                        reveal_strlit("");
                    }
                    ActionOutcome::Rested { entity: name, fatigue_recovered: fat, morale_gained: mor }
                },
                None => failed("Select a character first"),
            },
            Action::UseItem(k) => match sel {
                Some(i) => if g.ui_state != UIState::Inventory {
                    failed("Inventory must be open to use items")
                } else if k >= state.inventories[i].len() {
                    failed("Invalid item slot")
                } else {
                    match state.inventories[i][k].effect {
                        ItemEffect::UpgradeKit => failed("Upgrade Kit requires an equipment slot"),
                        _ => ActionOutcome::ItemUsed { name: state.inventories[i][k].name.clone() },
                    }
                },
                None => failed("Select a character first"),
            },
            Action::CraftItem(x, y) => match sel {
                Some(i) => {
                    let inv = &state.inventories[i];
                    if x < inv.len() && y < inv.len() && x != y {
                        match craft_result(inv[x].name.as_str(), inv[y].name.as_str()) {
                            Some((name, _)) => ActionOutcome::Crafted { item_name: name },
                            None => failed("No valid recipe for those items"),
                        }
                    } else {
                        failed("Invalid crafting slots chosen")
                    }
                },
                None => failed("Select a character first"),
            },
            Action::RerollModifiers => match sel {
                Some(i) => match state.units[i].stats {
                    Some(st) => if st.ap >= 1 {
                        ActionOutcome::NoOp
                    } else {
                        failed("Not enough AP to reroll modifiers")
                    },
                    None => failed("Not enough AP to reroll modifiers"),
                },
                None => failed("Select a character first"),
            },
            _ => ActionOutcome::NoOp,
        },
        _ => ActionOutcome::NoOp,
    }
}

/// What carrying out the routed action `a` needs of `s` (see `step_fits`).
pub open spec fn proceed_fits(s: BattleState, a: Action) -> bool {
    match a {
        Action::Rest => selected_index(s) matches Some(i) ==> (s.morale@[i] matches Some(m) ==> m.value
            + 5 <= i32::MAX && m.max - m.value >= i32::MIN) && (s.fatigue@[i] matches Some(f) ==> f.value
            - 20 >= i32::MIN),
        Action::UseItem(k) => selected_index(s) matches Some(i) ==> (k < s.inventories@[i]@.len()
            ==> item_fits(s.inventories@[i]@[k as int].effect, s.units@[i].stats)),
        Action::SwapCharacter(k) => hero_ranked(s.units@, k as int, s.units@.len() as int) matches Some(
            j,
        ) ==> cursor_range(s.units@[j]) && s.units@[j].class is Some,
        Action::Skill3 => s.game.selected_entity is Some ==> (selected_index(s) matches Some(i)
            && s.units@[i].class is Some),
        Action::NextCharacter | Action::PrevCharacter => forall|j: int|
            0 <= j < s.units@.len() && ready(#[trigger] s.units@[j]) ==> cursor_range(s.units@[j]),
        _ => true,
    }
}

/// What the step needs of the state beyond well-formedness. Its arithmetic
/// fits its integer types: resting needs the selected hero's morale + 5 and
/// fatigue − 20 to fit, using item `k` needs that item's healing and action
/// points to fit. And the units it reads are there: the hero picked by
/// index, and every hero that cycling can pick, stands where the cursor can
/// go, the hero picked by index has a class, and the third skill key finds
/// the selected hero and its class. Other steps need nothing.
pub open spec fn step_fits(s: BattleState, action: Action, dialogue_open: bool) -> bool {
    match routing(dialogue_open, s.game.ui_state, s.game.outcome, selected_morale(s), action) {
        Routing::Proceed(a) => proceed_fits(s, a),
        _ => true,
    }
}

/// What the routed action `a` that is no view step does to `s`.
pub open spec fn proceed_done(s: BattleState, t: BattleState, a: Action, o: StepOutcome) -> bool {
    match a {
        Action::Rest => rest_done(s, t, o),
        Action::UseItem(k) => use_done(s, t, k, o),
        Action::CraftItem(x, y) => craft_done(s, t, x, y, o),
        Action::RerollModifiers => reroll_done(s, t, o),
        Action::SwapCharacter(k) => select_done(s, t, k as int, o),
        Action::Skill3 => skill3_done(s, t, o),
        Action::NextCharacter => cycle_done(s, t, true, o),
        Action::PrevCharacter => cycle_done(s, t, false, o),
        _ => (o matches StepOutcome::ForWorld(b) && b == a) && t == s,
    }
}

/// Carries out a routed action that is no view step.
#[verifier::rlimit(50)]
fn proceed_step(state: &mut BattleState, a: Action, sel: Option<usize>) -> (o: StepOutcome)
    requires
        old(state).wf(),
        match sel {
            Some(i) => selected_index(*old(state)) == Some(i as int) && i < old(state).units@.len(),
            None => selected_index(*old(state)) is None,
        },
        proceed_fits(*old(state), a),
    ensures
        final(state).wf(),
        final(state).map_width == old(state).map_width,
        final(state).map_height == old(state).map_height,
        proceed_done(*old(state), *final(state), a, o),
{
    match a {
        Action::Rest => rest_selected(state, sel),
        Action::UseItem(k) => use_selected_item(state, sel, k),
        Action::CraftItem(x, y) => craft_selected(state, sel, x, y),
        Action::RerollModifiers => pay_reroll(state),
        Action::SwapCharacter(k) => select_hero(state, k),
        Action::Skill3 => skill3_step(state),
        Action::NextCharacter => cycle_hero(state, true),
        Action::PrevCharacter => cycle_hero(state, false),
        _ => StepOutcome::ForWorld(a),
    }
}

/// What one player step of `action` does to `s`, giving `t` and `o`.
pub open spec fn step_done(s: BattleState, t: BattleState, action: Action, dialogue_open: bool, o: StepOutcome) -> bool {
    let r = routing(dialogue_open, s.game.ui_state, s.game.outcome, selected_morale(s), action);
    match r {
        Routing::Dialogue => o is Dialogue && t == s,
        Routing::Ignored => o is Ignored && t == s,
        Routing::CloseOverlay(ov) => t == (BattleState {
            game: GameState { ui_state: UIState::Normal, ..s.game },
            ..s
        }) && (o matches StepOutcome::Done { messages } && messages@.len() == 1
            && messages@[0]@ == (if ov == UIState::Inventory {
            "Inventory closed."@
        } else if ov == UIState::Help {
            "Help closed."@
        } else {
            "Bestiary closed."@
        })),
        Routing::TooDemoralized => t == s && (o matches StepOutcome::Done {
            messages,
        } && messages@.len() == 1 && messages@[0]@ == unit_name(
            s.units@[selected_index(s)->0],
        ) + " is too demoralized to act!"@),
        Routing::Proceed(a) => match view_step(s.game, a, s.map_width as int, s.map_height as int) {
            Some((g, line)) => t == (BattleState { game: g, ..s }) && (o matches StepOutcome::Done {
                messages,
            } && messages@.len() == if line is Some {
                1int
            } else {
                0int
            } && (line matches Some(text) ==> messages@[0]@ == text)),
            None => proceed_done(s, t, a, o),
        },
    }
}

/// Carries out a routed step (see `apply_step`).
#[verifier::rlimit(50)]
fn carry_out_step(state: &mut BattleState, action: Action, dialogue_open: bool) -> (o: StepOutcome)
    requires
        old(state).wf(),
        old(state).game.ui_state == UIState::Inventory ==> (action matches Action::SwapCharacter(i)
            ==> i + 3 <= usize::MAX),
        step_fits(*old(state), action, dialogue_open),
    ensures
        final(state).wf(),
        final(state).map_width == old(state).map_width,
        final(state).map_height == old(state).map_height,
        ({
            let s = *old(state);
            let r = routing(dialogue_open, s.game.ui_state, s.game.outcome, selected_morale(s), action);
            match r {
                Routing::Dialogue => o is Dialogue && *final(state) == s,
                Routing::Ignored => o is Ignored && *final(state) == s,
                Routing::CloseOverlay(ov) => *final(state) == (BattleState {
                    game: GameState { ui_state: UIState::Normal, ..s.game },
                    ..s
                }) && (o matches StepOutcome::Done { messages } && messages@.len() == 1
                    && messages@[0]@ == (if ov == UIState::Inventory {
                    "Inventory closed."@
                } else if ov == UIState::Help {
                    "Help closed."@
                } else {
                    "Bestiary closed."@
                })),
                Routing::TooDemoralized => *final(state) == s && (o matches StepOutcome::Done {
                    messages,
                } && messages@.len() == 1 && messages@[0]@ == unit_name(
                    s.units@[selected_index(s)->0],
                ) + " is too demoralized to act!"@),
                Routing::Proceed(a) => match view_step(s.game, a, s.map_width as int, s.map_height as int) {
                    Some((g, line)) => *final(state) == (BattleState { game: g, ..s }) && (o matches StepOutcome::Done {
                        messages,
                    } && messages@.len() == if line is Some {
                        1int
                    } else {
                        0int
                    } && (line matches Some(text) ==> messages@[0]@ == text)),
                    None => proceed_done(s, *final(state), a, o),
                },
            }
        }),
{
    let sel = match state.game.selected_entity {
        Some(e) => {
            let f = find_unit(&state.units, e);
            assert(selected_index(*old(state)) == unit_index(state.units@, e, state.units@.len() as int));
            f
        },
        None => None,
    };
    let morale: Option<i32> = match sel {
        Some(i) => match state.morale[i] {
            Some(m) => Some(m.value),
            None => None,
        },
        None => None,
    };
    assert(match sel {
        Some(i) => selected_index(*old(state)) == Some(i as int),
        None => selected_index(*old(state)) is None,
    });
    assert(morale == selected_morale(*old(state)));
    let r = route_action(dialogue_open, state.game.ui_state, state.game.outcome, morale, action);
    match r {
        Routing::Dialogue => StepOutcome::Dialogue,
        Routing::Ignored => StepOutcome::Ignored,
        Routing::CloseOverlay(ov) => {
            state.game.ui_state = UIState::Normal;
            let line = match ov {
                UIState::Inventory => "Inventory closed.",
                UIState::Help => "Help closed.",
                _ => "Bestiary closed.",
            };
            StepOutcome::Done { messages: one_line(line) }
        },
        Routing::TooDemoralized => {
            let i = sel.unwrap();
            let mut line = String::new();
            match state.units[i].class {
                Some(c) => push_str(&mut line, get_class_name(c)),
                None => {},
            }
            push_str(&mut line, " is too demoralized to act!");
            let mut messages: Vec<String> = Vec::new();
            messages.push(line);
            StepOutcome::Done { messages }
        },
        Routing::Proceed(a) => {
            let (w, h) = (state.map_width, state.map_height);
            match apply_view_step(&mut state.game, a, w, h) {
                Some(line) => {
                    let mut messages: Vec<String> = Vec::new();
                    if let Some(t) = line {
                        messages.push(String::from_str(t));
                    }
                    assert(routing(dialogue_open, old(state).game.ui_state, old(state).game.outcome, selected_morale(*old(state)), action) == Routing::Proceed(a));
                    assert(view_step(old(state).game, a, w as int, h as int) is Some);
                    return StepOutcome::Done { messages };
                },
                None => {},
            }
            assert(selected_index(*old(state)) matches Some(i) ==> i < old(state).units@.len());
            proceed_step(state, a, sel)
        },
    }
}

/// The outcome a step of `action` on `s` records.
pub open spec fn recorded_of(s: BattleState, action: Action, dialogue_open: bool) -> OutcomeView {
    record_for(s, routing(dialogue_open, s.game.ui_state, s.game.outcome, selected_morale(s), action))
}

/// Carries out one player step on `state`, after the checks every action
/// passes (`route_action`). Done here: closing an overlay, the view steps,
/// resting, using an item, crafting, paying for a modifier reroll, picking a
/// hero by index or cycling through the heroes, and the third skill key. An
/// action on the world is handed back. `dialogue_open` says whether a
/// dialogue is showing. With the step's outcome comes the outcome it
/// records for the step report (`outcome::compute_outcome`).
#[verifier::rlimit(50)]
pub fn apply_step(state: &mut BattleState, action: Action, dialogue_open: bool) -> (res: (StepOutcome, ActionOutcome))
    requires
        old(state).wf(),
        old(state).game.ui_state == UIState::Inventory ==> (action matches Action::SwapCharacter(i)
            ==> i + 3 <= usize::MAX),
        step_fits(*old(state), action, dialogue_open),
    ensures
        final(state).wf(),
        final(state).map_width == old(state).map_width,
        final(state).map_height == old(state).map_height,
        step_done(*old(state), *final(state), action, dialogue_open, res.0),
        res.1@ == recorded_of(*old(state), action, dialogue_open),
{
    let sel = match state.game.selected_entity {
        Some(e) => {
            let f = find_unit(&state.units, e);
            assert(selected_index(*old(state)) == unit_index(state.units@, e, state.units@.len() as int));
            f
        },
        None => None,
    };
    let morale: Option<i32> = match sel {
        Some(i) => match state.morale[i] {
            Some(m) => Some(m.value),
            None => None,
        },
        None => None,
    };
    assert(morale == selected_morale(*old(state)));
    let r = route_action(dialogue_open, state.game.ui_state, state.game.outcome, morale, action);
    let rec = record_step(state, sel, r);
    let o = carry_out_step(state, action, dialogue_open);
    (o, rec)
}

} // verus!
