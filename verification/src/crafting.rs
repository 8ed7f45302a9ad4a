use vstd::prelude::*;

use crate::components::{ItemEffect, ShieldType, Stats};
use crate::steps::{ItemUse, item_fits, stats_after_item, use_item};
use crate::text::push_str;
use crate::token::same_text;

verus! {

/// Two names that make a recipe, in either order.
pub open spec fn pair_is(a: Seq<char>, b: Seq<char>, x: Seq<char>, y: Seq<char>) -> bool {
    (a == x && b == y) || (a == y && b == x)
}

/// The alchemy recipes: the item two items combine into, by name.
pub open spec fn recipe(a: Seq<char>, b: Seq<char>) -> Option<(Seq<char>, ItemEffect)> {
    if a == "Healing Potion"@ && b == "Healing Potion"@ {
        Some(("Mega Potion"@, ItemEffect::Heal(75)))
    } else if a == "Energy Elixir"@ && b == "Energy Elixir"@ {
        Some(("Mega Energy Elixir"@, ItemEffect::ReplenishAp(4)))
    } else if pair_is(a, b, "Healing Potion"@, "Energy Elixir"@) {
        Some(("Elixir of Life"@, ItemEffect::Combined(40, 2)))
    } else if pair_is(a, b, "Healing Potion"@, "Cleanse Remedy"@) {
        Some(("Aegis Elixir"@, ItemEffect::RestoreShield(ShieldType::Physical, 30)))
    } else if pair_is(a, b, "Cleanse Remedy"@, "Mega Potion"@) {
        Some(("Divine Remedy"@, ItemEffect::CleanseAndHeal(80)))
    } else if pair_is(a, b, "Mega Potion"@, "Mega Energy Elixir"@) {
        Some(("Elixir of the Gods"@, ItemEffect::Combined(100, 4)))
    } else {
        None
    }
}

/// Recipes do not depend on the order of the two items: crafting `a` with
/// `b` gives what crafting `b` with `a` gives.
pub proof fn lemma_recipe_symmetric(a: Seq<char>, b: Seq<char>)
    ensures
        recipe(a, b) == recipe(b, a),
{
}

fn pair_is_exec(a: &str, b: &str, x: &str, y: &str) -> (r: bool)
    ensures
        r == pair_is(a@, b@, x@, y@),
{
    (same_text(a, x) && same_text(b, y)) || (same_text(a, y) && same_text(b, x))
}

/// The item that the items named `first` and `second` combine into, with its
/// effect, if they make a recipe.
pub fn craft_result(first: &str, second: &str) -> (r: Option<(String, ItemEffect)>)
    ensures
        match recipe(first@, second@) {
            Some((name, effect)) => r matches Some(x) && x.0@ == name && x.1 == effect,
            None => r is None,
        },
{
    if same_text(first, "Healing Potion") && same_text(second, "Healing Potion") {
        Some((String::from_str("Mega Potion"), ItemEffect::Heal(75)))
    } else if same_text(first, "Energy Elixir") && same_text(second, "Energy Elixir") {
        Some((String::from_str("Mega Energy Elixir"), ItemEffect::ReplenishAp(4)))
    } else if pair_is_exec(first, second, "Healing Potion", "Energy Elixir") {
        Some((String::from_str("Elixir of Life"), ItemEffect::Combined(40, 2)))
    } else if pair_is_exec(first, second, "Healing Potion", "Cleanse Remedy") {
        Some((String::from_str("Aegis Elixir"), ItemEffect::RestoreShield(ShieldType::Physical, 30)))
    } else if pair_is_exec(first, second, "Cleanse Remedy", "Mega Potion") {
        Some((String::from_str("Divine Remedy"), ItemEffect::CleanseAndHeal(80)))
    } else if pair_is_exec(first, second, "Mega Potion", "Mega Energy Elixir") {
        Some((String::from_str("Elixir of the Gods"), ItemEffect::Combined(100, 4)))
    } else {
        None
    }
}

/// An item carried in an inventory: its name and what it does.
#[derive(Clone, Debug)]
pub struct CarriedItem {
    pub name: String,
    pub effect: ItemEffect,
}

impl View for CarriedItem {
    type V = (Seq<char>, ItemEffect);

    open spec fn view(&self) -> (Seq<char>, ItemEffect) {
        (self.name@, self.effect)
    }
}

/// The items of `s` at positions other than `i` and `j`, among the first `k`.
pub open spec fn kept_upto<T>(s: Seq<T>, i: int, j: int, k: int) -> Seq<T>
    decreases k,
{
    if k <= 0 {
        Seq::empty()
    } else if k - 1 == i || k - 1 == j {
        kept_upto(s, i, j, k - 1)
    } else {
        kept_upto(s, i, j, k - 1).push(s[k - 1])
    }
}

/// How a crafting attempt ended.
#[derive(Clone, Debug)]
pub enum CraftOutcome {
    /// The two items became one, with this log line.
    Crafted { item_name: String, message: String },
    /// The two items make no recipe.
    NoRecipe,
    /// The item numbers do not name two different items.
    InvalidSlots,
}

/// Combines the items at `first` and `second` of the inventory: when they are
/// two different items that make a recipe, both leave the inventory (the
/// others keep their order) and the crafted item is added at the end.
/// Otherwise the inventory is left as it was.
pub fn craft_items(items: &mut Vec<CarriedItem>, first: usize, second: usize) -> (r: CraftOutcome)
    ensures
        ({
            let s = old(items)@.map_values(|it: CarriedItem| it@);
            if first < s.len() && second < s.len() && first != second {
                match recipe(s[first as int].0, s[second as int].0) {
                    Some((name, effect)) => {
                        &&& final(items)@.map_values(|it: CarriedItem| it@) == kept_upto(
                            s,
                            first as int,
                            second as int,
                            s.len() as int,
                        ).push((name, effect))
                        &&& r matches CraftOutcome::Crafted { item_name, message } && item_name@
                            == name && message@ == "Alchemy success! Crafted "@ + name + " from "@
                            + s[first as int].0 + " and "@ + s[second as int].0 + "."@
                    },
                    None => final(items)@ == old(items)@ && r is NoRecipe,
                }
            } else {
                final(items)@ == old(items)@ && r is InvalidSlots
            }
        }),
{
    let ghost s = items@.map_values(|it: CarriedItem| it@);
    let n = items.len();
    if !(first < n && second < n && first != second) {
        return CraftOutcome::InvalidSlots;
    }
    let made = craft_result(items[first].name.as_str(), items[second].name.as_str());
    let (name, effect) = match made {
        None => {
            return CraftOutcome::NoRecipe;
        },
        Some(x) => x,
    };
    let mut message = String::new();
    push_str(&mut message, "Alchemy success! Crafted ");
    push_str(&mut message, name.as_str());
    push_str(&mut message, " from ");
    push_str(&mut message, items[first].name.as_str());
    push_str(&mut message, " and ");
    push_str(&mut message, items[second].name.as_str());
    push_str(&mut message, ".");
    let mut kept: Vec<CarriedItem> = Vec::new();
    let mut k: usize = 0;
    while k < n
        invariant
            k <= n,
            n == items@.len(),
            s == items@.map_values(|it: CarriedItem| it@),
            kept@.map_values(|it: CarriedItem| it@) == kept_upto(s, first as int, second as int, k as int),
        decreases n - k,
    {
        if k != first && k != second {
            let it = CarriedItem { name: items[k].name.clone(), effect: items[k].effect };
            kept.push(it);
            assert(kept@.map_values(|it: CarriedItem| it@) =~= kept_upto(
                s,
                first as int,
                second as int,
                k as int,
            ).push(s[k as int]));
        }
        k = k + 1;
    }
    let item_name = name.clone();
    kept.push(CarriedItem { name, effect });
    proof {
        assert(kept@.map_values(|it: CarriedItem| it@) =~= kept_upto(
            s,
            first as int,
            second as int,
            n as int,
        ).push((item_name@, effect)));
    }
    *items = kept;
    CraftOutcome::Crafted { item_name, message }
}

/// Uses the item at `idx` of the inventory on a hero with stats `stats`: a
/// used-up item leaves the inventory (the others keep their order), an
/// upgrade kit stays where it was. Returns the item's name and what it did,
/// or `None` when `idx` names no item (the inventory is then unchanged).
pub fn use_inventory_item(items: &mut Vec<CarriedItem>, idx: usize, stats: Option<Stats>) -> (r: Option<
    (String, ItemUse),
>)
    requires
        idx < old(items)@.len() ==> item_fits(old(items)@[idx as int].effect, stats),
    ensures
        idx >= old(items)@.len() ==> r is None && final(items)@ == old(items)@,
        idx < old(items)@.len() ==> ({
            let it = old(items)@[idx as int];
            &&& r matches Some((name, u)) && name@ == it.name@ && u.stats == match stats {
                Some(s) => Some(stats_after_item(it.effect, s)),
                None => None,
            } && u.consumed == !(it.effect is UpgradeKit) && u.cleanses == (it.effect is Cleanse
                || it.effect is CleanseAndHeal)
            &&& if it.effect is UpgradeKit {
                final(items)@.map_values(|c: CarriedItem| c@) == old(items)@.map_values(|c: CarriedItem| c@)
            } else {
                final(items)@.map_values(|c: CarriedItem| c@) == old(items)@.map_values(|c: CarriedItem| c@).remove(
                    idx as int,
                )
            }
        }),
{
    if idx >= items.len() {
        return None;
    }
    let ghost before = items@.map_values(|c: CarriedItem| c@);
    let it = items.remove(idx);
    assert(items@.map_values(|c: CarriedItem| c@) =~= before.remove(idx as int));
    let used = use_item(it.effect, stats);
    let name = it.name.clone();
    if !used.consumed {
        items.insert(idx, it);
        assert(items@.map_values(|c: CarriedItem| c@) =~= before);
    }
    Some((name, used))
}

} // verus!
