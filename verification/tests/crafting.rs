use wuthering_terminal::components::{ItemEffect, ShieldType};
use wuthering_terminal::crafting::{
    craft_items, craft_result, use_inventory_item, CarriedItem, CraftOutcome,
};

fn item(name: &str, effect: ItemEffect) -> CarriedItem {
    CarriedItem { name: name.to_string(), effect }
}

#[test]
fn recipes_by_name_in_either_order() {
    assert_eq!(
        craft_result("Healing Potion", "Healing Potion"),
        Some(("Mega Potion".to_string(), ItemEffect::Heal(75)))
    );
    assert_eq!(
        craft_result("Energy Elixir", "Energy Elixir"),
        Some(("Mega Energy Elixir".to_string(), ItemEffect::ReplenishAp(4)))
    );
    assert_eq!(
        craft_result("Energy Elixir", "Healing Potion"),
        Some(("Elixir of Life".to_string(), ItemEffect::Combined(40, 2)))
    );
    assert_eq!(
        craft_result("Cleanse Remedy", "Healing Potion"),
        Some(("Aegis Elixir".to_string(), ItemEffect::RestoreShield(ShieldType::Physical, 30)))
    );
    assert_eq!(
        craft_result("Mega Potion", "Cleanse Remedy"),
        Some(("Divine Remedy".to_string(), ItemEffect::CleanseAndHeal(80)))
    );
    assert_eq!(
        craft_result("Mega Energy Elixir", "Mega Potion"),
        Some(("Elixir of the Gods".to_string(), ItemEffect::Combined(100, 4)))
    );
    assert_eq!(craft_result("Cleanse Remedy", "Cleanse Remedy"), None);
    assert_eq!(craft_result("healing potion", "Healing Potion"), None);
}

#[test]
fn crafting_replaces_two_items_with_one() {
    let mut inv = vec![
        item("Healing Potion", ItemEffect::Heal(30)),
        item("Cleanse Remedy", ItemEffect::Cleanse),
        item("Healing Potion", ItemEffect::Heal(30)),
    ];
    match craft_items(&mut inv, 2, 0) {
        CraftOutcome::Crafted { item_name, message } => {
            assert_eq!(item_name, "Mega Potion");
            assert_eq!(message, "Alchemy success! Crafted Mega Potion from Healing Potion and Healing Potion.");
        }
        other => panic!("unexpected {:?}", other),
    }
    assert_eq!(inv.len(), 2);
    assert_eq!(inv[0].name, "Cleanse Remedy");
    assert_eq!(inv[1].name, "Mega Potion");
    assert_eq!(inv[1].effect, ItemEffect::Heal(75));
    assert!(matches!(craft_items(&mut inv, 0, 0), CraftOutcome::InvalidSlots));
    assert!(matches!(craft_items(&mut inv, 0, 5), CraftOutcome::InvalidSlots));
    let mut plain = vec![item("Cleanse Remedy", ItemEffect::Cleanse), item("Cleanse Remedy", ItemEffect::Cleanse)];
    assert!(matches!(craft_items(&mut plain, 0, 1), CraftOutcome::NoRecipe));
    assert_eq!(plain.len(), 2);
}

#[test]
fn using_items_from_the_inventory() {
    use_items_case();
}

fn use_items_case() {
    let hero = wuthering_terminal::components::Stats {
        hp: 50, max_hp: 80, atk: 5, def: 5, spd: 5, ap: 1, max_ap: 3, level: 1, xp: 0,
    };
    let mut inv = vec![
        item("Upgrade Kit", ItemEffect::UpgradeKit),
        item("Healing Potion", ItemEffect::Heal(30)),
        item("Energy Elixir", ItemEffect::ReplenishAp(2)),
    ];
    let (name, used) = use_inventory_item(&mut inv, 1, Some(hero)).unwrap();
    assert_eq!(name, "Healing Potion");
    assert_eq!(used.stats.unwrap().hp, 80);
    assert_eq!(inv.len(), 2);
    assert_eq!(inv[1].name, "Energy Elixir");
    let (kit, used) = use_inventory_item(&mut inv, 0, Some(hero)).unwrap();
    assert_eq!(kit, "Upgrade Kit");
    assert!(!used.consumed);
    assert_eq!(inv.len(), 2);
    assert_eq!(inv[0].name, "Upgrade Kit");
    assert!(use_inventory_item(&mut inv, 7, Some(hero)).is_none());
}
