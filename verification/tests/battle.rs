use wuthering_terminal::action::Action;
use wuthering_terminal::battle::{apply_step, pay_reroll, upgrade_selected_equipment, BattleState, StepOutcome};
use wuthering_terminal::confirm::{confirm_step, ConfirmOutcome};
use wuthering_terminal::battle_preview::UnitRecord;
use wuthering_terminal::components::{
    BossPhase, CharacterClass, EquipmentSlot, EquippedItems, Fatigue, GameState, ItemEffect, Morale, Outcome, Stats, TargetingMode,
    Team, TurnPhase, UIState,
};
use wuthering_terminal::crafting::CarriedItem;
use wuthering_terminal::equipment::iron_sword;
use wuthering_terminal::floors::{descend_check, StairsCheck};
use wuthering_terminal::outcome::ActionOutcome;
use wuthering_terminal::map::{TacticalMap, Tile};
use wuthering_terminal::geometry::{Entity, Position};

fn battle() -> BattleState {
    let hero = UnitRecord {
        entity: Entity { index: 1, generation: 0 },
        position: Some(Position::new(2, 2)),
        team: Some(Team::Player),
        class: Some(CharacterClass::Warrior),
        stats: Some(Stats { hp: 40, max_hp: 80, atk: 5, def: 5, spd: 5, ap: 1, max_ap: 3, level: 1, xp: 0 }),
        archetype: None,
    };
    BattleState {
        game: GameState {
            turn: 1,
            phase: TurnPhase::Player,
            outcome: Outcome::Playing,
            cursor: Position::new(2, 2),
            selected_entity: Some(hero.entity),
            concert_energy: 0,
            targeting: TargetingMode::Inactive,
            boss_phase: BossPhase::Phase1,
            ui_state: UIState::Normal,
            show_perf: false,
            auto_battle: false,
            is_recording: false,
            show_minimap: false,
            combo_count: 0,
            floor: 1,
            log_scroll_offset: 0,
            selected_save_slot: 0,
            show_threat_map: false,
        },
        map_width: 6,
        map_height: 6,
        units: vec![hero],
        fatigue: vec![Some(Fatigue { value: 30, max: 100, actions_taken: 2 })],
        morale: vec![Some(Morale { value: 60, max: 100 })],
        inventories: vec![vec![
            CarriedItem { name: "Healing Potion".to_string(), effect: ItemEffect::Heal(30) },
            CarriedItem { name: "Healing Potion".to_string(), effect: ItemEffect::Heal(30) },
        ]],
    }
}

fn lines(o: StepOutcome) -> Vec<String> {
    match o {
        StepOutcome::Done { messages } => messages,
        other => panic!("unexpected {:?}", other),
    }
}

#[test]
fn a_step_through_the_inventory() {
    let mut b = battle();
    assert!(lines(apply_step(&mut b, Action::MoveEast, false).0).is_empty());
    assert_eq!(b.game.cursor, Position::new(3, 2));
    assert_eq!(
        lines(apply_step(&mut b, Action::UseItem(0), false).0),
        vec!["Inventory must be open to use items!".to_string()]
    );
    assert_eq!(
        lines(apply_step(&mut b, Action::ToggleInventory, false).0),
        vec!["Inventory opened. Press [1-9] to use item.".to_string()]
    );
    assert_eq!(
        lines(apply_step(&mut b, Action::Skill2, false).0),
        vec!["Used Healing Potion!".to_string(), "Healed for 30 HP.".to_string()]
    );
    assert_eq!(b.units[0].stats.unwrap().hp, 70);
    assert_eq!(b.inventories[0].len(), 1);
    assert_eq!(b.game.ui_state, UIState::Normal);
    assert_eq!(
        lines(apply_step(&mut b, Action::CraftItem(0, 1), false).0),
        vec!["Invalid crafting slots chosen!".to_string()]
    );
    assert!(matches!(apply_step(&mut b, Action::Confirm, false).0, StepOutcome::ForWorld(Action::Confirm)));
    assert!(matches!(apply_step(&mut b, Action::Confirm, true).0, StepOutcome::Dialogue));
}

#[test]
fn crafting_and_resting_in_a_step() {
    let mut b = battle();
    assert_eq!(
        lines(apply_step(&mut b, Action::CraftItem(0, 1), false).0),
        vec!["Alchemy success! Crafted Mega Potion from Healing Potion and Healing Potion.".to_string()]
    );
    assert_eq!(b.inventories[0].len(), 1);
    assert_eq!(b.inventories[0][0].name, "Mega Potion");
    assert_eq!(lines(apply_step(&mut b, Action::Rest, false).0), vec!["Kael rests and recovers stamina.".to_string()]);
    assert_eq!(b.fatigue[0].unwrap().value, 10);
    assert_eq!(b.morale[0].unwrap().value, 65);
    assert_eq!(b.game.selected_entity, None);
    assert_eq!(
        lines(apply_step(&mut b, Action::Rest, false).0),
        vec!["Select a character first to rest!".to_string()]
    );
}

#[test]
fn a_demoralized_hero_cannot_act() {
    let mut b = battle();
    b.morale[0] = Some(Morale { value: 0, max: 100 });
    assert_eq!(
        lines(apply_step(&mut b, Action::Confirm, false).0),
        vec!["Kael is too demoralized to act!".to_string()]
    );
    b.game.outcome = Outcome::Defeat;
    assert!(matches!(apply_step(&mut b, Action::Confirm, false).0, StepOutcome::Ignored));
}

fn foe(index: u32, x: i16, y: i16, hp: i32) -> UnitRecord {
    UnitRecord {
        entity: Entity { index, generation: 0 },
        position: Some(Position::new(x, y)),
        team: Some(Team::Enemy),
        class: Some(CharacterClass::ShadowStalker),
        stats: Some(Stats { hp, max_hp: 40, atk: 4, def: 2, spd: 3, ap: 2, max_ap: 2, level: 1, xp: 0 }),
        archetype: None,
    }
}

fn said(o: ConfirmOutcome) -> Vec<String> {
    match o {
        ConfirmOutcome::Done { messages } => messages,
        other => panic!("unexpected {:?}", other),
    }
}

fn with_extras(mut b: BattleState, extra: Vec<UnitRecord>) -> BattleState {
    for u in extra {
        b.units.push(u);
        b.fatigue.push(None);
        b.morale.push(None);
        b.inventories.push(Vec::new());
    }
    b
}

#[test]
fn confirm_attacks_an_enemy_in_reach() {
    let mut b = with_extras(battle(), vec![foe(5, 3, 2, 30), foe(6, 5, 5, 30)]);
    b.game.cursor = Position::new(3, 2);
    b.game.concert_energy = 90;
    match confirm_step(&mut b, false) {
        ConfirmOutcome::Attack { attacker, target, base_damage, after } => {
            assert_eq!((attacker, target, base_damage), (0, 1, 3));
            assert_eq!(after, vec!["Concert Energy: 100/100".to_string()]);
        }
        other => panic!("unexpected {:?}", other),
    }
    assert_eq!(b.units[0].stats.unwrap().ap, 0);
    assert_eq!(b.game.selected_entity, None);
    assert_eq!(b.game.concert_energy, 100);
    let mut c = with_extras(battle(), vec![foe(5, 5, 5, 30)]);
    c.game.cursor = Position::new(5, 5);
    assert_eq!(said(confirm_step(&mut c, false)), vec!["Target is out of range!".to_string()]);
    c.game.cursor = Position::new(4, 4);
    assert!(matches!(confirm_step(&mut c, false), ConfirmOutcome::MoveRequested { mover: 0 }));
    c.game.cursor = Position::new(2, 2);
    assert_eq!(said(confirm_step(&mut c, false)), vec!["Selection cleared.".to_string()]);
    assert_eq!(c.game.selected_entity, None);
    match confirm_step(&mut c, false) {
        ConfirmOutcome::Picked { messages } => {
            assert_eq!(messages, vec!["Selected Kael (AP: 1/3)".to_string()])
        }
        other => panic!("unexpected {:?}", other),
    }
    assert_eq!(c.game.selected_entity, Some(Entity { index: 1, generation: 0 }));
}

#[test]
fn confirm_casts_a_targeted_skill() {
    let mut b = battle();
    b.units[0].stats = Some(Stats { ap: 3, ..b.units[0].stats.unwrap() });
    b.game.targeting = TargetingMode::Skill2;
    b.game.cursor = Position::new(4, 3);
    match confirm_step(&mut b, true) {
        ConfirmOutcome::CastSkill { caster, class, skill, target, power, is_aoe, after } => {
            assert_eq!((caster, class, skill, target), (0, CharacterClass::Warrior, TargetingMode::Skill2, Position::new(4, 3)));
            assert_eq!((power, is_aoe), (50, true));
            assert_eq!(after, vec!["Selection cleared.".to_string()]);
        }
        other => panic!("unexpected {:?}", other),
    }
    assert_eq!(b.units[0].stats.unwrap().ap, 1);
    assert_eq!(b.game.targeting, TargetingMode::Inactive);
    let mut c = battle();
    c.game.targeting = TargetingMode::Skill1;
    c.game.cursor = Position::new(5, 5);
    assert_eq!(said(confirm_step(&mut c, false)), vec!["Target is out of skill range!".to_string()]);
    c.game.cursor = Position::new(3, 2);
    assert_eq!(said(confirm_step(&mut c, false)), vec!["Not enough AP to cast this skill!".to_string()]);
    assert_eq!(c.game.targeting, TargetingMode::Inactive);
}

#[test]
fn a_healer_heals_a_hero_nearby() {
    let mut b = battle();
    b.units[0].class = Some(CharacterClass::Healer);
    let ally = UnitRecord {
        entity: Entity { index: 2, generation: 0 },
        position: Some(Position::new(3, 3)),
        team: Some(Team::Player),
        class: Some(CharacterClass::Mage),
        stats: Some(Stats { hp: 20, max_hp: 25, atk: 5, def: 1, spd: 3, ap: 0, max_ap: 3, level: 1, xp: 0 }),
        archetype: None,
    };
    let mut b = with_extras(b, vec![ally]);
    b.game.cursor = Position::new(3, 3);
    assert_eq!(
        said(confirm_step(&mut b, false)),
        vec!["Mira healed Lyra for 10 HP! (Target HP: 25)".to_string(), "Concert Energy: 15/100".to_string()]
    );
    assert_eq!(b.units[1].stats.unwrap().hp, 25);
    assert_eq!(b.units[0].stats.unwrap().ap, 0);
}

fn kit() -> CarriedItem {
    CarriedItem { name: "Upgrade Kit".to_string(), effect: ItemEffect::UpgradeKit }
}

#[test]
fn an_upgrade_kit_raises_the_weapon() {
    let mut b = battle();
    b.inventories[0].push(kit());
    let mut worn = vec![EquippedItems { weapon: Some(iron_sword()), armor: None, accessory: None }];
    assert_eq!(
        lines(upgrade_selected_equipment(&mut b, &mut worn, EquipmentSlot::Weapon)),
        vec!["Upgraded Iron Sword +1.".to_string()]
    );
    let sword = worn[0].weapon.clone().unwrap();
    assert_eq!(sword.upgrade_level, 1);
    assert_eq!(sword.atk_bonus, 6);
    assert_eq!(b.inventories[0].len(), 2);
    assert!(b.inventories[0].iter().all(|it| it.effect != ItemEffect::UpgradeKit));
}

#[test]
fn an_upgrade_needs_a_kit_a_hero_and_an_item() {
    let mut b = battle();
    let mut worn = vec![EquippedItems { weapon: Some(iron_sword()), armor: None, accessory: None }];
    assert_eq!(
        lines(upgrade_selected_equipment(&mut b, &mut worn, EquipmentSlot::Weapon)),
        vec!["No Upgrade Kit available!".to_string()]
    );
    b.inventories[0].push(kit());
    assert_eq!(
        lines(upgrade_selected_equipment(&mut b, &mut worn, EquipmentSlot::Armor)),
        vec!["No upgradeable equipment in that slot!".to_string()]
    );
    for level in 1..=3 {
        b.inventories[0].push(kit());
        assert_eq!(
            lines(upgrade_selected_equipment(&mut b, &mut worn, EquipmentSlot::Weapon)),
            vec![format!("Upgraded Iron Sword +{}.", level)]
        );
    }
    assert_eq!(
        lines(upgrade_selected_equipment(&mut b, &mut worn, EquipmentSlot::Weapon)),
        vec!["No upgradeable equipment in that slot!".to_string()]
    );
    assert_eq!(worn[0].weapon.clone().unwrap().upgrade_level, 3);
    b.game.selected_entity = None;
    assert_eq!(
        lines(upgrade_selected_equipment(&mut b, &mut worn, EquipmentSlot::Weapon)),
        vec!["Select a character first to upgrade equipment!".to_string()]
    );
}

#[test]
fn a_reroll_costs_one_action_point() {
    let mut b = battle();
    match apply_step(&mut b, Action::RerollModifiers, false).0 {
        StepOutcome::RerollPaid { messages } => {
            assert_eq!(messages, vec!["[fg:FF00FF]Rerolling floor modifiers (-1 AP)...[/fg]".to_string()])
        },
        other => panic!("unexpected {:?}", other),
    }
    assert_eq!(b.units[0].stats.unwrap().ap, 0);
    assert_eq!(
        lines(pay_reroll(&mut b)),
        vec!["Not enough AP to reroll modifiers! (Costs 1 AP)".to_string()]
    );
    assert_eq!(b.units[0].stats.unwrap().ap, 0);
    b.game.selected_entity = None;
    assert_eq!(lines(pay_reroll(&mut b)), vec!["Select a character first to reroll modifiers!".to_string()]);
}

fn mage() -> UnitRecord {
    UnitRecord {
        entity: Entity { index: 5, generation: 0 },
        position: Some(Position::new(4, 4)),
        team: Some(Team::Player),
        class: Some(CharacterClass::Mage),
        stats: Some(Stats { hp: 30, max_hp: 50, atk: 8, def: 2, spd: 6, ap: 2, max_ap: 3, level: 1, xp: 0 }),
        archetype: None,
    }
}

#[test]
fn heroes_are_picked_by_their_place_in_handle_order() {
    let mut b = with_extras(battle(), vec![mage(), foe(3, 1, 1, 20)]);
    assert_eq!(
        lines(apply_step(&mut b, Action::SwapCharacter(1), false).0),
        vec!["Selected character: Lyra.".to_string()]
    );
    assert_eq!(b.game.selected_entity, Some(Entity { index: 5, generation: 0 }));
    assert_eq!(b.game.cursor, Position::new(4, 4));
    assert_eq!(
        lines(apply_step(&mut b, Action::SwapCharacter(2), false).0),
        vec!["Invalid character index.".to_string()]
    );
    assert_eq!(b.game.selected_entity, Some(Entity { index: 5, generation: 0 }));
}

#[test]
fn cycling_wraps_round_the_ready_heroes() {
    let mut b = with_extras(battle(), vec![mage(), foe(3, 1, 1, 20)]);
    assert_eq!(
        lines(apply_step(&mut b, Action::NextCharacter, false).0),
        vec!["Selected Lyra (AP: 2/3)".to_string()]
    );
    assert_eq!(b.game.cursor, Position::new(4, 4));
    assert_eq!(
        lines(apply_step(&mut b, Action::NextCharacter, false).0),
        vec!["Selected Kael (AP: 1/3)".to_string()]
    );
    assert_eq!(b.game.selected_entity, Some(Entity { index: 1, generation: 0 }));
    assert_eq!(
        lines(apply_step(&mut b, Action::PrevCharacter, false).0),
        vec!["Selected Lyra (AP: 2/3)".to_string()]
    );
    b.units[1].stats = Some(Stats { ap: 0, ..b.units[1].stats.unwrap() });
    assert_eq!(
        lines(apply_step(&mut b, Action::PrevCharacter, false).0),
        vec!["Selected Kael (AP: 1/3)".to_string()]
    );
    b.units[0].stats = Some(Stats { ap: 0, ..b.units[0].stats.unwrap() });
    assert!(lines(apply_step(&mut b, Action::NextCharacter, false).0).is_empty());
    assert_eq!(b.game.selected_entity, Some(Entity { index: 1, generation: 0 }));
}

#[test]
fn the_third_skill_key_aims_taunt_or_calls_a_swap() {
    let mut b = with_extras(battle(), vec![mage()]);
    assert_eq!(
        lines(apply_step(&mut b, Action::Skill3, false).0),
        vec!["Taunt Shield targeted! Use cursor to select target (self) and press Confirm.".to_string()]
    );
    assert_eq!(b.game.targeting, TargetingMode::Skill3);
    b.game.concert_energy = 100;
    assert!(matches!(apply_step(&mut b, Action::Skill3, false).0, StepOutcome::SwapCalled { active: 0 }));
    b.game.concert_energy = 50;
    b.game.selected_entity = Some(Entity { index: 5, generation: 0 });
    assert_eq!(
        lines(apply_step(&mut b, Action::Skill3, false).0),
        vec!["Concert Energy not full (50/100)!".to_string()]
    );
    b.game.selected_entity = None;
    assert_eq!(lines(apply_step(&mut b, Action::Skill3, false).0), vec!["Select a character first!".to_string()]);
}

#[test]
fn cancel_drops_targeting_then_the_selection() {
    let mut b = battle();
    assert_eq!(
        lines(apply_step(&mut b, Action::Skill1, false).0),
        vec!["Skill 1 targeted! Use cursor to select target and press Confirm.".to_string()]
    );
    assert_eq!(b.game.targeting, TargetingMode::Skill1);
    assert_eq!(lines(apply_step(&mut b, Action::Cancel, false).0), vec!["Skill targeting canceled.".to_string()]);
    assert_eq!(b.game.targeting, TargetingMode::Inactive);
    assert_eq!(lines(apply_step(&mut b, Action::Cancel, false).0), vec!["Selection cleared.".to_string()]);
    assert_eq!(b.game.selected_entity, None);
    assert!(lines(apply_step(&mut b, Action::Cancel, false).0).is_empty());
    assert_eq!(
        lines(apply_step(&mut b, Action::Skill2, false).0),
        vec!["Select a character first to cast a skill!".to_string()]
    );
}

#[test]
fn inspecting_moves_the_cursor_only_onto_the_map() {
    let mut b = battle();
    assert!(lines(apply_step(&mut b, Action::Inspect(Position::new(5, 5)), false).0).is_empty());
    assert_eq!(b.game.cursor, Position::new(5, 5));
    assert!(lines(apply_step(&mut b, Action::Inspect(Position::new(6, 0)), false).0).is_empty());
    assert_eq!(b.game.cursor, Position::new(5, 5));
    assert!(lines(apply_step(&mut b, Action::Inspect(Position::new(-1, 2)), false).0).is_empty());
    assert_eq!(b.game.cursor, Position::new(5, 5));
}

#[test]
fn the_stairs_take_a_hero_standing_on_them() {
    let mut b = battle();
    let mut map = TacticalMap::new(6, 6);
    match descend_check(&b, &map) {
        StairsCheck::Refused { message } => assert_eq!(message, "You must stand on a staircase to descend!"),
        other => panic!("unexpected {:?}", other),
    }
    map.set_tile(Position::new(2, 2), Tile::Stairs);
    assert!(matches!(descend_check(&b, &map), StairsCheck::Descend));
    b.game.selected_entity = None;
    match descend_check(&b, &map) {
        StairsCheck::Refused { message } => assert_eq!(message, "Select a character first!"),
        other => panic!("unexpected {:?}", other),
    }
}

#[test]
fn each_step_records_its_outcome() {
    let mut b = battle();
    let (_, rec) = apply_step(&mut b, Action::UseItem(0), false);
    assert_eq!(rec, ActionOutcome::Failed { reason: "Inventory must be open to use items".to_string() });
    let (_, rec) = apply_step(&mut b, Action::ToggleInventory, false);
    assert_eq!(rec, ActionOutcome::ToggleChanged { name: "inventory".to_string(), enabled: true });
    let (_, rec) = apply_step(&mut b, Action::UseItem(0), false);
    assert_eq!(rec, ActionOutcome::ItemUsed { name: "Healing Potion".to_string() });
    let (_, rec) = apply_step(&mut b, Action::Rest, false);
    assert_eq!(
        rec,
        ActionOutcome::Rested { entity: "Kael".to_string(), fatigue_recovered: 20, morale_gained: 5 }
    );
    let (_, rec) = apply_step(&mut b, Action::Rest, false);
    assert_eq!(rec, ActionOutcome::Failed { reason: "Select a character first".to_string() });
    let (_, rec) = apply_step(&mut b, Action::MoveNorth, false);
    assert_eq!(rec, ActionOutcome::NoOp);
}
