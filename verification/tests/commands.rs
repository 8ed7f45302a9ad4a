use wuthering_terminal::action::{
    action_help, combo_from_name, direction_from_name, equipment_slot_from_name,
    resolve_command_token, weather_from_name, Action,
};
use wuthering_terminal::bindings::{default_bindings, default_commands, Key};
use wuthering_terminal::components::{ComboSkill, EquipmentSlot, SkillSlot, WeatherType};
use wuthering_terminal::geometry::{Direction, Position};
use wuthering_terminal::token::chars_of;

#[test]
fn inspect_tokens_name_a_cell() {
    assert_eq!(resolve_command_token("inspect:4,4"), Some(Action::Inspect(Position::new(4, 4))));
    assert_eq!(resolve_command_token("look:3,-2"), Some(Action::Inspect(Position::new(3, -2))));
    assert_eq!(
        resolve_command_token("cursor: 7 , +8 "),
        Some(Action::Inspect(Position::new(7, 8)))
    );
    assert_eq!(
        resolve_command_token("inspect:-32768,32767"),
        Some(Action::Inspect(Position::new(-32768, 32767)))
    );
}

#[test]
fn malformed_inspect_tokens_resolve_to_nothing() {
    assert_eq!(resolve_command_token("inspect:4"), None);
    assert_eq!(resolve_command_token("inspect:40000,1"), None);
    assert_eq!(resolve_command_token("inspect:a,1"), None);
    assert_eq!(resolve_command_token("inspect:,1"), None);
    assert_eq!(resolve_command_token("inspect:-,1"), None);
    assert_eq!(resolve_command_token("Inspect:1,1"), None);
}

#[test]
fn whole_word_tokens() {
    assert_eq!(resolve_command_token("inventory"), Some(Action::ToggleInventory));
    assert_eq!(resolve_command_token("items"), Some(Action::ToggleInventory));
    assert_eq!(resolve_command_token("map"), Some(Action::ToggleMinimap));
    assert_eq!(resolve_command_token("help"), Some(Action::ToggleHelp));
    assert_eq!(resolve_command_token("quicksave"), Some(Action::Save));
    assert_eq!(resolve_command_token("quickload"), Some(Action::Load));
    assert_eq!(resolve_command_token("auto_replay"), Some(Action::ToggleReplayAuto));
    assert_eq!(resolve_command_token("replay_step"), Some(Action::StepReplay));
    assert_eq!(resolve_command_token("next_floor"), Some(Action::NextFloor));
    assert_eq!(resolve_command_token("upgrades"), Some(Action::ToggleSkillTree));
    assert_eq!(resolve_command_token("view_prestige"), Some(Action::ViewPrestige));
    assert_eq!(resolve_command_token("lore"), Some(Action::ToggleBestiary));
    assert_eq!(resolve_command_token("lock"), Some(Action::ToggleCameraLock));
    assert_eq!(resolve_command_token("+"), Some(Action::ZoomIn));
    assert_eq!(resolve_command_token("zoomout"), Some(Action::ZoomOut));
    assert_eq!(resolve_command_token("-"), Some(Action::ZoomOut));
    assert_eq!(resolve_command_token(""), None);
    assert_eq!(resolve_command_token("north"), None);
    assert_eq!(resolve_command_token("Inventory"), None);
}

#[test]
fn upgrade_tokens() {
    assert_eq!(
        resolve_command_token("upgrade:s1_2"),
        Some(Action::UpgradeSkill(SkillSlot::Skill1, 2))
    );
    assert_eq!(
        resolve_command_token("upgrade:passive_255"),
        Some(Action::UpgradeSkill(SkillSlot::Passive, 255))
    );
    assert_eq!(resolve_command_token("upgrade:s1_256"), None);
    assert_eq!(resolve_command_token("upgrade:x_1"), None);
    assert_eq!(resolve_command_token("upgrade:s2"), None);
    assert_eq!(resolve_command_token("upgrade:S1_1"), None);
}

#[test]
fn item_tokens_count_from_one() {
    assert_eq!(resolve_command_token("craft:1,2"), Some(Action::CraftItem(0, 1)));
    assert_eq!(resolve_command_token("craft:0,3"), Some(Action::CraftItem(0, 2)));
    assert_eq!(resolve_command_token("craft:1, 2"), None);
    assert_eq!(resolve_command_token("use:+3"), Some(Action::UseItem(2)));
    assert_eq!(resolve_command_token("use:0"), Some(Action::UseItem(0)));
    assert_eq!(resolve_command_token("use:-1"), None);
    assert_eq!(resolve_command_token("use:"), None);
}

#[test]
fn lowercased_argument_tokens() {
    assert_eq!(
        resolve_command_token("combo:BladeStorm"),
        Some(Action::ComboSkill(ComboSkill::BladeStorm))
    );
    assert_eq!(
        resolve_command_token("combo:trinitystrike"),
        Some(Action::ComboSkill(ComboSkill::TrinityStrike))
    );
    assert_eq!(resolve_command_token("combo:blade_storm"), None);
    assert_eq!(
        resolve_command_token("equip_upgrade:WEAPON"),
        Some(Action::UpgradeEquipment(EquipmentSlot::Weapon))
    );
    assert_eq!(resolve_command_token("pan:Up"), Some(Action::PanCamera(Direction::North)));
    assert_eq!(resolve_command_token("pan:left"), Some(Action::PanCamera(Direction::West)));
    assert_eq!(resolve_command_token("pan:sideways"), None);
    assert_eq!(
        resolve_command_token("weather:Storm"),
        Some(Action::ChangeWeather(WeatherType::LightningStorm))
    );
    assert_eq!(
        resolve_command_token("weather:snow"),
        Some(Action::ChangeWeather(WeatherType::Snowing))
    );
    assert_eq!(resolve_command_token("weather:hail"), None);
}

#[test]
fn names_after_lowercasing() {
    assert_eq!(combo_from_name("holysmite"), Some(ComboSkill::HolySmite));
    assert_eq!(combo_from_name("HolySmite"), None);
    assert_eq!(equipment_slot_from_name("accessory"), Some(EquipmentSlot::Accessory));
    assert_eq!(equipment_slot_from_name("ring"), None);
    assert_eq!(direction_from_name("down"), Some(Direction::South));
    assert_eq!(direction_from_name("e"), Some(Direction::East));
    assert_eq!(weather_from_name("rainy"), Some(WeatherType::Rainy));
    assert_eq!(weather_from_name("Rainy"), None);
}

#[test]
fn move_actions_have_directions() {
    assert_eq!(Action::MoveNorth.direction(), Some(Direction::North));
    assert_eq!(Action::MoveSouth.direction(), Some(Direction::South));
    assert_eq!(Action::MoveEast.direction(), Some(Direction::East));
    assert_eq!(Action::MoveWest.direction(), Some(Direction::West));
    assert_eq!(Action::Wait.direction(), None);
    assert_eq!(Action::PanCamera(Direction::North).direction(), None);
}

#[test]
fn help_lists_every_command_line() {
    let help = action_help();
    assert_eq!(help.len(), 33);
    assert_eq!(help[0], "n / north       - Move cursor north");
    assert_eq!(help[13], "inspect:x,y     - Inspect coordinate (x,y)");
    assert_eq!(help[32], "quit / q        - Exit (meta)");
}

#[test]
fn characters_of_text() {
    assert_eq!(chars_of("a\u{e9}b"), vec!['a', '\u{e9}', 'b']);
    assert!(chars_of("").is_empty());
}

#[test]
fn default_key_map() {
    let keys = default_bindings();
    assert_eq!(keys.len(), 69);
    assert_eq!(keys[0], (Key::Up, Action::MoveNorth));
    assert!(keys.contains(&(Key::F(5), Action::Save)));
    assert!(keys.contains(&(Key::Char('4'), Action::SwapCharacter(0))));
    assert!(keys.contains(&(
        Key::Modified('\u{2191}', false, false, true),
        Action::PanCamera(Direction::North)
    )));
    assert_eq!(keys[68], (Key::Char('J'), Action::ToggleBestiary));
}

#[test]
fn default_command_words_and_glyphs() {
    let table = default_commands();
    assert_eq!(table.names.len(), 37);
    assert_eq!(table.glyphs.len(), 26);
    assert_eq!(table.names[0], ("north", Action::MoveNorth));
    assert!(table.names.contains(&("swap3", Action::SwapCharacter(2))));
    assert!(table.names.contains(&("lore", Action::ToggleBestiary)));
    assert_eq!(table.glyphs[0], ('n', Action::MoveNorth));
    assert!(table.glyphs.contains(&(',', Action::ClearCursor)));
    assert_eq!(table.glyphs[25], ('j', Action::ToggleBestiary));
}

#[test]
fn help_text_commands_resolve() {
    assert_eq!(resolve_command_token("skilltree"), Some(Action::ToggleSkillTree));
    assert_eq!(
        resolve_command_token("upgrade:0_1"),
        Some(Action::UpgradeSkill(SkillSlot::Skill1, 1))
    );
    assert_eq!(
        resolve_command_token("upgrade:3_2"),
        Some(Action::UpgradeSkill(SkillSlot::Passive, 2))
    );
    assert_eq!(resolve_command_token("upgrade:4_1"), None);
    assert_eq!(
        resolve_command_token("combo:BLADESTORM"),
        Some(Action::ComboSkill(ComboSkill::BladeStorm))
    );
}
