use wuthering_terminal::components::{
    ActiveHazards, ComboSkill, ComboSkillDef, Destructible, ElementalStatus, FloorModifier,
    HazardType, PrestigeClass, Stats, WeatherType, default_floor, default_true, get_class_name,
    weather_display_name, CharacterClass,
};
use wuthering_terminal::geometry::{manhattan_distance, Entity, Position};
use wuthering_terminal::hazards::{tile_to_hazard, HazardSystem};
use wuthering_terminal::map::{MapError, TacticalMap, Tile};
use wuthering_terminal::text::{push_digits, push_int, push_str};

#[test]
fn map_from_text_reads_rows_and_pads_with_grass() {
    let map = TacticalMap::from_ascii("#~^\n*>\n,.#x\n");
    assert_eq!(map.width, 3);
    assert_eq!(map.height, 4);
    assert_eq!(map.tile(0, 0), Tile::Wall);
    assert_eq!(map.tile(1, 0), Tile::Water);
    assert_eq!(map.tile(2, 0), Tile::Lava);
    assert_eq!(map.tile(0, 1), Tile::Ice);
    assert_eq!(map.tile(1, 1), Tile::Stairs);
    assert_eq!(map.tile(2, 1), Tile::Grass);
    assert_eq!(map.tile(0, 2), Tile::Mud);
    assert_eq!(map.tile(2, 2), Tile::Wall);
    assert_eq!(map.tile(0, 3), Tile::Grass);
    assert_eq!(map.tile(3, 0), Tile::Wall);
    assert_eq!(map.tile(-1, 0), Tile::Wall);
    let empty = TacticalMap::from_ascii("");
    assert_eq!((empty.width, empty.height), (0, 0));
}

#[test]
fn map_reads_back_what_was_written() {
    let mut map = TacticalMap::new(4, 3);
    assert_eq!(map.tiles.len(), 12);
    map.set_tile(Position::new(2, 1), Tile::Lava);
    assert_eq!(map.tile(2, 1), Tile::Lava);
    assert_eq!(map.tile(1, 2), Tile::Grass);
    map.set_tile(Position::new(9, 9), Tile::Lava);
    assert_eq!(map.tiles.iter().filter(|t| **t == Tile::Lava).count(), 1);
    assert!(!map.is_walkable(Position::new(4, 0)));
    assert!(map.is_walkable(Position::new(2, 1)));
    assert_eq!(map.movement_cost(Position::new(2, 1)), 2);
    map.set_tile(Position::new(0, 0), Tile::Water);
    assert_eq!(map.movement_cost_with_weather(Position::new(0, 0), WeatherType::Rainy), 1);
    map.set_tile(Position::new(1, 0), Tile::Ice);
    assert_eq!(map.movement_cost_with_weather(Position::new(1, 0), WeatherType::Snowing), 0);
    map.set_tile(Position::new(3, 0), Tile::Mud);
    assert_eq!(map.movement_cost(Position::new(3, 0)), 3);
}

fn some_stats() -> Stats {
    Stats { hp: 50, max_hp: 60, atk: 10, def: 5, spd: 5, ap: 3, max_ap: 3, level: 1, xp: 0 }
}

#[test]
fn hazards_of_a_map_are_listed_row_by_row() {
    let mut map = TacticalMap::new(3, 2);
    map.set_tile(Position::new(2, 0), Tile::SpikeTrap);
    map.set_tile(Position::new(0, 1), Tile::HealingSpring);
    map.set_tile(Position::new(1, 1), Tile::Lava);
    let hz = HazardSystem::initialize_hazards(&map);
    let kinds: Vec<(Position, HazardType)> = hz.hazards.iter().map(|(p, e)| (*p, e.hazard_type)).collect();
    assert_eq!(
        kinds,
        vec![
            (Position::new(2, 0), HazardType::SpikeTrap),
            (Position::new(0, 1), HazardType::HealingSpring),
            (Position::new(1, 1), HazardType::FireTile),
        ]
    );
    assert!(HazardSystem::has_hazard(&hz, Position::new(1, 1), HazardType::FireTile));
    assert!(!HazardSystem::has_hazard(&hz, Position::new(1, 1), HazardType::SpikeTrap));
}

#[test]
fn hazard_table() {
    assert_eq!(
        tile_to_hazard(Tile::PoisonCloud),
        Some((HazardType::PoisonCloud, 5, 0, Some(ElementalStatus::Poison { duration: 3 }), -1))
    );
    assert_eq!(tile_to_hazard(Tile::SpikeTrap), Some((HazardType::SpikeTrap, 15, 0, None, 1)));
    assert_eq!(tile_to_hazard(Tile::Grass), None);
    assert_eq!(tile_to_hazard(Tile::SteamVent), None);
}

#[test]
fn spike_traps_go_off_once_and_are_cleaned_up() {
    let mut map = TacticalMap::new(3, 3);
    map.set_tile(Position::new(1, 1), Tile::SpikeTrap);
    let mut hz = HazardSystem::initialize_hazards(&map);
    let mut stats = some_stats();
    let res = HazardSystem::trigger_hazard(&hz, Position::new(1, 1), &stats).unwrap();
    assert_eq!(res.damage, 15);
    assert_eq!(res.message, "Stepped on a spike trap!");
    assert!(!res.should_destroy_tile);
    HazardSystem::apply_hazard_to_entity(&mut stats, &mut map, &mut hz, &res, Position::new(1, 1));
    assert_eq!(stats.hp, 35);
    assert_eq!(hz.hazards[0].1.trigger_count, 0);
    assert!(HazardSystem::trigger_hazard(&hz, Position::new(1, 1), &stats).is_none());
    HazardSystem::cleanup_hazards(&mut hz);
    assert!(hz.hazards.is_empty());
    assert!(HazardSystem::trigger_hazard(&hz, Position::new(0, 0), &stats).is_none());
}

#[test]
fn healing_is_capped_and_cracked_floors_cave_in() {
    let mut map = TacticalMap::new(3, 3);
    map.set_tile(Position::new(0, 0), Tile::HealingSpring);
    map.set_tile(Position::new(2, 2), Tile::CrackedFloor);
    let mut hz = HazardSystem::initialize_hazards(&map);
    let mut stats = some_stats();
    let heal = HazardSystem::trigger_hazard(&hz, Position::new(0, 0), &stats).unwrap();
    HazardSystem::apply_hazard_to_entity(&mut stats, &mut map, &mut hz, &heal, Position::new(0, 0));
    assert_eq!(stats.hp, 60);
    assert_eq!(hz.hazards[0].1.trigger_count, -1);
    let crack = HazardSystem::trigger_hazard(&hz, Position::new(2, 2), &stats).unwrap();
    assert!(crack.should_destroy_tile);
    HazardSystem::apply_hazard_to_entity(&mut stats, &mut map, &mut hz, &crack, Position::new(2, 2));
    assert_eq!(map.tile(2, 2), Tile::Wall);
    assert!(!HazardSystem::process_cracked_floor(&mut map, Position::new(2, 2)));
    HazardSystem::cleanup_hazards(&mut hz);
    assert_eq!(hz.hazards.len(), 1);
}

#[test]
fn cleanup_keeps_permanent_hazards_in_order() {
    let mut map = TacticalMap::new(4, 1);
    map.set_tile(Position::new(0, 0), Tile::ThornBush);
    map.set_tile(Position::new(1, 0), Tile::SpikeTrap);
    map.set_tile(Position::new(2, 0), Tile::Ice);
    let mut hz = HazardSystem::initialize_hazards(&map);
    HazardSystem::decrement_trigger(&mut hz, Position::new(1, 0));
    HazardSystem::decrement_trigger(&mut hz, Position::new(0, 0));
    HazardSystem::cleanup_hazards(&mut hz);
    let kinds: Vec<HazardType> = hz.hazards.iter().map(|(_, e)| e.hazard_type).collect();
    assert_eq!(kinds, vec![HazardType::ThornBush, HazardType::IceTile]);
    let mut empty = ActiveHazards::default();
    HazardSystem::cleanup_hazards(&mut empty);
    assert!(empty.hazards.is_empty());
}

#[test]
fn destroyed_objects_leave_their_replacement() {
    let mut map = TacticalMap::new(3, 1);
    let mut objects = vec![
        (Position::new(0, 0), Destructible { hp: 0, max_hp: 5, destroyed: false, replacement_tile: Tile::Mud }),
        (Position::new(1, 0), Destructible { hp: 3, max_hp: 5, destroyed: false, replacement_tile: Tile::Water }),
        (Position::new(2, 0), Destructible { hp: 0, max_hp: 5, destroyed: true, replacement_tile: Tile::Lava }),
    ];
    HazardSystem::update_destructibles(&mut objects, &mut map);
    assert!(objects[0].1.destroyed);
    assert!(!objects[1].1.destroyed);
    assert_eq!(map.tile(0, 0), Tile::Mud);
    assert_eq!(map.tile(1, 0), Tile::Grass);
    assert_eq!(map.tile(2, 0), Tile::Grass);
}

#[test]
fn populated_hazards_match_the_map() {
    let mut map = TacticalMap::new(12, 10);
    let hz = HazardSystem::populate_hazards(&mut map, 2, 42);
    let again = HazardSystem::initialize_hazards(&map);
    assert_eq!(hz.hazards.len(), again.hazards.len());
    assert!(!hz.hazards.is_empty());
    for (p, _) in &hz.hazards {
        assert!(p.x > 0 && p.x < 11 && p.y > 0 && p.y < 9);
    }
    let mut map2 = TacticalMap::new(12, 10);
    let hz2 = HazardSystem::populate_hazards(&mut map2, 2, 42);
    assert_eq!(map.tiles, map2.tiles);
    assert_eq!(hz2.hazards.len(), hz.hazards.len());
}

#[test]
fn names_and_tables() {
    assert_eq!(get_class_name(CharacterClass::Warrior), "Kael");
    assert_eq!(get_class_name(CharacterClass::Boss), "Blight Sovereign");
    assert_eq!(weather_display_name(WeatherType::LightningStorm), "Lightning Storm");
    assert_eq!(PrestigeClass::NoClass.display_name(), "None");
    assert_eq!(PrestigeClass::Archmage.display_name(), "Archmage");
    assert_eq!(FloorModifier::all().len(), 7);
    assert_eq!(FloorModifier::FogOfWar.display_name(), "Fog of War");
    let d = ComboSkillDef::for_skill(&ComboSkill::ArcaneSanctuary);
    assert_eq!(d.name, "Arcane Sanctuary");
    assert_eq!((d.ap_cost, d.base_damage, d.base_healing, d.range), (3, 0, 15, 0));
    assert_eq!(default_floor(), 1);
    assert!(default_true());
}

#[test]
fn geometry_helpers() {
    assert_eq!(manhattan_distance(Position::new(-32768, -32768), Position::new(32767, 32767)), 131070);
    assert_eq!(manhattan_distance(Position::new(1, 2), Position::new(4, -2)), 7);
    assert!(Entity::invalid().is_invalid());
    assert!(Entity { index: 1, generation: 5 }.precedes(&Entity { index: 2, generation: 0 }));
    assert!(!Entity { index: 2, generation: 0 }.precedes(&Entity { index: 2, generation: 0 }));
}

#[test]
fn decimal_text() {
    let mut s = String::from("v=");
    push_int(&mut s, i64::MIN);
    push_str(&mut s, ";");
    push_digits(&mut s, 0);
    push_str(&mut s, ";");
    push_int(&mut s, 1203);
    assert_eq!(s, "v=-9223372036854775808;0;1203");
}

#[test]
fn map_error_text() {
    assert_eq!(MapError::Empty.message(), "map is empty");
}
