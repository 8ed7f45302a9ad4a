use wuthering_terminal::components::WeatherType;
use wuthering_terminal::geometry::Position;
use wuthering_terminal::map::TacticalMap;
use wuthering_terminal::movement::{
    nearest_safe_tile, plan_step_to_safety, reachable_tiles, SafetyStep,
};

fn p(x: i16, y: i16) -> Position {
    Position::new(x, y)
}

fn sorted(mut v: Vec<Position>) -> Vec<(i16, i16)> {
    let mut out: Vec<(i16, i16)> = v.drain(..).map(|q| (q.x, q.y)).collect();
    out.sort();
    out.dedup();
    out
}

#[test]
fn one_point_reaches_the_four_neighbours() {
    let map = TacticalMap::from_ascii("...\n...\n...");
    let r = reachable_tiles(&map, p(1, 1), 1, &Vec::new(), WeatherType::Sunny, 0);
    assert_eq!(r, vec![p(1, 1), p(1, 0), p(1, 2), p(0, 1), p(2, 1)]);
}

#[test]
fn no_action_points_means_no_move() {
    let map = TacticalMap::from_ascii("***\n***\n***");
    let r = reachable_tiles(&map, p(1, 1), 0, &Vec::new(), WeatherType::Snowing, 0);
    assert_eq!(r, vec![p(1, 1)]);
}

#[test]
fn two_points_cover_the_diamond() {
    let map = TacticalMap::from_ascii(".....\n.....\n.....\n.....\n.....");
    let r = reachable_tiles(&map, p(2, 2), 2, &Vec::new(), WeatherType::Sunny, 0);
    assert_eq!(r[0], p(2, 2));
    let expected = vec![
        (0, 2), (1, 1), (1, 2), (1, 3), (2, 0), (2, 1), (2, 2), (2, 3), (2, 4), (3, 1), (3, 2),
        (3, 3), (4, 2),
    ];
    assert_eq!(sorted(r), expected);
}

#[test]
fn walls_and_units_block_the_way() {
    let map = TacticalMap::from_ascii("...\n.#.\n...");
    let blockers = vec![p(1, 0)];
    let r = reachable_tiles(&map, p(0, 0), 2, &blockers, WeatherType::Sunny, 0);
    assert_eq!(sorted(r), vec![(0, 0), (0, 1), (0, 2)]);
}

#[test]
fn mud_is_dear_and_rain_makes_water_cheap() {
    let map = TacticalMap::from_ascii(".,~");
    let dry = reachable_tiles(&map, p(0, 0), 2, &Vec::new(), WeatherType::Sunny, 0);
    assert_eq!(sorted(dry), vec![(0, 0)]);
    let map = TacticalMap::from_ascii(".~~");
    let dry = reachable_tiles(&map, p(0, 0), 3, &Vec::new(), WeatherType::Sunny, 0);
    assert_eq!(sorted(dry), vec![(0, 0), (1, 0)]);
    let wet = reachable_tiles(&map, p(0, 0), 3, &Vec::new(), WeatherType::Rainy, 0);
    assert_eq!(sorted(wet), vec![(0, 0), (1, 0), (2, 0)]);
}

#[test]
fn ice_is_free_in_snow() {
    let map = TacticalMap::from_ascii(".***.");
    let r = reachable_tiles(&map, p(0, 0), 1, &Vec::new(), WeatherType::Snowing, 0);
    assert_eq!(sorted(r), vec![(0, 0), (1, 0), (2, 0), (3, 0), (4, 0)]);
}

#[test]
fn gravity_makes_every_step_dearer() {
    let map = TacticalMap::from_ascii(".....");
    let r = reachable_tiles(&map, p(0, 0), 4, &Vec::new(), WeatherType::Sunny, 1);
    assert_eq!(sorted(r), vec![(0, 0), (1, 0), (2, 0)]);
}

#[test]
fn a_cheaper_way_searches_a_cell_again() {
    // The far cell is first found past the two mud cells, at cost 7, and
    // later round the grass, at cost 5: it is searched, and listed, twice.
    let map = TacticalMap::from_ascii(".,,.\n....");
    let r = reachable_tiles(&map, p(0, 0), 7, &Vec::new(), WeatherType::Sunny, 0);
    assert_eq!(r[0], p(0, 0));
    assert_eq!(r.iter().filter(|q| **q == p(3, 0)).count(), 2);
    assert_eq!(
        sorted(r),
        vec![(0, 0), (0, 1), (1, 0), (1, 1), (2, 0), (2, 1), (3, 0), (3, 1)]
    );
}

#[test]
fn the_nearest_safe_cell_wins_and_ties_go_to_the_first() {
    let danger = vec![p(2, 2), p(2, 3), p(3, 2)];
    let reach = vec![p(2, 2), p(2, 3), p(3, 2), p(4, 2), p(1, 2), p(2, 1), p(0, 2)];
    assert_eq!(nearest_safe_tile(p(2, 2), &reach, &danger), Some(p(1, 2)));
    let all_bad = vec![p(2, 2), p(2, 3)];
    assert_eq!(nearest_safe_tile(p(2, 2), &all_bad, &danger), None);
}

#[test]
fn stepping_to_safety() {
    let reach = vec![p(2, 2), p(2, 3), p(1, 2)];
    let danger = vec![p(2, 2), p(2, 3)];
    assert_eq!(plan_step_to_safety(p(2, 2), 2, &Vec::new(), &reach), SafetyStep::NoDanger);
    assert_eq!(plan_step_to_safety(p(5, 5), 2, &danger, &reach), SafetyStep::AlreadySafe);
    assert_eq!(plan_step_to_safety(p(2, 2), 2, &danger, &reach), SafetyStep::StepTo(p(1, 2)));
    assert_eq!(plan_step_to_safety(p(2, 2), 0, &danger, &reach), SafetyStep::NotEnoughAp(p(1, 2)));
    let trapped = vec![p(2, 2), p(2, 3)];
    assert_eq!(plan_step_to_safety(p(2, 2), 2, &danger, &trapped), SafetyStep::NoSafeTile);
}
