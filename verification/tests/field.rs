use wuthering_terminal::battle_preview::UnitRecord;
use wuthering_terminal::combat::check_parry;
use wuthering_terminal::components::{CharacterClass, EchoAbility, EquippedEchoes, Stats, Team};
use wuthering_terminal::geometry::{Entity, Position};
use wuthering_terminal::units::{
    absorb_echo, auto_battle_choice, AutoBattleChoice, boss_echo_progress, floor_cleared, get_entity_at, is_occupied_except,
    vanish_candidates, FloorProgress,
};

fn stats(ap: i32) -> Stats {
    Stats { hp: 10, max_hp: 10, atk: 1, def: 1, spd: 1, ap, max_ap: 5, level: 1, xp: 0 }
}

fn unit(index: u32, x: i16, y: i16, team: Option<Team>, class: Option<CharacterClass>) -> UnitRecord {
    UnitRecord {
        entity: Entity { index, generation: 0 },
        position: Some(Position::new(x, y)),
        team,
        class,
        stats: Some(stats(3)),
        archetype: None,
    }
}

#[test]
fn who_stands_where() {
    let units = vec![
        unit(0, 1, 1, None, Some(CharacterClass::Warrior)),
        unit(1, 1, 1, Some(Team::Player), Some(CharacterClass::Mage)),
        unit(2, 2, 2, Some(Team::Enemy), None),
    ];
    let e = |i: u32| Entity { index: i, generation: 0 };
    assert_eq!(
        get_entity_at(&units, Position::new(1, 1)),
        Some((e(1), Team::Player, stats(3), CharacterClass::Mage))
    );
    assert_eq!(get_entity_at(&units, Position::new(2, 2)), None);
    assert_eq!(get_entity_at(&units, Position::new(0, 0)), None);
    assert!(is_occupied_except(&units, Position::new(1, 1), e(0)));
    assert!(!is_occupied_except(&units, Position::new(1, 1), e(1)));
    assert!(is_occupied_except(&units, Position::new(2, 2), e(1)));
    assert!(!is_occupied_except(&units, Position::new(3, 3), e(1)));
}

#[test]
fn vanishing_keeps_away_and_on_the_map() {
    let units = vec![unit(0, 2, 0, Some(Team::Player), None), unit(1, 0, 0, Some(Team::Enemy), None)];
    let me = Entity { index: 1, generation: 0 };
    let spots = vanish_candidates(&units, me, Position::new(0, 0), 4, 3);
    assert_eq!(
        spots,
        vec![
            Position::new(3, 0),
            Position::new(1, 1),
            Position::new(2, 1),
            Position::new(3, 1),
            Position::new(0, 2),
            Position::new(1, 2),
            Position::new(2, 2),
            Position::new(3, 2),
        ]
    );
}

#[test]
fn echoes_grant_their_ability_once() {
    let mut echoes = EquippedEchoes::default();
    let (log, lore) = absorb_echo(&mut echoes, CharacterClass::ShadowStalker);
    assert_eq!(log, vec!["Absorbed Frostbite Echo! Ability granted.".to_string()]);
    assert!(!lore);
    let (log, _) = absorb_echo(&mut echoes, CharacterClass::ShadowStalker);
    assert_eq!(log, vec!["Absorbed Frostbite Echo, but already have it.".to_string()]);
    let (log, lore) = absorb_echo(&mut echoes, CharacterClass::Boss);
    assert_eq!(log.len(), 2);
    assert_eq!(log[1], "Granted Blight Sovereign's Lifesteal ability!");
    assert!(lore);
    let (log, lore) = absorb_echo(&mut echoes, CharacterClass::Boss);
    assert_eq!(log.len(), 1);
    assert!(!lore);
    absorb_echo(&mut echoes, CharacterClass::GlacialGolem);
    assert_eq!(echoes.abilities, vec![EchoAbility::Frostbite, EchoAbility::Lifesteal, EchoAbility::Swift]);
}

#[test]
fn floors_end_with_stairs_then_victory() {
    let (p, msg) = boss_echo_progress(1, Position::new(4, 7));
    assert_eq!(p, FloorProgress::Stairs(Position::new(4, 7)));
    assert_eq!(msg, "A staircase has appeared at 4,7. Stand on it and press '>' or type 'stairs' to descend.");
    assert_eq!(boss_echo_progress(2, Position::new(4, 7)).0, FloorProgress::Victory);
    let heroes = vec![unit(0, 0, 0, Some(Team::Player), None)];
    let (p, msg) = floor_cleared(&heroes, 0, 1, Position::new(2, 3)).unwrap();
    assert_eq!(p, FloorProgress::Stairs(Position::new(2, 3)));
    assert!(msg.starts_with("All enemies defeated on Floor 1! A staircase has appeared at 2,3."));
    assert_eq!(
        floor_cleared(&heroes, 0, 2, Position::new(2, 3)).unwrap().1,
        "Victory! All enemies defeated and Floor 2 conquered!"
    );
    assert!(floor_cleared(&heroes, 1, 1, Position::new(2, 3)).is_none());
    let mixed = vec![unit(0, 0, 0, Some(Team::Player), None), unit(1, 1, 0, Some(Team::Enemy), None)];
    assert!(floor_cleared(&mixed, 0, 1, Position::new(2, 3)).is_none());
}

#[test]
fn heroes_in_the_zone_parry_the_boss() {
    let boss = unit(9, 5, 5, Some(Team::Enemy), Some(CharacterClass::Boss));
    let hero = unit(1, 2, 2, Some(Team::Player), Some(CharacterClass::Warrior));
    let mut units = vec![hero, boss];
    let mut zone = vec![Position::new(2, 2), Position::new(3, 3)];
    let log = check_parry(&mut units, &mut zone, Position::new(5, 5), None);
    assert_eq!(log.len(), 2);
    assert_eq!(log[0], "PARRY! Blight Sovereign's telegraphed attack was canceled!");
    assert!(zone.is_empty());
    assert_eq!(units[1].stats.unwrap().ap, 0);
    assert_eq!(units[0].stats.unwrap().ap, 3);

    let mut units = vec![hero, boss];
    let mut zone = vec![Position::new(3, 3)];
    assert!(check_parry(&mut units, &mut zone, Position::new(5, 5), None).is_empty());
    assert_eq!(zone.len(), 1);
    assert!(check_parry(&mut units, &mut zone, Position::new(5, 5), Some(Position::new(2, 2))).is_empty());
    assert_eq!(check_parry(&mut units, &mut zone, Position::new(5, 5), Some(Position::new(3, 3))).len(), 2);
    let mut zone = vec![Position::new(2, 2)];
    assert!(check_parry(&mut units, &mut zone, Position::new(4, 4), None).is_empty());
}

#[test]
fn the_battle_runs_itself() {
    let mut tired = unit(0, 0, 0, Some(Team::Player), Some(CharacterClass::Warrior));
    tired.stats = Some(stats(0));
    let foe = unit(9, 1, 0, Some(Team::Enemy), None);
    assert_eq!(auto_battle_choice(&[tired, foe]), AutoBattleChoice::EndTurn);

    let warrior = unit(1, 0, 0, Some(Team::Player), Some(CharacterClass::Warrior));
    let near = unit(2, 1, 0, Some(Team::Enemy), None);
    let far = unit(3, 3, 0, Some(Team::Enemy), None);
    assert_eq!(
        auto_battle_choice(&[tired, far, warrior, near]),
        AutoBattleChoice::Attack(Entity { index: 1, generation: 0 }, Position::new(1, 0))
    );
    assert_eq!(
        auto_battle_choice(&[warrior, far]),
        AutoBattleChoice::Approach(Entity { index: 1, generation: 0 }, Position::new(3, 0))
    );
    let mage = unit(4, 0, 0, Some(Team::Player), Some(CharacterClass::Mage));
    assert_eq!(
        auto_battle_choice(&[mage, far]),
        AutoBattleChoice::Attack(Entity { index: 4, generation: 0 }, Position::new(3, 0))
    );
    let other_far = unit(5, 0, 3, Some(Team::Enemy), None);
    let farther = unit(6, 5, 5, Some(Team::Enemy), None);
    assert_eq!(
        auto_battle_choice(&[warrior, farther, far, other_far]),
        AutoBattleChoice::Approach(Entity { index: 1, generation: 0 }, Position::new(3, 0))
    );
    assert_eq!(auto_battle_choice(&[warrior]), AutoBattleChoice::Wait);
}
