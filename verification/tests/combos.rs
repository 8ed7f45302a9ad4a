use wuthering_terminal::battle_preview::UnitRecord;
use wuthering_terminal::combos::{
    arcane_sanctuary, blade_storm_targets, combo_affordable, combo_base_damage, combo_power,
    combo_target_at, pay_for_combo,
};
use wuthering_terminal::components::{
    CharacterClass, ComboSkill, ElementalShield, ShieldType, Stats, Team,
};
use wuthering_terminal::geometry::{Entity, Position};

fn rec(i: u32, x: i16, y: i16, team: Team, atk: i32, hp: i32) -> UnitRecord {
    UnitRecord {
        entity: Entity { index: i, generation: 0 },
        position: Some(Position::new(x, y)),
        team: Some(team),
        class: Some(CharacterClass::Mage),
        stats: Some(Stats { hp, max_hp: 100, atk, def: 2, spd: 3, ap: 3, max_ap: 3, level: 1, xp: 0 }),
        archetype: None,
    }
}

#[test]
fn combo_power_and_damage() {
    let ps = vec![rec(0, 0, 0, Team::Player, 12, 50), rec(1, 1, 0, Team::Player, 20, 50)];
    assert_eq!(combo_power(&ps), 32);
    assert_eq!(combo_base_damage(64, 10), 54);
    assert_eq!(combo_base_damage(5, 10), 1);
}

#[test]
fn combo_targets() {
    let ps = vec![rec(0, 0, 0, Team::Player, 12, 50), rec(1, 5, 5, Team::Player, 20, 50)];
    let units = vec![
        ps[0],
        rec(2, 2, 0, Team::Enemy, 5, 30),
        rec(3, 3, 0, Team::Enemy, 5, 30),
        rec(4, 5, 7, Team::Enemy, 5, 30),
        ps[1],
    ];
    assert_eq!(
        blade_storm_targets(&units, &ps),
        vec![
            (Entity { index: 2, generation: 0 }, Position::new(2, 0)),
            (Entity { index: 4, generation: 0 }, Position::new(5, 7)),
        ]
    );
    assert_eq!(
        combo_target_at(&units, &ps, Position::new(3, 0), 3),
        Some((Entity { index: 3, generation: 0 }, Position::new(3, 0)))
    );
    assert_eq!(combo_target_at(&units, &ps, Position::new(3, 0), 2), None);
    assert_eq!(combo_target_at(&units, &ps, Position::new(4, 4), 3), None);
}

#[test]
fn arcane_sanctuary_shields_and_heals_every_hero() {
    let mut units = vec![
        rec(0, 0, 0, Team::Player, 12, 95),
        rec(1, 2, 0, Team::Enemy, 5, 30),
        rec(2, 5, 5, Team::Player, 20, 40),
    ];
    let mut shields = vec![
        Some(ElementalShield { shield_type: ShieldType::Ice, amount: 10, max_amount: 20 }),
        None,
        None,
    ];
    let log = arcane_sanctuary(&mut units, &mut shields, 32);
    assert_eq!(units[0].stats.unwrap().hp, 100);
    assert_eq!(units[1].stats.unwrap().hp, 30);
    assert_eq!(units[2].stats.unwrap().hp, 55);
    assert_eq!(
        shields[0],
        Some(ElementalShield { shield_type: ShieldType::Ice, amount: 42, max_amount: 52 })
    );
    assert_eq!(shields[1], None);
    assert_eq!(
        shields[2],
        Some(ElementalShield { shield_type: ShieldType::Physical, amount: 32, max_amount: 32 })
    );
    assert_eq!(log.len(), 2);
    assert_eq!(log[0], "Arcane Sanctuary: Lyra shielded for 32 and healed for 15!");
}

#[test]
fn combos_cost_every_participant_and_build_energy() {
    let mut units = vec![
        rec(0, 0, 0, Team::Player, 12, 50),
        rec(1, 2, 0, Team::Enemy, 5, 30),
        rec(2, 5, 5, Team::Player, 20, 40),
    ];
    let ps = vec![0usize, 2usize];
    assert!(combo_affordable(&units, &ps, ComboSkill::HolySmite));
    assert!(!combo_affordable(&units, &ps, ComboSkill::TrinityStrike));
    let mut energy: u32 = 70;
    pay_for_combo(&mut units, &ps, &mut energy, ComboSkill::HolySmite);
    assert_eq!(units[0].stats.unwrap().ap, 1);
    assert_eq!(units[1].stats.unwrap().ap, 3);
    assert_eq!(units[2].stats.unwrap().ap, 1);
    assert_eq!(energy, 100);
}
