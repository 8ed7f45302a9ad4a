use wuthering_terminal::battle_preview::UnitRecord;
use wuthering_terminal::components::{CharacterClass, ElementalStatus, Stats, TargetingMode, Team};
use wuthering_terminal::geometry::{Entity, Position};
use wuthering_terminal::skills::{skill_element_of, skill_targets};

fn rec(i: u32, x: i16, y: i16, team: Team) -> UnitRecord {
    UnitRecord {
        entity: Entity { index: i, generation: 0 },
        position: Some(Position::new(x, y)),
        team: Some(team),
        class: Some(CharacterClass::ShadowStalker),
        stats: Some(Stats { hp: 30, max_hp: 30, atk: 5, def: 1, spd: 3, ap: 3, max_ap: 3, level: 1, xp: 0 }),
        archetype: None,
    }
}

fn e(i: u32) -> Entity {
    Entity { index: i, generation: 0 }
}

#[test]
fn skills_leave_their_elements() {
    assert_eq!(
        skill_element_of(CharacterClass::Warrior, TargetingMode::Skill1),
        Some(ElementalStatus::Ice { duration: 3 })
    );
    assert_eq!(
        skill_element_of(CharacterClass::Mage, TargetingMode::Skill1),
        Some(ElementalStatus::Lightning { duration: 3 })
    );
    assert_eq!(
        skill_element_of(CharacterClass::Healer, TargetingMode::Skill1),
        Some(ElementalStatus::Nature { duration: 3 })
    );
    assert_eq!(
        skill_element_of(CharacterClass::Mage, TargetingMode::Skill2),
        Some(ElementalStatus::Ice { duration: 3 })
    );
    assert_eq!(skill_element_of(CharacterClass::Warrior, TargetingMode::Skill2), None);
}

#[test]
fn skills_hit_their_targets() {
    let units = vec![
        rec(1, 5, 5, Team::Enemy),
        rec(2, 6, 6, Team::Enemy),
        rec(3, 7, 5, Team::Enemy),
        rec(4, 5, 6, Team::Player),
        rec(5, 8, 5, Team::Enemy),
    ];
    let t = Position::new(5, 5);
    assert_eq!(
        skill_targets(&units, CharacterClass::Warrior, TargetingMode::Skill2, t, true, false),
        vec![(e(1), Position::new(5, 5)), (e(2), Position::new(6, 6))]
    );
    assert_eq!(
        skill_targets(&units, CharacterClass::Mage, TargetingMode::Skill2, t, true, false),
        vec![(e(1), Position::new(5, 5)), (e(3), Position::new(7, 5))]
    );
    assert_eq!(
        skill_targets(&units, CharacterClass::Mage, TargetingMode::Skill2, t, true, true),
        vec![
            (e(1), Position::new(5, 5)),
            (e(2), Position::new(6, 6)),
            (e(3), Position::new(7, 5)),
            (e(5), Position::new(8, 5)),
        ]
    );
    assert_eq!(
        skill_targets(&units, CharacterClass::Mage, TargetingMode::Skill1, t, false, false),
        vec![(e(1), t)]
    );
    assert_eq!(
        skill_targets(&units, CharacterClass::Healer, TargetingMode::Skill1, t, false, false),
        vec![]
    );
    assert_eq!(
        skill_targets(&units, CharacterClass::Healer, TargetingMode::Skill1, Position::new(5, 6), false, false),
        vec![(e(4), Position::new(5, 6))]
    );
}
