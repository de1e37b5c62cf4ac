//! Tests of the physical-damage formula.

use rpg_growth::battle::{Battle, Character};
use rpg_growth::rand::Rng;

#[test]
fn damage_twinhits_test() {
    let atk = 250;
    let def = 0;

    let damage_normal = {
        let rng = Rng::default();
        let mut battle_normal = Battle::new(rng);
        battle_normal.physical_damage(atk, def, false, Character::Player)
    };

    let damage_twinhits = {
        let rng = Rng::default();
        let mut battle_twinhits = Battle::new(rng);
        battle_twinhits.physical_damage(atk, def, true, Character::Player)
    };

    assert_eq!(damage_normal * 2, damage_twinhits);
    assert_eq!(damage_normal, 135);
}

#[test]
fn damage_weak_hit_test() {
    // a base below two deals at most one point
    let mut battle = Battle::new(Rng::default());
    let damage = battle.physical_damage(3, 4, false, Character::Player);
    assert!(damage == 0 || damage == 1);
}
