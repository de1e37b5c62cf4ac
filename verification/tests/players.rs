#![allow(dead_code)]
//! Tests of character construction, job change and level-up.

use rpg_growth::attr::AttrMap;
use rpg_growth::fixedpoint::{AttrIncrementValue, GrowthFactor};
use rpg_growth::job::{AttrIncrementEntry, InitialAttrs, JobEntry, JobTable};
use rpg_growth::personality::{personality_index, Personality, PersonalityTable, PersonalityTables};
use rpg_growth::attr::Attr;
use rpg_growth::fixedpoint::AttrValue;
use rpg_growth::job::Job;
use rpg_growth::player::{init_attr_of_hero, init_maxhp_or_maxmp, PlayerInit};
use rpg_growth::rand::{Rng, State};
use rpg_growth::sex::Sex;

fn band(upper_lv: u8, bits: u8) -> AttrIncrementEntry {
    AttrIncrementEntry { upper_lv, value: AttrIncrementValue::from_bits(bits) }
}

fn soldier_entry() -> JobEntry {
    JobEntry::new(
        String::from("soldier"),
        vec![0u32; 98],
        AttrMap {
            power: InitialAttrs { man: 5, women: 4 },
            speed: InitialAttrs { man: 2, women: 3 },
            vitality: InitialAttrs { man: 9, women: 8 },
            intelligence: InitialAttrs { man: 2, women: 2 },
            luck: InitialAttrs { man: 4, women: 4 },
        },
        AttrMap {
            power: vec![band(20, 40), band(60, 24), band(0, 8)],
            speed: vec![band(30, 16), band(0, 8)],
            vitality: vec![band(9, 32), band(10, 88), band(40, 40), band(70, 24), band(0, 16)],
            intelligence: vec![band(50, 8), band(0, 4)],
            luck: vec![band(25, 16), band(50, 12), band(0, 8)],
        },
    )
}

fn fighter_entry() -> JobEntry {
    JobEntry::new(
        String::from("fighter"),
        vec![0u32; 98],
        AttrMap {
            power: InitialAttrs { man: 4, women: 4 },
            speed: InitialAttrs { man: 6, women: 6 },
            vitality: InitialAttrs { man: 6, women: 6 },
            intelligence: InitialAttrs { man: 2, women: 2 },
            luck: InitialAttrs { man: 4, women: 4 },
        },
        AttrMap {
            power: vec![band(40, 32), band(0, 12)],
            speed: vec![band(30, 40), band(0, 16)],
            vitality: vec![band(50, 28), band(0, 12)],
            intelligence: vec![band(60, 8), band(0, 4)],
            luck: vec![band(30, 12), band(0, 8)],
        },
    )
}

fn wizard_entry() -> JobEntry {
    JobEntry::new(
        String::from("wizard"),
        vec![0u32; 98],
        AttrMap {
            power: InitialAttrs { man: 2, women: 2 },
            speed: InitialAttrs { man: 3, women: 3 },
            vitality: InitialAttrs { man: 5, women: 4 },
            intelligence: InitialAttrs { man: 8, women: 8 },
            luck: InitialAttrs { man: 3, women: 3 },
        },
        AttrMap {
            power: vec![band(50, 8), band(0, 4)],
            speed: vec![band(40, 16), band(0, 8)],
            vitality: vec![band(30, 16), band(0, 8)],
            intelligence: vec![band(20, 48), band(60, 32), band(0, 12)],
            luck: vec![band(35, 16), band(0, 8)],
        },
    )
}

fn pligrim_entry() -> JobEntry {
    JobEntry::new(
        String::from("pligrim"),
        vec![0u32; 98],
        AttrMap {
            power: InitialAttrs { man: 3, women: 3 },
            speed: InitialAttrs { man: 3, women: 3 },
            vitality: InitialAttrs { man: 6, women: 5 },
            intelligence: InitialAttrs { man: 6, women: 6 },
            luck: InitialAttrs { man: 3, women: 3 },
        },
        AttrMap {
            power: vec![band(45, 16), band(0, 8)],
            speed: vec![band(40, 16), band(0, 8)],
            vitality: vec![band(40, 20), band(0, 10)],
            intelligence: vec![band(30, 36), band(0, 16)],
            luck: vec![band(35, 12), band(0, 8)],
        },
    )
}

fn merchant_entry() -> JobEntry {
    JobEntry::new(
        String::from("merchant"),
        vec![0u32; 98],
        AttrMap {
            power: InitialAttrs { man: 4, women: 4 },
            speed: InitialAttrs { man: 3, women: 3 },
            vitality: InitialAttrs { man: 6, women: 5 },
            intelligence: InitialAttrs { man: 4, women: 4 },
            luck: InitialAttrs { man: 6, women: 6 },
        },
        AttrMap {
            power: vec![band(40, 20), band(0, 10)],
            speed: vec![band(40, 16), band(0, 8)],
            vitality: vec![band(45, 20), band(0, 10)],
            intelligence: vec![band(40, 16), band(0, 8)],
            luck: vec![band(30, 40), band(0, 16)],
        },
    )
}

fn goofoff_entry() -> JobEntry {
    JobEntry::new(
        String::from("goofoff"),
        vec![0u32; 98],
        AttrMap {
            power: InitialAttrs { man: 3, women: 3 },
            speed: InitialAttrs { man: 4, women: 4 },
            vitality: InitialAttrs { man: 5, women: 5 },
            intelligence: InitialAttrs { man: 2, women: 2 },
            luck: InitialAttrs { man: 7, women: 7 },
        },
        AttrMap {
            power: vec![band(40, 12), band(0, 8)],
            speed: vec![band(40, 20), band(0, 10)],
            vitality: vec![band(45, 16), band(0, 8)],
            intelligence: vec![band(50, 6), band(0, 4)],
            luck: vec![band(25, 48), band(0, 20)],
        },
    )
}

fn thief_entry() -> JobEntry {
    JobEntry::new(
        String::from("thief"),
        vec![0u32; 98],
        AttrMap {
            power: InitialAttrs { man: 4, women: 4 },
            speed: InitialAttrs { man: 7, women: 7 },
            vitality: InitialAttrs { man: 6, women: 5 },
            intelligence: InitialAttrs { man: 3, women: 3 },
            luck: InitialAttrs { man: 5, women: 5 },
        },
        AttrMap {
            power: vec![band(40, 20), band(0, 10)],
            speed: vec![band(30, 44), band(0, 18)],
            vitality: vec![band(45, 18), band(0, 10)],
            intelligence: vec![band(45, 12), band(0, 6)],
            luck: vec![band(30, 20), band(0, 10)],
        },
    )
}

fn sage_entry() -> JobEntry {
    JobEntry::new(
        String::from("sage"),
        vec![0u32; 98],
        AttrMap {
            power: InitialAttrs { man: 3, women: 3 },
            speed: InitialAttrs { man: 3, women: 3 },
            vitality: InitialAttrs { man: 5, women: 5 },
            intelligence: InitialAttrs { man: 7, women: 7 },
            luck: InitialAttrs { man: 4, women: 4 },
        },
        AttrMap {
            power: vec![band(45, 14), band(0, 8)],
            speed: vec![band(40, 14), band(0, 8)],
            vitality: vec![band(40, 18), band(0, 10)],
            intelligence: vec![band(3, 8), band(30, 40), band(0, 20)],
            luck: vec![band(35, 14), band(0, 8)],
        },
    )
}

fn hero_entry() -> JobEntry {
    JobEntry::new(
        String::from("hero"),
        vec![0u32; 98],
        AttrMap {
            power: InitialAttrs { man: 6, women: 5 },
            speed: InitialAttrs { man: 4, women: 4 },
            vitality: InitialAttrs { man: 8, women: 7 },
            intelligence: InitialAttrs { man: 5, women: 5 },
            luck: InitialAttrs { man: 5, women: 5 },
        },
        AttrMap {
            power: vec![band(35, 36), band(0, 16)],
            speed: vec![band(35, 24), band(0, 12)],
            vitality: vec![band(35, 36), band(0, 16)],
            intelligence: vec![band(35, 28), band(0, 12)],
            luck: vec![band(35, 20), band(0, 10)],
        },
    )
}

fn test_jobs() -> JobTable {
    JobTable::new(vec![
        soldier_entry(),
        fighter_entry(),
        wizard_entry(),
        pligrim_entry(),
        merchant_entry(),
        goofoff_entry(),
        thief_entry(),
        sage_entry(),
        hero_entry(),
    ])
}

fn factors(p: u8, s: u8, v: u8, i: u8, l: u8) -> AttrMap<GrowthFactor> {
    AttrMap {
        power: GrowthFactor::from_bits(p),
        speed: GrowthFactor::from_bits(s),
        vitality: GrowthFactor::from_bits(v),
        intelligence: GrowthFactor::from_bits(i),
        luck: GrowthFactor::from_bits(l),
    }
}

fn test_personalities() -> PersonalityTables {
    let mut rows: Vec<PersonalityTable> = Vec::new();
    let mut k = 0;
    while k < 47 {
        rows.push(PersonalityTable::new(String::from("ordinary"), factors(128, 128, 128, 128, 128)));
        k += 1;
    }
    rows[personality_index(Personality::Valiant) + 1] =
        PersonalityTable::new(String::from("valiant"), factors(179, 110, 134, 98, 105));
    rows[personality_index(Personality::Tough) + 1] =
        PersonalityTable::new(String::from("tough"), factors(140, 120, 160, 100, 110));
    rows[personality_index(Personality::Solitary) + 1] =
        PersonalityTable::new(String::from("solitary"), factors(120, 130, 110, 140, 100));
    PersonalityTables::new(rows)
}

#[test]
fn test_init() {
    let player = PlayerInit { lv: 3, max_hp: 50, vitality: 25, ..Default::default() }.init();

    assert_eq!(player.lv, 3);
    assert_eq!(player.max_hp, 50);
    assert_eq!(player.max_mp, 0);
    assert_eq!(player.attr(Attr::Pow), 0);
    assert_eq!(player.attr(Attr::Spd), 0);
    assert_eq!(player.attr(Attr::Vit), 25);
    assert_eq!(player.attr(Attr::Int), 0);
    assert_eq!(player.attr(Attr::Lck), 0);
    assert_eq!(player.sex, Sex::Man);
    assert_eq!(player.personality, Personality::Ordinary);
    assert_eq!(player.job, Job::Soldier);
}

#[test]
fn test_job_change_halves() {
    let mut p = PlayerInit {
        lv: 10,
        max_hp: 51,
        max_mp: 33,
        power: 9,
        speed: 7,
        vitality: 25,
        intelligence: 5,
        luck: 3,
        sex: Sex::Women,
        personality: Personality::Tough,
        job: Job::Soldier,
    }.init();
    p.attrs.power = AttrValue::from_bits(2469);

    p.job_change(Job::Thief);

    assert_eq!(p.lv, 1);
    assert_eq!(p.job, Job::Thief);
    assert_eq!(p.max_hp, 25);
    assert_eq!(p.max_mp, 16);
    assert_eq!(p.attrs.power.to_bits(), 1234);
    assert_eq!(p.attrs.vitality.to_bits(), 3200);
    assert_eq!(p.attrs.luck.to_bits(), 384);
    assert_eq!(p.sex, Sex::Women);
    assert_eq!(p.personality, Personality::Tough);
}

#[test]
fn test_levelup_updates_caps() {
    let jobs = test_jobs();
    let pers = test_personalities();

    let mut soldier = PlayerInit {
        lv: 1,
        max_hp: 20,
        max_mp: 33,
        power: 5,
        speed: 2,
        vitality: 9,
        intelligence: 2,
        luck: 4,
        sex: Sex::Man,
        personality: Personality::Tough,
        job: Job::Soldier,
        ..Default::default()
    }.init();
    let mut rng = Rng::default();
    soldier.levelup(&mut rng, &jobs, &pers);
    assert_eq!(soldier.lv, 2);
    assert_eq!(soldier.max_hp, (soldier.attr(Attr::Vit) as u16) * 2);
    assert_eq!(soldier.max_mp, 33);

    let mut wizard = PlayerInit {
        lv: 1,
        max_hp: 10,
        max_mp: 9,
        vitality: 5,
        intelligence: 8,
        sex: Sex::Women,
        personality: Personality::Ordinary,
        job: Job::Wizard,
        ..Default::default()
    }.init();
    let mut rng = Rng::default();
    wizard.levelup(&mut rng, &jobs, &pers);
    assert_eq!(wizard.lv, 2);
    assert_eq!(wizard.max_hp, (wizard.attr(Attr::Vit) as u16) * 2);
    assert_eq!(wizard.max_mp, (wizard.attr(Attr::Int) as u16) * 2);
}

#[test]
fn test_init_attr_of_hero() {
    let jobs = test_jobs();
    let pers = test_personalities();
    let mut rng = Rng::default();

    let p = init_attr_of_hero(Sex::Man, Personality::Ordinary, &mut rng, &jobs, &pers);

    assert_eq!(p.lv, 1);
    assert_eq!(p.job, Job::Hero);
    assert_eq!(p.attrs.power.to_bits(), 1792);
    assert_eq!(p.attrs.speed.to_bits(), 1024);
    assert_eq!(p.attrs.vitality.to_bits(), 2048);
    assert_eq!(p.attrs.intelligence.to_bits(), 1536);
    assert_eq!(p.attrs.luck.to_bits(), 1536);
    assert_eq!(p.max_hp, 15);
    assert_eq!(p.max_mp, 11);
    assert_eq!(rng.state(), State::new(0xe3690f71));
}

#[test]
fn test_init_maxhp_formula() {
    let mut rng = Rng::default();
    // first draw: byte 0xc7, scaled into [0, 25]: 199 * 26 / 256 = 20
    let cap = init_maxhp_or_maxmp(10, &mut rng);
    assert_eq!(cap, 10 * (500 + 20) / 256);
    assert_eq!(rng.state(), State::new(0xe21259c7));
}
