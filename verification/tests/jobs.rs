#![allow(dead_code)]
//! Tests of the job growth tables: increments, standard values and ranges.

use rpg_growth::attr::AttrMap;
use rpg_growth::fixedpoint::{AttrIncrementValue, GrowthFactor};
use rpg_growth::job::{AttrIncrementEntry, InitialAttrs, JobEntry, JobTable};
use rpg_growth::personality::{personality_index, Personality, PersonalityTable, PersonalityTables};
use rpg_growth::attr::Attr;
use rpg_growth::job::Job;
use rpg_growth::sex::Sex;

fn band(upper_lv: u8, bits: u8) -> AttrIncrementEntry {
    AttrIncrementEntry { upper_lv, value: AttrIncrementValue::from_bits(bits) }
}

fn soldier_entry() -> JobEntry {
    JobEntry::new(
        String::from("soldier"),
        vec![0u32; 98],
        AttrMap {
            power: InitialAttrs { man: 5, women: 4 },
            speed: InitialAttrs { man: 2, women: 3 },
            vitality: InitialAttrs { man: 9, women: 8 },
            intelligence: InitialAttrs { man: 2, women: 2 },
            luck: InitialAttrs { man: 4, women: 4 },
        },
        AttrMap {
            power: vec![band(20, 40), band(60, 24), band(0, 8)],
            speed: vec![band(30, 16), band(0, 8)],
            vitality: vec![band(9, 32), band(10, 88), band(40, 40), band(70, 24), band(0, 16)],
            intelligence: vec![band(50, 8), band(0, 4)],
            luck: vec![band(25, 16), band(50, 12), band(0, 8)],
        },
    )
}

fn fighter_entry() -> JobEntry {
    JobEntry::new(
        String::from("fighter"),
        vec![0u32; 98],
        AttrMap {
            power: InitialAttrs { man: 4, women: 4 },
            speed: InitialAttrs { man: 6, women: 6 },
            vitality: InitialAttrs { man: 6, women: 6 },
            intelligence: InitialAttrs { man: 2, women: 2 },
            luck: InitialAttrs { man: 4, women: 4 },
        },
        AttrMap {
            power: vec![band(40, 32), band(0, 12)],
            speed: vec![band(30, 40), band(0, 16)],
            vitality: vec![band(50, 28), band(0, 12)],
            intelligence: vec![band(60, 8), band(0, 4)],
            luck: vec![band(30, 12), band(0, 8)],
        },
    )
}

fn wizard_entry() -> JobEntry {
    JobEntry::new(
        String::from("wizard"),
        vec![0u32; 98],
        AttrMap {
            power: InitialAttrs { man: 2, women: 2 },
            speed: InitialAttrs { man: 3, women: 3 },
            vitality: InitialAttrs { man: 5, women: 4 },
            intelligence: InitialAttrs { man: 8, women: 8 },
            luck: InitialAttrs { man: 3, women: 3 },
        },
        AttrMap {
            power: vec![band(50, 8), band(0, 4)],
            speed: vec![band(40, 16), band(0, 8)],
            vitality: vec![band(30, 16), band(0, 8)],
            intelligence: vec![band(20, 48), band(60, 32), band(0, 12)],
            luck: vec![band(35, 16), band(0, 8)],
        },
    )
}

fn pligrim_entry() -> JobEntry {
    JobEntry::new(
        String::from("pligrim"),
        vec![0u32; 98],
        AttrMap {
            power: InitialAttrs { man: 3, women: 3 },
            speed: InitialAttrs { man: 3, women: 3 },
            vitality: InitialAttrs { man: 6, women: 5 },
            intelligence: InitialAttrs { man: 6, women: 6 },
            luck: InitialAttrs { man: 3, women: 3 },
        },
        AttrMap {
            power: vec![band(45, 16), band(0, 8)],
            speed: vec![band(40, 16), band(0, 8)],
            vitality: vec![band(40, 20), band(0, 10)],
            intelligence: vec![band(30, 36), band(0, 16)],
            luck: vec![band(35, 12), band(0, 8)],
        },
    )
}

fn merchant_entry() -> JobEntry {
    JobEntry::new(
        String::from("merchant"),
        vec![0u32; 98],
        AttrMap {
            power: InitialAttrs { man: 4, women: 4 },
            speed: InitialAttrs { man: 3, women: 3 },
            vitality: InitialAttrs { man: 6, women: 5 },
            intelligence: InitialAttrs { man: 4, women: 4 },
            luck: InitialAttrs { man: 6, women: 6 },
        },
        AttrMap {
            power: vec![band(40, 20), band(0, 10)],
            speed: vec![band(40, 16), band(0, 8)],
            vitality: vec![band(45, 20), band(0, 10)],
            intelligence: vec![band(40, 16), band(0, 8)],
            luck: vec![band(30, 40), band(0, 16)],
        },
    )
}

fn goofoff_entry() -> JobEntry {
    JobEntry::new(
        String::from("goofoff"),
        vec![0u32; 98],
        AttrMap {
            power: InitialAttrs { man: 3, women: 3 },
            speed: InitialAttrs { man: 4, women: 4 },
            vitality: InitialAttrs { man: 5, women: 5 },
            intelligence: InitialAttrs { man: 2, women: 2 },
            luck: InitialAttrs { man: 7, women: 7 },
        },
        AttrMap {
            power: vec![band(40, 12), band(0, 8)],
            speed: vec![band(40, 20), band(0, 10)],
            vitality: vec![band(45, 16), band(0, 8)],
            intelligence: vec![band(50, 6), band(0, 4)],
            luck: vec![band(25, 48), band(0, 20)],
        },
    )
}

fn thief_entry() -> JobEntry {
    JobEntry::new(
        String::from("thief"),
        vec![0u32; 98],
        AttrMap {
            power: InitialAttrs { man: 4, women: 4 },
            speed: InitialAttrs { man: 7, women: 7 },
            vitality: InitialAttrs { man: 6, women: 5 },
            intelligence: InitialAttrs { man: 3, women: 3 },
            luck: InitialAttrs { man: 5, women: 5 },
        },
        AttrMap {
            power: vec![band(40, 20), band(0, 10)],
            speed: vec![band(30, 44), band(0, 18)],
            vitality: vec![band(45, 18), band(0, 10)],
            intelligence: vec![band(45, 12), band(0, 6)],
            luck: vec![band(30, 20), band(0, 10)],
        },
    )
}

fn sage_entry() -> JobEntry {
    JobEntry::new(
        String::from("sage"),
        vec![0u32; 98],
        AttrMap {
            power: InitialAttrs { man: 3, women: 3 },
            speed: InitialAttrs { man: 3, women: 3 },
            vitality: InitialAttrs { man: 5, women: 5 },
            intelligence: InitialAttrs { man: 7, women: 7 },
            luck: InitialAttrs { man: 4, women: 4 },
        },
        AttrMap {
            power: vec![band(45, 14), band(0, 8)],
            speed: vec![band(40, 14), band(0, 8)],
            vitality: vec![band(40, 18), band(0, 10)],
            intelligence: vec![band(3, 8), band(30, 40), band(0, 20)],
            luck: vec![band(35, 14), band(0, 8)],
        },
    )
}

fn hero_entry() -> JobEntry {
    JobEntry::new(
        String::from("hero"),
        vec![0u32; 98],
        AttrMap {
            power: InitialAttrs { man: 6, women: 5 },
            speed: InitialAttrs { man: 4, women: 4 },
            vitality: InitialAttrs { man: 8, women: 7 },
            intelligence: InitialAttrs { man: 5, women: 5 },
            luck: InitialAttrs { man: 5, women: 5 },
        },
        AttrMap {
            power: vec![band(35, 36), band(0, 16)],
            speed: vec![band(35, 24), band(0, 12)],
            vitality: vec![band(35, 36), band(0, 16)],
            intelligence: vec![band(35, 28), band(0, 12)],
            luck: vec![band(35, 20), band(0, 10)],
        },
    )
}

fn test_jobs() -> JobTable {
    JobTable::new(vec![
        soldier_entry(),
        fighter_entry(),
        wizard_entry(),
        pligrim_entry(),
        merchant_entry(),
        goofoff_entry(),
        thief_entry(),
        sage_entry(),
        hero_entry(),
    ])
}

fn factors(p: u8, s: u8, v: u8, i: u8, l: u8) -> AttrMap<GrowthFactor> {
    AttrMap {
        power: GrowthFactor::from_bits(p),
        speed: GrowthFactor::from_bits(s),
        vitality: GrowthFactor::from_bits(v),
        intelligence: GrowthFactor::from_bits(i),
        luck: GrowthFactor::from_bits(l),
    }
}

fn test_personalities() -> PersonalityTables {
    let mut rows: Vec<PersonalityTable> = Vec::new();
    let mut k = 0;
    while k < 47 {
        rows.push(PersonalityTable::new(String::from("ordinary"), factors(128, 128, 128, 128, 128)));
        k += 1;
    }
    rows[personality_index(Personality::Valiant) + 1] =
        PersonalityTable::new(String::from("valiant"), factors(179, 110, 134, 98, 105));
    rows[personality_index(Personality::Tough) + 1] =
        PersonalityTable::new(String::from("tough"), factors(140, 120, 160, 100, 110));
    rows[personality_index(Personality::Solitary) + 1] =
        PersonalityTable::new(String::from("solitary"), factors(120, 130, 110, 140, 100));
    PersonalityTables::new(rows)
}

#[test]
fn test_initial_attr() {
    let jobs = test_jobs();
    assert_eq!(jobs.get_job_entry(Job::Soldier).initial_attr(Attr::Spd, Sex::Man), 2);
    assert_eq!(jobs.get_job_entry(Job::Soldier).initial_attr(Attr::Spd, Sex::Women), 3);
    assert_eq!(jobs.get_job_entry(Job::Soldier).initial_attr(Attr::Vit, Sex::Man), 9);
    assert_eq!(jobs.get_job_entry(Job::Soldier).initial_attr(Attr::Vit, Sex::Man), 9);
    assert_eq!(jobs.get_job_entry(Job::Thief).initial_attr(Attr::Vit, Sex::Women), 5);
    assert_eq!(jobs.get_job_entry(Job::Wizard).initial_attr(Attr::Vit, Sex::Women), 4);
}

#[test]
fn test_attr_increment() {
    let jobs = test_jobs();
    assert_eq!(jobs.get_job_entry(Job::Soldier).attr_increment(8, Attr::Vit).to_bits() as f64 / 16.0, 2.0);
    assert_eq!(jobs.get_job_entry(Job::Soldier).attr_increment(9, Attr::Vit).to_bits() as f64 / 16.0, 5.5);
    assert_eq!(jobs.get_job_entry(Job::Soldier).attr_increment(99, Attr::Vit).to_bits() as f64 / 16.0, 1.0);
    assert_eq!(jobs.get_job_entry(Job::Sage).attr_increment(2, Attr::Int).to_bits() as f64 / 16.0, 0.5);
}

#[test]
fn test_standard_and_range() {
    let soldier = soldier_entry();
    assert_eq!(soldier.standard_attr(22, Attr::Vit), 61);
    assert_eq!(soldier.range_attr(22, Attr::Vit), (37, 120));
    assert_eq!(soldier.standard_attr(10, Attr::Pow), 27);
    assert_eq!(soldier.range_attr(10, Attr::Pow), (19, 62));
}

#[test]
fn test_intelligence_for_learning() {
    let soldier = soldier_entry();
    // levels 2..=21 each add 0.5 to intelligence: 10 whole points, plus 5
    assert_eq!(soldier.standard_intelligence_for_learning(22), 15);
    assert_eq!(soldier.intelligence_thresh_for_learning(22), (0, 26));
    assert_eq!(soldier.standard_intelligence_for_learning(2), 5);
    assert_eq!(soldier.intelligence_thresh_for_learning(2), (0, 16));
}

#[test]
fn test_range_encloses_standard() {
    let jobs = test_jobs();
    let attrs = [Attr::Pow, Attr::Spd, Attr::Vit, Attr::Int, Attr::Lck];
    let all = [
        Job::Soldier,
        Job::Fighter,
        Job::Wizard,
        Job::Pligrim,
        Job::Merchant,
        Job::GoofOff,
        Job::Thief,
        Job::Sage,
        Job::Hero,
    ];
    for job in all {
        let entry = jobs.get_job_entry(job);
        for lv in 1..=99u8 {
            for attr in attrs {
                let standard = entry.standard_attr(lv, attr);
                let (lower, upper) = entry.range_attr(lv, attr);
                assert!(lower <= standard && standard <= upper);
            }
        }
    }
}
