//! Character state and the growth engine: level-up, job change and
//! personality change.
//!
//! A level-up draws from the generator once or sixteen times per attribute,
//! scales the job's growth increment by the personality's factor with the
//! game's exact bit-level truncations, adds it with saturation, and clamps
//! the result up to the level's lower bound.

use vstd::prelude::*;
use crate::attr::{attrs_new, Attr, AttrMap, Attrs};
use crate::fixedpoint::{div_bits, mul_bits, sat_add_bits, sat_sub_bits, AttrValue};
use crate::job::{Job, JobEntry, JobTable};
use crate::personality::{Personality, PersonalityTable, PersonalityTables};
use crate::rand::{spec_low_byte, spec_multinomial, spec_next, spec_next_n, spec_scaled, Rng};
use crate::sex::Sex;
use vstd::arithmetic::div_mod::lemma_div_is_ordered;

verus! {

/// A character: level, derived caps, the five attributes, and identity.
#[derive(Debug, Clone, Copy)]
pub struct Player {
    pub lv: u8,
    pub max_hp: u16,
    pub max_mp: u16,
    pub attrs: Attrs,
    pub sex: Sex,
    pub personality: Personality,
    pub job: Job,
}

/// The randomized 8.8 growth increment of one attribute on reaching `lv`,
/// together with the generator state after the draw.
///
/// An attribute already above the level's upper bound grows by a single
/// uniform bit; otherwise the job's 4.4 increment is multiplied by a
/// multinomial draw with offset 136 and mask 31, shifted and masked to a
/// 4.4-aligned pattern, and scaled by the personality's growth factor.
pub open spec fn spec_growth_increment(
    je: JobEntry,
    pe: PersonalityTable,
    lv: u8,
    attr: Attr,
    before_bits: u16,
    s: u32,
) -> (int, u32) {
    if before_bits / 256 > je.spec_upper(lv as int, attr) {
        let s1 = spec_next(s);
        ((spec_low_byte(s1) % 2) * 256, s1)
    } else {
        let m = spec_multinomial(s, 136, 31);
        let randomized = (((je.spec_increment(lv, attr).bits * m) as u16) >> 3) & 0x0ff0;
        let factor_bits = pe.growth_factors.spec_get(attr).bits * 2;
        (mul_bits(randomized as int, factor_bits), spec_next_n(s, 16))
    }
}

/// One attribute's new 8.8 bit pattern after a level-up step: the increment
/// added with saturation, then clamped up to the level's lower bound.
pub open spec fn spec_attr_after(
    je: JobEntry,
    pe: PersonalityTable,
    lv: u8,
    attr: Attr,
    before_bits: u16,
    s: u32,
) -> (u16, u32) {
    let (inc, s1) = spec_growth_increment(je, pe, lv, attr, before_bits, s);
    let after = sat_add_bits(before_bits as int, inc);
    let lower_bits = je.spec_lower(lv as int, attr) * 256;
    if after < lower_bits {
        (lower_bits as u16, s1)
    } else {
        (after as u16, s1)
    }
}

/// The whole level-up: each attribute grown in order, then the derived
/// caps recomputed. The two purely physical jobs keep their magic points.
pub open spec fn spec_levelup(p: Player, je: JobEntry, pe: PersonalityTable, s: u32) -> (
    Player,
    u32,
) {
    let lv = (p.lv + 1) as u8;
    let (pow, s1) = spec_attr_after(je, pe, lv, Attr::Pow, p.attrs.power.bits, s);
    let (spd, s2) = spec_attr_after(je, pe, lv, Attr::Spd, p.attrs.speed.bits, s1);
    let (vit, s3) = spec_attr_after(je, pe, lv, Attr::Vit, p.attrs.vitality.bits, s2);
    let (itl, s4) = spec_attr_after(je, pe, lv, Attr::Int, p.attrs.intelligence.bits, s3);
    let (lck, s5) = spec_attr_after(je, pe, lv, Attr::Lck, p.attrs.luck.bits, s4);
    let max_hp = ((vit / 256) * 2) as u16;
    let max_mp = if p.job == Job::Soldier || p.job == Job::Fighter {
        p.max_mp
    } else {
        ((itl / 256) * 2) as u16
    };
    (
        Player {
            lv,
            max_hp,
            max_mp,
            attrs: AttrMap {
                power: AttrValue { bits: pow },
                speed: AttrValue { bits: spd },
                vitality: AttrValue { bits: vit },
                intelligence: AttrValue { bits: itl },
                luck: AttrValue { bits: lck },
            },
            sex: p.sex,
            personality: p.personality,
            job: p.job,
        },
        s5,
    )
}

/// The character after a job change: level 1, the new job, and the caps
/// and every attribute halved with truncation.
pub open spec fn spec_job_change(p: Player, job: Job) -> Player {
    Player {
        lv: 1,
        job,
        max_hp: (p.max_hp / 2) as u16,
        max_mp: (p.max_mp / 2) as u16,
        attrs: AttrMap {
            power: AttrValue { bits: (p.attrs.power.bits / 2) as u16 },
            speed: AttrValue { bits: (p.attrs.speed.bits / 2) as u16 },
            vitality: AttrValue { bits: (p.attrs.vitality.bits / 2) as u16 },
            intelligence: AttrValue { bits: (p.attrs.intelligence.bits / 2) as u16 },
            luck: AttrValue { bits: (p.attrs.luck.bits / 2) as u16 },
        },
        ..p
    }
}

impl Player {
    /// The current level.
    pub fn level(&self) -> (r: u8)
        ensures
            r == self.lv,
    {
        self.lv
    }

    /// The integer part of one attribute.
    pub fn attr(&self, attr: Attr) -> (r: u8)
        ensures
            r == self.attrs.spec_get(attr).bits / 256,
    {
        self.attrs.get(attr).floor()
    }

    /// The character's sex.
    pub fn sex(&self) -> (r: Sex)
        ensures
            r == self.sex,
    {
        self.sex
    }

    /// The current personality.
    pub fn personality(&self) -> (r: Personality)
        ensures
            r == self.personality,
    {
        self.personality
    }

    /// The current job.
    pub fn job(&self) -> (r: Job)
        ensures
            r == self.job,
    {
        self.job
    }

    /// Draw the growth increment of one attribute for reaching `lv`.
    fn growth_attr(
        &self,
        lv: u8,
        attr: Attr,
        rng: &mut Rng,
        je: &JobEntry,
        pe: &PersonalityTable,
    ) -> (r: AttrValue)
        requires
            2 <= lv <= 99,
            lv == self.lv,
            je.wf(),
            je.spec_standard_fits(lv as int, attr),
        ensures
            r.bits == spec_growth_increment(
                *je,
                *pe,
                lv,
                attr,
                self.attrs.spec_get(attr).bits,
                old(rng).state.0,
            ).0,
            final(rng).state.0 == spec_growth_increment(
                *je,
                *pe,
                lv,
                attr,
                self.attrs.spec_get(attr).bits,
                old(rng).state.0,
            ).1,
    {
        let upper = je.range_attr(self.lv, attr).1;
        if self.attr(attr) > upper {
            let b = rng.rand();
            return AttrValue::from_int(b % 2);
        }

        let base = je.attr_increment(self.lv, attr);
        proof {
            assert(32u16 != 0 && (32u16 & 31u16) == 0) by (bit_vector);
        }
        let m = rng.rand_multinomial(136, 31);
        proof {
            assert((base.bits as int) * (m as int) <= 255 * 255) by (nonlinear_arith)
                requires
                    base.bits <= 255,
                    m <= 255,
            ;
        }
        let scaled: u16 = (base.to_bits() as u16) * (m as u16);
        let randomized: u16 = (scaled >> 3) & 0x0ff0;
        proof {
            assert((scaled >> 3) & 0x0ff0 <= 0x0ff0) by (bit_vector);
        }
        let factor = pe.growth_factor(attr).to_attr_value();
        proof {
            assert((randomized as int) * (factor.bits as int) <= 4080 * 510) by (nonlinear_arith)
                requires
                    randomized <= 4080,
                    factor.bits <= 510,
            ;
            lemma_div_is_ordered((randomized as int) * (factor.bits as int), (4080 * 510) as int, 256);
        }
        AttrValue::from_bits(randomized).mul_truncating(factor)
    }

    /// Grow one attribute in place for reaching the current level.
    fn grow_one(&mut self, attr: Attr, rng: &mut Rng, je: &JobEntry, pe: &PersonalityTable)
        requires
            2 <= old(self).lv <= 99,
            je.wf(),
            je.spec_standard_fits(old(self).lv as int, attr),
        ensures
            final(self).attrs == old(self).attrs.spec_set(
                attr,
                AttrValue {
                    bits: spec_attr_after(
                        *je,
                        *pe,
                        old(self).lv,
                        attr,
                        old(self).attrs.spec_get(attr).bits,
                        old(rng).state.0,
                    ).0,
                },
            ),
            final(rng).state.0 == spec_attr_after(
                *je,
                *pe,
                old(self).lv,
                attr,
                old(self).attrs.spec_get(attr).bits,
                old(rng).state.0,
            ).1,
            final(self).lv == old(self).lv,
            final(self).max_hp == old(self).max_hp,
            final(self).max_mp == old(self).max_mp,
            final(self).sex == old(self).sex,
            final(self).personality == old(self).personality,
            final(self).job == old(self).job,
    {
        let before = *self.attrs.get(attr);
        let lower = je.range_attr(self.lv, attr).0;
        let inc = self.growth_attr(self.lv, attr, rng, je, pe);

        let mut after = before.saturating_add(inc);
        let lower_fixed = AttrValue::from_int(lower);
        if after.to_bits() < lower_fixed.to_bits() {
            after = lower_fixed;
        }
        self.attrs.set(attr, after);
    }

    /// Advance the character one level, growing every attribute and
    /// recomputing the derived caps.
    pub fn levelup(&mut self, rng: &mut Rng, jobs: &JobTable, personalities: &PersonalityTables)
        requires
            1 <= old(self).lv < 99,
            jobs.wf(),
            personalities.wf(),
            jobs.spec_entry(old(self).job).spec_standard_fits(old(self).lv + 1, Attr::Pow),
            jobs.spec_entry(old(self).job).spec_standard_fits(old(self).lv + 1, Attr::Spd),
            jobs.spec_entry(old(self).job).spec_standard_fits(old(self).lv + 1, Attr::Vit),
            jobs.spec_entry(old(self).job).spec_standard_fits(old(self).lv + 1, Attr::Int),
            jobs.spec_entry(old(self).job).spec_standard_fits(old(self).lv + 1, Attr::Lck),
        ensures
            *final(self) == spec_levelup(
                *old(self),
                jobs.spec_entry(old(self).job),
                personalities.spec_entry(old(self).personality),
                old(rng).state.0,
            ).0,
            final(rng).state.0 == spec_levelup(
                *old(self),
                jobs.spec_entry(old(self).job),
                personalities.spec_entry(old(self).personality),
                old(rng).state.0,
            ).1,
    {
        self.lv = self.lv + 1;

        let je = jobs.get_job_entry(self.job);
        let pe = personalities.get_personality_table(self.personality);

        self.grow_one(Attr::Pow, rng, je, pe);
        self.grow_one(Attr::Spd, rng, je, pe);
        self.grow_one(Attr::Vit, rng, je, pe);
        self.grow_one(Attr::Int, rng, je, pe);
        self.grow_one(Attr::Lck, rng, je, pe);

        self.max_hp = (self.attrs.get(Attr::Vit).floor() as u16) * 2;

        if !(self.job == Job::Soldier || self.job == Job::Fighter) {
            self.max_mp = (self.attrs.get(Attr::Int).floor() as u16) * 2;
        }
    }

    /// Change vocation: the level resets to 1 and the caps and every
    /// attribute are halved, truncating.
    pub fn job_change(&mut self, job: Job)
        ensures
            *final(self) == spec_job_change(*old(self), job),
            final(self).lv == 1,
            final(self).job == job,
            final(self).max_hp == old(self).max_hp / 2,
            final(self).max_mp == old(self).max_mp / 2,
            forall|a: Attr| (#[trigger] final(self).attrs.spec_get(a)).bits == old(
                self,
            ).attrs.spec_get(a).bits / 2,
            final(self).sex == old(self).sex,
            final(self).personality == old(self).personality,
    {
        self.lv = 1;
        self.job = job;

        self.max_hp = self.max_hp / 2;
        self.max_mp = self.max_mp / 2;
        self.attrs = AttrMap {
            power: AttrValue::from_bits(self.attrs.power.to_bits() / 2),
            speed: AttrValue::from_bits(self.attrs.speed.to_bits() / 2),
            vitality: AttrValue::from_bits(self.attrs.vitality.to_bits() / 2),
            intelligence: AttrValue::from_bits(self.attrs.intelligence.to_bits() / 2),
            luck: AttrValue::from_bits(self.attrs.luck.to_bits() / 2),
        };
    }

    /// Change personality: a pure assignment, effective from the next
    /// level-up's growth-factor lookup.
    pub fn personality_change(&mut self, personality: Personality)
        ensures
            *final(self) == (Player { personality, ..*old(self) }),
    {
        self.personality = personality;
    }
}

/// A starting hit-point or magic-point cap derived from the corresponding
/// attribute's integer part and one scaled draw.
pub open spec fn spec_init_cap(v: u8, s: u32) -> int {
    (v * (500 + spec_scaled(spec_low_byte(spec_next(s)), 25))) / 256
}

/// The starting cap for hit or magic points: the vitality or intelligence
/// value scaled by a randomized factor near two.
pub fn init_maxhp_or_maxmp(vit_or_int: u8, rng: &mut Rng) -> (r: u16)
    ensures
        final(rng).state.0 == spec_next(old(rng).state.0),
        r == spec_init_cap(vit_or_int, old(rng).state.0),
{
    let d = rng.rand_by_multiply(25);
    proof {
        assert((vit_or_int as int) * (500 + d as int) <= 255 * 525) by (nonlinear_arith)
            requires
                vit_or_int <= 255,
                d <= 25,
        ;
        lemma_div_is_ordered((vit_or_int as int) * (500 + d as int), (255 * 525) as int, 256);
    }
    ((vit_or_int as u32) * (500 + (d as u32)) / 256) as u16
}

/// The hero's flat bonus for one attribute: the growth factor's excess
/// over one, divided by the 8.8 pattern closest to one twentieth.
pub open spec fn spec_hero_bonus_bits(pe: PersonalityTable, attr: Attr) -> int {
    div_bits(sat_sub_bits(pe.growth_factors.spec_get(attr).bits * 2, 256), 13)
}

/// One starting hero attribute: the job's initial value plus a uniform
/// bit, scaled by the personality factor, plus the flat bonus; and the
/// generator state after the draw.
pub open spec fn spec_hero_attr(
    je: JobEntry,
    pe: PersonalityTable,
    sex: Sex,
    attr: Attr,
    s: u32,
) -> (int, u32) {
    let s1 = spec_next(s);
    let r = spec_low_byte(s1) & 1;
    let factor = pe.growth_factors.spec_get(attr).bits * 2;
    let base = je.spec_initial(attr, sex) * 256 + r * 256;
    (mul_bits(base, factor) + spec_hero_bonus_bits(pe, attr), s1)
}

/// Whether the hero's starting arithmetic stays representable for one
/// attribute, whichever way the uniform bit falls.
pub open spec fn spec_hero_fits_at(
    je: JobEntry,
    pe: PersonalityTable,
    sex: Sex,
    attr: Attr,
) -> bool {
    let factor = pe.growth_factors.spec_get(attr).bits * 2;
    let base_max = je.spec_initial(attr, sex) * 256 + 256;
    &&& base_max <= 0xffff
    &&& mul_bits(base_max, factor) + spec_hero_bonus_bits(pe, attr) <= 0xffff
}

/// Whether the hero's starting arithmetic stays representable throughout.
pub open spec fn spec_hero_fits(je: JobEntry, pe: PersonalityTable, sex: Sex) -> bool {
    forall|a: Attr| #[trigger] spec_hero_fits_at(je, pe, sex, a)
}

/// The whole starting hero: five attribute draws in order, then the two
/// starting caps.
pub open spec fn spec_hero(
    je: JobEntry,
    pe: PersonalityTable,
    sex: Sex,
    personality: Personality,
    s: u32,
) -> (Player, u32) {
    let (pow, s1) = spec_hero_attr(je, pe, sex, Attr::Pow, s);
    let (spd, s2) = spec_hero_attr(je, pe, sex, Attr::Spd, s1);
    let (vit, s3) = spec_hero_attr(je, pe, sex, Attr::Vit, s2);
    let (itl, s4) = spec_hero_attr(je, pe, sex, Attr::Int, s3);
    let (lck, s5) = spec_hero_attr(je, pe, sex, Attr::Lck, s4);
    let max_hp = spec_init_cap(((vit as u16) / 256) as u8, s5);
    let s6 = spec_next(s5);
    let max_mp = spec_init_cap(((itl as u16) / 256) as u8, s6);
    let s7 = spec_next(s6);
    (
        Player {
            lv: 1,
            max_hp: max_hp as u16,
            max_mp: max_mp as u16,
            attrs: AttrMap {
                power: AttrValue { bits: pow as u16 },
                speed: AttrValue { bits: spd as u16 },
                vitality: AttrValue { bits: vit as u16 },
                intelligence: AttrValue { bits: itl as u16 },
                luck: AttrValue { bits: lck as u16 },
            },
            sex,
            personality,
            job: Job::Hero,
        },
        s7,
    )
}

/// Draw one starting hero attribute.
fn hero_attr(
    je: &JobEntry,
    pe: &PersonalityTable,
    sex: Sex,
    attr: Attr,
    rng: &mut Rng,
) -> (r: AttrValue)
    requires
        spec_hero_fits_at(*je, *pe, sex, attr),
    ensures
        r.bits == spec_hero_attr(*je, *pe, sex, attr, old(rng).state.0).0,
        final(rng).state.0 == spec_hero_attr(*je, *pe, sex, attr, old(rng).state.0).1,
{
    let init = AttrValue::from_int(je.initial_attr(attr, sex));
    let factor = pe.growth_factor(attr).to_attr_value();
    let b = rng.rand();
    let drawn = AttrValue::from_int(b & 1);
    proof {
        assert((b & 1) <= 1) by (bit_vector);
        lemma_div_is_ordered(
            sat_sub_bits(factor.bits as int, 256) * 256,
            (254 * 256) as int,
            13,
        );
    }
    let bonus = factor.saturating_sub(AttrValue::from_int(1)).div_truncating(
        AttrValue::from_bits(13),
    );
    let base = init.saturating_add(drawn);
    proof {
        assert(mul_bits(base.bits as int, factor.bits as int) <= mul_bits(
            je.spec_initial(attr, sex) * 256 + 256,
            factor.bits as int,
        )) by {
            assert((base.bits as int) * (factor.bits as int) <= (je.spec_initial(attr, sex) * 256
                + 256) * (factor.bits as int)) by (nonlinear_arith)
                requires
                    base.bits as int <= je.spec_initial(attr, sex) * 256 + 256,
                    factor.bits >= 0,
            ;
            lemma_div_is_ordered(
                (base.bits as int) * (factor.bits as int),
                (je.spec_initial(attr, sex) * 256 + 256) * (factor.bits as int),
                256,
            );
        }
    }
    let grown = base.mul_truncating(factor);
    grown.saturating_add(bonus)
}

/// A starting hero: explicit initial attributes drawn from the hero job's
/// initial values, the personality's factors, and seven draws in all.
pub fn init_attr_of_hero(
    sex: Sex,
    personality: Personality,
    rng: &mut Rng,
    jobs: &JobTable,
    personalities: &PersonalityTables,
) -> (r: Player)
    requires
        jobs.wf(),
        personalities.wf(),
        spec_hero_fits(
            jobs.spec_entry(Job::Hero),
            personalities.spec_entry(personality),
            sex,
        ),
    ensures
        r == spec_hero(
            jobs.spec_entry(Job::Hero),
            personalities.spec_entry(personality),
            sex,
            personality,
            old(rng).state.0,
        ).0,
        final(rng).state.0 == spec_hero(
            jobs.spec_entry(Job::Hero),
            personalities.spec_entry(personality),
            sex,
            personality,
            old(rng).state.0,
        ).1,
{
    let je = jobs.get_job_entry(Job::Hero);
    let pe = personalities.get_personality_table(personality);

    let power = hero_attr(je, pe, sex, Attr::Pow, rng);
    let speed = hero_attr(je, pe, sex, Attr::Spd, rng);
    let vitality = hero_attr(je, pe, sex, Attr::Vit, rng);
    let intelligence = hero_attr(je, pe, sex, Attr::Int, rng);
    let luck = hero_attr(je, pe, sex, Attr::Lck, rng);
    let attrs = AttrMap { power, speed, vitality, intelligence, luck };

    let max_hp = init_maxhp_or_maxmp(attrs.vitality.floor(), rng);
    let max_mp = init_maxhp_or_maxmp(attrs.intelligence.floor(), rng);

    Player { lv: 1, max_hp, max_mp, attrs, sex, personality, job: Job::Hero }
}

/// An explicit initializer record: starting level, caps, attributes and
/// identity, used to build a character without the growth algorithm.
#[derive(Debug, Clone)]
pub struct PlayerInit {
    pub lv: u8,
    pub max_hp: u16,
    pub max_mp: u16,
    pub power: u8,
    pub speed: u8,
    pub vitality: u8,
    pub intelligence: u8,
    pub luck: u8,
    pub sex: Sex,
    pub personality: Personality,
    pub job: Job,
}

impl Default for PlayerInit {
    /// A fresh level-1 soldier of ordinary personality with empty stats.
    fn default() -> (r: Self)
        ensures
            r == (PlayerInit {
                lv: 1,
                max_hp: 1,
                max_mp: 0,
                power: 0,
                speed: 0,
                vitality: 0,
                intelligence: 0,
                luck: 0,
                sex: Sex::Man,
                personality: Personality::Ordinary,
                job: Job::Soldier,
            }),
    {
        PlayerInit {
            lv: 1,
            max_hp: 1,
            max_mp: 0,
            power: 0,
            speed: 0,
            vitality: 0,
            intelligence: 0,
            luck: 0,
            sex: Sex::Man,
            personality: Personality::Ordinary,
            job: Job::Soldier,
        }
    }
}

impl PlayerInit {
    /// The character described by this record, attributes widened into the
    /// 8.8 domain.
    pub fn init(self) -> (r: Player)
        ensures
            r.lv == self.lv,
            r.max_hp == self.max_hp,
            r.max_mp == self.max_mp,
            r.attrs.power.bits == self.power as int * 256,
            r.attrs.speed.bits == self.speed as int * 256,
            r.attrs.vitality.bits == self.vitality as int * 256,
            r.attrs.intelligence.bits == self.intelligence as int * 256,
            r.attrs.luck.bits == self.luck as int * 256,
            r.sex == self.sex,
            r.personality == self.personality,
            r.job == self.job,
    {
        let attrs = attrs_new(self.power, self.speed, self.vitality, self.intelligence, self.luck);

        Player {
            lv: self.lv,
            max_hp: self.max_hp,
            max_mp: self.max_mp,
            attrs,
            sex: self.sex,
            personality: self.personality,
            job: self.job,
        }
    }
}

} // verus!
