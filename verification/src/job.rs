//! Jobs and their growth tables: experience curves, per-sex initial
//! attributes, and per-attribute growth bands.
//!
//! A job's growth curve is a step function over levels: an ordered list of
//! `(upper_lv, increment)` bands per attribute. The standard attribute value
//! at a level folds that curve with the saturating 8.8 accumulation, and the
//! valid range around it widens with the level.

use vstd::prelude::*;
use vstd::arithmetic::div_mod::lemma_fundamental_div_mod;
use crate::attr::{Attr, AttrMap};
use crate::fixedpoint::{sat_add_bits, AttrIncrementValue, AttrValue};
use crate::sex::Sex;

verus! {

/// A job kind.
#[derive(Clone, Copy, Debug, PartialEq, Eq, Structural)]
pub enum Job {
    Soldier,
    Fighter,
    Wizard,
    Pligrim,
    Merchant,
    GoofOff,
    Thief,
    Sage,
    Hero,
}

/// The position of a job in the job table.
pub open spec fn spec_job_index(job: Job) -> int {
    match job {
        Job::Soldier => 0,
        Job::Fighter => 1,
        Job::Wizard => 2,
        Job::Pligrim => 3,
        Job::Merchant => 4,
        Job::GoofOff => 5,
        Job::Thief => 6,
        Job::Sage => 7,
        Job::Hero => 8,
    }
}

/// The position of a job in the job table.
pub fn job_index(job: Job) -> (r: usize)
    ensures
        r == spec_job_index(job),
        r < 9,
{
    match job {
        Job::Soldier => 0,
        Job::Fighter => 1,
        Job::Wizard => 2,
        Job::Pligrim => 3,
        Job::Merchant => 4,
        Job::GoofOff => 5,
        Job::Thief => 6,
        Job::Sage => 7,
        Job::Hero => 8,
    }
}

/// Saturating sum of two unsigned byte quantities.
pub open spec fn sat_add_u8(a: int, b: int) -> int {
    if a + b > 255 {
        255
    } else {
        a + b
    }
}

/// Saturating difference of two unsigned byte quantities.
pub open spec fn sat_sub_u8(a: int, b: int) -> int {
    if a - b < 0 {
        0
    } else {
        a - b
    }
}

/// Saturating add on bytes.
pub fn sat8(a: u8, b: u8) -> (r: u8)
    ensures
        r == sat_add_u8(a as int, b as int),
{
    if a > 255 - b {
        255
    } else {
        a + b
    }
}

/// One growth band: `value` applies to levels strictly below `upper_lv`;
/// the last band applies to every remaining level.
#[derive(Clone, Copy, Debug, PartialEq, Eq, Structural)]
pub struct AttrIncrementEntry {
    pub upper_lv: u8,
    pub value: AttrIncrementValue,
}

/// The index of the band that covers `lv`, searching from position `i`:
/// the first band whose `upper_lv` exceeds `lv`, or the last band.
pub open spec fn spec_band_index_from(bands: Seq<AttrIncrementEntry>, lv: u8, i: int) -> int
    decreases bands.len() - i,
{
    if i >= bands.len() - 1 {
        bands.len() - 1
    } else if lv < bands[i].upper_lv {
        i
    } else {
        spec_band_index_from(bands, lv, i + 1)
    }
}

/// The index of the band that covers `lv`.
pub open spec fn spec_band_index(bands: Seq<AttrIncrementEntry>, lv: u8) -> int {
    spec_band_index_from(bands, lv, 0)
}

/// Initial attribute values for one attribute, one per sex.
#[derive(Clone, Copy, Debug, PartialEq, Eq, Structural)]
pub struct InitialAttrs {
    pub man: u8,
    pub women: u8,
}

impl InitialAttrs {
    /// The value for one sex.
    pub open spec fn spec_get(self, sex: Sex) -> u8 {
        match sex {
            Sex::Man => self.man,
            Sex::Women => self.women,
        }
    }

    /// Read the value for one sex.
    pub fn get(&self, sex: Sex) -> (r: u8)
        ensures
            r == self.spec_get(sex),
    {
        match sex {
            Sex::Man => self.man,
            Sex::Women => self.women,
        }
    }
}

/// One job's growth data: name, experience-threshold curve, initial
/// attributes per sex, and growth bands per attribute.
#[derive(Clone, Debug)]
pub struct JobEntry {
    pub name: String,
    pub exps: Vec<u32>,
    pub attr_inits: AttrMap<InitialAttrs>,
    pub attr_increments: AttrMap<Vec<AttrIncrementEntry>>,
}

impl JobEntry {
    /// A job entry holding exactly the given data.
    pub fn new(
        name: String,
        exps: Vec<u32>,
        attr_inits: AttrMap<InitialAttrs>,
        attr_increments: AttrMap<Vec<AttrIncrementEntry>>,
    ) -> (r: JobEntry)
        ensures
            r == (JobEntry { name, exps, attr_inits, attr_increments }),
    {
        JobEntry { name, exps, attr_inits, attr_increments }
    }

    /// Shape of a well-formed entry: the experience curve has one value per
    /// level transition and every attribute has at least one growth band.
    pub open spec fn wf(self) -> bool {
        &&& self.exps@.len() == 98
        &&& forall|a: Attr| #[trigger] self.attr_increments.spec_get(a)@.len() >= 1
    }

    /// The 4.4 growth increment for reaching `lv`.
    pub open spec fn spec_increment(self, lv: u8, attr: Attr) -> AttrIncrementValue {
        let bands = self.attr_increments.spec_get(attr)@;
        bands[spec_band_index(bands, lv)].value
    }

    /// The growth increment for reaching level `lv`, read from the band
    /// whose range covers it.
    pub fn attr_increment(&self, lv: u8, attr: Attr) -> (r: AttrIncrementValue)
        requires
            2 <= lv <= 99,
            self.wf(),
        ensures
            r == self.spec_increment(lv, attr),
    {
        let bands: &Vec<AttrIncrementEntry> = self.attr_increments.get(attr);
        let n: usize = bands.len();
        let mut i: usize = 0;
        while i < n - 1 && bands[i].upper_lv <= lv
            invariant
                n == bands@.len(),
                1 <= n,
                i < n,
                spec_band_index(bands@, lv) == spec_band_index_from(bands@, lv, i as int),
            decreases n - i,
        {
            i = i + 1;
        }
        bands[i].value
    }

    /// The 8.8 bit pattern of the increments for levels `2..=lv`, folded
    /// with the saturating accumulation.
    pub open spec fn spec_sum_bits(self, attr: Attr, lv: int) -> int
        decreases lv,
    {
        if lv <= 1 {
            0
        } else {
            sat_add_bits(
                self.spec_sum_bits(attr, lv - 1),
                16 * self.spec_increment(lv as u8, attr).bits,
            )
        }
    }

    /// The saturating fold keeps the sum within the 8.8 range.
    pub proof fn lemma_sum_bits_bound(self, attr: Attr, lv: int)
        ensures
            0 <= self.spec_sum_bits(attr, lv) <= 0xffff,
        decreases lv,
    {
        if lv > 1 {
            self.lemma_sum_bits_bound(attr, lv - 1);
        }
    }

    /// The integer part of the accumulated increments for levels `2..=lv`.
    fn sum_of_attr_increments(&self, lv: u8, attr: Attr) -> (r: u8)
        requires
            1 <= lv <= 99,
            self.wf(),
        ensures
            r == self.spec_sum_bits(attr, lv as int) / 256,
    {
        if lv == 1 {
            return 0;
        }
        let mut acc = AttrValue::from_bits(0);
        let mut l: u8 = 2;
        while l <= lv
            invariant
                2 <= l <= lv + 1,
                lv <= 99,
                self.wf(),
                acc.bits == self.spec_sum_bits(attr, l - 1),
            decreases lv + 1 - l,
        {
            let inc = self.attr_increment(l, attr);
            acc = acc.saturating_add(inc.to_attr_value());
            l = l + 1;
        }
        acc.floor()
    }

    /// The initial value of one attribute for one sex.
    pub open spec fn spec_initial(self, attr: Attr, sex: Sex) -> u8 {
        self.attr_inits.spec_get(attr).spec_get(sex)
    }

    /// Read the initial value of one attribute for one sex.
    pub fn initial_attr(&self, attr: Attr, sex: Sex) -> (r: u8)
        ensures
            r == self.spec_initial(attr, sex),
    {
        self.attr_inits.get(attr).get(sex)
    }

    /// The standard attribute value at `lv`: the male-reference initial
    /// value plus the truncated accumulated increments.
    pub open spec fn spec_standard(self, lv: int, attr: Attr) -> int {
        self.spec_initial(attr, Sex::Man) + self.spec_sum_bits(attr, lv) / 256
    }

    /// Whether the standard value at `lv` stays representable in a byte.
    pub open spec fn spec_standard_fits(self, lv: int, attr: Attr) -> bool {
        self.spec_standard(lv, attr) <= 255
    }

    /// The standard attribute value at `lv`.
    pub fn standard_attr(&self, lv: u8, attr: Attr) -> (r: u8)
        requires
            1 <= lv <= 99,
            self.wf(),
            self.spec_standard_fits(lv as int, attr),
        ensures
            r == self.spec_standard(lv as int, attr),
    {
        let init = self.attr_inits.get(attr).get(Sex::Man);
        proof {
            self.lemma_sum_bits_bound(attr, lv as int);
        }
        init + self.sum_of_attr_increments(lv, attr)
    }

    /// The percentage that bounds natural variance below the standard value.
    pub open spec fn spec_lower_factor(attr: Attr) -> int {
        match attr {
            Attr::Pow | Attr::Spd => 70,
            Attr::Vit => 60,
            Attr::Int | Attr::Lck => 50,
        }
    }

    /// The upper bound of the valid range at `lv`.
    pub open spec fn spec_upper(self, lv: int, attr: Attr) -> int {
        sat_add_u8(sat_add_u8(self.spec_standard(lv, attr), 15), 2 * lv)
    }

    /// The lower bound of the valid range at `lv`.
    pub open spec fn spec_lower(self, lv: int, attr: Attr) -> int {
        (self.spec_standard(lv, attr) * Self::spec_lower_factor(attr)) / 100 + 1
    }

    /// The valid range `[lower, upper]` of one attribute at `lv`.
    pub fn range_attr(&self, lv: u8, attr: Attr) -> (r: (u8, u8))
        requires
            1 <= lv <= 99,
            self.wf(),
            self.spec_standard_fits(lv as int, attr),
        ensures
            r.0 == self.spec_lower(lv as int, attr),
            r.1 == self.spec_upper(lv as int, attr),
    {
        let standard = self.standard_attr(lv, attr);
        let upper = sat8(sat8(standard, 15), lv * 2);

        let lower_factor: u16 = match attr {
            Attr::Pow | Attr::Spd => 70,
            Attr::Vit => 60,
            Attr::Int | Attr::Lck => 50,
        };

        let scaled: u16 = (standard as u16) * lower_factor / 100;
        proof {
            assert((standard as int) * (lower_factor as int) <= 255 * 70) by (nonlinear_arith)
                requires
                    standard <= 255,
                    lower_factor <= 70,
            ;
            lemma_fundamental_div_mod((standard as int) * (lower_factor as int), 100);
        }
        let lower = (scaled as u8) + 1;
        (lower, upper)
    }

    /// The standard intelligence checked when a spell may be learned at
    /// `lv`: the accumulated increments to the previous level, plus five.
    pub open spec fn spec_standard_intelligence(self, lv: int) -> int {
        self.spec_sum_bits(Attr::Int, lv - 1) / 256 + 5
    }

    /// The standard intelligence for learning at `lv`.
    pub fn standard_intelligence_for_learning(&self, lv: u8) -> (r: u8)
        requires
            2 <= lv <= 99,
            self.wf(),
            self.spec_standard_intelligence(lv as int) <= 255,
        ensures
            r == self.spec_standard_intelligence(lv as int),
    {
        proof {
            self.lemma_sum_bits_bound(Attr::Int, lv as int - 1);
        }
        self.sum_of_attr_increments(lv - 1, Attr::Int) + 5
    }

    /// The `[low, high]` intelligence window for learning at `lv`, a fixed
    /// margin around the standard value.
    pub fn intelligence_thresh_for_learning(&self, lv: u8) -> (r: (u8, u8))
        requires
            2 <= lv <= 99,
            self.wf(),
            self.spec_standard_intelligence(lv as int) <= 255,
        ensures
            r.0 == sat_sub_u8(self.spec_standard_intelligence(lv as int), 15),
            r.1 == sat_add_u8(self.spec_standard_intelligence(lv as int), 11),
    {
        let std_int = self.standard_intelligence_for_learning(lv);

        let low = if std_int < 15 {
            0
        } else {
            std_int - 15
        };
        (low, sat8(std_int, 11))
    }
}

/// For every valid level and attribute with a positive standard value, the
/// range bounds enclose the standard value: `lower <= standard <= upper`.
pub proof fn lemma_range_attr_invariant(e: JobEntry, lv: int, attr: Attr)
    requires
        1 <= lv <= 99,
        e.spec_standard_fits(lv, attr),
        e.spec_standard(lv, attr) >= 1,
    ensures
        e.spec_lower(lv, attr) <= e.spec_standard(lv, attr) <= e.spec_upper(lv, attr),
{
    let s = e.spec_standard(lv, attr);
    let f = JobEntry::spec_lower_factor(attr);
    assert(s * f <= s * 100) by (nonlinear_arith)
        requires
            s >= 0,
            f <= 100,
    ;
    lemma_fundamental_div_mod(s * f, 100);
    assert(100 * ((s * f) / 100) <= s * f);
    assert(s * 100 == 100 * s) by (nonlinear_arith);
    assert((s * f) / 100 <= s);
    if (s * f) / 100 == s {
        assert(100 * s <= s * f);
        assert(f <= 70);
        assert(s * f <= s * 70) by (nonlinear_arith)
            requires
                s >= 0,
                f <= 70,
        ;
        assert(s * 70 == 70 * s) by (nonlinear_arith);
        assert(100 * s <= 70 * s);
        assert(false);
    }
}

/// The full job table, one entry per job, in job-index order.
#[derive(Clone, Debug)]
pub struct JobTable {
    pub entries: Vec<JobEntry>,
}

impl JobTable {
    /// A table holding exactly the given entries.
    pub fn new(entries: Vec<JobEntry>) -> (r: JobTable)
        ensures
            r.entries == entries,
    {
        JobTable { entries }
    }

    /// A well-formed table has exactly one well-formed entry per job.
    pub open spec fn wf(self) -> bool {
        &&& self.entries@.len() == 9
        &&& forall|j: Job| (#[trigger] self.spec_entry(j)).wf()
    }

    /// Whether every job's standard value stays representable at every
    /// valid level: the condition the growth arithmetic needs of a table.
    pub open spec fn all_fits(self) -> bool {
        forall|j: Job, lv: int, a: Attr|
            1 <= lv <= 99 ==> #[trigger] self.spec_entry(j).spec_standard_fits(lv, a)
    }

    /// The entry of one job.
    pub open spec fn spec_entry(self, job: Job) -> JobEntry {
        self.entries@[spec_job_index(job)]
    }

    /// Read the entry of one job.
    pub fn get_job_entry(&self, job: Job) -> (r: &JobEntry)
        requires
            self.entries@.len() == 9,
        ensures
            *r == self.spec_entry(job),
    {
        &self.entries[job_index(job)]
    }
}

} // verus!

