//! Configured growth runs: a starting record plus a list of level targets,
//! job changes and personality changes, replayed deterministically.
//!
//! A raw configuration names target levels; `PlayerGrowther::from_config`
//! normalizes it into one entry per growth step, and `advance` replays one
//! step at a time. `run_config` replays a raw configuration directly,
//! levelling up to each target before applying its changes.

use vstd::prelude::*;
use crate::attr::AttrMap;
use crate::fixedpoint::AttrValue;
use crate::job::{Job, JobTable};
use crate::personality::{Personality, PersonalityTables};
use crate::player::{spec_job_change, spec_levelup, Player, PlayerInit};
use crate::rand::Rng;
use crate::sex::Sex;

verus! {

/// The starting identity and stats of a configured run. Unset attributes
/// default to one.
#[derive(Clone, Copy, Debug)]
pub struct GrowthInitEntry {
    pub job: Job,
    pub sex: Sex,
    pub personality: Personality,
    pub power: Option<u8>,
    pub speed: Option<u8>,
    pub vitality: Option<u8>,
    pub intelligence: Option<u8>,
    pub luck: Option<u8>,
}

/// One step of a configured run: a target level, optionally with a job
/// change or a personality change taking effect first.
#[derive(Clone, Copy, Debug)]
pub struct GrowthConfigEntry {
    pub lv: u8,
    pub job: Option<Job>,
    pub personality: Option<Personality>,
}

/// A whole growth configuration: the starting record and the steps.
#[derive(Clone, Debug)]
pub struct GrowthConfig {
    pub init: GrowthInitEntry,
    pub configs: Vec<GrowthConfigEntry>,
}

/// The character a configuration starts from: level 1, every attribute 1
/// except the configured vitality, and the default caps.
pub open spec fn spec_initial_player(init: GrowthInitEntry) -> Player {
    Player {
        lv: 1,
        max_hp: 1,
        max_mp: 0,
        attrs: AttrMap {
            power: AttrValue { bits: 256 },
            speed: AttrValue { bits: 256 },
            vitality: AttrValue { bits: (init.vitality.unwrap() * 256) as u16 },
            intelligence: AttrValue { bits: 256 },
            luck: AttrValue { bits: 256 },
        },
        sex: init.sex,
        personality: init.personality,
        job: init.job,
    }
}

/// The option's job if set, else the running job.
pub open spec fn spec_job_or(o: Option<Job>, job: Job) -> Job {
    if o is Some {
        o.unwrap()
    } else {
        job
    }
}

/// The normalized entries for one raw step: one entry per level from
/// `lv + 1` up to `new_lv`, all with the step's job and personality.
pub open spec fn spec_push_range(lv: u8, new_lv: u8, job: Job, personality: Personality) -> Seq<
    GrowthConfigEntry,
> {
    if new_lv >= lv + 1 {
        Seq::new(
            (new_lv - lv) as nat,
            |i: int|
                GrowthConfigEntry {
                    lv: (lv + 1 + i) as u8,
                    job: Some(job),
                    personality: Some(personality),
                },
        )
    } else {
        Seq::empty()
    }
}

/// The normalization of a raw step list, carrying the running level, job
/// and personality: a job change resets the running level to one.
pub open spec fn spec_expand(
    entries: Seq<GrowthConfigEntry>,
    lv: u8,
    job: Job,
    personality: Personality,
) -> Seq<GrowthConfigEntry>
    decreases entries.len(),
{
    if entries.len() == 0 {
        Seq::empty()
    } else {
        let e = entries[0];
        let lv0: u8 = if e.job is Some {
            1u8
        } else {
            lv
        };
        let job1 = spec_job_or(e.job, job);
        let pers1 = if e.personality is Some {
            e.personality.unwrap()
        } else {
            personality
        };
        spec_push_range(lv0, e.lv, job1, pers1) + spec_expand(
            entries.drop_first(),
            e.lv,
            job1,
            pers1,
        )
    }
}

/// A raw step list a normalized run can be built from: levels stay within
/// `1..=99`, targets never move backwards within a job, and a job change
/// names a different job and a target of at least two.
pub open spec fn spec_config_ok(entries: Seq<GrowthConfigEntry>, lv: u8, job: Job) -> bool
    decreases entries.len(),
{
    if entries.len() == 0 {
        true
    } else {
        let e = entries[0];
        &&& 1 <= e.lv <= 99
        &&& (e.job is Some ==> e.job.unwrap() != job && e.lv >= 2)
        &&& (e.job is None ==> e.lv >= lv)
        &&& spec_config_ok(entries.drop_first(), e.lv, spec_job_or(e.job, job))
    }
}

/// The running level and job left after folding a raw step list.
pub open spec fn spec_cfg_final(entries: Seq<GrowthConfigEntry>, lv: u8, job: Job) -> (u8, Job)
    decreases entries.len(),
{
    if entries.len() == 0 {
        (lv, job)
    } else {
        spec_cfg_final(entries.drop_first(), entries[0].lv, spec_job_or(entries[0].job, job))
    }
}

/// Every normalized entry names a job and a personality.
pub open spec fn spec_entries_defined(entries: Seq<GrowthConfigEntry>) -> bool {
    forall|i: int|
        0 <= i < entries.len() ==> (#[trigger] entries[i]).job is Some && entries[i].personality
            is Some
}

/// The level-and-job walk that replaying entries performs, starting at
/// `(lv, job)`: the final level, the final job, and whether every level-up
/// along the way starts below level 99.
pub open spec fn spec_sim_seq(entries: Seq<GrowthConfigEntry>, lv: int, job: Job) -> (
    int,
    Job,
    bool,
)
    decreases entries.len(),
{
    if entries.len() == 0 {
        (lv, job, true)
    } else {
        let e = entries[0];
        if e.job == Some(job) {
            let r = spec_sim_seq(entries.drop_first(), lv + 1, job);
            (r.0, r.1, lv < 99 && r.2)
        } else {
            spec_sim_seq(entries.drop_first(), 1, spec_job_or(e.job, job))
        }
    }
}

/// Walking a concatenation is walking the first part, then the second
/// from where the first ended.
proof fn lemma_sim_append(a: Seq<GrowthConfigEntry>, b: Seq<GrowthConfigEntry>, lv: int, job: Job)
    ensures
        ({
            let ra = spec_sim_seq(a, lv, job);
            let rb = spec_sim_seq(b, ra.0, ra.1);
            spec_sim_seq(a + b, lv, job) == (rb.0, rb.1, ra.2 && rb.2)
        }),
    decreases a.len(),
{
    if a.len() == 0 {
        assert(a + b =~= b);
    } else {
        assert((a + b).drop_first() =~= a.drop_first() + b);
        let e = a[0];
        if e.job == Some(job) {
            lemma_sim_append(a.drop_first(), b, lv + 1, job);
        } else {
            lemma_sim_append(a.drop_first(), b, 1, spec_job_or(e.job, job));
        }
    }
}

/// Walking a normalized range with the job it was pushed for raises the
/// level by the range's length, without reaching level 99 first.
proof fn lemma_sim_range(lv0: u8, new_lv: u8, job: Job, pers: Personality, plv: int)
    requires
        1 <= plv <= lv0,
        new_lv <= 99,
    ensures
        ({
            let r = spec_sim_seq(spec_push_range(lv0, new_lv, job, pers), plv, job);
            &&& r.2
            &&& r.1 == job
            &&& r.0 == if new_lv >= lv0 + 1 {
                plv + (new_lv - lv0)
            } else {
                plv
            }
        }),
    decreases new_lv - lv0,
{
    let range = spec_push_range(lv0, new_lv, job, pers);
    if new_lv >= lv0 + 1 {
        assert(range[0].job == Some(job));
        assert(range.drop_first() =~= spec_push_range((lv0 + 1) as u8, new_lv, job, pers));
        lemma_sim_range((lv0 + 1) as u8, new_lv, job, pers, plv + 1);
    }
}

/// Normalized entries all name a job and a personality.
proof fn lemma_expand_defined(entries: Seq<GrowthConfigEntry>, lv: u8, job: Job, pers: Personality)
    ensures
        spec_entries_defined(spec_expand(entries, lv, job, pers)),
    decreases entries.len(),
{
    if entries.len() > 0 {
        let e = entries[0];
        let lv0: u8 = if e.job is Some {
            1u8
        } else {
            lv
        };
        let job1 = spec_job_or(e.job, job);
        let pers1 = if e.personality is Some {
            e.personality.unwrap()
        } else {
            pers
        };
        lemma_expand_defined(entries.drop_first(), e.lv, job1, pers1);
        assert forall|i: int|
            0 <= i < spec_expand(entries, lv, job, pers).len() implies (#[trigger] spec_expand(
            entries,
            lv,
            job,
            pers,
        )[i]).job is Some && spec_expand(entries, lv, job, pers)[i].personality is Some by {
            let range = spec_push_range(lv0, e.lv, job1, pers1);
            if i >= range.len() {
                assert(spec_expand(entries, lv, job, pers)[i] == spec_expand(
                    entries.drop_first(),
                    e.lv,
                    job1,
                    pers1,
                )[i - range.len()]);
            }
        }
    }
}

/// Walking the normalization of an acceptable raw step list never starts
/// a level-up at 99, and ends at or below the running target level.
proof fn lemma_sim_expand(
    entries: Seq<GrowthConfigEntry>,
    lv: u8,
    job: Job,
    pers: Personality,
    plv: int,
)
    requires
        spec_config_ok(entries, lv, job),
        1 <= plv <= lv,
        lv <= 99,
    ensures
        ({
            let r = spec_sim_seq(spec_expand(entries, lv, job, pers), plv, job);
            &&& r.2
            &&& r.1 == spec_cfg_final(entries, lv, job).1
            &&& 1 <= r.0 <= spec_cfg_final(entries, lv, job).0
        }),
    decreases entries.len(),
{
    if entries.len() > 0 {
        let e = entries[0];
        let lv0: u8 = if e.job is Some {
            1u8
        } else {
            lv
        };
        let job1 = spec_job_or(e.job, job);
        let pers1 = if e.personality is Some {
            e.personality.unwrap()
        } else {
            pers
        };
        let range = spec_push_range(lv0, e.lv, job1, pers1);
        let rest = spec_expand(entries.drop_first(), e.lv, job1, pers1);
        lemma_sim_append(range, rest, plv, job);
        if e.job is Some {
            assert(e.lv >= 2);
            assert(range.len() == (e.lv - 1) as nat);
            assert(range[0].job == Some(job1));
            assert(range[0].job != Some(job));
            assert(range.drop_first() =~= spec_push_range(2u8, e.lv, job1, pers1));
            lemma_sim_range(2u8, e.lv, job1, pers1, 1);
            let r_range = spec_sim_seq(range, plv, job);
            assert(r_range.1 == job1 && r_range.2 && 1 <= r_range.0 <= e.lv);
            lemma_sim_expand(entries.drop_first(), e.lv, job1, pers1, r_range.0);
        } else {
            lemma_sim_range(lv, e.lv, job, pers1, plv);
            let r_range = spec_sim_seq(range, plv, job);
            assert(r_range.1 == job && r_range.2 && 1 <= r_range.0 <= e.lv);
            lemma_sim_expand(entries.drop_first(), e.lv, job1, pers1, r_range.0);
        }
    }
}

/// The full state transformation of replaying entries from position `i`:
/// each entry applies its personality, then either changes job or levels
/// up, consuming the generator only on level-ups.
pub open spec fn spec_run(
    entries: Seq<GrowthConfigEntry>,
    i: int,
    p: Player,
    s: u32,
    jobs: JobTable,
    personalities: PersonalityTables,
) -> (Player, u32)
    decreases entries.len() - i,
{
    if i < 0 || i >= entries.len() {
        (p, s)
    } else {
        let e = entries[i];
        let p1 = Player { personality: e.personality.unwrap(), ..p };
        if e.job == Some(p1.job) {
            let r1 = spec_levelup(
                p1,
                jobs.spec_entry(p1.job),
                personalities.spec_entry(p1.personality),
                s,
            );
            spec_run(entries, i + 1, r1.0, r1.1, jobs, personalities)
        } else {
            spec_run(entries, i + 1, spec_job_change(p1, e.job.unwrap()), s, jobs, personalities)
        }
    }
}

/// A replayable growth run: the normalized configuration, the position of
/// the next step, and the character state reached so far.
#[derive(Clone, Debug)]
pub struct PlayerGrowther {
    pub config: GrowthConfig,
    pub iter_i: usize,
    pub player: Player,
}

impl PlayerGrowther {
    /// Normalize a raw configuration into one entry per growth step and
    /// set up the starting character.
    pub fn from_config(config: &GrowthConfig) -> (r: PlayerGrowther)
        requires
            config.init.vitality is Some,
            spec_config_ok(config.configs@, 1, config.init.job),
        ensures
            r.config.init == config.init,
            r.config.configs@ == spec_expand(
                config.configs@,
                1,
                config.init.job,
                config.init.personality,
            ),
            r.iter_i == 0,
            r.player == spec_initial_player(config.init),
            spec_entries_defined(r.config.configs@),
            spec_sim_seq(r.config.configs@, 1, config.init.job).2,
    {
        let mut new_configs: Vec<GrowthConfigEntry> = Vec::new();
        let mut lv: u8 = 1;
        let mut job: Job = config.init.job;
        let mut personality: Personality = config.init.personality;

        let player = PlayerInit {
            lv: 1,
            max_hp: 1,
            max_mp: 0,
            power: 1,
            speed: 1,
            vitality: config.init.vitality.unwrap(),
            intelligence: 1,
            luck: 1,
            sex: config.init.sex,
            personality,
            job,
        }.init();

        let ghost full = config.configs@;
        let ghost j0 = config.init.job;
        let ghost p0 = config.init.personality;
        proof {
            assert(full.skip(0) =~= full);
            assert(new_configs@ + spec_expand(full, 1, j0, p0) =~= spec_expand(full, 1, j0, p0));
        }
        let mut k: usize = 0;
        while k < config.configs.len()
            invariant
                k <= full.len(),
                full == config.configs@,
                spec_config_ok(full.skip(k as int), lv, job),
                1 <= lv <= 99,
                spec_expand(full, 1, j0, p0) == new_configs@ + spec_expand(
                    full.skip(k as int),
                    lv,
                    job,
                    personality,
                ),
            decreases full.len() - k,
        {
            let e = config.configs[k];
            proof {
                assert(full.skip(k as int)[0] == full[k as int]);
                assert(full.skip(k as int).drop_first() =~= full.skip(k as int + 1));
            }
            let new_lv = e.lv;
            if let Some(new_job) = e.job {
                lv = 1;
                job = new_job;
            }
            if let Some(new_p) = e.personality {
                personality = new_p;
            }

            let ghost base = new_configs@;
            let mut l: u8 = lv + 1;
            while l <= new_lv
                invariant
                    lv + 1 <= l,
                    l <= new_lv + 1 || l == lv + 1,
                    new_lv <= 99,
                    lv <= 99,
                    new_configs@ == base + Seq::new(
                        (l - (lv + 1)) as nat,
                        |i: int|
                            GrowthConfigEntry {
                                lv: (lv + 1 + i) as u8,
                                job: Some(job),
                                personality: Some(personality),
                            },
                    ),
                decreases new_lv + 1 - l,
            {
                new_configs.push(
                    GrowthConfigEntry { lv: l, job: Some(job), personality: Some(personality) },
                );
                l = l + 1;
            }
            proof {
                assert(new_configs@ =~= base + spec_push_range(lv, new_lv, job, personality));
            }
            lv = new_lv;
            k = k + 1;
        }
        proof {
            assert(full.skip(full.len() as int) =~= Seq::<GrowthConfigEntry>::empty());
            assert(new_configs@ =~= spec_expand(full, 1, j0, p0));
            lemma_expand_defined(full, 1, j0, p0);
            lemma_sim_expand(full, 1, j0, p0, 1);
        }
        PlayerGrowther {
            config: GrowthConfig { init: config.init, configs: new_configs },
            iter_i: 0,
            player,
        }
    }

    /// Replay one step: yield the current character, then apply the next
    /// normalized entry, if one remains. Past the end, yield nothing.
    pub fn advance(
        &mut self,
        rng: &mut Rng,
        jobs: &JobTable,
        personalities: &PersonalityTables,
    ) -> (r: Option<Player>)
        requires
            jobs.wf(),
            personalities.wf(),
            jobs.all_fits(),
            spec_entries_defined(old(self).config.configs@),
            old(self).config.configs@.len() < usize::MAX,
            1 <= old(self).player.lv <= 99,
            old(self).iter_i <= old(self).config.configs@.len() ==> spec_sim_seq(
                old(self).config.configs@.skip(old(self).iter_i as int),
                old(self).player.lv as int,
                old(self).player.job,
            ).2,
        ensures
            final(self).config == old(self).config,
            1 <= final(self).player.lv <= 99,
            final(self).iter_i <= final(self).config.configs@.len() ==> spec_sim_seq(
                final(self).config.configs@.skip(final(self).iter_i as int),
                final(self).player.lv as int,
                final(self).player.job,
            ).2,
            old(self).iter_i > old(self).config.configs@.len() ==> {
                &&& r is None
                &&& *final(self) == *old(self)
                &&& *final(rng) == *old(rng)
            },
            old(self).iter_i <= old(self).config.configs@.len() ==> {
                &&& r == Some(old(self).player)
                &&& final(self).iter_i == old(self).iter_i + 1
            },
            old(self).iter_i == old(self).config.configs@.len() ==> {
                &&& final(self).player == old(self).player
                &&& *final(rng) == *old(rng)
            },
            old(self).iter_i < old(self).config.configs@.len() ==> ({
                let e = old(self).config.configs@[old(self).iter_i as int];
                let p1 = Player { personality: e.personality.unwrap(), ..old(self).player };
                if e.job == Some(p1.job) {
                    &&& final(self).player == spec_levelup(
                        p1,
                        jobs.spec_entry(p1.job),
                        personalities.spec_entry(p1.personality),
                        old(rng).state.0,
                    ).0
                    &&& final(rng).state.0 == spec_levelup(
                        p1,
                        jobs.spec_entry(p1.job),
                        personalities.spec_entry(p1.personality),
                        old(rng).state.0,
                    ).1
                } else {
                    &&& final(self).player == spec_job_change(p1, e.job.unwrap())
                    &&& *final(rng) == *old(rng)
                }
            }),
    {
        if self.iter_i > self.config.configs.len() {
            return None;
        }

        let ret = Some(self.player);
        self.iter_i = self.iter_i + 1;

        if self.iter_i <= self.config.configs.len() {
            proof {
                assert(self.config.configs@.skip(old(self).iter_i as int)[0] == self.config.configs@[old(
                    self,
                ).iter_i as int]);
                assert(self.config.configs@.skip(old(self).iter_i as int).drop_first()
                    =~= self.config.configs@.skip(old(self).iter_i as int + 1));
            }
            let e = self.config.configs[self.iter_i - 1];
            self.player.personality_change(e.personality.unwrap());

            let target_job = e.job.unwrap();
            if self.player.job() != target_job {
                self.player.job_change(target_job);
            } else {
                self.player.levelup(rng, jobs, personalities);
            }
        }

        ret
    }

    /// Replay every remaining step and return the final character.
    pub fn finalize(
        &mut self,
        rng: &mut Rng,
        jobs: &JobTable,
        personalities: &PersonalityTables,
    ) -> (r: Player)
        requires
            jobs.wf(),
            personalities.wf(),
            jobs.all_fits(),
            spec_entries_defined(old(self).config.configs@),
            old(self).config.configs@.len() < usize::MAX,
            1 <= old(self).player.lv <= 99,
            old(self).iter_i <= old(self).config.configs@.len(),
            spec_sim_seq(
                old(self).config.configs@.skip(old(self).iter_i as int),
                old(self).player.lv as int,
                old(self).player.job,
            ).2,
        ensures
            r == spec_run(
                old(self).config.configs@,
                old(self).iter_i as int,
                old(self).player,
                old(rng).state.0,
                *jobs,
                *personalities,
            ).0,
            final(rng).state.0 == spec_run(
                old(self).config.configs@,
                old(self).iter_i as int,
                old(self).player,
                old(rng).state.0,
                *jobs,
                *personalities,
            ).1,
            final(self).player == r,
            final(self).iter_i == old(self).config.configs@.len() + 1,
            final(self).config == old(self).config,
    {
        let ghost entries = self.config.configs@;
        let ghost target = spec_run(
            entries,
            old(self).iter_i as int,
            old(self).player,
            old(rng).state.0,
            *jobs,
            *personalities,
        );
        while self.iter_i <= self.config.configs.len()
            invariant
                jobs.wf(),
                personalities.wf(),
                jobs.all_fits(),
                self.config == old(self).config,
                entries == self.config.configs@,
                entries.len() < usize::MAX,
                spec_entries_defined(entries),
                1 <= self.player.lv <= 99,
                self.iter_i <= entries.len() + 1,
                self.iter_i <= entries.len() ==> spec_sim_seq(
                    entries.skip(self.iter_i as int),
                    self.player.lv as int,
                    self.player.job,
                ).2,
                spec_run(entries, self.iter_i as int, self.player, rng.state.0, *jobs, *personalities)
                    == target,
            decreases entries.len() + 1 - self.iter_i,
        {
            let _ = self.advance(rng, jobs, personalities);
        }
        self.player
    }
}

/// Each level-up needed to reach `target`, applied in order; characters at
/// or above the target are left as they are.
pub open spec fn spec_levelups_to(
    p: Player,
    target: u8,
    s: u32,
    jobs: JobTable,
    personalities: PersonalityTables,
) -> (Player, u32)
    decreases target - p.lv,
{
    if p.lv >= target {
        (p, s)
    } else {
        let r1 = spec_levelup(p, jobs.spec_entry(p.job), personalities.spec_entry(p.personality), s);
        spec_levelups_to(r1.0, target, r1.1, jobs, personalities)
    }
}

/// Replaying a raw step list from position `i`: level up to each entry's
/// target, then apply its job change and personality change, if any.
pub open spec fn spec_run_config(
    entries: Seq<GrowthConfigEntry>,
    i: int,
    p: Player,
    s: u32,
    jobs: JobTable,
    personalities: PersonalityTables,
) -> (Player, u32)
    decreases entries.len() - i,
{
    if i < 0 || i >= entries.len() {
        (p, s)
    } else {
        let e = entries[i];
        let r1 = spec_levelups_to(p, e.lv, s, jobs, personalities);
        let p2 = if e.job is Some {
            spec_job_change(r1.0, e.job.unwrap())
        } else {
            r1.0
        };
        let p3 = if e.personality is Some {
            Player { personality: e.personality.unwrap(), ..p2 }
        } else {
            p2
        };
        spec_run_config(entries, i + 1, p3, r1.1, jobs, personalities)
    }
}

/// Replay a raw configuration: build the starting character, then walk
/// the steps, levelling up to each target before applying its changes.
pub fn run_config(
    config: &GrowthConfig,
    rng: &mut Rng,
    jobs: &JobTable,
    personalities: &PersonalityTables,
) -> (r: Player)
    requires
        jobs.wf(),
        personalities.wf(),
        jobs.all_fits(),
        config.init.vitality is Some,
        forall|i: int|
            0 <= i < config.configs@.len() ==> (#[trigger] config.configs@[i]).lv <= 99,
    ensures
        r == spec_run_config(
            config.configs@,
            0,
            spec_initial_player(config.init),
            old(rng).state.0,
            *jobs,
            *personalities,
        ).0,
        final(rng).state.0 == spec_run_config(
            config.configs@,
            0,
            spec_initial_player(config.init),
            old(rng).state.0,
            *jobs,
            *personalities,
        ).1,
{
    let mut player = PlayerInit {
        lv: 1,
        max_hp: 1,
        max_mp: 0,
        power: 1,
        speed: 1,
        vitality: config.init.vitality.unwrap(),
        intelligence: 1,
        luck: 1,
        sex: config.init.sex,
        personality: config.init.personality,
        job: config.init.job,
    }.init();

    let ghost entries = config.configs@;
    let ghost target = spec_run_config(
        entries,
        0,
        player,
        rng.state.0,
        *jobs,
        *personalities,
    );

    let mut k: usize = 0;
    while k < config.configs.len()
        invariant
            jobs.wf(),
            personalities.wf(),
            jobs.all_fits(),
            entries == config.configs@,
            k <= entries.len(),
            forall|i: int| 0 <= i < entries.len() ==> (#[trigger] entries[i]).lv <= 99,
            player.lv >= 1,
            spec_run_config(entries, k as int, player, rng.state.0, *jobs, *personalities)
                == target,
        decreases entries.len() - k,
    {
        let e = config.configs[k];
        let target_lv = e.lv;

        let ghost inner_target = spec_levelups_to(
            player,
            target_lv,
            rng.state.0,
            *jobs,
            *personalities,
        );
        while player.level() < target_lv
            invariant
                jobs.wf(),
                personalities.wf(),
                jobs.all_fits(),
                target_lv <= 99,
                player.lv >= 1,
                spec_levelups_to(player, target_lv, rng.state.0, *jobs, *personalities)
                    == inner_target,
            decreases target_lv - player.lv,
        {
            player.levelup(rng, jobs, personalities);
        }

        if let Some(j) = e.job {
            player.job_change(j);
        }
        if let Some(pp) = e.personality {
            player.personality_change(pp);
        }
        k = k + 1;
    }
    player
}

} // verus!
