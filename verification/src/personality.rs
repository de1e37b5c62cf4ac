//! Personalities and their growth-factor tables.
//!
//! A personality scales each attribute's growth by a 1.7 fixed-point
//! factor, looked up once per attribute on every level-up.

use vstd::prelude::*;
use crate::attr::{Attr, AttrMap};
use crate::fixedpoint::GrowthFactor;

verus! {

/// A personality kind.
#[derive(Clone, Copy, Debug, PartialEq, Eq, Structural)]
pub enum Personality {
    Jock,
    Valiant,
    Bully,
    Amazon,
    Unique,
    Macho,
    Tomboy,
    Fearless,
    Lewd,
    Foolish,
    Deflant,
    Carefree,
    Naive,
    Stubborn,
    Ladylike,
    Honest,
    Ordinary,
    Quick,
    Agile,
    Alert,
    Sharp,
    Twisted,
    Vain,
    Selfish,
    Weepy,
    Lonesome,
    Tough,
    Ironman,
    Hekotarenai,
    Diligent,
    Eager,
    Meddler,
    Lazy,
    Smart,
    Logical,
    Romantic,
    Helpless,
    Lucky,
    Happy,
    Careless,
    Solitary,
    Cowardly,
    Silly,
    Timid,
    Kindly,
    Sexy,
}

/// The position of a personality within the closed enumeration.
pub open spec fn spec_personality_index(p: Personality) -> int {
    match p {
        Personality::Jock => 0,
        Personality::Valiant => 1,
        Personality::Bully => 2,
        Personality::Amazon => 3,
        Personality::Unique => 4,
        Personality::Macho => 5,
        Personality::Tomboy => 6,
        Personality::Fearless => 7,
        Personality::Lewd => 8,
        Personality::Foolish => 9,
        Personality::Deflant => 10,
        Personality::Carefree => 11,
        Personality::Naive => 12,
        Personality::Stubborn => 13,
        Personality::Ladylike => 14,
        Personality::Honest => 15,
        Personality::Ordinary => 16,
        Personality::Quick => 17,
        Personality::Agile => 18,
        Personality::Alert => 19,
        Personality::Sharp => 20,
        Personality::Twisted => 21,
        Personality::Vain => 22,
        Personality::Selfish => 23,
        Personality::Weepy => 24,
        Personality::Lonesome => 25,
        Personality::Tough => 26,
        Personality::Ironman => 27,
        Personality::Hekotarenai => 28,
        Personality::Diligent => 29,
        Personality::Eager => 30,
        Personality::Meddler => 31,
        Personality::Lazy => 32,
        Personality::Smart => 33,
        Personality::Logical => 34,
        Personality::Romantic => 35,
        Personality::Helpless => 36,
        Personality::Lucky => 37,
        Personality::Happy => 38,
        Personality::Careless => 39,
        Personality::Solitary => 40,
        Personality::Cowardly => 41,
        Personality::Silly => 42,
        Personality::Timid => 43,
        Personality::Kindly => 44,
        Personality::Sexy => 45,
    }
}

/// The position of a personality within the closed enumeration.
pub fn personality_index(p: Personality) -> (r: usize)
    ensures
        r == spec_personality_index(p),
        r < 46,
{
    match p {
        Personality::Jock => 0,
        Personality::Valiant => 1,
        Personality::Bully => 2,
        Personality::Amazon => 3,
        Personality::Unique => 4,
        Personality::Macho => 5,
        Personality::Tomboy => 6,
        Personality::Fearless => 7,
        Personality::Lewd => 8,
        Personality::Foolish => 9,
        Personality::Deflant => 10,
        Personality::Carefree => 11,
        Personality::Naive => 12,
        Personality::Stubborn => 13,
        Personality::Ladylike => 14,
        Personality::Honest => 15,
        Personality::Ordinary => 16,
        Personality::Quick => 17,
        Personality::Agile => 18,
        Personality::Alert => 19,
        Personality::Sharp => 20,
        Personality::Twisted => 21,
        Personality::Vain => 22,
        Personality::Selfish => 23,
        Personality::Weepy => 24,
        Personality::Lonesome => 25,
        Personality::Tough => 26,
        Personality::Ironman => 27,
        Personality::Hekotarenai => 28,
        Personality::Diligent => 29,
        Personality::Eager => 30,
        Personality::Meddler => 31,
        Personality::Lazy => 32,
        Personality::Smart => 33,
        Personality::Logical => 34,
        Personality::Romantic => 35,
        Personality::Helpless => 36,
        Personality::Lucky => 37,
        Personality::Happy => 38,
        Personality::Careless => 39,
        Personality::Solitary => 40,
        Personality::Cowardly => 41,
        Personality::Silly => 42,
        Personality::Timid => 43,
        Personality::Kindly => 44,
        Personality::Sexy => 45,
    }
}

/// The display name of a personality.
pub open spec fn spec_name(p: Personality) -> Seq<char> {
    match p {
        Personality::Jock => "ちからじまん"@,
        Personality::Valiant => "ごうけつ"@,
        Personality::Bully => "らんぼうもの"@,
        Personality::Amazon => "おとこまさり"@,
        Personality::Unique => "おおぐらい"@,
        Personality::Macho => "ねっけつかん"@,
        Personality::Tomboy => "おてんば"@,
        Personality::Fearless => "いのちしらず"@,
        Personality::Lewd => "むっつりスケベ"@,
        Personality::Foolish => "おっちょこちょい"@,
        Personality::Deflant => "まけずぎらい"@,
        Personality::Carefree => "のんきもの"@,
        Personality::Naive => "せけんしらず"@,
        Personality::Stubborn => "がんこもの"@,
        Personality::Ladylike => "おじょうさま"@,
        Personality::Honest => "しょうじきもの"@,
        Personality::Ordinary => "ふつう"@,
        Personality::Quick => "でんこうせっか"@,
        Personality::Agile => "すばしっこい"@,
        Personality::Alert => "ぬけめがない"@,
        Personality::Sharp => "きれもの"@,
        Personality::Twisted => "ひねくれもの"@,
        Personality::Vain => "みえっぱり"@,
        Personality::Selfish => "わふぁまま"@,
        Personality::Weepy => "なきむし"@,
        Personality::Lonesome => "さびしがりや"@,
        Personality::Tough => "タフガイ"@,
        Personality::Ironman => "てつじん"@,
        Personality::Hekotarenai => "へこたれない"@,
        Personality::Diligent => "くろうにん"@,
        Personality::Eager => "がんばりや"@,
        Personality::Meddler => "おせっかい"@,
        Personality::Lazy => "なまけもの"@,
        Personality::Smart => "ずのうめいせき"@,
        Personality::Logical => "あたまでっかち"@,
        Personality::Romantic => "ロマンチック"@,
        Personality::Helpless => "あまえんぼう"@,
        Personality::Lucky => "ラッキーマン"@,
        Personality::Happy => "しあわせもの"@,
        Personality::Careless => "うっかりもの"@,
        Personality::Solitary => "いっぴきおおかみ"@,
        Personality::Cowardly => "いくじなし"@,
        Personality::Silly => "おちょうしもの"@,
        Personality::Timid => "ひっこみじあん"@,
        Personality::Kindly => "やさしいひと"@,
        Personality::Sexy => "セクシーギャル"@,
    }
}

/// The personality whose display name is `s`, if any.
pub open spec fn spec_from_name(s: Seq<char>) -> Option<Personality> {
    if s == spec_name(Personality::Jock) {
        Some(Personality::Jock)
    } else if s == spec_name(Personality::Valiant) {
        Some(Personality::Valiant)
    } else if s == spec_name(Personality::Bully) {
        Some(Personality::Bully)
    } else if s == spec_name(Personality::Amazon) {
        Some(Personality::Amazon)
    } else if s == spec_name(Personality::Unique) {
        Some(Personality::Unique)
    } else if s == spec_name(Personality::Macho) {
        Some(Personality::Macho)
    } else if s == spec_name(Personality::Tomboy) {
        Some(Personality::Tomboy)
    } else if s == spec_name(Personality::Fearless) {
        Some(Personality::Fearless)
    } else if s == spec_name(Personality::Lewd) {
        Some(Personality::Lewd)
    } else if s == spec_name(Personality::Foolish) {
        Some(Personality::Foolish)
    } else if s == spec_name(Personality::Deflant) {
        Some(Personality::Deflant)
    } else if s == spec_name(Personality::Carefree) {
        Some(Personality::Carefree)
    } else if s == spec_name(Personality::Naive) {
        Some(Personality::Naive)
    } else if s == spec_name(Personality::Stubborn) {
        Some(Personality::Stubborn)
    } else if s == spec_name(Personality::Ladylike) {
        Some(Personality::Ladylike)
    } else if s == spec_name(Personality::Honest) {
        Some(Personality::Honest)
    } else if s == spec_name(Personality::Ordinary) {
        Some(Personality::Ordinary)
    } else if s == spec_name(Personality::Quick) {
        Some(Personality::Quick)
    } else if s == spec_name(Personality::Agile) {
        Some(Personality::Agile)
    } else if s == spec_name(Personality::Alert) {
        Some(Personality::Alert)
    } else if s == spec_name(Personality::Sharp) {
        Some(Personality::Sharp)
    } else if s == spec_name(Personality::Twisted) {
        Some(Personality::Twisted)
    } else if s == spec_name(Personality::Vain) {
        Some(Personality::Vain)
    } else if s == spec_name(Personality::Selfish) {
        Some(Personality::Selfish)
    } else if s == spec_name(Personality::Weepy) {
        Some(Personality::Weepy)
    } else if s == spec_name(Personality::Lonesome) {
        Some(Personality::Lonesome)
    } else if s == spec_name(Personality::Tough) {
        Some(Personality::Tough)
    } else if s == spec_name(Personality::Ironman) {
        Some(Personality::Ironman)
    } else if s == spec_name(Personality::Hekotarenai) {
        Some(Personality::Hekotarenai)
    } else if s == spec_name(Personality::Diligent) {
        Some(Personality::Diligent)
    } else if s == spec_name(Personality::Eager) {
        Some(Personality::Eager)
    } else if s == spec_name(Personality::Meddler) {
        Some(Personality::Meddler)
    } else if s == spec_name(Personality::Lazy) {
        Some(Personality::Lazy)
    } else if s == spec_name(Personality::Smart) {
        Some(Personality::Smart)
    } else if s == spec_name(Personality::Logical) {
        Some(Personality::Logical)
    } else if s == spec_name(Personality::Romantic) {
        Some(Personality::Romantic)
    } else if s == spec_name(Personality::Helpless) {
        Some(Personality::Helpless)
    } else if s == spec_name(Personality::Lucky) {
        Some(Personality::Lucky)
    } else if s == spec_name(Personality::Happy) {
        Some(Personality::Happy)
    } else if s == spec_name(Personality::Careless) {
        Some(Personality::Careless)
    } else if s == spec_name(Personality::Solitary) {
        Some(Personality::Solitary)
    } else if s == spec_name(Personality::Cowardly) {
        Some(Personality::Cowardly)
    } else if s == spec_name(Personality::Silly) {
        Some(Personality::Silly)
    } else if s == spec_name(Personality::Timid) {
        Some(Personality::Timid)
    } else if s == spec_name(Personality::Kindly) {
        Some(Personality::Kindly)
    } else if s == spec_name(Personality::Sexy) {
        Some(Personality::Sexy)
    } else {
        None
    }
}

/// Whether two string slices hold the same characters.
fn str_eq(a: &str, b: &str) -> (r: bool)
    ensures
        r == (a@ == b@),
{
    let ao: String = a.to_owned();
    let bo: String = b.to_owned();
    ao == bo
}

impl Personality {
    /// The display name of this personality.
    pub fn name(&self) -> (r: String)
        ensures
            r@ == spec_name(*self),
    {
        match self {
        Personality::Jock => String::from_str("ちからじまん"),
        Personality::Valiant => String::from_str("ごうけつ"),
        Personality::Bully => String::from_str("らんぼうもの"),
        Personality::Amazon => String::from_str("おとこまさり"),
        Personality::Unique => String::from_str("おおぐらい"),
        Personality::Macho => String::from_str("ねっけつかん"),
        Personality::Tomboy => String::from_str("おてんば"),
        Personality::Fearless => String::from_str("いのちしらず"),
        Personality::Lewd => String::from_str("むっつりスケベ"),
        Personality::Foolish => String::from_str("おっちょこちょい"),
        Personality::Deflant => String::from_str("まけずぎらい"),
        Personality::Carefree => String::from_str("のんきもの"),
        Personality::Naive => String::from_str("せけんしらず"),
        Personality::Stubborn => String::from_str("がんこもの"),
        Personality::Ladylike => String::from_str("おじょうさま"),
        Personality::Honest => String::from_str("しょうじきもの"),
        Personality::Ordinary => String::from_str("ふつう"),
        Personality::Quick => String::from_str("でんこうせっか"),
        Personality::Agile => String::from_str("すばしっこい"),
        Personality::Alert => String::from_str("ぬけめがない"),
        Personality::Sharp => String::from_str("きれもの"),
        Personality::Twisted => String::from_str("ひねくれもの"),
        Personality::Vain => String::from_str("みえっぱり"),
        Personality::Selfish => String::from_str("わふぁまま"),
        Personality::Weepy => String::from_str("なきむし"),
        Personality::Lonesome => String::from_str("さびしがりや"),
        Personality::Tough => String::from_str("タフガイ"),
        Personality::Ironman => String::from_str("てつじん"),
        Personality::Hekotarenai => String::from_str("へこたれない"),
        Personality::Diligent => String::from_str("くろうにん"),
        Personality::Eager => String::from_str("がんばりや"),
        Personality::Meddler => String::from_str("おせっかい"),
        Personality::Lazy => String::from_str("なまけもの"),
        Personality::Smart => String::from_str("ずのうめいせき"),
        Personality::Logical => String::from_str("あたまでっかち"),
        Personality::Romantic => String::from_str("ロマンチック"),
        Personality::Helpless => String::from_str("あまえんぼう"),
        Personality::Lucky => String::from_str("ラッキーマン"),
        Personality::Happy => String::from_str("しあわせもの"),
        Personality::Careless => String::from_str("うっかりもの"),
        Personality::Solitary => String::from_str("いっぴきおおかみ"),
        Personality::Cowardly => String::from_str("いくじなし"),
        Personality::Silly => String::from_str("おちょうしもの"),
        Personality::Timid => String::from_str("ひっこみじあん"),
        Personality::Kindly => String::from_str("やさしいひと"),
        Personality::Sexy => String::from_str("セクシーギャル"),
        }
    }

    /// The personality with the given display name, if any.
    pub fn from_name(s: &str) -> (r: Option<Personality>)
        ensures
            r == spec_from_name(s@),
    {
        if str_eq(s, "ちからじまん") {
            Some(Personality::Jock)
        } else if str_eq(s, "ごうけつ") {
            Some(Personality::Valiant)
        } else if str_eq(s, "らんぼうもの") {
            Some(Personality::Bully)
        } else if str_eq(s, "おとこまさり") {
            Some(Personality::Amazon)
        } else if str_eq(s, "おおぐらい") {
            Some(Personality::Unique)
        } else if str_eq(s, "ねっけつかん") {
            Some(Personality::Macho)
        } else if str_eq(s, "おてんば") {
            Some(Personality::Tomboy)
        } else if str_eq(s, "いのちしらず") {
            Some(Personality::Fearless)
        } else if str_eq(s, "むっつりスケベ") {
            Some(Personality::Lewd)
        } else if str_eq(s, "おっちょこちょい") {
            Some(Personality::Foolish)
        } else if str_eq(s, "まけずぎらい") {
            Some(Personality::Deflant)
        } else if str_eq(s, "のんきもの") {
            Some(Personality::Carefree)
        } else if str_eq(s, "せけんしらず") {
            Some(Personality::Naive)
        } else if str_eq(s, "がんこもの") {
            Some(Personality::Stubborn)
        } else if str_eq(s, "おじょうさま") {
            Some(Personality::Ladylike)
        } else if str_eq(s, "しょうじきもの") {
            Some(Personality::Honest)
        } else if str_eq(s, "ふつう") {
            Some(Personality::Ordinary)
        } else if str_eq(s, "でんこうせっか") {
            Some(Personality::Quick)
        } else if str_eq(s, "すばしっこい") {
            Some(Personality::Agile)
        } else if str_eq(s, "ぬけめがない") {
            Some(Personality::Alert)
        } else if str_eq(s, "きれもの") {
            Some(Personality::Sharp)
        } else if str_eq(s, "ひねくれもの") {
            Some(Personality::Twisted)
        } else if str_eq(s, "みえっぱり") {
            Some(Personality::Vain)
        } else if str_eq(s, "わふぁまま") {
            Some(Personality::Selfish)
        } else if str_eq(s, "なきむし") {
            Some(Personality::Weepy)
        } else if str_eq(s, "さびしがりや") {
            Some(Personality::Lonesome)
        } else if str_eq(s, "タフガイ") {
            Some(Personality::Tough)
        } else if str_eq(s, "てつじん") {
            Some(Personality::Ironman)
        } else if str_eq(s, "へこたれない") {
            Some(Personality::Hekotarenai)
        } else if str_eq(s, "くろうにん") {
            Some(Personality::Diligent)
        } else if str_eq(s, "がんばりや") {
            Some(Personality::Eager)
        } else if str_eq(s, "おせっかい") {
            Some(Personality::Meddler)
        } else if str_eq(s, "なまけもの") {
            Some(Personality::Lazy)
        } else if str_eq(s, "ずのうめいせき") {
            Some(Personality::Smart)
        } else if str_eq(s, "あたまでっかち") {
            Some(Personality::Logical)
        } else if str_eq(s, "ロマンチック") {
            Some(Personality::Romantic)
        } else if str_eq(s, "あまえんぼう") {
            Some(Personality::Helpless)
        } else if str_eq(s, "ラッキーマン") {
            Some(Personality::Lucky)
        } else if str_eq(s, "しあわせもの") {
            Some(Personality::Happy)
        } else if str_eq(s, "うっかりもの") {
            Some(Personality::Careless)
        } else if str_eq(s, "いっぴきおおかみ") {
            Some(Personality::Solitary)
        } else if str_eq(s, "いくじなし") {
            Some(Personality::Cowardly)
        } else if str_eq(s, "おちょうしもの") {
            Some(Personality::Silly)
        } else if str_eq(s, "ひっこみじあん") {
            Some(Personality::Timid)
        } else if str_eq(s, "やさしいひと") {
            Some(Personality::Kindly)
        } else if str_eq(s, "セクシーギャル") {
            Some(Personality::Sexy)
        } else {
            None
        }
    }
}

/// One personality's growth data: its name and a growth factor per
/// attribute, the factors stored verbatim as 1.7 bit patterns.
#[derive(Clone, Debug)]
pub struct PersonalityTable {
    pub name: String,
    pub growth_factors: AttrMap<GrowthFactor>,
}

impl PersonalityTable {
    /// An entry holding exactly the given data.
    pub fn new(name: String, growth_factors: AttrMap<GrowthFactor>) -> (r: PersonalityTable)
        ensures
            r == (PersonalityTable { name, growth_factors }),
    {
        PersonalityTable { name, growth_factors }
    }

    /// The growth factor this personality applies to one attribute.
    pub fn growth_factor(&self, attr: Attr) -> (r: GrowthFactor)
        ensures
            r == self.growth_factors.spec_get(attr),
    {
        *self.growth_factors.get(attr)
    }
}

/// The full personality table. Its first row is a placeholder from the
/// source data; personalities map to the rows after it.
#[derive(Clone, Debug)]
pub struct PersonalityTables {
    pub entries: Vec<PersonalityTable>,
}

impl PersonalityTables {
    /// A table holding exactly the given rows.
    pub fn new(entries: Vec<PersonalityTable>) -> (r: PersonalityTables)
        ensures
            r.entries == entries,
    {
        PersonalityTables { entries }
    }

    /// A well-formed table has a row for every personality, after the
    /// leading placeholder row.
    pub open spec fn wf(self) -> bool {
        self.entries@.len() >= 47
    }

    /// The row of one personality.
    pub open spec fn spec_entry(self, p: Personality) -> PersonalityTable {
        self.entries@[spec_personality_index(p) + 1]
    }

    /// Read the row of one personality.
    pub fn get_personality_table(&self, p: Personality) -> (r: &PersonalityTable)
        requires
            self.wf(),
        ensures
            *r == self.spec_entry(p),
    {
        &self.entries[personality_index(p) + 1]
    }
}

} // verus!
