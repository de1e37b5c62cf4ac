//! The five character attributes and tables keyed by them.

use vstd::prelude::*;
use crate::fixedpoint::AttrValue;

verus! {

/// One of the five character attributes.
#[derive(Clone, Copy, Debug, PartialEq, Eq, Structural)]
pub enum Attr {
    Pow,
    Spd,
    Vit,
    Int,
    Lck,
}

/// A table with exactly one entry per attribute.
#[derive(Clone, Copy, Debug, PartialEq, Eq)]
pub struct AttrMap<T> {
    pub power: T,
    pub speed: T,
    pub vitality: T,
    pub intelligence: T,
    pub luck: T,
}

impl<T> AttrMap<T> {
    /// The entry for one attribute.
    pub open spec fn spec_get(self, a: Attr) -> T {
        match a {
            Attr::Pow => self.power,
            Attr::Spd => self.speed,
            Attr::Vit => self.vitality,
            Attr::Int => self.intelligence,
            Attr::Lck => self.luck,
        }
    }

    /// The table with the entry for one attribute replaced.
    pub open spec fn spec_set(self, a: Attr, v: T) -> AttrMap<T> {
        match a {
            Attr::Pow => AttrMap { power: v, ..self },
            Attr::Spd => AttrMap { speed: v, ..self },
            Attr::Vit => AttrMap { vitality: v, ..self },
            Attr::Int => AttrMap { intelligence: v, ..self },
            Attr::Lck => AttrMap { luck: v, ..self },
        }
    }

    /// Read the entry for one attribute.
    pub fn get(&self, a: Attr) -> (r: &T)
        ensures
            *r == self.spec_get(a),
    {
        match a {
            Attr::Pow => &self.power,
            Attr::Spd => &self.speed,
            Attr::Vit => &self.vitality,
            Attr::Int => &self.intelligence,
            Attr::Lck => &self.luck,
        }
    }

    /// Replace the entry for one attribute.
    pub fn set(&mut self, a: Attr, v: T)
        ensures
            *final(self) == old(self).spec_set(a, v),
    {
        match a {
            Attr::Pow => {
                self.power = v;
            },
            Attr::Spd => {
                self.speed = v;
            },
            Attr::Vit => {
                self.vitality = v;
            },
            Attr::Int => {
                self.intelligence = v;
            },
            Attr::Lck => {
                self.luck = v;
            },
        }
    }
}

/// One value per attribute, in the 8.8 fixed-point attribute domain.
pub type Attrs = AttrMap<AttrValue>;

/// A full attribute table from five integer starting values, each widened
/// into the 8.8 domain.
pub fn attrs_new(power: u8, speed: u8, vitality: u8, intelligence: u8, luck: u8) -> (r: Attrs)
    ensures
        r.power.bits == power as int * 256,
        r.speed.bits == speed as int * 256,
        r.vitality.bits == vitality as int * 256,
        r.intelligence.bits == intelligence as int * 256,
        r.luck.bits == luck as int * 256,
{
    AttrMap {
        power: AttrValue::from_int(power),
        speed: AttrValue::from_int(speed),
        vitality: AttrValue::from_int(vitality),
        intelligence: AttrValue::from_int(intelligence),
        luck: AttrValue::from_int(luck),
    }
}

} // verus!
