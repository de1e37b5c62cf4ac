//! The physical-damage formula, a one-shot consumer of the generator.
//!
//! The base damage is attack minus half defense. A weak hit deals zero or
//! one point from a uniform bit; a defended hit scales an eighth of the
//! attack by a uniform byte; an ordinary hit scales the base by a clamped
//! multinomial draw.

use vstd::prelude::*;
use crate::rand::{spec_low_byte, spec_multinomial, spec_next, spec_next_n, Rng};

verus! {

/// Which side deals the blow.
#[derive(Clone, Copy, Debug, PartialEq, Eq, Structural)]
pub enum Character {
    Player,
    Monster,
}

/// A value clamped into `[lo, hi]`.
pub open spec fn spec_clamp(x: int, lo: int, hi: int) -> int {
    if x < lo {
        lo
    } else if x > hi {
        hi
    } else {
        x
    }
}

/// Damage of a weak hit: one uniform bit, so zero or one.
pub open spec fn spec_damage_0or1(s: u32) -> (int, u32) {
    let s1 = spec_next(s);
    ((spec_low_byte(s1) % 2) as int, s1)
}

/// Damage of a defended hit: an eighth of the attack scaled by a uniform
/// byte over 256.
pub open spec fn spec_damage_defensive(atk: i16, s: u32) -> (int, u32) {
    let s1 = spec_next(s);
    (((atk / 8) * spec_low_byte(s1)) / 256, s1)
}

/// Damage of an ordinary hit: the base scaled by a multinomial draw with
/// offset 6 and mask 15, clamped into `[99, 153]`, over 256.
pub open spec fn spec_damage_normal(base: i16, s: u32) -> (int, u32) {
    let m = spec_multinomial(s, 6, 15);
    ((base * spec_clamp(m, 99, 153)) / 256, spec_next_n(s, 16))
}

/// Damage dealt by the player: weak below a base of two, else ordinary.
pub open spec fn spec_damage_by_player(base: i16, s: u32) -> (int, u32) {
    if base < 2 {
        spec_damage_0or1(s)
    } else {
        spec_damage_normal(base, s)
    }
}

/// Damage dealt by a monster: defended when the base is no more than an
/// eighth of the attack, weak when the attack is small, else ordinary.
pub open spec fn spec_damage_by_monster(base: i16, atk: i16, s: u32) -> (int, u32) {
    if base <= atk / 8 {
        if atk < 16 {
            spec_damage_0or1(s)
        } else {
            spec_damage_defensive(atk, s)
        }
    } else {
        if atk < 8 {
            spec_damage_0or1(s)
        } else {
            spec_damage_normal(base, s)
        }
    }
}

/// The full formula: base damage is attack minus half defense, dealt per
/// attacker kind, doubled for a twin hit.
pub open spec fn spec_physical_damage(
    atk: i16,
    def: i16,
    twinhits: bool,
    attacker: Character,
    s: u32,
) -> (int, u32) {
    let base = atk - def / 2;
    let d = match attacker {
        Character::Player => spec_damage_by_player(base as i16, s),
        Character::Monster => spec_damage_by_monster(base as i16, atk, s),
    };
    ((if twinhits {
        2int
    } else {
        1int
    }) * d.0, d.1)
}

/// A battle owning its own generator stream.
#[derive(Clone, Copy, Debug)]
pub struct Battle {
    pub rng: Rng,
}

impl Battle {
    /// A battle drawing from the given generator.
    pub fn new(rng: Rng) -> (r: Self)
        ensures
            r.rng == rng,
    {
        Battle { rng }
    }

    /// A weak hit: zero or one point.
    fn physical_damage_0or1(&mut self) -> (r: i16)
        ensures
            r == spec_damage_0or1(old(self).rng.state.0).0,
            final(self).rng.state.0 == spec_damage_0or1(old(self).rng.state.0).1,
            0 <= r <= 1,
    {
        (self.rng.rand() % 2) as i16
    }

    /// A defended hit.
    fn physical_damage_defensive(&mut self, atk: i16) -> (r: i16)
        requires
            0 <= atk,
        ensures
            r == spec_damage_defensive(atk, old(self).rng.state.0).0,
            final(self).rng.state.0 == spec_damage_defensive(atk, old(self).rng.state.0).1,
            0 <= r <= atk / 8,
    {
        let b = self.rng.rand();
        proof {
            assert((atk as int / 8) * (b as int) <= (atk as int / 8) * 255) by (nonlinear_arith)
                requires
                    atk as int / 8 >= 0,
                    b <= 255,
            ;
            assert(((atk as int / 8) * 255) / 256 <= atk as int / 8) by (nonlinear_arith)
                requires
                    atk as int / 8 >= 0,
            ;
            vstd::arithmetic::div_mod::lemma_div_is_ordered(
                (atk as int / 8) * (b as int),
                (atk as int / 8) * 255,
                256,
            );
        }
        (((atk / 8) as i32) * (b as i32) / 256) as i16
    }

    /// An ordinary hit.
    fn physical_damage_normal(&mut self, base: i16) -> (r: i16)
        requires
            2 <= base <= 16383,
        ensures
            r == spec_damage_normal(base, old(self).rng.state.0).0,
            final(self).rng.state.0 == spec_damage_normal(base, old(self).rng.state.0).1,
            0 <= r <= 9793,
    {
        proof {
            assert(16u16 != 0 && (16u16 & 15u16) == 0) by (bit_vector);
        }
        let m = self.rng.rand_multinomial(6, 0xf);
        let rand: i32 = if m < 99 {
            99
        } else if m > 153 {
            153
        } else {
            m as i32
        };
        proof {
            assert((base as int) * (rand as int) <= 16383 * 153) by (nonlinear_arith)
                requires
                    0 <= base <= 16383,
                    0 <= rand <= 153,
            ;
            assert((base as int) * (rand as int) >= 0) by (nonlinear_arith)
                requires
                    base >= 0,
                    rand >= 0,
            ;
            vstd::arithmetic::div_mod::lemma_div_is_ordered(
                (base as int) * (rand as int),
                (16383 * 153) as int,
                256,
            );
        }
        ((base as i32) * rand / 256) as i16
    }

    /// Damage dealt by the player.
    fn physical_damage_by_player(&mut self, base: i16) -> (r: i16)
        requires
            base <= 16383,
        ensures
            r == spec_damage_by_player(base, old(self).rng.state.0).0,
            final(self).rng.state.0 == spec_damage_by_player(base, old(self).rng.state.0).1,
            0 <= r <= 9793,
    {
        if base < 2 {
            self.physical_damage_0or1()
        } else {
            self.physical_damage_normal(base)
        }
    }

    /// Damage dealt by a monster.
    fn physical_damage_by_monster(&mut self, base: i16, atk: i16) -> (r: i16)
        requires
            0 <= atk <= 16383,
            base <= 16383,
        ensures
            r == spec_damage_by_monster(base, atk, old(self).rng.state.0).0,
            final(self).rng.state.0 == spec_damage_by_monster(
                base,
                atk,
                old(self).rng.state.0,
            ).1,
            0 <= r <= 9793,
    {
        if base <= atk / 8 {
            if atk < 16 {
                self.physical_damage_0or1()
            } else {
                self.physical_damage_defensive(atk)
            }
        } else {
            if atk < 8 {
                self.physical_damage_0or1()
            } else {
                self.physical_damage_normal(base)
            }
        }
    }

    /// The full physical-damage roll for one blow.
    pub fn physical_damage(
        &mut self,
        atk: i16,
        def: i16,
        twinhits: bool,
        attacker: Character,
    ) -> (r: i16)
        requires
            0 <= atk <= 16383,
            0 <= def,
        ensures
            r == spec_physical_damage(atk, def, twinhits, attacker, old(self).rng.state.0).0,
            final(self).rng.state.0 == spec_physical_damage(
                atk,
                def,
                twinhits,
                attacker,
                old(self).rng.state.0,
            ).1,
    {
        let base = atk - def / 2;
        let damage = match attacker {
            Character::Player => self.physical_damage_by_player(base),
            Character::Monster => self.physical_damage_by_monster(base, atk),
        };
        let coef: i16 = if twinhits {
            2
        } else {
            1
        };
        coef * damage
    }
}

impl Default for Battle {
    /// A battle whose stream starts from the default seed.
    fn default() -> (r: Self)
        ensures
            r.rng.state.0 == crate::rand::DEFAULT_SEED,
    {
        Battle { rng: Rng::default() }
    }
}

} // verus!
