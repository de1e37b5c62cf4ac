//! The deterministic 32-bit pseudo-random state machine and its derived
//! draw operations.
//!
//! One transition shifts the state left by one byte and feeds a new byte in
//! at the low end; the fed byte is computed from the two 16-bit halves of
//! the old state. Every derived draw performs a fixed number of transitions
//! and reads the new state's low byte, so for a given starting state the
//! whole output sequence is determined.

use vstd::prelude::*;
use crate::bit;

verus! {

/// The fixed default starting state.
pub const DEFAULT_SEED: u32 = 0xaae2_1259;

/// Low 8 bits of a state word: the output byte read after a transition.
pub open spec fn spec_low_byte(s: u32) -> u8 {
    (s & 0xff) as u8
}

/// The byte fed in by one transition: with `lower` and `upper` the 16-bit
/// halves of the state, bits `[8, 16)` of `((lower << 2) ^ upper) << 1`.
pub open spec fn spec_out_byte(s: u32) -> u8 {
    (((((((s & 0xffff) as u16) << 2) ^ (((s >> 16) & 0xffff) as u16)) << 1) >> 8)) as u8
}

/// One transition of the state machine.
pub open spec fn spec_next(s: u32) -> u32 {
    (s << 8) | (spec_out_byte(s) as u32)
}

/// `n` transitions of the state machine.
pub open spec fn spec_next_n(s: u32, n: nat) -> u32
    decreases n,
{
    if n == 0 {
        s
    } else {
        spec_next(spec_next_n(s, (n - 1) as nat))
    }
}

/// Sum of the masked output bytes of the first `n` transitions from `s`.
pub open spec fn spec_masked_sum(s: u32, mask: u8, n: nat) -> int
    decreases n,
{
    if n == 0 {
        0
    } else {
        spec_masked_sum(s, mask, (n - 1) as nat) + (spec_low_byte(spec_next_n(s, n)) & mask)
    }
}

/// A draw scaled into `[0, upper]`: `floor(b * (upper + 1) / 256)`.
pub open spec fn spec_scaled(b: u8, upper: u8) -> int {
    (b * (upper + 1)) / 256
}

/// The result of the multinomial-sum draw: 16 masked draws added to the
/// offset, reduced modulo 256.
pub open spec fn spec_multinomial(s: u32, offset: u8, mask: u8) -> int {
    (offset + spec_masked_sum(s, mask, 16)) % 256
}

/// A 32-bit state value of the random number generator.
#[derive(Clone, Copy, Debug, PartialEq, Eq, Structural, PartialOrd, Ord, Hash)]
pub struct State(pub u32);

impl Default for State {
    /// The default state is the fixed seed constant.
    fn default() -> (r: Self)
        ensures
            r.0 == DEFAULT_SEED,
    {
        State(DEFAULT_SEED)
    }
}

impl State {
    /// The state holding exactly this word.
    pub fn new(v: u32) -> (r: Self)
        ensures
            r.0 == v,
    {
        State(v)
    }

    /// The default state.
    pub fn init() -> (r: Self)
        ensures
            r.0 == DEFAULT_SEED,
    {
        Self::default()
    }

    /// The next state of the generator.
    pub fn next(&self) -> (r: State)
        ensures
            r.0 == spec_next(self.0),
    {
        let upper16: u16 = bit::range(self.0, 16, 32) as u16;
        let lower16: u16 = bit::range(self.0, 0, 16) as u16;
        proof {
            let v = self.0;
            assert((1u32 << 16) - 1 == 0xffff && (1u32 << 0) - 1 == 0) by (bit_vector);
            assert((((v & (0xffffffffu32 ^ 0xffffu32)) >> 16) as u16) == (((v >> 16)
                & 0xffffu32) as u16) && (((v & (0xffffu32 ^ 0u32)) >> 0) as u16) == ((v
                & 0xffffu32) as u16)) by (bit_vector);
        }
        let tmp: u16 = ((lower16 << 2u16) ^ upper16) << 1u16;
        let lowest8: u8 = (tmp >> 8u16) as u8;
        State((self.0 << 8u32) | (lowest8 as u32))
    }

    /// Replace the state with its successor.
    pub fn transit(&mut self)
        ensures
            final(self).0 == spec_next(old(self).0),
    {
        *self = State::next(self);
    }

    /// The state's low 8 bits: the uniform output byte.
    pub fn rand(&self) -> (r: u8)
        ensures
            r == spec_low_byte(self.0),
    {
        (self.0 & (u8::MAX as u32)) as u8
    }

    /// The output byte scaled into `[0, upper]` by multiply-then-truncate;
    /// `upper == 255` returns the byte unchanged.
    pub fn rand_by_multiply(&self, upper: u8) -> (r: u8)
        ensures
            r == spec_scaled(spec_low_byte(self.0), upper),
    {
        let rand = self.rand();
        if upper == u8::MAX {
            proof {
                assert(spec_scaled(spec_low_byte(self.0), 255) == spec_low_byte(self.0));
            }
            return rand;
        }

        proof {
            assert((rand as int) * ((upper as int) + 1) <= 255 * 256) by (nonlinear_arith)
                requires
                    rand <= 255,
                    upper <= 255,
            ;
        }
        let ret: u16 = (rand as u16) * ((upper as u16) + 1) / 256;
        ret as u8
    }

    /// The output byte restricted to the given mask.
    pub fn rand_by_mask(&self, mask: u8) -> (r: u8)
        ensures
            r == spec_low_byte(self.0) & mask,
    {
        self.rand() & mask
    }
}

/// A random number generator owning one state.
///
/// Copying it produces two independently advancing streams from the same
/// point, which is how a snapshot is replayed.
#[derive(Clone, Copy, Debug)]
pub struct Rng {
    pub state: State,
}

impl Default for Rng {
    /// A generator seeded with the fixed default state.
    fn default() -> (r: Self)
        ensures
            r.state.0 == DEFAULT_SEED,
    {
        Rng { state: State(DEFAULT_SEED) }
    }
}

impl Rng {
    /// The current state.
    pub fn state(&self) -> (r: State)
        ensures
            r == self.state,
    {
        self.state
    }

    /// Reset to the default state.
    pub fn init(&mut self)
        ensures
            final(self).state.0 == DEFAULT_SEED,
    {
        self.state = State::default();
    }

    /// Set the state to an explicit value.
    pub fn set_state(&mut self, state: State)
        ensures
            final(self).state == state,
    {
        self.state = state;
    }

    /// Advance the state by one transition.
    pub fn transit(&mut self)
        ensures
            final(self).state.0 == spec_next(old(self).state.0),
    {
        self.state.transit();
    }

    /// An 8-bit uniform draw: one transition, then the new state's low byte.
    pub fn rand(&mut self) -> (r: u8)
        ensures
            final(self).state.0 == spec_next(old(self).state.0),
            r == spec_low_byte(final(self).state.0),
    {
        self.transit();
        self.state.rand()
    }

    /// An 8-bit draw in `[0, upper]`: one transition, then the new state's
    /// low byte scaled by multiply-then-truncate.
    pub fn rand_by_multiply(&mut self, upper: u8) -> (r: u8)
        ensures
            final(self).state.0 == spec_next(old(self).state.0),
            r == spec_scaled(spec_low_byte(final(self).state.0), upper),
    {
        self.transit();
        self.state.rand_by_multiply(upper)
    }

    /// The multinomial-sum draw: exactly 16 transitions, each adding the new
    /// state's masked low byte to `offset`; the sum is reduced modulo 256.
    ///
    /// The mask must be of the form `2^k - 1`; any other mask is a
    /// precondition violation, not a runtime condition.
    pub fn rand_multinomial(&mut self, offset: u8, mask: u8) -> (r: u8)
        requires
            bit::spec_is_powerof2((mask + 1) as u16),
        ensures
            final(self).state.0 == spec_next_n(old(self).state.0, 16),
            r == spec_multinomial(old(self).state.0, offset, mask),
    {
        let ghost s0: u32 = self.state.0;
        let mut sum: u16 = offset as u16;
        let mut i: usize = 0;
        while i < 16
            invariant
                i <= 16,
                self.state.0 == spec_next_n(s0, i as nat),
                sum == offset + spec_masked_sum(s0, mask, i as nat),
                sum <= 255 + i * 255,
            decreases 16 - i,
        {
            self.transit();
            let drawn: u8 = self.state.rand_by_mask(mask);
            sum = sum + (drawn as u16);
            i = i + 1;
        }
        proof {
            assert((sum & 0xff) == (sum as int) % 256) by (bit_vector);
        }
        (sum & 0xff) as u8
    }

    /// Like `rand_multinomial`, but the mask is tested first: a mask not of
    /// the form `2^k - 1` yields `None` and leaves the state unchanged.
    pub fn rand_multinomial_checked(&mut self, offset: u8, mask: u8) -> (r: Option<u8>)
        ensures
            bit::spec_is_powerof2((mask + 1) as u16) ==> {
                &&& final(self).state.0 == spec_next_n(old(self).state.0, 16)
                &&& r == Some((spec_multinomial(old(self).state.0, offset, mask) as u8))
            },
            !bit::spec_is_powerof2((mask + 1) as u16) ==> {
                &&& *final(self) == *old(self)
                &&& r is None
            },
    {
        if bit::is_powerof2((mask as u16) + 1) {
            Some(self.rand_multinomial(offset, mask))
        } else {
            None
        }
    }
}

impl State {
    /// The hexadecimal rendering of a word, without leading zeros.
    pub open spec fn spec_hex_rep(v: u32) -> Seq<char>
        decreases v,
    {
        if v < 16 {
            spec_hex_digit(v)
        } else {
            Self::spec_hex_rep(v / 16) + spec_hex_digit(v % 16)
        }
    }

    /// A textual form of the state, `0x` followed by lower-case hex digits.
    pub fn hex_string(&self) -> (r: String)
        ensures
            r@ == "0x"@ + Self::spec_hex_rep(self.0),
    {
        let mut s = String::from_str("0x");
        let rep = hex_rep(self.0);
        s.append(rep.as_str());
        s
    }
}

/// The single lower-case hexadecimal digit for a value below 16.
pub open spec fn spec_hex_digit(v: u32) -> Seq<char> {
    if v == 0 {
        "0"@
    } else if v == 1 {
        "1"@
    } else if v == 2 {
        "2"@
    } else if v == 3 {
        "3"@
    } else if v == 4 {
        "4"@
    } else if v == 5 {
        "5"@
    } else if v == 6 {
        "6"@
    } else if v == 7 {
        "7"@
    } else if v == 8 {
        "8"@
    } else if v == 9 {
        "9"@
    } else if v == 10 {
        "a"@
    } else if v == 11 {
        "b"@
    } else if v == 12 {
        "c"@
    } else if v == 13 {
        "d"@
    } else if v == 14 {
        "e"@
    } else {
        "f"@
    }
}

fn hex_digit(v: u32) -> (r: &'static str)
    requires
        v < 16,
    ensures
        r@ == spec_hex_digit(v),
{
    match v {
        0 => "0",
        1 => "1",
        2 => "2",
        3 => "3",
        4 => "4",
        5 => "5",
        6 => "6",
        7 => "7",
        8 => "8",
        9 => "9",
        10 => "a",
        11 => "b",
        12 => "c",
        13 => "d",
        14 => "e",
        _ => "f",
    }
}

fn hex_rep(v: u32) -> (r: String)
    ensures
        r@ == State::spec_hex_rep(v),
    decreases v,
{
    if v < 16 {
        String::from_str(hex_digit(v))
    } else {
        let mut s = hex_rep(v / 16);
        s.append(hex_digit(v % 16));
        s
    }
}

} // verus!

