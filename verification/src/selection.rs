//! Weighted discard sampling for the built-in bot: when the model's top
//! action is a discard, the autoplay may play a different tile among the
//! model's top discards, drawn by the model's own probabilities raised to
//! `power = 1 / (0.2 * level)`.
//!
//! `level` 0 is off (always the model's top pick); `1..=5` turn sampling on,
//! level 1 concentrating on the top tile, level 5 using the raw policy.
//! A small self-contained xorshift64* generator supplies the draws.

use vstd::prelude::*;

verus! {

/// Selection parameters for one engine.
#[derive(Debug, Clone, Copy, PartialEq, Eq, Structural)]
pub struct SelectionParams {
    /// 0 = off (argmax). 1..=5 = weighted sampling level.
    pub randomize_level: u8,
}

impl Default for SelectionParams {
    fn default() -> (p: Self)
        ensures
            p.randomize_level == 0,
    {
        SelectionParams { randomize_level: 0 }
    }
}

/// A level clamped into `1..=5`.
pub open spec fn spec_clamp_level(level: u8) -> u8 {
    if level < 1 {
        1
    } else if level > 5 {
        5
    } else {
        level
    }
}

/// Clamp a user-supplied level into the supported `1..=5` range.
pub fn clamp_level(level: u8) -> (l: u8)
    ensures
        l == spec_clamp_level(level),
        1 <= l <= 5,
        1 <= level <= 5 ==> l == level,
        level < 1 ==> l == 1,
        level > 5 ==> l == 5,
{
    if level < 1 {
        1
    } else if level > 5 {
        5
    } else {
        level
    }
}

/// Whether weighted sampling takes place at all: it is on (`level != 0`)
/// and there are at least two candidates to choose between. Where it does
/// not, the sampler answers `None` and the top pick stands.
pub fn randomizes(level: u8, num_candidates: usize) -> (b: bool)
    ensures
        b == (level != 0 && num_candidates >= 2),
{
    level != 0 && num_candidates >= 2
}

/// One state step of xorshift64*: `x ^= x >> 12; x ^= x << 25; x ^= x >> 27`.
pub open spec fn xorshift_step(x: u64) -> u64 {
    let a = x ^ (x >> 12u64);
    let b = a ^ (a << 25u64);
    b ^ (b >> 27u64)
}

/// The multiplier of xorshift64*.
pub const XORSHIFT64_STAR_MULTIPLIER: u64 = 0x2545_F491_4F6C_DD1Du64;

/// The draw that xorshift64* outputs for a state: the state times the
/// multiplier, wrapping.
pub open spec fn xorshift_output(state: u64) -> u64 {
    state.wrapping_mul(XORSHIFT64_STAR_MULTIPLIER)
}

/// The state a generator starts from: the seed, where it is not zero; 1 for
/// a zero seed.
pub open spec fn seed_state(seed: u64) -> u64 {
    if seed == 0 {
        1
    } else {
        seed
    }
}

/// Tiny deterministic generator (xorshift64*). Its state is never zero,
/// the one state that the xorshift step would keep forever.
#[derive(Debug)]
pub struct Rng(u64);

impl Clone for Rng {
    /// A generator in the same state.
    fn clone(&self) -> (r: Self)
        ensures
            r@ == self@,
    {
        proof {
            use_type_invariant(self);
        }
        Rng(self.0)
    }
}

impl View for Rng {
    type V = u64;

    closed spec fn view(&self) -> u64 {
        self.0
    }
}

impl Rng {
    #[verifier::type_invariant]
    spec fn state_nonzero(self) -> bool {
        self.0 != 0
    }

    /// A generator seeded with `seed` (a zero seed counts as 1).
    pub fn new(seed: u64) -> (r: Self)
        ensures
            r@ == seed_state(seed),
            r@ != 0,
    {
        let s = if seed == 0 {
            1
        } else {
            seed
        };
        Rng(s)
    }

    /// Advances the state by one xorshift64* step and returns the draw: the
    /// new state times the xorshift64* multiplier, wrapping.
    pub fn next_u64(&mut self) -> (x: u64)
        ensures
            final(self)@ == xorshift_step(old(self)@),
            x == xorshift_output(final(self)@),
            final(self)@ != 0,
            ({
                let s0 = old(self)@;
                let s1 = s0 ^ (s0 >> 12u64);
                let s2 = s1 ^ (s1 << 25u64);
                final(self)@ == s2 ^ (s2 >> 27u64)
            }),
            x == final(self)@.wrapping_mul(0x2545_F491_4F6C_DD1Du64),
    {
        proof {
            use_type_invariant(&*self);
            law_step_keeps_state_nonzero(self.0);
        }
        let mut s = self.0;
        s = s ^ (s >> 12u64);
        s = s ^ (s << 25u64);
        s = s ^ (s >> 27u64);
        self.0 = s;
        s.wrapping_mul(XORSHIFT64_STAR_MULTIPLIER)
    }

    /// The 53 high bits of the next draw: the numerator of a uniform draw in
    /// `[0, 1)` over the denominator `2^53`.
    pub fn next_fraction_bits(&mut self) -> (b: u64)
        ensures
            final(self)@ == xorshift_step(old(self)@),
            b == xorshift_output(final(self)@) >> 11u64,
            b < 0x20_0000_0000_0000u64,
    {
        let x = self.next_u64();
        assert(x >> 11u64 < 0x20_0000_0000_0000u64) by (bit_vector);
        x >> 11u64
    }
}

/// A xorshift64* state step maps a non-zero state to a non-zero state, so
/// a generator never falls into the all-zero state.
pub proof fn law_step_keeps_state_nonzero(x: u64)
    requires
        x != 0,
    ensures
        xorshift_step(x) != 0,
{
    let a = x ^ (x >> 12u64);
    assert(x != 0 ==> x ^ (x >> 12u64) != 0) by (bit_vector);
    let b = a ^ (a << 25u64);
    assert(a != 0 ==> a ^ (a << 25u64) != 0) by (bit_vector);
    assert(b != 0 ==> b ^ (b >> 27u64) != 0) by (bit_vector);
}

/// Seeds 0 and 1 give the same generator, hence the same draws.
pub proof fn law_zero_seed_is_seed_one()
    ensures
        seed_state(0) == seed_state(1),
{
}

/// Clamping keeps a level already in `1..=5` and maps a level below the
/// range to 1 and one above it to 5.
pub proof fn law_clamp_keeps_levels_in_range(level: u8)
    ensures
        1 <= level <= 5 ==> spec_clamp_level(level) == level,
        level < 1 ==> spec_clamp_level(level) == 1,
        level > 5 ==> spec_clamp_level(level) == 5,
{
}

} // verus!
