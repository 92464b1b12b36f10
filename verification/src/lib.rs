//! A deterministic pseudo-random number generator in the classic `drand48`
//! family: a 48-bit linear congruential generator with the POSIX constants,
//! producing reproducible 32-bit integer outputs from a 64-bit seed.
//!
//! Not suitable for cryptographic use.

use vstd::prelude::*;

verus! {

/// Multiplier of the linear congruential step (POSIX `drand48`).
pub const MULTIPLIER: u64 = 0x5DEECE66D;

/// Additive increment of the linear congruential step (POSIX `drand48`).
pub const INCREMENT: u64 = 0xB;

/// The state is kept modulo 2^48.
pub const MODULUS: u64 = 0x1_0000_0000_0000;

/// Fixed low-order constant OR-ed into every scrambled seed
/// (the historical `drand48` low-order seed word).
pub const LOWER_ORDER_SEED: u16 = 0x330E;

/// The initial 48-bit state derived from a caller-supplied seed: the low
/// 32 bits of the seed, shifted left by 16, with the fixed low-order
/// constant OR-ed in.
pub open spec fn scramble(seed: u64) -> u64 {
    ((seed & 0xFFFF_FFFF) << 16) | (LOWER_ORDER_SEED as u64)
}

/// One linear congruential step: `(MULTIPLIER * state + INCREMENT) mod 2^48`.
pub open spec fn step(state: u64) -> u64 {
    ((MULTIPLIER * state + INCREMENT) % (MODULUS as int)) as u64
}

/// The 32-bit output extracted from a 48-bit raw output: bits 16 through 47.
pub open spec fn extract_u32(raw: u64) -> u32 {
    ((raw >> 16) & 0xFFFF_FFFF) as u32
}

/// The two's-complement reinterpretation of a 32-bit unsigned value: the
/// unique integer congruent to it modulo 2^32 that lies in [-2^31, 2^31).
pub open spec fn reinterpret_signed(bits: u32) -> i32 {
    if bits < 0x8000_0000 {
        bits as i32
    } else {
        (bits - 0x1_0000_0000) as i32
    }
}

/// The internal state reached from a given seed after a given number of
/// steps; `state_after(seed, 0)` is the freshly scrambled seed, and every
/// raw output equals the state that produced it.
pub open spec fn state_after(seed: u64, steps: nat) -> u64
    decreases steps,
{
    if steps == 0 {
        scramble(seed)
    } else {
        step(state_after(seed, (steps - 1) as nat))
    }
}

/// Determinism: the whole stream is a function of the seed alone, so two
/// generators built from equal seeds agree on the state (and hence on every
/// output) after any common number of steps.
pub proof fn lemma_determinism(seed_a: u64, seed_b: u64, steps: nat)
    requires
        seed_a == seed_b,
    ensures
        state_after(seed_a, steps) == state_after(seed_b, steps),
{
}

/// State confinement: one step from any state lands strictly below 2^48,
/// so the top 16 bits of every raw output are zero.
pub proof fn lemma_state_confinement(state: u64)
    ensures
        step(state) < MODULUS,
        step(state) >> 48 == 0,
{
    let stepped = step(state);
    assert(stepped < 0x1_0000_0000_0000 ==> stepped >> 48 == 0) by (bit_vector);
}

/// Extraction consistency: the unsigned output is exactly bits 16 through
/// 47 of the raw output of the same step, and the signed output is its
/// two's-complement reinterpretation — the unique integer congruent to it
/// modulo 2^32 that lies in [-2^31, 2^31).
pub proof fn lemma_extraction_consistency(raw: u64)
    ensures
        extract_u32(raw) == (raw >> 16) & 0xFFFF_FFFF,
        (reinterpret_signed(extract_u32(raw)) as int) % 0x1_0000_0000 == extract_u32(raw),
        -0x8000_0000 <= reinterpret_signed(extract_u32(raw)) < 0x8000_0000,
{
    assert((raw >> 16) & 0xFFFF_FFFFu64 < 0x1_0000_0000) by (bit_vector);
}

/// Non-stationarity, within the stream: the step function has no fixed
/// point (the increment is not divisible by the greatest common divisor of
/// `MULTIPLIER - 1` and 2^48), so consecutive raw outputs always differ.
pub proof fn lemma_consecutive_outputs_differ(state: u64)
    ensures
        step(state) != state,
{
    assert(((0x5DEECE66D * state + 0xB) % 0x1_0000_0000_0000) as u64 != state)
        by (bit_vector);
}

/// Non-stationarity, against the seed: the first raw output differs from
/// the seed itself — for every seed but one. The single exception,
/// `0x2A5_C649_5101`, is the unique 64-bit value that the scramble-and-step
/// pipeline maps to itself.
pub proof fn lemma_first_output_differs(seed: u64)
    requires
        seed != 0x2A5_C649_5101,
    ensures
        step(scramble(seed)) != seed,
{
    assert(seed != 0x2A5_C649_5101u64
        ==> ((0x5DEECE66D * (((seed & 0xFFFF_FFFF) << 16) | 0x330Eu64) + 0xB)
            % 0x1_0000_0000_0000) as u64 != seed) by (bit_vector);
}

/// A pseudo-random stream of values: a single 48-bit state advanced in
/// place by each draw. Copying the value snapshots the stream.
#[derive(Copy, Clone)]
pub struct LinearCongruentialGenerator {
    seed: u64,
}

impl LinearCongruentialGenerator {
    /// Number of significant bits in the state and in each raw output.
    pub const OUTPUT_BITS: u32 = 48;

    /// The current internal state.
    pub closed spec fn state(self) -> u64 {
        self.seed
    }

    /// The state is always confined to 48 significant bits.
    pub open spec fn wf(self) -> bool {
        self.state() < MODULUS
    }

    /// Builds a generator from any 64-bit seed by scrambling it into the
    /// 48-bit initial state. Total: every seed is accepted.
    pub fn new(seed: u64) -> (result: Self)
        ensures
            result.state() == scramble(seed),
            result.wf(),
    {
        let scrambled: u64 = (seed & 0xFFFF_FFFF) << 16 | (LOWER_ORDER_SEED as u64);
        proof {
            assert(((seed & 0xFFFF_FFFF) << 16 | 0x330Eu64) < 0x1_0000_0000_0000) by (bit_vector);
        }
        LinearCongruentialGenerator { seed: scrambled }
    }

    /// Advances the state by one linear congruential step and returns the
    /// new state. The multiply is widened before the 48-bit reduction, so
    /// the intermediate product is never truncated incorrectly.
    pub fn raw_next(&mut self) -> (raw: u64)
        requires
            old(self).wf(),
        ensures
            raw == step(old(self).state()),
            final(self).state() == raw,
            final(self).wf(),
    {
        let widened: u128 =
            (MULTIPLIER as u128) * (self.seed as u128) + (INCREMENT as u128);
        let next: u64 = (widened % (MODULUS as u128)) as u64;
        self.seed = next;
        next
    }

    /// Draws the next value and returns its upper 32 bits
    /// (bits 16 through 47 of the 48-bit raw output).
    pub fn next_u32(&mut self) -> (value: u32)
        requires
            old(self).wf(),
        ensures
            value == extract_u32(step(old(self).state())),
            final(self).state() == step(old(self).state()),
            final(self).wf(),
    {
        let high_32bit_mask: u64 = ((!0u32) as u64) << 16;
        let raw_output: u64 = self.raw_next();
        proof {
            assert((raw_output & (((!0u32) as u64) << 16)) >> 16
                == (raw_output >> 16) & 0xFFFF_FFFFu64) by (bit_vector);
            assert((raw_output >> 16) & 0xFFFF_FFFFu64 < 0x1_0000_0000) by (bit_vector);
        }
        ((raw_output & high_32bit_mask) >> 16) as u32
    }

    /// Draws the next value and reinterprets the 32-bit output's bit
    /// pattern as a two's-complement signed integer (no value change).
    pub fn next_i32(&mut self) -> (value: i32)
        requires
            old(self).wf(),
        ensures
            value == reinterpret_signed(extract_u32(step(old(self).state()))),
            final(self).state() == step(old(self).state()),
            final(self).wf(),
    {
        let unsigned: u32 = self.next_u32();
        proof {
            assert(#[verifier::truncate] (unsigned as i32) == reinterpret_signed(unsigned))
                by (bit_vector);
        }
        #[verifier::truncate] (unsigned as i32)
    }
}

} // verus!
