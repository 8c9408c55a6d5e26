//! The xorshift64* generator and its mathematical model.

use vstd::prelude::*;
use crate::laws::lemma_step_zero_iff;
use crate::unit::{mantissa_of, UnitSample, DENOMINATOR};

verus! {

/// The odd constant by which a state word is multiplied to give a draw.
pub const MULTIPLIER: u64 = 0x2545F4914F6CDD1D;

/// The state a generator starts from: the seed itself, except that zero,
/// which the transform would never leave, is replaced by one.
pub open spec fn initial_state(seed: u64) -> u64 {
    if seed == 0 {
        1
    } else {
        seed
    }
}

/// One advance of the state: three shift-xor steps on a 64-bit word.
pub open spec fn step(x: u64) -> u64 {
    let a = x ^ (x >> 12);
    let b = a ^ (a << 25);
    b ^ (b >> 27)
}

/// The word drawn from a state: its product with [`MULTIPLIER`] modulo 2^64.
pub open spec fn scramble(x: u64) -> u64 {
    ((x as nat * MULTIPLIER as nat) % 0x1_0000_0000_0000_0000) as u64
}

/// The low 32 bits of a word.
pub open spec fn low_half(word: u64) -> u32 {
    (word % 0x1_0000_0000) as u32
}

/// The state reached from `state` after `n` advances.
pub open spec fn state_after(state: u64, n: nat) -> u64
    decreases n,
{
    if n == 0 {
        state
    } else {
        step(state_after(state, (n - 1) as nat))
    }
}

/// The word returned by draw number `n`, counted from zero, of a generator
/// that stands at `state`.
pub open spec fn word_at(state: u64, n: nat) -> u64 {
    scramble(state_after(state, n + 1))
}

/// A seeded generator of pseudo-random words.
///
/// Its one field is the current state word, which is never zero: [`SimpleRng::new`]
/// starts from a nonzero state and no draw leads to zero.
pub struct SimpleRng {
    state: u64,
}

impl View for SimpleRng {
    type V = u64;

    /// A generator is fully described by its current state word.
    closed spec fn view(&self) -> u64 {
        self.state
    }
}

impl SimpleRng {
    #[verifier::type_invariant]
    spec fn nonzero(self) -> bool {
        self.state != 0
    }

    /// Creates a generator that stands at [`initial_state`] of `seed`: at
    /// `seed` itself, or at one where `seed` is zero.
    pub fn new(seed: u64) -> (rng: Self)
        ensures
            rng@ == initial_state(seed),
            rng@ != 0,
    {
        Self { state: seed.max(1) }
    }

    /// Advances the state once by [`step`] and returns the new state
    /// scrambled: the first word of the stream of the state before the call.
    pub fn next_u64(&mut self) -> (word: u64)
        ensures
            final(self)@ == step(old(self)@),
            final(self)@ != 0,
            word == scramble(final(self)@),
            word == word_at(old(self)@, 0),
    {
        proof {
            use_type_invariant(&*self);
            lemma_step_zero_iff(self.state);
            assert(state_after(self.state, 1) == step(state_after(self.state, 0)));
        }
        let mut x: u64 = self.state;
        x ^= x >> 12;
        x ^= x << 25;
        x ^= x >> 27;
        self.state = x;
        x.wrapping_mul(MULTIPLIER)
    }

    /// Advances the state exactly as [`SimpleRng::next_u64`] does and returns
    /// the low 32 bits of the word drawn.
    pub fn next_u32(&mut self) -> (word: u32)
        ensures
            final(self)@ == step(old(self)@),
            final(self)@ != 0,
            word == low_half(scramble(final(self)@)),
            word == low_half(word_at(old(self)@, 0)),
    {
        let wide: u64 = self.next_u64();
        assert(wide & 0xFFFF_FFFF == wide % 0x1_0000_0000) by (bit_vector);
        (wide & 0xFFFF_FFFF) as u32
    }

    /// Advances the state exactly as [`SimpleRng::next_u64`] does and returns
    /// a sample of the unit interval cut from the low 23 bits of
    /// [`SimpleRng::next_u32`].
    pub fn next_scaled(&mut self) -> (sample: UnitSample)
        ensures
            final(self)@ == step(old(self)@),
            final(self)@ != 0,
            sample@ == mantissa_of(low_half(scramble(final(self)@))),
            sample@ == mantissa_of(low_half(word_at(old(self)@, 0))),
            sample@ < DENOMINATOR,
    {
        UnitSample::from_word(self.next_u32())
    }

    /// The current state word.
    pub fn state(&self) -> (state: u64)
        ensures
            state == self@,
            state != 0,
    {
        proof {
            use_type_invariant(self);
        }
        self.state
    }
}

} // verus!
