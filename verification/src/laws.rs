//! What holds of every stream the generator can produce.

use vstd::prelude::*;
use crate::rng::{initial_state, low_half, state_after, step, word_at, SimpleRng};
use crate::unit::{mantissa_of, pattern_of, DENOMINATOR, ONE_BITS};

verus! {

/// Zero is the one state the transform sends to zero: it stays there, and
/// no other state arrives.
pub proof fn lemma_step_zero_iff(x: u64)
    ensures
        step(x) == 0 <==> x == 0,
{
    let a = x ^ (x >> 12);
    let b = a ^ (a << 25);
    let c = b ^ (b >> 27);
    assert(a == 0 <==> x == 0) by (bit_vector)
        requires
            a == x ^ (x >> 12),
    ;
    assert(b == 0 <==> a == 0) by (bit_vector)
        requires
            b == a ^ (a << 25),
    ;
    assert(c == 0 <==> b == 0) by (bit_vector)
        requires
            c == b ^ (b >> 27),
    ;
}

/// The state transform is one-to-one, and so a permutation of the 64-bit
/// words: two different states never advance to the same state.
pub proof fn lemma_step_injective(x: u64, y: u64)
    requires
        step(x) == step(y),
    ensures
        x == y,
{
    let xa = x ^ (x >> 12);
    let xb = xa ^ (xa << 25);
    let ya = y ^ (y >> 12);
    let yb = ya ^ (ya << 25);
    assert(xb == yb) by (bit_vector)
        requires
            xb ^ (xb >> 27) == yb ^ (yb >> 27),
    ;
    assert(xa == ya) by (bit_vector)
        requires
            xa ^ (xa << 25) == ya ^ (ya << 25),
    ;
    assert(x == y) by (bit_vector)
        requires
            x ^ (x >> 12) == y ^ (y >> 12),
    ;
}

/// A generator that has drawn once continues the stream of the state it
/// stood at before: its draw number `n` is the earlier state's draw `n + 1`.
pub proof fn lemma_stream_continues(state: u64, n: nat)
    ensures
        state_after(step(state), n) == state_after(state, n + 1),
        word_at(step(state), n) == word_at(state, n + 1),
    decreases n,
{
    if n == 0 {
        assert(state_after(state, 0) == state);
        assert(state_after(state, 1) == step(state_after(state, 0)));
    } else {
        lemma_stream_continues(state, (n - 1) as nat);
        assert(state_after(step(state), n) == step(state_after(step(state), (n - 1) as nat)));
        assert(state_after(state, n + 1) == step(state_after(state, n)));
    }
}

/// Seeds determine streams: two generators built from one seed reach the
/// same states and return the same words at every draw, those of the seed's
/// starting state.
pub proof fn lemma_same_seed_same_stream(seed: u64, a: SimpleRng, b: SimpleRng, n: nat)
    requires
        a@ == initial_state(seed),
        b@ == initial_state(seed),
    ensures
        state_after(a@, n) == state_after(b@, n),
        word_at(a@, n) == word_at(b@, n),
        word_at(a@, n) == word_at(initial_state(seed), n),
{
}

/// The seed zero stands for the seed one: both give the same states and the
/// same words at every draw.
pub proof fn lemma_zero_seed_is_one(n: nat)
    ensures
        initial_state(0) == initial_state(1),
        state_after(initial_state(0), n) == state_after(initial_state(1), n),
        word_at(initial_state(0), n) == word_at(initial_state(1), n),
{
}

/// Every seed gives a nonzero starting state.
pub proof fn lemma_initial_state_nonzero(seed: u64)
    ensures
        initial_state(seed) != 0,
{
}

/// From a nonzero state no number of advances reaches zero.
pub proof fn lemma_state_never_zero(state: u64, n: nat)
    requires
        state != 0,
    ensures
        state_after(state, n) != 0,
    decreases n,
{
    if n > 0 {
        lemma_state_never_zero(state, (n - 1) as nat);
        lemma_step_zero_iff(state_after(state, (n - 1) as nat));
    }
}

/// The low half of a word is the word cast to 32 bits, so the 32-bit draw
/// of a state is its 64-bit draw truncated; a word that fits in 32 bits is
/// its own low half.
pub proof fn lemma_low_half_truncates(word: u64)
    ensures
        low_half(word) == word as u32,
        low_half(word) == word & 0xFFFF_FFFF,
        word < 0x1_0000_0000 ==> low_half(word) == word,
{
    assert(word as u32 == word % 0x1_0000_0000) by (bit_vector);
    assert(word & 0xFFFF_FFFF == word % 0x1_0000_0000) by (bit_vector);
}

/// Whatever word a sample is cut from, it lies in `[0, 1)`: its numerator is
/// below the denominator, and its bit pattern is that of a single in
/// `[1, 2)`.
pub proof fn lemma_sample_in_unit_interval(word: u32)
    ensures
        mantissa_of(word) < DENOMINATOR,
        ONE_BITS <= pattern_of(mantissa_of(word)) < 0x4000_0000,
{
}

} // verus!
