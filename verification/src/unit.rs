//! Samples from the unit interval, held exactly as 23-bit fractions.
//!
//! An IEEE-754 single whose exponent field is that of one and whose mantissa
//! field is `m` has the value `1 + m / 2^23`. Taking one away leaves
//! `m / 2^23`, which is again a single, so a sample is carried here as the
//! integer `m` and handed out either as that numerator or as the bit pattern
//! of the single it was cut from.

use vstd::prelude::*;

verus! {

/// The number of equally spaced values a sample can take: 2^23.
pub const DENOMINATOR: u32 = 0x0080_0000;

/// The bit pattern of the IEEE-754 single one: sign clear, biased exponent
/// 127, mantissa zero.
pub const ONE_BITS: u32 = 0x3F80_0000;

/// The low 23 bits of a word, which become the mantissa of a sample.
pub open spec fn mantissa_of(word: u32) -> nat {
    (word % DENOMINATOR) as nat
}

/// The bit pattern of the single `1 + mantissa / 2^23`.
pub open spec fn pattern_of(mantissa: nat) -> nat {
    ONE_BITS as nat + mantissa
}

/// A number in `[0, 1)`: the fraction `numerator / 2^23`.
#[derive(Clone, Copy, Debug)]
pub struct UnitSample {
    mantissa: u32,
}

impl View for UnitSample {
    type V = nat;

    /// The numerator of the sample over [`DENOMINATOR`].
    closed spec fn view(&self) -> nat {
        self.mantissa as nat
    }
}

impl UnitSample {
    #[verifier::type_invariant]
    spec fn below_one(self) -> bool {
        self.mantissa < DENOMINATOR
    }

    /// Cuts a sample from the low 23 bits of `word`.
    pub fn from_word(word: u32) -> (sample: Self)
        ensures
            sample@ == mantissa_of(word),
            sample@ < DENOMINATOR,
    {
        assert(word & 0x007F_FFFF == word % 0x0080_0000) by (bit_vector);
        Self { mantissa: word & 0x007F_FFFF }
    }

    /// The numerator of the sample over [`DENOMINATOR`].
    pub fn numerator(&self) -> (numerator: u32)
        ensures
            numerator == self@,
            numerator < DENOMINATOR,
    {
        proof {
            use_type_invariant(self);
        }
        self.mantissa
    }

    /// The bit pattern of the single that lies one above the sample: exponent
    /// field of one, mantissa field the numerator. It is always the pattern of
    /// a single in `[1, 2)`.
    pub fn to_bits(&self) -> (bits: u32)
        ensures
            bits == pattern_of(self@),
            ONE_BITS <= bits < 0x4000_0000,
    {
        proof {
            use_type_invariant(self);
        }
        let mantissa: u32 = self.mantissa;
        assert(0x3F80_0000u32 | mantissa == 0x3F80_0000u32 + mantissa) by (bit_vector)
            requires
                mantissa < 0x0080_0000u32,
        ;
        ONE_BITS | mantissa
    }
}

} // verus!
