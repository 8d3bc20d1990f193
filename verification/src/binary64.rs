//! The 64-bit interchange encoding of IEEE 754 double precision: one sign
//! bit, eleven bits of biased exponent, fifty-two bits of fraction.

use vstd::prelude::*;

verus! {

/// The encoding whose only set bit is the sign bit (negative zero).
pub const SIGN_BIT: u64 = 0x8000_0000_0000_0000;

/// The encoding of positive zero.
pub const POSITIVE_ZERO: u64 = 0;

/// The number of encodings that share one sign and one exponent.
pub const FRACTION_SPAN: u64 = 0x0010_0000_0000_0000;

/// The number of biased exponents.
pub const EXPONENT_SPAN: u64 = 0x800;

/// The three fields of an encoding.
pub struct Decoded {
    pub negative: bool,
    pub exponent: nat,
    pub fraction: nat,
}

impl Decoded {
    /// Both zeros: the smallest exponent and an empty fraction.
    pub open spec fn is_zero(self) -> bool {
        self.exponent == 0 && self.fraction == 0
    }

    /// Not a number: the largest exponent and a fraction that is not empty.
    pub open spec fn is_nan(self) -> bool {
        self.exponent == EXPONENT_SPAN - 1 && self.fraction != 0
    }

    /// Either infinity: the largest exponent and an empty fraction.
    pub open spec fn is_infinite(self) -> bool {
        self.exponent == EXPONENT_SPAN - 1 && self.fraction == 0
    }

    /// The same exponent and fraction under the other sign.
    pub open spec fn opposite(self) -> Decoded {
        Decoded { negative: !self.negative, exponent: self.exponent, fraction: self.fraction }
    }
}

/// The fields that an encoding holds.
pub open spec fn decode(bits: u64) -> Decoded {
    Decoded {
        negative: bits >= SIGN_BIT,
        exponent: ((bits / FRACTION_SPAN) % EXPONENT_SPAN) as nat,
        fraction: (bits % FRACTION_SPAN) as nat,
    }
}

/// The encoding of the negated value: the sign bit is the other one, the
/// remaining sixty-three bits stay.
pub open spec fn negated(bits: u64) -> u64 {
    if bits >= SIGN_BIT {
        (bits - SIGN_BIT) as u64
    } else {
        (bits + SIGN_BIT) as u64
    }
}

/// Two encodings with the same three fields are the same encoding.
pub proof fn lemma_decode_injective(a: u64, b: u64)
    requires
        decode(a) == decode(b),
    ensures
        a == b,
{
    assert((a >= SIGN_BIT) == (b >= SIGN_BIT) && (a / FRACTION_SPAN) % EXPONENT_SPAN == (b
        / FRACTION_SPAN) % EXPONENT_SPAN && a % FRACTION_SPAN == b % FRACTION_SPAN ==> a == b)
        by (bit_vector);
}

/// Adding or taking away the sign bit is the same as toggling it.
pub proof fn lemma_negated_toggles_sign_bit(bits: u64)
    ensures
        negated(bits) == bits ^ SIGN_BIT,
{
    assert(bits ^ SIGN_BIT == if bits >= SIGN_BIT {
        (bits - SIGN_BIT) as u64
    } else {
        (bits + SIGN_BIT) as u64
    }) by (bit_vector);
}

/// Negation changes the sign and nothing else. In particular it maps zero to
/// zero, infinity to infinity and not-a-number to not-a-number.
pub proof fn lemma_negated_decodes(bits: u64)
    ensures
        decode(negated(bits)) == decode(bits).opposite(),
        decode(negated(bits)).is_zero() == decode(bits).is_zero(),
        decode(negated(bits)).is_infinite() == decode(bits).is_infinite(),
        decode(negated(bits)).is_nan() == decode(bits).is_nan(),
{
    let r = negated(bits);
    lemma_negated_toggles_sign_bit(bits);
    assert((r >= SIGN_BIT) == !(bits >= SIGN_BIT) && (r / FRACTION_SPAN) % EXPONENT_SPAN == (bits
        / FRACTION_SPAN) % EXPONENT_SPAN && r % FRACTION_SPAN == bits % FRACTION_SPAN)
        by (bit_vector)
        requires
            r == bits ^ SIGN_BIT,
    ;
}

/// Negating twice gives the encoding back.
pub proof fn lemma_negated_involution(bits: u64)
    ensures
        negated(negated(bits)) == bits,
{
}

/// Negates the value that `bits` encodes, whatever it is.
pub fn negate(bits: u64) -> (r: u64)
    ensures
        r == negated(bits),
        decode(r) == decode(bits).opposite(),
{
    proof {
        lemma_negated_toggles_sign_bit(bits);
        lemma_negated_decodes(bits);
    }
    bits ^ SIGN_BIT
}

} // verus!
