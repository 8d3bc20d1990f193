//! The complex number type.

use vstd::prelude::*;
use vstd::std_specs::convert::FromSpecImpl;
use crate::binary64::{
    decode, lemma_decode_injective, lemma_negated_decodes, lemma_negated_involution, negate,
    negated, Decoded, POSITIVE_ZERO,
};

verus! {

/// A complex number. Each part is the binary64 encoding of a double-precision
/// value; no encoding is excluded.
pub struct Complex {
    pub im: u64,
    pub re: u64,
}

/// What a complex number holds: the decoded fields of both parts.
pub struct ComplexView {
    pub im: Decoded,
    pub re: Decoded,
}

impl View for Complex {
    type V = ComplexView;

    open spec fn view(&self) -> ComplexView {
        ComplexView { im: decode(self.im), re: decode(self.re) }
    }
}

impl Complex {
    /// The conjugate: the same real part, the imaginary part negated.
    pub open spec fn conj_spec(self) -> Complex {
        Complex { im: negated(self.im), re: self.re }
    }

    /// The embedding of the real number that `n` encodes: the imaginary part
    /// is positive zero.
    pub open spec fn from_real(n: u64) -> Complex {
        Complex { im: POSITIVE_ZERO, re: n }
    }

    /// Reflects the number across the real axis.
    pub fn conj(&self) -> (r: Complex)
        ensures
            r == self.conj_spec(),
            r@.re == self@.re,
            r@.im == self@.im.opposite(),
    {
        Complex { im: negate(self.im), re: self.re }
    }
}

impl From<u64> for Complex {
    /// Embeds the real number that `n` encodes: the imaginary part is
    /// positive zero.
    fn from(n: u64) -> (r: Complex)
        ensures
            r == Complex::from_real(n),
    {
        Complex { im: POSITIVE_ZERO, re: n }
    }
}

impl FromSpecImpl<u64> for Complex {
    open spec fn obeys_from_spec() -> bool {
        true
    }

    open spec fn from_spec(n: u64) -> Complex {
        Complex::from_real(n)
    }
}

/// Two complex numbers with the same view are the same number.
pub proof fn lemma_view_injective(a: Complex, b: Complex)
    requires
        a@ == b@,
    ensures
        a == b,
{
    lemma_decode_injective(a.im, b.im);
    lemma_decode_injective(a.re, b.re);
}

/// Conjugating twice gives the number back, part for part and bit for bit.
pub proof fn lemma_conj_involution(a: Complex)
    ensures
        a.conj_spec().conj_spec() == a,
{
    lemma_negated_involution(a.im);
}

/// Conjugation leaves the real part alone and changes only the sign of the
/// imaginary part: its exponent and fraction, and so its magnitude, stay.
pub proof fn lemma_conj_changes_only_sign(a: Complex)
    ensures
        a.conj_spec()@.re == a@.re,
        a.conj_spec()@.im == a@.im.opposite(),
        a.conj_spec()@.im.is_nan() == a@.im.is_nan(),
{
    lemma_negated_decodes(a.im);
}

/// The embedding of a real number has that number as its real part and
/// positive zero as its imaginary part.
pub proof fn lemma_from_real_parts(x: u64)
    ensures
        Complex::from_real(x).re == x,
        Complex::from_real(x).im == POSITIVE_ZERO,
        Complex::from_real(x)@.im.is_zero(),
        !Complex::from_real(x)@.im.negative,
{
}

} // verus!
