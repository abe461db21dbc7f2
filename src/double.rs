use vstd::prelude::*;

verus! {

/// Width of the fraction (significand) field of an IEEE-754 binary64 value.
pub const FRACTION_BITS: u64 = 52;

/// Mask of the fraction field.
pub const FRACTION_MASK: u64 = 0x000f_ffff_ffff_ffff;

/// Value of the exponent field that marks infinities and NaNs.
pub const EXPONENT_ALL_ONES: u64 = 0x7ff;

/// The biased exponent field of a binary64 bit pattern.
pub open spec fn exponent_field(bits: u64) -> int {
    (bits as int / 0x10_0000_0000_0000) % 0x800
}

/// The fraction field of a binary64 bit pattern.
pub open spec fn fraction_field(bits: u64) -> int {
    bits as int % 0x10_0000_0000_0000
}

/// A binary64 bit pattern encodes NaN when its exponent field is all ones
/// and its fraction is not zero.
pub open spec fn is_nan_bits(bits: u64) -> bool {
    exponent_field(bits) == 0x7ff && fraction_field(bits) != 0
}

/// Whether any value of a sequence of bit patterns is NaN.
pub open spec fn any_nan(values: Seq<Double>) -> bool {
    exists|i: int| 0 <= i < values.len() && #[trigger] is_nan_bits(values[i].bits)
}

/// A 64-bit floating-point number, held by its IEEE-754 binary64 bit pattern.
///
/// This is the representation of a `double` on the wire. Two values are equal
/// when their bit patterns are, so a NaN equals the same NaN.
#[derive(Clone, Copy, Debug, PartialEq, Eq, Structural)]
pub struct Double {
    /// The IEEE-754 binary64 bit pattern.
    pub bits: u64,
}

impl Double {
    /// A number from its IEEE-754 binary64 bit pattern.
    pub fn from_bits(bits: u64) -> (r: Double)
        ensures
            r.bits == bits,
    {
        Double { bits }
    }

    /// The IEEE-754 binary64 bit pattern of the number.
    pub fn to_bits(&self) -> (r: u64)
        ensures
            r == self.bits,
    {
        self.bits
    }

    /// Check if the number is NaN.
    pub fn is_nan(&self) -> (r: bool)
        ensures
            r == is_nan_bits(self.bits),
    {
        let b = self.bits;
        let exponent = (b >> FRACTION_BITS) & EXPONENT_ALL_ONES;
        let fraction = b & FRACTION_MASK;
        assert(exponent == exponent_field(b)) by {
            assert((b >> 52u64) & 0x7ffu64 == (b / 0x10_0000_0000_0000u64) % 0x800u64)
                by (bit_vector);
        }
        assert(fraction == fraction_field(b)) by {
            assert(b & 0x000f_ffff_ffff_ffffu64 == b % 0x10_0000_0000_0000u64) by (bit_vector);
        }
        exponent == EXPONENT_ALL_ONES && fraction != 0
    }
}

/// A sequence joined from two holds a NaN exactly when one of the two does.
pub proof fn lemma_any_nan_concat(a: Seq<Double>, b: Seq<Double>)
    ensures
        any_nan(a + b) == (any_nan(a) || any_nan(b)),
{
    let ab = a + b;
    if any_nan(a) {
        let i = choose|i: int| 0 <= i < a.len() && #[trigger] is_nan_bits(a[i].bits);
        assert(ab[i] == a[i]);
    }
    if any_nan(b) {
        let i = choose|i: int| 0 <= i < b.len() && #[trigger] is_nan_bits(b[i].bits);
        assert(ab[a.len() + i] == b[i]);
    }
    if any_nan(ab) {
        let i = choose|i: int| 0 <= i < ab.len() && #[trigger] is_nan_bits(ab[i].bits);
        if i < a.len() {
            assert(ab[i] == a[i]);
        } else {
            assert(ab[i] == b[i - a.len()]);
        }
    }
}

/// Three values hold a NaN exactly when one of them is NaN.
pub proof fn lemma_any_nan_three(a: Double, b: Double, c: Double)
    ensures
        any_nan(seq![a, b, c]) == (is_nan_bits(a.bits) || is_nan_bits(b.bits) || is_nan_bits(
            c.bits,
        )),
{
    let s = seq![a, b, c];
    assert(s[0] == a && s[1] == b && s[2] == c);
}

/// Four values hold a NaN exactly when one of them is NaN.
pub proof fn lemma_any_nan_four(a: Double, b: Double, c: Double, d: Double)
    ensures
        any_nan(seq![a, b, c, d]) == (is_nan_bits(a.bits) || is_nan_bits(b.bits) || is_nan_bits(
            c.bits,
        ) || is_nan_bits(d.bits)),
{
    let s = seq![a, b, c, d];
    assert(s[0] == a && s[1] == b && s[2] == c && s[3] == d);
}

/// Check if any value of a list is NaN.
pub fn slice_has_nan(values: &[Double]) -> (r: bool)
    ensures
        r == any_nan(values@),
{
    let mut i: usize = 0;
    while i < values.len()
        invariant
            0 <= i <= values.len(),
            forall|j: int| 0 <= j < i ==> !is_nan_bits(#[trigger] values@[j].bits),
        decreases values.len() - i,
    {
        if values[i].is_nan() {
            return true;
        }
        i = i + 1;
    }
    false
}

} // verus!
