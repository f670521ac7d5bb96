//! IEEE 754 binary32 numbers as bit patterns, and the exact encoding of small
//! integers in them.
//!
//! A tensor of [`F32Bits`] is a tensor of binary32 numbers: a caller gets the
//! number of an element from its bit pattern. Every 8-bit and 16-bit sample
//! is encoded without rounding, and a binary32 sample keeps its bit pattern.

use crate::pixel::{PixelData, Sample, SampleKind};
use crate::tensor::{convertible, Element, TensorData};
use vstd::arithmetic::power2::{lemma_pow2_adds, lemma_pow2_pos, lemma_pow2_strictly_increases, pow2};
use vstd::bits::{lemma_u32_mul_pow2_le_max_iff_max_shr, lemma_u32_shl_is_mul};
use vstd::prelude::*;

verus! {

/// The bit pattern of a binary32 number: one sign bit, eight bits of biased
/// exponent, and 23 bits of fraction.
#[derive(Clone, Copy, Debug, PartialEq, Eq, Structural)]
pub struct F32Bits(pub u32);

impl F32Bits {
    pub open spec fn sign(self) -> int {
        (self.0 >> 31) as int
    }

    pub open spec fn exponent(self) -> int {
        ((self.0 >> 23) & 0xff) as int
    }

    pub open spec fn fraction(self) -> int {
        (self.0 & 0x7f_ffff) as int
    }

    /// Whether the pattern encodes the integer `n`, for `n` from zero.
    ///
    /// Zero is the pattern of all zeros. A normal number with the biased
    /// exponent `e` and the fraction `f` is `(2^23 + f) * 2^(e - 150)`; for
    /// `e` up to 150 this is `n` exactly if `2^23 + f` is `n * 2^(150 - e)`.
    pub open spec fn is_integer(self, n: int) -> bool {
        if n == 0 {
            self.0 == 0
        } else {
            &&& self.sign() == 0
            &&& 127 <= self.exponent() <= 150
            &&& 0x80_0000 + self.fraction() == n * pow2((150 - self.exponent()) as nat)
        }
    }

    /// The pattern of the integer `v`.
    pub fn from_u16(v: u16) -> (b: F32Bits)
        ensures
            b.is_integer(v as int),
    {
        if v == 0 {
            return F32Bits(0);
        }
        let x: u32 = v as u32;
        // The place of the highest bit of `x` that is set.
        let mut p: u32 = 15;
        assert(x >> 16 == 0) by (bit_vector)
            requires
                x < 0x1_0000,
        ;
        while x >> p == 0
            invariant
                p <= 15,
                x != 0,
                x >> ((p + 1) as u32) == 0,
            decreases p,
        {
            assert(p > 0) by (bit_vector)
                requires
                    x >> p == 0,
                    x != 0,
            ;
            p = p - 1;
        }
        let k: u32 = 23 - p;
        let scaled: u32 = x << k;
        let fraction: u32 = scaled & 0x7f_ffff;
        let exponent: u32 = 127 + p;
        let bits: u32 = (exponent << 23) | fraction;
        proof {
            assert(x >> p == 1) by (bit_vector)
                requires
                    x >> p != 0,
                    x >> ((p + 1) as u32) == 0,
                    p <= 15,
            ;
            assert(x <= (0xffff_ffffu32 >> k) && 0x80_0000 + (scaled & 0x7f_ffff) == scaled)
                by (bit_vector)
                requires
                    x >> p == 1,
                    p <= 15,
                    k == 23 - p,
                    scaled == x << k,
            ;
            assert(bits >> 31 == 0 && (bits >> 23) & 0xff == exponent && bits & 0x7f_ffff
                == fraction) by (bit_vector)
                requires
                    bits == (exponent << 23) | fraction,
                    fraction == scaled & 0x7f_ffff,
                    exponent == 127 + p,
                    p <= 15,
            ;
            lemma_u32_mul_pow2_le_max_iff_max_shr(x, k, u32::MAX);
            lemma_u32_shl_is_mul(x, k);
        }
        F32Bits(bits)
    }

    /// At most one pattern encodes an integer.
    pub proof fn lemma_one_encoding(a: F32Bits, b: F32Bits, n: int)
        requires
            a.is_integer(n),
            b.is_integer(n),
        ensures
            a == b,
    {
        if n != 0 {
            let ka = (150 - a.exponent()) as nat;
            let kb = (150 - b.exponent()) as nat;
            let (x, y) = (a.0, b.0);
            assert(x & 0x7f_ffff < 0x80_0000 && y & 0x7f_ffff < 0x80_0000) by (bit_vector);
            lemma_pow2_pos(ka);
            lemma_pow2_pos(kb);
            assert(n > 0) by (nonlinear_arith)
                requires
                    n * pow2(ka) >= 0x80_0000,
                    pow2(ka) > 0,
            ;
            if ka < kb {
                Self::lemma_scales_apart(n, ka, kb);
            } else if kb < ka {
                Self::lemma_scales_apart(n, kb, ka);
            }
            assert(x == y) by (bit_vector)
                requires
                    x >> 31 == y >> 31,
                    (x >> 23) & 0xff == (y >> 23) & 0xff,
                    x & 0x7f_ffff == y & 0x7f_ffff,
            ;
        }
    }

    /// Scaling by a higher power of two at least doubles a positive number.
    proof fn lemma_scales_apart(n: int, low: nat, high: nat)
        requires
            n > 0,
            low < high,
        ensures
            n * pow2(high) >= 2 * (n * pow2(low)),
    {
        let d = (high - low) as nat;
        lemma_pow2_adds(low, d);
        lemma_pow2_strictly_increases(0, d);
        lemma_pow2_pos(low);
        assert(pow2(0) == 1) by {
            vstd::arithmetic::power2::lemma2_to64();
        }
        assert(n * (pow2(low) * pow2(d)) >= 2 * (n * pow2(low))) by (nonlinear_arith)
            requires
                n > 0,
                pow2(low) > 0,
                pow2(d) >= 2,
        ;
    }
}

/// An image of any of the ten layouts can become a tensor of binary32
/// numbers. In a tensor that mirrors the image, the element at each position
/// encodes the integer of the sample there, or has the bit pattern of the
/// binary32 sample there: the numbers are those of the image, not rescaled.
pub proof fn lemma_float_tensor_keeps_numbers(t: TensorData<F32Bits>, img: PixelData, i: int)
    requires
        t.mirrors(img),
        0 <= i < t.elements.len(),
    ensures
        convertible::<F32Bits>(img.layout),
        match img.samples[i] {
            Sample::U8(v) => t.elements[i].is_integer(v as int),
            Sample::U16(v) => t.elements[i].is_integer(v as int),
            Sample::F32(bits) => t.elements[i].0 == bits,
        },
{
    assert(t.elements[i].holds(img.samples[i]));
}

impl Element for F32Bits {
    /// A binary32 number holds every 8-bit and 16-bit integer exactly, and
    /// every binary32 number.
    open spec fn admits(kind: SampleKind) -> bool {
        true
    }

    open spec fn holds(self, s: Sample) -> bool {
        match s {
            Sample::U8(v) => self.is_integer(v as int),
            Sample::U16(v) => self.is_integer(v as int),
            Sample::F32(bits) => self.0 == bits,
        }
    }

    fn accepts(kind: SampleKind) -> (b: bool) {
        true
    }

    fn widen(s: Sample) -> (e: F32Bits) {
        match s {
            Sample::U8(v) => F32Bits::from_u16(v as u16),
            Sample::U16(v) => F32Bits::from_u16(v),
            Sample::F32(bits) => F32Bits(bits),
        }
    }

    proof fn lemma_holds_one(a: F32Bits, b: F32Bits, s: Sample) {
        match s {
            Sample::U8(v) => F32Bits::lemma_one_encoding(a, b, v as int),
            Sample::U16(v) => F32Bits::lemma_one_encoding(a, b, v as int),
            Sample::F32(_) => {},
        }
    }
}

} // verus!
