//! IEEE 754 single-precision values carried by their bit patterns.
//!
//! The metadata model stores every `f32` that the runtime reads (frame
//! rates, bounds, playback times) as its raw 32-bit pattern. The
//! comparisons that the validation rules need are stated here over the
//! bit pattern exactly as IEEE 754 defines them for binary32: bit 31 is the
//! sign, bits 23..31 the biased exponent, bits 0..23 the fraction.
use vstd::prelude::*;

verus! {

/// Bit 31: the sign of a binary32 value.
pub const SIGN_BIT: u32 = 0x8000_0000;

/// The pattern of positive infinity; every magnitude above it is a NaN.
pub const POSITIVE_INFINITY_BITS: u32 = 0x7F80_0000;

/// The pattern of `0.0`.
pub const POSITIVE_ZERO_BITS: u32 = 0;

/// The magnitude (sign cleared) of a bit pattern.
pub open spec fn magnitude(bits: u32) -> int {
    (bits % SIGN_BIT) as int
}

/// Whether the sign bit is set.
pub open spec fn sign_set(bits: u32) -> bool {
    bits >= SIGN_BIT
}

/// NaN: all exponent bits set and a non-zero fraction.
pub open spec fn is_nan(bits: u32) -> bool {
    magnitude(bits) > POSITIVE_INFINITY_BITS
}

/// Finite: the exponent bits are not all set.
pub open spec fn is_finite(bits: u32) -> bool {
    magnitude(bits) < POSITIVE_INFINITY_BITS
}

/// An integer that orders the non-NaN patterns as their values are
/// ordered: the magnitude, negated when the sign is set. Both zeros map
/// to 0, as `-0.0 == 0.0`.
pub open spec fn order_key(bits: u32) -> int {
    if sign_set(bits) {
        -magnitude(bits)
    } else {
        magnitude(bits)
    }
}

/// `a < b` on binary32 values (false when either is NaN).
pub open spec fn f32_lt(a: u32, b: u32) -> bool {
    !is_nan(a) && !is_nan(b) && order_key(a) < order_key(b)
}

/// `a <= b` on binary32 values (false when either is NaN).
pub open spec fn f32_le(a: u32, b: u32) -> bool {
    !is_nan(a) && !is_nan(b) && order_key(a) <= order_key(b)
}

/// `a == b` on binary32 values (false when either is NaN; the two zeros are equal).
pub open spec fn f32_eq(a: u32, b: u32) -> bool {
    !is_nan(a) && !is_nan(b) && order_key(a) == order_key(b)
}

/// `-a`: the pattern with its sign bit flipped.
pub open spec fn f32_neg(a: u32) -> u32 {
    if sign_set(a) {
        (a - SIGN_BIT) as u32
    } else {
        (a + SIGN_BIT) as u32
    }
}

/// `a.max(b)` as IEEE 754 maxNum: a NaN operand yields the other operand;
/// of two ordered operands the greater, and `a` when they compare equal.
pub open spec fn f32_max(a: u32, b: u32) -> u32 {
    if is_nan(a) {
        b
    } else if is_nan(b) {
        a
    } else if order_key(a) < order_key(b) {
        b
    } else {
        a
    }
}

/// `x.clamp(lo, hi)`: `lo` when `x < lo`, else `hi` when `x > hi`, else
/// `x` itself (so a NaN `x` stays NaN).
pub open spec fn f32_clamp(x: u32, lo: u32, hi: u32) -> u32 {
    if f32_lt(x, lo) {
        lo
    } else if f32_lt(hi, x) {
        hi
    } else {
        x
    }
}

/// A binary32 value held by its bit pattern.
#[derive(Clone, Copy, Debug)]
pub struct F32Bits {
    pub bits: u32,
}

/// Three binary32 values, as a position or a bound.
#[derive(Clone, Copy, Debug, PartialEq)]
pub struct Vec3Bits {
    pub x: F32Bits,
    pub y: F32Bits,
    pub z: F32Bits,
}

impl PartialEq for F32Bits {
    fn eq(&self, other: &Self) -> (r: bool) {
        let a = self.bits % SIGN_BIT;
        let b = other.bits % SIGN_BIT;
        if a > POSITIVE_INFINITY_BITS || b > POSITIVE_INFINITY_BITS {
            false
        } else if a == 0 && b == 0 {
            true
        } else {
            self.bits == other.bits
        }
    }
}

impl vstd::std_specs::cmp::PartialEqSpecImpl for F32Bits {
    open spec fn obeys_eq_spec() -> bool {
        true
    }

    open spec fn eq_spec(&self, other: &Self) -> bool {
        f32_eq(self.bits, other.bits)
    }
}

impl F32Bits {
    /// The value whose pattern is `bits`.
    pub fn from_bits(bits: u32) -> (r: F32Bits)
        ensures
            r.bits == bits,
    {
        F32Bits { bits }
    }

    /// `0.0`.
    pub fn zero() -> (r: F32Bits)
        ensures
            r.bits == POSITIVE_ZERO_BITS,
    {
        F32Bits { bits: POSITIVE_ZERO_BITS }
    }

    /// Whether the value is NaN.
    pub fn is_nan(self) -> (r: bool)
        ensures
            r == is_nan(self.bits),
    {
        self.bits % SIGN_BIT > POSITIVE_INFINITY_BITS
    }

    /// Whether the value is neither infinite nor NaN.
    pub fn is_finite(self) -> (r: bool)
        ensures
            r == is_finite(self.bits),
    {
        self.bits % SIGN_BIT < POSITIVE_INFINITY_BITS
    }

    /// `self < other`.
    pub fn lt(self, other: F32Bits) -> (r: bool)
        ensures
            r == f32_lt(self.bits, other.bits),
    {
        let a = self.bits % SIGN_BIT;
        let b = other.bits % SIGN_BIT;
        if a > POSITIVE_INFINITY_BITS || b > POSITIVE_INFINITY_BITS {
            return false;
        }
        let a_neg = self.bits >= SIGN_BIT;
        let b_neg = other.bits >= SIGN_BIT;
        if a_neg && b_neg {
            b < a
        } else if a_neg {
            // -a < b unless both are zero
            a != 0 || b != 0
        } else if b_neg {
            false
        } else {
            a < b
        }
    }

    /// `self <= other`.
    pub fn le(self, other: F32Bits) -> (r: bool)
        ensures
            r == f32_le(self.bits, other.bits),
    {
        let a = self.bits % SIGN_BIT;
        let b = other.bits % SIGN_BIT;
        if a > POSITIVE_INFINITY_BITS || b > POSITIVE_INFINITY_BITS {
            return false;
        }
        let a_neg = self.bits >= SIGN_BIT;
        let b_neg = other.bits >= SIGN_BIT;
        if a_neg && b_neg {
            b <= a
        } else if a_neg {
            true
        } else if b_neg {
            a == 0 && b == 0
        } else {
            a <= b
        }
    }

    /// `self > 0.0`.
    pub fn is_positive(self) -> (r: bool)
        ensures
            r == f32_lt(POSITIVE_ZERO_BITS, self.bits),
    {
        F32Bits::zero().lt(self)
    }

    /// `-self`.
    pub fn neg(self) -> (r: F32Bits)
        ensures
            r.bits == f32_neg(self.bits),
    {
        if self.bits >= SIGN_BIT {
            F32Bits { bits: self.bits - SIGN_BIT }
        } else {
            F32Bits { bits: self.bits + SIGN_BIT }
        }
    }

    /// `self.max(other)`.
    pub fn max(self, other: F32Bits) -> (r: F32Bits)
        ensures
            r.bits == f32_max(self.bits, other.bits),
    {
        if self.is_nan() {
            other
        } else if other.is_nan() {
            self
        } else if self.lt(other) {
            other
        } else {
            self
        }
    }

    /// The value clamped into `[lo, hi]`; the bounds must be ordered numbers.
    pub fn clamp(self, lo: F32Bits, hi: F32Bits) -> (r: F32Bits)
        requires
            f32_le(lo.bits, hi.bits),
        ensures
            r.bits == f32_clamp(self.bits, lo.bits, hi.bits),
    {
        if self.lt(lo) {
            lo
        } else if hi.lt(self) {
            hi
        } else {
            self
        }
    }
}

impl Vec3Bits {
    /// The vector `(x, y, z)`.
    pub fn new(x: F32Bits, y: F32Bits, z: F32Bits) -> (r: Vec3Bits)
        ensures
            r.x == x,
            r.y == y,
            r.z == z,
    {
        Vec3Bits { x, y, z }
    }

    /// Whether every component is finite.
    pub fn is_finite(self) -> (r: bool)
        ensures
            r == vec3_is_finite(self),
    {
        self.x.is_finite() && self.y.is_finite() && self.z.is_finite()
    }

    /// Whether `self <= other` holds componentwise.
    pub fn all_le(self, other: Vec3Bits) -> (r: bool)
        ensures
            r == vec3_all_le(self, other),
    {
        self.x.le(other.x) && self.y.le(other.y) && self.z.le(other.z)
    }
}

/// Every component of `v` is finite.
pub open spec fn vec3_is_finite(v: Vec3Bits) -> bool {
    is_finite(v.x.bits) && is_finite(v.y.bits) && is_finite(v.z.bits)
}

/// `a <= b` componentwise.
pub open spec fn vec3_all_le(a: Vec3Bits, b: Vec3Bits) -> bool {
    f32_le(a.x.bits, b.x.bits) && f32_le(a.y.bits, b.y.bits) && f32_le(a.z.bits, b.z.bits)
}

} // verus!
