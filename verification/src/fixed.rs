//! The numeric domain of the renderer: a signed Q31.32 fixed-point number.
//!
//! The plane transform and the escape-time kernels are generic over the
//! numeric plane only in the mathematical sense; this crate commits to one
//! domain with exactly stated semantics.  A `Fixed` value holds `raw` and
//! denotes the rational `raw / 2^32`.  Multiplication truncates toward zero
//! and every operation saturates at the ends of the `i64` range, so all
//! operations are total, as the transform contract demands.

use vstd::prelude::*;

verus! {

/// Raw representation of 1: the denominator of the Q31.32 format.
pub const FIXED_SCALE: i64 = 0x1_0000_0000;

/// Clamps a mathematical integer into the `i64` range.
pub open spec fn sat64(x: int) -> int {
    if x > i64::MAX as int {
        i64::MAX as int
    } else if x < i64::MIN as int {
        i64::MIN as int
    } else {
        x
    }
}

/// Quotient of `p` by `d`, rounded toward zero; meaningful for `d > 0`.
pub open spec fn quot_trunc(p: int, d: int) -> int {
    if p >= 0 {
        p / d
    } else {
        -((-p) / d)
    }
}

/// Raw result of fixed-point multiplication: the exact product rescaled,
/// truncated toward zero and saturated.
pub open spec fn fmul_raw(a: int, b: int) -> int {
    sat64(quot_trunc(a * b, FIXED_SCALE as int))
}

/// Raw result of saturating addition.
pub open spec fn fadd_raw(a: int, b: int) -> int {
    sat64(a + b)
}

/// Raw result of saturating subtraction.
pub open spec fn fsub_raw(a: int, b: int) -> int {
    sat64(a - b)
}

/// Raw result of halving, rounded toward zero.
pub open spec fn fhalf_raw(a: int) -> int {
    quot_trunc(a, 2)
}

/// Relates a truncated quotient to its dividend: the quotient times the
/// divisor lands within one divisor of the dividend, on the zero side.
pub proof fn lemma_quot_trunc(p: int, d: int)
    requires
        d > 0,
    ensures
        p >= 0 ==> d * quot_trunc(p, d) <= p < d * quot_trunc(p, d) + d,
        p >= 0 ==> quot_trunc(p, d) >= 0,
        p < 0 ==> p <= d * quot_trunc(p, d) < p + d,
        p < 0 ==> quot_trunc(p, d) <= 0,
{
    if p >= 0 {
        vstd::arithmetic::div_mod::lemma_fundamental_div_mod(p, d);
        vstd::arithmetic::div_mod::lemma_mod_division_less_than_divisor(p, d);
        vstd::arithmetic::div_mod::lemma_div_pos_is_pos(p, d);
    } else {
        let m = -p;
        let q = m / d;
        vstd::arithmetic::div_mod::lemma_fundamental_div_mod(m, d);
        vstd::arithmetic::div_mod::lemma_mod_division_less_than_divisor(m, d);
        vstd::arithmetic::div_mod::lemma_div_pos_is_pos(m, d);
        assert(m == d * q + m % d);
        assert(quot_trunc(p, d) == -q);
        assert(d * (-q) == -(d * q)) by (nonlinear_arith);
        assert(d * quot_trunc(p, d) == p + m % d);
    }
}

/// A dividend bounded by `b` divisors has a truncated quotient bounded by `b`.
pub proof fn lemma_quot_trunc_bound(p: int, d: int, b: int)
    requires
        d > 0,
        b >= 0,
        -(b * d) <= p <= b * d,
    ensures
        -b <= quot_trunc(p, d) <= b,
{
    if p >= 0 {
        vstd::arithmetic::div_mod::lemma_div_is_ordered(p, b * d, d);
        vstd::arithmetic::div_mod::lemma_div_by_multiple(b, d);
        vstd::arithmetic::div_mod::lemma_div_pos_is_pos(p, d);
    } else {
        vstd::arithmetic::div_mod::lemma_div_is_ordered(-p, b * d, d);
        vstd::arithmetic::div_mod::lemma_div_by_multiple(b, d);
        vstd::arithmetic::div_mod::lemma_div_pos_is_pos(-p, d);
    }
}

/// A Q31.32 fixed-point number; `raw` denotes `raw / 2^32`.
#[derive(Clone, Copy, PartialEq, Eq, Structural, Debug)]
pub struct Fixed {
    pub raw: i64,
}

impl Fixed {
    /// The additive identity.
    pub fn zero() -> (r: Fixed)
        ensures
            r.raw == 0,
    {
        Fixed { raw: 0 }
    }

    /// The multiplicative identity.
    pub fn one() -> (r: Fixed)
        ensures
            r.raw == FIXED_SCALE,
    {
        Fixed { raw: FIXED_SCALE }
    }

    /// Builds a value directly from its raw representation.
    pub fn from_raw(raw: i64) -> (r: Fixed)
        ensures
            r.raw == raw,
    {
        Fixed { raw }
    }

    /// The fixed-point value of a small integer; exact over all of `i32`.
    pub fn from_int(v: i32) -> (r: Fixed)
        ensures
            r.raw == v * FIXED_SCALE,
    {
        Fixed { raw: (v as i64) * FIXED_SCALE }
    }

    /// The fixed-point value of a pixel coordinate, saturated above `2^31 - 1`.
    pub fn from_u32(v: u32) -> (r: Fixed)
        ensures
            r.raw == sat64(v * FIXED_SCALE),
    {
        if v >= 0x8000_0000u32 {
            Fixed { raw: i64::MAX }
        } else {
            Fixed { raw: (v as i64) * FIXED_SCALE }
        }
    }

    /// Saturating addition.
    pub fn add_sat(self, rhs: Fixed) -> (r: Fixed)
        ensures
            r.raw == fadd_raw(self.raw as int, rhs.raw as int),
    {
        let s: i128 = self.raw as i128 + rhs.raw as i128;
        if s > i64::MAX as i128 {
            Fixed { raw: i64::MAX }
        } else if s < i64::MIN as i128 {
            Fixed { raw: i64::MIN }
        } else {
            Fixed { raw: s as i64 }
        }
    }

    /// Saturating subtraction.
    pub fn sub_sat(self, rhs: Fixed) -> (r: Fixed)
        ensures
            r.raw == fsub_raw(self.raw as int, rhs.raw as int),
    {
        let s: i128 = self.raw as i128 - rhs.raw as i128;
        if s > i64::MAX as i128 {
            Fixed { raw: i64::MAX }
        } else if s < i64::MIN as i128 {
            Fixed { raw: i64::MIN }
        } else {
            Fixed { raw: s as i64 }
        }
    }

    /// Fixed-point multiplication: truncated toward zero, saturated.
    pub fn mul_sat(self, rhs: Fixed) -> (r: Fixed)
        ensures
            r.raw == fmul_raw(self.raw as int, rhs.raw as int),
    {
        proof {
            assert((self.raw as int) * (rhs.raw as int) <= 0x4000_0000_0000_0000_0000_0000_0000_0000int
                && (self.raw as int) * (rhs.raw as int) >= -0x4000_0000_0000_0000_0000_0000_0000_0000int)
                by (nonlinear_arith)
                requires
                    -0x8000_0000_0000_0000int <= self.raw as int <= 0x7fff_ffff_ffff_ffffint,
                    -0x8000_0000_0000_0000int <= rhs.raw as int <= 0x7fff_ffff_ffff_ffffint;
        }
        let p: i128 = (self.raw as i128) * (rhs.raw as i128);
        let neg: bool = p < 0;
        let m: u128 = if p < 0 {
            (-p) as u128
        } else {
            p as u128
        };
        let q: u128 = m / (FIXED_SCALE as u128);
        if neg {
            if q >= 0x8000_0000_0000_0000u128 {
                Fixed { raw: i64::MIN }
            } else {
                Fixed { raw: -(q as i64) }
            }
        } else {
            if q > i64::MAX as u128 {
                Fixed { raw: i64::MAX }
            } else {
                Fixed { raw: q as i64 }
            }
        }
    }

    /// Half of the value, rounded toward zero.
    pub fn half(self) -> (r: Fixed)
        ensures
            r.raw == fhalf_raw(self.raw as int),
    {
        if self.raw >= 0 {
            Fixed { raw: ((self.raw as u64) / 2u64) as i64 }
        } else {
            let m: u128 = (-(self.raw as i128)) as u128;
            Fixed { raw: -((m / 2u128) as i64) }
        }
    }

    /// Whether the value is at least 1.
    pub fn ge_one(self) -> (r: bool)
        ensures
            r == (self.raw >= FIXED_SCALE),
    {
        self.raw >= FIXED_SCALE
    }
}

} // verus!
