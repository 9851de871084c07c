use vstd::prelude::*;

verus! {

/// A scalar in signed Q32.32 fixed-point form: a `Value` with bit pattern `b`
/// stands for the rational number `b / 2^32`.  All arithmetic saturates at the
/// representable range instead of wrapping or failing.
#[derive(Clone, Copy, PartialEq, Eq, Structural, Debug)]
pub struct Value {
    pub bits: i64,
}

/// Number of units in one whole: `2^32`.
pub const SCALE: i64 = 0x1_0000_0000;

pub open spec fn abs_i(x: int) -> int {
    if x < 0 {
        -x
    } else {
        x
    }
}

/// Clamp a mathematical integer into the range of `i64`.
pub open spec fn sat64(x: int) -> int {
    if x > 0x7fff_ffff_ffff_ffff {
        0x7fff_ffff_ffff_ffff
    } else if x < -0x8000_0000_0000_0000 {
        -0x8000_0000_0000_0000
    } else {
        x
    }
}

/// Division rounded toward zero, as the machine division of magnitudes with
/// the signs re-applied.
pub open spec fn tdiv(p: int, d: int) -> int
    recommends
        d != 0,
{
    if (p < 0) == (d < 0) {
        abs_i(p) / abs_i(d)
    } else {
        -(abs_i(p) / abs_i(d))
    }
}

/// Fixed-point sum of two bit patterns.
pub open spec fn fx_add(a: int, b: int) -> int {
    sat64(a + b)
}

/// Fixed-point difference of two bit patterns.
pub open spec fn fx_sub(a: int, b: int) -> int {
    sat64(a - b)
}

/// Fixed-point product of two bit patterns: the exact product carries `64`
/// fractional bits, so it is divided by `2^32`, rounding toward zero.
pub open spec fn fx_mul(a: int, b: int) -> int {
    sat64(tdiv(a * b, 0x1_0000_0000))
}

/// Fixed-point quotient of two bit patterns, rounding toward zero.
pub open spec fn fx_div(a: int, b: int) -> int
    recommends
        b != 0,
{
    sat64(tdiv(a * 0x1_0000_0000, b))
}

/// The magnitude of `x`, widened so that `i64::MIN` needs no special case.
fn abs_to_u128(x: i64) -> (r: u128)
    ensures
        r as int == abs_i(x as int),
{
    if x < 0 {
        (-(x as i128)) as u128
    } else {
        x as u128
    }
}

/// Reattach a sign to a magnitude and clamp the result into `i64`.
fn sat_from_sign_mag(neg: bool, mag: u128) -> (r: i64)
    ensures
        r as int == sat64(if neg { -(mag as int) } else { mag as int }),
{
    if neg {
        if mag >= 0x8000_0000_0000_0000u128 {
            -0x8000_0000_0000_0000i64
        } else {
            -(mag as i64)
        }
    } else {
        if mag > 0x7fff_ffff_ffff_ffffu128 {
            0x7fff_ffff_ffff_ffffi64
        } else {
            mag as i64
        }
    }
}

impl Value {
    /// The value zero.
    pub fn zero() -> (r: Value)
        ensures
            r.bits == 0,
    {
        Value { bits: 0 }
    }

    pub fn from_bits(bits: i64) -> (r: Value)
        ensures
            r.bits == bits,
    {
        Value { bits }
    }

    pub fn to_bits(self) -> (r: i64)
        ensures
            r == self.bits,
    {
        self.bits
    }

    /// The value of a small integer.
    pub fn from_int(v: i64) -> (r: Value)
        requires
            -0x8000_0000 <= v <= 0x7fff_ffff,
        ensures
            r.bits == v * 0x1_0000_0000,
    {
        Value { bits: v * 0x1_0000_0000 }
    }

    /// The value of the fraction `num / den`, rounded toward zero.
    pub fn from_ratio(num: i64, den: i64) -> (r: Value)
        requires
            den != 0,
        ensures
            r.bits as int == fx_div(num as int, den as int),
    {
        Value { bits: div_core(num, den) }
    }

    /// Saturating fixed-point addition.
    pub fn add_sat(self, rhs: Value) -> (r: Value)
        ensures
            r.bits as int == fx_add(self.bits as int, rhs.bits as int),
    {
        let s: i128 = (self.bits as i128) + (rhs.bits as i128);
        if s > 0x7fff_ffff_ffff_ffffi128 {
            Value { bits: 0x7fff_ffff_ffff_ffffi64 }
        } else if s < -0x8000_0000_0000_0000i128 {
            Value { bits: -0x8000_0000_0000_0000i64 }
        } else {
            Value { bits: s as i64 }
        }
    }

    /// Saturating fixed-point subtraction.
    pub fn sub_sat(self, rhs: Value) -> (r: Value)
        ensures
            r.bits as int == fx_sub(self.bits as int, rhs.bits as int),
    {
        let s: i128 = (self.bits as i128) - (rhs.bits as i128);
        if s > 0x7fff_ffff_ffff_ffffi128 {
            Value { bits: 0x7fff_ffff_ffff_ffffi64 }
        } else if s < -0x8000_0000_0000_0000i128 {
            Value { bits: -0x8000_0000_0000_0000i64 }
        } else {
            Value { bits: s as i64 }
        }
    }

    /// Saturating fixed-point multiplication.
    pub fn mul_sat(self, rhs: Value) -> (r: Value)
        ensures
            r.bits as int == fx_mul(self.bits as int, rhs.bits as int),
    {
        let a: i64 = self.bits;
        let b: i64 = rhs.bits;
        let neg: bool = (a < 0) != (b < 0);
        let ma: u128 = abs_to_u128(a);
        let mb: u128 = abs_to_u128(b);
        proof {
            assert(abs_i(a as int) * abs_i(b as int) <= 0x8000_0000_0000_0000
                * 0x8000_0000_0000_0000) by (nonlinear_arith)
                requires
                    0 <= abs_i(a as int) <= 0x8000_0000_0000_0000,
                    0 <= abs_i(b as int) <= 0x8000_0000_0000_0000,
            ;
        }
        let p: u128 = ma * mb;
        let q: u128 = p / 0x1_0000_0000u128;
        proof {
            assert(abs_i((a as int) * (b as int)) == abs_i(a as int) * abs_i(b as int))
                by (nonlinear_arith);
            assert(((a as int) * (b as int) < 0) == (((a as int) < 0) != ((b as int) < 0)
                && (a as int) * (b as int) != 0)) by (nonlinear_arith);
        }
        Value { bits: sat_from_sign_mag(neg, q) }
    }

    /// Saturating fixed-point division.
    pub fn div_sat(self, rhs: Value) -> (r: Value)
        requires
            rhs.bits != 0,
        ensures
            r.bits as int == fx_div(self.bits as int, rhs.bits as int),
    {
        Value { bits: div_core(self.bits, rhs.bits) }
    }
}

/// Shared core of `from_ratio` and `div_sat`: `(a * 2^32) / b`, rounded toward
/// zero and clamped into `i64`.
fn div_core(a: i64, b: i64) -> (r: i64)
    requires
        b != 0,
    ensures
        r as int == fx_div(a as int, b as int),
{
    let neg: bool = (a < 0) != (b < 0);
    let ma: u128 = abs_to_u128(a) * 0x1_0000_0000u128;
    let mb: u128 = abs_to_u128(b);
    let q: u128 = ma / mb;
    proof {
        assert(abs_i((a as int) * 0x1_0000_0000) == abs_i(a as int) * 0x1_0000_0000)
            by (nonlinear_arith);
        assert(((a as int) * 0x1_0000_0000 < 0) == ((a as int) < 0)) by (nonlinear_arith);
        assert(((a as int) * 0x1_0000_0000 == 0) == ((a as int) == 0)) by (nonlinear_arith);
    }
    sat_from_sign_mag(neg, q)
}

} // verus!
