//! Fixed-point scalars: an `i128` raw value carrying 32 fractional bits.
//!
//! Every arithmetic operation has an exact integer specification: addition
//! and subtraction are exact, multiplication and division truncate toward
//! zero at the 32nd fractional bit and saturate at `SAT` (2^63 raw, i.e.
//! 2^31 in scalar units), so that intermediate products always fit in
//! `i128`.

use vstd::prelude::*;

verus! {

use vstd::math::abs;

/// Raw weight of one scalar unit: 2^32.
pub const SCALE: i128 = 0x1_0000_0000;

/// Saturation bound on raw values produced by `mul_sat` / `div_sat`: 2^63.
pub const SAT: i128 = 0x8000_0000_0000_0000;

/// Largest raw magnitude accepted by the exact `add` / `sub`: 2^125.
pub const ADD_LIM: i128 = 0x2000_0000_0000_0000_0000_0000_0000_0000;

/// Largest raw numerator magnitude accepted by `div_sat`: 2^90.
pub const DIV_NUM_LIM: i128 = 0x400_0000_0000_0000_0000_0000;

/// Truncating division (round toward zero); meaningful for `b > 0`.
pub open spec fn tdiv(a: int, b: int) -> int {
    if a >= 0 {
        a / b
    } else {
        -((-a) / b)
    }
}

/// Clamp an integer into `[-SAT, SAT]`.
pub open spec fn sat_clip(x: int) -> int {
    if x > SAT {
        SAT as int
    } else if x < -SAT {
        -SAT as int
    } else {
        x
    }
}

/// Exact value of a saturating fixed-point product of raw values `a` and `b`.
pub open spec fn mul_spec(a: int, b: int) -> int {
    sat_clip(tdiv(a * b, SCALE as int))
}

/// Exact value of a saturating fixed-point quotient of raw values `a` and `b`.
/// A zero divisor saturates with the numerator's sign.
pub open spec fn div_spec(a: int, b: int) -> int {
    if b == 0 {
        if a > 0 {
            SAT as int
        } else if a < 0 {
            -SAT as int
        } else {
            0
        }
    } else {
        if (a >= 0) == (b >= 0) {
            sat_clip((abs(a) * SCALE) / (abs(b) as int))
        } else {
            sat_clip(-((abs(a) * SCALE) / (abs(b) as int)))
        }
    }
}

/// A fixed-point scalar: the represented value is `v / 2^32`.
#[derive(Clone, Copy, Debug, PartialEq, Eq, Structural)]
pub struct Fixed {
    pub v: i128,
}

/// Magnitude of an `i128` as a `u128`.
fn mag(x: i128) -> (m: u128)
    requires
        x > i128::MIN,
    ensures
        m as int == abs(x as int),
{
    if x >= 0 {
        x as u128
    } else {
        (-x) as u128
    }
}

impl Fixed {
    /// Raw magnitude at most `b`.
    pub open spec fn bounded(self, b: int) -> bool {
        -b <= self.v <= b
    }

    /// The scalar for the integer `n`.
    pub fn from_int(n: i64) -> (r: Fixed)
        ensures
            r.v == n * SCALE,
    {
        Fixed { v: (n as i128) * SCALE }
    }

    /// The scalar with raw value `v`.
    pub fn from_raw(v: i128) -> (r: Fixed)
        ensures
            r.v == v,
    {
        Fixed { v }
    }

    /// Exact addition; the bound keeps the sum inside `i128`.
    pub fn add(self, o: Fixed) -> (r: Fixed)
        requires
            self.bounded(ADD_LIM as int),
            o.bounded(ADD_LIM as int),
        ensures
            r.v == self.v + o.v,
    {
        Fixed { v: self.v + o.v }
    }

    /// Exact subtraction; the bound keeps the difference inside `i128`.
    pub fn sub(self, o: Fixed) -> (r: Fixed)
        requires
            self.bounded(ADD_LIM as int),
            o.bounded(ADD_LIM as int),
        ensures
            r.v == self.v - o.v,
    {
        Fixed { v: self.v - o.v }
    }

    /// Exact negation.
    pub fn neg(self) -> (r: Fixed)
        requires
            self.bounded(ADD_LIM as int),
        ensures
            r.v == -self.v,
    {
        Fixed { v: -self.v }
    }

    /// Saturating product, truncated toward zero at the 32nd fractional bit.
    pub fn mul_sat(self, o: Fixed) -> (r: Fixed)
        requires
            self.bounded(SAT as int),
            o.bounded(SAT as int),
        ensures
            r.v == mul_spec(self.v as int, o.v as int),
            r.bounded(SAT as int),
    {
        proof {
            assert(self.v * o.v <= SAT * SAT && -(SAT * SAT) <= self.v * o.v)
                by (nonlinear_arith)
                requires
                    -SAT <= self.v <= SAT,
                    -SAT <= o.v <= SAT,
            ;
        }
        let p: i128 = self.v * o.v;
        let q: u128 = mag(p) / (SCALE as u128);
        proof {
            assert((abs(p as int) as int) / (SCALE as int) <= abs(p as int) as int)
                by (nonlinear_arith);
        }
        if p >= 0 {
            if q > SAT as u128 {
                Fixed { v: SAT }
            } else {
                Fixed { v: q as i128 }
            }
        } else {
            if q > SAT as u128 {
                Fixed { v: -SAT }
            } else {
                Fixed { v: -(q as i128) }
            }
        }
    }

    /// Saturating quotient, truncated toward zero at the 32nd fractional
    /// bit; a zero divisor saturates with the numerator's sign.
    pub fn div_sat(self, o: Fixed) -> (r: Fixed)
        requires
            self.bounded(DIV_NUM_LIM as int),
            o.v > i128::MIN,
        ensures
            r.v == div_spec(self.v as int, o.v as int),
            r.bounded(SAT as int),
    {
        if o.v == 0 {
            if self.v > 0 {
                Fixed { v: SAT }
            } else if self.v < 0 {
                Fixed { v: -SAT }
            } else {
                Fixed { v: 0 }
            }
        } else {
            let nm: u128 = mag(self.v);
            let dm: u128 = mag(o.v);
            proof {
                assert((nm as int) * (SCALE as int) <= (DIV_NUM_LIM as int) * (SCALE as int))
                    by (nonlinear_arith)
                    requires
                        nm as int <= DIV_NUM_LIM as int,
                ;
                assert(((nm as int) * (SCALE as int)) / (dm as int) <= (nm as int) * (SCALE as int))
                    by (nonlinear_arith)
                    requires
                        dm as int >= 1,
                ;
            }
            let q: u128 = (nm * (SCALE as u128)) / dm;
            let pos: bool = (self.v >= 0) == (o.v >= 0);
            if pos {
                if q > SAT as u128 {
                    Fixed { v: SAT }
                } else {
                    Fixed { v: q as i128 }
                }
            } else {
                if q > SAT as u128 {
                    Fixed { v: -SAT }
                } else {
                    Fixed { v: -(q as i128) }
                }
            }
        }
    }
}

} // verus!
