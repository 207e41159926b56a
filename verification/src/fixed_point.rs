//! Unsigned fixed-point fractions with an 18-decimal scale, used for all
//! rates and collateralization thresholds. A value stands for
//! `inner / FIXED_POINT_DIV`. Products with token amounts come in two
//! flavours: truncating (oracle value conversions) and round-half-up
//! (fee and threshold computations).

use vstd::prelude::*;
use crate::errors::Error;

verus! {

pub const FIXED_POINT_DIV: u128 = 1_000_000_000_000_000_000;
pub const FIXED_POINT_HALF: u128 = 500_000_000_000_000_000;

#[derive(Clone, Copy, Debug, PartialEq, Eq, Structural)]
pub struct UnsignedFixedPoint {
    pub inner: u128,
}

impl UnsignedFixedPoint {
    /// Mathematical value of `self * x`, rounded down.
    pub open spec fn spec_mul_floor_i(self, x: int) -> int {
        (self.inner * x) / (FIXED_POINT_DIV as int)
    }

    /// Mathematical value of `self * x`, rounded to the nearest integer
    /// (half rounds up).
    pub open spec fn spec_mul_round_i(self, x: int) -> int {
        (self.inner * x + FIXED_POINT_HALF) / (FIXED_POINT_DIV as int)
    }

    pub open spec fn spec_mul_floor(self, x: u128) -> int {
        self.spec_mul_floor_i(x as int)
    }

    pub open spec fn spec_mul_round(self, x: u128) -> int {
        self.spec_mul_round_i(x as int)
    }

    pub fn zero() -> (r: Self)
        ensures
            r.inner == 0,
    {
        UnsignedFixedPoint { inner: 0 }
    }

    pub fn one() -> (r: Self)
        ensures
            r.inner == FIXED_POINT_DIV,
    {
        UnsignedFixedPoint { inner: FIXED_POINT_DIV }
    }

    /// The fraction `n / d`, rounded down to the scale; `None` when `d` is
    /// zero or the scaled numerator does not fit.
    pub fn checked_from_rational(n: u128, d: u128) -> (r: Option<Self>)
        ensures
            match r {
                Some(v) => d != 0 && n * FIXED_POINT_DIV <= u128::MAX
                    && v.inner == (n * FIXED_POINT_DIV) / (d as int),
                None => d == 0 || n * FIXED_POINT_DIV > u128::MAX,
            },
    {
        if d == 0 {
            return None;
        }
        match n.checked_mul(FIXED_POINT_DIV) {
            Some(p) => Some(UnsignedFixedPoint { inner: p / d }),
            None => None,
        }
    }

    /// The whole number `n`; `None` when the scaled value does not fit.
    pub fn checked_from_integer(n: u128) -> (r: Option<Self>)
        ensures
            match r {
                Some(v) => n * FIXED_POINT_DIV <= u128::MAX && v.inner == n * FIXED_POINT_DIV,
                None => n * FIXED_POINT_DIV > u128::MAX,
            },
    {
        match n.checked_mul(FIXED_POINT_DIV) {
            Some(p) => Some(UnsignedFixedPoint { inner: p }),
            None => None,
        }
    }

    /// `self * x` rounded down; errs when the scaled product overflows.
    pub fn mul_floor(&self, x: u128) -> (r: Result<u128, Error>)
        ensures
            match r {
                Ok(v) => self.inner * x <= u128::MAX && v == self.spec_mul_floor(x),
                Err(e) => e == Error::ArithmeticOverflow && self.inner * x > u128::MAX,
            },
    {
        match self.inner.checked_mul(x) {
            Some(p) => Ok(p / FIXED_POINT_DIV),
            None => Err(Error::ArithmeticOverflow),
        }
    }

    /// `self * x` rounded to the nearest integer; errs when the scaled
    /// product overflows.
    pub fn mul_round(&self, x: u128) -> (r: Result<u128, Error>)
        ensures
            match r {
                Ok(v) => self.inner * x + FIXED_POINT_HALF <= u128::MAX
                    && v == self.spec_mul_round(x),
                Err(e) => e == Error::ArithmeticOverflow
                    && self.inner * x + FIXED_POINT_HALF > u128::MAX,
            },
    {
        match self.inner.checked_mul(x) {
            Some(p) => match p.checked_add(FIXED_POINT_HALF) {
                Some(q) => Ok(q / FIXED_POINT_DIV),
                None => Err(Error::ArithmeticOverflow),
            },
            None => Err(Error::ArithmeticOverflow),
        }
    }

    /// Fraction addition; errs on overflow of the inner representation.
    pub fn checked_add(&self, other: &Self) -> (r: Result<Self, Error>)
        ensures
            match r {
                Ok(v) => self.inner + other.inner <= u128::MAX
                    && v.inner == self.inner + other.inner,
                Err(e) => e == Error::ArithmeticOverflow && self.inner + other.inner > u128::MAX,
            },
    {
        match self.inner.checked_add(other.inner) {
            Some(p) => Ok(UnsignedFixedPoint { inner: p }),
            None => Err(Error::ArithmeticOverflow),
        }
    }

    /// Fraction division, rounded down; errs when the scaled numerator
    /// overflows or the divisor is zero.
    pub fn checked_div(&self, other: &Self) -> (r: Result<Self, Error>)
        ensures
            match r {
                Ok(v) => other.inner != 0 && self.inner * FIXED_POINT_DIV <= u128::MAX
                    && v.inner == (self.inner * FIXED_POINT_DIV) / (other.inner as int),
                Err(e) => e == Error::ArithmeticOverflow
                    && (other.inner == 0 || self.inner * FIXED_POINT_DIV > u128::MAX),
            },
    {
        if other.inner == 0 {
            return Err(Error::ArithmeticOverflow);
        }
        match self.inner.checked_mul(FIXED_POINT_DIV) {
            Some(p) => Ok(UnsignedFixedPoint { inner: p / other.inner }),
            None => Err(Error::ArithmeticOverflow),
        }
    }
}

} // verus!
