//! Exact rational scalars.
//!
//! The demo's formulas are affine combinations of sampled waveforms and a
//! handful of decimal constants, so every value the library computes is an
//! exact rational number.  Inputs arrive quantised to millionth units (an
//! `i64` count of `1 / SCALE` steps); results are carried as an explicit
//! numerator/denominator pair so that interpolation and clamping stay exact.

use vstd::prelude::*;

verus! {

/// Number of fixed-point units in one whole: quantised inputs carry an
/// implicit denominator of one million, so a unit is a millionth.
pub const SCALE: i64 = 1_000_000;

/// Magnitude cap accepted by the rational comparison helpers.  Two values
/// bounded by `MAG` cross-multiply without leaving `i128`.
pub const MAG: i128 = 10_000_000_000_000_000_000;

/// The mathematical value of a scalar: the exact fraction `num / den`.
pub struct Frac {
    pub num: int,
    pub den: int,
}

impl Frac {
    /// The fraction is well formed: its denominator is positive.
    pub open spec fn wf(self) -> bool {
        self.den > 0
    }

    /// Both components lie within magnitude `b` (and the denominator is
    /// positive), so cross-products with a like-bounded fraction fit `i128`
    /// whenever `b * b` does.
    pub open spec fn bounded(self, b: int) -> bool {
        -b <= self.num <= b && 0 < self.den <= b
    }

    /// The two fractions denote the same rational number.
    pub open spec fn same(self, other: Frac) -> bool {
        self.num * other.den == other.num * self.den
    }

    /// `self <= other` as rational numbers (for positive denominators).
    pub open spec fn le(self, other: Frac) -> bool {
        self.num * other.den <= other.num * self.den
    }

    /// `self < other` as rational numbers (for positive denominators).
    pub open spec fn lt(self, other: Frac) -> bool {
        self.num * other.den < other.num * self.den
    }

    /// The fraction clamped to the unit interval, keeping its representation
    /// when it already lies inside.
    pub open spec fn saturated(self) -> Frac {
        if self.num < 0 {
            Frac { num: 0, den: 1 }
        } else if self.num > self.den {
            Frac { num: 1, den: 1 }
        } else {
            self
        }
    }

    /// The fraction clamped to `[lo, hi]`, testing the bounds in the same
    /// order as the demo's clamp: the lower bound wins when both tests hit.
    pub open spec fn clamped(self, lo: Frac, hi: Frac) -> Frac {
        if self.lt(lo) {
            lo
        } else if hi.lt(self) {
            hi
        } else {
            self
        }
    }
}

/// An exact rational scalar, `num / den` with `den > 0`.
#[derive(Clone, Copy, Debug)]
pub struct Rational {
    pub num: i128,
    pub den: i128,
}

impl View for Rational {
    type V = Frac;

    open spec fn view(&self) -> Frac {
        Frac { num: self.num as int, den: self.den as int }
    }
}

/// Bounds on a product of two bounded factors.
pub proof fn lemma_mag_mul(x: int, y: int, a: int, b: int)
    by (nonlinear_arith)
    requires
        -a <= x <= a,
        -b <= y <= b,
        0 <= a,
        0 <= b,
    ensures
        -(a * b) <= x * y <= a * b,
{
}

/// A product of positive factors is positive.
pub proof fn lemma_pos_mul(x: int, y: int)
    by (nonlinear_arith)
    requires
        x > 0,
        y > 0,
    ensures
        x * y > 0,
{
}

impl Rational {
    /// The scalar is well formed: its denominator is positive.
    pub open spec fn wf(self) -> bool {
        self@.wf()
    }

    /// The rational denoted by a count of millionth units.
    pub fn from_units(units: i64) -> (r: Self)
        ensures
            r@ == (Frac { num: units as int, den: SCALE as int }),
            r.wf(),
    {
        Rational { num: units as i128, den: SCALE as i128 }
    }

    /// The rational denoting a whole number.
    pub fn from_int(value: i64) -> (r: Self)
        ensures
            r@ == (Frac { num: value as int, den: 1 }),
            r.wf(),
    {
        Rational { num: value as i128, den: 1 }
    }

    /// `self <= other` as rational numbers.
    pub fn le(&self, other: &Self) -> (b: bool)
        requires
            self.wf(),
            other.wf(),
            self@.bounded(MAG as int),
            other@.bounded(MAG as int),
        ensures
            b == self@.le(other@),
    {
        proof {
            lemma_mag_mul(self.num as int, other.den as int, MAG as int, MAG as int);
            lemma_mag_mul(other.num as int, self.den as int, MAG as int, MAG as int);
        }
        self.num * other.den <= other.num * self.den
    }

    /// `self < other` as rational numbers.
    pub fn lt(&self, other: &Self) -> (b: bool)
        requires
            self.wf(),
            other.wf(),
            self@.bounded(MAG as int),
            other@.bounded(MAG as int),
        ensures
            b == self@.lt(other@),
    {
        proof {
            lemma_mag_mul(self.num as int, other.den as int, MAG as int, MAG as int);
            lemma_mag_mul(other.num as int, self.den as int, MAG as int, MAG as int);
        }
        self.num * other.den < other.num * self.den
    }

    /// The two scalars denote the same rational number.
    pub fn same_value(&self, other: &Self) -> (b: bool)
        requires
            self.wf(),
            other.wf(),
            self@.bounded(MAG as int),
            other@.bounded(MAG as int),
        ensures
            b == self@.same(other@),
    {
        proof {
            lemma_mag_mul(self.num as int, other.den as int, MAG as int, MAG as int);
            lemma_mag_mul(other.num as int, self.den as int, MAG as int, MAG as int);
        }
        self.num * other.den == other.num * self.den
    }

    /// Absolute value, keeping the denominator.
    pub fn abs(&self) -> (r: Self)
        requires
            self.wf(),
            self.num > i128::MIN,
        ensures
            r@.den == self@.den,
            r@.num == if self@.num < 0 { -self@.num } else { self@.num },
            r.wf(),
    {
        if self.num < 0 {
            Rational { num: -self.num, den: self.den }
        } else {
            *self
        }
    }

    /// The scalar clamped to `[lo, hi]`, testing the lower bound first as the
    /// demo's clamp does.
    pub fn clamp(&self, lo: &Self, hi: &Self) -> (r: Self)
        requires
            self.wf(),
            lo.wf(),
            hi.wf(),
            self@.bounded(MAG as int),
            lo@.bounded(MAG as int),
            hi@.bounded(MAG as int),
        ensures
            r@ == self@.clamped(lo@, hi@),
            r.wf(),
    {
        if self.lt(lo) {
            *lo
        } else if hi.lt(self) {
            *hi
        } else {
            *self
        }
    }

    /// The scalar clamped to the unit interval.  Only the numerator's sign
    /// and its excess over the denominator are tested, so no bound on the
    /// components is needed.
    pub fn saturate(&self) -> (r: Self)
        requires
            self.wf(),
        ensures
            r@ == self@.saturated(),
            r.wf(),
    {
        if self.num < 0 {
            Rational { num: 0, den: 1 }
        } else if self.num > self.den {
            Rational { num: 1, den: 1 }
        } else {
            *self
        }
    }
}

} // verus!
