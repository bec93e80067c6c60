//! Piecewise-linear colour ramp.
//!
//! A ramp is an ordered table of stops, each an RGBA colour with a position,
//! all quantised to millionth units.  Evaluating the ramp at a value scans
//! adjacent stop pairs in ascending order; the first bracket that contains
//! the value wins and yields the component-wise linear interpolation between
//! its two stops.  When no bracket contains the value (out-of-range value,
//! fewer than two stops) the result is opaque white.

use vstd::prelude::*;

use crate::scalar::{lemma_mag_mul, Frac, Rational, SCALE};

verus! {

/// Magnitude cap on stop components and lookup values, in millionth units.
/// Interpolation between values bounded by `UNIT_MAG` stays well inside
/// `i128`.
pub const UNIT_MAG: i64 = 1_000_000_000_000;

/// One gradient stop: colour channels and position, in millionth units.
#[derive(Clone, Copy, Debug, PartialEq, Eq, Structural)]
pub struct Stop {
    pub red: i64,
    pub green: i64,
    pub blue: i64,
    pub alpha: i64,
    pub pos: i64,
}

impl Stop {
    /// Every component lies within `UNIT_MAG`.
    pub open spec fn bounded(self) -> bool {
        &&& -UNIT_MAG <= self.red <= UNIT_MAG
        &&& -UNIT_MAG <= self.green <= UNIT_MAG
        &&& -UNIT_MAG <= self.blue <= UNIT_MAG
        &&& -UNIT_MAG <= self.alpha <= UNIT_MAG
        &&& -UNIT_MAG <= self.pos <= UNIT_MAG
    }
}

/// An interpolated RGBA colour, each channel an exact rational.
#[derive(Clone, Copy, Debug)]
pub struct Color {
    pub red: Rational,
    pub green: Rational,
    pub blue: Rational,
    pub alpha: Rational,
}

/// The mathematical value of a colour: four exact fractions.
pub struct ColorModel {
    pub red: Frac,
    pub green: Frac,
    pub blue: Frac,
    pub alpha: Frac,
}

impl View for Color {
    type V = ColorModel;

    open spec fn view(&self) -> ColorModel {
        ColorModel {
            red: self.red@,
            green: self.green@,
            blue: self.blue@,
            alpha: self.alpha@,
        }
    }
}

impl Color {
    /// Every channel has a positive denominator.
    pub open spec fn wf(self) -> bool {
        self.red.wf() && self.green.wf() && self.blue.wf() && self.alpha.wf()
    }
}

/// The fallback colour: opaque white, `(1, 1, 1, 1)`.
pub open spec fn opaque_white() -> ColorModel {
    ColorModel {
        red: Frac { num: 1, den: 1 },
        green: Frac { num: 1, den: 1 },
        blue: Frac { num: 1, den: 1 },
        alpha: Frac { num: 1, den: 1 },
    }
}

/// The colour of a stop taken unmodified.
pub open spec fn stop_model(s: Stop) -> ColorModel {
    ColorModel {
        red: Frac { num: s.red as int, den: SCALE as int },
        green: Frac { num: s.green as int, den: SCALE as int },
        blue: Frac { num: s.blue as int, den: SCALE as int },
        alpha: Frac { num: s.alpha as int, den: SCALE as int },
    }
}

/// One channel interpolated between `cb` at position `pb` and `ca` at
/// position `pa`, evaluated at `v`: the exact rational
/// `cb/SCALE + (ca - cb)/SCALE * (v - pb)/(pa - pb)` over the common
/// denominator `SCALE * (pa - pb)`.
pub open spec fn lerp_channel(cb: int, ca: int, pb: int, pa: int, v: int) -> Frac {
    Frac {
        num: cb * (pa - pb) + (ca - cb) * (v - pb),
        den: SCALE * (pa - pb),
    }
}

/// The colour a matching bracket assigns to `v`.  On the very first pair an
/// exact lower-bound match returns the first stop's colour unmodified, which
/// avoids interpolating when that bracket degenerates; a degenerate later
/// bracket (both stops at one position) likewise yields its lower stop.
pub open spec fn bracket_color(prev: Stop, cur: Stop, v: int, first: bool) -> ColorModel {
    if (first && v == prev.pos) || cur.pos == prev.pos {
        stop_model(prev)
    } else {
        ColorModel {
            red: lerp_channel(prev.red as int, cur.red as int, prev.pos as int, cur.pos as int, v),
            green: lerp_channel(
                prev.green as int,
                cur.green as int,
                prev.pos as int,
                cur.pos as int,
                v,
            ),
            blue: lerp_channel(
                prev.blue as int,
                cur.blue as int,
                prev.pos as int,
                cur.pos as int,
                v,
            ),
            alpha: lerp_channel(
                prev.alpha as int,
                cur.alpha as int,
                prev.pos as int,
                cur.pos as int,
                v,
            ),
        }
    }
}

/// The colour found scanning brackets from pair index `i` upward: the first
/// pair whose positions bracket `v` wins; past the end the result is opaque
/// white.
pub open spec fn scan_color(stops: Seq<Stop>, v: int, i: int) -> ColorModel
    decreases stops.len() - i,
{
    if i < 1 || i >= stops.len() {
        opaque_white()
    } else if stops[i - 1].pos <= v <= stops[i].pos {
        bracket_color(stops[i - 1], stops[i], v, i == 1)
    } else {
        scan_color(stops, v, i + 1)
    }
}

/// The colour the ramp assigns to `v`: the ascending scan started at the
/// first pair.
pub open spec fn ramp_color(stops: Seq<Stop>, v: int) -> ColorModel {
    scan_color(stops, v, 1)
}

/// An ordered table of gradient stops.
#[derive(Clone, Debug)]
pub struct ColorRamp {
    pub stops: Vec<Stop>,
}

impl ColorRamp {
    /// Every stop's components lie within `UNIT_MAG`.
    pub open spec fn wf(self) -> bool {
        forall|j: int| 0 <= j < self.stops@.len() ==> (#[trigger] self.stops@[j]).bounded()
    }

    /// The colour of the first bracket of adjacent stops that contains
    /// `value`, linearly interpolated; opaque white when no bracket does.
    #[verifier::loop_isolation(false)]
    pub fn evaluate(&self, value: i64) -> (c: Color)
        requires
            self.wf(),
            -UNIT_MAG <= value <= UNIT_MAG,
        ensures
            c@ == ramp_color(self.stops@, value as int),
            c.wf(),
    {
        let n: usize = self.stops.len();
        let mut i: usize = 1;
        while i < n
            invariant
                1 <= i,
                ramp_color(self.stops@, value as int) == scan_color(
                    self.stops@,
                    value as int,
                    i as int,
                ),
            decreases n - i,
        {
            let prev = self.stops[i - 1];
            let cur = self.stops[i];
            if prev.pos <= value && value <= cur.pos {
                if (i == 1 && value == prev.pos) || cur.pos == prev.pos {
                    return Color {
                        red: Rational { num: prev.red as i128, den: SCALE as i128 },
                        green: Rational { num: prev.green as i128, den: SCALE as i128 },
                        blue: Rational { num: prev.blue as i128, den: SCALE as i128 },
                        alpha: Rational { num: prev.alpha as i128, den: SCALE as i128 },
                    };
                }
                let dp: i128 = cur.pos as i128 - prev.pos as i128;
                let dv: i128 = value as i128 - prev.pos as i128;
                proof {
                    lemma_mag_mul(
                        prev.red as int,
                        cur.pos - prev.pos,
                        UNIT_MAG as int,
                        2 * UNIT_MAG as int,
                    );
                    lemma_mag_mul(
                        cur.red - prev.red,
                        value - prev.pos,
                        2 * UNIT_MAG as int,
                        2 * UNIT_MAG as int,
                    );
                    lemma_mag_mul(
                        prev.green as int,
                        cur.pos - prev.pos,
                        UNIT_MAG as int,
                        2 * UNIT_MAG as int,
                    );
                    lemma_mag_mul(
                        cur.green - prev.green,
                        value - prev.pos,
                        2 * UNIT_MAG as int,
                        2 * UNIT_MAG as int,
                    );
                    lemma_mag_mul(
                        prev.blue as int,
                        cur.pos - prev.pos,
                        UNIT_MAG as int,
                        2 * UNIT_MAG as int,
                    );
                    lemma_mag_mul(
                        cur.blue - prev.blue,
                        value - prev.pos,
                        2 * UNIT_MAG as int,
                        2 * UNIT_MAG as int,
                    );
                    lemma_mag_mul(
                        prev.alpha as int,
                        cur.pos - prev.pos,
                        UNIT_MAG as int,
                        2 * UNIT_MAG as int,
                    );
                    lemma_mag_mul(
                        cur.alpha - prev.alpha,
                        value - prev.pos,
                        2 * UNIT_MAG as int,
                        2 * UNIT_MAG as int,
                    );
                }
                let den: i128 = SCALE as i128 * dp;
                return Color {
                    red: Rational {
                        num: prev.red as i128 * dp + (cur.red as i128 - prev.red as i128) * dv,
                        den,
                    },
                    green: Rational {
                        num: prev.green as i128 * dp + (cur.green as i128 - prev.green as i128)
                            * dv,
                        den,
                    },
                    blue: Rational {
                        num: prev.blue as i128 * dp + (cur.blue as i128 - prev.blue as i128) * dv,
                        den,
                    },
                    alpha: Rational {
                        num: prev.alpha as i128 * dp + (cur.alpha as i128 - prev.alpha as i128)
                            * dv,
                        den,
                    },
                };
            }
            proof {
                assert(scan_color(self.stops@, value as int, i as int) == scan_color(
                    self.stops@,
                    value as int,
                    i as int + 1,
                ));
            }
            i = i + 1;
        }
        Color {
            red: Rational { num: 1, den: 1 },
            green: Rational { num: 1, den: 1 },
            blue: Rational { num: 1, den: 1 },
            alpha: Rational { num: 1, den: 1 },
        }
    }
}

/// The first matching bracket wins: once a pair of adjacent stops contains
/// the value, the scan does not continue, whatever later pairs hold.
pub proof fn lemma_first_match_wins(stops: Seq<Stop>, v: int, k: int)
    requires
        1 <= k < stops.len(),
        stops[k - 1].pos <= v <= stops[k].pos,
        forall|j: int| 1 <= j < k ==> !(stops[j - 1].pos <= v <= (#[trigger] stops[j]).pos),
    ensures
        ramp_color(stops, v) == bracket_color(stops[k - 1], stops[k], v, k == 1),
{
    lemma_scan_reaches(stops, v, 1, k);
}

proof fn lemma_scan_reaches(stops: Seq<Stop>, v: int, i: int, k: int)
    requires
        1 <= i <= k < stops.len(),
        forall|j: int| i <= j < k ==> !(stops[j - 1].pos <= v <= (#[trigger] stops[j]).pos),
    ensures
        scan_color(stops, v, i) == scan_color(stops, v, k),
    decreases k - i,
{
    if i < k {
        lemma_scan_reaches(stops, v, i + 1, k);
    }
}

/// When no adjacent pair of stops brackets the value, the ramp yields opaque
/// white — also covering tables with fewer than two stops, whose scan has no
/// pair at all.
pub proof fn lemma_outside_ramp_is_white(stops: Seq<Stop>, v: int)
    requires
        forall|i: int| 1 <= i < stops.len() ==> !(stops[i - 1].pos <= v <= (#[trigger] stops[i]).pos),
    ensures
        ramp_color(stops, v) == opaque_white(),
{
    lemma_scan_outside(stops, v, 1);
}

proof fn lemma_scan_outside(stops: Seq<Stop>, v: int, i: int)
    requires
        1 <= i,
        forall|j: int| i <= j < stops.len() ==> !(stops[j - 1].pos <= v <= (#[trigger] stops[j]).pos),
    ensures
        scan_color(stops, v, i) == opaque_white(),
    decreases stops.len() - i,
{
    if i < stops.len() {
        lemma_scan_outside(stops, v, i + 1);
    }
}

/// The ramp lookup value driven by a sampled sine: `sin * 0.5 + 0.5` in
/// millionth units, the final half-unit truncated toward zero by the integer
/// division.
pub fn ramp_value_from_sine(sine: i64) -> (v: i64)
    requires
        -SCALE <= sine <= SCALE,
    ensures
        v == (sine + SCALE) / 2,
        0 <= v <= SCALE,
{
    (sine + SCALE) / 2
}

} // verus!
