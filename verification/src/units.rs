//! Physical quantities as fixed-point integers.
//!
//! Every quantity is a whole number of a small unit, so that all arithmetic
//! on readings is exact and can be reasoned about.

use vstd::prelude::*;

verus! {

/// The number of parts that make a whole in a [`Ratio`].
pub const RATIO_WHOLE: u32 = 1_000_000;

/// Seconds in an hour: a milliwatt hour lasts this long at one milliwatt.
pub const SECONDS_PER_HOUR: i64 = 3_600;

/// An amount of energy, in milliwatt hours.
#[derive(Clone, Copy, Debug, PartialEq, Eq, Structural)]
pub struct Energy {
    pub milliwatt_hours: i32,
}

/// A flow of energy, in milliwatts.
#[derive(Clone, Copy, Debug, PartialEq, Eq, Structural)]
pub struct Power {
    pub milliwatts: i32,
}

/// An electric potential, in millivolts.
#[derive(Clone, Copy, Debug, PartialEq, Eq, Structural)]
pub struct ElectricPotential {
    pub millivolts: i32,
}

/// An absolute temperature, in millikelvins.
#[derive(Clone, Copy, Debug, PartialEq, Eq, Structural)]
pub struct ThermodynamicTemperature {
    pub millikelvins: u32,
}

/// A share of a whole, in parts per million.
#[derive(Clone, Copy, Debug, PartialEq, Eq, Structural)]
pub struct Ratio {
    pub parts_per_million: u32,
}

/// A duration, in seconds. It is negative where a reading has the wrong sign.
#[derive(Clone, Copy, Debug, PartialEq, Eq, Structural)]
pub struct Time {
    pub seconds: i64,
}

/// The distance of `value` from zero.
pub open spec fn magnitude(value: int) -> int {
    if value < 0 {
        -value
    } else {
        value
    }
}

/// The quotient `part / whole` forced into the range from nothing to the
/// whole, in parts per million and rounded down.
///
/// A quotient below zero is nothing and one above one is the whole. Where
/// `whole` is zero the quotient is taken for its limit: the whole for a
/// positive `part`, nothing otherwise.
pub open spec fn bounded_parts(part: int, whole: int) -> int {
    if whole == 0 {
        if part > 0 {
            RATIO_WHOLE as int
        } else {
            0
        }
    } else if part == 0 || (part > 0) != (whole > 0) {
        0
    } else if whole > 0 {
        if part >= whole {
            RATIO_WHOLE as int
        } else {
            part * RATIO_WHOLE / whole
        }
    } else {
        if part <= whole {
            RATIO_WHOLE as int
        } else {
            (-part) * RATIO_WHOLE / (-whole)
        }
    }
}

/// The quotient `amount / divisor`, rounded toward zero.
pub open spec fn quotient_toward_zero(amount: int, divisor: int) -> int {
    if divisor > 0 {
        if amount >= 0 {
            amount / divisor
        } else {
            -((-amount) / divisor)
        }
    } else {
        if amount >= 0 {
            -(amount / (-divisor))
        } else {
            (-amount) / (-divisor)
        }
    }
}

/// The whole seconds that `energy` milliwatt hours last at `rate`
/// milliwatts, rounded toward zero.
pub open spec fn seconds_at_rate(energy: int, rate: int) -> int {
    quotient_toward_zero(energy * SECONDS_PER_HOUR, rate)
}

/// Whether `energy` milliwatt hours at `rate` milliwatts last longer than
/// `ceiling` seconds. The comparison is exact: no rounding enters it.
pub open spec fn lasts_longer(energy: int, rate: int, ceiling: int) -> bool {
    if rate > 0 {
        energy * SECONDS_PER_HOUR > ceiling * rate
    } else {
        energy * SECONDS_PER_HOUR < ceiling * rate
    }
}

/// A bounded quotient is never below nothing nor above the whole.
pub proof fn lemma_bounded_parts_in_range(part: int, whole: int)
    ensures
        0 <= bounded_parts(part, whole) <= RATIO_WHOLE,
{
    if whole != 0 && part != 0 && (part > 0) == (whole > 0) && magnitude(part) < magnitude(whole) {
        let p = magnitude(part);
        let w = magnitude(whole);
        assert(0 <= p * RATIO_WHOLE / w <= RATIO_WHOLE) by (nonlinear_arith)
            requires
                0 <= p < w,
        ;
    }
}

/// `num_traits::Zero::is_zero` for `i32`, which compares the value with 0.
#[verifier::external_body]
fn is_zero(value: i32) -> (r: bool)
    ensures
        r == (value == 0),
{
    num_traits::Zero::is_zero(&value)
}

/// The distance of `value` from zero, as an unsigned number.
fn unsigned_magnitude(value: i64) -> (r: u64)
    requires
        value > i64::MIN,
    ensures
        r == magnitude(value as int),
{
    if value < 0 {
        (-value) as u64
    } else {
        value as u64
    }
}

impl Energy {
    /// The share that `self` is of `whole`, forced into the range from
    /// nothing to the whole.
    pub fn bounded_ratio(self, whole: Energy) -> (r: Ratio)
        ensures
            r.parts_per_million == bounded_parts(
                self.milliwatt_hours as int,
                whole.milliwatt_hours as int,
            ),
            r.parts_per_million <= RATIO_WHOLE,
    {
        proof {
            lemma_bounded_parts_in_range(self.milliwatt_hours as int, whole.milliwatt_hours as int);
        }
        let part: i64 = self.milliwatt_hours as i64;
        let all: i64 = whole.milliwatt_hours as i64;
        if all == 0 {
            if part > 0 {
                Ratio { parts_per_million: RATIO_WHOLE }
            } else {
                Ratio { parts_per_million: 0 }
            }
        } else if part == 0 || (part > 0) != (all > 0) {
            Ratio { parts_per_million: 0 }
        } else {
            let p: u64 = unsigned_magnitude(part);
            let w: u64 = unsigned_magnitude(all);
            if p >= w {
                Ratio { parts_per_million: RATIO_WHOLE }
            } else {
                assert(p * RATIO_WHOLE <= 0x8000_0000 * 1_000_000) by (nonlinear_arith)
                    requires
                        p <= 0x8000_0000,
                        RATIO_WHOLE == 1_000_000,
                ;
                let parts: u64 = p * (RATIO_WHOLE as u64) / w;
                Ratio { parts_per_million: parts as u32 }
            }
        }
    }
}

impl Power {
    /// Whether no energy flows.
    pub fn is_zero(&self) -> (r: bool)
        ensures
            r == (self.milliwatts == 0),
    {
        is_zero(self.milliwatts)
    }
}

impl Time {
    /// Whether `energy` milliwatt hours at `rate` last longer than `self`.
    pub(crate) fn is_exceeded(&self, energy: i64, rate: Power) -> (r: bool)
        requires
            rate.milliwatts != 0,
            -0x1_0000_0000 <= energy <= 0x1_0000_0000,
            0 <= self.seconds <= 0x1_0000_0000,
        ensures
            r == lasts_longer(energy as int, rate.milliwatts as int, self.seconds as int),
    {
        let rate_value: i64 = rate.milliwatts as i64;
        assert(-0x8000_0000_0000_0000 <= self.seconds * rate_value < 0x8000_0000_0000_0000)
            by (nonlinear_arith)
            requires
                0 <= self.seconds <= 0x1_0000_0000,
                -0x8000_0000 <= rate_value < 0x8000_0000,
        ;
        let lasting: i64 = energy * SECONDS_PER_HOUR;
        let allowed: i64 = self.seconds * rate_value;
        if rate_value > 0 {
            lasting > allowed
        } else {
            lasting < allowed
        }
    }

    /// The whole seconds that `energy` milliwatt hours last at `rate`.
    pub(crate) fn at_rate(energy: i64, rate: Power) -> (r: Time)
        requires
            rate.milliwatts != 0,
            -0x1_0000_0000 <= energy <= 0x1_0000_0000,
        ensures
            r.seconds == seconds_at_rate(energy as int, rate.milliwatts as int),
    {
        let rate_value: i64 = rate.milliwatts as i64;
        let lasting: i64 = energy * SECONDS_PER_HOUR;
        let n: u64 = unsigned_magnitude(lasting);
        let d: u64 = unsigned_magnitude(rate_value);
        let q: u64 = n / d;
        assert(q <= n) by (nonlinear_arith)
            requires
                q == n / d,
                d >= 1,
        ;
        if lasting == 0 || (lasting > 0) == (rate_value > 0) {
            Time { seconds: q as i64 }
        } else {
            Time { seconds: -(q as i64) }
        }
    }
}

} // verus!
