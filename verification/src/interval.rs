//! Calendar intervals: five integer components plus fractional seconds
//! carried as binary64 bits.

use vstd::prelude::*;

use crate::error::EvalError;
use crate::fp::{
    float_add_bits, float_cmp_bits, float_div_bits, float_mul_bits, float_of_int, float_sub_bits,
    float_to_int, fp_add, fp_cmp, fp_div, fp_eq, fp_mul, fp_of_int, fp_sub, fp_to_int,
};

verus! {

/// Every component of an interval must stay within this magnitude.
pub const INTERVAL_MAX_VALUE: i64 = 170_000_000;

/// A calendar interval.  `seconds` holds the IEEE 754 binary64 bit pattern
/// of the fractional seconds component.
#[derive(Clone, Copy, Debug, PartialEq, Eq, Structural)]
pub struct Interval {
    pub years: i64,
    pub months: i64,
    pub days: i64,
    pub hours: i64,
    pub minutes: i64,
    pub seconds: u64,
}

/// Interval equality: integer components equal and the seconds compare
/// IEEE-equal (so a negative zero equals a positive zero).
pub open spec fn interval_eq_spec(a: Interval, b: Interval) -> bool {
    a.years == b.years && a.months == b.months && a.days == b.days && a.hours == b.hours
        && a.minutes == b.minutes && fp_eq(a.seconds, b.seconds)
}

/// Whether an integer component is within the allowed interval range.
pub open spec fn interval_field_ok(v: i64) -> bool {
    -INTERVAL_MAX_VALUE <= v && v <= INTERVAL_MAX_VALUE
}

/// Whether the seconds component is within the allowed interval range
/// (false when it is NaN).
pub open spec fn interval_seconds_ok(bits: u64) -> bool {
    &&& (match fp_cmp(bits, fp_of_int((-INTERVAL_MAX_VALUE) as i64)) {
        Some(o) => o >= 0,
        None => false,
    })
    &&& (match fp_cmp(bits, fp_of_int(INTERVAL_MAX_VALUE)) {
        Some(o) => o <= 0,
        None => false,
    })
}

/// The whole-second measure of an interval: the binary64 computation
/// `(years * 365.25 + months * (365.25 / 12) + days) * 24 * 60 * 60
///  + hours * 60 * 60 + minutes * 60 + seconds`, truncated to an integer.
/// Ordering of intervals compares this measure.
pub open spec fn interval_seconds(iv: Interval) -> i64 {
    let day_len = fp_div(fp_of_int(1461i64), fp_of_int(4i64));
    let month_len = fp_div(day_len, fp_of_int(12i64));
    let sixty = fp_of_int(60i64);
    let days = fp_add(
        fp_add(fp_mul(fp_of_int(iv.years), day_len), fp_mul(fp_of_int(iv.months), month_len)),
        fp_of_int(iv.days),
    );
    let total = fp_add(
        fp_add(
            fp_add(
                fp_mul(fp_mul(fp_mul(days, fp_of_int(24i64)), sixty), sixty),
                fp_mul(fp_mul(fp_of_int(iv.hours), sixty), sixty),
            ),
            fp_mul(fp_of_int(iv.minutes), sixty),
        ),
        iv.seconds,
    );
    fp_to_int(total)
}

/// The spec of interval addition: componentwise wrapping sums, each checked
/// against the allowed range.
pub open spec fn interval_add_spec(a: Interval, b: Interval) -> Result<Interval, EvalError> {
    let years = vstd::wrapping::i64_specs::wrapping_add(a.years, b.years);
    let months = vstd::wrapping::i64_specs::wrapping_add(a.months, b.months);
    let days = vstd::wrapping::i64_specs::wrapping_add(a.days, b.days);
    let hours = vstd::wrapping::i64_specs::wrapping_add(a.hours, b.hours);
    let minutes = vstd::wrapping::i64_specs::wrapping_add(a.minutes, b.minutes);
    let seconds = fp_add(a.seconds, b.seconds);
    if interval_field_ok(years) && interval_field_ok(months) && interval_field_ok(days)
        && interval_field_ok(hours) && interval_field_ok(minutes) && interval_seconds_ok(seconds) {
        Ok(Interval { years, months, days, hours, minutes, seconds })
    } else {
        Err(EvalError::InvalidOperation)
    }
}

/// The spec of interval subtraction, as for addition.
pub open spec fn interval_sub_spec(a: Interval, b: Interval) -> Result<Interval, EvalError> {
    let years = vstd::wrapping::i64_specs::wrapping_sub(a.years, b.years);
    let months = vstd::wrapping::i64_specs::wrapping_sub(a.months, b.months);
    let days = vstd::wrapping::i64_specs::wrapping_sub(a.days, b.days);
    let hours = vstd::wrapping::i64_specs::wrapping_sub(a.hours, b.hours);
    let minutes = vstd::wrapping::i64_specs::wrapping_sub(a.minutes, b.minutes);
    let seconds = fp_sub(a.seconds, b.seconds);
    if interval_field_ok(years) && interval_field_ok(months) && interval_field_ok(days)
        && interval_field_ok(hours) && interval_field_ok(minutes) && interval_seconds_ok(seconds) {
        Ok(Interval { years, months, days, hours, minutes, seconds })
    } else {
        Err(EvalError::InvalidOperation)
    }
}

/// The spec of multiplying an interval by an integer.
pub open spec fn interval_mul_spec(a: Interval, k: i64) -> Result<Interval, EvalError> {
    let years = vstd::wrapping::i64_specs::wrapping_mul(a.years, k);
    let months = vstd::wrapping::i64_specs::wrapping_mul(a.months, k);
    let days = vstd::wrapping::i64_specs::wrapping_mul(a.days, k);
    let hours = vstd::wrapping::i64_specs::wrapping_mul(a.hours, k);
    let minutes = vstd::wrapping::i64_specs::wrapping_mul(a.minutes, k);
    let seconds = fp_mul(a.seconds, fp_of_int(k));
    if interval_field_ok(years) && interval_field_ok(months) && interval_field_ok(days)
        && interval_field_ok(hours) && interval_field_ok(minutes) && interval_seconds_ok(seconds) {
        Ok(Interval { years, months, days, hours, minutes, seconds })
    } else {
        Err(EvalError::InvalidOperation)
    }
}

/// Truncating division of one component, wrapping on the single overflowing
/// pair (the minimum value divided by minus one).
pub open spec fn interval_component_div(v: i64, k: i64) -> i64 {
    match v.checked_div(k) {
        Some(q) => q,
        None => i64::MIN,
    }
}

/// The spec of dividing an interval by an integer; a zero divisor fails.
pub open spec fn interval_div_spec(a: Interval, k: i64) -> Result<Interval, EvalError> {
    if k == 0 {
        Err(EvalError::DivisionByZero)
    } else {
        let years = interval_component_div(a.years, k);
        let months = interval_component_div(a.months, k);
        let days = interval_component_div(a.days, k);
        let hours = interval_component_div(a.hours, k);
        let minutes = interval_component_div(a.minutes, k);
        let seconds = fp_div(a.seconds, fp_of_int(k));
        if interval_field_ok(years) && interval_field_ok(months) && interval_field_ok(days)
            && interval_field_ok(hours) && interval_field_ok(minutes) && interval_seconds_ok(
            seconds,
        ) {
            Ok(Interval { years, months, days, hours, minutes, seconds })
        } else {
            Err(EvalError::InvalidOperation)
        }
    }
}

impl Interval {
    /// Exec interval equality, proved against `interval_eq_spec`.
    pub fn equals_interval(&self, other: &Interval) -> (r: bool)
        ensures
            r == interval_eq_spec(*self, *other),
    {
        self.years == other.years && self.months == other.months && self.days == other.days
            && self.hours == other.hours && self.minutes == other.minutes && (match float_cmp_bits(
            self.seconds,
            other.seconds,
        ) {
            Some(o) => o == 0,
            None => false,
        })
    }

    /// Exec whole-second measure, proved against `interval_seconds`.
    pub fn to_seconds(&self) -> (r: i64)
        ensures
            r == interval_seconds(*self),
    {
        let day_len = float_div_bits(float_of_int(1461), float_of_int(4));
        let month_len = float_div_bits(day_len, float_of_int(12));
        let sixty = float_of_int(60);
        let days = float_add_bits(
            float_add_bits(
                float_mul_bits(float_of_int(self.years), day_len),
                float_mul_bits(float_of_int(self.months), month_len),
            ),
            float_of_int(self.days),
        );
        let total = float_add_bits(
            float_add_bits(
                float_add_bits(
                    float_mul_bits(float_mul_bits(float_mul_bits(days, float_of_int(24)), sixty), sixty),
                    float_mul_bits(float_mul_bits(float_of_int(self.hours), sixty), sixty),
                ),
                float_mul_bits(float_of_int(self.minutes), sixty),
            ),
            self.seconds,
        );
        float_to_int(total)
    }

    /// Exec ordering of intervals by their whole-second measure; always
    /// defined.
    pub fn compare_interval(&self, other: &Interval) -> (r: i8)
        ensures
            r as int == sign_of(interval_seconds(*self) - interval_seconds(*other)),
    {
        let a = self.to_seconds();
        let b = other.to_seconds();
        if a < b {
            -1
        } else if a == b {
            0
        } else {
            1
        }
    }

    /// Exec interval addition, proved against `interval_add_spec`.
    pub fn add_interval(&self, other: &Interval) -> (r: Result<Interval, EvalError>)
        ensures
            r == interval_add_spec(*self, *other),
    {
        let years = self.years.wrapping_add(other.years);
        let months = self.months.wrapping_add(other.months);
        let days = self.days.wrapping_add(other.days);
        let hours = self.hours.wrapping_add(other.hours);
        let minutes = self.minutes.wrapping_add(other.minutes);
        let seconds = float_add_bits(self.seconds, other.seconds);
        if field_in_range(years) && field_in_range(months) && field_in_range(days) && field_in_range(
            hours,
        ) && field_in_range(minutes) && seconds_in_range(seconds) {
            Ok(Interval { years, months, days, hours, minutes, seconds })
        } else {
            Err(EvalError::InvalidOperation)
        }
    }

    /// Exec interval subtraction, proved against `interval_sub_spec`.
    pub fn sub_interval(&self, other: &Interval) -> (r: Result<Interval, EvalError>)
        ensures
            r == interval_sub_spec(*self, *other),
    {
        let years = self.years.wrapping_sub(other.years);
        let months = self.months.wrapping_sub(other.months);
        let days = self.days.wrapping_sub(other.days);
        let hours = self.hours.wrapping_sub(other.hours);
        let minutes = self.minutes.wrapping_sub(other.minutes);
        let seconds = float_sub_bits(self.seconds, other.seconds);
        if field_in_range(years) && field_in_range(months) && field_in_range(days) && field_in_range(
            hours,
        ) && field_in_range(minutes) && seconds_in_range(seconds) {
            Ok(Interval { years, months, days, hours, minutes, seconds })
        } else {
            Err(EvalError::InvalidOperation)
        }
    }

    /// Exec multiplication by an integer, proved against `interval_mul_spec`.
    pub fn mul_interval(&self, k: i64) -> (r: Result<Interval, EvalError>)
        ensures
            r == interval_mul_spec(*self, k),
    {
        let years = self.years.wrapping_mul(k);
        let months = self.months.wrapping_mul(k);
        let days = self.days.wrapping_mul(k);
        let hours = self.hours.wrapping_mul(k);
        let minutes = self.minutes.wrapping_mul(k);
        let seconds = float_mul_bits(self.seconds, float_of_int(k));
        if field_in_range(years) && field_in_range(months) && field_in_range(days) && field_in_range(
            hours,
        ) && field_in_range(minutes) && seconds_in_range(seconds) {
            Ok(Interval { years, months, days, hours, minutes, seconds })
        } else {
            Err(EvalError::InvalidOperation)
        }
    }

    /// Exec division by an integer, proved against `interval_div_spec`.
    pub fn div_interval(&self, k: i64) -> (r: Result<Interval, EvalError>)
        ensures
            r == interval_div_spec(*self, k),
    {
        if k == 0 {
            return Err(EvalError::DivisionByZero);
        }
        let years = div_component(self.years, k);
        let months = div_component(self.months, k);
        let days = div_component(self.days, k);
        let hours = div_component(self.hours, k);
        let minutes = div_component(self.minutes, k);
        let seconds = float_div_bits(self.seconds, float_of_int(k));
        if field_in_range(years) && field_in_range(months) && field_in_range(days) && field_in_range(
            hours,
        ) && field_in_range(minutes) && seconds_in_range(seconds) {
            Ok(Interval { years, months, days, hours, minutes, seconds })
        } else {
            Err(EvalError::InvalidOperation)
        }
    }
}

/// The sign of an integer, as -1, 0 or 1.
pub open spec fn sign_of(x: int) -> int {
    if x < 0 {
        -1
    } else if x == 0 {
        0
    } else {
        1
    }
}

fn field_in_range(v: i64) -> (r: bool)
    ensures
        r == interval_field_ok(v),
{
    -INTERVAL_MAX_VALUE <= v && v <= INTERVAL_MAX_VALUE
}

fn seconds_in_range(bits: u64) -> (r: bool)
    ensures
        r == interval_seconds_ok(bits),
{
    let lo = match float_cmp_bits(bits, float_of_int(-INTERVAL_MAX_VALUE)) {
        Some(o) => o >= 0,
        None => false,
    };
    let hi = match float_cmp_bits(bits, float_of_int(INTERVAL_MAX_VALUE)) {
        Some(o) => o <= 0,
        None => false,
    };
    lo && hi
}

fn div_component(v: i64, k: i64) -> (r: i64)
    requires
        k != 0,
    ensures
        r == interval_component_div(v, k),
{
    match v.checked_div(k) {
        Some(q) => q,
        None => i64::MIN,
    }
}

} // verus!
