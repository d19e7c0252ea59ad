//! The proleptic Gregorian calendar.
//!
//! The solar computation consumes a calendar date only through the UNIX
//! timestamp of that date's UTC noon. This module supplies the whole path:
//! a validated year / month / day value and the verified day count from the
//! epoch. Years follow astronomical numbering, so year zero exists and is a
//! leap year, and the day count is a closed formula over floor divisions —
//! `365 (y-1) + ⌊(y-1)/4⌋ − ⌊(y-1)/100⌋ + ⌊(y-1)/400⌋` days before year
//! `y`, plus the month offset and the leap-day adjustment.
//!
//! The executable code cannot divide signed integers directly, so it
//! shifts the year by 2 400 000 000 — a multiple of 400, which leaves leap
//! years and the division remainders unchanged — computes on `u64`, and
//! subtracts the matching constant again.

use vstd::arithmetic::div_mod::lemma_hoist_over_denominator;
use vstd::arithmetic::div_mod::lemma_mod_multiples_vanish;
use vstd::prelude::*;

verus! {

/// A leap year in the proleptic Gregorian calendar: divisible by four,
/// except centuries, which must be divisible by four hundred.
pub open spec fn is_leap_year_spec(y: int) -> bool {
    y % 4 == 0 && (y % 100 != 0 || y % 400 == 0)
}

/// The number of days of month `m` of year `y`.
pub open spec fn days_in_month_spec(y: int, m: int) -> int
    recommends
        1 <= m <= 12,
{
    if m == 2 {
        if is_leap_year_spec(y) {
            29
        } else {
            28
        }
    } else if m == 4 || m == 6 || m == 9 || m == 11 {
        30
    } else {
        31
    }
}

/// Days from the start of a common year to the start of month `m`.
pub open spec fn month_offset_spec(m: int) -> int
    recommends
        1 <= m <= 12,
{
    if m == 1 {
        0
    } else if m == 2 {
        31
    } else if m == 3 {
        59
    } else if m == 4 {
        90
    } else if m == 5 {
        120
    } else if m == 6 {
        151
    } else if m == 7 {
        181
    } else if m == 8 {
        212
    } else if m == 9 {
        243
    } else if m == 10 {
        273
    } else if m == 11 {
        304
    } else {
        334
    }
}

/// Days from the start of year `y` to the start of its month `m`.
pub open spec fn days_before_month_spec(y: int, m: int) -> int
    recommends
        1 <= m <= 12,
{
    month_offset_spec(m) + if m > 2 && is_leap_year_spec(y) {
        1int
    } else {
        0int
    }
}

/// Days from 0001-01-01 to `y`-01-01; negative before year one.
pub open spec fn days_before_year_spec(y: int) -> int {
    365 * (y - 1) + (y - 1) / 4 - (y - 1) / 100 + (y - 1) / 400
}

/// Days from 1970-01-01 to the given date; 719162 is the day count of
/// 1970-01-01 from 0001-01-01.
pub open spec fn epoch_days_spec(y: int, m: int, d: int) -> int
    recommends
        valid_ymd_spec(y, m, d),
{
    days_before_year_spec(y) + days_before_month_spec(y, m) + (d - 1) - 719162
}

/// A valid calendar date: the month exists and the day exists in it.
pub open spec fn valid_ymd_spec(y: int, m: int, d: int) -> bool {
    1 <= m <= 12 && 1 <= d <= days_in_month_spec(y, m)
}

/// Whether year `y` is a leap year.
pub fn is_leap_year(y: i32) -> (r: bool)
    ensures
        r == is_leap_year_spec(y as int),
{
    let z: u64 = (y as i64 + 2_400_000_000) as u64;
    proof {
        lemma_mod_multiples_vanish(600_000_000, y as int, 4);
        lemma_mod_multiples_vanish(24_000_000, y as int, 100);
        lemma_mod_multiples_vanish(6_000_000, y as int, 400);
    }
    z % 4 == 0 && (z % 100 != 0 || z % 400 == 0)
}

/// Days from the start of a common year to the start of month `m`.
fn month_offset(m: u8) -> (r: u16)
    requires
        1 <= m <= 12,
    ensures
        r == month_offset_spec(m as int),
{
    match m {
        1 => 0,
        2 => 31,
        3 => 59,
        4 => 90,
        5 => 120,
        6 => 151,
        7 => 181,
        8 => 212,
        9 => 243,
        10 => 273,
        11 => 304,
        _ => 334,
    }
}

/// The number of days of month `m` of year `y`.
pub fn days_in_month(y: i32, m: u8) -> (r: u8)
    requires
        1 <= m <= 12,
    ensures
        r == days_in_month_spec(y as int, m as int),
{
    if m == 2 {
        if is_leap_year(y) {
            29
        } else {
            28
        }
    } else if m == 4 || m == 6 || m == 9 || m == 11 {
        30
    } else {
        31
    }
}

/// Days from 0001-01-01 to `y`-01-01, by the shifted-year computation.
fn days_before_year(y: i32) -> (r: i64)
    ensures
        r == days_before_year_spec(y as int),
        -800_000_000_000 <= r <= 800_000_000_000,
{
    let zb: u64 = (y as i64 + 2_399_999_999) as u64;
    proof {
        assert(zb == (y as int - 1) + 2_400_000_000);
        lemma_hoist_over_denominator(y as int - 1, 600_000_000, 4);
        lemma_hoist_over_denominator(y as int - 1, 24_000_000, 100);
        lemma_hoist_over_denominator(y as int - 1, 6_000_000, 400);
    }
    let days: u64 = 365 * zb + zb / 4 - zb / 100 + zb / 400;
    (days as i64) - 876_582_000_000
}

/// A valid date of the proleptic Gregorian calendar.
#[derive(Debug, Clone, Copy, PartialEq, Eq, Hash, Structural)]
pub struct Date {
    year: i32,
    month: u8,
    day: u8,
}

impl Date {
    /// The year, astronomical numbering.
    pub closed spec fn year_spec(self) -> int {
        self.year as int
    }

    /// The month, one-based.
    pub closed spec fn month_spec(self) -> int {
        self.month as int
    }

    /// The day of the month, one-based.
    pub closed spec fn day_spec(self) -> int {
        self.day as int
    }

    /// Every constructed date is valid.
    #[verifier::type_invariant]
    spec fn inv(self) -> bool {
        valid_ymd_spec(self.year as int, self.month as int, self.day as int)
    }

    /// Every constructed date is valid.
    pub open spec fn wf(self) -> bool {
        valid_ymd_spec(self.year_spec(), self.month_spec(), self.day_spec())
    }

    /// Validate a year / month / day triple.
    ///
    /// Returns `None` exactly when the triple is not a date of the
    /// calendar: the month is not in 1..=12, or the day is not in the
    /// month.
    pub fn new(year: i32, month: u8, day: u8) -> (r: Option<Date>)
        ensures
            r is Some <==> valid_ymd_spec(year as int, month as int, day as int),
            r matches Some(d) ==> d.year_spec() == year && d.month_spec() == month
                && d.day_spec() == day && d.wf(),
    {
        if month < 1 || month > 12 {
            return None;
        }
        if day < 1 || day > days_in_month(year, month) {
            return None;
        }
        Some(Date { year, month, day })
    }

    /// The year, astronomical numbering.
    pub fn year(&self) -> (r: i32)
        ensures
            r == self.year_spec(),
    {
        self.year
    }

    /// The month, one-based.
    pub fn month(&self) -> (r: u8)
        ensures
            r == self.month_spec(),
    {
        self.month
    }

    /// The day of the month, one-based.
    pub fn day(&self) -> (r: u8)
        ensures
            r == self.day_spec(),
    {
        self.day
    }

    /// The signed count of days from 1970-01-01 to this date.
    pub fn epoch_days(&self) -> (r: i64)
        ensures
            r == epoch_days_spec(self.year_spec(), self.month_spec(), self.day_spec()),
            -801_000_000_000 <= r <= 801_000_000_000,
    {
        proof {
            use_type_invariant(self);
        }
        let before_year: i64 = days_before_year(self.year);
        let before_month: i64 = month_offset(self.month) as i64;
        let leap_adjust: i64 = if self.month > 2 && is_leap_year(self.year) {
            1
        } else {
            0
        };
        before_year + before_month + leap_adjust + (self.day as i64) - 1 - 719_162
    }

    /// The UNIX timestamp of UTC noon on this date: the instant the mean
    /// solar noon computation starts from.
    pub fn noon_timestamp(&self) -> (r: i64)
        ensures
            r == 86400 * epoch_days_spec(self.year_spec(), self.month_spec(), self.day_spec())
                + 43200,
    {
        let days: i64 = self.epoch_days();
        days * 86400 + 43200
    }
}

} // verus!
