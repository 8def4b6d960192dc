//! Calendar dates (proleptic Gregorian), as a birth date is stored.

use vstd::prelude::*;

verus! {

/// The earliest year that the store's date type can hold.
pub const MIN_YEAR: i32 = -262143;

/// The latest year that the store's date type can hold.
pub const MAX_YEAR: i32 = 262142;

pub open spec fn is_leap_year(y: int) -> bool {
    let a = if y < 0 { -y } else { y };
    a % 4 == 0 && (a % 100 != 0 || a % 400 == 0)
}

pub open spec fn days_in_month(y: int, m: int) -> int {
    if m == 2 {
        if is_leap_year(y) { 29 } else { 28 }
    } else if m == 4 || m == 6 || m == 9 || m == 11 {
        30
    } else {
        31
    }
}

/// Whether year, month and day name a day of the calendar.
pub open spec fn is_valid_date(y: int, m: int, d: int) -> bool {
    &&& MIN_YEAR <= y <= MAX_YEAR
    &&& 1 <= m <= 12
    &&& 1 <= d <= days_in_month(y, m)
}

/// A day of the calendar, such as a birth date.
#[derive(Debug, Clone, Copy, PartialEq, Eq, Structural)]
pub struct Date {
    year: i32,
    month: u32,
    day: u32,
}

impl View for Date {
    type V = (int, int, int);

    closed spec fn view(&self) -> (int, int, int) {
        (self.year as int, self.month as int, self.day as int)
    }
}

impl Date {
    #[verifier::type_invariant]
    spec fn is_valid(self) -> bool {
        is_valid_date(self.year as int, self.month as int, self.day as int)
    }

    /// The date with the given year, month (1 to 12) and day of the month, if
    /// there is one.
    pub fn from_ymd(year: i32, month: u32, day: u32) -> (r: Option<Date>)
        ensures
            r is Some <==> is_valid_date(year as int, month as int, day as int),
            r is Some ==> r.unwrap()@ == (year as int, month as int, day as int),
    {
        if year < MIN_YEAR || year > MAX_YEAR || month < 1 || month > 12 || day < 1 {
            return None;
        }
        let a: i32 = if year < 0 { -year } else { year };
        let leap = a % 4 == 0 && (a % 100 != 0 || a % 400 == 0);
        let limit: u32 = if month == 2 {
            if leap { 29 } else { 28 }
        } else if month == 4 || month == 6 || month == 9 || month == 11 {
            30
        } else {
            31
        };
        if day > limit {
            None
        } else {
            Some(Date { year, month, day })
        }
    }

    pub fn year(&self) -> (r: i32)
        ensures
            r as int == self@.0,
            MIN_YEAR <= r <= MAX_YEAR,
    {
        proof {
            use_type_invariant(self);
        }
        self.year
    }

    pub fn month(&self) -> (r: u32)
        ensures
            r as int == self@.1,
            1 <= r <= 12,
    {
        proof {
            use_type_invariant(self);
        }
        self.month
    }

    pub fn day(&self) -> (r: u32)
        ensures
            r as int == self@.2,
            1 <= r <= days_in_month(self@.0, self@.1),
    {
        proof {
            use_type_invariant(self);
        }
        self.day
    }
}

} // verus!
