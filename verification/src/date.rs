//! Proleptic Gregorian calendar arithmetic: leap years, month lengths,
//! weekday computation, and enumeration of the days of a month.

use vstd::prelude::*;

verus! {

/// Smallest year the library accepts.
pub const MIN_YEAR: i32 = 1;

/// Largest year the library accepts.
pub const MAX_YEAR: i32 = 9999;

/// True exactly for leap years of the proleptic Gregorian calendar.
pub open spec fn spec_is_leap_year(year: int) -> bool {
    (year % 4 == 0 && year % 100 != 0) || year % 400 == 0
}

/// Number of days in `month` of `year` (28, 29, 30 or 31).
pub open spec fn spec_days_in_month(year: int, month: int) -> int {
    if month == 2 {
        if spec_is_leap_year(year) {
            29
        } else {
            28
        }
    } else if month == 4 || month == 6 || month == 9 || month == 11 {
        30
    } else {
        31
    }
}

/// Days of `year` that precede the first day of `month`.
pub open spec fn spec_days_before_month(year: int, month: int) -> int {
    let leap: int = if spec_is_leap_year(year) {
        1
    } else {
        0
    };
    if month == 1 {
        0
    } else if month == 2 {
        31
    } else if month == 3 {
        59 + leap
    } else if month == 4 {
        90 + leap
    } else if month == 5 {
        120 + leap
    } else if month == 6 {
        151 + leap
    } else if month == 7 {
        181 + leap
    } else if month == 8 {
        212 + leap
    } else if month == 9 {
        243 + leap
    } else if month == 10 {
        273 + leap
    } else if month == 11 {
        304 + leap
    } else {
        334 + leap
    }
}

/// Days since the reference day 0001-01-01 of the proleptic Gregorian
/// calendar (that day itself is number 0).
pub open spec fn spec_day_number(year: int, month: int, day: int) -> int {
    365 * (year - 1) + (year - 1) / 4 - (year - 1) / 100 + (year - 1) / 400
        + spec_days_before_month(year, month) + (day - 1)
}

/// Weekday of a date as an index: 0 is Monday, ..., 6 is Sunday.
/// The reference day 0001-01-01 was a Monday.
pub open spec fn spec_weekday_index(year: int, month: int, day: int) -> int {
    spec_day_number(year, month, day) % 7
}

/// Decides whether `year` is a Gregorian leap year.
pub fn is_leap_year(year: i32) -> (r: bool)
    requires
        0 <= year,
    ensures
        r == spec_is_leap_year(year as int),
{
    (year % 4 == 0 && year % 100 != 0) || year % 400 == 0
}

/// Number of days in `month` of `year`.
pub fn days_in_month(year: i32, month: u8) -> (r: u8)
    requires
        0 <= year,
        1 <= month <= 12,
    ensures
        r == spec_days_in_month(year as int, month as int),
        28 <= r <= 31,
{
    if month == 2 {
        if is_leap_year(year) {
            29
        } else {
            28
        }
    } else if month == 4 || month == 6 || month == 9 || month == 11 {
        30
    } else {
        31
    }
}

/// Days of `year` that precede the first day of `month`.
pub fn days_before_month(year: i32, month: u8) -> (r: u16)
    requires
        0 <= year,
        1 <= month <= 12,
    ensures
        r == spec_days_before_month(year as int, month as int),
{
    let leap: u16 = if is_leap_year(year) {
        1
    } else {
        0
    };
    if month == 1 {
        0
    } else if month == 2 {
        31
    } else if month == 3 {
        59 + leap
    } else if month == 4 {
        90 + leap
    } else if month == 5 {
        120 + leap
    } else if month == 6 {
        151 + leap
    } else if month == 7 {
        181 + leap
    } else if month == 8 {
        212 + leap
    } else if month == 9 {
        243 + leap
    } else if month == 10 {
        273 + leap
    } else if month == 11 {
        304 + leap
    } else {
        334 + leap
    }
}

/// A calendar date of the proleptic Gregorian calendar.
#[derive(Clone, Copy, PartialEq, Eq, Structural, Debug)]
pub struct CalendarDate {
    pub year: i32,
    pub month: u8,
    pub day: u8,
}

/// A day of the week.
#[derive(Clone, Copy, PartialEq, Eq, Structural, Debug)]
pub enum Weekday {
    Monday,
    Tuesday,
    Wednesday,
    Thursday,
    Friday,
    Saturday,
    Sunday,
}

/// The weekday that the index 0..6 stands for, 0 being Monday.
pub open spec fn spec_weekday_of_index(i: int) -> Weekday {
    if i == 0 {
        Weekday::Monday
    } else if i == 1 {
        Weekday::Tuesday
    } else if i == 2 {
        Weekday::Wednesday
    } else if i == 3 {
        Weekday::Thursday
    } else if i == 4 {
        Weekday::Friday
    } else if i == 5 {
        Weekday::Saturday
    } else {
        Weekday::Sunday
    }
}

impl CalendarDate {
    /// A date the library accepts: year in range, month 1..=12, day within
    /// the month.
    pub open spec fn is_valid(self) -> bool {
        &&& MIN_YEAR <= self.year <= MAX_YEAR
        &&& 1 <= self.month <= 12
        &&& 1 <= self.day <= spec_days_in_month(self.year as int, self.month as int)
    }

    /// The weekday this date falls on.
    pub open spec fn spec_weekday(self) -> Weekday {
        spec_weekday_of_index(
            spec_weekday_index(self.year as int, self.month as int, self.day as int),
        )
    }

    /// Computes the weekday this date falls on.
    pub fn weekday(&self) -> (r: Weekday)
        requires
            self.is_valid(),
        ensures
            r == self.spec_weekday(),
    {
        let i = weekday_index(self.year, self.month, self.day);
        if i == 0 {
            Weekday::Monday
        } else if i == 1 {
            Weekday::Tuesday
        } else if i == 2 {
            Weekday::Wednesday
        } else if i == 3 {
            Weekday::Thursday
        } else if i == 4 {
            Weekday::Friday
        } else if i == 5 {
            Weekday::Saturday
        } else {
            Weekday::Sunday
        }
    }
}

/// The days of `month` of `year` in chronological order: day `i + 1` at
/// index `i`.
pub open spec fn spec_month_dates(year: i32, month: u8) -> Seq<CalendarDate> {
    Seq::new(
        spec_days_in_month(year as int, month as int) as nat,
        |i: int| CalendarDate { year, month, day: (i + 1) as u8 },
    )
}

/// The day sequence of a month has the month's true length, starts on day 1,
/// and is strictly increasing.
pub proof fn lemma_month_dates_increasing(year: i32, month: u8)
    requires
        MIN_YEAR <= year <= MAX_YEAR,
        1 <= month <= 12,
    ensures
        spec_month_dates(year, month).len() == spec_days_in_month(year as int, month as int),
        spec_month_dates(year, month)[0].day == 1,
        forall|i: int, j: int|
            0 <= i < j < spec_month_dates(year, month).len() ==> spec_month_dates(year, month)[i].day
                < spec_month_dates(year, month)[j].day,
{
}

/// All days of `month` of `year`, in chronological order: day 1 first, the
/// last day of the month last, every date valid and of that same month.
pub fn month_days(year: i32, month: u8) -> (days: Vec<CalendarDate>)
    requires
        MIN_YEAR <= year <= MAX_YEAR,
        1 <= month <= 12,
    ensures
        days@ == spec_month_dates(year, month),
        days@.len() == spec_days_in_month(year as int, month as int),
        forall|i: int|
            0 <= i < days@.len() ==> days@[i] == (CalendarDate {
                year,
                month,
                day: (i + 1) as u8,
            }),
        forall|i: int| 0 <= i < days@.len() ==> #[trigger] days@[i].is_valid(),
{
    let n = days_in_month(year, month);
    let mut days: Vec<CalendarDate> = Vec::new();
    let mut day: u8 = 1;
    while day <= n
        invariant
            MIN_YEAR <= year <= MAX_YEAR,
            1 <= month <= 12,
            n == spec_days_in_month(year as int, month as int),
            1 <= day <= n + 1,
            days@.len() == day - 1,
            forall|i: int|
                0 <= i < days@.len() ==> days@[i] == (CalendarDate {
                    year,
                    month,
                    day: (i + 1) as u8,
                }),
        decreases n + 1 - day,
    {
        days.push(CalendarDate { year, month, day });
        day = day + 1;
    }
    proof {
        assert(days@ =~= spec_month_dates(year, month));
    }
    days
}

/// Weekday index (0 is Monday, ..., 6 is Sunday) of the given date.
pub fn weekday_index(year: i32, month: u8, day: u8) -> (r: u8)
    requires
        MIN_YEAR <= year <= MAX_YEAR,
        1 <= month <= 12,
        1 <= day <= spec_days_in_month(year as int, month as int),
    ensures
        r == spec_weekday_index(year as int, month as int, day as int),
        r < 7,
{
    let y: u64 = (year - 1) as u64;
    let before_month: u64 = days_before_month(year, month) as u64;
    let n: u64 = 365 * y + y / 4 - y / 100 + y / 400 + before_month + (day - 1) as u64;
    (n % 7) as u8
}

} // verus!
