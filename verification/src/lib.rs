//! Dates in the International Fixed Calendar: thirteen months of 28 days
//! each, plus one or two intercalary days that stand outside the weekly
//! cycle. Because 28 is divisible by 7, every month begins on a Monday,
//! and the weekday of a date follows from its day and month alone.

use vstd::prelude::*;

verus! {

/// One of the thirteen months of the International Fixed Calendar.
/// `Sol` is the intercalary seventh month, inserted between June and July.
#[derive(Copy, Clone, Debug, PartialEq, Eq, Structural)]
pub enum Month {
    January,
    February,
    March,
    April,
    May,
    June,
    Sol,
    July,
    August,
    September,
    October,
    November,
    December,
}

/// The day-of-week of a date: the seven ordinary weekdays, plus the two
/// intercalary days, which belong to no week.
#[derive(Copy, Clone, Debug, PartialEq, Eq, Structural)]
pub enum WeekDay {
    Monday,
    Tuesday,
    Wednesday,
    Thursday,
    Friday,
    Saturday,
    Sunday,
    /// The 29th of June, present only in leap years.
    LeapDay,
    /// The 29th of December, the last day of every year.
    YearDay,
}

/// Why a requested date could not be constructed.
#[derive(Copy, Clone, Debug, PartialEq, Eq, Structural)]
pub enum DateError {
    /// The month number lies outside 1..=13.
    InvalidMonth,
    /// The day does not exist in the requested month and year.
    InvalidDay,
}

/// A date of the International Fixed Calendar. The calendar is Monday-based:
/// the first of every month is a Monday.
///
/// `week_day` is a cached derived field: well-formed dates always carry
/// exactly the weekday that [`WeekDay::spec_of_day_and_month`] assigns to
/// their day and month. Construction and succession both recompute it.
#[derive(Copy, Clone, Debug, PartialEq, Eq, Structural)]
pub struct IFCDate {
    pub day: usize,
    pub week_day: WeekDay,
    pub month: Month,
    pub year: usize,
}

/// Whether `day` exists in `month` of `year`: days 1..=28 exist in every
/// month; day 29 exists in June of leap years (the leap day) and in
/// December of every year (the year day).
pub open spec fn valid_day(day: int, month: Month, year: int) -> bool {
    ||| 1 <= day <= 28
    ||| day == 29 && month == Month::June && IFCDate::spec_is_leap_year(year)
    ||| day == 29 && month == Month::December
}

impl Month {
    /// The canonical number of this month, 1 through 13.
    pub open spec fn spec_number(self) -> int {
        match self {
            Month::January => 1,
            Month::February => 2,
            Month::March => 3,
            Month::April => 4,
            Month::May => 5,
            Month::June => 6,
            Month::Sol => 7,
            Month::July => 8,
            Month::August => 9,
            Month::September => 10,
            Month::October => 11,
            Month::November => 12,
            Month::December => 13,
        }
    }

    /// The month whose canonical number is `n`, for `n` in 1..=13.
    pub open spec fn spec_of_number(n: int) -> Month {
        if n == 1 {
            Month::January
        } else if n == 2 {
            Month::February
        } else if n == 3 {
            Month::March
        } else if n == 4 {
            Month::April
        } else if n == 5 {
            Month::May
        } else if n == 6 {
            Month::June
        } else if n == 7 {
            Month::Sol
        } else if n == 8 {
            Month::July
        } else if n == 9 {
            Month::August
        } else if n == 10 {
            Month::September
        } else if n == 11 {
            Month::October
        } else if n == 12 {
            Month::November
        } else {
            Month::December
        }
    }

    /// The month with the given canonical number.
    pub fn from_number(num: usize) -> (m: Month)
        requires
            1 <= num <= 13,
        ensures
            m == Month::spec_of_number(num as int),
            m.spec_number() == num,
    {
        match num {
            1 => Month::January,
            2 => Month::February,
            3 => Month::March,
            4 => Month::April,
            5 => Month::May,
            6 => Month::June,
            7 => Month::Sol,
            8 => Month::July,
            9 => Month::August,
            10 => Month::September,
            11 => Month::October,
            12 => Month::November,
            _ => Month::December,
        }
    }

    /// The canonical number of this month.
    pub fn to_number(&self) -> (n: usize)
        ensures
            n == self.spec_number(),
            1 <= n <= 13,
    {
        match self {
            Month::January => 1,
            Month::February => 2,
            Month::March => 3,
            Month::April => 4,
            Month::May => 5,
            Month::June => 6,
            Month::Sol => 7,
            Month::July => 8,
            Month::August => 9,
            Month::September => 10,
            Month::October => 11,
            Month::November => 12,
            Month::December => 13,
        }
    }
}

/// Round-trip, one direction: the month with number `n` has number `n`,
/// for every `n` in 1..=13.
pub proof fn lemma_month_number_round_trip(n: int)
    requires
        1 <= n <= 13,
    ensures
        Month::spec_of_number(n).spec_number() == n,
{
}

/// Round-trip, other direction: every month is the month of its own number.
pub proof fn lemma_month_round_trip(m: Month)
    ensures
        Month::spec_of_number(m.spec_number()) == m,
{
}

impl WeekDay {
    /// The weekday that the derivation rule assigns to a day of a month:
    /// the 29th of June is the leap day, the 29th of December the year
    /// day, and any other day follows the day's residue modulo 7, with
    /// day 1 a Monday.
    pub open spec fn spec_of_day_and_month(day: int, month: Month) -> WeekDay {
        if day == 29 && month == Month::June {
            WeekDay::LeapDay
        } else if day == 29 && month == Month::December {
            WeekDay::YearDay
        } else if day % 7 == 1 {
            WeekDay::Monday
        } else if day % 7 == 2 {
            WeekDay::Tuesday
        } else if day % 7 == 3 {
            WeekDay::Wednesday
        } else if day % 7 == 4 {
            WeekDay::Thursday
        } else if day % 7 == 5 {
            WeekDay::Friday
        } else if day % 7 == 6 {
            WeekDay::Saturday
        } else {
            WeekDay::Sunday
        }
    }

    /// The weekday of the given day of the given month. Only pairs that
    /// name a day of some year are accepted: days 1..=28 of any month, and
    /// the 29th of June or December.
    pub fn from_day_and_month(day: usize, month: Month) -> (w: WeekDay)
        requires
            1 <= day <= 28 || (day == 29 && (month == Month::June || month == Month::December)),
        ensures
            w == WeekDay::spec_of_day_and_month(day as int, month),
    {
        if day == 29 && month == Month::June {
            WeekDay::LeapDay
        } else if day == 29 && month == Month::December {
            WeekDay::YearDay
        } else {
            match day % 7 {
                1 => WeekDay::Monday,
                2 => WeekDay::Tuesday,
                3 => WeekDay::Wednesday,
                4 => WeekDay::Thursday,
                5 => WeekDay::Friday,
                6 => WeekDay::Saturday,
                _ => WeekDay::Sunday,
            }
        }
    }
}

impl IFCDate {
    /// The Gregorian leap-year rule: divisible by 400, or divisible by 4
    /// but not by 100.
    pub open spec fn spec_is_leap_year(year: int) -> bool {
        year % 400 == 0 || (year % 100 != 0 && year % 4 == 0)
    }

    /// Whether `year` is a leap year under the Gregorian rule.
    pub fn is_leap_year(year: usize) -> (r: bool)
        ensures
            r == Self::spec_is_leap_year(year as int),
    {
        if year % 400 == 0 {
            true
        } else if year % 100 == 0 {
            false
        } else if year % 4 == 0 {
            true
        } else {
            false
        }
    }

    /// A well-formed date: its day exists in its month and year, and its
    /// cached weekday is exactly the one the derivation rule assigns.
    pub open spec fn wf(self) -> bool {
        &&& valid_day(self.day as int, self.month, self.year as int)
        &&& self.week_day == WeekDay::spec_of_day_and_month(self.day as int, self.month)
    }

    /// Construct the date with the given day, month number (1..=13) and
    /// year, validating the input. No invalid date is ever constructed: a
    /// month number outside 1..=13, or a day that does not exist in the
    /// resolved month and year, is reported as an error.
    pub fn new(day: usize, month: usize, year: usize) -> (r: Result<IFCDate, DateError>)
        ensures
            r is Ok <==> 1 <= month <= 13 && valid_day(
                day as int,
                Month::spec_of_number(month as int),
                year as int,
            ),
            (match r {
                Ok(d) => {
                    &&& d.day == day
                    &&& d.month == Month::spec_of_number(month as int)
                    &&& d.year == year
                    &&& d.wf()
                },
                Err(e) => {
                    &&& (e == DateError::InvalidMonth <==> !(1 <= month <= 13))
                    &&& (e == DateError::InvalidDay <==> 1 <= month <= 13 && !valid_day(
                        day as int,
                        Month::spec_of_number(month as int),
                        year as int,
                    ))
                },
            }),
    {
        if month < 1 || month > 13 {
            return Err(DateError::InvalidMonth);
        }
        let m = Month::from_number(month);

        let day_ok: bool = if m == Month::June && Self::is_leap_year(year) {
            1 <= day && day <= 29
        } else if m == Month::December {
            1 <= day && day <= 29
        } else {
            1 <= day && day <= 28
        };
        if !day_ok {
            return Err(DateError::InvalidDay);
        }

        let week_day = WeekDay::from_day_and_month(day, m);

        Ok(IFCDate { day, week_day, month: m, year })
    }

    /// The date one day after `self`, with its weekday rederived: the day
    /// advances within the month up to 28; the 28th of June in a leap year
    /// is followed by the leap day, the 28th of December by the year day;
    /// the leap day is followed by the 1st of Sol, the year day by the 1st
    /// of January of the next year; and the 28th of any other month by the
    /// 1st of the next month.
    pub open spec fn spec_increment(self) -> IFCDate {
        let (day, month, year): (int, Month, int) = if self.day < 28 {
            (self.day + 1, self.month, self.year as int)
        } else if self.day == 28 && self.month == Month::June && Self::spec_is_leap_year(
            self.year as int,
        ) {
            (29int, Month::June, self.year as int)
        } else if self.day == 28 && self.month == Month::December {
            (29int, Month::December, self.year as int)
        } else if self.day == 29 && self.month == Month::June {
            (1int, Month::Sol, self.year as int)
        } else if self.day == 29 && self.month == Month::December {
            (1int, Month::January, self.year + 1)
        } else {
            (1int, Month::spec_of_number(self.month.spec_number() + 1), self.year as int)
        };
        IFCDate {
            day: day as usize,
            week_day: WeekDay::spec_of_day_and_month(day, month),
            month,
            year: year as usize,
        }
    }

    /// The date one day after this one. The input is never mutated; the
    /// result is fully rederived, weekday included, and is well-formed.
    pub fn increment_day(&self) -> (r: IFCDate)
        requires
            self.wf(),
            self.day == 29 && self.month == Month::December ==> self.year < usize::MAX,
        ensures
            r == self.spec_increment(),
            r.wf(),
    {
        let (day, month, year): (usize, Month, usize) = if self.day < 28 {
            (self.day + 1, self.month, self.year)
        } else if self.day == 28 && self.month == Month::June && Self::is_leap_year(self.year) {
            (29, Month::June, self.year)
        } else if self.day == 28 && self.month == Month::December {
            (29, Month::December, self.year)
        } else if self.day == 29 && self.month == Month::June {
            (1, Month::Sol, self.year)
        } else if self.day == 29 && self.month == Month::December {
            (1, Month::January, self.year + 1)
        } else {
            (1, Month::from_number(self.month.to_number() + 1), self.year)
        };
        let week_day = WeekDay::from_day_and_month(day, month);
        IFCDate { day, week_day, month, year }
    }
}

/// Weekday-of-day-1 invariant: in every month of every year, day 1 exists
/// and the derivation rule assigns it Monday. Together with the contract
/// of [`IFCDate::new`], the date built from day 1 of any month carries
/// `WeekDay::Monday`.
pub proof fn lemma_first_day_is_monday(month_number: int, year: int)
    requires
        1 <= month_number <= 13,
    ensures
        valid_day(1, Month::spec_of_number(month_number), year),
        WeekDay::spec_of_day_and_month(1, Month::spec_of_number(month_number)) == WeekDay::Monday,
{
}

/// Successor determinism: the successor of a date is a function of the
/// date alone, so equal dates have equal successors. Together with the
/// contract of [`IFCDate::increment_day`], two calls on equal inputs
/// return equal outputs.
pub proof fn lemma_increment_deterministic(a: IFCDate, b: IFCDate)
    requires
        a == b,
    ensures
        a.spec_increment() == b.spec_increment(),
{
}

/// Closure of well-formedness under succession: the successor of a
/// well-formed date is well-formed, so no invalid date is ever reached by
/// incrementing.
pub proof fn lemma_increment_preserves_wf(d: IFCDate)
    requires
        d.wf(),
    ensures
        d.spec_increment().wf(),
{
}

} // verus!
