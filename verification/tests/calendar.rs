use ifc_calendar::DateError;
use ifc_calendar::IFCDate;
use ifc_calendar::Month;
use ifc_calendar::WeekDay;

#[test]
fn is_leap_year_works() {
    let years_expected: [(usize, bool); 6] = [
        (2023, false),
        (2024, true),
        (2000, true),
        (1940, true),
        (1900, false),
        (1800, false),
    ];

    for (year, expected) in years_expected.into_iter() {
        assert_eq!(IFCDate::is_leap_year(year), expected);
    }
}

#[test]
fn increment_day_works() {
    let dates_expected: [(IFCDate, IFCDate); 6] = [
        (
            IFCDate::new(12, 2, 2000).unwrap(),
            IFCDate::new(13, 2, 2000).unwrap(),
        ),
        (
            IFCDate::new(28, 2, 2000).unwrap(),
            IFCDate::new(1, 3, 2000).unwrap(),
        ),
        // 2000 is a leap year, so it has a leap day in june
        (
            IFCDate::new(28, 6, 2000).unwrap(),
            IFCDate::new(29, 6, 2000).unwrap(),
        ),
        // after the leap day follows the first of july
        (
            IFCDate::new(29, 6, 2000).unwrap(),
            IFCDate::new(1, 7, 2000).unwrap(),
        ),
        // after the last day of december follows the year day
        (
            IFCDate::new(28, 13, 2000).unwrap(),
            IFCDate::new(29, 13, 2000).unwrap(),
        ),
        // after year day follows the first day of the new year
        (
            IFCDate::new(29, 13, 2000).unwrap(),
            IFCDate::new(1, 1, 2001).unwrap(),
        ),
    ];

    for (date, expected) in dates_expected.into_iter() {
        assert_eq!(
            date.increment_day(),
            expected,
            "{:?} incremented by one day was not {:?}",
            date,
            expected
        );
    }
}

#[test]
fn month_number_round_trip() {
    for number in 1..=13usize {
        assert_eq!(Month::from_number(number).to_number(), number);
    }
}

#[test]
fn first_day_of_every_month_is_monday() {
    let years: [usize; 4] = [1900, 2000, 2023, 2024];
    for year in years.into_iter() {
        for month in 1..=13usize {
            let date = IFCDate::new(1, month, year).unwrap();
            assert_eq!(date.week_day, WeekDay::Monday);
        }
    }
}

#[test]
fn increment_day_is_deterministic() {
    let date = IFCDate::new(28, 6, 2024).unwrap();
    let again = IFCDate::new(28, 6, 2024).unwrap();
    assert_eq!(date.increment_day(), again.increment_day());
}

#[test]
fn leap_day_and_year_day_are_marked() {
    let leap_day = IFCDate::new(29, 6, 2024).unwrap();
    assert_eq!(leap_day.week_day, WeekDay::LeapDay);
    assert_eq!(leap_day.month, Month::June);

    let year_day = IFCDate::new(29, 13, 2023).unwrap();
    assert_eq!(year_day.week_day, WeekDay::YearDay);
    assert_eq!(year_day.month, Month::December);
}

#[test]
fn weekdays_follow_day_modulo_seven() {
    let expected: [WeekDay; 7] = [
        WeekDay::Monday,
        WeekDay::Tuesday,
        WeekDay::Wednesday,
        WeekDay::Thursday,
        WeekDay::Friday,
        WeekDay::Saturday,
        WeekDay::Sunday,
    ];
    for day in 1..=28usize {
        let date = IFCDate::new(day, 4, 2023).unwrap();
        assert_eq!(date.week_day, expected[(day - 1) % 7]);
    }
}

#[test]
fn rejects_leap_day_in_common_year() {
    assert_eq!(IFCDate::new(29, 6, 2023), Err(DateError::InvalidDay));
}

#[test]
fn rejects_day_zero() {
    assert_eq!(IFCDate::new(0, 1, 2000), Err(DateError::InvalidDay));
}

#[test]
fn rejects_day_thirty() {
    assert_eq!(IFCDate::new(30, 13, 2000), Err(DateError::InvalidDay));
}

#[test]
fn rejects_day_twenty_nine_outside_june_and_december() {
    assert_eq!(IFCDate::new(29, 2, 2000), Err(DateError::InvalidDay));
}

#[test]
fn rejects_month_fourteen() {
    assert_eq!(IFCDate::new(1, 14, 2000), Err(DateError::InvalidMonth));
}

#[test]
fn rejects_month_zero() {
    assert_eq!(IFCDate::new(1, 0, 2000), Err(DateError::InvalidMonth));
}

#[test]
fn year_day_exists_in_every_year() {
    let years: [usize; 3] = [1900, 2023, 2024];
    for year in years.into_iter() {
        let date = IFCDate::new(29, 13, year).unwrap();
        assert_eq!(date.week_day, WeekDay::YearDay);
    }
}

#[test]
fn increment_within_month_keeps_month_and_year() {
    let next = IFCDate::new(1, 9, 2021).unwrap().increment_day();
    assert_eq!(next, IFCDate::new(2, 9, 2021).unwrap());
    assert_eq!(next.week_day, WeekDay::Tuesday);
}

#[test]
fn increment_skips_leap_day_in_common_year() {
    let next = IFCDate::new(28, 6, 2023).unwrap().increment_day();
    assert_eq!(next, IFCDate::new(1, 7, 2023).unwrap());
    assert_eq!(next.month, Month::Sol);
}
