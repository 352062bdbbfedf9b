use bank_statements::dates::{month_offset, MonthDate};

fn month(year: i32, month: u32) -> MonthDate {
    MonthDate::new(year, month).unwrap()
}

#[test]
fn month_date_needs_a_valid_month() {
    assert_eq!(MonthDate::new(2024, 0), None);
    assert_eq!(MonthDate::new(2024, 13), None);
    assert_eq!(MonthDate::new(2024, 12), Some(MonthDate { year: 2024, month: 12 }));
}

#[test]
fn offset_examples() {
    let today = month(2024, 6);
    assert_eq!(month_offset(&today, &month(2023, 1)), 17);
    assert_eq!(month_offset(&today, &month(2024, 1)), 5);
    assert_eq!(month_offset(&today, &month(2023, 9)), 9);
    assert_eq!(month_offset(&today, &month(2024, 8)), -2);
}

#[test]
fn offset_of_today_is_zero() {
    for (y, m) in [(2024, 6), (1, 1), (-5, 12), (i32::MAX, 12)] {
        let today = month(y, m);
        assert_eq!(month_offset(&today, &today), 0);
    }
}

#[test]
fn offset_grows_into_the_past() {
    let today = month(2024, 6);
    let mut previous = month_offset(&today, &today);
    let mut date = today;
    for _ in 0..40 {
        date = if date.month == 1 { month(date.year - 1, 12) } else { month(date.year, date.month - 1) };
        let offset = month_offset(&today, &date);
        assert_eq!(offset, previous + 1);
        previous = offset;
    }
}

#[test]
fn offset_at_extreme_years() {
    let today = month(i32::MAX, 12);
    let past = month(i32::MIN, 1);
    assert_eq!(month_offset(&today, &past), 12 * (u32::MAX as i64) + 11);
}
