use gladiators_db::rolling_period::{
    add_one_month, format_period_date, is_before, parse_period_start, period_end, rollover, Date,
};

fn d(y: i32, m: u32, day: u32) -> Date {
    Date::from_ymd_opt(y, m, day).unwrap()
}

#[test]
fn add_one_month_clamps_to_month_end() {
    assert_eq!(add_one_month(d(2026, 1, 31)), d(2026, 2, 28));
    assert_eq!(add_one_month(d(2028, 1, 31)), d(2028, 2, 29)); // leap year
    assert_eq!(add_one_month(d(2026, 3, 31)), d(2026, 4, 30));
    assert_eq!(add_one_month(d(2026, 12, 15)), d(2027, 1, 15));
}

#[test]
fn rollover_none_inside_period() {
    assert!(rollover(d(2026, 9, 1), d(2026, 9, 30)).is_none());
    assert!(rollover(d(2026, 9, 1), d(2026, 9, 1)).is_none());
}

#[test]
fn rollover_on_boundary_and_after_several_months() {
    let r = rollover(d(2026, 9, 1), d(2026, 10, 1)).unwrap();
    assert_eq!(r.expired_end, d(2026, 10, 1));
    assert_eq!(r.new_start, d(2026, 10, 1));

    // Three months of inactivity: new start lands in the month containing today
    let r = rollover(d(2026, 6, 10), d(2026, 9, 16)).unwrap();
    assert_eq!(r.expired_end, d(2026, 7, 10));
    assert_eq!(r.new_start, d(2026, 9, 10));
}

#[test]
fn parse_period_start_tolerates_whitespace_and_rejects_garbage() {
    assert_eq!(parse_period_start(" 2026-09-16 "), Some(d(2026, 9, 16)));
    assert!(parse_period_start("16/09/2026").is_none());
    assert!(parse_period_start("").is_none());
}

#[test]
fn from_ymd_rejects_missing_days() {
    assert!(Date::from_ymd_opt(2026, 2, 29).is_none());
    assert!(Date::from_ymd_opt(2028, 2, 29).is_some());
    assert!(Date::from_ymd_opt(2026, 13, 1).is_none());
    assert!(Date::from_ymd_opt(2026, 4, 31).is_none());
    assert!(Date::from_ymd_opt(1900, 2, 29).is_none());
    assert!(Date::from_ymd_opt(2000, 2, 29).is_some());
    assert!(Date::from_ymd_opt(400000, 1, 1).is_none());
}

#[test]
fn period_end_is_one_month_later() {
    assert_eq!(period_end(d(2026, 1, 15)), d(2026, 2, 15));
    assert_eq!(period_end(d(2026, 10, 31)), d(2026, 11, 30));
}

#[test]
fn clamped_day_stays_clamped_across_months() {
    // Jan 31 -> Feb 28 -> Mar 28: each step clamps from the previous date
    let r = rollover(d(2026, 12, 31), d(2027, 3, 30)).unwrap();
    assert_eq!(r.expired_end, d(2027, 1, 31));
    assert_eq!(r.new_start, d(2027, 3, 28));
}

#[test]
fn rollover_is_settled_the_same_day() {
    let today = d(2026, 9, 16);
    let r = rollover(d(2026, 1, 5), today).unwrap();
    assert_eq!(r.new_start, d(2026, 9, 5));
    assert!(rollover(r.new_start, today).is_none());
    assert!(!is_before(&today, &r.new_start));
    assert!(is_before(&today, &add_one_month(r.new_start)));
}

#[test]
fn period_dates_format_and_read_back() {
    assert_eq!(format_period_date(d(2026, 9, 6)), "2026-09-06");
    assert_eq!(format_period_date(d(5, 1, 2)), "0005-01-02");
    assert_eq!(format_period_date(d(-5, 1, 2)), "-0005-01-02");
    assert_eq!(format_period_date(d(12345, 1, 2)), "+12345-01-02");
    for date in [d(2026, 9, 6), d(5, 1, 2), d(-5, 1, 2), d(12345, 12, 31), d(2028, 2, 29)] {
        assert_eq!(parse_period_start(&format_period_date(date)), Some(date));
    }
}
