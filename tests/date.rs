use doc_site::date::CalendarDate;

#[test]
fn valid_dates_are_accepted() {
    assert!(CalendarDate::new(2026, 10, 19).is_some());
    assert!(CalendarDate::new(2024, 2, 29).is_some());
    assert!(CalendarDate::new(2000, 2, 29).is_some());
    assert!(CalendarDate::new(0, 1, 1).is_some());
    assert!(CalendarDate::new(9999, 12, 31).is_some());
}

#[test]
fn invalid_dates_are_refused() {
    assert!(CalendarDate::new(2023, 2, 29).is_none());
    assert!(CalendarDate::new(1900, 2, 29).is_none());
    assert!(CalendarDate::new(2026, 4, 31).is_none());
    assert!(CalendarDate::new(2026, 13, 1).is_none());
    assert!(CalendarDate::new(2026, 0, 1).is_none());
    assert!(CalendarDate::new(2026, 1, 0).is_none());
    assert!(CalendarDate::new(10000, 1, 1).is_none());
}

#[test]
fn two_digit_day_is_not_padded() {
    let d = CalendarDate::new(2026, 10, 19).unwrap();
    assert_eq!(d.to_text(), "Oct19, 2026");
}

#[test]
fn one_digit_day_is_padded_with_space() {
    let d = CalendarDate::new(2026, 3, 5).unwrap();
    assert_eq!(d.to_text(), "Mar 5, 2026");
}

#[test]
fn year_is_zero_padded() {
    let d = CalendarDate::new(987, 12, 31).unwrap();
    assert_eq!(d.to_text(), "Dec31, 0987");
}
