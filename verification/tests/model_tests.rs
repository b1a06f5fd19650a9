use dream_stack::model::Date;

#[test]
fn dates_outside_the_calendar_are_rejected() {
    assert!(Date::new(2026, 2, 30).is_none());
    assert!(Date::new(2026, 13, 1).is_none());
    assert!(Date::new(2026, 0, 1).is_none());
    assert!(Date::new(2026, 1, 0).is_none());
    assert!(Date::new(2026, 4, 31).is_none());
}

#[test]
fn leap_years_get_the_extra_february_day() {
    assert!(Date::new(2024, 2, 29).is_some());
    assert!(Date::new(2023, 2, 29).is_none());
    assert!(Date::new(2000, 2, 29).is_some());
    assert!(Date::new(1900, 2, 29).is_none());
    assert_eq!(Date::days_in_month(2024, 2), 29);
    assert_eq!(Date::days_in_month(2023, 2), 28);
    assert_eq!(Date::days_in_month(2026, 9), 30);
    assert_eq!(Date::days_in_month(2026, 12), 31);
}
