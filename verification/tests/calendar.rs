use david_discord_bot_rs::calendar::CalendarDate;

fn date(year: i32, month: u32, day: u32) -> CalendarDate {
    CalendarDate { year, month, day }
}

#[test]
fn a_day_is_before_every_later_day() {
    assert!(date(2026, 10, 27).is_before(&date(2026, 10, 28)));
    assert!(date(2026, 9, 30).is_before(&date(2026, 10, 1)));
    assert!(date(2025, 12, 31).is_before(&date(2026, 1, 1)));
    assert!(date(-1, 12, 31).is_before(&date(0, 1, 1)));
}

#[test]
fn a_day_is_not_before_itself_or_an_earlier_day() {
    assert!(!date(2026, 10, 28).is_before(&date(2026, 10, 28)));
    assert!(!date(2026, 10, 28).is_before(&date(2026, 10, 27)));
    assert!(!date(2026, 10, 1).is_before(&date(2026, 9, 30)));
    assert!(!date(2026, 1, 1).is_before(&date(2025, 12, 31)));
}

#[test]
fn label_writes_month_name_day_and_year() {
    assert_eq!(date(2026, 10, 28).label(), Some("Oct 28, 2026".to_string()));
    assert_eq!(date(2025, 1, 5).label(), Some("Jan 05, 2025".to_string()));
    assert_eq!(date(2024, 2, 29).label(), Some("Feb 29, 2024".to_string()));
}

#[test]
fn label_has_nothing_for_a_day_that_is_none() {
    assert_eq!(date(2025, 2, 29).label(), None);
    assert_eq!(date(2026, 0, 10).label(), None);
    assert_eq!(date(2026, 13, 1).label(), None);
    assert_eq!(date(2026, 4, 31).label(), None);
    assert_eq!(date(2026, 4, 0).label(), None);
}
