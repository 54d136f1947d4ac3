use swu_app::calendar::format_date;
use swu_app::calendar::get_week_start_end;
use swu_app::calendar::month_name_of;
use swu_app::calendar::week_from_days;
use swu_app::calendar::week_start_end_of;
use swu_app::calendar::CalendarDate;
use swu_app::calendar::DateTime;

fn date(year: i32, month: u8, day: u8) -> CalendarDate {
    CalendarDate { year, month, day }
}

fn week(first: CalendarDate, last: CalendarDate) -> Option<(DateTime, DateTime)> {
    Some((
        DateTime { date: first, hour: 0, minute: 0, second: 0 },
        DateTime { date: last, hour: 23, minute: 59, second: 59 },
    ))
}

#[test]
fn verify_week_start_end() {
    let expected = week(date(2022, 8, 1), date(2022, 8, 7));
    assert_eq!(get_week_start_end(Some(date(2022, 8, 6))), expected);
    assert_eq!(get_week_start_end(Some(date(2022, 8, 1))), expected);
    assert_eq!(get_week_start_end(Some(date(2022, 8, 7))), expected);
}

#[test]
fn verify_format_date_works() {
    assert_eq!(format_date(date(2022, 8, 6)), "August-6-2022");
}

#[test]
fn week_spans_months_and_years() {
    assert_eq!(
        week_start_end_of(&date(2022, 8, 31)),
        week(date(2022, 8, 29), date(2022, 9, 4))
    );
    assert_eq!(
        week_start_end_of(&date(2020, 12, 31)),
        week(date(2020, 12, 28), date(2021, 1, 3))
    );
    assert_eq!(
        week_start_end_of(&date(2024, 2, 29)),
        week(date(2024, 2, 26), date(2024, 3, 3))
    );
}

#[test]
fn week_number_is_taken_in_the_calendar_year_of_the_date() {
    // The first of January 2021 lies in week 53 of 2020, and 2021 has no week 53.
    assert_eq!(get_week_start_end(Some(date(2021, 1, 1))), None);
    // The thirtieth of December 2024 lies in week 1 of 2025; week 1 of 2024 is taken.
    assert_eq!(
        get_week_start_end(Some(date(2024, 12, 30))),
        week(date(2024, 1, 1), date(2024, 1, 7))
    );
}

#[test]
fn date_that_names_no_day_has_no_week() {
    assert_eq!(get_week_start_end(Some(date(2022, 2, 30))), None);
    assert_eq!(get_week_start_end(Some(date(2022, 13, 1))), None);
    assert_eq!(get_week_start_end(Some(date(2022, 0, 1))), None);
    assert_eq!(get_week_start_end(Some(date(2022, 1, 0))), None);
    assert_eq!(get_week_start_end(Some(date(10000, 1, 1))), None);
    assert_eq!(get_week_start_end(Some(date(2023, 2, 29))), None);
    assert!(get_week_start_end(Some(date(2024, 2, 29))).is_some());
    assert!(get_week_start_end(Some(date(2000, 2, 29))).is_some());
    assert_eq!(get_week_start_end(Some(date(1900, 2, 29))), None);
}

#[test]
fn validity_follows_the_lengths_of_the_months() {
    assert!(date(2022, 1, 31).is_valid_date());
    assert!(!date(2022, 4, 31).is_valid_date());
    assert!(date(2022, 4, 30).is_valid_date());
    assert!(!date(2022, 6, 31).is_valid_date());
    assert!(!date(2022, 9, 31).is_valid_date());
    assert!(!date(2022, 11, 31).is_valid_date());
    assert!(date(2022, 12, 31).is_valid_date());
    assert!(date(-9999, 1, 1).is_valid_date());
    assert!(date(9999, 12, 31).is_valid_date());
    assert!(!date(-10000, 1, 1).is_valid_date());
    assert!(date(-4, 2, 29).is_valid_date());
    assert!(!date(-1, 2, 29).is_valid_date());
}

#[test]
fn week_of_today_is_seven_days_long() {
    let (start, end) = get_week_start_end(None).expect("this year has the week of today");
    assert_eq!((start.hour, start.minute, start.second), (0, 0, 0));
    assert_eq!((end.hour, end.minute, end.second), (23, 59, 59));
    assert!(start.date.is_valid_date());
    assert!(end.date.is_valid_date());
    assert_eq!(week_start_end_of(&start.date), Some((start, end)));
    assert_eq!(week_start_end_of(&end.date), Some((start, end)));
}

#[test]
fn week_needs_both_of_its_days() {
    let monday = date(2022, 8, 1);
    let sunday = date(2022, 8, 7);
    assert_eq!(week_from_days(Some(monday), Some(sunday)), week(monday, sunday));
    assert_eq!(week_from_days(None, Some(sunday)), None);
    assert_eq!(week_from_days(Some(monday), None), None);
    assert_eq!(week_from_days(None, None), None);
}

#[test]
fn dates_are_written_with_the_name_of_the_month() {
    assert_eq!(format_date(date(2022, 1, 1)), "January-1-2022");
    assert_eq!(format_date(date(2024, 2, 29)), "February-29-2024");
    assert_eq!(format_date(date(1999, 12, 31)), "December-31-1999");
    assert_eq!(format_date(date(-44, 3, 15)), "March-15--44");
}

#[test]
fn months_have_their_english_names() {
    let names = [
        "January",
        "February",
        "March",
        "April",
        "May",
        "June",
        "July",
        "August",
        "September",
        "October",
        "November",
        "December",
    ];
    for (index, name) in names.iter().enumerate() {
        assert_eq!(month_name_of(index as u8 + 1), *name);
    }
}
