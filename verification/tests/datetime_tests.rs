use sea_orm_pro_backend::datetime::{
    bool_from_int, date_time_from_str, opt_date_time_from_str, Timestamp,
};

#[test]
fn date_time_parses_with_fraction() {
    let t = date_time_from_str("2024-02-29 13:45:10.123").unwrap();
    assert_eq!(t.year, 2024);
    assert_eq!(t.month, 2);
    assert_eq!(t.day, 29);
    assert_eq!(t.hour, 13);
    assert_eq!(t.minute, 45);
    assert_eq!(t.second, 10);
    assert_eq!(t.millisecond, 123);
}

#[test]
fn date_time_parses_without_fraction() {
    let t = date_time_from_str("2001-07-01 00:00:00").unwrap();
    assert_eq!(t.year, 2001);
    assert_eq!(t.month, 7);
    assert_eq!(t.day, 1);
    assert_eq!(t.millisecond, 0);
}

#[test]
fn date_time_rejects_invalid_dates() {
    assert_eq!(
        date_time_from_str("2023-02-29 00:00:00"),
        Err("2023-02-29 00:00:00".to_string())
    );
    assert_eq!(date_time_from_str("not a date"), Err("not a date".to_string()));
    assert_eq!(
        date_time_from_str("2024-01-01T00:00:00"),
        Err("2024-01-01T00:00:00".to_string())
    );
}

#[test]
fn opt_date_time_keeps_absent_absent() {
    assert_eq!(opt_date_time_from_str(None), Ok(None));
    let t = opt_date_time_from_str(Some("2001-07-01 00:00:00".to_string()))
        .unwrap()
        .unwrap();
    assert_eq!(t.year, 2001);
    assert_eq!(
        opt_date_time_from_str(Some("nope".to_string())),
        Err("nope".to_string())
    );
}

#[test]
fn days_in_month_knows_leap_years() {
    assert_eq!(Timestamp::days_in_month(2024, 2), 29);
    assert_eq!(Timestamp::days_in_month(2023, 2), 28);
    assert_eq!(Timestamp::days_in_month(1900, 2), 28);
    assert_eq!(Timestamp::days_in_month(2000, 2), 29);
    assert_eq!(Timestamp::days_in_month(2024, 4), 30);
    assert_eq!(Timestamp::days_in_month(2024, 12), 31);
}

#[test]
fn from_parts_checks_the_calendar() {
    assert!(Timestamp::from_parts(2024, 2, 29, 0, 0, 0, 0).is_some());
    assert!(Timestamp::from_parts(2023, 2, 29, 0, 0, 0, 0).is_none());
    assert!(Timestamp::from_parts(2023, 13, 1, 0, 0, 0, 0).is_none());
    assert!(Timestamp::from_parts(2023, 1, 1, 24, 0, 0, 0).is_none());
    let t = Timestamp::from_parts(2023, 1, 1, 0, 0, 0, 987_654_321).unwrap();
    assert_eq!(t.millisecond, 987);
}

#[test]
fn bool_from_int_takes_zero_or_one() {
    assert_eq!(bool_from_int(0), Ok(false));
    assert_eq!(bool_from_int(1), Ok(true));
    assert_eq!(bool_from_int(2), Err(2));
    assert_eq!(bool_from_int(255), Err(255));
}
