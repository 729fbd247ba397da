use gb2idb::date::parse_date;

#[test]
fn valid_date_parses_to_epoch_seconds() {
    assert_eq!(parse_date("2024-01-05"), Some(1704412800));
    assert_eq!(parse_date("1970-01-01"), Some(0));
    assert_eq!(parse_date("1970-01-02"), Some(86400));
}

#[test]
fn dates_before_the_epoch_are_negative() {
    assert_eq!(parse_date("1969-12-31"), Some(-86400));
}

#[test]
fn out_of_range_fields_are_rejected() {
    assert_eq!(parse_date("2024-13-40"), None);
    assert_eq!(parse_date("2024-00-10"), None);
    assert_eq!(parse_date("2024-01-00"), None);
    assert_eq!(parse_date("2024-04-31"), None);
}

#[test]
fn wrong_shape_is_rejected() {
    assert_eq!(parse_date("01/05/2024"), None);
    assert_eq!(parse_date("2024-1-5"), None);
    assert_eq!(parse_date("2024-01-05 "), None);
    assert_eq!(parse_date(""), None);
    assert_eq!(parse_date("not-a-date"), None);
}

#[test]
fn leap_years_follow_the_gregorian_rule() {
    assert_eq!(parse_date("2024-02-29"), Some(1709164800));
    assert_eq!(parse_date("2023-02-29"), None);
    assert!(parse_date("2000-02-29").is_some());
    assert_eq!(parse_date("1900-02-29"), None);
}

#[test]
fn consecutive_days_differ_by_one_day() {
    let feb28 = parse_date("2024-02-28").unwrap();
    let feb29 = parse_date("2024-02-29").unwrap();
    let mar01 = parse_date("2024-03-01").unwrap();
    assert_eq!(feb29 - feb28, 86400);
    assert_eq!(mar01 - feb29, 86400);
}
