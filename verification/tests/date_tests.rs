use anonymizer::{
    parse_date, parse_datetime_text, validator_is_date, validator_is_sex, CustomDicomDateTime,
};

#[test]
fn only_parse_dates_ymd_format() {
    match parse_date("2022-03-15") {
        Ok(value) => {
            assert_eq!(value, CustomDicomDateTime::new(2022, 3, 15, 0, 0, 0, 0));
        }
        Err(_) => {
            assert!(false)
        }
    };

    match parse_date("2022-15-03") {
        Ok(_) => {
            assert!(false);
        }
        Err(_) => {
            assert!(true)
        }
    };
}

#[test]
fn parse_date_accepts_short_month_and_day() {
    assert_eq!(
        parse_date("2022-3-5").unwrap(),
        CustomDicomDateTime::new(2022, 3, 5, 0, 0, 0, 0)
    );
}

#[test]
fn parse_date_checks_the_calendar() {
    assert!(parse_date("2021-02-29").is_err());
    assert_eq!(
        parse_date("2020-02-29").unwrap(),
        CustomDicomDateTime::new(2020, 2, 29, 0, 0, 0, 0)
    );
    assert!(parse_date("1900-02-29").is_err());
    assert_eq!(
        parse_date("2000-02-29").unwrap(),
        CustomDicomDateTime::new(2000, 2, 29, 0, 0, 0, 0)
    );
    assert!(parse_date("2022-04-31").is_err());
    assert!(parse_date("2022-00-10").is_err());
    assert!(parse_date("2022-13-01").is_err());
    assert!(parse_date("22-03-15").is_err());
    assert!(parse_date("2022/03/15").is_err());
}

#[test]
fn date_error_names_the_input() {
    let err = parse_date("not-a-date").unwrap_err();
    assert_eq!(
        err.message(),
        "Must be in yyyy-mm-dd or yyyy-m-d format: not-a-date"
    );
}

#[test]
fn datetime_text_parses_and_renders() {
    let dt = parse_datetime_text("2000-11-05 12:14:05 +01:00").unwrap();
    assert_eq!(dt, CustomDicomDateTime::new(2000, 11, 5, 12, 14, 5, 3600));
    assert_eq!(dt.to_datetime_text(), "2000-11-05 12:14:05 +01:00");

    let west = parse_datetime_text("1999-01-31 23:59:59 -05:30").unwrap();
    assert_eq!(west.offset_seconds, -(5 * 3600 + 30 * 60));
    assert_eq!(west.to_datetime_text(), "1999-01-31 23:59:59 -05:30");
}

#[test]
fn datetime_text_rejects_malformed_input() {
    assert!(parse_datetime_text("2000-11-05").is_err());
    assert!(parse_datetime_text("2000-11-05 25:00:00 +01:00").is_err());
    assert!(parse_datetime_text("2000-13-05 12:14:05 +01:00").is_err());
    assert!(parse_datetime_text("2000-11-05T12:14:05 +01:00").is_err());
    assert!(parse_datetime_text("2000-11-05 12:14:05 *01:00").is_err());
}

#[test]
fn date_and_sex_validators() {
    assert!(validator_is_date("2022-03-15").is_ok());
    let msg = validator_is_date("2022-15-03").unwrap_err();
    assert_eq!(msg, "Must be in yyyy-mm-dd or yyyy-m-d format");

    assert!(validator_is_sex("f").is_ok());
    let msg = validator_is_sex("xx").unwrap_err();
    assert_eq!(msg, "Only one of the values M,F,O are allowed (not case sensitive)");
}
