use vasttrafik::clock::{validate_date, validate_time, validated_date, validated_time, CalendarDate, TimeOfDay};

#[test]
fn parse_reads_hour_and_minute() {
    assert_eq!(TimeOfDay::parse("12:12"), Some(TimeOfDay { hour: 12, minute: 12 }));
    assert_eq!(TimeOfDay::parse("00:00"), Some(TimeOfDay { hour: 0, minute: 0 }));
    assert_eq!(TimeOfDay::parse("23:59"), Some(TimeOfDay { hour: 23, minute: 59 }));
    assert_eq!(TimeOfDay::parse("7:15"), Some(TimeOfDay { hour: 7, minute: 15 }));
}

#[test]
fn parse_refuses_what_is_no_time() {
    assert_eq!(TimeOfDay::parse("24:00"), None);
    assert_eq!(TimeOfDay::parse("17:60"), None);
    assert_eq!(TimeOfDay::parse("12"), None);
    assert_eq!(TimeOfDay::parse(""), None);
    assert_eq!(TimeOfDay::parse("12:12:30"), None);
}

#[test]
fn new_checks_the_ranges() {
    assert_eq!(TimeOfDay::new(23, 59), Some(TimeOfDay { hour: 23, minute: 59 }));
    assert_eq!(TimeOfDay::new(24, 0), None);
    assert_eq!(TimeOfDay::new(0, 60), None);
}

#[test]
fn minutes_and_order() {
    let a = TimeOfDay::new(12, 12).unwrap();
    let b = TimeOfDay::new(13, 0).unwrap();
    assert_eq!(a.minutes(), 732);
    assert!(a.is_before(&b));
    assert!(!b.is_before(&a));
    assert!(!a.is_before(&a));
}

#[test]
fn validate_time_accepts_and_refuses() {
    assert_eq!(validate_time("12:12"), Ok(()));
    assert_eq!(
        validate_time("1212"),
        Err("Incorrect time format, time must be in HH:MM format. Please try again.".to_string())
    );
    assert!(validate_time("25:00").is_err());
    assert_eq!(validated_time(Some(TimeOfDay { hour: 1, minute: 2 })), Ok(()));
    assert!(validated_time(None).is_err());
}

#[test]
fn validate_date_accepts_and_refuses() {
    assert_eq!(validate_date("2022-03-01"), Ok(()));
    assert_eq!(
        validate_date("01/03/2022"),
        Err("Incorrect date format, date must be in YYYY-MM-DD format. Please try again.".to_string())
    );
    assert!(validate_date("2022-02-30").is_err());
    assert!(validate_date("2022-13-01").is_err());
    assert_eq!(validated_date(Some(CalendarDate { year: 2022, month: 3, day: 1 })), Ok(()));
    assert!(validated_date(None).is_err());
}
