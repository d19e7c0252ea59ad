//! Tests of the verified calendar: date validity and the day count from
//! the UNIX epoch.

use sunrise::Date;

#[test]
fn valid_dates() {
    assert!(Date::new(1970, 1, 1).is_some());
    assert!(Date::new(2024, 2, 29).is_some());
    assert!(Date::new(2000, 2, 29).is_some());
    assert!(Date::new(-4, 2, 29).is_some());
    assert!(Date::new(2023, 12, 31).is_some());
}

#[test]
fn invalid_dates() {
    assert!(Date::new(2023, 2, 29).is_none());
    assert!(Date::new(1900, 2, 29).is_none());
    assert!(Date::new(2023, 0, 1).is_none());
    assert!(Date::new(2023, 13, 1).is_none());
    assert!(Date::new(2023, 1, 0).is_none());
    assert!(Date::new(2023, 1, 32).is_none());
    assert!(Date::new(2023, 4, 31).is_none());
}

#[test]
fn date_accessors() {
    let d = Date::new(1999, 12, 31).unwrap();
    assert_eq!(d.year(), 1999);
    assert_eq!(d.month(), 12);
    assert_eq!(d.day(), 31);
}

#[test]
fn epoch_day_counts() {
    assert_eq!(Date::new(1970, 1, 1).unwrap().epoch_days(), 0);
    assert_eq!(Date::new(1970, 1, 2).unwrap().epoch_days(), 1);
    assert_eq!(Date::new(1969, 12, 31).unwrap().epoch_days(), -1);
    assert_eq!(Date::new(1970, 8, 1).unwrap().epoch_days(), 212);
    assert_eq!(Date::new(2000, 1, 1).unwrap().epoch_days(), 10957);
    assert_eq!(Date::new(2016, 1, 1).unwrap().epoch_days(), 16801);
    assert_eq!(Date::new(2023, 1, 1).unwrap().epoch_days(), 19358);
    assert_eq!(Date::new(2024, 2, 23).unwrap().epoch_days(), 19776);
    assert_eq!(Date::new(1, 1, 1).unwrap().epoch_days(), -719162);
    assert_eq!(Date::new(1600, 3, 1).unwrap().epoch_days(), -135080);
}

#[test]
fn noon_timestamps() {
    assert_eq!(Date::new(1970, 1, 1).unwrap().noon_timestamp(), 43200);
    assert_eq!(Date::new(2000, 1, 1).unwrap().noon_timestamp(), 10957 * 86400 + 43200);
}

#[test]
fn noon_timestamps_match_chrono() {
    for (y, m, d) in [(1970, 1, 1), (2000, 1, 1), (2023, 1, 1), (2024, 2, 23), (1600, 3, 1)] {
        let expected = chrono::NaiveDate::from_ymd_opt(y, m, d)
            .unwrap()
            .and_hms_opt(12, 0, 0)
            .unwrap()
            .and_utc()
            .timestamp();
        let date = Date::new(y, m as u8, d as u8).unwrap();
        assert_eq!(date.noon_timestamp(), expected);
    }
}

#[test]
fn test_solar_noon() {
    // The Julian day of mean solar noon at the prime meridian on the first
    // day of 1970. The division and addition below mirror the consumer of
    // `noon_timestamp`; at longitude zero there is no meridian shift.
    let noon = Date::new(1970, 1, 1).unwrap().noon_timestamp();
    let julian = noon as f64 / 86400.0 + 2440587.5;
    assert_eq!(julian, 2440588.0);
}
