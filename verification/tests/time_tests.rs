use chrono::TimeZone;
use haisin::time::parse_jst_date_time;

#[test]
fn parses_reference_instant() {
    // 2020-06-17 17:32 in UTC+9 is 2020-06-17T08:32:00Z.
    assert_eq!(parse_jst_date_time("2020-06-17 17:32"), Some(1592382720));
}

#[test]
fn reference_instant_matches_chrono() {
    let expected = chrono::FixedOffset::east_opt(9 * 3600)
        .unwrap()
        .with_ymd_and_hms(2020, 6, 17, 17, 32, 0)
        .unwrap()
        .timestamp();
    assert_eq!(parse_jst_date_time("2020-06-17 17:32"), Some(expected));
}

#[test]
fn epoch_boundary() {
    // 09:00 JST on the epoch day is the epoch instant itself.
    assert_eq!(parse_jst_date_time("1970-01-01 09:00"), Some(0));
    assert_eq!(parse_jst_date_time("1970-01-01 08:59"), Some(-60));
}

#[test]
fn agrees_with_chrono_across_samples() {
    let jst = chrono::FixedOffset::east_opt(9 * 3600).unwrap();
    let samples = [
        (1999u32, 12u32, 31u32, 23u32, 59u32, "1999-12-31 23:59"),
        (2000, 2, 29, 0, 0, "2000-02-29 00:00"),
        (2016, 3, 1, 12, 30, "2016-03-01 12:30"),
        (2024, 2, 29, 6, 5, "2024-02-29 06:05"),
        (1969, 7, 20, 20, 17, "1969-07-20 20:17"),
    ];
    for (y, m, d, h, mi, text) in samples {
        let expected = jst
            .with_ymd_and_hms(y as i32, m, d, h, mi, 0)
            .unwrap()
            .timestamp();
        assert_eq!(parse_jst_date_time(text), Some(expected), "{}", text);
    }
}

#[test]
fn rejects_wrong_shape() {
    assert_eq!(parse_jst_date_time(""), None);
    assert_eq!(parse_jst_date_time("2020-06-17"), None);
    assert_eq!(parse_jst_date_time("2020-06-17 17:32:00"), None);
    assert_eq!(parse_jst_date_time("2020/06/17 17:32"), None);
    assert_eq!(parse_jst_date_time("2020-06-17T17:32"), None);
    assert_eq!(parse_jst_date_time("20-06-17 17:32"), None);
    assert_eq!(parse_jst_date_time("2020-6-17 17:32"), None);
    assert_eq!(parse_jst_date_time("abcd-ef-gh ij:kl"), None);
}

#[test]
fn rejects_invalid_calendar_dates() {
    assert_eq!(parse_jst_date_time("2020-13-01 00:00"), None);
    assert_eq!(parse_jst_date_time("2020-00-01 00:00"), None);
    assert_eq!(parse_jst_date_time("2020-06-00 00:00"), None);
    assert_eq!(parse_jst_date_time("2020-06-31 00:00"), None);
    assert_eq!(parse_jst_date_time("2021-02-29 00:00"), None);
    assert_eq!(parse_jst_date_time("1900-02-29 00:00"), None);
    assert_eq!(parse_jst_date_time("2020-06-17 24:00"), None);
    assert_eq!(parse_jst_date_time("2020-06-17 17:60"), None);
}

#[test]
fn accepts_leap_days() {
    assert!(parse_jst_date_time("2020-02-29 00:00").is_some());
    assert!(parse_jst_date_time("2000-02-29 00:00").is_some());
}
