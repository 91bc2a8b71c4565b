use jiff::civil::DateTime;
use retrodate::civil::{CivilDate, CivilDateTime, CivilTime};
use retrodate::extract::{date_in_groups, extract_datetime, time_in_groups};
use retrodate::pattern::Patterns;

fn civil(text: &str) -> CivilDateTime {
    let dt: DateTime = text.parse().unwrap();
    CivilDateTime {
        date: CivilDate { year: dt.year(), month: dt.month(), day: dt.day() },
        time: CivilTime {
            hour: dt.hour(),
            minute: dt.minute(),
            second: dt.second(),
            subsec_nanosecond: dt.subsec_nanosecond(),
        },
    }
}

#[test]
fn test_extracting_datetime() {
    let files: Vec<(&str, CivilDateTime)> = vec![
        ("Screenshot_20230927_191315.jpg", civil("2023-09-27 19:13:15")),
        ("Screenshot_2023-09-27_191315.jpg", civil("2023-09-27 19:13:15")),
        ("Screenshot_2023-9-7_191315.jpg", civil("2023-09-07 19:13:15")),
        ("Screenshot_2023.09.27T191315.jpg", civil("2023-09-27 19:13:15")),
        ("Screenshot_2023-09-27T19:13:15Z.jpg", civil("2023-09-27 19:13:15")),
        ("Screenshot_20230927_191315.jpg", civil("2023-09-27 19:13:15")),
        ("00003IMG_00003_BURST20180930215746.jpg", civil("2018-09-30 21:57:46")),
        ("WhatsApp Image 2024-07-04 at 16.34.09.jpeg", civil("2024-07-04 16:34:09")),
        ("20051022_75_1_69dd.jpeg", civil("2005-10-22 00:00:00")),
        ("Screenshot - 12242013 - 06_56_20 PM.png", civil("2013-12-24 06:56:20")),
        ("IMG-20260309-WA0016.jpg", civil("2026-03-09 00:00:00")),
        ("12252012(001).jpg", civil("2012-12-25 00:00:00")),
    ];
    for (file, expected_moment) in files {
        let datetime = extract_datetime(file).unwrap_or_else(|| panic!("failed to parse {file}"));
        assert_eq!(datetime, expected_moment, "failed to parse {file}");
    }
}

#[test]
fn inputs_that_must_fail() {
    let inputs = vec!["9e8449ee-9f27-440f-949b-69f98a200921.jpg", "2016-0101"];

    for input in inputs {
        assert!(extract_datetime(input).is_none(), "Invalid {input} was parsed successfully");
    }
}

#[test]
fn date_without_time_is_midnight() {
    let dt = extract_datetime("IMG_20190720.jpg").unwrap();
    assert_eq!(dt, civil("2019-07-20 00:00:00"));
    assert_eq!(dt.time, CivilTime { hour: 0, minute: 0, second: 0, subsec_nanosecond: 0 });
}

#[test]
fn leap_second_is_read_as_59() {
    assert_eq!(extract_datetime("IMG_20190720_235960.jpg").unwrap(), civil("2019-07-20 23:59:59"));
}

#[test]
fn time_out_of_range_falls_back_to_midnight() {
    assert_eq!(extract_datetime("IMG_20190720_256012.jpg").unwrap(), civil("2019-07-20 00:00:00"));
}

#[test]
fn implausible_years_are_skipped() {
    // 1825 is before the first photograph; no other pattern reads a date here.
    assert!(extract_datetime("scan_18250101.jpg").is_none());
    // 2101 is past the latest year accepted.
    assert!(extract_datetime("scan_21010101.jpg").is_none());
    assert_eq!(extract_datetime("scan_18260101.jpg").unwrap(), civil("1826-01-01 00:00:00"));
    assert_eq!(extract_datetime("scan_21001231.jpg").unwrap(), civil("2100-12-31 00:00:00"));
}

#[test]
fn invalid_calendar_dates_try_the_next_pattern() {
    // 2023-02-30 does not exist; YYYYDDMM reads 2023, day 02, month 30, which
    // does not exist either; no other pattern matches.
    assert!(extract_datetime("IMG_20230230.jpg").is_none());
    // 2024-02-29 exists (leap year), 2023-02-29 does not.
    assert_eq!(extract_datetime("IMG_20240229.jpg").unwrap(), civil("2024-02-29 00:00:00"));
    // Year-day-month: 2023, day 31, month 12.
    assert_eq!(extract_datetime("IMG_20233112.jpg").unwrap(), civil("2023-12-31 00:00:00"));
}

#[test]
fn time_is_searched_after_the_date() {
    // The digits before the date are not read as a time.
    assert_eq!(extract_datetime("101010_20230927.jpg").unwrap(), civil("2023-09-27 00:00:00"));
}

#[test]
fn non_ascii_names_are_read() {
    assert_eq!(extract_datetime("Ünïcødé 2022-05-21 à 21.30.34.jpg").unwrap(), civil("2022-05-21 21:30:34"));
}

#[test]
fn compiled_patterns_give_the_same_result() {
    let patterns = Patterns::compile();
    for name in ["Screenshot_20230927_191315.jpg", "lolcat.jpg", "12252012(001).jpg"] {
        assert_eq!(patterns.extract_datetime(name), extract_datetime(name));
    }
    assert_eq!(patterns.extract_time("T19:13:15Z").unwrap(), CivilTime {
        hour: 19,
        minute: 13,
        second: 15,
        subsec_nanosecond: 0,
    });
    let m = patterns.extract_date("IMG_20230927_1.jpg").unwrap();
    assert_eq!(m.date, CivilDate { year: 2023, month: 9, day: 27 });
    assert_eq!(m.end, 12);
}

#[test]
fn groups_are_read_in_the_order_of_the_pattern() {
    let groups = vec![Some((0, 8)), Some((0, 2)), Some((2, 4)), Some((4, 8))];
    // Pattern 2 writes day, month, year.
    let m = date_in_groups("12252012", &groups, 2);
    assert!(m.is_none()); // month 25
    let m = date_in_groups("25122012", &groups, 2).unwrap();
    assert_eq!(m.date, CivilDate { year: 2012, month: 12, day: 25 });
    assert_eq!(m.end, 8);
    // Pattern 6 writes month, day, year.
    let m = date_in_groups("12252012", &groups, 6).unwrap();
    assert_eq!(m.date, CivilDate { year: 2012, month: 12, day: 25 });
    // A year of fewer than four digits is not read.
    let groups = vec![Some((0, 7)), Some((0, 3)), Some((3, 5)), Some((5, 7))];
    assert!(date_in_groups("9991231", &groups, 0).is_none());
    // A missing group 3 gives no date.
    let groups = vec![Some((0, 8)), Some((0, 4)), Some((4, 6)), Some((6, 8))];
    assert!(date_in_groups("20230927", &groups[..3].to_vec(), 0).is_none());

    let groups = vec![Some((0, 6)), Some((0, 2)), Some((2, 4)), Some((4, 6))];
    assert_eq!(time_in_groups("191315", &groups).unwrap(), CivilTime {
        hour: 19,
        minute: 13,
        second: 15,
        subsec_nanosecond: 0,
    });
    assert!(time_in_groups("241315", &groups).is_none());
    assert!(time_in_groups("196015", &groups).is_none());
}
