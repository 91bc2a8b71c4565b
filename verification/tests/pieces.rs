use retrodate::civil::{
    compare_gap, current_year, year_from_clock, CivilDate, CivilDateTime, CivilTime, SpanOrder, SpanUnits,
};
use retrodate::config::{App, Args, ArgsError, Builder, Host, Mode, Timeout, DEFAULT_FROM_YEAR};
use retrodate::digits::{decimal, parse_int};
use retrodate::immich::{date_patch, failure_message, hint, Asset, ExifInfo, HttpFailure};
use retrodate::run::{decide, Verdict};

fn dt(year: i16, month: i8, day: i8, hour: i8, minute: i8, second: i8) -> CivilDateTime {
    CivilDateTime {
        date: CivilDate { year, month, day },
        time: CivilTime { hour, minute, second, subsec_nanosecond: 0 },
    }
}

fn host() -> ureq::http::Uri {
    "http://127.0.0.1:2283/api".parse().unwrap()
}

fn args() -> Args {
    Args {
        api_key: String::from("key"),
        host: String::from("https://example.com/api"),
        if_unset: false,
        overwrite: false,
        threshold: None,
        verbose: false,
        from_year: 2000,
        until_year: 2010,
        timeout: 5,
    }
}

#[test]
fn parse_int_reads_signed_decimal_text() {
    assert_eq!(parse_int(b"2023", 0, 4, -32768, 32767), Some(2023));
    assert_eq!(parse_int(b"x-12y", 1, 4, -128, 127), Some(-12));
    assert_eq!(parse_int(b"+7", 0, 2, -128, 127), Some(7));
    assert_eq!(parse_int(b"", 0, 0, -128, 127), None);
    assert_eq!(parse_int(b"-", 0, 1, -128, 127), None);
    assert_eq!(parse_int(b"12a", 0, 3, -128, 127), None);
    assert_eq!(parse_int(b"128", 0, 3, -128, 127), None);
    assert_eq!(parse_int(b"-128", 0, 4, -128, 127), Some(-128));
    assert_eq!(parse_int(b"-129", 0, 4, -128, 127), None);
    assert_eq!(parse_int(b"99999999999", 0, 11, -32768, 32767), None);
    // Digits of other scripts are not ASCII digits.
    assert_eq!(parse_int("٢٠٢٣".as_bytes(), 0, 8, -32768, 32767), None);
}

#[test]
fn decimal_writes_years() {
    assert_eq!(decimal(0), "0");
    assert_eq!(decimal(7), "7");
    assert_eq!(decimal(2002), "2002");
    assert_eq!(decimal(65535), "65535");
}

#[test]
fn failures_are_explained() {
    let url = "http://h/api/search/metadata";
    assert_eq!(
        failure_message(url, &HttpFailure::Status(401)),
        "interaction with http://h/api/search/metadata failed: not authorized, please verify the API key"
    );
    assert_eq!(
        failure_message(url, &HttpFailure::Status(403)),
        "interaction with http://h/api/search/metadata failed: the API key doesn't have correct permissions, make sure to enable the permissions asset.read and asset.update"
    );
    assert_eq!(
        failure_message(url, &HttpFailure::Status(404)),
        "interaction with http://h/api/search/metadata failed: are you sure the location of the Immich API is correct?"
    );
    assert_eq!(
        failure_message(url, &HttpFailure::Json),
        "interaction with http://h/api/search/metadata failed: failed to parse the JSON received from endpoint"
    );
    assert_eq!(failure_message(url, &HttpFailure::Status(500)), "interaction with http://h/api/search/metadata failed");
    assert_eq!(failure_message(url, &HttpFailure::Other), "interaction with http://h/api/search/metadata failed");
    assert_eq!(hint(&HttpFailure::Status(418)), None);
}

#[test]
fn patches_carry_the_iso_text() {
    assert_eq!(date_patch(&dt(2023, 9, 27, 19, 13, 15)).date_time_original, "2023-09-27T19:13:15");
    assert_eq!(date_patch(&dt(1826, 1, 1, 0, 0, 0)).date_time_original, "1826-01-01T00:00:00");
    assert_eq!(dt(2005, 10, 22, 0, 0, 0).display(), "2005-10-22T00:00:00");
}

#[test]
fn recorded_dates_are_read_from_the_exif_info() {
    let mut a = Asset { id: String::from("1"), original_file_name: String::from("x.jpg"), exif_info: None };
    assert_eq!(a.recorded_datetime_text(), None);
    a.exif_info = Some(ExifInfo::default());
    assert_eq!(a.recorded_datetime_text(), None);
    a.exif_info = Some(ExifInfo { date_time_original: Some(String::from("2020-01-01T00:00:00")) });
    assert_eq!(a.recorded_datetime_text().map(|s| s.as_str()), Some("2020-01-01T00:00:00"));
}

#[test]
fn gaps_are_compared_with_the_threshold() {
    let day = SpanUnits { days: 1, ..SpanUnits::zero() };
    let a = dt(2023, 9, 27, 19, 13, 15);
    assert_eq!(compare_gap(&a, &dt(2023, 9, 27, 20, 0, 0), day), Some(SpanOrder::Shorter));
    assert_eq!(compare_gap(&a, &dt(1970, 1, 1, 0, 0, 0), day), Some(SpanOrder::Longer));
    assert_eq!(compare_gap(&a, &dt(2023, 9, 26, 19, 13, 15), day), Some(SpanOrder::Equal));
    assert_eq!(compare_gap(&a, &a, SpanUnits::zero()), Some(SpanOrder::Equal));
}

#[test]
fn decisions_follow_the_mode() {
    let e = dt(1970, 1, 1, 0, 0, 0);
    assert_eq!(decide(&Mode::DryRun, None, None), Verdict::WillSet);
    assert_eq!(decide(&Mode::DryRun, Some(e), None), Verdict::WillChange(e));
    assert_eq!(decide(&Mode::IfUnset, Some(e), None), Verdict::KeepExisting(e));
    assert_eq!(decide(&Mode::IfUnset, None, None), Verdict::SetDate);
    let over = Mode::OverWrite(SpanUnits { hours: 1, ..SpanUnits::zero() });
    assert_eq!(decide(&over, None, None), Verdict::SetDate);
    assert_eq!(decide(&over, Some(e), Some(SpanOrder::Longer)), Verdict::Change(e));
    assert_eq!(decide(&over, Some(e), Some(SpanOrder::Equal)), Verdict::WithinThreshold(e));
    assert_eq!(decide(&over, Some(e), Some(SpanOrder::Shorter)), Verdict::WithinThreshold(e));
    assert_eq!(decide(&over, Some(e), None), Verdict::Incomparable(e));
}

#[test]
fn builder_defaults_and_setters() {
    let b = Builder::new(host(), String::from("key"));
    assert_eq!(b.from_year, DEFAULT_FROM_YEAR);
    assert_eq!(b.until_year, current_year());
    assert!(matches!(b.mode, Mode::DryRun));
    assert_eq!(b.client.timeout, Timeout::from_secs(5));
    let b = b.if_unset().from_year(2010).until_year(2012).http_timeout(Timeout::from_secs(2));
    assert!(matches!(b.mode, Mode::IfUnset));
    assert_eq!(b.client.timeout, Timeout::from_secs(2));
    let app = b.overwrite(SpanUnits { days: 3, ..SpanUnits::zero() }).dry_run().build();
    assert!(matches!(app.mode, Mode::DryRun));
    assert_eq!((app.first_year, app.last_year), (2010, 2012));
    assert_eq!(app.client.api_key, "key");
    let app = App::builder(host(), String::from("k")).build();
    assert_eq!(app.client.host.as_uri(), &host());
    assert_eq!(app.client.host.as_str(), "http://127.0.0.1:2283/api");
    assert_eq!(app.client.search_url(), "http://127.0.0.1:2283/api/search/metadata");
    assert_eq!(app.client.asset_url("42"), "http://127.0.0.1:2283/api/assets/42");
}

#[test]
fn current_year_is_plausible() {
    let year = current_year();
    assert!(year >= 2024 && year <= 9999);
}

#[test]
fn command_lines_are_configured() {
    let b = args().configure().unwrap();
    assert!(matches!(b.mode, Mode::DryRun));
    assert_eq!((b.from_year, b.until_year), (2000, 2010));
    assert_eq!(b.client.timeout, Timeout::from_secs(5));

    let mut a = args();
    a.from_year = 2020;
    a.until_year = 2015;
    a.if_unset = true;
    let b = a.configure().unwrap();
    assert_eq!((b.from_year, b.until_year), (2015, 2020));
    assert_eq!(a.year_bounds(), (2015, 2020));
    assert!(matches!(b.mode, Mode::IfUnset));

    let mut a = args();
    a.overwrite = true;
    a.threshold = Some(String::from("1h30m"));
    let b = a.configure().unwrap();
    match b.mode {
        Mode::OverWrite(span) => assert_eq!(span, SpanUnits { hours: 1, minutes: 30, ..SpanUnits::zero() }),
        other => panic!("unexpected {other:?}"),
    }

    a.threshold = None;
    match a.configure().unwrap().mode {
        Mode::OverWrite(span) => assert_eq!(span, SpanUnits::zero()),
        other => panic!("unexpected {other:?}"),
    }

    a.threshold = Some(String::from("soon"));
    assert_eq!(a.configure().unwrap_err(), ArgsError::Threshold);

    let mut a = args();
    a.host = String::from("http://exa mple.com");
    assert_eq!(a.configure().unwrap_err(), ArgsError::Host);
}

#[test]
fn span_units_follow_jiff() {
    let minus = SpanUnits { days: -2, hours: -3, ..SpanUnits::zero() };
    assert!(minus.check());
    assert_eq!(minus.abs(), SpanUnits { days: 2, hours: 3, ..SpanUnits::zero() });
    // Units of two signs are not those of a span.
    let mixed = SpanUnits { days: 2, hours: -3, ..SpanUnits::zero() };
    assert!(!mixed.check());
    let a = dt(2023, 9, 27, 19, 13, 15);
    let b = dt(2023, 9, 27, 20, 0, 0);
    assert_eq!(compare_gap(&a, &b, mixed), None);
    // Too many years for a span.
    let huge = SpanUnits { years: 20_000, ..SpanUnits::zero() };
    assert!(!huge.check());
    // The gap is taken without its sign, in either order.
    let hour = SpanUnits { hours: 1, ..SpanUnits::zero() };
    assert_eq!(compare_gap(&a, &b, hour), Some(SpanOrder::Shorter));
    assert_eq!(compare_gap(&b, &a, hour), Some(SpanOrder::Shorter));
    let half_hour = SpanUnits { minutes: 30, ..SpanUnits::zero() };
    assert_eq!(compare_gap(&a, &b, half_hour), Some(SpanOrder::Longer));
    assert_eq!(compare_gap(&b, &a, half_hour), Some(SpanOrder::Longer));
    // Calendar units are measured from the existing date: one month from
    // 2023-02-01 is 28 days.
    let month = SpanUnits { months: 1, ..SpanUnits::zero() };
    assert_eq!(compare_gap(&dt(2023, 3, 1, 0, 0, 0), &dt(2023, 2, 1, 0, 0, 0), month), Some(SpanOrder::Equal));
    assert_eq!(compare_gap(&dt(2023, 3, 1, 12, 0, 0), &dt(2023, 2, 1, 0, 0, 0), month), Some(SpanOrder::Longer));
}

#[test]
fn clock_years_map_to_u16() {
    assert_eq!(year_from_clock(2024), 2024);
    assert_eq!(year_from_clock(0), 0);
    assert_eq!(year_from_clock(-1), 2030);
    assert_eq!(year_from_clock(9999), 9999);
}

#[test]
fn urls_start_with_the_host_text() {
    let host = Host::new("http://example.com".parse().unwrap());
    let text = host.as_uri().to_string();
    assert_eq!(host.as_str(), text);
    let client = App::builder(host.as_uri().clone(), String::from("k")).build().client;
    assert_eq!(client.search_url(), format!("{text}/search/metadata"));
    assert_eq!(client.asset_url("3"), format!("{text}/assets/3"));
}

#[test]
fn the_host_of_the_command_line_is_the_host_requested() {
    let b = args().configure().unwrap();
    assert_eq!(b.client.api_key, "key");
    assert_eq!(b.client.host.as_str(), "https://example.com/api");
    assert_eq!(b.client.asset_url("abc"), "https://example.com/api/assets/abc");
}

#[test]
fn builders_made_in_the_same_year_agree() {
    let first = retrodate::config::App::builder(host(), String::from("key"));
    let second = retrodate::config::Builder::new(host(), String::from("key"));
    assert_eq!(first.client.host.as_uri(), second.client.host.as_uri());
    assert_eq!(first.client.host.as_str(), second.client.host.as_str());
    assert_eq!(first.client.api_key, second.client.api_key);
    assert_eq!(first.client.timeout, second.client.timeout);
    assert_eq!((first.from_year, first.until_year), (second.from_year, second.until_year));
    assert!(matches!((first.mode, second.mode), (Mode::DryRun, Mode::DryRun)));
}
