use retrodate::civil::SpanUnits;
use retrodate::config::App;
use retrodate::immich::{Asset, ExifInfo, Patch, Results};
use retrodate::run::{Action, Notice, Run};
use ureq::http::Uri;

/// An Immich server held in memory: it answers searches with pages of two
/// assets.
struct Immich {
    state: Vec<Asset>,
}

impl Immich {
    fn with_assets(assets: Vec<Asset>) -> Self {
        Immich { state: assets }
    }

    fn search(&self, needle: &str, page: &str) -> Results {
        let matches: Vec<Asset> = self
            .state
            .iter()
            .filter(|asset| asset.original_file_name.contains(needle))
            .cloned()
            .collect();
        let match_count = matches.len();
        let page_size = 2;
        let page: usize = page.parse().unwrap();
        let next_page = if page * page_size < match_count { Some(format!("{}", page + 1)) } else { None };
        let offset = (page - 1) * page_size;
        let items = matches.into_iter().skip(offset).take(page_size).collect();
        Results { items, next_page, total: match_count }
    }

    fn get_asset_by_id(&self, id: &str) -> Asset {
        self.state.iter().find(|asset| asset.id == id).cloned().unwrap()
    }

    fn put(&mut self, id: &str, patch: Patch) {
        let asset = self.state.iter_mut().find(|asset| asset.id == id).unwrap();
        if let Some(exif_info) = &mut asset.exif_info {
            exif_info.date_time_original = Some(patch.date_time_original);
        } else {
            asset.exif_info = Some(ExifInfo { date_time_original: Some(patch.date_time_original) });
        }
    }

    /// Carries out a run against this server, as the program does against a
    /// real one, and hands back every notice reported.
    fn serve(&mut self, run: &mut Run) -> Vec<Notice> {
        let mut reported = Vec::new();
        let mut step = run.begin();
        loop {
            reported.extend(step.notices);
            step = match step.action {
                Action::Search { needle, page } => run.on_page(self.search(&needle, &page)),
                Action::Fetch { id } => run.on_asset(self.get_asset_by_id(&id)),
                Action::Write { id, patch } => {
                    self.put(&id, patch);
                    run.on_written()
                }
                Action::Fail { file_name } => panic!("could not compare the dates of {file_name}"),
                Action::Done => break,
            };
        }
        reported
    }
}

fn asset(id: &str, name: &str, date: Option<&str>) -> Asset {
    Asset {
        id: String::from(id),
        original_file_name: String::from(name),
        exif_info: date.map(|d| ExifInfo { date_time_original: Some(String::from(d)) }),
    }
}

fn default_assets() -> Vec<Asset> {
    vec![
        // Asset contains a valid date and time.
        asset("1", "Screenshot_20230927_191315.jpg", None),
        // Asset does not contain a date and time.
        asset("2", "lolcat.jpg", None),
        // Asset contains a date but not a time.
        asset("3", "Screenshot_20230927.jpg", None),
        // Asset contains a date that is outside the range the App is looking for.
        asset("4", "Screenshot_19980927_200215.jpg", None),
        // Asset contains a date but not a time.
        asset("5", "Screenshot_2023-09-27T191315.jpg", None),
        // Asset contains valid date and time. But it already a value for dateTimeOriginal.
        asset("6", "Screenshot_2023-09-27T191315.jpg", Some("1970-01-01T00:00:00")),
        // Asset contains valid date and time. But it already a value for dateTimeOriginal.
        asset("7", "Screenshot_2023-09-27T191315.jpg", Some("2023-09-27T20:00:00")),
    ]
}

fn host() -> Uri {
    "http://127.0.0.1:2283/api".parse().unwrap()
}

fn dated(text: &str) -> Option<ExifInfo> {
    Some(ExifInfo { date_time_original: Some(String::from(text)) })
}

#[test]
fn test_app_created_with_if_unset() {
    let mut immich = Immich::with_assets(default_assets());

    let app = App::builder(host(), String::from("api-key")).build();
    let (_client, mut run) = app.start();
    immich.serve(&mut run);

    let asset = immich.get_asset_by_id("1");
    assert_eq!(asset.exif_info, None);

    let app = App::builder(host(), String::from("api-key")).if_unset().build();
    let (_client, mut run) = app.start();
    immich.serve(&mut run);

    let asset = immich.get_asset_by_id("1");
    assert_eq!(asset.exif_info, dated("2023-09-27T19:13:15"));
    let asset = immich.get_asset_by_id("2");
    assert!(asset.exif_info.is_none());
    let asset = immich.get_asset_by_id("3");
    assert_eq!(asset.exif_info, dated("2023-09-27T00:00:00"));

    let asset = immich.get_asset_by_id("4");
    assert!(asset.exif_info.is_none());
    let asset = immich.get_asset_by_id("5");
    assert_eq!(asset.exif_info, dated("2023-09-27T19:13:15"));
    let asset = immich.get_asset_by_id("6");
    assert_eq!(asset.exif_info, dated("1970-01-01T00:00:00"));
}

#[test]
fn test_app_created_with_overwrite() {
    let mut immich = Immich::with_assets(default_assets());

    let app = App::builder(host(), String::from("api-key")).overwrite(SpanUnits { days: 1, ..SpanUnits::zero() }).build();
    let (_client, mut run) = app.start();
    immich.serve(&mut run);

    let asset = immich.get_asset_by_id("1");
    assert_eq!(asset.exif_info, dated("2023-09-27T19:13:15"));
    let asset = immich.get_asset_by_id("6");
    assert_eq!(asset.exif_info, dated("2023-09-27T19:13:15"));
    let asset = immich.get_asset_by_id("7");
    assert_eq!(asset.exif_info, dated("2023-09-27T20:00:00"));
}

#[test]
fn dry_run_reports_and_changes_nothing() {
    let mut immich = Immich::with_assets(default_assets());
    let app = App::builder(host(), String::from("api-key")).from_year(2023).until_year(2023).build();
    let (_client, mut run) = app.start();
    let notices = immich.serve(&mut run);

    for a in immich.state.iter() {
        let original = default_assets().into_iter().find(|b| b.id == a.id).unwrap();
        assert_eq!(a.exif_info, original.exif_info);
    }
    let will_set: Vec<&str> = notices
        .iter()
        .filter_map(|n| match n {
            Notice::WillSet { file_name, .. } => Some(file_name.as_str()),
            _ => None,
        })
        .collect();
    assert_eq!(will_set, vec!["Screenshot_20230927_191315.jpg", "Screenshot_20230927.jpg", "Screenshot_2023-09-27T191315.jpg"]);
    let will_change = notices.iter().filter(|n| matches!(n, Notice::WillChange { .. })).count();
    assert_eq!(will_change, 2);
    assert!(matches!(notices[0], Notice::Found { count: 5, year: 2023 }));
}

#[test]
fn other_years_in_the_name_are_passed_over() {
    // "2002" occurs in the time of this name, whose date is in 1998.
    let mut immich = Immich::with_assets(vec![asset("4", "Screenshot_19980927_200215.jpg", None)]);
    let app = App::builder(host(), String::from("api-key")).if_unset().from_year(2002).until_year(2002).build();
    let (_client, mut run) = app.start();
    let notices = immich.serve(&mut run);
    assert_eq!(immich.get_asset_by_id("4").exif_info, None);
    assert_eq!(notices.len(), 1);
    assert!(matches!(notices[0], Notice::Found { count: 1, year: 2002 }));
}

#[test]
fn names_without_a_date_are_reported() {
    let mut immich = Immich::with_assets(vec![asset("9", "holiday 2021 beach.jpg", None)]);
    let app = App::builder(host(), String::from("api-key")).if_unset().from_year(2021).until_year(2021).build();
    let (_client, mut run) = app.start();
    let notices = immich.serve(&mut run);
    assert!(matches!(&notices[1], Notice::NoDate { file_name } if file_name == "holiday 2021 beach.jpg"));
    assert_eq!(immich.get_asset_by_id("9").exif_info, None);
}

#[test]
fn unreadable_dates_are_reported_and_treated_as_missing() {
    let mut immich = Immich::with_assets(vec![asset("8", "IMG_20210501_101010.jpg", Some("yesterday"))]);
    let app = App::builder(host(), String::from("api-key")).if_unset().from_year(2021).until_year(2021).build();
    let (_client, mut run) = app.start();
    let notices = immich.serve(&mut run);
    assert!(notices.iter().any(|n| matches!(n, Notice::UnreadableDate { text, .. } if text == "yesterday")));
    assert_eq!(immich.get_asset_by_id("8").exif_info, dated("2021-05-01T10:10:10"));
}

#[test]
fn years_are_searched_in_order_one_page_at_a_time() {
    let immich = Immich::with_assets(default_assets());
    let app = App::builder(host(), String::from("api-key")).from_year(2022).until_year(2024).build();
    let (_client, mut run) = app.start();
    let mut searches = Vec::new();
    let mut step = run.begin();
    loop {
        step = match step.action {
            Action::Search { needle, page } => {
                searches.push(format!("{needle}/{page}"));
                run.on_page(immich.search(&needle, &page))
            }
            Action::Fetch { id } => run.on_asset(immich.get_asset_by_id(&id)),
            Action::Done => break,
            other => panic!("unexpected {other:?}"),
        };
    }
    assert_eq!(searches, vec!["2022/1", "2023/1", "2023/2", "2023/3", "2024/1"]);
}

#[test]
fn an_empty_range_of_years_searches_nothing() {
    let app = App::builder(host(), String::from("api-key")).from_year(2024).until_year(2023).build();
    let (_client, mut run) = app.start();
    let step = run.begin();
    assert!(matches!(step.action, Action::Done));
    assert!(step.notices.is_empty());
}

#[test]
fn dates_without_a_time_are_reported_and_set_to_midnight() {
    let mut immich = Immich::with_assets(vec![asset("3", "Screenshot_20230927.jpg", None)]);
    let app = App::builder(host(), String::from("api-key")).if_unset().from_year(2023).until_year(2023).build();
    let (_client, mut run) = app.start();
    let notices = immich.serve(&mut run);
    assert!(matches!(&notices[1], Notice::NoTime { file_name } if file_name == "Screenshot_20230927.jpg"));
    assert_eq!(immich.get_asset_by_id("3").exif_info, dated("2023-09-27T00:00:00"));
}
