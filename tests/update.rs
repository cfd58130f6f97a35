use vid_fetch_core::release::parse_release;
use vid_fetch_core::timestamp::{parse_timestamp, Timestamp};
use vid_fetch_core::update::{
    asset_name, check_record, decide, decide_from_texts, find_download_url, is_recently_checked,
    is_up_to_date, should_skip, state_writes, AssetEntry, Decision, ReleaseInfo, UpdateError,
    UpdateOutcome, COOL_DOWN_NANOS,
};

const RELEASE_JSON: &str = r#"{
  "published_at": "2024-06-01T00:00:00Z",
  "assets": [
    {"name": "yt-dlp.exe", "browser_download_url": "https://example.invalid/yt-dlp.exe"},
    {"name": "yt-dlp_linux", "browser_download_url": "https://example.invalid/yt-dlp_linux"},
    {"name": "yt-dlp_macos", "browser_download_url": "https://example.invalid/yt-dlp_macos"}
  ]
}"#;

fn ts(text: &str) -> Timestamp {
    parse_timestamp(text).expect("valid timestamp")
}

#[test]
fn asset_names_per_platform() {
    assert_eq!(asset_name("windows").ok(), Some("yt-dlp.exe".to_string()));
    assert_eq!(asset_name("macos").ok(), Some("yt-dlp_macos".to_string()));
    assert_eq!(asset_name("linux").ok(), Some("yt-dlp_linux".to_string()));
}

#[test]
fn unsupported_os_is_rejected() {
    match asset_name("freebsd") {
        Err(e) => {
            assert!(matches!(e, UpdateError::UnsupportedOs(ref o) if o == "freebsd"));
            assert_eq!(e.message(), "Unsupported OS: freebsd");
        }
        Ok(_) => panic!("freebsd has no asset"),
    }
}

#[test]
fn timestamps_parse_with_surrounding_space() {
    let a = ts(" 2024-01-01T00:00:00Z\n");
    assert_eq!(a.unix_nanos, 1_704_067_200_000_000_000);
    assert!(parse_timestamp("not a time").is_none());
}

#[test]
fn second_check_within_hour_is_skipped() {
    let first = ts("2024-06-01T00:00:00Z");
    let text = check_record(first).ok().expect("formattable");
    let later = Timestamp { unix_nanos: first.unix_nanos + COOL_DOWN_NANOS - 1 };
    assert!(should_skip(Some(text.clone()), later));
    let much_later = Timestamp { unix_nanos: first.unix_nanos + COOL_DOWN_NANOS };
    assert!(!should_skip(Some(text), much_later));
}

#[test]
fn missing_or_unreadable_last_check_is_not_skipped() {
    let now = ts("2024-06-01T00:00:00Z");
    assert!(!should_skip(None, now));
    assert!(!should_skip(Some("garbage".to_string()), now));
    assert!(!is_recently_checked(None, now));
}

#[test]
fn newer_remote_release_downloads_even_with_working_binary() {
    let local = Some(ts("2024-01-01T00:00:00Z"));
    let remote = Some(ts("2024-06-01T00:00:00Z"));
    assert!(!is_up_to_date(local, remote, true));
    assert!(!is_up_to_date(local, remote, false));
}

#[test]
fn current_working_binary_is_kept() {
    let local = Some(ts("2024-06-01T00:00:00Z"));
    let remote = Some(ts("2024-06-01T00:00:00Z"));
    assert!(is_up_to_date(local, remote, true));
    assert!(!is_up_to_date(local, remote, false));
    assert!(!is_up_to_date(None, remote, true));
    let release = parse_release(RELEASE_JSON.as_bytes()).ok().expect("valid metadata");
    let d = decide(&release, local, remote, true, "yt-dlp_linux").ok().expect("decision");
    assert!(matches!(d, Decision::UpToDate));
    let w = state_writes(&d, &release.published_at, "2024-06-01T05:00:00Z".to_string()).ok().expect("writes");
    assert_eq!(w.release_time, None);
    assert_eq!(w.last_check, "2024-06-01T05:00:00Z");
}

#[test]
fn outdated_release_end_to_end() {
    let release = parse_release(RELEASE_JSON.as_bytes()).ok().expect("valid metadata");
    let d = decide_from_texts(&release, Some("2024-01-01T00:00:00Z\n".to_string()), true, "yt-dlp_linux")
        .ok()
        .expect("decision");
    match &d {
        Decision::Download(url) => assert_eq!(url, "https://example.invalid/yt-dlp_linux"),
        Decision::UpToDate => panic!("an older local release must be replaced"),
    }
    let w = state_writes(&d, &release.published_at, "2024-06-02T00:00:00Z".to_string()).ok().expect("writes");
    assert_eq!(w.release_time, Some("2024-06-01T00:00:00Z".to_string()));
    assert_eq!(w.last_check, "2024-06-02T00:00:00Z");
}

#[test]
fn missing_local_binary_forces_download() {
    let release = parse_release(RELEASE_JSON.as_bytes()).ok().expect("valid metadata");
    let d = decide_from_texts(&release, Some("2024-06-01T00:00:00Z".to_string()), false, "yt-dlp.exe")
        .ok()
        .expect("decision");
    assert!(matches!(d, Decision::Download(ref u) if u == "https://example.invalid/yt-dlp.exe"));
}

#[test]
fn metadata_without_publish_time_is_an_error() {
    let r = parse_release(br#"{"assets": []}"#);
    assert!(matches!(r, Err(UpdateError::MissingPublishedAt)));
    assert_eq!(UpdateError::MissingPublishedAt.message(), "Could not find published_at in release info");
}

#[test]
fn metadata_that_is_not_json_is_an_error() {
    let r = parse_release(b"<html>");
    assert!(matches!(r, Err(UpdateError::BadMetadata(_))));
}

#[test]
fn metadata_without_assets_cannot_download() {
    let release = parse_release(br#"{"published_at": "2024-06-01T00:00:00Z"}"#).ok().expect("metadata");
    let r = decide_from_texts(&release, None, true, "yt-dlp_linux");
    assert!(matches!(r, Err(UpdateError::NoAssets)));
    assert_eq!(UpdateError::NoAssets.message(), "No assets found in release info");
}

#[test]
fn unknown_asset_is_an_error() {
    let release = parse_release(RELEASE_JSON.as_bytes()).ok().expect("metadata");
    let r = decide_from_texts(&release, None, true, "yt-dlp_aarch64");
    match r {
        Err(e) => assert_eq!(e.message(), "Asset not found: yt-dlp_aarch64"),
        Ok(_) => panic!("no such asset"),
    }
}

#[test]
fn first_matching_asset_wins_even_without_url() {
    let assets = vec![
        AssetEntry { name: Some("a".to_string()), url: None },
        AssetEntry { name: Some("a".to_string()), url: Some("u2".to_string()) },
        AssetEntry { name: None, url: Some("u3".to_string()) },
    ];
    assert_eq!(find_download_url(&assets, "a"), None);
    assert_eq!(find_download_url(&assets, "b"), None);
    let assets2 = vec![
        AssetEntry { name: Some("b".to_string()), url: Some("u1".to_string()) },
        AssetEntry { name: Some("a".to_string()), url: Some("u2".to_string()) },
    ];
    assert_eq!(find_download_url(&assets2, "a"), Some("u2".to_string()));
}

#[test]
fn non_text_publish_time_cannot_be_recorded() {
    let release = parse_release(
        br#"{"published_at": 5, "assets": [{"name": "yt-dlp_linux", "browser_download_url": "u"}]}"#,
    )
    .ok()
    .expect("metadata");
    assert_eq!(release.published_at, None);
    let d = decide_from_texts(&release, None, true, "yt-dlp_linux").ok().expect("decision");
    let r = state_writes(&d, &release.published_at, "t".to_string());
    assert!(matches!(r, Err(UpdateError::PublishedAtNotText)));
    assert_eq!(UpdateError::PublishedAtNotText.message(), "published_at is not a string");
}

#[test]
fn check_record_is_rfc3339() {
    let t = ts("2024-06-01T12:30:00Z");
    let s = check_record(t).ok().expect("formattable");
    assert_eq!(s, "2024-06-01T12:30:00Z");
    assert!(matches!(check_record(Timestamp { unix_nanos: i128::MAX }), Err(UpdateError::TimeFormat)));
}

#[test]
fn outcome_messages() {
    assert_eq!(
        UpdateOutcome::Skipped.message(""),
        "yt-dlp is up to date (last checked less than 1 hour ago)"
    );
    assert_eq!(UpdateOutcome::UpToDate.message(""), "yt-dlp is already up to date.");
    assert_eq!(
        UpdateOutcome::Downloaded.message("/x/yt-dlp_linux"),
        "yt-dlp downloaded successfully: /x/yt-dlp_linux"
    );
    let release = ReleaseInfo { published_at: None, assets: None };
    assert!(release.assets.is_none());
}

#[test]
fn release_assets_keep_order_and_fields() {
    let release = parse_release(
        br#"{"published_at": "2024-06-01T00:00:00Z", "assets": [{"name": "b"}, {"browser_download_url": "u"}, {"name": "a", "browser_download_url": "v"}]}"#,
    )
    .ok()
    .expect("metadata");
    assert_eq!(release.published_at, Some("2024-06-01T00:00:00Z".to_string()));
    let assets = release.assets.expect("assets");
    let pairs: Vec<(Option<String>, Option<String>)> =
        assets.iter().map(|a| (a.name.clone(), a.url.clone())).collect();
    assert_eq!(
        pairs,
        vec![
            (Some("b".to_string()), None),
            (None, Some("u".to_string())),
            (Some("a".to_string()), Some("v".to_string())),
        ]
    );
}

#[test]
fn assets_that_are_not_an_array_are_absent() {
    let release = parse_release(br#"{"published_at": "x", "assets": {}}"#).ok().expect("metadata");
    assert!(release.assets.is_none());
}
