use windman::trusted::UtcTime;
use windman::version::{
    descriptor_candidates, earliest_instant, epoch_seconds, latest_instant, timestamp_from_reading,
    extract_version_from_filename, format_timestamp, guess_version_from_folder,
    parse_windsurf_version_from_product, resolve_version, resolve_version_at, semver_from_string,
    timestamp_version, version_from_descriptor, version_token_from_descriptor,
};

fn at(year: i32, month: u32, day: u32, hour: u32, minute: u32, second: u32) -> UtcTime {
    UtcTime { year, month, day, hour, minute, second }
}

#[test]
fn guess_version_from_folder_extracts_semverish() {
    let p = "/tmp/Windsurf-1.12.9-linux-x64";
    assert_eq!(guess_version_from_folder(p).as_deref(), Some("1.12.9"));

    let p = "/tmp/ws-20240922";
    assert!(guess_version_from_folder(p).is_none());
}

#[test]
fn guess_version_from_folder_takes_last_chunk_and_ignores_trailing_slash() {
    assert_eq!(guess_version_from_folder("/opt/app-2.0").as_deref(), Some("2.0"));
    assert_eq!(guess_version_from_folder("/opt/app_3.1.4/").as_deref(), Some("3.1.4"));
    assert!(guess_version_from_folder("/").is_none());
    assert!(guess_version_from_folder("/opt/..").is_none());
}

#[test]
fn picks_semver_from_url() {
    let url = "https://windsurf-stable.codeiumdata.com/linux-x64/stable/abcd/Windsurf-linux-x64-1.12.11.tar.gz";
    assert_eq!(semver_from_string(url).as_deref(), Some("1.12.11"));
}

#[test]
fn picks_semver_from_text() {
    let s = "latest = 0.9.4 (build 42)";
    assert_eq!(semver_from_string(s).as_deref(), Some("0.9.4"));
}

#[test]
fn timestamp_version_has_expected_length() {
    let v = timestamp_version();
    assert_eq!(v.len(), 14);
    assert!(v.chars().all(|c| c.is_ascii_digit()));
}

#[test]
fn format_timestamp_pads_each_field() {
    assert_eq!(format_timestamp(&at(2024, 9, 22, 15, 33, 22)), "20240922153322");
    assert_eq!(format_timestamp(&at(987, 1, 2, 3, 4, 5)), "09870102030405");
}

#[test]
fn format_timestamp_holds_year_to_four_digits() {
    assert_eq!(format_timestamp(&at(12345, 12, 31, 23, 59, 59)), "99991231235959");
    assert_eq!(format_timestamp(&at(-5, 1, 1, 0, 0, 0)), "00000101000000");
}

#[test]
fn detects_version_under_windsurf_resources_app() {
    let v = version_from_descriptor(r#"{ "windsurfVersion":"1.2.3" }"#);
    assert_eq!(v.as_deref(), Some("1.2.3"));
}

#[test]
fn descriptor_prefers_product_field_then_generic_field() {
    let both = r#"{ "version": "1.0.0", "windsurfVersion": "2.0.0" }"#;
    assert_eq!(version_from_descriptor(both).as_deref(), Some("2.0.0"));
    let generic = r#"{ "name": "app", "version": "1.93.1" }"#;
    assert_eq!(version_from_descriptor(generic).as_deref(), Some("1.93.1"));
}

#[test]
fn descriptor_falls_back_to_text_match_when_not_json() {
    let broken = "{ // comment\n \"windsurfVersion\": \"1.4.7\", }";
    assert_eq!(version_from_descriptor(broken).as_deref(), Some("1.4.7"));
}

#[test]
fn descriptor_without_version_field_gives_none() {
    assert!(version_from_descriptor(r#"{ "name": "app" }"#).is_none());
    assert!(version_from_descriptor("").is_none());
}

#[test]
fn descriptor_token_is_the_triple_inside_the_field() {
    let d = r#"{ "windsurfVersion": "v3.2.1-beta" }"#;
    assert_eq!(version_token_from_descriptor(d).as_deref(), Some("3.2.1"));
    assert!(version_token_from_descriptor(r#"{ "windsurfVersion": "next" }"#).is_none());
}

#[test]
fn lenient_product_field_reads_any_value() {
    let d = r#"{"windsurfVersion" : "nightly"}"#;
    assert_eq!(parse_windsurf_version_from_product(d).as_deref(), Some("nightly"));
    assert!(parse_windsurf_version_from_product(r#"{"version":"1.0.0"}"#).is_none());
}

#[test]
fn filename_token_comes_from_the_file_name_only() {
    assert_eq!(
        extract_version_from_filename("/dl/1.0.0/Windsurf-linux-x64-2.3.4.tar.gz").as_deref(),
        Some("2.3.4")
    );
    assert!(extract_version_from_filename("/dl/1.0.0/windsurf.tar.gz").is_none());
}

#[test]
fn archive_token_wins_over_descriptor() {
    let d = Some(r#"{ "windsurfVersion": "9.9.9" }"#.to_string());
    assert_eq!(resolve_version("/tmp/App-linux-x64-2.3.4.tar.gz", &d), "2.3.4");
}

#[test]
fn descriptor_names_build_without_archive_token() {
    let d = Some(r#"{ "windsurfVersion": "1.12.11" }"#.to_string());
    assert_eq!(resolve_version("/tmp/windsurf-latest.tar.gz", &d), "1.12.11");
}

#[test]
fn timestamp_names_build_without_any_token() {
    let v = resolve_version("/tmp/windsurf.tar.gz", &None);
    assert_eq!(v.len(), 14);
    assert!(v.chars().all(|c| c.is_ascii_digit()));
    let d = Some(r#"{ "name": "app" }"#.to_string());
    let v = resolve_version("/tmp/windsurf.tar.gz", &d);
    assert_eq!(v.len(), 14);
}

#[test]
fn resolve_version_at_uses_the_given_instant() {
    let now = at(2025, 9, 27, 15, 33, 22);
    assert_eq!(resolve_version_at("/tmp/windsurf.tar.gz", &None, &now), "20250927153322");
    assert_eq!(resolve_version_at("/tmp/w-1.2.3.tar.gz", &None, &now), "1.2.3");
}

#[test]
fn archive_named_with_version_and_matching_descriptor_installs_to_that_version() {
    let descriptor = Some(r#"{ "windsurfVersion":"2.3.4" }"#.to_string());
    let v = resolve_version("/tmp/x/App-linux-x64-2.3.4.tar.gz", &descriptor);
    assert_eq!(v, "2.3.4");
    let v = resolve_version("/tmp/x/Windsurf-linux-x64-2.3.4.tar.gz", &descriptor);
    assert_eq!(v, "2.3.4");
}

#[test]
fn descriptor_candidates_in_order() {
    let c = descriptor_candidates("/v/1.2.3");
    assert_eq!(
        c,
        vec![
            "/v/1.2.3/resources/app/product.json".to_string(),
            "/v/1.2.3/Windsurf/resources/app/product.json".to_string(),
            "/v/1.2.3/app/resources/product.json".to_string(),
            "/v/1.2.3/resources/product.json".to_string(),
        ]
    );
}

#[test]
fn epoch_seconds_on_both_sides_of_the_epoch() {
    assert_eq!(epoch_seconds(Ok((1_700_000_000, 5))), Some((1_700_000_000, 5)));
    assert_eq!(epoch_seconds(Err((10, 0))), Some((-10, 0)));
    assert_eq!(epoch_seconds(Err((10, 250_000_000))), Some((-11, 750_000_000)));
    assert_eq!(epoch_seconds(Ok((u64::MAX, 0))), None);
    assert_eq!(epoch_seconds(Err((1u64 << 63, 0))), Some((i64::MIN, 0)));
    assert_eq!(epoch_seconds(Err((1u64 << 63, 1))), None);
}

#[test]
fn range_ends_format_as_extreme_stamps() {
    assert_eq!(format_timestamp(&earliest_instant()), "00000101000000");
    assert_eq!(format_timestamp(&latest_instant()), "99991231235959");
}

#[test]
fn timestamp_from_reading_follows_the_clock() {
    assert_eq!(timestamp_from_reading(Ok((1_431_648_000, 0))), "20150515000000");
    assert_eq!(timestamp_from_reading(Ok((1_431_648_000, 999_999_999))), "20150515000000");
    assert_eq!(timestamp_from_reading(Err((1, 0))), "19691231235959");
    assert_eq!(timestamp_from_reading(Err((0, 500_000_000))), "19691231235959");
}

#[test]
fn timestamp_from_reading_outside_range_holds_to_the_ends() {
    assert_eq!(timestamp_from_reading(Ok((u64::MAX, 0))), "99991231235959");
    assert_eq!(timestamp_from_reading(Ok((i64::MAX as u64, 0))), "99991231235959");
    assert_eq!(timestamp_from_reading(Err((u64::MAX, 0))), "00000101000000");
    assert_eq!(timestamp_from_reading(Err((i64::MAX as u64, 0))), "00000101000000");
    let far = timestamp_from_reading(Ok((400_000_000_000, 0)));
    assert!(far.starts_with("9999"));
    assert_eq!(far.len(), 14);
}
