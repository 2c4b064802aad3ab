use std::cmp::Ordering;

use acrawl_runtime::update_check::{
    build_update_info, cache_fresh_at, is_cache_fresh, UpdateCache, compare_versions, parse_version, strip_version_prefix,
};

#[test]
fn test_version_compare_older() {
    let info = build_update_info("0.2.0", "0.3.0").expect("Expected update info");
    assert!(info.is_outdated);
}

#[test]
fn test_version_compare_equal() {
    let info = build_update_info("1.0.0", "1.0.0").expect("Expected update info");
    assert!(!info.is_outdated);
}

#[test]
fn test_version_compare_major() {
    let info = build_update_info("0.2.0", "0.10.0").expect("Expected update info");
    assert!(info.is_outdated);
}

#[test]
fn test_prerelease_filtered() {
    assert!(build_update_info("0.2.0", "0.3.0-rc1").is_none());
}

#[test]
fn versions_of_different_length_pad_with_zero() {
    assert_eq!(compare_versions("1.0", "1.0.0"), Some(Ordering::Equal));
    assert_eq!(compare_versions("1.0.1", "1.0"), Some(Ordering::Greater));
    assert_eq!(compare_versions("1", "1.0.1"), Some(Ordering::Less));
    assert_eq!(compare_versions("1.x", "1.0"), None);
}

#[test]
fn parse_version_rejects_empty_pieces() {
    assert_eq!(parse_version("1.2.3"), Some(vec![1, 2, 3]));
    assert_eq!(parse_version("1..3"), None);
    assert_eq!(parse_version(""), None);
    assert_eq!(parse_version("v1.2"), None);
}

#[test]
fn update_info_fields_and_prefix() {
    let info = build_update_info("1.2.0", "1.1.9").expect("info");
    assert_eq!(info.latest_version, "1.1.9");
    assert_eq!(info.current_version, "1.2.0");
    assert!(!info.is_outdated);
    assert!(build_update_info("x", "1.0").is_none());
    assert_eq!(strip_version_prefix("v1.2.3"), "1.2.3");
    assert_eq!(strip_version_prefix("1.2.3"), "1.2.3");
    assert_eq!(strip_version_prefix("vv1"), "v1");
}

#[test]
fn cache_freshness_window() {
    let day: i128 = 86_400_000_000_000;
    assert!(cache_fresh_at(Some(0), 0));
    assert!(cache_fresh_at(Some(0), day - 1));
    assert!(!cache_fresh_at(Some(0), day));
    assert!(!cache_fresh_at(Some(10), 5));
    assert!(!cache_fresh_at(None, 5));
    assert!(!cache_fresh_at(Some(i128::MIN), i128::MAX));

    let hour_ago = time::OffsetDateTime::now_utc() - time::Duration::hours(1);
    let stamp = hour_ago
        .format(&time::format_description::well_known::Rfc3339)
        .expect("format");
    let fresh = UpdateCache {
        latest_version: "9.9.9".to_string(),
        checked_at: stamp,
    };
    assert!(is_cache_fresh(&fresh));
    let stale = UpdateCache {
        latest_version: "9.9.9".to_string(),
        checked_at: "2000-01-01T00:00:00Z".to_string(),
    };
    assert!(!is_cache_fresh(&stale));
    let garbage = UpdateCache {
        latest_version: "9.9.9".to_string(),
        checked_at: "yesterday".to_string(),
    };
    assert!(!is_cache_fresh(&garbage));
}
