//! Basic sanity tests for the crate's root items and small helpers.

use backdrop::add;
use backdrop::config::{BugReportInfo, Config};
use backdrop::error::bug_msg;
use backdrop::tags::{Tag, TagSection};

fn bug_report_info() -> BugReportInfo {
    BugReportInfo {
        app_name: "raves".to_string(),
        app_version: "0.1.0".to_string(),
        target_triple: "x86_64-unknown-linux-gnu".to_string(),
        build_time: "today".to_string(),
        device: "Google Pixel 6 Pro (raven)".to_string(),
        display: "BUILD.DISPLAY".to_string(),
        commit: "abcdef".to_string(),
        repo: "https://example.invalid/raves".to_string(),
    }
}

#[test]
fn it_works() {
    let result = add(2, 2);
    assert_eq!(result, 4);
}

#[test]
fn config_new_keeps_fields() {
    let config = Config::new(
        vec!["/media/photos".to_string(), "/media/videos".to_string()],
        "/data".to_string(),
        "/cache".to_string(),
        bug_report_info(),
    );
    assert_eq!(config.watched_paths.len(), 2);
    assert_eq!(config.watched_paths[0], "/media/photos");
    assert_eq!(config.data_dir, "/data");
    assert_eq!(config.cache_dir, "/cache");
    assert_eq!(config.bug_report_info.repo, "https://example.invalid/raves");
}

#[test]
fn bug_msg_names_the_repo() {
    let config = Config::new(
        vec![],
        "/data".to_string(),
        "/cache".to_string(),
        bug_report_info(),
    );
    let msg = bug_msg(&config);
    assert_eq!(
        msg,
        "this is a bug, so please report it! you can do so by heading to this git repo: \
         https://example.invalid/raves"
    );
}

#[test]
fn loaded_config_must_match_its_data_dir() {
    let config = Config::new(
        vec![],
        "/data".to_string(),
        "/cache".to_string(),
        bug_report_info(),
    );
    assert!(config.validate_loaded(&"/data".to_string()).is_ok());
    assert!(matches!(
        config.validate_loaded(&"/other".to_string()),
        Err(backdrop::error::ConfigError::PathMismatch)
    ));
}

#[test]
fn default_tag_section_is_default() {
    let _section = TagSection::default();
}

#[test]
fn new_testing_tag_keeps_name() {
    let tag = Tag::new_testing("beach");
    assert_eq!(tag.name, "beach");
    assert_eq!(tag.tag_section, Some(0));
    assert!(tag.implies.is_empty());

    // identities are minted fresh: two tags rarely collide
    let other = Tag::new_testing("beach");
    assert_ne!(tag.uuid, other.uuid);
}
