//! Tests of the watcher's planning: lifecycle, event handling and the
//! directory fan-out.

use backdrop::config::{BugReportInfo, Config};
use backdrop::watch::{Dispatch, EventKind, FsEvent, Watch, WatchInput, WatchState};

fn config_with_roots(roots: Vec<String>) -> Config {
    Config::new(
        roots,
        "/data".to_string(),
        "/cache".to_string(),
        BugReportInfo {
            app_name: "raves".to_string(),
            app_version: "0.1.0".to_string(),
            target_triple: "aarch64-linux-android".to_string(),
            build_time: "today".to_string(),
            device: "phone".to_string(),
            display: "build".to_string(),
            commit: "abc".to_string(),
            repo: "https://example.invalid/raves".to_string(),
        },
    )
}

#[test]
fn watcher_lifecycle() {
    let s0 = WatchState::Idle;
    let s1 = Watch::step(s0, WatchInput::Begin);
    assert_eq!(s1, WatchState::InitialScanning);
    let s2 = Watch::step(s1, WatchInput::ScanComplete);
    assert_eq!(s2, WatchState::Live);
    let s3 = Watch::step(s2, WatchInput::Event);
    assert_eq!(s3, WatchState::Dispatching);
    let s4 = Watch::step(s3, WatchInput::Dispatched);
    assert_eq!(s4, WatchState::Live, "no terminal state under normal operation");

    // anything else leaves the state alone
    assert_eq!(Watch::step(WatchState::Idle, WatchInput::Event), WatchState::Idle);
    assert_eq!(Watch::step(WatchState::Live, WatchInput::Begin), WatchState::Live);
}

#[test]
fn file_event_dispatches_one_update() {
    let ev = FsEvent {
        path: Some("/media/a.jpg".to_string()),
        kind: EventKind::Any,
        is_dir: false,
    };
    let d = Watch::plan_event(&ev).unwrap();
    assert!(matches!(d, Dispatch::UpdateFile(p) if p == "/media/a.jpg"));
}

#[test]
fn noise_and_bad_paths_are_skipped() {
    let noise = FsEvent {
        path: Some("/media/a.jpg".to_string()),
        kind: EventKind::Other,
        is_dir: false,
    };
    assert!(Watch::plan_event(&noise).is_none());

    let bad_path = FsEvent { path: None, kind: EventKind::Any, is_dir: false };
    assert!(Watch::plan_event(&bad_path).is_none());
}

#[test]
fn scenario_directory_move_event() {
    // a directory holding three files is moved: the watcher sees one
    // directory-level event ...
    let ev = FsEvent {
        path: Some("/media/moved".to_string()),
        kind: EventKind::Any,
        is_dir: true,
    };
    let d = Watch::plan_event(&ev).unwrap();
    assert!(matches!(d, Dispatch::RescanDir(p) if p == "/media/moved"));

    // ... and the re-walk of that directory dispatches one independent
    // re-ingestion per contained file
    let listing = vec![
        "/media/moved/one.jpg".to_string(),
        "/media/moved/two.jpg".to_string(),
        "/media/moved/three.jpg".to_string(),
    ];
    let work = Watch::expand_dir(&listing);
    assert_eq!(work.len(), 3);
    for (dispatch, path) in work.iter().zip(listing.iter()) {
        assert!(matches!(dispatch, Dispatch::UpdateFile(p) if p == path));
    }
}

#[test]
fn initial_scan_covers_every_root() {
    let config = config_with_roots(vec!["/media/photos".to_string(), "/sdcard/dcim".to_string()]);
    let work = Watch::plan_initial_scan(&config);
    assert_eq!(work.len(), 2);
    assert!(matches!(&work[0], Dispatch::RescanDir(p) if p == "/media/photos"));
    assert!(matches!(&work[1], Dispatch::RescanDir(p) if p == "/sdcard/dcim"));
}
