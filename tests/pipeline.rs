use dirsync::event::{is_content_modification, ChangeEvent, ChangeKind, ModifyKind, WatchError};
use dirsync::paths::destination_path;
use dirsync::pattern::Pattern;
use dirsync::request::{Action, ArgError, WatchRequest};
use dirsync::watch_loop::{CopyReport, WatchLoop};

fn request(pattern: &str, destination: &str) -> WatchRequest {
    WatchRequest::new(
        "/src".to_string(),
        Pattern::new(pattern).unwrap(),
        destination.to_string(),
    )
}

fn modified(path: &str) -> ChangeEvent {
    ChangeEvent { kind: ChangeKind::Modify(ModifyKind::Data), paths: vec![path.to_string()] }
}

fn copy(from: &str, to: &str) -> Action {
    Action::Copy { from: from.to_string(), to: to.to_string() }
}

fn args(items: &[&str]) -> Vec<String> {
    items.iter().map(|s| s.to_string()).collect()
}

#[test]
fn txt_pattern_copies_matching_file() {
    let req = request(r"\.txt$", "/dst");
    assert_eq!(req.plan(&modified("/src/a/notes.txt")), copy("/src/a/notes.txt", "/dst/notes.txt"));
}

#[test]
fn txt_pattern_skips_other_extension() {
    let req = request(r"\.txt$", "/dst");
    assert_eq!(
        req.plan(&modified("/src/a/notes.bin")),
        Action::NoMatch { path: "/src/a/notes.bin".to_string() }
    );
}

#[test]
fn nested_source_is_flattened() {
    let req = request(".*", "/out");
    assert_eq!(
        req.plan(&modified("/src/deep/nested/file.log")),
        copy("/src/deep/nested/file.log", "/out/file.log")
    );
}

#[test]
fn match_is_not_anchored() {
    let req = request("txt", "/dst");
    assert_eq!(req.plan(&modified("/src/a.txt.bak")), copy("/src/a.txt.bak", "/dst/a.txt.bak"));
}

#[test]
fn only_content_changes_are_considered() {
    let req = request(".*", "/dst");
    let kinds = [
        ChangeKind::Any,
        ChangeKind::Access,
        ChangeKind::Create,
        ChangeKind::Remove,
        ChangeKind::Other,
        ChangeKind::Modify(ModifyKind::Metadata),
        ChangeKind::Modify(ModifyKind::Name),
        ChangeKind::Modify(ModifyKind::Other),
    ];
    for kind in kinds {
        assert!(!is_content_modification(kind));
        let e = ChangeEvent { kind, paths: vec!["/src/a.txt".to_string()] };
        assert_eq!(req.plan(&e), Action::Ignore);
    }
    assert!(is_content_modification(ChangeKind::Modify(ModifyKind::Any)));
    assert!(is_content_modification(ChangeKind::Modify(ModifyKind::Data)));
    let e = ChangeEvent { kind: ChangeKind::Modify(ModifyKind::Any), paths: vec!["/src/a".to_string()] };
    assert_eq!(req.plan(&e), copy("/src/a", "/dst/a"));
}

#[test]
fn only_first_path_is_used() {
    let req = request(r"\.txt$", "/dst");
    let e = ChangeEvent {
        kind: ChangeKind::Modify(ModifyKind::Data),
        paths: vec!["/src/a.bin".to_string(), "/src/b.txt".to_string()],
    };
    assert_eq!(req.plan(&e), Action::NoMatch { path: "/src/a.bin".to_string() });
}

#[test]
fn empty_paths_are_skipped() {
    let req = request(".*", "/dst");
    let e = ChangeEvent { kind: ChangeKind::Modify(ModifyKind::Data), paths: vec![] };
    assert_eq!(req.plan(&e), Action::SkipMalformed);
}

#[test]
fn path_without_file_name_is_skipped() {
    let req = request(".*", "/dst");
    assert_eq!(req.plan(&modified("/src/a/..")), Action::SkipNoFileName { path: "/src/a/..".to_string() });
}

#[test]
fn destination_paths() {
    assert_eq!(destination_path("/out", "/src/deep/nested/file.log"), Some("/out/file.log".to_string()));
    assert_eq!(destination_path("/out/", "/src/x.txt"), Some("/out/x.txt".to_string()));
    assert_eq!(destination_path("out", "x.txt"), Some("out/x.txt".to_string()));
    assert_eq!(destination_path("/out", "/src/dir/"), Some("/out/dir".to_string()));
    assert_eq!(destination_path("/out", "/"), None);
    assert_eq!(destination_path("/out", "/src/.."), None);
}

#[test]
fn pattern_compile_and_match() {
    let p = Pattern::new(r"^config-.*\.json$").unwrap();
    assert_eq!(p.as_str(), r"^config-.*\.json$");
    assert!(p.is_match("config-app.json"));
    assert!(!p.is_match("readme.md"));
    assert!(!p.is_match("/tmp/d/config-app.json"));
    assert!(Pattern::new("foo(bar").is_err());
    assert!(!Pattern::new("foo(bar").unwrap_err().reason.is_empty());
}

#[test]
fn config_scenario_relative_paths() {
    let req = request(r"^config-.*\.json$", "o");
    assert_eq!(req.plan(&modified("config-app.json")), copy("config-app.json", "o/config-app.json"));
    assert_eq!(req.plan(&modified("readme.md")), Action::NoMatch { path: "readme.md".to_string() });
}

#[test]
fn config_scenario_anchor_fails_on_full_path() {
    let req = request(r"^config-.*\.json$", "/o");
    assert_eq!(
        req.plan(&modified("/tmp/d/config-app.json")),
        Action::NoMatch { path: "/tmp/d/config-app.json".to_string() }
    );
}

#[test]
fn args_complete() {
    let req = WatchRequest::from_args(&args(&["prog", "/src", r"\.txt$", "/dst", "extra"])).unwrap();
    assert_eq!(req.source, "/src");
    assert_eq!(req.pattern.as_str(), r"\.txt$");
    assert_eq!(req.destination, "/dst");
}

#[test]
fn args_errors() {
    assert_eq!(WatchRequest::from_args(&args(&[])).unwrap_err(), ArgError::MissingSource);
    assert_eq!(WatchRequest::from_args(&args(&["prog"])).unwrap_err(), ArgError::MissingSource);
    assert_eq!(WatchRequest::from_args(&args(&["prog", "/src"])).unwrap_err(), ArgError::MissingPattern);
    assert_eq!(
        WatchRequest::from_args(&args(&["prog", "/src", "x"])).unwrap_err(),
        ArgError::MissingDestination
    );
    match WatchRequest::from_args(&args(&["prog", "/src", "foo(bar", "/dst"])).unwrap_err() {
        ArgError::InvalidPattern { pattern, reason } => {
            assert_eq!(pattern, "foo(bar");
            assert!(!reason.is_empty());
        }
        other => panic!("unexpected {:?}", other),
    }
    match WatchRequest::from_args(&args(&["prog", "/src", "foo(bar"])).unwrap_err() {
        ArgError::InvalidPattern { .. } => {}
        other => panic!("unexpected {:?}", other),
    }
}

#[test]
fn loop_handles_events_in_order() {
    let mut l = WatchLoop::new(request(r"\.txt$", "/dst"));
    let events = vec![
        modified("/src/1.txt"),
        modified("/src/2.bin"),
        ChangeEvent { kind: ChangeKind::Create, paths: vec!["/src/3.txt".to_string()] },
        modified("/src/4.txt"),
    ];
    let mut seen = Vec::new();
    for e in events {
        assert!(l.is_waiting());
        let a = l.receive(Some(Ok(e)));
        if let Action::Copy { .. } = a {
            l.copy_finished(Ok(1));
        }
        seen.push(a);
    }
    assert_eq!(
        seen,
        vec![
            copy("/src/1.txt", "/dst/1.txt"),
            Action::NoMatch { path: "/src/2.bin".to_string() },
            Action::Ignore,
            copy("/src/4.txt", "/dst/4.txt"),
        ]
    );
}

#[test]
fn failed_copy_does_not_halt_loop() {
    let mut l = WatchLoop::new(request(".*", "/missing"));
    let a = l.receive(Some(Ok(modified("/src/a.txt"))));
    assert_eq!(a, copy("/src/a.txt", "/missing/a.txt"));
    assert!(!l.is_waiting());
    let report = l.copy_finished(Err("No such file or directory".to_string()));
    assert_eq!(
        report,
        CopyReport::Failed {
            from: "/src/a.txt".to_string(),
            to: "/missing/a.txt".to_string(),
            reason: "No such file or directory".to_string(),
        }
    );
    assert!(l.is_waiting());
    let b = l.receive(Some(Ok(modified("/src/b.txt"))));
    assert_eq!(b, copy("/src/b.txt", "/missing/b.txt"));
    let report = l.copy_finished(Ok(7));
    assert_eq!(
        report,
        CopyReport::Copied { from: "/src/b.txt".to_string(), to: "/missing/b.txt".to_string(), bytes: 7 }
    );
}

#[test]
fn malformed_event_does_not_block_loop() {
    let mut l = WatchLoop::new(request(".*", "/dst"));
    let a = l.receive(Some(Ok(ChangeEvent { kind: ChangeKind::Modify(ModifyKind::Data), paths: vec![] })));
    assert_eq!(a, Action::SkipMalformed);
    assert!(l.is_waiting());
    let b = l.receive(Some(Ok(modified("/src/x"))));
    assert_eq!(b, copy("/src/x", "/dst/x"));
}

#[test]
fn watch_error_is_reported_and_stream_end_stops() {
    let mut l = WatchLoop::new(request(".*", "/dst"));
    let a = l.receive(Some(Err(WatchError { message: "queue overflow".to_string() })));
    assert_eq!(a, Action::WatchFailed { message: "queue overflow".to_string() });
    assert!(l.is_waiting());
    assert!(!l.is_finished());
    assert_eq!(l.receive(None), Action::Stop);
    assert!(l.is_finished());
    assert!(!l.is_waiting());
    assert_eq!(l.request().destination, "/dst");
}
