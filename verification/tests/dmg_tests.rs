use jit_shipper::dmg::{DmgAction, DmgEvent, DmgFetch, DmgPhase};

fn finished_ok(a: &DmgAction) -> Option<String> {
    match a {
        DmgAction::Finish(Ok(n)) => Some(n.clone()),
        _ => None,
    }
}

fn finished_err(a: &DmgAction) -> Option<String> {
    match a {
        DmgAction::Finish(Err(e)) => Some(e.clone()),
        _ => None,
    }
}

/// A retrieval that has read the given version index.
fn after_index(version: &str, index: &str) -> (DmgFetch, DmgAction) {
    let (mut f, _) = DmgFetch::new(version.to_string());
    f.step(DmgEvent::CacheChecked(false));
    f.step(DmgEvent::Fetched(true));
    let a = f.step(DmgEvent::IndexRead(Some(index.to_string())));
    (f, a)
}

#[test]
fn first_action_checks_cache() {
    let (f, a) = DmgFetch::new("15.2".to_string());
    assert_eq!(f.phase, DmgPhase::CheckingCache);
    match a {
        DmgAction::CheckCache(n) => assert_eq!(n, "15.2.dmg"),
        _ => panic!("expected a cache check"),
    }
}

#[test]
fn cached_image_is_used() {
    let (mut f, _) = DmgFetch::new("15.2".to_string());
    let a = f.step(DmgEvent::CacheChecked(true));
    assert_eq!(finished_ok(&a), Some("15.2.dmg".to_string()));
    assert_eq!(f.phase, DmgPhase::Done);
}

#[test]
fn full_download_walk() {
    let (mut f, _) = DmgFetch::new("14.0".to_string());
    match f.step(DmgEvent::CacheChecked(false)) {
        DmgAction::Fetch(u) => assert_eq!(
            u,
            "https://raw.githubusercontent.com/jkcoxson/jit_shipper/master/versions.json"
        ),
        _ => panic!("expected the index download"),
    }
    assert!(matches!(f.step(DmgEvent::Fetched(true)), DmgAction::ReadIndex));
    let index = r#"{"13.0": "https://example.com/13.zip", "14.0": "https://example.com/14.zip"}"#;
    match f.step(DmgEvent::IndexRead(Some(index.to_string()))) {
        DmgAction::Fetch(u) => assert_eq!(u, "https://example.com/14.zip"),
        _ => panic!("expected the image download"),
    }
    match f.step(DmgEvent::Fetched(true)) {
        DmgAction::CreateArchive(n) => assert_eq!(n, "dmg.zip"),
        _ => panic!("expected the archive"),
    }
    assert!(matches!(f.step(DmgEvent::ArchiveCreated(true)), DmgAction::WriteArchive));
    match f.step(DmgEvent::ArchiveWritten(true)) {
        DmgAction::CreateExtractDir(d) => assert_eq!(d, "tmp"),
        _ => panic!("expected the extraction directory"),
    }
    match f.step(DmgEvent::ExtractDirCreated) {
        DmgAction::Extract { archive, dir } => {
            assert_eq!(archive, "dmg.zip");
            assert_eq!(dir, "tmp");
        }
        _ => panic!("expected the extraction"),
    }
    match f.step(DmgEvent::Extracted(None)) {
        DmgAction::RemoveArchive(n) => assert_eq!(n, "dmg.zip"),
        _ => panic!("expected the removal of the archive"),
    }
    match f.step(DmgEvent::ArchiveRemoved(true)) {
        DmgAction::ListExtractDir(d) => assert_eq!(d, "tmp"),
        _ => panic!("expected the listing"),
    }
    let entries = vec![
        ("first".to_string(), true),
        ("14.0 (18A373)".to_string(), true),
        ("notes.txt".to_string(), false),
    ];
    match f.step(DmgEvent::Listed(entries)) {
        DmgAction::Move { extract_dir, from, file, to } => {
            assert_eq!(extract_dir, "tmp");
            assert_eq!(from, Some("14.0 (18A373)".to_string()));
            assert_eq!(file, "DeveloperDiskImage.dmg");
            assert_eq!(to, "14.0.dmg");
        }
        _ => panic!("expected the move of the image"),
    }
    match f.step(DmgEvent::Moved) {
        DmgAction::Move { from, file, to, .. } => {
            assert_eq!(from, Some("14.0 (18A373)".to_string()));
            assert_eq!(file, "DeveloperDiskImage.dmg.signature");
            assert_eq!(to, "14.0.dmg.signature");
        }
        _ => panic!("expected the move of the signature"),
    }
    match f.step(DmgEvent::Moved) {
        DmgAction::RemoveExtractDir(d) => assert_eq!(d, "tmp"),
        _ => panic!("expected the cleanup"),
    }
    let a = f.step(DmgEvent::ExtractDirRemoved);
    assert_eq!(finished_ok(&a), Some("14.0.dmg".to_string()));
    assert_eq!(f.phase, DmgPhase::Done);
}

#[test]
fn listing_without_directory_moves_from_empty_path() {
    let (mut f, _) = after_index("9.0", r#"{"9.0": "u"}"#);
    f.step(DmgEvent::Fetched(true));
    f.step(DmgEvent::ArchiveCreated(true));
    f.step(DmgEvent::ArchiveWritten(true));
    f.step(DmgEvent::ExtractDirCreated);
    f.step(DmgEvent::Extracted(None));
    f.step(DmgEvent::ArchiveRemoved(true));
    match f.step(DmgEvent::Listed(vec![("a.txt".to_string(), false)])) {
        DmgAction::Move { from, .. } => assert_eq!(from, None),
        _ => panic!("expected a move"),
    }
}

#[test]
fn index_download_failures() {
    let (mut f, _) = DmgFetch::new("1".to_string());
    f.step(DmgEvent::CacheChecked(false));
    let a = f.step(DmgEvent::Fetched(false));
    assert_eq!(finished_err(&a), Some("Error downloading versions.json".to_string()));

    let (mut g, _) = DmgFetch::new("1".to_string());
    g.step(DmgEvent::CacheChecked(false));
    g.step(DmgEvent::Fetched(true));
    let b = g.step(DmgEvent::IndexRead(None));
    assert_eq!(finished_err(&b), Some("Error reading versions.json".to_string()));
    assert_eq!(g.phase, DmgPhase::Done);
}

#[test]
fn version_missing_from_index() {
    let (f, a) = after_index("16.4", r#"{"16.3": "u"}"#);
    assert_eq!(
        finished_err(&a),
        Some("DMG library does not contain your iOS version".to_string())
    );
    assert_eq!(f.phase, DmgPhase::Done);
    let (_, b) = after_index("16.4", "[1, 2]");
    assert!(finished_err(&b).is_some());
}

#[test]
fn broken_index_stops() {
    let (f, a) = after_index("16.4", "not json");
    assert!(matches!(a, DmgAction::Abort(_)));
    assert_eq!(f.phase, DmgPhase::Done);
    let (_, b) = after_index("16.4", r#"{"16.4": 5}"#);
    assert!(matches!(b, DmgAction::Abort(_)));
}

#[test]
fn image_steps_failures() {
    let index = r#"{"2": "u"}"#;
    let (mut f, _) = after_index("2", index);
    assert_eq!(
        finished_err(&f.step(DmgEvent::Fetched(false))),
        Some("Error downloading DMG".to_string())
    );
    let (mut f, _) = after_index("2", index);
    f.step(DmgEvent::Fetched(true));
    assert_eq!(
        finished_err(&f.step(DmgEvent::ArchiveCreated(false))),
        Some("Error creating temp DMG.zip".to_string())
    );
    let (mut f, _) = after_index("2", index);
    f.step(DmgEvent::Fetched(true));
    f.step(DmgEvent::ArchiveCreated(true));
    assert_eq!(
        finished_err(&f.step(DmgEvent::ArchiveWritten(false))),
        Some("Error writing temp DMG".to_string())
    );
    let (mut f, _) = after_index("2", index);
    f.step(DmgEvent::Fetched(true));
    f.step(DmgEvent::ArchiveCreated(true));
    f.step(DmgEvent::ArchiveWritten(true));
    f.step(DmgEvent::ExtractDirCreated);
    assert_eq!(
        finished_err(&f.step(DmgEvent::Extracted(Some("InvalidArchive(\"x\")".to_string())))),
        Some("Failed to unzip DMG: InvalidArchive(\"x\")".to_string())
    );
    let (mut f, _) = after_index("2", index);
    f.step(DmgEvent::Fetched(true));
    f.step(DmgEvent::ArchiveCreated(true));
    f.step(DmgEvent::ArchiveWritten(true));
    f.step(DmgEvent::ExtractDirCreated);
    f.step(DmgEvent::Extracted(None));
    assert_eq!(
        finished_err(&f.step(DmgEvent::ArchiveRemoved(false))),
        Some("Failed to remove DMG.zip".to_string())
    );
}

#[test]
fn awaits_matches_phase() {
    let (f, _) = DmgFetch::new("1".to_string());
    assert!(f.awaits(&DmgEvent::CacheChecked(true)));
    assert!(!f.awaits(&DmgEvent::Moved));
    let (mut g, _) = DmgFetch::new("1".to_string());
    g.step(DmgEvent::CacheChecked(true));
    assert!(!g.awaits(&DmgEvent::CacheChecked(true)));
}

#[test]
fn retrieval_ends_within_rank_steps() {
    let (mut f, _) = DmgFetch::new("3".to_string());
    let events = vec![
        DmgEvent::CacheChecked(false),
        DmgEvent::Fetched(true),
        DmgEvent::IndexRead(Some(r#"{"3": "u"}"#.to_string())),
        DmgEvent::Fetched(true),
        DmgEvent::ArchiveCreated(true),
        DmgEvent::ArchiveWritten(true),
        DmgEvent::ExtractDirCreated,
        DmgEvent::Extracted(None),
        DmgEvent::ArchiveRemoved(true),
        DmgEvent::Listed(vec![("d".to_string(), true)]),
        DmgEvent::Moved,
        DmgEvent::Moved,
        DmgEvent::ExtractDirRemoved,
    ];
    let mut steps = 0;
    for e in events {
        assert!(f.phase != DmgPhase::Done);
        f.step(e);
        steps += 1;
    }
    assert_eq!(steps, 13);
    assert_eq!(f.phase, DmgPhase::Done);
}
