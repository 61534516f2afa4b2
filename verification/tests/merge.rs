//! The merge engine: three-way classification, the scenarios it must get
//! right, and the planner's bookkeeping.

use mzr::merge::Classified;
use mzr::merge::ConflictReason;
use mzr::merge::FileKind;
use mzr::merge::Metadata;
use mzr::merge::Mode;
use mzr::merge::WalkItem;
use mzr::merge::classify_item;
use mzr::merge::copy_file_args;
use mzr::merge::copy_from_changes_dir;
use mzr::merge::metadata_matches;
use mzr::merge::plan_merging_zone_changes;
use mzr::paths::MzrDir;
use mzr::paths::OvfsChangesDir;
use mzr::paths::UserWorkDir;
use mzr::paths::ZoneDir;
use mzr::paths::ZoneName;

fn meta(kind: FileKind, len: u64, mtime_secs: i64) -> Metadata {
    Metadata { kind, len, mtime_secs, mtime_nanos: 0, mode: 0o644 }
}

fn changes_dir() -> OvfsChangesDir {
    let work = UserWorkDir::new(String::from("/home/u/proj"));
    let mzr = MzrDir::new(&work);
    let zone_name = ZoneName::new(String::from("z1")).unwrap();
    let zone_dir = ZoneDir::new(&mzr, &zone_name);
    OvfsChangesDir::new(&zone_dir)
}

#[test]
fn changes_dir_layout() {
    assert_eq!(changes_dir().as_str(), "/home/u/proj.mzr/zone/z1/changes");
}

#[test]
fn metadata_matches_all_fields() {
    let a = meta(FileKind::File, 10, 100);
    assert!(metadata_matches(&a, &a));
    let mut b = a;
    b.len = 11;
    assert!(!metadata_matches(&a, &b));
    let mut c = a;
    c.mtime_secs = 101;
    assert!(!metadata_matches(&a, &c));
    let mut d = a;
    d.mtime_nanos = 7;
    assert!(!metadata_matches(&a, &d));
    let mut e = a;
    e.mode = 0o755;
    assert!(!metadata_matches(&a, &e));
    let mut f = a;
    f.kind = FileKind::Symlink;
    assert!(!metadata_matches(&a, &f));
}

fn entry(
    path: &str,
    source: Metadata,
    target: Option<Metadata>,
    snapshot: Option<Metadata>,
) -> WalkItem {
    WalkItem::Entry {
        path: String::from(path),
        source_meta: Ok(source),
        target_meta: Ok(target),
        snapshot_meta: Ok(snapshot),
    }
}

// Classification of a single path: target absent means an update.
#[test]
fn classify_target_absent_is_update() {
    let dir = changes_dir();
    let item = entry("/home/u/proj.mzr/zone/z1/changes/a.txt", meta(FileKind::File, 12, 5), None, None);
    match classify_item(dir.as_str(), &item) {
        Classified::Updated(u) => {
            assert_eq!(u.rel_path, "a.txt");
            assert_eq!(u.source_metadata.len, 12);
            assert!(u.target_metadata.is_none());
        }
        _ => panic!("expected an update"),
    }
}

// Target present, path absent from the snapshot: a conflict.
#[test]
fn classify_not_in_snapshot_is_conflict() {
    let dir = changes_dir();
    let item = entry(
        "/home/u/proj.mzr/zone/z1/changes/a.txt",
        meta(FileKind::File, 12, 5),
        Some(meta(FileKind::File, 9, 4)),
        None,
    );
    match classify_item(dir.as_str(), &item) {
        Classified::Conflicted(c) => {
            assert_eq!(c.rel_path, "a.txt");
            assert!(matches!(c.reason, ConflictReason::NotInSnapshot));
        }
        _ => panic!("expected a conflict"),
    }
}

// Target present and still matching the snapshot: an update.
#[test]
fn classify_unmodified_target_is_update() {
    let dir = changes_dir();
    let base = meta(FileKind::File, 10, 100);
    let item = entry(
        "/home/u/proj.mzr/zone/z1/changes/a.txt",
        meta(FileKind::File, 12, 105),
        Some(base),
        Some(base),
    );
    match classify_item(dir.as_str(), &item) {
        Classified::Updated(u) => {
            assert_eq!(u.rel_path, "a.txt");
            assert_eq!(u.target_metadata, Some(base));
        }
        _ => panic!("expected an update"),
    }
}

// Target present but modified since the snapshot: a conflict.
#[test]
fn classify_modified_target_is_conflict() {
    let dir = changes_dir();
    let item = entry(
        "/home/u/proj.mzr/zone/z1/changes/a.txt",
        meta(FileKind::File, 12, 105),
        Some(meta(FileKind::File, 11, 101)),
        Some(meta(FileKind::File, 10, 100)),
    );
    match classify_item(dir.as_str(), &item) {
        Classified::Conflicted(c) => {
            assert!(matches!(c.reason, ConflictReason::ModifiedInTarget));
        }
        _ => panic!("expected a conflict"),
    }
}

#[test]
fn classify_directory_is_ignored() {
    let dir = changes_dir();
    let item = entry("/home/u/proj.mzr/zone/z1/changes/sub", meta(FileKind::Dir, 0, 0), None, None);
    assert!(matches!(classify_item(dir.as_str(), &item), Classified::Ignored));
}

#[test]
fn classify_foreign_path_is_skipped() {
    let dir = changes_dir();
    let item = entry("/elsewhere/a.txt", meta(FileKind::File, 1, 1), None, None);
    match classify_item(dir.as_str(), &item) {
        Classified::Skipped(s) => {
            assert_eq!(s.source.as_deref(), Some("/elsewhere/a.txt"));
        }
        _ => panic!("expected a skip"),
    }
}

// Snapshot has a.txt (size 10, mtime t0); the zone modified a.txt (size 12)
// and added b.txt; the target still has the original a.txt and no b.txt.
// Both paths are safe updates and nothing conflicts.
#[test]
fn scenario_clean_updates() {
    let dir = changes_dir();
    let t0 = 1000;
    let original = meta(FileKind::File, 10, t0);
    let items = vec![
        entry(
            "/home/u/proj.mzr/zone/z1/changes/a.txt",
            meta(FileKind::File, 12, t0 + 5),
            Some(original),
            Some(original),
        ),
        entry(
            "/home/u/proj.mzr/zone/z1/changes/b.txt",
            meta(FileKind::File, 3, t0 + 6),
            None,
            None,
        ),
    ];
    let plan = plan_merging_zone_changes(&dir, &items);
    assert_eq!(plan.updates.len(), 2);
    assert_eq!(plan.conflicts.len(), 0);
    assert_eq!(plan.skips.len(), 0);
    assert_eq!(plan.updates[0].rel_path, "a.txt");
    assert_eq!(plan.updates[1].rel_path, "b.txt");
}

// Same setup, but the target's a.txt was edited independently (size 11,
// mtime t1): a.txt conflicts, b.txt is still an update.
#[test]
fn scenario_independent_edit_conflicts() {
    let dir = changes_dir();
    let t0 = 1000;
    let t1 = 2000;
    let items = vec![
        entry(
            "/home/u/proj.mzr/zone/z1/changes/a.txt",
            meta(FileKind::File, 12, t0 + 5),
            Some(meta(FileKind::File, 11, t1)),
            Some(meta(FileKind::File, 10, t0)),
        ),
        entry(
            "/home/u/proj.mzr/zone/z1/changes/b.txt",
            meta(FileKind::File, 3, t0 + 6),
            None,
            None,
        ),
    ];
    let plan = plan_merging_zone_changes(&dir, &items);
    assert_eq!(plan.updates.len(), 1);
    assert_eq!(plan.updates[0].rel_path, "b.txt");
    assert_eq!(plan.conflicts.len(), 1);
    assert_eq!(plan.conflicts[0].rel_path, "a.txt");
    assert!(matches!(plan.conflicts[0].reason, ConflictReason::ModifiedInTarget));
}

// A file unreadable during the walk lands in the skips and nowhere else.
#[test]
fn scenario_unreadable_file_is_skipped() {
    let dir = changes_dir();
    let items = vec![
        WalkItem::Entry {
            path: String::from("/home/u/proj.mzr/zone/z1/changes/locked.txt"),
            source_meta: Err(String::from("permission denied")),
            target_meta: Ok(None),
            snapshot_meta: Ok(None),
        },
        entry(
            "/home/u/proj.mzr/zone/z1/changes/b.txt",
            meta(FileKind::File, 3, 1),
            None,
            None,
        ),
    ];
    let plan = plan_merging_zone_changes(&dir, &items);
    assert_eq!(plan.updates.len(), 1);
    assert_eq!(plan.conflicts.len(), 0);
    assert_eq!(plan.skips.len(), 1);
    assert_eq!(plan.skips[0].source.as_deref(), Some("/home/u/proj.mzr/zone/z1/changes/locked.txt"));
    assert_eq!(plan.skips[0].reason, "permission denied");
}

// A failure of the walk itself is recorded as a skip too.
#[test]
fn walk_error_is_skipped() {
    let dir = changes_dir();
    let items = vec![WalkItem::WalkError {
        source: None,
        message: String::from("walk failed"),
    }];
    let plan = plan_merging_zone_changes(&dir, &items);
    assert_eq!(plan.skips.len(), 1);
    assert!(plan.skips[0].source.is_none());
    assert_eq!(plan.skips[0].reason, "walk failed");
}

// A failed metadata probe of the target tree is a skip, not a guess.
#[test]
fn unreadable_target_is_skipped() {
    let dir = changes_dir();
    let items = vec![WalkItem::Entry {
        path: String::from("/home/u/proj.mzr/zone/z1/changes/c.txt"),
        source_meta: Ok(meta(FileKind::File, 2, 1)),
        target_meta: Err(String::from("input error")),
        snapshot_meta: Ok(None),
    }];
    let plan = plan_merging_zone_changes(&dir, &items);
    assert_eq!(plan.updates.len(), 0);
    assert_eq!(plan.conflicts.len(), 0);
    assert_eq!(plan.skips.len(), 1);
    assert_eq!(plan.skips[0].reason, "input error");
}

// After an update is applied, the target carries the zone's metadata.
// Re-classified against a fresh baseline taken from the updated target, the
// path is an update again — never a conflict.
#[test]
fn reapply_against_fresh_baseline_never_conflicts() {
    let dir = changes_dir();
    let zone_version = meta(FileKind::File, 12, 1005);
    let item = entry(
        "/home/u/proj.mzr/zone/z1/changes/a.txt",
        zone_version,
        Some(zone_version),
        Some(zone_version),
    );
    match classify_item(dir.as_str(), &item) {
        Classified::Updated(_) => {}
        Classified::Conflicted(_) => panic!("an applied update must not re-conflict"),
        _ => panic!("expected an update"),
    }
}

// Against the unchanged old baseline, a path already rewritten by an applied
// update reports as modified in the target: re-running a plan of updates
// against the old snapshot does not empty the plan.
#[test]
fn reapply_against_old_baseline_reports_conflict() {
    let dir = changes_dir();
    let zone_version = meta(FileKind::File, 12, 1005);
    let old_baseline = meta(FileKind::File, 10, 1000);
    let item = entry(
        "/home/u/proj.mzr/zone/z1/changes/a.txt",
        zone_version,
        Some(zone_version),
        Some(old_baseline),
    );
    match classify_item(dir.as_str(), &item) {
        Classified::Conflicted(c) => {
            assert!(matches!(c.reason, ConflictReason::ModifiedInTarget));
        }
        _ => panic!("expected a conflict against the stale baseline"),
    }
}

// The merge policy: updates are applied under the two automatic modes,
// conflicts only under the explicit conflict mode, nothing under always-ask.
#[test]
fn mode_policy() {
    assert!(!Mode::AlwaysAsk.applies_updates());
    assert!(!Mode::AlwaysAsk.applies_conflicts());
    assert!(Mode::AutoApplyUpdates.applies_updates());
    assert!(!Mode::AutoApplyUpdates.applies_conflicts());
    assert!(Mode::AutoApplyConflicts.applies_updates());
    assert!(Mode::AutoApplyConflicts.applies_conflicts());
}

#[test]
fn copy_arguments() {
    let args = copy_file_args("/from/a", "/to/a");
    let words: Vec<&str> = args.iter().map(|s| s.as_str()).collect();
    assert_eq!(words, ["--archive", "--reflink=auto", "--no-dereference", "/from/a", "/to/a"]);
}

#[test]
fn copy_paths_from_changes_dir() {
    let dir = changes_dir();
    let (source, target) = copy_from_changes_dir("sub/a.txt", &dir, "/home/u/proj");
    assert_eq!(source, "/home/u/proj.mzr/zone/z1/changes/sub/a.txt");
    assert_eq!(target, "/home/u/proj/sub/a.txt");
}

#[test]
fn update_apply_args() {
    let dir = changes_dir();
    let t0 = 1000;
    let items = vec![entry(
        "/home/u/proj.mzr/zone/z1/changes/b.txt",
        meta(FileKind::File, 3, t0),
        None,
        None,
    )];
    let plan = plan_merging_zone_changes(&dir, &items);
    let args = plan.updates[0].apply_args(&dir, "/home/u/proj");
    assert_eq!(args[3], "/home/u/proj.mzr/zone/z1/changes/b.txt");
    assert_eq!(args[4], "/home/u/proj/b.txt");
}
