//! The merge/reconciliation engine: a three-way comparison between a zone's
//! snapshot baseline, its accumulated changes, and the current state of the
//! target tree.
//!
//! Every file under the zone's change layer is classified: an **update** can
//! be folded back into the target safely, a **conflict** needs explicit
//! resolution, and a **skip** records a path whose metadata could not be
//! read. Directories are not reconciled on their own; only file and symlink
//! leaves are. The caller walks the change layer and probes the three trees'
//! metadata, and hands the outcome of each probe to the planner here.

use vstd::prelude::*;
use vstd::string::StringExecFns;

use crate::paths::OvfsChangesDir;

verus! {

/// The merge policy in force. Updates may be applied automatically;
/// conflicts are reported and by default are not auto-applied; skips are
/// only ever reported.
pub enum Mode {
    AlwaysAsk,
    AutoApplyUpdates,
    AutoApplyConflicts,
}

/// Whether the policy applies the plan's updates without asking: both
/// automatic modes do.
pub open spec fn mode_applies_updates_spec(mode: Mode) -> bool {
    mode is AutoApplyUpdates || mode is AutoApplyConflicts
}

/// Whether the policy resolves the plan's conflicts in the zone's favour
/// without asking: only the explicit conflict mode does, never by default.
pub open spec fn mode_applies_conflicts_spec(mode: Mode) -> bool {
    mode is AutoApplyConflicts
}

impl Mode {
    /// Whether this policy applies updates without asking.
    pub fn applies_updates(&self) -> (r: bool)
        ensures
            r == mode_applies_updates_spec(*self),
    {
        match self {
            Mode::AlwaysAsk => false,
            Mode::AutoApplyUpdates => true,
            Mode::AutoApplyConflicts => true,
        }
    }

    /// Whether this policy overwrites conflicting targets without asking.
    pub fn applies_conflicts(&self) -> (r: bool)
        ensures
            r == mode_applies_conflicts_spec(*self),
    {
        match self {
            Mode::AutoApplyConflicts => true,
            _ => false,
        }
    }
}

/// What kind of filesystem object a path names, read without following
/// symlinks.
#[derive(Clone, Copy, PartialEq, Eq, Structural, Debug)]
pub enum FileKind {
    File,
    Dir,
    Symlink,
    Other,
}

/// Link-local file metadata, as compared by the reconciliation rules: size,
/// modification time, permission bits and file-type classification.
#[derive(Clone, Copy, PartialEq, Eq, Structural, Debug)]
pub struct Metadata {
    pub kind: FileKind,
    pub len: u64,
    pub mtime_secs: i64,
    pub mtime_nanos: u32,
    pub mode: u32,
}

/// Whether two metadata records agree in size, modification time,
/// permission bits and file kind.
pub open spec fn metadata_matches_spec(x: Metadata, y: Metadata) -> bool {
    &&& x.len == y.len
    &&& x.mtime_secs == y.mtime_secs
    &&& x.mtime_nanos == y.mtime_nanos
    &&& x.mode == y.mode
    &&& x.kind == y.kind
}

/// Compares two metadata records as the reconciliation rules do.
pub fn metadata_matches(x: &Metadata, y: &Metadata) -> (r: bool)
    ensures
        r == metadata_matches_spec(*x, *y),
{
    if x.len != y.len {
        return false;
    }
    if x.mtime_secs != y.mtime_secs || x.mtime_nanos != y.mtime_nanos {
        return false;
    }
    if x.mode != y.mode {
        return false;
    }
    x.kind == y.kind
}

/// Why a path was classified as a conflict.
#[derive(Clone, Copy, PartialEq, Eq, Structural, Debug)]
pub enum ConflictReason {
    /// The path was not present when the zone was created, but is now
    /// present in both the zone and the target, so directionality is
    /// ambiguous.
    NotInSnapshot,
    /// The target's copy no longer matches the snapshot baseline: it was
    /// edited independently since the snapshot was taken.
    ModifiedInTarget,
}

/// A change that can be applied to the target safely.
pub struct Update {
    pub rel_path: String,
    pub source_metadata: Metadata,
    pub target_metadata: Option<Metadata>,
}

/// The ghost image of an `Update`.
pub struct UpdateV {
    pub rel_path: Seq<char>,
    pub source_metadata: Metadata,
    pub target_metadata: Option<Metadata>,
}

impl View for Update {
    type V = UpdateV;

    open spec fn view(&self) -> UpdateV {
        UpdateV {
            rel_path: self.rel_path@,
            source_metadata: self.source_metadata,
            target_metadata: self.target_metadata,
        }
    }
}

/// A change that needs explicit resolution.
pub struct Conflict {
    pub rel_path: String,
    pub reason: ConflictReason,
    pub source_metadata: Metadata,
    pub target_metadata: Metadata,
}

/// The ghost image of a `Conflict`.
pub struct ConflictV {
    pub rel_path: Seq<char>,
    pub reason: ConflictReason,
    pub source_metadata: Metadata,
    pub target_metadata: Metadata,
}

impl View for Conflict {
    type V = ConflictV;

    open spec fn view(&self) -> ConflictV {
        ConflictV {
            rel_path: self.rel_path@,
            reason: self.reason,
            source_metadata: self.source_metadata,
            target_metadata: self.target_metadata,
        }
    }
}

/// A path left out of the plan because it could not be examined.
pub struct Skip {
    /// The path at which the walk or a metadata probe failed, where one is
    /// known.
    pub source: Option<String>,
    /// The underlying error, as text.
    pub reason: String,
}

/// The ghost image of a `Skip`.
pub struct SkipV {
    pub source: Option<Seq<char>>,
    pub reason: Seq<char>,
}

impl View for Skip {
    type V = SkipV;

    open spec fn view(&self) -> SkipV {
        SkipV {
            source: match self.source {
                Some(ref p) => Some(p@),
                None => None,
            },
            reason: self.reason@,
        }
    }
}

/// The outcome of one reconciliation request: three ordered lists covering
/// every walked path, in walk order within each list.
pub struct Plan {
    pub updates: Vec<Update>,
    pub conflicts: Vec<Conflict>,
    pub skips: Vec<Skip>,
}

/// The ghost image of a `Plan`.
pub struct PlanV {
    pub updates: Seq<UpdateV>,
    pub conflicts: Seq<ConflictV>,
    pub skips: Seq<SkipV>,
}

impl View for Plan {
    type V = PlanV;

    open spec fn view(&self) -> PlanV {
        PlanV {
            updates: self.updates@.map_values(|u: Update| u@),
            conflicts: self.conflicts@.map_values(|c: Conflict| c@),
            skips: self.skips@.map_values(|s: Skip| s@),
        }
    }
}

/// One observation made while walking the change layer: either the walk
/// failed at some point, or a directory entry was seen and the three trees
/// were probed for it. A probe result of `Ok(None)` means the path does not
/// exist in that tree; `Err` carries the error text of a failed read.
pub enum WalkItem {
    WalkError { source: Option<String>, message: String },
    Entry {
        /// The entry's path, under the change layer.
        path: String,
        /// Metadata of the entry itself.
        source_meta: Result<Metadata, String>,
        /// Metadata probe of the same relative path in the target tree.
        target_meta: Result<Option<Metadata>, String>,
        /// Metadata probe of the same relative path in the snapshot.
        snapshot_meta: Result<Option<Metadata>, String>,
    },
}

/// The ghost image of a `WalkItem`.
pub enum WalkItemV {
    WalkError { source: Option<Seq<char>>, message: Seq<char> },
    Entry {
        path: Seq<char>,
        source_meta: Result<Metadata, Seq<char>>,
        target_meta: Result<Option<Metadata>, Seq<char>>,
        snapshot_meta: Result<Option<Metadata>, Seq<char>>,
    },
}

impl View for WalkItem {
    type V = WalkItemV;

    open spec fn view(&self) -> WalkItemV {
        match self {
            WalkItem::WalkError { source, message } => WalkItemV::WalkError {
                source: match source {
                    Some(p) => Some(p@),
                    None => None,
                },
                message: message@,
            },
            WalkItem::Entry { path, source_meta, target_meta, snapshot_meta } => WalkItemV::Entry {
                path: path@,
                source_meta: match source_meta {
                    Ok(m) => Ok(*m),
                    Err(e) => Err(e@),
                },
                target_meta: match target_meta {
                    Ok(m) => Ok(*m),
                    Err(e) => Err(e@),
                },
                snapshot_meta: match snapshot_meta {
                    Ok(m) => Ok(*m),
                    Err(e) => Err(e@),
                },
            },
        }
    }
}

/// Where one walk item lands in the plan.
pub enum Classified {
    /// A directory entry: directories are not reconciled on their own.
    Ignored,
    Updated(Update),
    Conflicted(Conflict),
    Skipped(Skip),
}

/// The ghost image of a `Classified`.
pub enum ClassifiedV {
    Ignored,
    Updated(UpdateV),
    Conflicted(ConflictV),
    Skipped(SkipV),
}

impl View for Classified {
    type V = ClassifiedV;

    open spec fn view(&self) -> ClassifiedV {
        match self {
            Classified::Ignored => ClassifiedV::Ignored,
            Classified::Updated(u) => ClassifiedV::Updated(u@),
            Classified::Conflicted(c) => ClassifiedV::Conflicted(c@),
            Classified::Skipped(s) => ClassifiedV::Skipped(s@),
        }
    }
}

/// The entry's path relative to the change layer's root: defined exactly
/// when the path continues under `root` with a separator.
pub open spec fn rel_path_of(root: Seq<char>, path: Seq<char>) -> Option<Seq<char>> {
    if path.len() > root.len() + 1 && path.subrange(0, root.len() + 1int) == root + "/"@ {
        Some(path.subrange(root.len() + 1int, path.len() as int))
    } else {
        None
    }
}

/// The three-way classification of a single walk item against the change
/// layer rooted at `root`:
/// - a walk error, an unreadable entry, a failed probe or a path outside
///   the root is a skip;
/// - a directory is ignored;
/// - a path absent from the target is an update;
/// - a path present in the target but absent from the snapshot is a
///   conflict (`NotInSnapshot`);
/// - a path present in both whose target metadata still matches the
///   snapshot's is an update;
/// - otherwise it is a conflict (`ModifiedInTarget`).
pub open spec fn classify_spec(root: Seq<char>, item: WalkItemV) -> ClassifiedV {
    match item {
        WalkItemV::WalkError { source, message } => ClassifiedV::Skipped(
            SkipV { source, reason: message },
        ),
        WalkItemV::Entry { path, source_meta, target_meta, snapshot_meta } => match source_meta {
            Err(e) => ClassifiedV::Skipped(SkipV { source: Some(path), reason: e }),
            Ok(sm) => {
                if sm.kind == FileKind::Dir {
                    ClassifiedV::Ignored
                } else {
                    match rel_path_of(root, path) {
                        None => ClassifiedV::Skipped(
                            SkipV {
                                source: Some(path),
                                reason: "entry is not under the changes directory"@,
                            },
                        ),
                        Some(rel) => match target_meta {
                            Err(e) => ClassifiedV::Skipped(
                                SkipV { source: Some(path), reason: e },
                            ),
                            Ok(None) => ClassifiedV::Updated(
                                UpdateV {
                                    rel_path: rel,
                                    source_metadata: sm,
                                    target_metadata: None,
                                },
                            ),
                            Ok(Some(tm)) => match snapshot_meta {
                                Err(e) => ClassifiedV::Skipped(
                                    SkipV { source: Some(path), reason: e },
                                ),
                                Ok(None) => ClassifiedV::Conflicted(
                                    ConflictV {
                                        rel_path: rel,
                                        reason: ConflictReason::NotInSnapshot,
                                        source_metadata: sm,
                                        target_metadata: tm,
                                    },
                                ),
                                Ok(Some(snm)) => {
                                    if metadata_matches_spec(tm, snm) {
                                        ClassifiedV::Updated(
                                            UpdateV {
                                                rel_path: rel,
                                                source_metadata: sm,
                                                target_metadata: Some(tm),
                                            },
                                        )
                                    } else {
                                        ClassifiedV::Conflicted(
                                            ConflictV {
                                                rel_path: rel,
                                                reason: ConflictReason::ModifiedInTarget,
                                                source_metadata: sm,
                                                target_metadata: tm,
                                            },
                                        )
                                    }
                                },
                            },
                        },
                    }
                }
            },
        },
    }
}

/// Clones an optional path.
fn clone_opt_string(s: &Option<String>) -> (r: Option<String>)
    ensures
        match (r, s) {
            (Some(a), Some(b)) => a@ == b@,
            (None, None) => true,
            _ => false,
        },
{
    match s {
        Some(p) => Some(p.clone()),
        None => None,
    }
}

/// Classifies one walk item against the change layer rooted at `root`.
pub fn classify_item(root: &str, item: &WalkItem) -> (r: Classified)
    ensures
        r@ == classify_spec(root@, item@),
{
    proof {
        reveal_strlit("/");
    }
    match item {
        WalkItem::WalkError { source, message } => Classified::Skipped(
            Skip { source: clone_opt_string(source), reason: message.clone() },
        ),
        WalkItem::Entry { path, source_meta, target_meta, snapshot_meta } => match source_meta {
            Err(e) => Classified::Skipped(Skip { source: Some(path.clone()), reason: e.clone() }),
            Ok(sm) => {
                let sm = *sm;
                if sm.kind == FileKind::Dir {
                    Classified::Ignored
                } else {
                    let mut root_slash = root.to_owned();
                    root_slash.append("/");
                    let stripped = crate::utils::strip_prefix(root_slash.as_str(), path.as_str());
                    let rel_opt: Option<String> = match stripped {
                        Some(rest) => {
                            if rest.as_str().unicode_len() == 0 {
                                proof {
                                    assert(path@ =~= root@ + "/"@);
                                }
                                None
                            } else {
                                Some(rest)
                            }
                        },
                        None => {
                            proof {
                                if rel_path_of(root@, path@) is Some {
                                    let rel = rel_path_of(root@, path@).unwrap();
                                    assert(path@.subrange(0, root@.len() + 1int) =~= root@ + "/"@);
                                    assert(path@ =~= (root@ + "/"@) + rel);
                                }
                            }
                            None
                        },
                    };
                    match rel_opt {
                        None => Classified::Skipped(
                            Skip {
                                source: Some(path.clone()),
                                reason: "entry is not under the changes directory".to_owned(),
                            },
                        ),
                        Some(rel) => {
                            proof {
                                assert(path@.subrange(0, root@.len() + 1int) =~= root@ + "/"@);
                                assert(rel@ =~= path@.subrange(
                                    root@.len() + 1int,
                                    path@.len() as int,
                                ));
                            }
                            match target_meta {
                                Err(e) => Classified::Skipped(
                                    Skip { source: Some(path.clone()), reason: e.clone() },
                                ),
                                Ok(None) => Classified::Updated(
                                    Update {
                                        rel_path: rel,
                                        source_metadata: sm,
                                        target_metadata: None,
                                    },
                                ),
                                Ok(Some(tm)) => {
                                    let tm = *tm;
                                    match snapshot_meta {
                                        Err(e) => Classified::Skipped(
                                            Skip { source: Some(path.clone()), reason: e.clone() },
                                        ),
                                        Ok(None) => Classified::Conflicted(
                                            Conflict {
                                                rel_path: rel,
                                                reason: ConflictReason::NotInSnapshot,
                                                source_metadata: sm,
                                                target_metadata: tm,
                                            },
                                        ),
                                        Ok(Some(snm)) => {
                                            if metadata_matches(&tm, snm) {
                                                Classified::Updated(
                                                    Update {
                                                        rel_path: rel,
                                                        source_metadata: sm,
                                                        target_metadata: Some(tm),
                                                    },
                                                )
                                            } else {
                                                Classified::Conflicted(
                                                    Conflict {
                                                        rel_path: rel,
                                                        reason: ConflictReason::ModifiedInTarget,
                                                        source_metadata: sm,
                                                        target_metadata: tm,
                                                    },
                                                )
                                            }
                                        },
                                    }
                                },
                            }
                        },
                    }
                }
            },
        },
    }
}

/// The plan that classifying `items` in order produces: each item's
/// classification is appended to the matching list.
pub open spec fn plan_spec(root: Seq<char>, items: Seq<WalkItemV>) -> PlanV
    decreases items.len(),
{
    if items.len() == 0 {
        PlanV { updates: Seq::empty(), conflicts: Seq::empty(), skips: Seq::empty() }
    } else {
        let p = plan_spec(root, items.drop_last());
        match classify_spec(root, items.last()) {
            ClassifiedV::Ignored => p,
            ClassifiedV::Updated(u) => PlanV { updates: p.updates.push(u), ..p },
            ClassifiedV::Conflicted(c) => PlanV { conflicts: p.conflicts.push(c), ..p },
            ClassifiedV::Skipped(s) => PlanV { skips: p.skips.push(s), ..p },
        }
    }
}

/// Enumerates every observation from a walk of the zone's change layer and
/// builds the plan for folding those changes into the target tree: updates
/// where the target is absent or still matches the snapshot baseline,
/// conflicts where it does not, skips for whatever could not be read.
pub fn plan_merging_zone_changes(changes_dir: &OvfsChangesDir, items: &Vec<WalkItem>) -> (r: Plan)
    ensures
        r@ == plan_spec(changes_dir@, items@.map_values(|x: WalkItem| x@)),
{
    let ghost root = changes_dir@;
    let ghost all = items@.map_values(|x: WalkItem| x@);
    let mut updates: Vec<Update> = Vec::new();
    let mut conflicts: Vec<Conflict> = Vec::new();
    let mut skips: Vec<Skip> = Vec::new();
    let ghost mut gu: Seq<UpdateV> = Seq::empty();
    let ghost mut gc: Seq<ConflictV> = Seq::empty();
    let ghost mut gs: Seq<SkipV> = Seq::empty();
    let n = items.len();
    let mut i: usize = 0;
    proof {
        assert(all.subrange(0, 0) =~= Seq::<WalkItemV>::empty());
    }
    while i < n
        invariant
            0 <= i <= n,
            n == items@.len(),
            root == changes_dir@,
            all == items@.map_values(|x: WalkItem| x@),
            updates@.len() == gu.len(),
            conflicts@.len() == gc.len(),
            skips@.len() == gs.len(),
            forall|k: int| 0 <= k < gu.len() ==> gu[k] == #[trigger] updates@[k]@,
            forall|k: int| 0 <= k < gc.len() ==> gc[k] == #[trigger] conflicts@[k]@,
            forall|k: int| 0 <= k < gs.len() ==> gs[k] == #[trigger] skips@[k]@,
            gu == plan_spec(root, all.subrange(0, i as int)).updates,
            gc == plan_spec(root, all.subrange(0, i as int)).conflicts,
            gs == plan_spec(root, all.subrange(0, i as int)).skips,
        decreases n - i,
    {
        let item = &items[i];
        let ghost prev = all.subrange(0, i as int);
        let ghost cur = all.subrange(0, i + 1);
        proof {
            assert(item@ == all[i as int]);
            assert(cur.drop_last() =~= prev);
            assert(cur.last() == all[i as int]);
        }
        let root_str = changes_dir.as_str();
        let cls = classify_item(root_str, item);
        proof {
            assert(root_str@ == root);
            assert(cls@ == classify_spec(root_str@, item@));
            assert(cls@ == classify_spec(root, all[i as int]));
        }
        match cls {
            Classified::Ignored => {
                proof {
                    assert(plan_spec(root, cur) == plan_spec(root, prev));
                }
            },
            Classified::Updated(u) => {
                proof {
                    assert(cls@ == ClassifiedV::Updated(u@));
                    gu = gu.push(u@);
                    assert(plan_spec(root, cur).updates == plan_spec(root, prev).updates.push(u@));
                    assert(plan_spec(root, cur).conflicts == plan_spec(root, prev).conflicts);
                    assert(plan_spec(root, cur).skips == plan_spec(root, prev).skips);
                }
                updates.push(u);
            },
            Classified::Conflicted(c) => {
                proof {
                    assert(cls@ == ClassifiedV::Conflicted(c@));
                    gc = gc.push(c@);
                    assert(plan_spec(root, cur).conflicts == plan_spec(
                        root,
                        prev,
                    ).conflicts.push(c@));
                    assert(plan_spec(root, cur).updates == plan_spec(root, prev).updates);
                    assert(plan_spec(root, cur).skips == plan_spec(root, prev).skips);
                }
                conflicts.push(c);
            },
            Classified::Skipped(s) => {
                proof {
                    assert(cls@ == ClassifiedV::Skipped(s@));
                    gs = gs.push(s@);
                    assert(plan_spec(root, cur).skips == plan_spec(root, prev).skips.push(s@));
                    assert(plan_spec(root, cur).updates == plan_spec(root, prev).updates);
                    assert(plan_spec(root, cur).conflicts == plan_spec(root, prev).conflicts);
                }
                skips.push(s);
            },
        }
        i += 1;
        proof {
            assert(all.subrange(0, i as int) == cur);
        }
    }
    proof {
        assert(all.subrange(0, n as int) =~= all);
        assert(updates@.map_values(|u: Update| u@) =~= gu);
        assert(conflicts@.map_values(|c: Conflict| c@) =~= gc);
        assert(skips@.map_values(|s: Skip| s@) =~= gs);
    }
    Plan { updates, conflicts, skips }
}

/// How many walk items classification sets aside as directories.
pub open spec fn ignored_count(root: Seq<char>, items: Seq<WalkItemV>) -> int
    decreases items.len(),
{
    if items.len() == 0 {
        0
    } else {
        ignored_count(root, items.drop_last()) + if classify_spec(root, items.last())
            is Ignored {
            1int
        } else {
            0int
        }
    }
}

/// Law: the plan accounts for every walked path. Each item lands in exactly
/// one of the three lists — except directories, which are not reconciled on
/// their own — so nothing the walk saw goes unreported.
pub proof fn lemma_plan_covers_every_path(root: Seq<char>, items: Seq<WalkItemV>)
    ensures
        plan_spec(root, items).updates.len() + plan_spec(root, items).conflicts.len() + plan_spec(
            root,
            items,
        ).skips.len() + ignored_count(root, items) == items.len(),
    decreases items.len(),
{
    if items.len() > 0 {
        lemma_plan_covers_every_path(root, items.drop_last());
    }
}

/// The three-way classification of a single path, spelled out. For a
/// readable non-directory entry under the change layer whose target and
/// snapshot probes both succeed:
/// - target absent: an update;
/// - target present, path absent from the snapshot: a conflict, because the
///   path was not there when the zone was created;
/// - target present, path in the snapshot, target metadata equal to the
///   snapshot's: an update, the target is unmodified since the snapshot;
/// - target present, path in the snapshot, metadata differing: a conflict,
///   the target was modified independently.
pub proof fn lemma_three_way_classification(
    root: Seq<char>,
    path: Seq<char>,
    sm: Metadata,
    target: Option<Metadata>,
    snapshot: Option<Metadata>,
)
    requires
        sm.kind != FileKind::Dir,
        rel_path_of(root, path) is Some,
    ensures
        ({
            let rel = rel_path_of(root, path).unwrap();
            let outcome = classify_spec(
                root,
                WalkItemV::Entry {
                    path,
                    source_meta: Ok(sm),
                    target_meta: Ok(target),
                    snapshot_meta: Ok(snapshot),
                },
            );
            match target {
                None => outcome == ClassifiedV::Updated(
                    UpdateV { rel_path: rel, source_metadata: sm, target_metadata: None },
                ),
                Some(tm) => match snapshot {
                    None => outcome == ClassifiedV::Conflicted(
                        ConflictV {
                            rel_path: rel,
                            reason: ConflictReason::NotInSnapshot,
                            source_metadata: sm,
                            target_metadata: tm,
                        },
                    ),
                    Some(snm) => if metadata_matches_spec(tm, snm) {
                        outcome == ClassifiedV::Updated(
                            UpdateV {
                                rel_path: rel,
                                source_metadata: sm,
                                target_metadata: Some(tm),
                            },
                        )
                    } else {
                        outcome == ClassifiedV::Conflicted(
                            ConflictV {
                                rel_path: rel,
                                reason: ConflictReason::ModifiedInTarget,
                                source_metadata: sm,
                                target_metadata: tm,
                            },
                        )
                    },
                },
            }
        }),
{
}

/// The target tree after applying the given updates in order: each update
/// writes its source metadata at its relative path.
pub open spec fn apply_updates_spec(
    tree: Map<Seq<char>, Metadata>,
    ups: Seq<UpdateV>,
) -> Map<Seq<char>, Metadata>
    decreases ups.len(),
{
    if ups.len() == 0 {
        tree
    } else {
        apply_updates_spec(tree, ups.drop_last()).insert(
            ups.last().rel_path,
            ups.last().source_metadata,
        )
    }
}

/// Applying a plan's updates brings the target tree in sync with the change
/// layer: afterwards every updated path exists in the target and carries
/// exactly the metadata of the zone's copy. (The walk visits each path at
/// most once, so the updates' paths are distinct.)
pub proof fn lemma_apply_updates_syncs_target(
    tree: Map<Seq<char>, Metadata>,
    ups: Seq<UpdateV>,
    k: int,
)
    requires
        0 <= k < ups.len(),
        forall|a: int, b: int|
            0 <= a < b < ups.len() ==> ups[a].rel_path != ups[b].rel_path,
    ensures
        apply_updates_spec(tree, ups).dom().contains(ups[k].rel_path),
        apply_updates_spec(tree, ups)[ups[k].rel_path] == ups[k].source_metadata,
    decreases ups.len(),
{
    if k < ups.len() - 1 {
        assert(ups.drop_last()[k] == ups[k]);
        lemma_apply_updates_syncs_target(tree, ups.drop_last(), k);
        assert(ups[k].rel_path != ups.last().rel_path);
    }
}

/// Re-classification of a path that an applied update has brought in sync:
/// once the target's copy and the baseline agree (as they do after the
/// update is applied and a fresh snapshot of the target is taken as the new
/// baseline), the path classifies as an update again, never as a conflict.
/// Against the *original* baseline this does not hold: a target rewritten
/// by an update no longer matches an older snapshot, so a second run of the
/// plan against the unchanged baseline reports such paths as conflicts
/// rather than dropping them.
pub proof fn lemma_reclassify_in_sync(root: Seq<char>, path: Seq<char>, sm: Metadata, m: Metadata)
    requires
        sm.kind != FileKind::Dir,
        rel_path_of(root, path) is Some,
    ensures
        classify_spec(
            root,
            WalkItemV::Entry {
                path,
                source_meta: Ok(sm),
                target_meta: Ok(Some(m)),
                snapshot_meta: Ok(Some(m)),
            },
        ) == ClassifiedV::Updated(
            UpdateV {
                rel_path: rel_path_of(root, path).unwrap(),
                source_metadata: sm,
                target_metadata: Some(m),
            },
        ),
{
}

/// The fixed argument list of the file-copying command used to fold one
/// change back into the target: preserve all attributes, use copy-on-write
/// clones where the filesystem supports them, and never dereference source
/// symlinks.
pub fn copy_file_args(source: &str, target: &str) -> (r: Vec<String>)
    ensures
        r@.len() == 5,
        r@[0]@ == "--archive"@,
        r@[1]@ == "--reflink=auto"@,
        r@[2]@ == "--no-dereference"@,
        r@[3]@ == source@,
        r@[4]@ == target@,
{
    let mut v: Vec<String> = Vec::new();
    v.push("--archive".to_owned());
    v.push("--reflink=auto".to_owned());
    v.push("--no-dereference".to_owned());
    v.push(source.to_owned());
    v.push(target.to_owned());
    v
}

/// The source and target paths for applying the change at `rel_path`: the
/// zone's copy under the change layer, and the matching path under the
/// target tree.
pub fn copy_from_changes_dir(
    rel_path: &str,
    changes_dir: &OvfsChangesDir,
    target_dir: &str,
) -> (r: (String, String))
    ensures
        r.0@ == crate::paths::join_spec(changes_dir@, rel_path@),
        r.1@ == crate::paths::join_spec(target_dir@, rel_path@),
{
    let source = crate::paths::path_join(changes_dir.as_str(), rel_path);
    let target = crate::paths::path_join(target_dir, rel_path);
    (source, target)
}

impl Update {
    /// The copy command arguments that apply this update onto the target.
    pub fn apply_args(&self, changes_dir: &OvfsChangesDir, target_dir: &str) -> (r: Vec<String>)
        ensures
            r@.len() == 5,
            r@[0]@ == "--archive"@,
            r@[1]@ == "--reflink=auto"@,
            r@[2]@ == "--no-dereference"@,
            r@[3]@ == crate::paths::join_spec(changes_dir@, self.rel_path@),
            r@[4]@ == crate::paths::join_spec(target_dir@, self.rel_path@),
    {
        let (source, target) = copy_from_changes_dir(self.rel_path.as_str(), changes_dir, target_dir);
        copy_file_args(source.as_str(), target.as_str())
    }
}

impl Conflict {
    /// The copy command arguments that resolve this conflict in the zone's
    /// favour, overwriting the target's copy.
    pub fn apply_args(&self, changes_dir: &OvfsChangesDir, target_dir: &str) -> (r: Vec<String>)
        ensures
            r@.len() == 5,
            r@[0]@ == "--archive"@,
            r@[1]@ == "--reflink=auto"@,
            r@[2]@ == "--no-dereference"@,
            r@[3]@ == crate::paths::join_spec(changes_dir@, self.rel_path@),
            r@[4]@ == crate::paths::join_spec(target_dir@, self.rel_path@),
    {
        let (source, target) = copy_from_changes_dir(self.rel_path.as_str(), changes_dir, target_dir);
        copy_file_args(source.as_str(), target.as_str())
    }
}

} // verus!
