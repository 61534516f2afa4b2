//! Zones: named sandboxes built from an immutable snapshot and a writable
//! change layer, composed by an overlay mount.
//!
//! A zone's info record on disk is the durable source of truth for which
//! snapshot it is built on; the in-memory `Zone` is reconstructed from it.
//! The functions here decide what zone creation and loading do — which
//! directories exist, in what order they are made, and when creation must be
//! refused — while the directory and mount operations themselves are
//! performed outside, following the plans computed here.

use vstd::prelude::*;

use crate::paths::MzrDir;
use crate::paths::OvfsChangesDir;
use crate::paths::OvfsMountDir;
use crate::paths::OvfsWorkDir;
use crate::paths::SnapDir;
use crate::paths::SnapName;
use crate::paths::UserWorkDir;
use crate::paths::ZoneDir;
use crate::paths::ZoneInfoFile;
use crate::paths::ZoneName;
use crate::paths::path_join;

verus! {

/// The persisted description of a zone: the snapshot it is built on and
/// when it was created, in whole seconds since the epoch.
pub struct ZoneInfo {
    pub snapshot: SnapName,
    pub creation_time: i64,
}

/// Relies on std's `SystemTime::now`: the current wall-clock time, taken as
/// whole seconds since the epoch, negative for a clock set before it and
/// clamped at the extremes. Nothing is promised of the clock, and the call
/// returns on every reading of it.
#[verifier::external_body]
fn now_timestamp() -> i64 {
    match std::time::SystemTime::now().duration_since(std::time::UNIX_EPOCH) {
        Ok(since) => i64::try_from(since.as_secs()).unwrap_or(i64::MAX),
        Err(before) => -i64::try_from(before.duration().as_secs()).unwrap_or(i64::MAX),
    }
}

impl ZoneInfo {
    /// An info record with an explicit creation time.
    pub fn with_time(snapshot: SnapName, creation_time: i64) -> (r: ZoneInfo)
        ensures
            r.snapshot@ == snapshot@,
            r.creation_time == creation_time,
    {
        ZoneInfo { snapshot, creation_time }
    }

    /// An info record stamped with the current time.
    pub fn now(snapshot: SnapName) -> (r: ZoneInfo)
        ensures
            r.snapshot@ == snapshot@,
    {
        let creation_time = now_timestamp();
        ZoneInfo { snapshot, creation_time }
    }
}

/// A zone: its name, its four directories, the snapshot directory it reads
/// from, and its persisted info record.
pub struct Zone {
    pub name: ZoneName,
    pub zone_dir: ZoneDir,
    pub snap_dir: SnapDir,
    pub ovfs_changes_dir: OvfsChangesDir,
    pub ovfs_work_dir: OvfsWorkDir,
    pub ovfs_mount_dir: OvfsMountDir,
    pub info: ZoneInfo,
}

impl Zone {
    /// The zone's directories sit at their places in the layout under the
    /// given metadata root, and the snapshot directory is the one its info
    /// record names.
    pub open spec fn wf(&self, mzr_dir: Seq<char>) -> bool {
        &&& self.zone_dir@ == mzr_dir + "/zone/"@ + self.name@
        &&& self.snap_dir@ == mzr_dir + "/snap/"@ + self.info.snapshot@
        &&& self.ovfs_changes_dir@ == self.zone_dir@ + "/changes"@
        &&& self.ovfs_work_dir@ == self.zone_dir@ + "/ovfs-work"@
        &&& self.ovfs_mount_dir@ == self.zone_dir@ + "/mount"@
    }

    /// Rebuilds the in-memory zone from its name and its persisted info
    /// record, the pure part of loading a zone from disk.
    pub fn load_from_info(mzr_dir: &MzrDir, zone_name: ZoneName, info: ZoneInfo) -> (z: Zone)
        ensures
            z.wf(mzr_dir@),
            z.name@ == zone_name@,
            z.info.snapshot@ == info.snapshot@,
            z.info.creation_time == info.creation_time,
    {
        let zone_dir = ZoneDir::new(mzr_dir, &zone_name);
        let snap_dir = SnapDir::new(mzr_dir, &info.snapshot);
        let ovfs_changes_dir = OvfsChangesDir::new(&zone_dir);
        let ovfs_work_dir = OvfsWorkDir::new(&zone_dir);
        let ovfs_mount_dir = OvfsMountDir::new(&zone_dir);
        Zone { name: zone_name, zone_dir, snap_dir, ovfs_changes_dir, ovfs_work_dir, ovfs_mount_dir, info }
    }
}

/// Why a zone could not be created.
pub enum CreateError {
    /// The named snapshot, which the zone would be built on, does not exist.
    SnapshotMissing(SnapName),
    /// A zone of this name already exists.
    ZoneExists,
    /// A directory could not be created; the text is the underlying error.
    Io(String),
}

/// The plan for creating a zone: the directories to make, in order, the
/// info record to write, and the zone that exists once all of it is done.
/// Nothing may be created before the plan exists, so a refused plan leaves
/// no zone directories on disk.
pub struct CreateSteps {
    /// Parent of all zone directories: created first, together with any of
    /// its missing ancestors.
    pub zone_parent: String,
    /// The zone's own directory: created second, and creation must fail if
    /// it already exists.
    pub zone_dir: ZoneDir,
    /// The change layer, the overlay scratch directory and the mount
    /// target: created third, in this order.
    pub changes_dir: OvfsChangesDir,
    pub work_dir: OvfsWorkDir,
    pub mount_dir: OvfsMountDir,
    /// The info record: written last, at this path.
    pub info_file: ZoneInfoFile,
    /// The zone that all of the above brings into being.
    pub zone: Zone,
}

impl Zone {
    /// Decides zone creation, for every zone and snapshot name and every
    /// state of the snapshot directory. Law: a zone whose referenced
    /// snapshot does not exist cannot be created — creation fails exactly
    /// then, the error names the missing snapshot, and the refusal produces
    /// no steps, so the snapshot check precedes every directory creation and
    /// nothing of the zone is left on disk. The caller reports whether the
    /// snapshot directory exists and performs the steps only of an `Ok`
    /// plan, in their order.
    pub fn plan_create(
        mzr_dir: &MzrDir,
        zone_name: &ZoneName,
        snap_name: &SnapName,
        snap_dir_exists: bool,
    ) -> (r: Result<CreateSteps, CreateError>)
        ensures
            r is Err <==> !snap_dir_exists,
            r matches Err(e) ==> (e matches CreateError::SnapshotMissing(n) && n@ == snap_name@),
            r matches Ok(steps) ==> {
                &&& steps.zone_parent@ == mzr_dir@ + "/"@ + "zone"@
                &&& steps.zone_dir@ == mzr_dir@ + "/zone/"@ + zone_name@
                &&& steps.changes_dir@ == steps.zone_dir@ + "/changes"@
                &&& steps.work_dir@ == steps.zone_dir@ + "/ovfs-work"@
                &&& steps.mount_dir@ == steps.zone_dir@ + "/mount"@
                &&& steps.info_file@ == steps.zone_dir@ + "/info.json"@
                &&& steps.zone.wf(mzr_dir@)
                &&& steps.zone.name@ == zone_name@
                &&& steps.zone.info.snapshot@ == snap_name@
            },
    {
        if !snap_dir_exists {
            return Err(CreateError::SnapshotMissing(snap_name.dup()));
        }
        let zone_parent = path_join(mzr_dir.as_str(), "zone");
        let zone_dir = ZoneDir::new(mzr_dir, zone_name);
        let changes_dir = OvfsChangesDir::new(&zone_dir);
        let work_dir = OvfsWorkDir::new(&zone_dir);
        let mount_dir = OvfsMountDir::new(&zone_dir);
        let info_file = ZoneInfoFile::new(&zone_dir);
        let info = ZoneInfo::now(snap_name.dup());
        let zone = Zone::load_from_info(mzr_dir, zone_name.dup(), info);
        Ok(CreateSteps { zone_parent, zone_dir, changes_dir, work_dir, mount_dir, info_file, zone })
    }

    /// Interprets a failure to create the zone directory itself: if the
    /// directory turned out to exist, the zone already exists; anything else
    /// is an unexpected I/O failure, reported with its error text.
    pub fn classify_zone_dir_error(zone_dir_exists: bool, message: String) -> (r: CreateError)
        ensures
            zone_dir_exists ==> r is ZoneExists,
            !zone_dir_exists ==> (r matches CreateError::Io(m) && m@ == message@),
    {
        if zone_dir_exists {
            CreateError::ZoneExists
        } else {
            CreateError::Io(message)
        }
    }
}

/// An overlay mount, fully specified: one read-only lower layer, one
/// writable upper layer, one scratch directory on the same filesystem as
/// the upper layer, and the directory the composed view is mounted at.
pub struct OverlaySpec {
    pub lower: SnapDir,
    pub upper: OvfsChangesDir,
    pub work: OvfsWorkDir,
    pub target: OvfsMountDir,
}

/// A bind mount, fully specified: the existing directory whose contents are
/// projected, and the path they become visible at.
pub struct BindSpec {
    pub source: OvfsMountDir,
    pub target: UserWorkDir,
}

impl Zone {
    /// The overlay mount that composes this zone's view: the snapshot below,
    /// the change layer on top, scratch space beside it, all mounted at the
    /// zone's private mount directory. The same zone always yields the same
    /// mount, so repeating it composes nothing new.
    pub fn overlay_spec(&self) -> (r: OverlaySpec)
        ensures
            r.lower@ == self.snap_dir@,
            r.upper@ == self.ovfs_changes_dir@,
            r.work@ == self.ovfs_work_dir@,
            r.target@ == self.ovfs_mount_dir@,
    {
        OverlaySpec {
            lower: self.snap_dir.dup(),
            upper: self.ovfs_changes_dir.dup(),
            work: self.ovfs_work_dir.dup(),
            target: self.ovfs_mount_dir.dup(),
        }
    }

    /// The projection of this zone's composed view onto the user's work
    /// directory, performed inside the anchor process's own namespace.
    pub fn bind_spec(&self, user_work_dir: &UserWorkDir) -> (r: BindSpec)
        ensures
            r.source@ == self.ovfs_mount_dir@,
            r.target@ == user_work_dir@,
    {
        BindSpec { source: self.ovfs_mount_dir.dup(), target: user_work_dir.dup() }
    }
}

} // verus!
