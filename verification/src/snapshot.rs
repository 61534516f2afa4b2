//! Snapshots: immutable, named copies of a source tree, used as the
//! read-only lower layer of every zone built from them.
//!
//! The copy itself is made by an attribute-preserving, copy-on-write-capable
//! file copy run outside this crate; what to copy, where to, and when the
//! name is already taken are decided here.

use vstd::prelude::*;

use crate::paths::MzrDir;
use crate::paths::SnapDir;
use crate::paths::SnapName;
use crate::paths::path_join;
use crate::top_dirs::TopDirs;

verus! {

/// Why a snapshot could not be taken.
pub enum SnapError {
    /// A snapshot of this name already exists.
    AlreadyExists,
}

/// The plan for taking a snapshot: the parent directory to create, the
/// snapshot directory the copy lands at, and the exact arguments of the
/// copying command. Nothing is copied before the plan exists, so a refused
/// plan changes nothing on disk.
pub struct SnapshotSteps {
    /// Parent of all snapshot directories: created first, with any missing
    /// ancestors.
    pub snap_parent: String,
    /// Where the copy lands.
    pub snap_dir: SnapDir,
    /// Arguments of the copying command: preserve all attributes, use
    /// copy-on-write clones where the filesystem supports them, never
    /// overwrite, never copy into an existing directory, then the source
    /// and the destination.
    pub copy_args: Vec<String>,
}

/// Decides snapshot creation from a source directory. A name may be used
/// only once: when the snapshot directory already exists, creation fails
/// and no steps are produced.
pub fn create(
    source_dir: &str,
    mzr_dir: &MzrDir,
    snap_name: &SnapName,
    snap_dir_exists: bool,
) -> (r: Result<SnapshotSteps, SnapError>)
    ensures
        r is Err <==> snap_dir_exists,
        r matches Err(e) ==> e is AlreadyExists,
        r matches Ok(steps) ==> {
            &&& steps.snap_parent@ == mzr_dir@ + "/"@ + "snap"@
            &&& steps.snap_dir@ == mzr_dir@ + "/snap/"@ + snap_name@
            &&& steps.copy_args@.len() == 6
            &&& steps.copy_args@[0]@ == "--archive"@
            &&& steps.copy_args@[1]@ == "--reflink=auto"@
            &&& steps.copy_args@[2]@ == "--no-clobber"@
            &&& steps.copy_args@[3]@ == "--no-target-directory"@
            &&& steps.copy_args@[4]@ == source_dir@
            &&& steps.copy_args@[5]@ == steps.snap_dir@
        },
{
    if snap_dir_exists {
        return Err(SnapError::AlreadyExists);
    }
    let snap_parent = path_join(mzr_dir.as_str(), "snap");
    let snap_dir = SnapDir::new(mzr_dir, snap_name);
    let mut copy_args: Vec<String> = Vec::new();
    copy_args.push("--archive".to_owned());
    copy_args.push("--reflink=auto".to_owned());
    copy_args.push("--no-clobber".to_owned());
    copy_args.push("--no-target-directory".to_owned());
    copy_args.push(source_dir.to_owned());
    copy_args.push(snap_dir.as_str().to_owned());
    Ok(SnapshotSteps { snap_parent, snap_dir, copy_args })
}

/// Decides a snapshot of the user's work directory, the usual case.
pub fn of_workdir(top_dirs: &TopDirs, snap_name: &SnapName, snap_dir_exists: bool) -> (r: Result<
    SnapshotSteps,
    SnapError,
>)
    ensures
        r is Err <==> snap_dir_exists,
        r matches Err(e) ==> e is AlreadyExists,
        r matches Ok(steps) ==> {
            &&& steps.snap_parent@ == top_dirs.mzr_dir@ + "/"@ + "snap"@
            &&& steps.snap_dir@ == top_dirs.mzr_dir@ + "/snap/"@ + snap_name@
            &&& steps.copy_args@.len() == 6
            &&& steps.copy_args@[4]@ == top_dirs.user_work_dir@
            &&& steps.copy_args@[5]@ == steps.snap_dir@
        },
{
    create(top_dirs.user_work_dir.as_str(), &top_dirs.mzr_dir, snap_name, snap_dir_exists)
}

} // verus!
