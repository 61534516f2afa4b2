//! Typed paths for the directory layout, and validated zone/snapshot names.
//!
//! Paths are modelled as strings joined with `/`. Each location in the layout
//! gets its own newtype, so that a snapshot directory cannot be passed where
//! a zone's changes directory is expected. The layout, relative to the
//! metadata root: `zone/<name>/info.json`, `zone/<name>/changes/`,
//! `zone/<name>/ovfs-work/`, `zone/<name>/mount/`, `snap/<name>/`,
//! `daemon/process.pid`, `daemon/log`, `daemon/socket`.

use vstd::prelude::*;
use vstd::string::StrSliceExecFns;
use vstd::string::StringExecFns;

verus! {

/// The view of a path joined from `base` and one more segment.
pub open spec fn join_spec(base: Seq<char>, seg: Seq<char>) -> Seq<char> {
    base + "/"@ + seg
}

/// Joins one path segment onto a base path with a `/` separator.
pub fn path_join(base: &str, seg: &str) -> (r: String)
    ensures
        r@ == join_spec(base@, seg@),
{
    let mut s = base.to_owned();
    s.append("/");
    s.append(seg);
    s
}

/// Characters allowed in zone and snapshot names: printable ASCII without
/// the path separator, quotes or backslashes, so a name is always a single
/// path segment and passes through the wire protocol unescaped.
pub open spec fn is_name_char(c: char) -> bool {
    0x21 <= c as u32 <= 0x7e && c != '/' && c != '"' && c != '\\'
}

/// A valid name is nonempty, made of name characters, and is not one of the
/// relative path segments `.` and `..`.
pub open spec fn valid_name(s: Seq<char>) -> bool {
    &&& s.len() > 0
    &&& (forall|i: int| 0 <= i < s.len() ==> is_name_char(#[trigger] s[i]))
    &&& s != "."@
    &&& s != ".."@
}

/// Checks every character of `s` against `is_name_char`.
fn all_name_chars(s: &str) -> (r: bool)
    ensures
        r == (forall|i: int| 0 <= i < s@.len() ==> is_name_char(#[trigger] s@[i])),
{
    let len = s.unicode_len();
    let mut i: usize = 0;
    while i < len
        invariant
            0 <= i <= len,
            len == s@.len(),
            forall|j: int| 0 <= j < i ==> is_name_char(#[trigger] s@[j]),
        decreases len - i,
    {
        let c = s.get_char(i);
        let v = c as u32;
        if v < 0x21 || v > 0x7e || c == '/' || c == '"' || c == '\\' {
            return false;
        }
        i += 1;
    }
    true
}

/// Checks a candidate name, returning its characters' verdict.
fn check_name(name: &str) -> (r: bool)
    ensures
        r == valid_name(name@),
{
    proof {
        reveal_strlit(".");
        reveal_strlit("..");
    }
    let len = name.unicode_len();
    if len == 0 {
        return false;
    }
    if !all_name_chars(name) {
        return false;
    }
    if len == 1 && name.get_char(0) == '.' {
        proof {
            assert(name@ =~= "."@);
        }
        return false;
    }
    if len == 2 && name.get_char(0) == '.' && name.get_char(1) == '.' {
        proof {
            assert(name@ =~= ".."@);
        }
        return false;
    }
    true
}

/// The reason a zone or snapshot name was rejected.
#[derive(Debug)]
pub struct InvalidName {
    /// The offending name as given.
    pub name: String,
}

/// Name of a zone: a validated, printable identifier usable as a path
/// segment and as a registry key.
pub struct ZoneName {
    name: String,
}

impl View for ZoneName {
    type V = Seq<char>;

    closed spec fn view(&self) -> Seq<char> {
        self.name@
    }
}

impl ZoneName {
    /// Validity of the name this value carries.
    pub open spec fn wf(&self) -> bool {
        valid_name(self@)
    }

    /// Accepts exactly the strings that satisfy `valid_name`.
    pub fn new(name: String) -> (r: Result<ZoneName, InvalidName>)
        ensures
            match r {
                Ok(z) => valid_name(name@) && z@ == name@ && z.wf(),
                Err(e) => !valid_name(name@) && e.name@ == name@,
            },
    {
        if check_name(name.as_str()) {
            Ok(ZoneName { name })
        } else {
            Err(InvalidName { name })
        }
    }

    /// The name's characters.
    pub fn as_str(&self) -> (r: &str)
        ensures
            r@ == self@,
    {
        self.name.as_str()
    }

    /// A copy of this name.
    pub fn dup(&self) -> (r: ZoneName)
        ensures
            r@ == self@,
    {
        ZoneName { name: self.name.clone() }
    }
}

/// Name of a snapshot: same validation as zone names.
pub struct SnapName {
    name: String,
}

impl View for SnapName {
    type V = Seq<char>;

    closed spec fn view(&self) -> Seq<char> {
        self.name@
    }
}

impl SnapName {
    /// Validity of the name this value carries.
    pub open spec fn wf(&self) -> bool {
        valid_name(self@)
    }

    /// Accepts exactly the strings that satisfy `valid_name`.
    pub fn new(name: String) -> (r: Result<SnapName, InvalidName>)
        ensures
            match r {
                Ok(s) => valid_name(name@) && s@ == name@ && s.wf(),
                Err(e) => !valid_name(name@) && e.name@ == name@,
            },
    {
        if check_name(name.as_str()) {
            Ok(SnapName { name })
        } else {
            Err(InvalidName { name })
        }
    }

    /// The name's characters.
    pub fn as_str(&self) -> (r: &str)
        ensures
            r@ == self@,
    {
        self.name.as_str()
    }

    /// A copy of this name.
    pub fn dup(&self) -> (r: SnapName)
        ensures
            r@ == self@,
    {
        SnapName { name: self.name.clone() }
    }
}

/// Path to the user's work directory: the target that a zone's overlay is
/// projected onto.
pub struct UserWorkDir {
    path: String,
}

impl View for UserWorkDir {
    type V = Seq<char>;

    closed spec fn view(&self) -> Seq<char> {
        self.path@
    }
}

impl UserWorkDir {
    /// Wraps the given directory path.
    pub fn new(work_dir: String) -> (r: UserWorkDir)
        ensures
            r@ == work_dir@,
    {
        UserWorkDir { path: work_dir }
    }

    /// The path's characters.
    pub fn as_str(&self) -> (r: &str)
        ensures
            r@ == self@,
    {
        self.path.as_str()
    }

    /// A copy of this path.
    pub fn dup(&self) -> (r: UserWorkDir)
        ensures
            r@ == self@,
    {
        UserWorkDir { path: self.path.clone() }
    }
}

/// Path to the metadata root: the work directory's name with `.mzr` appended,
/// a sibling of the work directory itself.
pub struct MzrDir {
    path: String,
}

impl View for MzrDir {
    type V = Seq<char>;

    closed spec fn view(&self) -> Seq<char> {
        self.path@
    }
}

impl MzrDir {
    /// Builds the metadata root path beside `work_dir`: the directory's name
    /// with `.mzr` appended, trailing separators ignored.
    pub fn new(work_dir: &UserWorkDir) -> (r: MzrDir)
        requires
            crate::utils::suffixable(work_dir@),
        ensures
            r@ == crate::utils::trim_slashes(work_dir@) + ".mzr"@,
    {
        MzrDir { path: crate::utils::add_suffix_to_path(work_dir.as_str(), ".mzr") }
    }

    /// The path's characters.
    pub fn as_str(&self) -> (r: &str)
        ensures
            r@ == self@,
    {
        self.path.as_str()
    }

    /// A copy of this path.
    pub fn dup(&self) -> (r: MzrDir)
        ensures
            r@ == self@,
    {
        MzrDir { path: self.path.clone() }
    }
}

/// Path to a zone's directory under the metadata root.
pub struct ZoneDir {
    path: String,
}

impl View for ZoneDir {
    type V = Seq<char>;

    closed spec fn view(&self) -> Seq<char> {
        self.path@
    }
}

impl ZoneDir {
    /// The zone's directory: `<mzr>/zone/<name>`.
    pub fn new(mzr_dir: &MzrDir, zone_name: &ZoneName) -> (r: ZoneDir)
        ensures
            r@ == mzr_dir@ + "/zone/"@ + zone_name@,
    {
        let mut path = mzr_dir.as_str().to_owned();
        path.append("/zone/");
        path.append(zone_name.as_str());
        ZoneDir { path }
    }

    /// The path's characters.
    pub fn as_str(&self) -> (r: &str)
        ensures
            r@ == self@,
    {
        self.path.as_str()
    }

    /// A copy of this path.
    pub fn dup(&self) -> (r: ZoneDir)
        ensures
            r@ == self@,
    {
        ZoneDir { path: self.path.clone() }
    }
}

/// Path to a zone's persisted info record.
pub struct ZoneInfoFile {
    path: String,
}

impl View for ZoneInfoFile {
    type V = Seq<char>;

    closed spec fn view(&self) -> Seq<char> {
        self.path@
    }
}

impl ZoneInfoFile {
    /// The info record: `<zone dir>/info.json`.
    pub fn new(zone_dir: &ZoneDir) -> (r: ZoneInfoFile)
        ensures
            r@ == zone_dir@ + "/info.json"@,
    {
        let mut path = zone_dir.as_str().to_owned();
        path.append("/info.json");
        ZoneInfoFile { path }
    }

    /// The path's characters.
    pub fn as_str(&self) -> (r: &str)
        ensures
            r@ == self@,
    {
        self.path.as_str()
    }
}

/// Path to a snapshot's directory under the metadata root.
pub struct SnapDir {
    path: String,
}

impl View for SnapDir {
    type V = Seq<char>;

    closed spec fn view(&self) -> Seq<char> {
        self.path@
    }
}

impl SnapDir {
    /// The snapshot's directory: `<mzr>/snap/<name>`.
    pub fn new(mzr_dir: &MzrDir, snap_name: &SnapName) -> (r: SnapDir)
        ensures
            r@ == mzr_dir@ + "/snap/"@ + snap_name@,
    {
        let mut path = mzr_dir.as_str().to_owned();
        path.append("/snap/");
        path.append(snap_name.as_str());
        SnapDir { path }
    }

    /// The path's characters.
    pub fn as_str(&self) -> (r: &str)
        ensures
            r@ == self@,
    {
        self.path.as_str()
    }

    /// A copy of this path.
    pub fn dup(&self) -> (r: SnapDir)
        ensures
            r@ == self@,
    {
        SnapDir { path: self.path.clone() }
    }
}

/// Path to the staging directory used while a snapshot is being taken.
pub struct SnapTmpDir {
    path: String,
}

impl View for SnapTmpDir {
    type V = Seq<char>;

    closed spec fn view(&self) -> Seq<char> {
        self.path@
    }
}

impl SnapTmpDir {
    /// The staging directory: `<mzr>/snap-tmp/<name>`.
    pub fn new(mzr_dir: &MzrDir, snap_name: &SnapName) -> (r: SnapTmpDir)
        ensures
            r@ == mzr_dir@ + "/snap-tmp/"@ + snap_name@,
    {
        let mut path = mzr_dir.as_str().to_owned();
        path.append("/snap-tmp/");
        path.append(snap_name.as_str());
        SnapTmpDir { path }
    }

    /// The path's characters.
    pub fn as_str(&self) -> (r: &str)
        ensures
            r@ == self@,
    {
        self.path.as_str()
    }
}

/// Path to a zone's writable change layer (the overlay's upper directory).
pub struct ChangesDir {
    path: String,
}

impl View for ChangesDir {
    type V = Seq<char>;

    closed spec fn view(&self) -> Seq<char> {
        self.path@
    }
}

impl ChangesDir {
    /// The change layer: `<zone dir>/changes`.
    pub fn new(zone_dir: &ZoneDir) -> (r: ChangesDir)
        ensures
            r@ == zone_dir@ + "/changes"@,
    {
        let mut path = zone_dir.as_str().to_owned();
        path.append("/changes");
        ChangesDir { path }
    }

    /// The path's characters.
    pub fn as_str(&self) -> (r: &str)
        ensures
            r@ == self@,
    {
        self.path.as_str()
    }
}

/// Path to a zone's writable change layer (the overlay's upper directory).
pub struct OvfsChangesDir {
    path: String,
}

impl View for OvfsChangesDir {
    type V = Seq<char>;

    closed spec fn view(&self) -> Seq<char> {
        self.path@
    }
}

impl OvfsChangesDir {
    /// The change layer: `<zone dir>/changes`.
    pub fn new(zone_dir: &ZoneDir) -> (r: OvfsChangesDir)
        ensures
            r@ == zone_dir@ + "/changes"@,
    {
        let mut path = zone_dir.as_str().to_owned();
        path.append("/changes");
        OvfsChangesDir { path }
    }

    /// The path's characters.
    pub fn as_str(&self) -> (r: &str)
        ensures
            r@ == self@,
    {
        self.path.as_str()
    }

    /// A copy of this path.
    pub fn dup(&self) -> (r: OvfsChangesDir)
        ensures
            r@ == self@,
    {
        OvfsChangesDir { path: self.path.clone() }
    }
}

/// Path to the overlay's scratch directory; it must live on the same
/// filesystem as the change layer.
pub struct OvfsWorkDir {
    path: String,
}

impl View for OvfsWorkDir {
    type V = Seq<char>;

    closed spec fn view(&self) -> Seq<char> {
        self.path@
    }
}

impl OvfsWorkDir {
    /// The scratch directory: `<zone dir>/ovfs-work`.
    pub fn new(zone_dir: &ZoneDir) -> (r: OvfsWorkDir)
        ensures
            r@ == zone_dir@ + "/ovfs-work"@,
    {
        let mut path = zone_dir.as_str().to_owned();
        path.append("/ovfs-work");
        OvfsWorkDir { path }
    }

    /// The path's characters.
    pub fn as_str(&self) -> (r: &str)
        ensures
            r@ == self@,
    {
        self.path.as_str()
    }

    /// A copy of this path.
    pub fn dup(&self) -> (r: OvfsWorkDir)
        ensures
            r@ == self@,
    {
        OvfsWorkDir { path: self.path.clone() }
    }
}

/// Path to the target directory of a zone's overlay mount.
pub struct OvfsMountDir {
    path: String,
}

impl View for OvfsMountDir {
    type V = Seq<char>;

    closed spec fn view(&self) -> Seq<char> {
        self.path@
    }
}

impl OvfsMountDir {
    /// The mount target: `<zone dir>/mount`.
    pub fn new(zone_dir: &ZoneDir) -> (r: OvfsMountDir)
        ensures
            r@ == zone_dir@ + "/mount"@,
    {
        let mut path = zone_dir.as_str().to_owned();
        path.append("/mount");
        OvfsMountDir { path }
    }

    /// The path's characters.
    pub fn as_str(&self) -> (r: &str)
        ensures
            r@ == self@,
    {
        self.path.as_str()
    }

    /// A copy of this path.
    pub fn dup(&self) -> (r: OvfsMountDir)
        ensures
            r@ == self@,
    {
        OvfsMountDir { path: self.path.clone() }
    }
}

/// Path to the directory holding the daemon's control files.
pub struct DaemonDir {
    path: String,
}

impl View for DaemonDir {
    type V = Seq<char>;

    closed spec fn view(&self) -> Seq<char> {
        self.path@
    }
}

impl DaemonDir {
    /// The daemon's directory: `<mzr>/daemon`.
    pub fn new(mzr_dir: &MzrDir) -> (r: DaemonDir)
        ensures
            r@ == mzr_dir@ + "/daemon"@,
    {
        let mut path = mzr_dir.as_str().to_owned();
        path.append("/daemon");
        DaemonDir { path }
    }

    /// The path's characters.
    pub fn as_str(&self) -> (r: &str)
        ensures
            r@ == self@,
    {
        self.path.as_str()
    }
}

/// Path to the file recording the daemon's process id.
pub struct DaemonPidFile {
    path: String,
}

impl View for DaemonPidFile {
    type V = Seq<char>;

    closed spec fn view(&self) -> Seq<char> {
        self.path@
    }
}

impl DaemonPidFile {
    /// The pid file: `<daemon dir>/process.pid`.
    pub fn new(daemon_dir: &DaemonDir) -> (r: DaemonPidFile)
        ensures
            r@ == daemon_dir@ + "/process.pid"@,
    {
        let mut path = daemon_dir.as_str().to_owned();
        path.append("/process.pid");
        DaemonPidFile { path }
    }

    /// The path's characters.
    pub fn as_str(&self) -> (r: &str)
        ensures
            r@ == self@,
    {
        self.path.as_str()
    }
}

/// Path to the daemon's log file.
pub struct DaemonLogFile {
    path: String,
}

impl View for DaemonLogFile {
    type V = Seq<char>;

    closed spec fn view(&self) -> Seq<char> {
        self.path@
    }
}

impl DaemonLogFile {
    /// The log file: `<daemon dir>/log`.
    pub fn new(daemon_dir: &DaemonDir) -> (r: DaemonLogFile)
        ensures
            r@ == daemon_dir@ + "/log"@,
    {
        let mut path = daemon_dir.as_str().to_owned();
        path.append("/log");
        DaemonLogFile { path }
    }

    /// The path's characters.
    pub fn as_str(&self) -> (r: &str)
        ensures
            r@ == self@,
    {
        self.path.as_str()
    }
}

/// Path to the daemon's listening socket.
pub struct DaemonSocketFile {
    path: String,
}

impl View for DaemonSocketFile {
    type V = Seq<char>;

    closed spec fn view(&self) -> Seq<char> {
        self.path@
    }
}

impl DaemonSocketFile {
    /// The socket: `<daemon dir>/socket`.
    pub fn new(daemon_dir: &DaemonDir) -> (r: DaemonSocketFile)
        ensures
            r@ == daemon_dir@ + "/socket"@,
    {
        let mut path = daemon_dir.as_str().to_owned();
        path.append("/socket");
        DaemonSocketFile { path }
    }

    /// The path's characters.
    pub fn as_str(&self) -> (r: &str)
        ensures
            r@ == self@,
    {
        self.path.as_str()
    }
}

/// Path to a process's directory in the proc filesystem.
pub struct ProcDir {
    path: String,
}

impl View for ProcDir {
    type V = Seq<char>;

    closed spec fn view(&self) -> Seq<char> {
        self.path@
    }
}

impl ProcDir {
    /// The process's directory: `/proc/<pid>`.
    pub fn new(pid: i32) -> (r: ProcDir)
        requires
            pid >= 0,
        ensures
            r@ == "/proc/"@ + crate::utils::dec_str(pid as nat),
    {
        let mut path = "/proc/".to_owned();
        let digits = crate::utils::fmt_u64(pid as u64);
        path.append(digits.as_str());
        ProcDir { path }
    }

    /// The path's characters.
    pub fn as_str(&self) -> (r: &str)
        ensures
            r@ == self@,
    {
        self.path.as_str()
    }
}

/// Path to one of a process's namespace files in the proc filesystem.
pub struct ProcNamespaceFile {
    path: String,
}

impl View for ProcNamespaceFile {
    type V = Seq<char>;

    closed spec fn view(&self) -> Seq<char> {
        self.path@
    }
}

impl ProcNamespaceFile {
    /// The mount-namespace file: `<proc dir>/ns/mnt`.
    pub fn new_mount(dir: &ProcDir) -> (r: ProcNamespaceFile)
        ensures
            r@ == dir@ + "/ns/mnt"@,
    {
        let mut path = dir.as_str().to_owned();
        path.append("/ns/mnt");
        ProcNamespaceFile { path }
    }

    /// The user-namespace file: `<proc dir>/ns/user`.
    pub fn new_user(dir: &ProcDir) -> (r: ProcNamespaceFile)
        ensures
            r@ == dir@ + "/ns/user"@,
    {
        let mut path = dir.as_str().to_owned();
        path.append("/ns/user");
        ProcNamespaceFile { path }
    }

    /// The path's characters.
    pub fn as_str(&self) -> (r: &str)
        ensures
            r@ == self@,
    {
        self.path.as_str()
    }
}

} // verus!
