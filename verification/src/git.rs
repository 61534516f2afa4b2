//! Version-control integration: the minimum-version rule for the `git`
//! commands this tool drives, default snapshot names derived from the
//! current ref, and the layout of repository control files shared into a
//! zone.
//!
//! Running `git` and reading its output is I/O and happens outside this
//! crate; the decisions about that output are made here.

use vstd::prelude::*;
use vstd::string::StrSliceExecFns;
use vstd::string::StringExecFns;

use crate::paths::InvalidName;
use crate::paths::SnapName;
use crate::paths::valid_name;
use crate::utils::ends_with;
use crate::utils::strip_prefix;
use crate::utils::trim;
use crate::utils::trim_spec;

verus! {

/// The oldest git this tool drives, chosen for the `git symbolic-ref`
/// behaviour it relies on.
pub const MIN_GIT_MAJOR: u64 = 1;

pub const MIN_GIT_MINOR: u64 = 8;

pub const MIN_GIT_PATCH: u64 = 0;

/// A version of git, as far as the minimum-version rule reads it: the three
/// numeric components and whether a pre-release tag is present.
#[derive(Clone, Copy, PartialEq, Eq, Structural, Debug)]
pub struct GitVersion {
    pub major: u64,
    pub minor: u64,
    pub patch: u64,
    pub has_pre: bool,
}

/// What parsing a semantic version returns: its three numeric components
/// and its pre-release text. The outcome depends on the text alone.
pub uninterp spec fn semver_of(s: Seq<char>) -> Option<(u64, u64, u64, Seq<char>)>;

/// Relies on semver's `Version::parse` for the full grammar of semantic
/// versions; the result is named `semver_of` and nothing more is assumed
/// of it.
#[verifier::external_body]
fn parse_semver(s: &str) -> (r: Option<(u64, u64, u64, String)>)
    ensures
        r is Some <==> semver_of(s@) is Some,
        r matches Some(v) ==> semver_of(s@) == Some((v.0, v.1, v.2, v.3@)),
{
    match semver::Version::parse(s) {
        Ok(v) => Some((v.major, v.minor, v.patch, v.pre.as_str().to_string())),
        Err(_) => None,
    }
}

/// Whether a version falls below the minimum, under semantic-version
/// precedence: the numeric components compare lexicographically, and a
/// pre-release of the minimum itself precedes the minimum.
pub open spec fn version_too_old(major: u64, minor: u64, patch: u64, has_pre: bool) -> bool {
    ||| major < MIN_GIT_MAJOR
    ||| (major == MIN_GIT_MAJOR && minor < MIN_GIT_MINOR)
    ||| (major == MIN_GIT_MAJOR && minor == MIN_GIT_MINOR && patch < MIN_GIT_PATCH)
    ||| (major == MIN_GIT_MAJOR && minor == MIN_GIT_MINOR && patch == MIN_GIT_PATCH && has_pre)
}

impl GitVersion {
    /// Whether this version meets the minimum.
    pub fn meets_minimum(&self) -> (r: bool)
        ensures
            r == !version_too_old(self.major, self.minor, self.patch, self.has_pre),
    {
        if self.major != MIN_GIT_MAJOR {
            self.major > MIN_GIT_MAJOR
        } else if self.minor != MIN_GIT_MINOR {
            self.minor > MIN_GIT_MINOR
        } else if self.patch != MIN_GIT_PATCH {
            self.patch > MIN_GIT_PATCH
        } else {
            !self.has_pre
        }
    }
}

/// Why a git invocation failed or was refused.
pub enum GitError {
    /// `git` was not found on the search path.
    NotFound,
    /// The installed git is older than the minimum this tool drives.
    TooOld(GitVersion),
    /// A git command exited with a failure status: the command, its error
    /// output, and the raw exit code.
    ExitStatus(String, String, i32),
    /// Any other failure, as text.
    OtherError(String),
}

/// Checks one line of `git --version` output. The line must read
/// `git version <semver>`; the version must parse and meet the minimum.
pub fn check_version_line(line: &str) -> (r: Result<GitVersion, GitError>)
    ensures
        match r {
            Ok(v) => exists|rest: Seq<char>|
                line@ == "git version "@ + rest && (#[trigger] semver_of(rest) matches Some(t)
                    && v == (GitVersion {
                    major: t.0,
                    minor: t.1,
                    patch: t.2,
                    has_pre: t.3.len() > 0,
                }) && !version_too_old(t.0, t.1, t.2, t.3.len() > 0)),
            Err(GitError::TooOld(v)) => exists|rest: Seq<char>|
                line@ == "git version "@ + rest && (#[trigger] semver_of(rest) matches Some(t)
                    && v == (GitVersion {
                    major: t.0,
                    minor: t.1,
                    patch: t.2,
                    has_pre: t.3.len() > 0,
                }) && version_too_old(t.0, t.1, t.2, t.3.len() > 0)),
            Err(GitError::OtherError(_)) => (forall|rest: Seq<char>|
                line@ != "git version "@ + rest) || (exists|rest: Seq<char>|
                line@ == "git version "@ + rest && #[trigger] semver_of(rest) is None),
            Err(_) => false,
        },
{
    match strip_prefix("git version ", line) {
        None => Err(GitError::OtherError("no version in the output".to_owned())),
        Some(rest) => match parse_semver(rest.as_str()) {
            None => Err(GitError::OtherError("the version did not parse".to_owned())),
            Some((major, minor, patch, pre)) => {
                let has_pre = pre.as_str().unicode_len() > 0;
                let v = GitVersion { major, minor, patch, has_pre };
                if v.meets_minimum() {
                    Ok(v)
                } else {
                    Err(GitError::TooOld(v))
                }
            },
        },
    }
}

/// Interprets the outcome of a git command, as the caller of one sees it:
/// successful output is handed through; a failure is reported as the
/// version check's complaint when git itself is too old, and as the
/// command's own exit status otherwise.
pub fn classify_git_output(
    success: bool,
    status_code: i32,
    cmd: String,
    stdout: String,
    stderr: String,
    version_check: Option<GitError>,
) -> (r: Result<String, GitError>)
    ensures
        match r {
            Ok(out) => success && out@ == stdout@,
            Err(GitError::TooOld(v)) => !success && (version_check matches Some(
                GitError::TooOld(w),
            ) && w == v),
            Err(GitError::ExitStatus(c, e, code)) => {
                &&& !success
                &&& !(version_check matches Some(GitError::TooOld(_)))
                &&& c@ == cmd@
                &&& e@ == stderr@
                &&& code == status_code
            },
            Err(_) => false,
        },
{
    if success {
        Ok(stdout)
    } else {
        match version_check {
            Some(GitError::TooOld(v)) => Err(GitError::TooOld(v)),
            _ => Err(GitError::ExitStatus(cmd, stderr, status_code)),
        }
    }
}

/// Whether a failed `git symbolic-ref` call means the head is detached, so
/// that the short commit hash should name the snapshot instead: the
/// command's error output says the head is not a symbolic ref.
pub fn wants_sha_fallback(e: &GitError) -> (r: bool)
    ensures
        r == (e matches GitError::ExitStatus(_, output, _) && output@.len()
            >= "is not a symbolic ref\n"@.len() && output@.subrange(
            output@.len() - "is not a symbolic ref\n"@.len(),
            output@.len() as int,
        ) == "is not a symbolic ref\n"@),
{
    match e {
        GitError::ExitStatus(_, output, _) => ends_with(output.as_str(), "is not a symbolic ref\n"),
        _ => false,
    }
}

/// The first six characters of a commit hash, used as a short name.
pub fn short_sha(sha: &str) -> (r: String)
    requires
        sha@.len() >= 6,
    ensures
        r@ == sha@.subrange(0, 6),
{
    sha.substring_char(0, 6).to_owned()
}

/// Derives the default snapshot name from the current ref or commit text:
/// the text is trimmed and must make a valid snapshot name.
pub fn default_snap_name(raw_ref: &str) -> (r: Result<SnapName, InvalidName>)
    ensures
        match r {
            Ok(n) => valid_name(trim_spec(raw_ref@)) && n@ == trim_spec(raw_ref@),
            Err(e) => !valid_name(trim_spec(raw_ref@)) && e.name@ == trim_spec(raw_ref@),
        },
{
    let trimmed = trim(raw_ref);
    SnapName::new(trimmed)
}

/// The repository control files and directories that every zone shares with
/// the real repository, in the layout git's historical multiple-workdir
/// scheme shares them.
pub fn shared_git_paths() -> (r: Vec<String>)
    ensures
        r@.len() == 10,
        r@[0]@ == "config"@,
        r@[1]@ == "refs"@,
        r@[2]@ == "logs/refs"@,
        r@[3]@ == "objects"@,
        r@[4]@ == "info"@,
        r@[5]@ == "hooks"@,
        r@[6]@ == "packed-refs"@,
        r@[7]@ == "remotes"@,
        r@[8]@ == "rr-cache"@,
        r@[9]@ == "svn"@,
{
    let mut v: Vec<String> = Vec::new();
    v.push("config".to_owned());
    v.push("refs".to_owned());
    v.push("logs/refs".to_owned());
    v.push("objects".to_owned());
    v.push("info".to_owned());
    v.push("hooks".to_owned());
    v.push("packed-refs".to_owned());
    v.push("remotes".to_owned());
    v.push("rr-cache".to_owned());
    v.push("svn".to_owned());
    v
}

/// What to do about one shared path when linking a repository into a zone.
pub enum LinkAction {
    /// No link exists yet: create one pointing at the source path.
    Create,
    /// The link exists and already points at the source path.
    AlreadyCorrect,
    /// The link exists but points elsewhere: the zone's repository link is
    /// wrong and linking must fail.
    WrongTarget,
}

/// Decides one shared path of the repository linking scheme, from where the
/// existing link points (if a link exists at all) and where it should.
pub fn classify_git_link(existing: Option<String>, source_path: &str) -> (r: LinkAction)
    ensures
        match existing {
            None => r is Create,
            Some(target) => if target@ == source_path@ {
                r is AlreadyCorrect
            } else {
                r is WrongTarget
            },
        },
{
    match existing {
        None => LinkAction::Create,
        Some(target) => {
            if crate::utils::str_eq(target.as_str(), source_path) {
                LinkAction::AlreadyCorrect
            } else {
                LinkAction::WrongTarget
            }
        },
    }
}

} // verus!
