//! The two top-level directories everything else is placed against: the
//! user's work directory and the metadata root beside it.
//!
//! The metadata root is found by walking up from a starting directory and
//! probing for a sibling `<dir>.mzr`; probing the disk happens outside this
//! crate, with the candidate construction and the upward step computed here.

use vstd::prelude::*;
use vstd::string::StrSliceExecFns;

use crate::paths::MzrDir;
use crate::paths::UserWorkDir;
use crate::utils::suffixable;

verus! {

/// The pair of top-level directories.
pub struct TopDirs {
    pub mzr_dir: MzrDir,
    pub user_work_dir: UserWorkDir,
}

/// The upward search ended at the filesystem root without finding a
/// metadata root.
pub struct MzrDirNotFound;

impl TopDirs {
    /// The directories as seen from a given work directory: the metadata
    /// root is its sibling with `.mzr` appended, trailing separators
    /// ignored.
    pub fn from_user_work(user_work_dir: UserWorkDir) -> (r: TopDirs)
        requires
            suffixable(user_work_dir@),
        ensures
            r.user_work_dir@ == user_work_dir@,
            r.mzr_dir@ == crate::utils::trim_slashes(user_work_dir@) + ".mzr"@,
    {
        let mzr_dir = MzrDir::new(&user_work_dir);
        TopDirs { mzr_dir, user_work_dir }
    }
}

/// The position of the last separator in `p`, if any.
pub open spec fn last_slash(p: Seq<char>) -> Option<int>
    decreases p.len(),
{
    if p.len() == 0 {
        None
    } else if p.last() == '/' {
        Some(p.len() - 1)
    } else {
        last_slash(p.drop_last())
    }
}

/// The directory above `p` in the upward search: the text before the last
/// separator, the root when the last separator leads, and nothing at all
/// for the root itself or a path without separators — there the search
/// ends.
pub open spec fn parent_dir_spec(p: Seq<char>) -> Option<Seq<char>> {
    match last_slash(p) {
        None => None,
        Some(k) => if p.len() == 1 {
            None
        } else if k == 0 {
            Some("/"@)
        } else {
            Some(p.subrange(0, k))
        },
    }
}

/// One upward step of the search for a metadata root.
pub fn parent_dir(p: &str) -> (r: Option<String>)
    ensures
        match r {
            Some(parent) => parent_dir_spec(p@) == Some(parent@),
            None => parent_dir_spec(p@) is None,
        },
{
    proof {
        reveal_strlit("/");
    }
    let len = p.unicode_len();
    let mut i = len;
    proof {
        assert(p@.subrange(0, len as int) =~= p@);
    }
    while i > 0 && p.get_char(i - 1) != '/'
        invariant
            0 <= i <= len,
            len == p@.len(),
            last_slash(p@) == last_slash(p@.subrange(0, i as int)),
        decreases i,
    {
        proof {
            assert(p@.subrange(0, i as int).drop_last() =~= p@.subrange(0, i - 1));
        }
        i -= 1;
    }
    if i == 0 {
        proof {
            assert(p@.subrange(0, 0) =~= Seq::<char>::empty());
        }
        return None;
    }
    proof {
        assert(p@.subrange(0, i as int).last() == p@[i - 1]);
        assert(last_slash(p@) == Some(i - 1int));
    }
    if len == 1 {
        None
    } else if i == 1 {
        let root = "/".to_owned();
        proof {
            assert(root@ =~= "/"@);
        }
        Some(root)
    } else {
        let parent = p.substring_char(0, i - 1);
        proof {
            assert(parent@ =~= p@.subrange(0, i - 1));
        }
        Some(parent.to_owned())
    }
}

} // verus!
