//! Per-user isolated "zones": writable sandbox views of a project directory,
//! built from immutable snapshots and composed with copy-on-write overlay
//! mounts.
//!
//! This crate holds the verified core: path layout, name validation, the
//! daemon's zone-process registry and its request protocol, the overlay
//! composition plan, identity remapping, and the three-way
//! merge/reconciliation engine. The unverified shell around it (process
//! spawning, namespaces, mounts, socket I/O) lives outside and hands this
//! library plain values.

use vstd::prelude::*;

pub mod daemon;
pub mod git;
pub mod merge;
pub mod namespaces;
pub mod paths;
pub mod protocol;
pub mod snapshot;
pub mod top_dirs;
pub mod utils;
pub mod zone;

use crate::paths::SnapName;
use crate::paths::ZoneName;
use crate::paths::is_name_char;
use crate::paths::valid_name;
use crate::utils::all_dec_digits;
use crate::utils::dec_str;
use crate::utils::fmt_u64;
use crate::utils::lemma_dec_str_digits;

verus! {

/// A command the program can run, as parsed from the command line.
#[allow(inconsistent_fields)]
pub enum Cmd {
    /// Run the daemon.
    Daemon,
    /// Enter a shell inside a zone, creating the zone first if needed.
    Shell { opts: ShellOpts },
    /// Run one command inside a throwaway snapshot and zone, then merge the
    /// changes back.
    Run { opts: RunOpts },
    /// Take a snapshot of the working directory.
    Snap { opts: SnapOpts },
}

/// Options for entering a zone shell.
pub struct ShellOpts {
    /// Name of the zone to load or create.
    pub zone_name: ZoneName,
    /// Name of the snapshot to use; when absent and the zone is new, a
    /// default name is derived from version-control state.
    pub snap_name: Option<SnapName>,
}

/// Options for running a command inside a temporary zone.
pub struct RunOpts {
    pub cmd: String,
    pub args: Vec<String>,
}

/// Options for taking a snapshot of the working directory.
pub struct SnapOpts {
    /// Name of the snapshot to create; when absent a default name is
    /// derived from version-control state.
    pub snap_name: Option<SnapName>,
}

/// The name of the throwaway snapshot and zone that back a single run,
/// derived from the running process's id — and always a valid name.
pub fn temp_name_for_pid(pid: i32) -> (r: String)
    requires
        pid >= 0,
    ensures
        r@ == "run-"@ + dec_str(pid as nat),
        valid_name(r@),
{
    proof {
        reveal_strlit("run-");
        reveal_strlit(".");
        reveal_strlit("..");
    }
    let mut name = "run-".to_owned();
    let digits = fmt_u64(pid as u64);
    name.append(digits.as_str());
    proof {
        lemma_dec_str_digits(pid as nat);
        let v = name@;
        assert(v[0] == 'r');
        assert forall|i: int| 0 <= i < v.len() implies is_name_char(#[trigger] v[i]) by {
            if i < 4 {
                assert(is_name_char("run-"@[i]));
            } else {
                assert(v[i] == dec_str(pid as nat)[i - 4]);
                assert(all_dec_digits(dec_str(pid as nat)));
            }
        }
        assert(v != "."@);
        assert(v != ".."@);
    }
    name
}

} // verus!
