//! Identity remapping for user namespaces: which control files to write,
//! with what contents, in what order.
//!
//! After a child is cloned into fresh mount and user namespaces, the parent
//! must write the child's identity maps before the child mounts anything or
//! executes another program — done later, the child silently loses its
//! capabilities instead of failing. The writes themselves, and the one-shot
//! rendezvous that holds the child back until they are done, are performed
//! outside this crate; their exact contents and order are computed here.

use vstd::prelude::*;
use vstd::string::StringExecFns;

use crate::utils::dec_str;
use crate::utils::fmt_u64;

verus! {

/// One write into a process's control files: the file, and the exact bytes
/// it receives.
pub struct ControlWrite {
    pub path: String,
    pub contents: String,
}

/// The identity-map line declaring that identity `target` inside the
/// namespace is identity `source` outside it, for a range of one.
pub open spec fn id_map_line(target: nat, source: nat) -> Seq<char> {
    dec_str(target) + " "@ + dec_str(source) + " 1\n"@
}

/// Builds an identity-map line.
fn fmt_id_map_line(target: u32, source: u32) -> (r: String)
    ensures
        r@ == id_map_line(target as nat, source as nat),
{
    let mut line = fmt_u64(target as u64);
    line.append(" ");
    let source_digits = fmt_u64(source as u64);
    line.append(source_digits.as_str());
    line.append(" 1\n");
    line
}

/// The control writes that map one user and one group of a child process:
/// the user map first, then the write that disables further group changes
/// (without which the group map is refused), then the group map. They must
/// be performed in this order, completely, before the child mounts or
/// executes anything.
pub fn map_one_user_and_group(
    child_pid: i32,
    source_user: u32,
    target_user: u32,
    source_group: u32,
    target_group: u32,
) -> (r: Vec<ControlWrite>)
    requires
        child_pid >= 0,
    ensures
        r@.len() == 3,
        r@[0].path@ == "/proc/"@ + dec_str(child_pid as nat) + "/uid_map"@,
        r@[0].contents@ == id_map_line(target_user as nat, source_user as nat),
        r@[1].path@ == "/proc/"@ + dec_str(child_pid as nat) + "/setgroups"@,
        r@[1].contents@ == "deny"@,
        r@[2].path@ == "/proc/"@ + dec_str(child_pid as nat) + "/gid_map"@,
        r@[2].contents@ == id_map_line(target_group as nat, source_group as nat),
{
    let mut base = "/proc/".to_owned();
    let digits = fmt_u64(child_pid as u64);
    base.append(digits.as_str());
    let mut uid_map_path = base.clone();
    uid_map_path.append("/uid_map");
    let mut setgroups_path = base.clone();
    setgroups_path.append("/setgroups");
    let mut gid_map_path = base.clone();
    gid_map_path.append("/gid_map");
    let mut writes: Vec<ControlWrite> = Vec::new();
    writes.push(
        ControlWrite { path: uid_map_path, contents: fmt_id_map_line(target_user, source_user) },
    );
    writes.push(ControlWrite { path: setgroups_path, contents: "deny".to_owned() });
    writes.push(
        ControlWrite { path: gid_map_path, contents: fmt_id_map_line(target_group, source_group) },
    );
    writes
}

/// The control writes that make the calling identity appear as the
/// root-equivalent identity inside the child's user namespace.
pub fn map_user_to_root(child_pid: i32, user: u32, group: u32) -> (r: Vec<ControlWrite>)
    requires
        child_pid >= 0,
    ensures
        r@.len() == 3,
        r@[0].path@ == "/proc/"@ + dec_str(child_pid as nat) + "/uid_map"@,
        r@[0].contents@ == id_map_line(0, user as nat),
        r@[1].path@ == "/proc/"@ + dec_str(child_pid as nat) + "/setgroups"@,
        r@[1].contents@ == "deny"@,
        r@[2].path@ == "/proc/"@ + dec_str(child_pid as nat) + "/gid_map"@,
        r@[2].contents@ == id_map_line(0, group as nat),
{
    map_one_user_and_group(child_pid, user, 0, group, 0)
}

/// The inverse mapping: a process that is root-equivalent in an outer
/// sandbox namespace forks a child that should appear as the original
/// calling identity again.
pub fn map_root_to_user(child_pid: i32, user: u32, group: u32) -> (r: Vec<ControlWrite>)
    requires
        child_pid >= 0,
    ensures
        r@.len() == 3,
        r@[0].path@ == "/proc/"@ + dec_str(child_pid as nat) + "/uid_map"@,
        r@[0].contents@ == id_map_line(user as nat, 0),
        r@[1].path@ == "/proc/"@ + dec_str(child_pid as nat) + "/setgroups"@,
        r@[1].contents@ == "deny"@,
        r@[2].path@ == "/proc/"@ + dec_str(child_pid as nat) + "/gid_map"@,
        r@[2].contents@ == id_map_line(group as nat, 0),
{
    map_one_user_and_group(child_pid, 0, user, 0, group)
}

} // verus!
