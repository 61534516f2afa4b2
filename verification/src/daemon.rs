//! The daemon's control logic: the zone-process registry and the decision
//! rules of its request loop.
//!
//! The daemon is a long-lived process that holds namespaces open and brokers
//! one anchor process per active zone. Its request loop is strictly
//! sequential, so the registry here is owned by a single thread of control.
//! The loop itself performs I/O (sockets, mounts, forking) and lives outside
//! this crate; it drives `Registry::step` with the events it observes and
//! performs the actions the step function commands.

use vstd::prelude::*;
use vstd::string::StringExecFns;

use crate::paths::ZoneName;

verus! {

/// Process id of the daemon itself.
#[derive(Clone, Copy)]
pub struct DaemonPid(pub i32);

/// Process id of a zone's anchor process.
#[derive(Clone, Copy)]
pub struct ZonePid(pub i32);

impl ZonePid {
    /// The raw process id.
    pub fn to_pid(&self) -> (r: i32)
        ensures
            r == self.0,
    {
        self.0
    }

    /// Wraps a raw process id.
    pub fn from_pid(p: i32) -> (r: ZonePid)
        ensures
            r.0 == p,
    {
        ZonePid(p)
    }
}

/// A request a client can make of the daemon.
pub enum Request {
    /// Ask for a live zone process for the named zone.
    ZoneProcess(ZoneName),
}

/// The ghost image of a `Request`.
pub enum RequestV {
    ZoneProcess(Seq<char>),
}

impl View for Request {
    type V = RequestV;

    open spec fn view(&self) -> RequestV {
        match self {
            Request::ZoneProcess(name) => RequestV::ZoneProcess(name@),
        }
    }
}

/// The daemon's answer to a request.
pub enum Response {
    /// The process id of a live zone process.
    ZoneProcess(ZonePid),
    /// The request could not be served.
    Error(String),
}

/// The ghost image of a `Response`.
pub enum ResponseV {
    ZoneProcess(int),
    Error(Seq<char>),
}

impl View for Response {
    type V = ResponseV;

    open spec fn view(&self) -> ResponseV {
        match self {
            Response::ZoneProcess(p) => ResponseV::ZoneProcess(p.0 as int),
            Response::Error(m) => ResponseV::Error(m@),
        }
    }
}

/// The registry contents that a sequence of entries denotes: later entries
/// win, though the registry never holds two entries for one name.
pub open spec fn entries_map(s: Seq<(ZoneName, ZonePid)>) -> Map<Seq<char>, int>
    decreases s.len(),
{
    if s.len() == 0 {
        Map::empty()
    } else {
        entries_map(s.drop_last()).insert(s.last().0@, s.last().1.0 as int)
    }
}

/// A name is in the denoted map exactly when some entry carries it.
proof fn lemma_entries_map_contains(s: Seq<(ZoneName, ZonePid)>, n: Seq<char>)
    ensures
        entries_map(s).contains_key(n) <==> (exists|k: int|
            0 <= k < s.len() && #[trigger] s[k].0@ == n),
    decreases s.len(),
{
    if s.len() > 0 {
        lemma_entries_map_contains(s.drop_last(), n);
        if entries_map(s).contains_key(n) {
            if s.last().0@ == n {
                assert(s[s.len() - 1].0@ == n);
            }
        }
        if exists|k: int| 0 <= k < s.len() && #[trigger] s[k].0@ == n {
            let k = choose|k: int| 0 <= k < s.len() && #[trigger] s[k].0@ == n;
            if k < s.len() - 1 {
                assert(s.drop_last()[k].0@ == n);
            }
        }
    }
}

/// With distinct names, the entry carrying a name gives its mapped pid.
proof fn lemma_entries_map_value(s: Seq<(ZoneName, ZonePid)>, k: int)
    requires
        0 <= k < s.len(),
        forall|a: int, b: int| 0 <= a < b < s.len() ==> s[a].0@ != s[b].0@,
    ensures
        entries_map(s).contains_key(s[k].0@),
        entries_map(s)[s[k].0@] == s[k].1.0 as int,
    decreases s.len(),
{
    if k < s.len() - 1 {
        assert(s.drop_last()[k] == s[k]);
        lemma_entries_map_value(s.drop_last(), k);
        assert(s[k].0@ != s[s.len() - 1].0@);
    }
}

/// The in-memory mapping from zone name to anchor process, owned by the
/// daemon's single control thread. It has at most one entry per name, and
/// entries are never removed while the daemon runs.
pub struct Registry {
    entries: Vec<(ZoneName, ZonePid)>,
}

impl View for Registry {
    type V = Map<Seq<char>, int>;

    closed spec fn view(&self) -> Map<Seq<char>, int> {
        entries_map(self.entries@)
    }
}

impl Registry {
    /// The registry's names are distinct.
    pub closed spec fn wf(&self) -> bool {
        forall|a: int, b: int|
            0 <= a < b < self.entries@.len() ==> self.entries@[a].0@ != self.entries@[b].0@
    }

    /// An empty registry.
    pub fn new() -> (r: Registry)
        ensures
            r.wf(),
            r@ == Map::<Seq<char>, int>::empty(),
    {
        Registry { entries: Vec::new() }
    }

    /// The registered anchor pid of `name`, when there is one.
    pub fn lookup(&self, name: &ZoneName) -> (r: Option<ZonePid>)
        requires
            self.wf(),
        ensures
            match r {
                Some(p) => self@.contains_key(name@) && self@[name@] == p.0 as int,
                None => !self@.contains_key(name@),
            },
    {
        let n = self.entries.len();
        let mut i: usize = 0;
        while i < n
            invariant
                0 <= i <= n,
                n == self.entries@.len(),
                self.wf(),
                forall|j: int| 0 <= j < i ==> #[trigger] self.entries@[j].0@ != name@,
            decreases n - i,
        {
            let entry = &self.entries[i];
            if crate::utils::str_eq(entry.0.as_str(), name.as_str()) {
                let p = entry.1;
                proof {
                    lemma_entries_map_value(self.entries@, i as int);
                }
                return Some(p);
            }
            i += 1;
        }
        proof {
            lemma_entries_map_contains(self.entries@, name@);
        }
        None
    }

    /// Records the anchor process of a zone that had none.
    pub fn register(&mut self, name: ZoneName, pid: ZonePid)
        requires
            old(self).wf(),
            !old(self)@.contains_key(name@),
        ensures
            final(self).wf(),
            final(self)@ == old(self)@.insert(name@, pid.0 as int),
    {
        proof {
            lemma_entries_map_contains(self.entries@, name@);
        }
        self.entries.push((name, pid));
        proof {
            assert(self.entries@.drop_last() =~= old(self).entries@);
        }
    }
}

/// An event the daemon's control loop reacts to: either a client's request,
/// or the outcome of the work a previous action commanded.
pub enum ZoneEvent {
    /// A client sent a request.
    Arrived(Request),
    /// The named zone's metadata was not found on disk.
    ZoneMissing(ZoneName),
    /// The named zone's overlay was mounted, its anchor process was forked,
    /// and the anchor signalled readiness; the pid is the anchor's.
    SpawnDone(ZoneName, ZonePid),
    /// Loading, mounting or forking for the named zone failed, with the
    /// given error text.
    SpawnFailed(ZoneName, String),
}

/// The ghost image of a `ZoneEvent`.
pub enum ZoneEventV {
    Arrived(RequestV),
    ZoneMissing(Seq<char>),
    SpawnDone(Seq<char>, int),
    SpawnFailed(Seq<char>, Seq<char>),
}

impl View for ZoneEvent {
    type V = ZoneEventV;

    open spec fn view(&self) -> ZoneEventV {
        match self {
            ZoneEvent::Arrived(r) => ZoneEventV::Arrived(r@),
            ZoneEvent::ZoneMissing(n) => ZoneEventV::ZoneMissing(n@),
            ZoneEvent::SpawnDone(n, p) => ZoneEventV::SpawnDone(n@, p.0 as int),
            ZoneEvent::SpawnFailed(n, m) => ZoneEventV::SpawnFailed(n@, m@),
        }
    }
}

/// What the daemon must do after a step.
pub enum DaemonAction {
    /// Send this response to the client and close the connection.
    Reply(Response),
    /// Load the named zone's metadata; if it is missing, hand back
    /// `ZoneMissing`. Otherwise mount the zone's overlay, fork its anchor
    /// process, wait for the anchor's readiness message, and hand back
    /// `SpawnDone` with its pid, or `SpawnFailed` with the error.
    MountAndSpawn(ZoneName),
}

/// The ghost image of a `DaemonAction`.
pub enum DaemonActionV {
    Reply(ResponseV),
    MountAndSpawn(Seq<char>),
}

impl View for DaemonAction {
    type V = DaemonActionV;

    open spec fn view(&self) -> DaemonActionV {
        match self {
            DaemonAction::Reply(r) => DaemonActionV::Reply(r@),
            DaemonAction::MountAndSpawn(n) => DaemonActionV::MountAndSpawn(n@),
        }
    }
}

/// The daemon's decision rule, as a function of the registry contents and
/// the event: what the registry becomes, and what to do next.
///
/// - A request for a registered zone is answered at once with the recorded
///   pid; nothing is mounted or forked again.
/// - A request for an unregistered zone commands one mount-and-spawn; the
///   registry is untouched until the spawn has succeeded, so a failure
///   leaves no partial entry.
/// - A missing zone is an error reply.
/// - A successful spawn is recorded and its pid is the reply.
/// - A failed spawn is reported and leaves the registry unchanged.
pub open spec fn step_spec(m: Map<Seq<char>, int>, event: ZoneEventV) -> (Map<Seq<char>, int>, DaemonActionV) {
    match event {
        ZoneEventV::Arrived(RequestV::ZoneProcess(name)) => {
            if m.contains_key(name) {
                (m, DaemonActionV::Reply(ResponseV::ZoneProcess(m[name])))
            } else {
                (m, DaemonActionV::MountAndSpawn(name))
            }
        },
        ZoneEventV::ZoneMissing(name) => (
            m,
            DaemonActionV::Reply(ResponseV::Error("Zone does not exist"@)),
        ),
        ZoneEventV::SpawnDone(name, pid) => {
            if m.contains_key(name) {
                (m, DaemonActionV::Reply(ResponseV::ZoneProcess(m[name])))
            } else {
                (m.insert(name, pid), DaemonActionV::Reply(ResponseV::ZoneProcess(pid)))
            }
        },
        ZoneEventV::SpawnFailed(name, msg) => (
            m,
            DaemonActionV::Reply(ResponseV::Error("Unexpected error: "@ + msg)),
        ),
    }
}

impl Registry {
    /// Advances the daemon by one event and returns the action to perform.
    pub fn step(&mut self, event: ZoneEvent) -> (a: DaemonAction)
        requires
            old(self).wf(),
        ensures
            final(self).wf(),
            (final(self)@, a@) == step_spec(old(self)@, event@),
    {
        match event {
            ZoneEvent::Arrived(Request::ZoneProcess(name)) => match self.lookup(&name) {
                Some(p) => DaemonAction::Reply(Response::ZoneProcess(p)),
                None => DaemonAction::MountAndSpawn(name),
            },
            ZoneEvent::ZoneMissing(_name) => DaemonAction::Reply(
                Response::Error("Zone does not exist".to_owned()),
            ),
            ZoneEvent::SpawnDone(name, pid) => match self.lookup(&name) {
                Some(p) => DaemonAction::Reply(Response::ZoneProcess(p)),
                None => {
                    self.register(name, pid);
                    DaemonAction::Reply(Response::ZoneProcess(pid))
                },
            },
            ZoneEvent::SpawnFailed(_name, msg) => {
                let mut m = "Unexpected error: ".to_owned();
                m.append(msg.as_str());
                DaemonAction::Reply(Response::Error(m))
            },
        }
    }
}

/// Law: one fork per zone name. For a zone not yet in the registry, a
/// request commands exactly one mount-and-spawn and changes nothing;
/// recording the spawned anchor registers its pid and replies with it; and
/// a repeated request for the same zone is answered with that same pid,
/// with no further mount or spawn and no change to the registry.
pub proof fn lemma_request_forks_once(m: Map<Seq<char>, int>, name: Seq<char>, pid: int)
    requires
        !m.contains_key(name),
    ensures
        ({
            let (m1, a1) = step_spec(m, ZoneEventV::Arrived(RequestV::ZoneProcess(name)));
            &&& m1 == m
            &&& a1 == DaemonActionV::MountAndSpawn(name)
            &&& {
                let (m2, a2) = step_spec(m1, ZoneEventV::SpawnDone(name, pid));
                &&& m2 == m.insert(name, pid)
                &&& a2 == DaemonActionV::Reply(ResponseV::ZoneProcess(pid))
                &&& {
                    let (m3, a3) = step_spec(m2, ZoneEventV::Arrived(RequestV::ZoneProcess(name)));
                    &&& m3 == m2
                    &&& a3 == DaemonActionV::Reply(ResponseV::ZoneProcess(pid))
                }
            }
        }),
{
}

/// Law: overlays are mounted at most once per zone. Once a zone is
/// registered, no event removes or changes its registration, and no event
/// ever commands another mount-and-spawn for it: a repeated request is
/// served from the registry, so re-mounting cannot stack a second overlay
/// over the first and the zone's visible tree stays the one the single
/// mount produced.
pub proof fn lemma_mount_at_most_once(m: Map<Seq<char>, int>, name: Seq<char>, event: ZoneEventV)
    requires
        m.contains_key(name),
    ensures
        ({
            let (m2, a) = step_spec(m, event);
            &&& m2.contains_key(name)
            &&& m2[name] == m[name]
            &&& a != DaemonActionV::MountAndSpawn(name)
        }),
{
}

} // verus!
