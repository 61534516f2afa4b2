//! The daemon's registry state machine and the wire protocol.

use mzr::daemon::DaemonAction;
use mzr::daemon::Registry;
use mzr::daemon::Request;
use mzr::daemon::Response;
use mzr::daemon::ZoneEvent;
use mzr::daemon::ZonePid;
use mzr::paths::ZoneName;
use mzr::protocol::encode_request;
use mzr::protocol::encode_response;
use mzr::protocol::escape;
use mzr::protocol::frame_line;
use mzr::protocol::is_ready_msg;
use mzr::protocol::parse_request;
use mzr::protocol::parse_response;

fn zn(s: &str) -> ZoneName {
    ZoneName::new(String::from(s)).unwrap()
}

// Requesting a zone process for an unregistered zone commands exactly one
// mount-and-spawn; once the spawn is recorded, a repeated request returns
// the same pid without commanding anything further.
#[test]
fn one_fork_per_zone() {
    let mut registry = Registry::new();
    let first = registry.step(ZoneEvent::Arrived(Request::ZoneProcess(zn("work"))));
    match first {
        DaemonAction::MountAndSpawn(name) => assert_eq!(name.as_str(), "work"),
        _ => panic!("expected a mount-and-spawn"),
    }
    let second = registry.step(ZoneEvent::SpawnDone(zn("work"), ZonePid(4242)));
    match second {
        DaemonAction::Reply(Response::ZoneProcess(p)) => assert_eq!(p.0, 4242),
        _ => panic!("expected the new pid"),
    }
    let third = registry.step(ZoneEvent::Arrived(Request::ZoneProcess(zn("work"))));
    match third {
        DaemonAction::Reply(Response::ZoneProcess(p)) => assert_eq!(p.0, 4242),
        _ => panic!("expected the recorded pid, not another spawn"),
    }
}

#[test]
fn zones_are_independent() {
    let mut registry = Registry::new();
    registry.step(ZoneEvent::Arrived(Request::ZoneProcess(zn("a"))));
    registry.step(ZoneEvent::SpawnDone(zn("a"), ZonePid(100)));
    let other = registry.step(ZoneEvent::Arrived(Request::ZoneProcess(zn("b"))));
    assert!(matches!(other, DaemonAction::MountAndSpawn(_)));
    registry.step(ZoneEvent::SpawnDone(zn("b"), ZonePid(200)));
    match registry.step(ZoneEvent::Arrived(Request::ZoneProcess(zn("a")))) {
        DaemonAction::Reply(Response::ZoneProcess(p)) => assert_eq!(p.0, 100),
        _ => panic!("expected zone a's pid"),
    }
    match registry.step(ZoneEvent::Arrived(Request::ZoneProcess(zn("b")))) {
        DaemonAction::Reply(Response::ZoneProcess(p)) => assert_eq!(p.0, 200),
        _ => panic!("expected zone b's pid"),
    }
}

#[test]
fn missing_zone_is_an_error_reply() {
    let mut registry = Registry::new();
    match registry.step(ZoneEvent::ZoneMissing(zn("ghost"))) {
        DaemonAction::Reply(Response::Error(m)) => assert_eq!(m, "Zone does not exist"),
        _ => panic!("expected an error reply"),
    }
}

#[test]
fn failed_spawn_reports_and_registers_nothing() {
    let mut registry = Registry::new();
    registry.step(ZoneEvent::Arrived(Request::ZoneProcess(zn("w"))));
    match registry.step(ZoneEvent::SpawnFailed(zn("w"), String::from("mount refused"))) {
        DaemonAction::Reply(Response::Error(m)) => {
            assert_eq!(m, "Unexpected error: mount refused");
        }
        _ => panic!("expected an error reply"),
    }
    // The failure left no entry: the next request spawns again.
    assert!(matches!(
        registry.step(ZoneEvent::Arrived(Request::ZoneProcess(zn("w")))),
        DaemonAction::MountAndSpawn(_)
    ));
}

#[test]
fn request_wire_form() {
    let wire = encode_request(&Request::ZoneProcess(zn("work")));
    assert_eq!(wire, "{\"ZoneProcess\":\"work\"}");
    match parse_request(&wire) {
        Some(Request::ZoneProcess(n)) => assert_eq!(n.as_str(), "work"),
        None => panic!("the encoder's output must parse"),
    }
}

#[test]
fn request_rejects_junk() {
    assert!(parse_request("").is_none());
    assert!(parse_request("{\"ZoneProcess\":\"\"}").is_none());
    assert!(parse_request("{\"ZoneProcess\":\"a/b\"}").is_none());
    assert!(parse_request("{\"ZoneProcess\":\"ok\"").is_none());
    assert!(parse_request("{\"Error\":\"ok\"}").is_none());
}

#[test]
fn response_pid_wire_form() {
    let wire = encode_response(&Response::ZoneProcess(ZonePid(4242)));
    assert_eq!(wire, "{\"ZoneProcess\":4242}");
    match parse_response(&wire) {
        Some(Response::ZoneProcess(p)) => assert_eq!(p.0, 4242),
        _ => panic!("the encoder's output must parse"),
    }
}

#[test]
fn response_pid_rejects_noncanonical() {
    assert!(parse_response("{\"ZoneProcess\":007}").is_none());
    assert!(parse_response("{\"ZoneProcess\":}").is_none());
    assert!(parse_response("{\"ZoneProcess\":12a}").is_none());
    assert!(parse_response("{\"ZoneProcess\":4294967296}").is_none());
}

#[test]
fn response_error_round_trip() {
    let tricky = String::from("path \"a\\b\"\nnot found");
    let wire = encode_response(&Response::Error(tricky.clone()));
    assert!(!wire.contains('\n'));
    match parse_response(&wire) {
        Some(Response::Error(m)) => assert_eq!(m, tricky),
        _ => panic!("the encoder's output must parse"),
    }
}

#[test]
fn response_error_rejects_malformed() {
    assert!(parse_response("{\"Error\":\"unterminated").is_none());
    assert!(parse_response("{\"Error\":\"bad \\x escape\"}").is_none());
    assert!(parse_response("{\"Error\":\"ok\"} trailing").is_none());
    assert!(parse_response("nothing").is_none());
}

#[test]
fn escape_leaves_plain_text_alone() {
    assert_eq!(escape("plain text"), "plain text");
    assert_eq!(escape("a\"b\\c\nd"), "a\\\"b\\\\c\\nd");
}

#[test]
fn error_round_trip_outside_ascii() {
    let msg = String::from("datei „blöd“ fehlt");
    let wire = encode_response(&Response::Error(msg.clone()));
    match parse_response(&wire) {
        Some(Response::Error(m)) => assert_eq!(m, msg),
        _ => panic!("the encoder's output must parse"),
    }
}

#[test]
fn request_rejects_invalid_name_on_the_wire() {
    assert!(parse_request("{\"ZoneProcess\":\"a b\"}").is_none());
    assert!(parse_request("{\"ZoneProcess\":\"..\"}").is_none());
}

#[test]
fn framing_and_readiness() {
    assert_eq!(frame_line("{\"ZoneProcess\":1}"), "{\"ZoneProcess\":1}\n");
    assert!(is_ready_msg("ready\n"));
    assert!(!is_ready_msg("ready"));
    assert!(!is_ready_msg("something else\n"));
}
