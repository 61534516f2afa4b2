//! The path layout, names, zone and snapshot plans, identity mapping, the
//! git version rule, and the small string helpers.

use mzr::Cmd;
use mzr::ShellOpts;
use mzr::daemon::ZonePid;
use mzr::git::GitError;
use mzr::git::LinkAction;
use mzr::git::check_version_line;
use mzr::git::classify_git_link;
use mzr::git::classify_git_output;
use mzr::git::default_snap_name;
use mzr::git::shared_git_paths;
use mzr::git::short_sha;
use mzr::git::wants_sha_fallback;
use mzr::namespaces::map_root_to_user;
use mzr::namespaces::map_user_to_root;
use mzr::paths::ChangesDir;
use mzr::paths::DaemonDir;
use mzr::paths::DaemonLogFile;
use mzr::paths::DaemonPidFile;
use mzr::paths::DaemonSocketFile;
use mzr::paths::OvfsChangesDir;
use mzr::paths::OvfsMountDir;
use mzr::paths::OvfsWorkDir;
use mzr::paths::ProcDir;
use mzr::paths::ProcNamespaceFile;
use mzr::paths::SnapDir;
use mzr::paths::SnapName;
use mzr::paths::SnapTmpDir;
use mzr::paths::UserWorkDir;
use mzr::paths::ZoneDir;
use mzr::paths::ZoneInfoFile;
use mzr::paths::ZoneName;
use mzr::snapshot;
use mzr::temp_name_for_pid;
use mzr::top_dirs::TopDirs;
use mzr::top_dirs::parent_dir;
use mzr::utils::Confirmed;
use mzr::utils::exit_code_of;
use mzr::utils::maybe_strip_prefix;
use mzr::utils::parse_confirm;
use mzr::utils::parse_pid;
use mzr::utils::add_suffix_to_path;
use mzr::utils::is_suffixable;
use mzr::utils::strip_prefix;
use mzr::utils::trim;
use mzr::zone::CreateError;
use mzr::zone::Zone;
use mzr::zone::ZoneInfo;

fn top_dirs() -> TopDirs {
    TopDirs::from_user_work(UserWorkDir::new(String::from("/home/u/proj")))
}

#[test]
fn layout_under_metadata_root() {
    let dirs = top_dirs();
    assert_eq!(dirs.mzr_dir.as_str(), "/home/u/proj.mzr");
    assert_eq!(dirs.user_work_dir.as_str(), "/home/u/proj");
    let zone_name = ZoneName::new(String::from("z1")).unwrap();
    let snap_name = SnapName::new(String::from("s1")).unwrap();
    let zone_dir = ZoneDir::new(&dirs.mzr_dir, &zone_name);
    assert_eq!(zone_dir.as_str(), "/home/u/proj.mzr/zone/z1");
    assert_eq!(ZoneInfoFile::new(&zone_dir).as_str(), "/home/u/proj.mzr/zone/z1/info.json");
    assert_eq!(SnapDir::new(&dirs.mzr_dir, &snap_name).as_str(), "/home/u/proj.mzr/snap/s1");
    assert_eq!(
        SnapTmpDir::new(&dirs.mzr_dir, &snap_name).as_str(),
        "/home/u/proj.mzr/snap-tmp/s1"
    );
    assert_eq!(ChangesDir::new(&zone_dir).as_str(), "/home/u/proj.mzr/zone/z1/changes");
    assert_eq!(OvfsChangesDir::new(&zone_dir).as_str(), "/home/u/proj.mzr/zone/z1/changes");
    assert_eq!(OvfsWorkDir::new(&zone_dir).as_str(), "/home/u/proj.mzr/zone/z1/ovfs-work");
    assert_eq!(OvfsMountDir::new(&zone_dir).as_str(), "/home/u/proj.mzr/zone/z1/mount");
    let daemon_dir = DaemonDir::new(&dirs.mzr_dir);
    assert_eq!(daemon_dir.as_str(), "/home/u/proj.mzr/daemon");
    assert_eq!(DaemonPidFile::new(&daemon_dir).as_str(), "/home/u/proj.mzr/daemon/process.pid");
    assert_eq!(DaemonLogFile::new(&daemon_dir).as_str(), "/home/u/proj.mzr/daemon/log");
    assert_eq!(DaemonSocketFile::new(&daemon_dir).as_str(), "/home/u/proj.mzr/daemon/socket");
}

// Suffixing ignores trailing separators and exists exactly when the path
// has a usable final component.
#[test]
fn suffixing_file_names() {
    assert!(is_suffixable("/home/u/proj"));
    assert!(is_suffixable("/home/u/proj/"));
    assert!(is_suffixable("b."));
    assert!(is_suffixable("name"));
    assert!(!is_suffixable(""));
    assert!(!is_suffixable("/"));
    assert!(!is_suffixable("///"));
    assert!(!is_suffixable("/a/.."));
    assert!(!is_suffixable("/a/."));
    assert!(!is_suffixable(".."));
    assert_eq!(add_suffix_to_path("/home/u/proj", ".mzr"), "/home/u/proj.mzr");
    assert_eq!(add_suffix_to_path("/home/u/proj/", ".mzr"), "/home/u/proj.mzr");
    assert_eq!(add_suffix_to_path("/a/b.", ".mzr"), "/a/b..mzr");
    let dirs = TopDirs::from_user_work(UserWorkDir::new(String::from("/home/u/proj/")));
    assert_eq!(dirs.mzr_dir.as_str(), "/home/u/proj.mzr");
}

#[test]
fn proc_paths() {
    let proc_dir = ProcDir::new(432);
    assert_eq!(proc_dir.as_str(), "/proc/432");
    assert_eq!(ProcNamespaceFile::new_mount(&proc_dir).as_str(), "/proc/432/ns/mnt");
    assert_eq!(ProcNamespaceFile::new_user(&proc_dir).as_str(), "/proc/432/ns/user");
}

#[test]
fn name_validation() {
    assert!(ZoneName::new(String::from("work-1")).is_ok());
    assert!(SnapName::new(String::from("v1.2_rc")).is_ok());
    assert!(ZoneName::new(String::new()).is_err());
    assert!(ZoneName::new(String::from("a/b")).is_err());
    assert!(ZoneName::new(String::from("a b")).is_err());
    assert!(ZoneName::new(String::from("a\"b")).is_err());
    assert!(ZoneName::new(String::from("a\\b")).is_err());
    assert!(ZoneName::new(String::from(".")).is_err());
    assert!(ZoneName::new(String::from("..")).is_err());
    assert!(ZoneName::new(String::from("...")).is_ok());
}

#[test]
fn temp_names_are_valid() {
    let name = temp_name_for_pid(77);
    assert_eq!(name, "run-77");
    assert!(ZoneName::new(name).is_ok());
}

#[test]
fn zone_reconstruction() {
    let dirs = top_dirs();
    let zone_name = ZoneName::new(String::from("z1")).unwrap();
    let snap_name = SnapName::new(String::from("s1")).unwrap();
    let info = ZoneInfo::with_time(snap_name, 12345);
    let zone = Zone::load_from_info(&dirs.mzr_dir, zone_name, info);
    assert_eq!(zone.zone_dir.as_str(), "/home/u/proj.mzr/zone/z1");
    assert_eq!(zone.snap_dir.as_str(), "/home/u/proj.mzr/snap/s1");
    assert_eq!(zone.ovfs_changes_dir.as_str(), "/home/u/proj.mzr/zone/z1/changes");
    assert_eq!(zone.ovfs_work_dir.as_str(), "/home/u/proj.mzr/zone/z1/ovfs-work");
    assert_eq!(zone.ovfs_mount_dir.as_str(), "/home/u/proj.mzr/zone/z1/mount");
    assert_eq!(zone.info.creation_time, 12345);
    let overlay = zone.overlay_spec();
    assert_eq!(overlay.lower.as_str(), zone.snap_dir.as_str());
    assert_eq!(overlay.upper.as_str(), zone.ovfs_changes_dir.as_str());
    assert_eq!(overlay.work.as_str(), zone.ovfs_work_dir.as_str());
    assert_eq!(overlay.target.as_str(), zone.ovfs_mount_dir.as_str());
    let bind = zone.bind_spec(&dirs.user_work_dir);
    assert_eq!(bind.source.as_str(), zone.ovfs_mount_dir.as_str());
    assert_eq!(bind.target.as_str(), "/home/u/proj");
}

// Zone creation fails when the referenced snapshot does not exist, and
// produces no directory steps at all.
#[test]
fn create_refused_without_snapshot() {
    let dirs = top_dirs();
    let zone_name = ZoneName::new(String::from("z1")).unwrap();
    let snap_name = SnapName::new(String::from("missing")).unwrap();
    match Zone::plan_create(&dirs.mzr_dir, &zone_name, &snap_name, false) {
        Err(CreateError::SnapshotMissing(name)) => assert_eq!(name.as_str(), "missing"),
        _ => panic!("creation must be refused"),
    }
}

#[test]
fn create_steps_when_snapshot_exists() {
    let dirs = top_dirs();
    let zone_name = ZoneName::new(String::from("z1")).unwrap();
    let snap_name = SnapName::new(String::from("s1")).unwrap();
    let steps = Zone::plan_create(&dirs.mzr_dir, &zone_name, &snap_name, true).ok().unwrap();
    assert_eq!(steps.zone_parent, "/home/u/proj.mzr/zone");
    assert_eq!(steps.zone_dir.as_str(), "/home/u/proj.mzr/zone/z1");
    assert_eq!(steps.changes_dir.as_str(), "/home/u/proj.mzr/zone/z1/changes");
    assert_eq!(steps.work_dir.as_str(), "/home/u/proj.mzr/zone/z1/ovfs-work");
    assert_eq!(steps.mount_dir.as_str(), "/home/u/proj.mzr/zone/z1/mount");
    assert_eq!(steps.info_file.as_str(), "/home/u/proj.mzr/zone/z1/info.json");
    assert_eq!(steps.zone.info.snapshot.as_str(), "s1");
}

#[test]
fn zone_dir_error_classification() {
    assert!(matches!(
        Zone::classify_zone_dir_error(true, String::from("exists")),
        CreateError::ZoneExists
    ));
    match Zone::classify_zone_dir_error(false, String::from("disk full")) {
        CreateError::Io(m) => assert_eq!(m, "disk full"),
        _ => panic!("expected an io error"),
    }
}

#[test]
fn snapshot_plan() {
    let dirs = top_dirs();
    let snap_name = SnapName::new(String::from("s1")).unwrap();
    match snapshot::of_workdir(&dirs, &snap_name, true) {
        Err(snapshot::SnapError::AlreadyExists) => {}
        _ => panic!("an existing name must be refused"),
    }
    let steps = snapshot::of_workdir(&dirs, &snap_name, false).ok().unwrap();
    assert_eq!(steps.snap_parent, "/home/u/proj.mzr/snap");
    assert_eq!(steps.snap_dir.as_str(), "/home/u/proj.mzr/snap/s1");
    let words: Vec<&str> = steps.copy_args.iter().map(|s| s.as_str()).collect();
    assert_eq!(
        words,
        [
            "--archive",
            "--reflink=auto",
            "--no-clobber",
            "--no-target-directory",
            "/home/u/proj",
            "/home/u/proj.mzr/snap/s1",
        ]
    );
}

#[test]
fn identity_mapping_writes() {
    let writes = map_user_to_root(100, 1000, 1001);
    assert_eq!(writes.len(), 3);
    assert_eq!(writes[0].path, "/proc/100/uid_map");
    assert_eq!(writes[0].contents, "0 1000 1\n");
    assert_eq!(writes[1].path, "/proc/100/setgroups");
    assert_eq!(writes[1].contents, "deny");
    assert_eq!(writes[2].path, "/proc/100/gid_map");
    assert_eq!(writes[2].contents, "0 1001 1\n");
    let back = map_root_to_user(101, 1000, 1001);
    assert_eq!(back[0].contents, "1000 0 1\n");
    assert_eq!(back[2].contents, "1001 0 1\n");
}

#[test]
fn version_rule() {
    match check_version_line("git version 2.39.2") {
        Ok(v) => {
            assert_eq!((v.major, v.minor, v.patch, v.has_pre), (2, 39, 2, false));
        }
        _ => panic!("a current git must pass"),
    }
    assert!(check_version_line("git version 1.8.0").is_ok());
    match check_version_line("git version 1.7.12") {
        Err(GitError::TooOld(v)) => assert_eq!((v.major, v.minor), (1, 7)),
        _ => panic!("an old git must be refused"),
    }
    assert!(matches!(
        check_version_line("git version 1.8.0-rc1"),
        Err(GitError::TooOld(_))
    ));
    assert!(matches!(
        check_version_line("git version nonsense"),
        Err(GitError::OtherError(_))
    ));
    assert!(matches!(
        check_version_line("no prefix here"),
        Err(GitError::OtherError(_))
    ));
}

#[test]
fn git_output_classification() {
    match classify_git_output(true, 0, String::from("git x"), String::from("out"), String::new(), None)
    {
        Ok(out) => assert_eq!(out, "out"),
        _ => panic!("success passes the output through"),
    }
    let too_old = check_version_line("git version 1.0.0").err().unwrap();
    assert!(matches!(
        classify_git_output(
            false,
            1,
            String::from("git x"),
            String::new(),
            String::from("err"),
            Some(too_old),
        ),
        Err(GitError::TooOld(_))
    ));
    match classify_git_output(
        false,
        128,
        String::from("git x"),
        String::new(),
        String::from("fatal"),
        None,
    ) {
        Err(GitError::ExitStatus(cmd, err, code)) => {
            assert_eq!(cmd, "git x");
            assert_eq!(err, "fatal");
            assert_eq!(code, 128);
        }
        _ => panic!("expected the exit status"),
    }
}

#[test]
fn sha_fallback() {
    let detached = GitError::ExitStatus(
        String::from("git symbolic-ref"),
        String::from("fatal: HEAD is not a symbolic ref\n"),
        128,
    );
    assert!(wants_sha_fallback(&detached));
    let other = GitError::ExitStatus(String::from("git"), String::from("other\n"), 1);
    assert!(!wants_sha_fallback(&other));
    assert!(!wants_sha_fallback(&GitError::NotFound));
    assert_eq!(short_sha("e32afab7b03"), "e32afa");
}

#[test]
fn default_names() {
    assert_eq!(default_snap_name(" main\n").ok().unwrap().as_str(), "main");
    assert!(default_snap_name("feature/x").is_err());
    assert!(default_snap_name("   \n").is_err());
}

#[test]
fn shared_repository_paths() {
    let paths = shared_git_paths();
    assert_eq!(paths.len(), 10);
    assert_eq!(paths[0], "config");
    assert_eq!(paths[9], "svn");
}

#[test]
fn git_link_classification() {
    assert!(matches!(classify_git_link(None, "/repo/.git/config"), LinkAction::Create));
    assert!(matches!(
        classify_git_link(Some(String::from("/repo/.git/config")), "/repo/.git/config"),
        LinkAction::AlreadyCorrect
    ));
    assert!(matches!(
        classify_git_link(Some(String::from("/other")), "/repo/.git/config"),
        LinkAction::WrongTarget
    ));
}

#[test]
fn upward_search_steps() {
    assert_eq!(parent_dir("/a/b").as_deref(), Some("/a"));
    assert_eq!(parent_dir("/a").as_deref(), Some("/"));
    assert_eq!(parent_dir("/").as_deref(), None);
    assert_eq!(parent_dir("plain").as_deref(), None);
}

#[test]
fn pid_parsing() {
    assert_eq!(parse_pid("1234"), Some(1234));
    assert_eq!(parse_pid("+7"), Some(7));
    assert_eq!(parse_pid("-5"), Some(-5));
    assert_eq!(parse_pid("2147483647"), Some(2147483647));
    assert_eq!(parse_pid("2147483648"), None);
    assert_eq!(parse_pid("-2147483648"), Some(-2147483648));
    assert_eq!(parse_pid("12x"), None);
    assert_eq!(parse_pid(""), None);
    assert_eq!(parse_pid("007"), Some(7));
}

#[test]
fn string_helpers() {
    assert_eq!(strip_prefix("git version ", "git version 1.8.0").as_deref(), Some("1.8.0"));
    assert_eq!(strip_prefix("abc", "ab"), None);
    assert_eq!(maybe_strip_prefix("/a", "/a/b"), "b");
    assert_eq!(maybe_strip_prefix("/a", "/ab"), "/ab");
    assert_eq!(maybe_strip_prefix("/a", "/a"), "");
    assert_eq!(trim("  ref\t\n"), "ref");
}

#[test]
fn confirmation_answers() {
    assert!(matches!(parse_confirm("y\n"), Ok(Confirmed::Yes)));
    assert!(matches!(parse_confirm("n"), Ok(Confirmed::No)));
    match parse_confirm("quit\n") {
        Err(other) => assert_eq!(other, "quit"),
        _ => panic!("expected a rejection"),
    }
}

#[test]
fn exit_codes() {
    assert_eq!(exit_code_of(true, Some(0), None), 0);
    assert_eq!(exit_code_of(false, Some(3), None), 3);
    assert_eq!(exit_code_of(false, None, Some(9)), 137);
}

#[test]
fn pid_wrappers() {
    let p = ZonePid::from_pid(55);
    assert_eq!(p.to_pid(), 55);
}

#[test]
fn command_options_carry_names() {
    let opts = ShellOpts {
        zone_name: ZoneName::new(String::from("z")).unwrap(),
        snap_name: None,
    };
    let cmd = Cmd::Shell { opts };
    match cmd {
        Cmd::Shell { opts } => {
            assert_eq!(opts.zone_name.as_str(), "z");
            assert!(opts.snap_name.is_none());
        }
        _ => panic!("expected the shell command"),
    }
}
