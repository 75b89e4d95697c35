use croh::binary::Scaled;
use croh::croc::{
    on_croc_event, on_croc_exit, on_croc_start_failure, parse_curve, parse_hash, receive_options,
    sanitize_code, send_options, show_curve, show_hash, trust_options, CrocConfig, CrocEvent,
    CrocExit, CrocOptions, Curve, HashAlgorithm,
};
use croh::files::{
    add_files, chosen_file, listed_name, listed_names, name_or_path, names_and_paths, remove_file,
    selected_file, start_push, start_send, strip_verbatim,
};
use croh::peers::{Permissions, TrustedPeer};
use croh::time::UtcTime;
use croh::transfer::{
    active_count, on_transfer_event, progress_percent, running_secs, save_to_history,
    shows_elapsed, sort_newest_first, transfer_item, Gain, HistoryAction, Kind, Patch, Role,
    SessionStatsTracker, Status, Transfer, TransferEvent,
};

fn s(t: &str) -> String {
    t.to_string()
}

fn value(p: Scaled) -> f64 {
    p.mant as f64 * 2f64.powi(p.exp as i32)
}

#[test]
fn progress_matches_double_precision() {
    assert_eq!(value(progress_percent(1, 0)), 0.0);
    assert_eq!(value(progress_percent(1, 3)), 1.0 / 3.0 * 100.0);
    let mut n: u64 = 88172645463325252;
    for round in 0..5_000u64 {
        n ^= n << 13;
        n ^= n >> 7;
        n ^= n << 17;
        let total = n >> (round % 50);
        let done = n.rotate_left(17) >> (round % 47);
        if total > 0 {
            assert_eq!(value(progress_percent(done, total)), done as f64 / total as f64 * 100.0);
        }
    }
}

#[test]
fn transfers_between_peers_follow_their_events() {
    let role = Role::ReceivedPush { peer: s("Ann"), offered: 77 };
    let step = on_transfer_event(&role, &TransferEvent::Started, 0);
    assert_eq!(step.patch, Some(Patch::now(Status::Running)));
    assert!(step.refresh && !step.record && step.gain.is_none());
    let progress = TransferEvent::Progress { transferred: 1, total: 4, speed: s("9 B/s") };
    let step = on_transfer_event(&role, &progress, 0);
    let patch = step.patch.unwrap();
    assert_eq!(patch.bytes, Some((1, 4)));
    assert_eq!(patch.speed, Some(s("9 B/s")));
    assert_eq!(value(patch.progress.unwrap()), 25.0);
    assert_eq!(patch.status, None);
    let step = on_transfer_event(&role, &TransferEvent::FileComplete, 0);
    assert!(step.patch.is_none() && !step.refresh && !step.record);
}

#[test]
fn completed_transfers_count() {
    for (role, gain, status) in [
        (
            Role::ReceivedPush { peer: s("Ann"), offered: 77 },
            Gain { uploaded: 0, downloaded: 77 },
            "Received files from Ann",
        ),
        (
            Role::ServedPull { peer: s("Ann") },
            Gain { uploaded: 5, downloaded: 0 },
            "Pull completed for Ann",
        ),
        (Role::SentPush, Gain { uploaded: 5, downloaded: 0 }, "Push completed successfully"),
        (
            Role::FetchedPull { peer: s("Ann") },
            Gain { uploaded: 0, downloaded: 5 },
            "Pull from Ann completed",
        ),
    ] {
        let step = on_transfer_event(&role, &TransferEvent::Complete, 5);
        assert_eq!(step.gain, Some(gain));
        assert_eq!(step.status, Some(s(status)));
        assert_eq!(step.patch, Some(Patch::completed()));
        assert!(step.record && step.refresh && step.refresh_again);
    }
    let done = Patch::completed();
    assert_eq!(value(done.progress.unwrap()), 100.0);
    assert!(done.completed);
}

#[test]
fn failed_and_cancelled_transfers_are_recorded() {
    for (role, failed, again, cancelled) in [
        (Role::ReceivedPush { peer: s("A"), offered: 1 }, "Receive failed: e", true, None),
        (Role::ServedPull { peer: s("A") }, "Pull failed: e", true, None),
        (Role::SentPush, "Push failed: e", false, Some(s("Push cancelled"))),
        (Role::FetchedPull { peer: s("A") }, "Pull failed: e", false, None),
    ] {
        let step = on_transfer_event(&role, &TransferEvent::Failed { error: s("e") }, 5);
        assert_eq!(step.status, Some(s(failed)));
        assert_eq!(step.patch, Some(Patch::failed("e")));
        assert!(step.record && step.gain.is_none());
        assert_eq!(step.refresh_again, again);
        let step = on_transfer_event(&role, &TransferEvent::Cancelled, 5);
        assert_eq!(step.status, cancelled);
        assert_eq!(step.patch, Some(Patch::now(Status::Cancelled)));
        assert!(step.record && !step.refresh_again);
    }
}

#[test]
fn only_ended_transfers_go_into_history() {
    for status in [Status::Completed, Status::Failed, Status::Cancelled] {
        assert_eq!(save_to_history(Some(status), true), HistoryAction { save: true, remove: false });
        assert_eq!(save_to_history(Some(status), false), HistoryAction { save: true, remove: true });
    }
    for status in [None, Some(Status::Pending), Some(Status::Running)] {
        assert_eq!(save_to_history(status, false), HistoryAction { save: false, remove: false });
    }
}

#[test]
fn sessions_count_within_their_width() {
    let mut stats = SessionStatsTracker::new();
    let gain = Gain { uploaded: 3, downloaded: 0 };
    assert!(stats.has_room_for(&gain));
    stats.count(&gain);
    stats.count(&Gain { uploaded: 0, downloaded: 9 });
    assert_eq!(
        (stats.bytes_uploaded, stats.bytes_downloaded, stats.transfers_completed),
        (3, 9, 2)
    );
    assert!(!stats.has_room_for(&Gain { uploaded: u64::MAX, downloaded: 0 }));
    assert!(!stats.has_room_for(&Gain { uploaded: 0, downloaded: u64::MAX }));
    stats.transfers_completed = u32::MAX;
    assert!(!stats.has_room_for(&gain));
}

#[test]
fn newest_transfers_come_first() {
    let at = |secs: i64, nanos: u32| UtcTime::new(secs, nanos).unwrap();
    let times = vec![at(5, 0), at(9, 1), at(5, 0), at(9, 2), at(-3, 0)];
    assert_eq!(sort_newest_first(&times), vec![3, 1, 0, 2, 4]);
    assert!(sort_newest_first(&vec![]).is_empty());
    let many: Vec<UtcTime> = (0..50i64).map(|i| at(i * 37 % 11, (i % 3) as u32)).collect();
    let mut places = sort_newest_first(&many);
    places.sort();
    assert_eq!(places, (0..50).collect::<Vec<usize>>());
}

#[test]
fn transfers_are_listed() {
    let t = Transfer {
        id: s("1"),
        kind: Kind::IrohPull,
        status: Status::Running,
        code: None,
        files: vec![s("a"), s("b")],
        speed: s("fast"),
        error: Some(s("e")),
        total_size: 0,
        transferred: 0,
    };
    let item = transfer_item(&t);
    assert_eq!(item.transfer_type, "pull");
    assert_eq!(item.status, "running");
    assert_eq!(item.files, "a, b");
    assert_eq!((item.code.as_str(), item.error.as_str(), item.speed.as_str()), ("", "e", "fast"));
    assert_eq!(item.total_size, if t.total_size > 0 { Some(t.total_size) } else { None });
    let empty = Transfer {
        id: s(""),
        kind: Kind::Send,
        status: Status::Pending,
        code: None,
        files: vec![],
        speed: s(""),
        error: None,
        total_size: 9,
        transferred: 0,
    };
    let shown = transfer_item(&empty);
    assert_eq!((shown.total_size, shown.transferred), (Some(9), None));
    let names = [
        (Kind::Send, Status::Pending, "send", "pending"),
        (Kind::Receive, Status::Completed, "receive", "completed"),
        (Kind::IrohPush, Status::Failed, "push", "failed"),
        (Kind::Send, Status::Cancelled, "send", "cancelled"),
    ];
    for (kind, status, kind_name, status_name) in names {
        let item = transfer_item(&Transfer { kind, status, files: vec![], id: s(""), code: None, speed: s(""), error: None, ..t });
        assert_eq!((item.transfer_type.as_str(), item.status.as_str()), (kind_name, status_name));
    }
    let start = UtcTime::new(100, 0).unwrap();
    assert_eq!(running_secs(&start, &UtcTime::new(107, 0).unwrap()), 7);
    assert_eq!(running_secs(&start, &UtcTime::new(90, 0).unwrap()), 0);
    assert!(shows_elapsed(Status::Running, 1));
    assert!(!shows_elapsed(Status::Running, 0) && !shows_elapsed(Status::Failed, 5));
    let all = vec![Status::Pending, Status::Running, Status::Completed, Status::Failed];
    assert_eq!(active_count(&all), 2);
}

fn config() -> CrocConfig {
    CrocConfig {
        default_hash: None,
        default_curve: Some(Curve::P384),
        throttle: Some(s("1M")),
        no_local: true,
        default_relay: Some(s("r")),
    }
}

#[test]
fn croc_gets_its_options() {
    let want = CrocOptions {
        code: Some(s("my-code")),
        hash: HashAlgorithm::Md5,
        curve: Some(Curve::P384),
        throttle: Some(s("1M")),
        no_local: true,
        relay: Some(s("r")),
    };
    assert_eq!(send_options(&config(), "my-code"), want);
    assert_eq!(send_options(&config(), "").code, None);
    assert_eq!(receive_options(&config()), CrocOptions { code: None, no_local: false, ..want });
    let trust = trust_options(&CrocConfig { default_hash: Some(HashAlgorithm::Xxhash), ..config() });
    assert_eq!(trust.hash, HashAlgorithm::Md5);
    assert_eq!((trust.throttle, trust.no_local, trust.relay), (None, false, Some(s("r"))));
    let blank = CrocConfig { throttle: Some(s("")), default_relay: Some(s("")), ..config() };
    let options = send_options(&blank, "");
    assert_eq!((options.throttle, options.relay), (None, None));
    let chosen = CrocConfig { default_hash: Some(HashAlgorithm::Imohash), ..config() };
    assert_eq!(receive_options(&chosen).hash, HashAlgorithm::Imohash);
}

#[test]
fn choices_are_read_and_shown() {
    for name in ["xxhash", "imohash", "md5", ""] {
        assert_eq!(show_hash(parse_hash(name)), name);
    }
    for name in ["siec", "p256", "p384", "p521", ""] {
        assert_eq!(show_curve(parse_curve(name)), name);
    }
    assert_eq!(parse_hash("MD5"), None);
    assert_eq!(parse_curve("p25"), None);
}

#[test]
fn codes_are_cleaned() {
    assert_eq!(sanitize_code(" 7-alpha-beta\u{0}-gamma\n"), Some(s("7-alpha-beta-gamma")));
    assert_eq!(sanitize_code("a b"), Some(s("a b")));
    assert_eq!(sanitize_code("\u{0}\n \t"), None);
    assert_eq!(sanitize_code(""), None);
    let once = sanitize_code("\u{1} x \u{7f}").unwrap();
    assert_eq!(sanitize_code(once.as_str()), Some(once));
}

#[test]
fn croc_events_are_taken_in() {
    let code = CrocEvent::CodeReady { code: s("c") };
    let step = on_croc_event(true, &code);
    assert_eq!(step.status, Some(s("Code: c")));
    assert_eq!(step.patch.unwrap().code, Some(s("c")));
    assert!(on_croc_event(false, &code).patch.is_none());
    let half = CrocEvent::Progress { percentage: Scaled { mant: 50, exp: 0 }, speed: s("v") };
    let patch = on_croc_event(false, &half).patch.unwrap();
    assert_eq!((patch.progress, patch.speed), (Some(Scaled { mant: 50, exp: 0 }), Some(s("v"))));
    let step = on_croc_event(true, &CrocEvent::Completed);
    assert_eq!(step.status, Some(s("Transfer completed!")));
    assert!(step.record && step.finished && step.done);
    let step = on_croc_event(false, &CrocEvent::Completed);
    assert_eq!(step.status, Some(s("Receive completed!")));
    let step = on_croc_event(false, &CrocEvent::Failed { error: s("e") });
    assert_eq!(step.status, Some(s("Failed: e")));
    let patch = step.patch.unwrap();
    assert_eq!((patch.status, patch.error), (Some(Status::Failed), Some(s("e"))));
    assert!(patch.completed && step.record && step.done && !step.finished);
    let step = on_croc_event(true, &CrocEvent::Other);
    assert!(step.patch.is_none() && step.status.is_none() && !step.done);
}

#[test]
fn croc_exits_are_taken_in() {
    let step = on_croc_exit(true, Some(Status::Running), CrocExit::Success);
    assert_eq!(step.status, Some(s("Transfer completed!")));
    assert!(step.finished);
    let step = on_croc_exit(true, Some(Status::Running), CrocExit::Failure);
    assert_eq!(step.status, Some(s("Transfer failed")));
    let step = on_croc_exit(false, Some(Status::Running), CrocExit::Failure);
    assert_eq!(step.status, Some(s("Receive failed")));
    assert_eq!(step.patch.unwrap().error, Some(s("Transfer failed")));
    for (current, exit) in [
        (Some(Status::Running), CrocExit::Unknown),
        (Some(Status::Completed), CrocExit::Success),
        (Some(Status::Cancelled), CrocExit::Failure),
        (None, CrocExit::Success),
    ] {
        let step = on_croc_exit(true, current, exit);
        assert!(step.patch.is_none() && step.status.is_none() && !step.record && step.done);
    }
    let step = on_croc_start_failure("e");
    assert_eq!(step.status, Some(s("Error: e")));
    assert!(!step.record && !step.patch.unwrap().completed);
}

#[test]
fn files_are_chosen_and_dropped() {
    let mut files = vec![selected_file(Some(s("a")), 1, s("/x/a"))];
    add_files(&mut files, vec![selected_file(None, 2, s("/")), selected_file(Some(s("c")), 3, s("/c"))]);
    assert_eq!(files[1].name, "unknown");
    assert!(!remove_file(&mut files, 3) && !remove_file(&mut files, -1));
    assert!(remove_file(&mut files, 1));
    let (names, paths) = names_and_paths(&files);
    assert_eq!(names, vec!["a", "c"]);
    assert_eq!(paths, vec!["/x/a", "/c"]);
    for (path, name) in [
        ("/home/ann/a.txt", "a.txt"),
        ("plain", "plain"),
        ("dir/sub//", "sub"),
        ("/", "unknown"),
        ("", "unknown"),
        ("/home/..", "unknown"),
    ] {
        let file = chosen_file(path, 7);
        assert_eq!((file.name.as_str(), file.size, file.path.as_str()), (name, 7, path));
    }
    assert_eq!(start_send(0), None);
    assert_eq!(start_send(2), Some(s("Starting send...")));
}

#[test]
fn files_are_listed_by_name() {
    assert_eq!(listed_name("/home/ann/a.txt"), "a.txt");
    assert_eq!(listed_name("plain"), "plain");
    assert_eq!(listed_name("a//b/./"), "b");
    assert_eq!(listed_name("./c"), "c");
    assert_eq!(listed_name(""), "");
    assert_eq!(listed_name("/.."), "/..");
    assert_eq!(listed_names(&vec![s("/x/y"), s("/")]), vec!["y", "/"]);
    assert_eq!(name_or_path("p", Some(s("n"))), "n");
    assert_eq!(name_or_path("p", None), "p");
    assert_eq!(strip_verbatim("\\\\?\\C:\\x"), "C:\\x");
    assert_eq!(strip_verbatim("C:\\x"), "C:\\x");
    assert_eq!(strip_verbatim("\\\\?"), "\\\\?");
}

#[test]
fn pushes_need_files_a_peer_and_permission() {
    let none = Permissions {
        push: false,
        pull: false,
        browse: false,
        status: false,
        chat: false,
        screen_view: false,
        screen_control: false,
    };
    let peer = |push: bool| {
        Some(TrustedPeer {
            id: s("i"),
            endpoint_id: s("e"),
            name: s("Ann"),
            added_at: UtcTime::new(0, 0).unwrap(),
            last_seen: None,
            relay_url: None,
            permissions_granted: none,
            their_permissions: Permissions { push, ..none },
            is_guest: false,
            expires_at: None,
            remaining_secs: None,
            extension_count: 0,
            promotion_pending: false,
        })
    };
    assert_eq!(start_push(false, "i", &peer(true)), Err(s("No files selected for push")));
    assert_eq!(start_push(true, "i", &None), Err(s("Peer not found: i")));
    assert_eq!(start_push(true, "i", &peer(false)), Err(s("Peer Ann does not allow push")));
    assert_eq!(start_push(true, "i", &peer(true)), Ok(s("Starting push to Ann...")));
}
