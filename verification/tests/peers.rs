use croh::actions::{
    announced_permissions, forget_expired, grant_permissions, on_extension_given, on_promoted,
    pause_peer, refresh_status, remove_peer, rename_status, resume_peer, revoke_peer, revoke_reason,
    speed_failure, speed_status,
};
use croh::listener::ExtensionOutcome;
use croh::peerlist::{
    apply_statuses, can_change_row, change_peer_row, count_online, find_row, format_access_left,
    peer_items, peers_to_ping, pushable_peers, refresh_peer_rows, RowChange, SpeedResult,
};
use croh::peers::{
    apply_status_to_peer_item, can_record_ping, can_record_ping_of, is_online, is_showable,
    mark_online, record_ping, record_ping_of, record_report, record_speeds, trusted_peer_to_item,
    update_their_permissions, PeerConnectionStatus, PeerItem, Permissions, StatusReport,
    TrustedPeer,
};
use croh::textmap::{TextMap, TextSet};
use croh::time::{now, UtcTime};

fn none() -> Permissions {
    Permissions {
        push: false,
        pull: false,
        browse: false,
        status: false,
        chat: false,
        screen_view: false,
        screen_control: false,
    }
}

fn at(secs: i64) -> UtcTime {
    UtcTime::new(secs, 0).unwrap()
}

fn peer(id: &str) -> TrustedPeer {
    TrustedPeer {
        id: id.to_string(),
        endpoint_id: "0123456789abcdef0123".to_string(),
        name: format!("name of {}", id),
        added_at: at(0),
        last_seen: None,
        relay_url: Some("https://relay".to_string()),
        permissions_granted: Permissions { push: true, browse: true, ..none() },
        their_permissions: Permissions { push: true, pull: true, ..none() },
        is_guest: false,
        expires_at: None,
        remaining_secs: None,
        extension_count: 0,
        promotion_pending: false,
    }
}

#[test]
fn rows_show_what_is_known_of_a_peer() {
    let mut p = peer("a");
    assert!(is_showable(&p));
    let item = trusted_peer_to_item(&p);
    assert_eq!(item.endpoint_id, "01234567...cdef0123");
    assert_eq!(item.status, "offline");
    assert_eq!(item.last_seen, "Never");
    assert_eq!(item.added_at, "1970-01-01");
    assert_eq!(item.relay_url, "https://relay");
    assert!(item.can_push && item.can_pull && !item.can_browse && !item.can_screen_view);
    assert!(item.allow_push && !item.allow_pull && item.allow_browse);
    assert_eq!((item.latency_ms, item.avg_latency_ms, item.ping_count), (-1, -1, 0));
    assert_eq!(item.peer_dnd_mode, "off");
    assert!(item.connected && !item.revoked && !item.we_revoked && !item.expanded);
    assert_eq!(item.time_remaining, "");
    p.is_guest = true;
    p.remaining_secs = Some(90_000);
    p.expires_at = Some(at(1_700_000_000));
    p.last_seen = Some(at(60));
    p.extension_count = 2;
    p.endpoint_id = "short".to_string();
    let item = trusted_peer_to_item(&p);
    assert_eq!(item.time_remaining, "1d 1h");
    assert_eq!(item.expires_at, "2023-11-14 22:13");
    assert_eq!(item.last_seen, "1970-01-01 00:01");
    assert_eq!(item.extension_count, 2);
    assert_eq!(item.endpoint_id, "short");
}

#[test]
fn pings_keep_ten_samples() {
    let mut s = PeerConnectionStatus::unknown();
    assert_eq!(s.connection_type, "unknown");
    for i in 1..=12u32 {
        assert!(can_record_ping(&s, Some(i * 10)));
        record_ping(&mut s, Some(i * 10), i % 2 == 0, i as u64, at(i as i64));
    }
    assert_eq!(s.latency_history, vec![30, 40, 50, 60, 70, 80, 90, 100, 110, 120]);
    assert_eq!(s.avg_latency_ms, Some(75));
    assert_eq!(s.latency_ms, Some(120));
    assert_eq!(s.ping_count, 12);
    assert_eq!(s.connection_type, "relay");
    assert_eq!(s.last_ping, Some(12));
    record_ping(&mut s, None, true, 99, at(99));
    assert!(!s.online);
    assert_eq!(s.avg_latency_ms, Some(75));
    assert_eq!(s.ping_count, 12);
    record_ping(&mut s, Some(5), false, 100, at(100));
    assert_eq!(s.connection_type, "direct");
    s.latency_history = vec![u32::MAX];
    assert!(!can_record_ping(&s, Some(1)));
    s.latency_history = vec![];
    s.ping_count = u32::MAX;
    assert!(!can_record_ping(&s, Some(1)));
    assert!(can_record_ping(&s, None));
}

#[test]
fn statuses_show_in_rows() {
    let mut item = trusted_peer_to_item(&peer("a"));
    let mut s = PeerConnectionStatus::unknown();
    s.online = true;
    s.latency_ms = Some(12);
    s.last_contact = Some(now());
    s.peer_free_space = Some(50_000_000_000);
    s.peer_total_space = Some(200_000_000_000);
    s.peer_uptime = Some("1h".to_string());
    s.peer_active_transfers = Some(3);
    s.connection_type = "direct".to_string();
    apply_status_to_peer_item(&mut item, &s);
    assert_eq!(item.status, "online");
    assert_eq!(item.latency_ms, 12);
    assert_eq!(item.avg_latency_ms, -1);
    assert_eq!(item.last_contact, "Just now");
    assert_eq!(item.peer_free_space, "50.0 GB");
    assert_eq!(item.peer_total_space, "200.0 GB");
    assert_eq!(item.peer_storage_percent, 25);
    assert_eq!(item.peer_uptime, "1h");
    assert_eq!(item.peer_active_transfers, 3);
    assert_eq!(item.name, "name of a");
    s.peer_total_space = Some(0);
    s.latency_ms = Some(u32::MAX);
    apply_status_to_peer_item(&mut item, &s);
    assert_eq!(item.peer_storage_percent, 0);
    assert_eq!(item.peer_total_space, "-");
    assert_eq!(item.latency_ms, -1);
}

#[test]
fn status_maps_change_one_peer_at_a_time() {
    let mut m: TextMap<PeerConnectionStatus> = TextMap::new();
    mark_online(&mut m, "a", 7);
    assert!(is_online(&m, "a") && !is_online(&m, "b"));
    assert_eq!(m.get("a").unwrap().last_ping, Some(7));
    assert!(can_record_ping_of(&m, "b", Some(3)));
    record_ping_of(&mut m, "b", Some(3), false, 8, at(8));
    assert_eq!(m.get("b").unwrap().latency_history, vec![3]);
    let report = || StatusReport {
        hostname: "host".to_string(),
        os: "linux".to_string(),
        version: "1".to_string(),
        free_space: 1,
        total_space: 2,
        uptime: "3m".to_string(),
        active_transfers: 4,
    };
    record_report(&mut m, "c", report());
    assert!(m.get("c").is_none());
    record_report(&mut m, "a", report());
    let a = m.get("a").unwrap();
    assert_eq!(a.peer_hostname, Some("host".to_string()));
    assert_eq!(a.peer_free_space, Some(1));
    assert_eq!(a.peer_active_transfers, Some(4));
    assert!(a.online);
    record_speeds(&mut m, "c", "1 MB/s".to_string(), "2 MB/s".to_string());
    assert_eq!(m.get("c").unwrap().last_upload_speed, Some("1 MB/s".to_string()));
    assert_eq!(m.get("c").unwrap().last_download_speed, Some("2 MB/s".to_string()));
    assert!(!forget_expired(&mut m, &vec!["a".to_string()], 0));
    assert!(!forget_expired(&mut m, &vec![], 1));
    assert!(m.get("a").is_some());
    assert!(forget_expired(&mut m, &vec!["a".to_string(), "x".to_string()], 1));
    assert!(m.get("a").is_none() && m.get("b").is_some());
}

#[test]
fn refreshes_keep_user_settings() {
    let peers = vec![peer("a"), peer("b"), peer("c")];
    let mut m: TextMap<PeerConnectionStatus> = TextMap::new();
    for id in ["a", "b", "c"] {
        mark_online(&mut m, id, 1);
    }
    let mut current = peer_items(&peers);
    assert!(change_peer_row(&mut current, "a", &RowChange::Paused).is_some());
    let _ = change_peer_row(&mut current, "a", &RowChange::Expanded { expanded: true });
    let _ = change_peer_row(&mut current, "b", &RowChange::WeRevoked);
    let rows = refresh_peer_rows(&peers, &m, &at(0), &current);
    assert_eq!(rows.len(), 3);
    assert!(rows[0].expanded && !rows[0].connected);
    assert_eq!(rows[0].status, "offline");
    assert!(rows[1].we_revoked);
    assert_eq!(rows[1].status, "offline");
    assert_eq!(rows[2].status, "online");
    assert!(rows[2].connected);
    assert_eq!(count_online(&peers, &m), 3);
    let (names, ids) = pushable_peers(&rows, true);
    assert_eq!(ids, vec!["a", "c"]);
    assert_eq!(names, vec!["name of a", "name of c"]);
    let (_, ids) = pushable_peers(&rows, false);
    assert_eq!(ids, vec!["a", "b", "c"]);
    let mut rows = rows;
    let _ = change_peer_row(&mut rows, "c", &RowChange::Revoked);
    assert_eq!(rows[2].status, "revoked");
    assert_eq!(pushable_peers(&rows, false).1, vec!["a", "b"]);
    apply_statuses(&mut rows, &m, &at(0));
    assert_eq!(rows[0].status, "online");
    let again = refresh_peer_rows(&peers, &m, &at(0), &vec![]);
    assert!(again[0].connected && !again[0].expanded);
}

#[test]
fn rows_of_one_identifier_follow_the_last() {
    let peers = vec![peer("a")];
    let mut first = trusted_peer_to_item(&peers[0]);
    first.expanded = true;
    let second = trusted_peer_to_item(&peers[0]);
    let m: TextMap<PeerConnectionStatus> = TextMap::new();
    let rows = refresh_peer_rows(&peers, &m, &at(0), &vec![first, second]);
    assert!(!rows[0].expanded);
}

fn two_rows() -> Vec<PeerItem> {
    vec![trusted_peer_to_item(&peer("a")), trusted_peer_to_item(&peer("a"))]
}

#[test]
fn changes_touch_the_first_row_only() {
    let mut rows = two_rows();
    let r = change_peer_row(
        &mut rows,
        "a",
        &RowChange::Dnd { mode: "busy".to_string(), message: "later".to_string() },
    );
    assert_eq!(r, Some(0));
    assert_eq!(rows[0].peer_dnd_mode, "busy");
    assert_eq!(rows[0].peer_dnd_message, "later");
    assert_eq!(rows[1].peer_dnd_mode, "off");
    assert_eq!(change_peer_row(&mut rows, "zzz", &RowChange::Revoked), None);
    assert_eq!(find_row(&rows, "a"), Some(0));
    let extended = RowChange::Extended { expires_at: "e".to_string(), time_remaining: "t".to_string() };
    assert!(can_change_row(&rows, "a", &extended));
    let _ = change_peer_row(&mut rows, "a", &extended);
    assert_eq!((rows[0].extension_count, rows[0].expires_at.as_str()), (1, "e"));
    let _ = change_peer_row(
        &mut rows,
        "a",
        &RowChange::ExtendedTo { expires_at: "f".to_string(), time_remaining: "u".to_string(), count: 9 },
    );
    assert_eq!((rows[0].extension_count, rows[0].time_remaining.as_str()), (9, "u"));
    rows[1].extension_count = i32::MAX;
    assert!(can_change_row(&rows, "a", &extended));
    rows[0].extension_count = i32::MAX;
    assert!(!can_change_row(&rows, "a", &extended));
    let _ = change_peer_row(&mut rows, "a", &RowChange::PromotionPending);
    assert!(rows[0].promotion_pending);
    rows[0].is_guest = true;
    let _ = change_peer_row(&mut rows, "a", &RowChange::Promoted);
    assert!(!rows[0].is_guest && !rows[0].promotion_pending);
    assert_eq!((rows[0].extension_count, rows[0].expires_at.as_str()), (0, ""));
    let _ = change_peer_row(&mut rows, "a", &RowChange::SpeedTestStarted);
    assert!(rows[0].speed_test_running);
    let result = SpeedResult {
        upload: "1".to_string(),
        download: "2".to_string(),
        latency: "3".to_string(),
    };
    assert_eq!(speed_status(&result), "Speed test: ↑1 ↓2 (3ms)");
    let _ = change_peer_row(&mut rows, "a", &RowChange::SpeedTestDone { result: Some(result) });
    assert!(!rows[0].speed_test_running);
    assert_eq!(rows[0].speed_test_latency, "3 ms");
    let _ = change_peer_row(&mut rows, "a", &RowChange::SpeedTestDone { result: None });
    assert_eq!(rows[0].speed_test_upload, "1");
    let _ = change_peer_row(
        &mut rows,
        "a",
        &RowChange::Allowed { push: false, pull: true, browse: false, screen_view: true },
    );
    assert!(!rows[0].allow_push && rows[0].allow_pull && rows[0].allow_screen_view);
    let _ = change_peer_row(&mut rows, "a", &RowChange::Paused);
    let _ = change_peer_row(&mut rows, "a", &RowChange::Resumed);
    assert!(rows[0].connected);
    assert_eq!(rows[0].status, "connecting");
    assert_eq!(change_peer_row(&mut rows, "a", &RowChange::Unread { count: 5 }), Some(0));
    assert_eq!((rows[0].unread_count, rows[1].unread_count), (5, 0));
    assert_eq!(change_peer_row(&mut rows, "b", &RowChange::Unread { count: 6 }), None);
    let _ = change_peer_row(&mut rows, "a", &RowChange::Unread { count: 0 });
    assert_eq!(rows[0].unread_count, 0);
}

#[test]
fn paused_peers_are_not_pinged() {
    let peers = vec![peer("a"), peer("b")];
    let mut paused = TextSet::new();
    let step = pause_peer(&mut paused, "a");
    assert_eq!(step.row, Some(RowChange::Paused));
    assert_eq!(step.status, Some("Paused connections with peer".to_string()));
    assert_eq!(peers_to_ping(&peers, &paused), vec!["b"]);
    let step = resume_peer(&mut paused, "a");
    assert_eq!(step.row, Some(RowChange::Resumed));
    assert_eq!(step.status, Some("Resumed connections with peer".to_string()));
    assert_eq!(peers_to_ping(&peers, &paused), vec!["a", "b"]);
}

#[test]
fn actions_report_what_came_of_them() {
    let mut m: TextMap<PeerConnectionStatus> = TextMap::new();
    let mut set = TextSet::new();
    mark_online(&mut m, "a", 1);
    set.insert("a");
    let failed = remove_peer(&mut m, &mut set, "a", &Some("disk".to_string()));
    assert_eq!(failed.status, Some("Error: disk".to_string()));
    assert!(m.contains("a") && set.contains("a"));
    let done = remove_peer(&mut m, &mut set, "a", &None);
    assert_eq!(done.status, Some("Peer removed".to_string()));
    assert!(!m.contains("a") && !set.contains("a"));
    let mut revoked = TextSet::new();
    assert_eq!(revoke_peer(&mut revoked, "a").row, Some(RowChange::WeRevoked));
    assert!(revoked.contains("a"));
    assert_eq!(revoke_reason(true), "Peer removed");
    assert_eq!(revoke_reason(false), "Trust revoked by user");
    assert_eq!(rename_status("x", &None).status, Some("Peer renamed to x".to_string()));
    assert_eq!(rename_status("x", &Some("e".to_string())).status, Some("Error: e".to_string()));
    assert_eq!(refresh_status("p", true).status, Some("Refreshed status for p".to_string()));
    assert_eq!(refresh_status("p", false).status, Some("p is offline".to_string()));
    assert_eq!(speed_failure(true, "e"), "Speed test failed: e");
    assert_eq!(speed_failure(false, "e"), "Could not connect: e");
}

#[test]
fn guests_are_extended_and_promoted() {
    let t = at(1_700_000_000);
    assert_eq!(format_access_left(&at(1_700_000_030), &t), "0m");
    assert_eq!(format_access_left(&at(1_700_003_599), &t), "59m");
    assert_eq!(format_access_left(&at(1_700_007_260), &t), "2h 1m");
    assert_eq!(format_access_left(&at(1_700_180_000), &t), "2d 2h");
    assert_eq!(format_access_left(&t, &t), "Expired");
    let given = on_extension_given(&ExtensionOutcome::Until { expiry: at(1_700_007_260) }, 3, &t);
    assert_eq!(given.status, Some("Guest access extended".to_string()));
    assert_eq!(
        given.row,
        Some(RowChange::ExtendedTo {
            expires_at: "2023-11-15 00:14".to_string(),
            time_remaining: "2h 1m".to_string(),
            count: 3,
        })
    );
    let refused = on_extension_given(&ExtensionOutcome::NotGuest, 0, &t);
    assert_eq!(refused.status, Some("Cannot extend: not a guest peer".to_string()));
    let failed = on_extension_given(&ExtensionOutcome::Failed { error: "e".to_string() }, 0, &t);
    assert_eq!(failed.status, Some("Error extending guest: e".to_string()));
    let promoted = on_promoted(&Ok(true), &Some("Ann".to_string()));
    assert_eq!(promoted.status, Some("Ann is now a trusted peer".to_string()));
    assert_eq!(promoted.row, Some(RowChange::Promoted));
    let unnamed = on_promoted(&Ok(true), &None);
    assert_eq!(unnamed.status, Some("Peer is now a trusted peer".to_string()));
    let not_guest = on_promoted(&Ok(false), &None);
    assert_eq!(not_guest.status, Some("Cannot promote: not a guest peer".to_string()));
    let broken = on_promoted(&Err("e".to_string()), &None);
    assert_eq!(broken.status, Some("Error promoting guest: e".to_string()));
}

#[test]
fn permissions_change_as_told() {
    let mut theirs = Permissions { chat: true, push: true, ..none() };
    let word = Permissions { pull: true, status: true, screen_control: true, ..none() };
    update_their_permissions(&mut theirs, &word);
    assert_eq!(theirs, Permissions { chat: true, ..word });
    let mut granted = Permissions { chat: true, status: true, ..none() };
    grant_permissions(&mut granted, true, false, true, false);
    assert_eq!(granted, Permissions { chat: true, status: true, push: true, browse: true, ..none() });
    let told = announced_permissions(true, false, true, false);
    assert_eq!(told, Permissions { chat: true, status: true, push: true, browse: true, ..none() });
}
