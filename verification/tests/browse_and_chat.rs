use croh::browse::{
    browse_rows, home_directory, refuse_browse, remote_path, resolve_target, start_pull,
    target_path, BrowseState, RemoteEntry,
};
use croh::chat::{
    apply_receipt, chat_item, chat_items, chat_items_at, chat_peer_name, debounce_typing, has_more,
    is_typing, outgoing_content, sent_item, ChatMessage,
};
use croh::files::listed_names;
use croh::peers::{Permissions, TrustedPeer};
use croh::screen::{
    input_event, on_stream_event, on_viewer_event, parse_quality, refuse_view, InputEvent,
    MouseButton, ScreenQuality, StreamEvent, StreamStep, ViewerCall, ViewerEvent, ViewerPatch,
};
use croh::time::{now, UtcTime};

fn s(t: &str) -> String {
    t.to_string()
}

fn entry(name: &str, is_dir: bool) -> RemoteEntry {
    RemoteEntry { name: s(name), is_dir, size: 1_500, modified: Some(0) }
}

fn peer(browse: bool) -> TrustedPeer {
    let none = Permissions {
        push: false,
        pull: false,
        browse,
        status: false,
        chat: false,
        screen_view: false,
        screen_control: false,
    };
    TrustedPeer {
        id: s("i"),
        endpoint_id: s("e"),
        name: s("Ann"),
        added_at: UtcTime::new(0, 0).unwrap(),
        last_seen: None,
        relay_url: None,
        permissions_granted: none,
        their_permissions: none,
        is_guest: false,
        expires_at: None,
        remaining_secs: None,
        extension_count: 0,
        promotion_pending: false,
    }
}

#[test]
fn browsing_needs_a_peer_and_permission() {
    assert_eq!(refuse_browse("i", &None), Some(s("Peer not found: i")));
    assert_eq!(refuse_browse("i", &Some(peer(false))), Some(s("Peer Ann does not allow browse")));
    assert_eq!(refuse_browse("i", &Some(peer(true))), None);
}

#[test]
fn browsing_begins_at_home() {
    assert_eq!(home_directory("/", &vec![entry("ann", true)]), Some(s("ann")));
    assert_eq!(home_directory("/", &vec![entry("ann", false)]), None);
    assert_eq!(home_directory("/x", &vec![entry("ann", true)]), None);
    assert_eq!(home_directory("/", &vec![entry("a", true), entry("b", true)]), None);
    let mut state = BrowseState::new();
    state.open("i", "Ann");
    assert_eq!((state.peer_id.as_str(), state.current_path.as_str()), ("i", "/"));
    state.arrive_home("ann", &vec![entry("f", false)]);
    assert_eq!(state.previous_path, Some(s("/")));
    assert_eq!(state.entries[0].path, "ann/f");
    state.arrive_home("/", &vec![entry("f", false)]);
    assert_eq!(state.entries[0].path, "//f");
    state.arrive_first("/", &vec![entry("f", false)]);
    assert_eq!((state.previous_path.clone(), state.entries[0].path.as_str()), (None, "f"));
}

#[test]
fn moving_remembers_where_from() {
    let mut state = BrowseState::new();
    state.open("i", "Ann");
    let from = state.arrive("/home", &vec![entry("a", false), entry("b", true)]);
    assert_eq!(from, "/");
    assert_eq!(state.previous_path, Some(s("/")));
    assert_eq!(state.entries[1].path, "/home/b");
    state.toggle(0);
    assert_eq!(state.selected_count(), 1);
    let from = state.arrive("/", &vec![entry("a", false)]);
    assert_eq!(from, "/home");
    assert_eq!(state.selected_count(), 0);
    assert_eq!(state.entries[0].path, "a");
    state.close();
    assert_eq!(state, BrowseState::new());
}

#[test]
fn targets_are_resolved() {
    assert_eq!(target_path("/home/ann", "/etc"), "/etc");
    assert_eq!(target_path("/home/ann", ".."), "/home");
    assert_eq!(target_path("/home", ".."), "/");
    assert_eq!(target_path("/", ".."), "/");
    assert_eq!(target_path("home", ".."), "/");
    assert_eq!(target_path("home/ann", ".."), "home");
    assert_eq!(target_path("/home//ann/./", ".."), "/home");
    assert_eq!(target_path("./ann", ".."), ".");
    assert_eq!(target_path("", ".."), "/");
    assert_eq!(target_path("/home/..", ".."), "/home");
    assert_eq!(resolve_target("/a", "..", Some(s(""))), "/");
    assert_eq!(resolve_target("/a", "..", None), "/");
    assert_eq!(resolve_target("/a", "..", Some(s("p"))), "p");
    assert_eq!(resolve_target("/a", "b", Some(s("p"))), "b");
    assert_eq!(remote_path("/"), None);
    assert_eq!(remote_path("/x"), Some(s("/x")));
}

#[test]
fn going_up_leads_back() {
    let mut state = BrowseState::new();
    state.arrive_first("/", &vec![entry("home", true)]);
    for dir in ["/home", "home/ann"] {
        let from = state.arrive(dir, &vec![entry("sub", true), entry("f.txt", false)]);
        assert_ne!(from, dir);
        assert_eq!(target_path(&state.entries[0].path, ".."), dir);
        assert_eq!(listed_names(&vec![state.entries[1].path.clone()]), vec!["f.txt"]);
    }
}

#[test]
fn choosing_counts_files_only() {
    let mut state = BrowseState::new();
    let listed: Vec<RemoteEntry> =
        vec![entry("a", false), entry("b", true), entry("c", false), entry("d", false)];
    state.arrive_first("/", &listed);
    state.toggle(1);
    assert_eq!(state.selected_count(), 0);
    assert!(state.entries[1].selected);
    state.toggle(1);
    state.toggle(9);
    state.toggle(-1);
    assert!(state.entries.iter().all(|e| !e.selected));
    state.select_range(2, 0);
    assert_eq!(state.selected_paths(), vec!["a", "c"]);
    assert!(!state.entries[1].selected);
    state.select_range(0, 2);
    assert_eq!(state.selected_count(), 2);
    state.toggle(0);
    state.select_range(-1, 3);
    assert_eq!(state.selected_paths(), vec!["c", "d"]);
    state.select_range(-1, 0);
    assert_eq!(state.selected_count(), 3);
    let mut fresh = BrowseState::new();
    fresh.arrive_first("/", &listed);
    fresh.select_range(-1, 3);
    assert_eq!(fresh.selected_paths(), vec!["d"]);
    fresh.select_range(-1, 1);
    fresh.select_range(-1, 9);
    fresh.select_range(0, -1);
    assert_eq!(fresh.selected_paths(), vec!["d"]);
    assert!(!fresh.entries[1].selected);
    assert_eq!(start_pull(0, "Ann"), Err(s("No files selected")));
    assert_eq!(start_pull(12, "Ann"), Ok(s("Pulling 12 files from Ann...")));
}

#[test]
fn directories_are_shown() {
    let mut state = BrowseState::new();
    let mut odd = entry("odd", false);
    odd.modified = Some(i64::MAX);
    let mut plain = entry("plain", true);
    plain.modified = None;
    plain.size = 0;
    state.arrive_first("/", &vec![entry("a", false), odd, plain]);
    let rows = browse_rows(&state.entries, &UtcTime::new(1_700_000_000, 0).unwrap());
    assert_eq!((rows[0].size.as_str(), rows[0].modified.as_str()), ("1.5 KB", "1970-01-01 00:00"));
    assert_eq!(rows[1].modified, "2023-11-14 22:13");
    assert_eq!((rows[2].size.as_str(), rows[2].modified.as_str()), ("-", "-"));
    assert!(rows[2].is_dir && !rows[2].selected);
}

fn message(id: &str, sender: &str) -> ChatMessage {
    ChatMessage {
        id: s(id),
        content: s("hello"),
        sender_id: s(sender),
        sent_at: now(),
        status: s("sent"),
    }
}

#[test]
fn conversations_run_forward() {
    let stored = vec![message("3", "me"), message("2", "you"), message("1", "me")];
    let times = vec![s("t3"), s("t2"), s("t1")];
    let shown = chat_items_at(&stored, "me", &times);
    let ids: Vec<&str> = shown.iter().map(|m| m.id.as_str()).collect();
    assert_eq!(ids, vec!["1", "2", "3"]);
    assert_eq!(shown[0].timestamp, "t1");
    assert!(shown[0].is_mine && !shown[1].is_mine);
    assert!(!shown[0].show_date_divider && shown[0].date_label.is_empty());
    let shown = chat_items(&stored, "me");
    assert!(shown[2].timestamp.ends_with('M'));
    assert!(has_more(50) && !has_more(49));
    assert!(sent_item(&message("4", "me"), s("t")).is_mine);
    assert!(!chat_item(&message("4", "me"), "you", s("t")).is_mine);
}

#[test]
fn receipts_change_states_only() {
    let stored = vec![message("2", "me"), message("1", "me")];
    let shown = chat_items_at(&stored, "me", &vec![s("b"), s("a")]);
    let read = apply_receipt(&shown, &vec![s("2"), s("9")], true);
    assert_eq!((read[0].status.as_str(), read[1].status.as_str()), ("sent", "read"));
    assert_eq!(read[1].timestamp, "b");
    let delivered = apply_receipt(&read, &vec![s("2"), s("1")], false);
    assert_eq!(delivered[0].status, "delivered");
    assert_eq!(delivered[1].status, "delivered");
}

#[test]
fn typing_is_told_once_a_second() {
    let second = 1_000_000_000;
    let mut last = None;
    assert!(debounce_typing(&mut last, true, 5 * second));
    assert!(!debounce_typing(&mut last, true, 6 * second - 1));
    assert!(!debounce_typing(&mut last, true, 0));
    assert!(debounce_typing(&mut last, false, 5 * second + 1));
    assert_eq!(last, Some(5 * second));
    assert!(debounce_typing(&mut last, true, 6 * second));
    assert_eq!(last, Some(6 * second));
    assert!(is_typing(" a ") && !is_typing(" \n"));
    assert_eq!(outgoing_content("  hi \n"), Some(s("hi")));
    assert_eq!(outgoing_content("  \n"), None);
    assert_eq!(chat_peer_name(None), "Unknown");
    assert_eq!(chat_peer_name(Some(s("Ann"))), "Ann");
}

#[test]
fn screens_are_viewed_with_permission() {
    assert_eq!(
        refuse_view(false, true),
        Some(s("Peer has not granted screen viewing permission"))
    );
    assert_eq!(refuse_view(true, false), Some(s("Peer is not online")));
    assert_eq!(refuse_view(true, true), None);
}

#[test]
fn streams_are_followed() {
    let step = |call: ViewerCall, stats: bool, stop: bool| StreamStep { call, stats, stop };
    assert_eq!(on_stream_event(&StreamEvent::Accepted), step(ViewerCall::Connected, false, false));
    assert_eq!(
        on_stream_event(&StreamEvent::Rejected { reason: s("r") }),
        step(ViewerCall::Rejected { reason: s("r") }, false, true)
    );
    assert_eq!(
        on_stream_event(&StreamEvent::Frame { sequence: 60, decoded: true }),
        step(ViewerCall::ShowFrame, true, false)
    );
    assert_eq!(
        on_stream_event(&StreamEvent::Frame { sequence: 61, decoded: true }),
        step(ViewerCall::ShowFrame, false, false)
    );
    assert_eq!(
        on_stream_event(&StreamEvent::Frame { sequence: 60, decoded: false }),
        step(ViewerCall::Nothing, false, false)
    );
    assert_eq!(
        on_stream_event(&StreamEvent::Ended { reason: s("r") }),
        step(ViewerCall::Disconnect { reason: s("r") }, false, true)
    );
    assert_eq!(
        on_stream_event(&StreamEvent::Error { message: s("m") }),
        step(ViewerCall::Fail { message: s("m") }, false, true)
    );
    assert_eq!(on_stream_event(&StreamEvent::Closed), step(ViewerCall::Nothing, false, true));
}

#[test]
fn viewers_show_what_happens() {
    let patch = |status: Option<&str>, error: Option<&str>, size: Option<(i32, i32)>| ViewerPatch {
        status: status.map(s),
        error: error.map(s),
        size,
    };
    for (event, want) in [
        (ViewerEvent::StateChanged { state: s("x") }, patch(Some("x"), None, None)),
        (ViewerEvent::FrameReady { width: 3, height: 4 }, patch(None, None, Some((3, 4)))),
        (
            ViewerEvent::StreamRejected { reason: s("r") },
            patch(Some("error"), Some("r"), None),
        ),
        (
            ViewerEvent::StreamEnded { reason: s("r") },
            patch(Some("disconnected"), Some("r"), None),
        ),
        (
            ViewerEvent::StreamEnded { reason: s("user request") },
            patch(Some("disconnected"), None, None),
        ),
        (ViewerEvent::StreamEnded { reason: s("") }, patch(Some("disconnected"), None, None)),
        (ViewerEvent::Error { message: s("m") }, patch(None, Some("m"), None)),
        (ViewerEvent::Other, patch(None, None, None)),
    ] {
        assert_eq!(on_viewer_event(&event), want);
    }
}

#[test]
fn input_is_read() {
    assert_eq!(input_event(0, 1, 2, 9), Some(InputEvent::MouseMove { x: 1, y: 2 }));
    for (data, button) in [
        (1, MouseButton::Left),
        (2, MouseButton::Right),
        (3, MouseButton::Middle),
        (7, MouseButton::Left),
    ] {
        assert_eq!(
            input_event(1, 0, 0, data),
            Some(InputEvent::MouseButton { button, pressed: true })
        );
        assert_eq!(
            input_event(2, 0, 0, data),
            Some(InputEvent::MouseButton { button, pressed: false })
        );
    }
    assert_eq!(input_event(3, -1, 2, 0), Some(InputEvent::MouseScroll { dx: -1, dy: 2 }));
    assert_eq!(input_event(4, 8, 9, 65), Some(InputEvent::Key { code: 65, pressed: true }));
    assert_eq!(input_event(5, 8, 9, 65), Some(InputEvent::Key { code: 65, pressed: false }));
    assert_eq!(input_event(6, 0, 0, 0), None);
    assert_eq!(input_event(-1, 0, 0, 0), None);
    for (name, quality) in [
        ("fast", ScreenQuality::Fast),
        ("balanced", ScreenQuality::Balanced),
        ("quality", ScreenQuality::Quality),
        ("auto", ScreenQuality::Auto),
        ("other", ScreenQuality::Balanced),
    ] {
        assert_eq!(parse_quality(name), quality);
    }
}
