use croh::listener::{
    browsable_paths, is_admitted, is_chat_open, on_chat_stored, on_extension_outcome, on_introduced,
    on_message, on_stranger, parse_posture, pick_host_name, relay_update, ChatDisplay, Context,
    ExtensionOutcome, Grant, GuestPolicy, Message, NewPeer, PendingTrust, Posture, Reply, Step, Work,
};
use croh::peerlist::RowChange;
use croh::peers::{PeerInfo, Permissions, TrustedPeer};
use croh::textmap::TextSet;
use croh::time::UtcTime;

fn s(t: &str) -> String {
    t.to_string()
}

fn none() -> Permissions {
    Permissions {
        push: false,
        pull: false,
        browse: false,
        status: false,
        chat: false,
        screen_view: false,
        screen_control: false,
    }
}

fn peer(granted: Permissions) -> TrustedPeer {
    TrustedPeer {
        id: s("id"),
        endpoint_id: s("endpoint"),
        name: s("Ann"),
        added_at: UtcTime::new(0, 0).unwrap(),
        last_seen: None,
        relay_url: None,
        permissions_granted: granted,
        their_permissions: none(),
        is_guest: false,
        expires_at: None,
        remaining_secs: None,
        extension_count: 0,
        promotion_pending: false,
    }
}

fn context() -> Context {
    Context {
        posture: Posture::Balanced,
        policy: GuestPolicy {
            auto_accept_guest_pushes: false,
            allow_extensions: true,
            max_extensions: 2,
            max_duration_hours: 72,
            allow_promotion_requests: true,
        },
        screen_enabled: true,
        has_identity: true,
        known_endpoints: vec![s("known")],
        active_chat: None,
        configured_dirs: vec![],
        usual_dirs: vec![s("home")],
    }
}

fn info(endpoint: &str) -> PeerInfo {
    PeerInfo { endpoint_id: s(endpoint), name: s("Bob"), relay_url: None }
}

fn offer() -> Message {
    Message::PushOffer { files: vec![s("a.txt")], total_size: 9 }
}

#[test]
fn paused_peers_are_turned_away() {
    let mut paused = TextSet::new();
    assert!(is_admitted(&Some(s("id")), &paused));
    paused.insert("id");
    assert!(!is_admitted(&Some(s("id")), &paused));
    assert!(is_admitted(&Some(s("other")), &paused));
    assert!(is_admitted(&None, &paused));
}

#[test]
fn strangers_need_the_right_nonce() {
    let bundle = || PendingTrust { nonce: s("n"), guest_mode: false, guest_duration_hours: None };
    let confirm = |nonce: &str| Message::TrustConfirm {
        peer: info("e"),
        nonce: s(nonce),
        permissions: Permissions { pull: true, ..none() },
    };
    let mut pending = None;
    let step = on_stranger(&mut pending, &confirm("n"));
    assert_eq!((step.reply, step.work, step.close), (None, Work::Nothing, true));
    let mut pending = Some(bundle());
    let step = on_stranger(&mut pending, &offer());
    assert_eq!((step.reply, step.work, step.close), (None, Work::Nothing, true));
    assert_eq!(pending, Some(bundle()));
    let step = on_stranger(&mut pending, &confirm("wrong"));
    assert_eq!(step.reply, Some(Reply::TrustRevoke { reason: s("invalid nonce") }));
    assert_eq!(step.work, Work::Nothing);
    assert!(step.close);
    assert_eq!(pending, Some(bundle()));
    let step = on_stranger(&mut pending, &confirm("n"));
    assert_eq!(step.reply, Some(Reply::TrustComplete));
    assert_eq!(
        step.work,
        Work::CompleteHandshake {
            peer: NewPeer {
                info: info("e"),
                granted: Grant::All,
                their_permissions: Permissions { pull: true, ..none() },
                guest_hours: None,
            },
        }
    );
    assert_eq!(pending, None);
    let step = on_stranger(&mut pending, &confirm("n"));
    assert_eq!((step.reply, step.work, step.close), (None, Work::Nothing, true));
}

#[test]
fn guest_bundles_make_guests() {
    for (hours, want) in [(None, 24), (Some(5), 5)] {
        let mut pending =
            Some(PendingTrust { nonce: s("n"), guest_mode: true, guest_duration_hours: hours });
        let msg =
            Message::TrustConfirm { peer: info("e"), nonce: s("n"), permissions: none() };
        let step = on_stranger(&mut pending, &msg);
        let peer = NewPeer {
            info: info("e"),
            granted: Grant::Guest,
            their_permissions: none(),
            guest_hours: Some(want),
        };
        assert_eq!(step.work, Work::CompleteHandshake { peer });
    }
}

#[test]
fn offers_need_permission() {
    let step = on_message(&peer(none()), &context(), &offer());
    assert_eq!(
        step.reply,
        Some(Reply::PushResponse {
            transfer_id: s(""),
            accepted: false,
            reason: Some(s("push not allowed")),
        })
    );
    assert_eq!((step.status, step.work, step.close), (None, Work::Nothing, false));
    let allowed = Permissions { push: true, ..none() };
    let step = on_message(&peer(allowed), &context(), &offer());
    assert_eq!(step.reply, None);
    assert_eq!(step.status, Some(s("Receiving files from Ann...")));
    assert_eq!(step.work, Work::ReceivePush { files: vec![s("a.txt")], total_size: 9 });
    let mut guest = peer(allowed);
    guest.is_guest = true;
    let step = on_message(&guest, &context(), &offer());
    assert_eq!(
        step.reply,
        Some(Reply::PushResponse {
            transfer_id: s(""),
            accepted: false,
            reason: Some(s("guest pushes require approval (disabled in security settings)")),
        })
    );
    assert_eq!(step.status, Some(s("Rejected push from guest Ann (requires approval)")));
    let mut cx = context();
    cx.policy.auto_accept_guest_pushes = true;
    assert!(matches!(on_message(&guest, &cx, &offer()).work, Work::ReceivePush { .. }));
    cx.posture = Posture::Cautious;
    let step = on_message(&guest, &cx, &offer());
    assert_eq!(step.work, Work::Nothing);
    assert_eq!(step.status, Some(s("Rejected push from guest Ann (requires approval)")));
    let step = on_message(&peer(allowed), &cx, &offer());
    assert_eq!(step.work, Work::Nothing);
    assert_eq!(
        step.reply,
        Some(Reply::PushResponse {
            transfer_id: s(""),
            accepted: false,
            reason: Some(s("pushes require approval (disabled in security settings)")),
        })
    );
    assert_eq!(step.status, Some(s("Rejected push from Ann (requires approval)")));
}

#[test]
fn postures_have_names() {
    assert_eq!(parse_posture("relaxed"), Some(Posture::Relaxed));
    assert_eq!(parse_posture("balanced"), Some(Posture::Balanced));
    assert_eq!(parse_posture("cautious"), Some(Posture::Cautious));
    assert_eq!(parse_posture("Cautious"), None);
}

#[test]
fn directories_need_permission() {
    let ask = |path: Option<String>| Message::BrowseRequest { path };
    let step = on_message(&peer(none()), &context(), &ask(None));
    assert_eq!(
        step.reply,
        Some(Reply::BrowseResponse { path: s("/"), error: Some(s("browse not allowed")) })
    );
    assert!(!step.close);
    let step = on_message(&peer(none()), &context(), &ask(Some(s("/x"))));
    assert_eq!(
        step.reply,
        Some(Reply::BrowseResponse { path: s("/x"), error: Some(s("browse not allowed")) })
    );
    let step = on_message(&peer(Permissions { browse: true, ..none() }), &context(), &ask(Some(s("/x"))));
    assert_eq!((step.reply, step.close), (None, true));
    assert_eq!(step.work, Work::ServeBrowse { path: Some(s("/x")), allowed: vec![s("home")] });
    let mut cx = context();
    cx.configured_dirs = vec![s("a"), s("b")];
    let step = on_message(&peer(Permissions { browse: true, ..none() }), &cx, &ask(None));
    assert_eq!(step.work, Work::ServeBrowse { path: None, allowed: vec![s("a"), s("b")] });
    assert_eq!(browsable_paths(&vec![], &vec![s("home")]), vec![s("home")]);
    assert_eq!(browsable_paths(&vec![s("a")], &vec![s("home")]), vec![s("a")]);
}

#[test]
fn pulls_need_permission() {
    let msg = Message::PullRequest { paths: vec![s("p")] };
    let step = on_message(&peer(none()), &context(), &msg);
    assert_eq!(
        step.reply,
        Some(Reply::PullResponse {
            transfer_id: s(""),
            granted: false,
            reason: Some(s("pull not allowed")),
        })
    );
    let step = on_message(&peer(Permissions { pull: true, ..none() }), &context(), &msg);
    assert_eq!(step.work, Work::ServePull { paths: vec![s("p")], allowed: vec![s("home")] });
    let mut cx = context();
    cx.configured_dirs = vec![s("a")];
    let limited = on_message(&peer(Permissions { pull: true, ..none() }), &cx, &msg);
    assert_eq!(limited.work, Work::ServePull { paths: vec![s("p")], allowed: vec![s("a")] });
    assert_eq!(step.status, Some(s("Sending files to Ann (pull)...")));
    assert!(!step.close);
}

#[test]
fn notices_are_taken_in() {
    let p = peer(none());
    let cx = context();
    let step = on_message(&p, &cx, &Message::PermissionsUpdate { permissions: none() });
    assert_eq!(step.work, Work::UpdatePermissions { permissions: none() });
    assert_eq!(step.status, Some(s("Ann updated permissions")));
    let step = on_message(&p, &cx, &Message::Ping { timestamp: 5 });
    assert_eq!((step.reply, step.close), (Some(Reply::Pong { timestamp: 5 }), true));
    let quiet = |step: &Step| step.reply.is_none() && step.status.is_none() && step.row.is_none();
    let step = on_message(&p, &cx, &Message::Pong);
    assert!(quiet(&step) && step.close && step.work == Work::Nothing);
    let step = on_message(&p, &cx, &Message::StatusRequest);
    assert!(step.work == Work::ReportStatus && step.close);
    let step = on_message(&p, &cx, &Message::DndStatus { mode: s("busy"), message: None });
    assert_eq!(step.row, Some(RowChange::Dnd { mode: s("busy"), message: s("") }));
    let step = on_message(&p, &cx, &Message::SpeedTestRequest { test_id: s("t"), size: 3 });
    assert_eq!(step.work, Work::RunSpeedTest { test_id: s("t"), size: 3 });
    let step = on_message(&p, &cx, &Message::TrustRevoke { reason: s("r") });
    assert_eq!(step.row, Some(RowChange::Revoked));
    assert_eq!(step.status, Some(s("Ann removed you as a peer")));
    let step = on_message(&p, &cx, &Message::IntroductionFailed { reason: s("r") });
    assert_eq!(step.status, Some(s("Introduction failed: r")));
    let step = on_message(&p, &cx, &Message::IntroductionComplete { peer: info("e") });
    assert_eq!(
        step.work,
        Work::AddIntroduced { peer: info("e"), granted: Grant::All, theirs: Grant::All }
    );
    let mut careful = context();
    careful.posture = Posture::Cautious;
    let step = on_message(&p, &careful, &Message::IntroductionComplete { peer: info("e") });
    assert_eq!((step.reply, step.work, step.close), (None, Work::Nothing, true));
    assert_eq!(step.status, Some(s("Declined introduction to Bob (requires approval)")));
    let confirm = Message::TrustConfirm { peer: info("e"), nonce: s("n"), permissions: none() };
    for (msg, close) in [
        (confirm, false),
        (Message::ScreenFrame, true),
        (Message::ScreenStreamStop, true),
        (Message::Other, false),
    ] {
        let step = on_message(&p, &cx, &msg);
        assert!(quiet(&step) && step.work == Work::Nothing && step.close == close);
    }
}

#[test]
fn extensions_stay_within_policy() {
    let refused = |why: &str| {
        Some(Reply::ExtensionResponse {
            approved: false,
            new_expires_at: None,
            reason: Some(s(why)),
        })
    };
    let ask = |hours: u32| Message::ExtensionRequest { requested_hours: hours };
    let mut p = peer(none());
    assert_eq!(on_message(&p, &context(), &ask(1)).reply, refused("Not a guest peer"));
    p.is_guest = true;
    assert_eq!(on_message(&p, &context(), &ask(1)).work, Work::ExtendGuest { hours: 1 });
    assert_eq!(on_message(&p, &context(), &ask(500)).work, Work::ExtendGuest { hours: 72 });
    p.extension_count = 2;
    assert_eq!(on_message(&p, &context(), &ask(1)).reply, refused("Maximum extensions reached"));
    p.extension_count = 1;
    let mut cx = context();
    cx.policy.allow_extensions = false;
    assert_eq!(on_message(&p, &cx, &ask(1)).reply, refused("Extensions not allowed"));
}

#[test]
fn extensions_end_with_an_answer() {
    let t = UtcTime::new(1_700_000_000, 0).unwrap();
    let expiry = UtcTime::new(1_700_086_400, 0).unwrap();
    let step = on_extension_outcome("Ann", &ExtensionOutcome::Until { expiry }, &t);
    assert_eq!(
        step.reply,
        Some(Reply::ExtensionResponse {
            approved: true,
            new_expires_at: Some(1_700_086_400),
            reason: None,
        })
    );
    assert_eq!(
        step.row,
        Some(RowChange::Extended {
            expires_at: s("2023-11-15 22:13"),
            time_remaining: s("1d 0h"),
        })
    );
    assert_eq!(step.status, Some(s("Extended Ann access")));
    let step = on_extension_outcome("Ann", &ExtensionOutcome::NotGuest, &t);
    assert!(step.close && step.row.is_none());
    let step = on_extension_outcome("Ann", &ExtensionOutcome::Failed { error: s("e") }, &t);
    assert_eq!(
        step.reply,
        Some(Reply::ExtensionResponse {
            approved: false,
            new_expires_at: None,
            reason: Some(s("Internal error: e")),
        })
    );
}

#[test]
fn promotions_wait_for_the_user() {
    let mut p = peer(none());
    let no = |why: &str| Some(Reply::PromotionResponse { approved: false, reason: Some(s(why)) });
    assert_eq!(
        on_message(&p, &context(), &Message::PromotionRequest).reply,
        no("Already a trusted peer")
    );
    p.is_guest = true;
    let step = on_message(&p, &context(), &Message::PromotionRequest);
    assert_eq!(step.work, Work::SetPromotionPending);
    assert_eq!(step.row, Some(RowChange::PromotionPending));
    assert_eq!(step.status, Some(s("Ann requested trusted status")));
    assert_eq!(step.reply, None);
    let mut cx = context();
    cx.policy.allow_promotion_requests = false;
    assert_eq!(
        on_message(&p, &cx, &Message::PromotionRequest).reply,
        no("Promotion requests not allowed")
    );
}

#[test]
fn introductions_are_answered() {
    let p = peer(none());
    let offered = |e: &str| Message::IntroductionOffer { introduction_id: s("i"), peer: info(e) };
    let asked = |e: &str| Message::IntroductionRequest { introduction_id: s("i"), peer: info(e) };
    let step = on_message(&p, &context(), &offered("known"));
    assert_eq!(
        step.reply,
        Some(Reply::IntroductionOfferResponse {
            introduction_id: s("i"),
            accepted: false,
            reason: Some(s("Already connected to this peer")),
        })
    );
    assert_eq!(step.status, None);
    let step = on_message(&p, &context(), &offered("new"));
    assert_eq!(
        step.reply,
        Some(Reply::IntroductionOfferResponse { introduction_id: s("i"), accepted: true, reason: None })
    );
    assert_eq!(step.status, Some(s("Accepted introduction to Bob")));
    let step = on_message(&p, &context(), &asked("new"));
    assert_eq!(
        step.reply,
        Some(Reply::IntroductionRequestResponse {
            introduction_id: s("i"),
            accepted: true,
            reason: None,
        })
    );
    let mut cx = context();
    cx.posture = Posture::Cautious;
    let step = on_message(&p, &cx, &asked("new"));
    assert_eq!(
        step.reply,
        Some(Reply::IntroductionRequestResponse {
            introduction_id: s("i"),
            accepted: false,
            reason: Some(s("introductions require approval (disabled in security settings)")),
        })
    );
    assert_eq!(step.status, Some(s("Declined introduction to Bob (requires approval)")));
    let known = vec![s("known")];
    assert_eq!(on_introduced(&known, &info("known")), None);
    assert_eq!(on_introduced(&known, &info("new")), Some(s("Connected to Bob via introduction")));
}

#[test]
fn chats_need_permission_and_identity() {
    let msg = Message::ChatMessage { message_id: s("m") };
    let step = on_message(&peer(none()), &context(), &msg);
    assert!(step.work == Work::Nothing && step.close);
    let allowed = peer(Permissions { chat: true, ..none() });
    let step = on_message(&allowed, &context(), &msg);
    assert_eq!((step.work, step.close), (Work::HandleChat { message_id: s("m") }, false));
    let mut cx = context();
    cx.has_identity = false;
    let step = on_message(&allowed, &cx, &msg);
    assert_eq!((step.work, step.close), (Work::Nothing, false));
    let (step, display) = on_chat_stored(true, "m", &Some(s("endpoint")), "endpoint");
    assert_eq!(step.reply, Some(Reply::ChatDelivered { message_ids: vec![s("m")] }));
    assert_eq!(display, ChatDisplay::Reload);
    assert_eq!(on_chat_stored(true, "m", &None, "endpoint").1, ChatDisplay::Unread);
    let (step, display) = on_chat_stored(false, "m", &None, "endpoint");
    assert_eq!((step.reply, step.close, display), (None, true, ChatDisplay::Unchanged));
    assert!(!is_chat_open(&Some(s("x")), "endpoint"));
}

#[test]
fn receipts_show_in_the_open_chat() {
    let p = peer(none());
    let mut cx = context();
    let ids = || vec![s("m")];
    assert_eq!(
        on_message(&p, &cx, &Message::ChatDelivered { message_ids: ids() }).work,
        Work::MarkDelivered { message_ids: ids(), show: false }
    );
    assert_eq!(on_message(&p, &cx, &Message::ChatTyping { is_typing: true }).work, Work::Nothing);
    cx.active_chat = Some(s("endpoint"));
    assert_eq!(
        on_message(&p, &cx, &Message::ChatRead { message_ids: ids() }).work,
        Work::MarkRead { message_ids: ids(), show: true }
    );
    assert_eq!(
        on_message(&p, &cx, &Message::ChatTyping { is_typing: true }).work,
        Work::ShowTyping { is_typing: true }
    );
}

#[test]
fn screens_need_permission() {
    let msg = Message::ScreenStreamRequest { stream_id: s("x") };
    let no = |why: &str| {
        Some(Reply::ScreenStreamResponse {
            stream_id: s("x"),
            accepted: false,
            reason: Some(s(why)),
        })
    };
    let viewer = peer(Permissions { screen_view: true, ..none() });
    assert_eq!(on_message(&viewer, &context(), &msg).work, Work::StreamScreen { stream_id: s("x") });
    assert_eq!(
        on_message(&peer(none()), &context(), &msg).reply,
        no("screen_view permission not granted")
    );
    let mut cx = context();
    cx.screen_enabled = false;
    assert_eq!(
        on_message(&viewer, &cx, &msg).reply,
        no("Screen streaming is disabled on this device")
    );
    assert_eq!(
        on_message(&viewer, &context(), &Message::DisplayListRequest).reply,
        Some(Reply::DisplayListResponse { backend: s("unsupported") })
    );
    let step = on_message(&peer(none()), &context(), &Message::DisplayListRequest);
    assert_eq!((step.reply, step.close), (None, true));
}

#[test]
fn this_device_is_named_and_watched() {
    assert_eq!(pick_host_name(Some(s("h")), Some(s("c"))), "h");
    assert_eq!(pick_host_name(None, Some(s("c"))), "c");
    assert_eq!(pick_host_name(None, None), "unknown");
    let mut last = String::new();
    assert_eq!(relay_update(&mut last, None), Some((s("disconnected"), s(""))));
    assert_eq!(relay_update(&mut last, None), None);
    assert_eq!(relay_update(&mut last, Some(s("u"))), Some((s("connected"), s("u"))));
    assert_eq!(relay_update(&mut last, Some(s("v"))), None);
}
