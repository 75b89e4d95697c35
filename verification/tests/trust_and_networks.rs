use croh::listener::{Grant, Message, NewPeer};
use croh::network::{
    begin_introduction, network_data, network_settings, network_status, on_introduction_event,
    refuse_introduction, IntroAction, IntroEvent, Network, NetworkOp, NetworkSettings,
    PendingIntroduction, Stage,
};
use croh::peers::{PeerInfo, Permissions, TrustedPeer};
use croh::time::UtcTime;
use croh::trust::{
    begin_trust, bundle_found, bundle_terms, expired_bundles, judge_confirmation, on_trust_event,
    pick_bundle, receiver_status, start_receiver, BundleFile, BundleTerms, Confirmation, TrustEvent,
    TrustStart,
};

fn s(t: &str) -> String {
    t.to_string()
}

fn none() -> Permissions {
    Permissions {
        push: false,
        pull: false,
        browse: false,
        status: false,
        chat: false,
        screen_view: false,
        screen_control: false,
    }
}

fn peer(id: &str, name: &str) -> TrustedPeer {
    TrustedPeer {
        id: s(id),
        endpoint_id: s("e"),
        name: s(name),
        added_at: UtcTime::new(0, 0).unwrap(),
        last_seen: None,
        relay_url: None,
        permissions_granted: none(),
        their_permissions: none(),
        is_guest: false,
        expires_at: None,
        remaining_secs: None,
        extension_count: 0,
        promotion_pending: false,
    }
}

fn info(name: &str) -> PeerInfo {
    PeerInfo { endpoint_id: s("e"), name: s(name), relay_url: None }
}

#[test]
fn networks_list_members_that_are_peers() {
    let n = Network {
        id: s("n"),
        name: s("Home"),
        description: None,
        member_count: 3,
        is_owner: true,
        can_introduce: false,
        auto_accept_introductions: true,
        share_member_list: false,
        created_at: UtcTime::new(0, 0).unwrap(),
        members: vec![s("b"), s("gone"), s("a")],
    };
    let peers = vec![peer("a", "Ann"), peer("b", "Bob"), peer("b", "Other")];
    let data = network_data(&n, &peers);
    assert_eq!(data.description, "");
    assert_eq!(data.created_at, "1970-01-01");
    assert_eq!(data.member_count, 3);
    assert!(data.is_owner && data.auto_accept_introductions && !data.allow_introductions);
    let members: Vec<(&str, &str)> =
        data.members.iter().map(|m| (m.peer_id.as_str(), m.name.as_str())).collect();
    assert_eq!(members, vec![("b", "Bob"), ("a", "Ann")]);
    assert_eq!(
        network_settings(true, false, true),
        NetworkSettings {
            allow_introductions: true,
            auto_accept_introductions: false,
            share_member_list: true,
            max_members: 0,
        }
    );
}

#[test]
fn network_changes_are_reported() {
    let e = || Err(s("e"));
    for (op, outcome, line, refresh) in [
        (NetworkOp::Create { name: s("N") }, Ok(true), Some("Network 'N' created"), true),
        (NetworkOp::Create { name: s("N") }, e(), Some("Error creating network: e"), false),
        (NetworkOp::Delete, Ok(true), Some("Network deleted"), true),
        (NetworkOp::Delete, e(), Some("Error deleting network: e"), false),
        (NetworkOp::Rename { name: s("N") }, Ok(true), Some("Network renamed to 'N'"), true),
        (NetworkOp::Rename { name: s("N") }, e(), Some("Error renaming network: e"), false),
        (NetworkOp::AddMember, Ok(true), Some("Peer added to network"), true),
        (NetworkOp::AddMember, e(), Some("Error: e"), false),
        (NetworkOp::RemoveMember, Ok(true), Some("Peer removed from network"), true),
        (NetworkOp::RemoveMember, Ok(false), Some("Peer was not in network"), false),
        (NetworkOp::RemoveMember, e(), Some("Error: e"), false),
        (NetworkOp::UpdateSettings, Ok(true), None, true),
        (NetworkOp::UpdateSettings, e(), Some("Error: e"), false),
    ] {
        assert_eq!(network_status(&op, &outcome), (line.map(s), refresh));
    }
}

#[test]
fn introductions_need_two_peers_and_no_guest() {
    let b = Some(peer("b", "Bob"));
    let c = Some(peer("c", "Cyd"));
    let mut guest = peer("g", "Gus");
    guest.is_guest = true;
    let guest = Some(guest);
    for (x, y, allowed, ready, identity, why) in [
        (&None, &c, Some(true), true, true, Some("Error: Peer not found")),
        (&b, &None, Some(true), true, true, Some("Error: Target member not found")),
        (&guest, &c, Some(true), true, true, Some("Cannot introduce guest peers")),
        (&b, &guest, Some(true), true, true, Some("Cannot introduce guest peers")),
        (&b, &c, Some(false), true, true, Some("Introductions are not allowed in this network")),
        (&b, &c, Some(true), false, true, Some("Error: Network not ready")),
        (&b, &c, Some(true), true, false, Some("Error: Identity not ready")),
        (&b, &c, Some(true), true, true, None),
        (&b, &c, None, true, true, None),
    ] {
        assert_eq!(refuse_introduction(x, y, allowed, ready, identity), why.map(s));
    }
}

fn at_stage(stage: Stage) -> PendingIntroduction {
    let (mut p, _) = begin_introduction("i", "n", info("Bob"), info("Cyd"));
    p.stage = stage;
    p
}

#[test]
fn introductions_run_to_completion() {
    let (mut p, step) = begin_introduction("i", "n", info("Bob"), info("Cyd"));
    assert_eq!(step.status, Some(s("Sending introduction offer to Bob...")));
    assert_eq!(step.action, IntroAction::ConnectToB);
    let step = on_introduction_event(&mut p, &IntroEvent::Done);
    assert_eq!(step.action, IntroAction::Offer {
        peer: info("Cyd"),
        message: s("Would you like to connect with Cyd?"),
    });
    let step = on_introduction_event(&mut p, &IntroEvent::Done);
    assert_eq!(step.action, IntroAction::Await);
    assert_eq!(
        step.status,
        Some(s("Introduction offer sent to Bob, waiting for response..."))
    );
    let yes = IntroEvent::OfferAnswer { introduction_id: s("i"), accepted: true, reason: None };
    let step = on_introduction_event(&mut p, &yes);
    assert!(p.peer_b_accepted);
    assert_eq!(step.action, IntroAction::ConnectToC);
    assert_eq!(step.status, Some(s("Sending introduction request to Cyd...")));
    let step = on_introduction_event(&mut p, &IntroEvent::Done);
    assert_eq!(step.action, IntroAction::Request {
        peer: info("Bob"),
        message: s("Bob would like to connect with you"),
    });
    let step = on_introduction_event(&mut p, &IntroEvent::Done);
    assert_eq!((step.action, step.status), (IntroAction::Await, None));
    let yes = IntroEvent::RequestAnswer { introduction_id: s("i"), accepted: true, reason: None };
    let step = on_introduction_event(&mut p, &yes);
    assert_eq!(step.action, IntroAction::CompleteBoth { to_b: info("Cyd"), to_c: info("Bob") });
    assert_eq!(
        step.status,
        Some(s("Introduction complete! Bob and Cyd can now connect directly"))
    );
    assert!(step.forget && p.peer_c_accepted && p.stage == Stage::Over);
    let step = on_introduction_event(&mut p, &IntroEvent::Done);
    assert_eq!((step.action, step.forget), (IntroAction::Stop, true));
}

#[test]
fn introductions_fail_as_they_may() {
    let failed = || IntroEvent::Failed { error: s("e") };
    for (stage, event, status) in [
        (Stage::ConnectB, failed(), Some("Error connecting to Bob: e")),
        (Stage::OfferB, failed(), Some("Error: e")),
        (Stage::AwaitB, failed(), Some("Error: e")),
        (Stage::AwaitB, IntroEvent::TimedOut, Some("Bob did not respond in time")),
        (Stage::AwaitB, IntroEvent::OtherAnswer, None),
        (
            Stage::AwaitB,
            IntroEvent::RequestAnswer { introduction_id: s("i"), accepted: true, reason: None },
            None,
        ),
        (
            Stage::AwaitB,
            IntroEvent::OfferAnswer { introduction_id: s("x"), accepted: true, reason: None },
            None,
        ),
        (
            Stage::AwaitB,
            IntroEvent::OfferAnswer { introduction_id: s("i"), accepted: false, reason: None },
            Some("Bob declined introduction: No reason given"),
        ),
        (Stage::ConnectC, failed(), Some("Error connecting to Cyd: e")),
        (Stage::RequestC, failed(), Some("Error: e")),
        (Stage::AwaitC, failed(), Some("Error: e")),
        (Stage::AwaitC, IntroEvent::TimedOut, Some("Cyd did not respond in time")),
        (
            Stage::AwaitC,
            IntroEvent::RequestAnswer { introduction_id: s("x"), accepted: true, reason: None },
            None,
        ),
    ] {
        let mut p = at_stage(stage);
        let step = on_introduction_event(&mut p, &event);
        assert_eq!((step.action, step.status), (IntroAction::Stop, status.map(s)));
        assert!(step.forget);
        assert_eq!(p.stage, Stage::Over);
    }
    let mut p = at_stage(Stage::AwaitC);
    let no = IntroEvent::RequestAnswer {
        introduction_id: s("i"),
        accepted: false,
        reason: Some(s("busy")),
    };
    let step = on_introduction_event(&mut p, &no);
    assert_eq!(step.action, IntroAction::TellB { reason: s("Cyd declined") });
    assert_eq!(step.status, Some(s("Cyd declined introduction: busy")));
    assert!(step.forget);
}

#[test]
fn bundles_are_sent_one_at_a_time() {
    assert_eq!(begin_trust(true, true), (TrustStart::Busy, None));
    assert_eq!(begin_trust(false, false), (TrustStart::NoIdentity, Some(s("Error: No identity"))));
    assert_eq!(begin_trust(false, true), (TrustStart::Begin, Some(s("Waiting for network..."))));
    assert_eq!(bundle_terms(false, 5), BundleTerms::Trusted);
    assert_eq!(bundle_terms(true, 5), BundleTerms::Guest { hours: Some(5) });
    assert_eq!(bundle_terms(true, 0), BundleTerms::Guest { hours: None });
    assert_eq!(bundle_terms(true, -1), BundleTerms::Guest { hours: None });
}

#[test]
fn trust_events_are_taken_in() {
    for (event, status, code, over) in [
        (TrustEvent::NetworkReady, Some("Getting relay info..."), None, false),
        (
            TrustEvent::NetworkTimeout,
            Some("Network not ready - please try again"),
            None,
            true,
        ),
        (TrustEvent::NotStarted { error: s("e") }, Some("Error: e"), None, true),
        (TrustEvent::CodeReady { code: s("c") }, Some("Share code: c"), Some("c"), false),
        (
            TrustEvent::Sent,
            Some("Trust bundle sent, waiting for peer to connect..."),
            None,
            false,
        ),
        (TrustEvent::SendFailed { error: s("e") }, Some("Failed: e"), Some(""), true),
        (TrustEvent::ProcessEnded, None, Some(""), true),
        (TrustEvent::Established { name: s("Ann") }, Some("Trusted peer added: Ann"), Some(""), true),
        (TrustEvent::HandshakeFailed { error: s("e") }, Some("Handshake failed: e"), Some(""), true),
        (TrustEvent::HandshakeDropped, Some("Handshake failed unexpectedly"), Some(""), true),
        (TrustEvent::HandshakeTimeout, Some("Timed out waiting for peer"), Some(""), true),
        (TrustEvent::Cancelled, None, Some(""), true),
    ] {
        let waits = event == TrustEvent::Sent;
        let clears = event == TrustEvent::HandshakeTimeout;
        let refreshes = matches!(event, TrustEvent::Established { .. });
        let step = on_trust_event(&event);
        assert_eq!((step.status, step.code), (status.map(s), code.map(s)));
        assert_eq!((step.over, step.await_peer), (over, waits));
        assert_eq!((step.clear_pending, step.refresh_peers), (clears, refreshes));
    }
}

#[test]
fn confirmations_are_judged() {
    let confirm = |nonce: &str| Message::TrustConfirm {
        peer: info("Ann"),
        nonce: s(nonce),
        permissions: none(),
    };
    assert_eq!(
        judge_confirmation("n", &confirm("n")),
        Confirmation::Valid {
            peer: NewPeer {
                info: info("Ann"),
                granted: Grant::All,
                their_permissions: none(),
                guest_hours: None,
            },
        }
    );
    assert_eq!(judge_confirmation("n", &confirm("m")), Confirmation::WrongNonce);
    assert_eq!(judge_confirmation("n", &Message::Pong), Confirmation::Unexpected);
}

#[test]
fn the_newest_valid_bundle_is_used() {
    let file = |valid: bool, secs: i64| BundleFile {
        valid,
        created_at: UtcTime::new(secs, 0).unwrap(),
    };
    let files = vec![file(true, 5), file(false, 99), file(true, 8), file(true, 8), file(false, 1)];
    assert_eq!(pick_bundle(&files), Some(2));
    assert_eq!(expired_bundles(&files), vec![1, 4]);
    assert_eq!(pick_bundle(&vec![file(false, 1)]), None);
    assert_eq!(pick_bundle(&vec![]), None);
}

#[test]
fn arrived_bundles_are_followed() {
    assert_eq!(bundle_found("Ann"), "Trust request from Ann...");
    assert_eq!(start_receiver("Ann", true, true), Ok(s("Connecting to Ann...")));
    assert_eq!(start_receiver("Ann", false, false), Err(s("Error: No identity available")));
    assert_eq!(start_receiver("Ann", true, false), Err(s("Error: Network not ready")));
    assert_eq!(receiver_status(&Ok(s("Ann"))), "Trusted peer added: Ann");
    assert_eq!(receiver_status(&Err(s("e"))), "Trust handshake failed: e");
}
