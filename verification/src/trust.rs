//! Trust between devices: sending a trust bundle, and what becomes of a bundle that has arrived.

use vstd::prelude::*;

use crate::listener::{Grant, Message, NewPeer};
use crate::text::{blank, join2, join3, opt_text, same_text};
use crate::time::{Moment, UtcTime};
use crate::transfer::before;

verus! {

// ---------------------------------------------------------------------------
// Sending a bundle

/// How the sending of a bundle begins.
#[derive(Debug, PartialEq, Eq)]
pub enum TrustStart {
    /// A bundle is on its way already.
    Busy,
    /// This device has no identity yet.
    NoIdentity,
    /// The network is waited for.
    Begin,
}

/// Begins to send a bundle, and gives the status line, if there is one.
pub fn begin_trust(in_progress: bool, has_identity: bool) -> (r: (TrustStart, Option<String>))
    ensures
        in_progress ==> r.0 is Busy && r.1 is None,
        !in_progress && !has_identity ==> r.0 is NoIdentity && opt_text(r.1) == Some(
            "Error: No identity"@,
        ),
        !in_progress && has_identity ==> r.0 is Begin && opt_text(r.1) == Some(
            "Waiting for network..."@,
        ),
{
    if in_progress {
        (TrustStart::Busy, None)
    } else if !has_identity {
        (TrustStart::NoIdentity, Some("Error: No identity".to_owned()))
    } else {
        (TrustStart::Begin, Some("Waiting for network...".to_owned()))
    }
}

/// The terms of a bundle.
#[derive(Debug, PartialEq, Eq)]
pub enum BundleTerms {
    /// For good.
    Trusted,
    /// As a guest, for some hours or for as long as is usual.
    Guest { hours: Option<u32> },
}

/// The terms of a bundle.
pub open spec fn terms_of(guest_mode: bool, duration_hours: i32) -> BundleTerms {
    if guest_mode {
        BundleTerms::Guest {
            hours: if duration_hours > 0 {
                Some(duration_hours as u32)
            } else {
                None
            },
        }
    } else {
        BundleTerms::Trusted
    }
}

/// The terms of a bundle, as the user has chosen them.
pub fn bundle_terms(guest_mode: bool, duration_hours: i32) -> (r: BundleTerms)
    ensures
        r == terms_of(guest_mode, duration_hours),
{
    if guest_mode {
        BundleTerms::Guest {
            hours: if duration_hours > 0 {
                Some(duration_hours as u32)
            } else {
                None
            },
        }
    } else {
        BundleTerms::Trusted
    }
}

/// What happens while a bundle is sent.
#[derive(Debug, PartialEq, Eq)]
pub enum TrustEvent<T = String> {
    NetworkReady,
    /// The network did not come up in time.
    NetworkTimeout,
    /// The bundle could not be written, or croc could not be started.
    NotStarted { error: T },
    CodeReady { code: T },
    /// The bundle has arrived.
    Sent,
    SendFailed { error: T },
    /// Croc has ended without a word.
    ProcessEnded,
    /// The receiver has connected and is a peer now.
    Established { name: T },
    HandshakeFailed { error: T },
    /// The wait for the receiver was broken off.
    HandshakeDropped,
    /// The receiver did not connect in time.
    HandshakeTimeout,
    /// The user has given up.
    Cancelled,
}

impl View for TrustEvent<String> {
    type V = TrustEvent<Seq<char>>;

    open spec fn view(&self) -> TrustEvent<Seq<char>> {
        match *self {
            TrustEvent::NetworkReady => TrustEvent::NetworkReady,
            TrustEvent::NetworkTimeout => TrustEvent::NetworkTimeout,
            TrustEvent::NotStarted { error } => TrustEvent::NotStarted { error: error@ },
            TrustEvent::CodeReady { code } => TrustEvent::CodeReady { code: code@ },
            TrustEvent::Sent => TrustEvent::Sent,
            TrustEvent::SendFailed { error } => TrustEvent::SendFailed { error: error@ },
            TrustEvent::ProcessEnded => TrustEvent::ProcessEnded,
            TrustEvent::Established { name } => TrustEvent::Established { name: name@ },
            TrustEvent::HandshakeFailed { error } => TrustEvent::HandshakeFailed { error: error@ },
            TrustEvent::HandshakeDropped => TrustEvent::HandshakeDropped,
            TrustEvent::HandshakeTimeout => TrustEvent::HandshakeTimeout,
            TrustEvent::Cancelled => TrustEvent::Cancelled,
        }
    }
}

/// What follows from an event.
#[derive(Debug, PartialEq, Eq)]
pub struct TrustStep<T = String> {
    pub status: Option<T>,
    /// The code that is shown from now on.
    pub code: Option<T>,
    /// The bundle's receiver is waited for: its confirmation is expected from now on.
    pub await_peer: bool,
    /// The receiver's confirmation is not expected any more.
    pub clear_pending: bool,
    /// The list of peers is shown anew.
    pub refresh_peers: bool,
    /// No bundle is on its way any more.
    pub over: bool,
}

impl View for TrustStep<String> {
    type V = TrustStep<Seq<char>>;

    open spec fn view(&self) -> TrustStep<Seq<char>> {
        TrustStep {
            status: opt_text(self.status),
            code: opt_text(self.code),
            await_peer: self.await_peer,
            clear_pending: self.clear_pending,
            refresh_peers: self.refresh_peers,
            over: self.over,
        }
    }
}

/// The sending goes on.
pub open spec fn going_on(status: Option<Seq<char>>) -> TrustStep<Seq<char>> {
    TrustStep {
        status,
        code: None,
        await_peer: false,
        clear_pending: false,
        refresh_peers: false,
        over: false,
    }
}

/// The sending is over, and no code is shown any more.
pub open spec fn ended(status: Option<Seq<char>>) -> TrustStep<Seq<char>> {
    TrustStep { code: Some(blank()), over: true, ..going_on(status) }
}

/// What follows from an event.
pub open spec fn trust_step(event: TrustEvent<Seq<char>>) -> TrustStep<Seq<char>> {
    match event {
        TrustEvent::NetworkReady => going_on(Some("Getting relay info..."@)),
        TrustEvent::NetworkTimeout => TrustStep {
            over: true,
            ..going_on(Some("Network not ready - please try again"@))
        },
        TrustEvent::NotStarted { error } => TrustStep {
            over: true,
            ..going_on(Some("Error: "@ + error))
        },
        TrustEvent::CodeReady { code } => TrustStep {
            code: Some(code),
            ..going_on(Some("Share code: "@ + code))
        },
        TrustEvent::Sent => TrustStep {
            await_peer: true,
            ..going_on(Some("Trust bundle sent, waiting for peer to connect..."@))
        },
        TrustEvent::SendFailed { error } => ended(Some("Failed: "@ + error)),
        TrustEvent::ProcessEnded => ended(None),
        TrustEvent::Established { name } => TrustStep {
            refresh_peers: true,
            ..ended(Some("Trusted peer added: "@ + name))
        },
        TrustEvent::HandshakeFailed { error } => ended(Some("Handshake failed: "@ + error)),
        TrustEvent::HandshakeDropped => ended(Some("Handshake failed unexpectedly"@)),
        TrustEvent::HandshakeTimeout => TrustStep {
            clear_pending: true,
            ..ended(Some("Timed out waiting for peer"@))
        },
        TrustEvent::Cancelled => ended(None),
    }
}

fn go_on(status: Option<String>) -> (r: TrustStep)
    ensures
        r@ == going_on(opt_text(status)),
{
    TrustStep {
        status,
        code: None,
        await_peer: false,
        clear_pending: false,
        refresh_peers: false,
        over: false,
    }
}

fn end(status: Option<String>) -> (r: TrustStep)
    ensures
        r@ == ended(opt_text(status)),
{
    TrustStep { code: Some(String::new()), over: true, ..go_on(status) }
}

/// Takes in what happens while a bundle is sent.
pub fn on_trust_event(event: &TrustEvent) -> (r: TrustStep)
    ensures
        r@ == trust_step(event@),
{
    match event {
        TrustEvent::NetworkReady => go_on(Some("Getting relay info...".to_owned())),
        TrustEvent::NetworkTimeout => TrustStep {
            over: true,
            ..go_on(Some("Network not ready - please try again".to_owned()))
        },
        TrustEvent::NotStarted { error } => TrustStep {
            over: true,
            ..go_on(Some(join2("Error: ", error.as_str())))
        },
        TrustEvent::CodeReady { code } => TrustStep {
            code: Some(code.clone()),
            ..go_on(Some(join2("Share code: ", code.as_str())))
        },
        TrustEvent::Sent => TrustStep {
            await_peer: true,
            ..go_on(Some("Trust bundle sent, waiting for peer to connect...".to_owned()))
        },
        TrustEvent::SendFailed { error } => end(Some(join2("Failed: ", error.as_str()))),
        TrustEvent::ProcessEnded => end(None),
        TrustEvent::Established { name } => TrustStep {
            refresh_peers: true,
            ..end(Some(join2("Trusted peer added: ", name.as_str())))
        },
        TrustEvent::HandshakeFailed { error } => end(
            Some(join2("Handshake failed: ", error.as_str())),
        ),
        TrustEvent::HandshakeDropped => end(Some("Handshake failed unexpectedly".to_owned())),
        TrustEvent::HandshakeTimeout => TrustStep {
            clear_pending: true,
            ..end(Some("Timed out waiting for peer".to_owned()))
        },
        TrustEvent::Cancelled => end(None),
    }
}

// ---------------------------------------------------------------------------
// Waiting for one confirmation

/// What a message is to someone who waits for one confirmation.
#[derive(Debug, PartialEq, Eq)]
pub enum Confirmation<T = String> {
    /// The confirmation: its sender becomes a peer.
    Valid { peer: NewPeer<T> },
    /// A confirmation with another nonce: trust is revoked.
    WrongNonce,
    /// Something else.
    Unexpected,
}

impl View for Confirmation<String> {
    type V = Confirmation<Seq<char>>;

    open spec fn view(&self) -> Confirmation<Seq<char>> {
        match *self {
            Confirmation::Valid { peer } => Confirmation::Valid { peer: peer@ },
            Confirmation::WrongNonce => Confirmation::WrongNonce,
            Confirmation::Unexpected => Confirmation::Unexpected,
        }
    }
}

/// What a message is to someone who waits for a confirmation with a nonce.
pub open spec fn confirmation_of(
    expected_nonce: Seq<char>,
    msg: Message<Seq<char>, Seq<Seq<char>>>,
) -> Confirmation<Seq<char>> {
    match msg {
        Message::TrustConfirm { peer, nonce, permissions } => if nonce == expected_nonce {
            Confirmation::Valid {
                peer: NewPeer {
                    info: peer,
                    granted: Grant::All,
                    their_permissions: permissions,
                    guest_hours: None,
                },
            }
        } else {
            Confirmation::WrongNonce
        },
        _ => Confirmation::Unexpected,
    }
}

/// Judges a message where a confirmation with a nonce is waited for.
pub fn judge_confirmation(expected_nonce: &str, msg: &Message) -> (r: Confirmation)
    ensures
        r@ == confirmation_of(expected_nonce@, msg@),
{
    match msg {
        Message::TrustConfirm { peer, nonce, permissions } => {
            if same_text(nonce.as_str(), expected_nonce) {
                Confirmation::Valid {
                    peer: NewPeer {
                        info: peer.clone(),
                        granted: Grant::All,
                        their_permissions: *permissions,
                        guest_hours: None,
                    },
                }
            } else {
                Confirmation::WrongNonce
            }
        },
        _ => Confirmation::Unexpected,
    }
}

// ---------------------------------------------------------------------------
// Bundles that have arrived

/// A bundle among the files received.
#[derive(Debug, PartialEq, Eq)]
pub struct BundleFile {
    /// Whether the bundle has not expired.
    pub valid: bool,
    pub created_at: UtcTime,
}

/// The times at which bundles were made.
pub open spec fn made_at(v: Seq<BundleFile>) -> Seq<Moment> {
    v.map_values(|b: BundleFile| b.created_at@)
}

/// Whether `k` is the place of the bundle that is used: the most recent of those that have not
/// expired, the first one of several.
pub open spec fn is_used(v: Seq<BundleFile>, k: int) -> bool {
    &&& 0 <= k < v.len()
    &&& v[k].valid
    &&& forall|i: int|
        0 <= i < v.len() && i != k && (#[trigger] v[i]).valid ==> before(
            made_at(v),
            k as usize,
            i as usize,
        )
}

/// The place of the bundle that is used, if one can be.
pub fn pick_bundle(bundles: &Vec<BundleFile>) -> (r: Option<usize>)
    ensures
        match r {
            Some(k) => is_used(bundles@, k as int),
            None => forall|i: int| 0 <= i < bundles@.len() ==> !(#[trigger] bundles@[i]).valid,
        },
{
    let mut best: Option<usize> = None;
    for i in 0..bundles.len()
        invariant
            match best {
                Some(k) => k < i && bundles@[k as int].valid && forall|j: int|
                    0 <= j < i && j != k && (#[trigger] bundles@[j]).valid ==> before(
                        made_at(bundles@),
                        k,
                        j as usize,
                    ),
                None => forall|j: int| 0 <= j < i ==> !(#[trigger] bundles@[j]).valid,
            },
    {
        let ghost old_best = best;
        if bundles[i].valid {
            match best {
                Some(k) => {
                    if bundles[i].created_at.is_after(&bundles[k].created_at) {
                        best = Some(i);
                    }
                },
                None => {
                    best = Some(i);
                },
            }
        }
        proof {
            if let Some(k) = best {
                assert forall|j: int|
                    0 <= j < i + 1 && j != k && (#[trigger] bundles@[j]).valid implies before(
                    made_at(bundles@),
                    k,
                    j as usize,
                ) by {
                    if let Some(old_k) = old_best {
                        if j != old_k && j < i {
                            assert(before(made_at(bundles@), old_k, j as usize));
                        }
                    }
                }
            }
        }
    }
    best
}

/// The places of the bundles that have expired, which are removed.
pub fn expired_bundles(bundles: &Vec<BundleFile>) -> (r: Vec<usize>)
    ensures
        r@ == Seq::new(bundles@.len(), |i: int| i as usize).filter(
            |i: usize| !bundles@[i as int].valid,
        ),
{
    let mut out: Vec<usize> = Vec::new();
    let ghost places = Seq::new(bundles@.len(), |i: int| i as usize);
    let ghost gone = |i: usize| !bundles@[i as int].valid;
    proof {
        crate::seqs::lemma_filter_start(places, gone);
    }
    for i in 0..bundles.len()
        invariant
            places == Seq::new(bundles@.len(), |i: int| i as usize),
            gone == (|i: usize| !bundles@[i as int].valid),
            out@ == places.take(i as int).filter(gone),
    {
        proof {
            crate::seqs::lemma_filter_step(places, gone, i as int);
        }
        if !bundles[i].valid {
            out.push(i);
        }
    }
    proof {
        crate::seqs::lemma_filter_end(places, gone);
    }
    out
}

/// The status line when a bundle is found.
pub fn bundle_found(sender: &str) -> (r: String)
    ensures
        r@ == "Trust request from "@ + sender@ + "..."@,
{
    join3("Trust request from ", sender, "...")
}

/// Begins to connect to a bundle's sender: the status line, as an error where nothing comes of it.
pub fn start_receiver(sender: &str, has_identity: bool, network_ready: bool) -> (r: Result<
    String,
    String,
>)
    ensures
        match r {
            Ok(status) => has_identity && network_ready && status@ == "Connecting to "@ + sender@
                + "..."@,
            Err(why) => if !has_identity {
                why@ == "Error: No identity available"@
            } else {
                !network_ready && why@ == "Error: Network not ready"@
            },
        },
{
    if !has_identity {
        Err("Error: No identity available".to_owned())
    } else if !network_ready {
        Err("Error: Network not ready".to_owned())
    } else {
        Ok(join3("Connecting to ", sender, "..."))
    }
}

/// The status line once a bundle's sender has answered: with its name, or with what went wrong.
pub fn receiver_status(outcome: &Result<String, String>) -> (r: String)
    ensures
        r@ == (match *outcome {
            Ok(name) => "Trusted peer added: "@ + name@,
            Err(error) => "Trust handshake failed: "@ + error@,
        }),
{
    match outcome {
        Ok(name) => join2("Trusted peer added: ", name.as_str()),
        Err(error) => join2("Trust handshake failed: ", error.as_str()),
    }
}

// ---------------------------------------------------------------------------
// Laws

/// A peer is waited for only once the bundle has arrived, and a code is shown only while the
/// sending goes on.
pub proof fn waiting_follows_sending(event: TrustEvent<Seq<char>>)
    ensures
        trust_step(event).await_peer <==> event is Sent,
        trust_step(event).await_peer ==> !trust_step(event).over,
        trust_step(event).over ==> (trust_step(event).code matches Some(code) ==> code == blank()),
        trust_step(event).clear_pending ==> trust_step(event).over,
        trust_step(event).refresh_peers <==> event is Established,
{
}

/// Only one bundle can be used, and never one that has expired.
pub proof fn one_bundle_is_used(v: Seq<BundleFile>, a: int, b: int)
    requires
        is_used(v, a),
        is_used(v, b),
        v.len() <= usize::MAX,
    ensures
        a == b,
        v[a].valid,
{
    if a != b {
        assert(before(made_at(v), a as usize, b as usize)) by {
            assert(v[b].valid);
        }
        assert(before(made_at(v), b as usize, a as usize)) by {
            assert(v[a].valid);
        }
    }
}

/// A bundle gives trust for good, or makes a guest for just the hours that the user has chosen, and
/// for as long as is usual where the user has chosen none.
pub proof fn bundles_give_what_was_chosen(guest_mode: bool, duration_hours: i32)
    ensures
        !guest_mode ==> terms_of(guest_mode, duration_hours) is Trusted,
        guest_mode && duration_hours > 0 ==> (terms_of(guest_mode, duration_hours) matches
            BundleTerms::Guest { hours: Some(hours) } && hours == duration_hours),
        guest_mode && duration_hours <= 0 ==> (terms_of(guest_mode, duration_hours) matches
            BundleTerms::Guest { hours: None }),
{
}

/// The code that is shown is the one that croc has given, and it is taken away with the sending's
/// end; each event is told in its own words, with the names, codes and errors that it brings.
pub proof fn sendings_are_told(event: TrustEvent, step: TrustStep)
    requires
        step@ == trust_step(event@),
    ensures
        event matches TrustEvent::CodeReady { code } ==> (step.code matches Some(shown) && shown@
            == code@) && (step.status matches Some(line) && line@ == "Share code: "@ + code@)
            && !step.over,
        event matches TrustEvent::Established { name } ==> (step.status matches Some(line) && line@
            == "Trusted peer added: "@ + name@) && step.over && step.refresh_peers,
        event matches TrustEvent::NotStarted { error } ==> (step.status matches Some(line) && line@
            == "Error: "@ + error@) && step.over,
        event matches TrustEvent::SendFailed { error } ==> (step.status matches Some(line) && line@
            == "Failed: "@ + error@) && step.over,
        event matches TrustEvent::HandshakeFailed { error } ==> (step.status matches Some(line)
            && line@ == "Handshake failed: "@ + error@) && step.over,
        event is NetworkReady ==> (step.status matches Some(line) && line@
            == "Getting relay info..."@) && !step.over && step.code is None,
        event is NetworkTimeout ==> (step.status matches Some(line) && line@
            == "Network not ready - please try again"@) && step.over,
        event is Sent ==> (step.status matches Some(line) && line@
            == "Trust bundle sent, waiting for peer to connect..."@) && !step.over && step.code
            is None,
        event is HandshakeDropped ==> (step.status matches Some(line) && line@
            == "Handshake failed unexpectedly"@) && step.over,
        event is HandshakeTimeout ==> (step.status matches Some(line) && line@
            == "Timed out waiting for peer"@) && step.over && step.clear_pending,
        event is ProcessEnded || event is Cancelled ==> step.status is None && step.over,
        step.over && !(event is NetworkTimeout) && !(event is NotStarted) ==> (step.code matches Some(
            shown,
        ) && shown@.len() == 0),
        step.clear_pending <==> event is HandshakeTimeout,
{
}

/// A confirmation counts just where its nonce is the one that is waited for, and its sender then
/// becomes a peer as it has told, for good and with all permissions.
pub proof fn confirmations_need_the_nonce(expected: &str, msg: Message, r: Confirmation)
    requires
        r@ == confirmation_of(expected@, msg@),
    ensures
        msg matches Message::TrustConfirm { peer, nonce, permissions } ==> nonce@ == expected@ ==> (
        r matches Confirmation::Valid { peer: new } && new.info.endpoint_id@ == peer.endpoint_id@
            && new.info.name@ == peer.name@ && opt_text(new.info.relay_url) == opt_text(
            peer.relay_url,
        ) && new.their_permissions == permissions && new.granted == Grant::All && new.guest_hours
            is None),
        msg matches Message::TrustConfirm { peer, nonce, permissions } ==> nonce@ != expected@ ==> r
            is WrongNonce,
        !(msg is TrustConfirm) ==> r is Unexpected,
{
}

/// The bundle that is used has not expired, and no bundle that has not expired is newer, to the
/// nanosecond; where several are from the same time it is the first.
pub proof fn the_newest_bundle_is_used(v: Seq<BundleFile>, k: int, i: int)
    requires
        is_used(v, k),
        0 <= i < v.len() <= usize::MAX,
        v[i].valid,
    ensures
        0 <= k < v.len() && v[k].valid,
        v[i].created_at@.secs <= v[k].created_at@.secs,
        v[i].created_at@.secs == v[k].created_at@.secs ==> v[i].created_at@.nanos
            <= v[k].created_at@.nanos,
        v[i].created_at@ == v[k].created_at@ ==> k <= i,
{
    if i != k {
        assert(before(made_at(v), k as usize, i as usize));
    }
}

/// A bundle is sent by whoever has an identity and sends none already, and a sender is connected to by
/// whoever has an identity and a network. Whom it is about, and what stands against it, is told.
pub proof fn trust_begins_where_it_can(
    in_progress: bool,
    has_identity: bool,
    network_ready: bool,
    sender: &str,
    begun: (TrustStart, Option<String>),
    connecting: Result<String, String>,
    outcome: &Result<String, String>,
    line: String,
)
    ensures
        call_ensures(begin_trust, (in_progress, has_identity), begun) ==> {
            &&& begun.0 is Begin <==> has_identity && !in_progress
            &&& begun.0 is Busy <==> in_progress
            &&& begun.0 is Begin ==> (begun.1 matches Some(l) && l@ == "Waiting for network..."@)
            &&& begun.0 is NoIdentity ==> (begun.1 matches Some(l) && l@ == "Error: No identity"@)
            &&& begun.0 is Busy ==> begun.1 is None
        },
        call_ensures(start_receiver, (sender, has_identity, network_ready), connecting) ==> {
            &&& connecting is Ok <==> has_identity && network_ready
            &&& connecting matches Ok(l) ==> l@ == "Connecting to "@ + sender@ + "..."@
            &&& connecting matches Err(l) ==> l@ == if has_identity {
                "Error: Network not ready"@
            } else {
                "Error: No identity available"@
            }
        },
        call_ensures(bundle_found, (sender,), line) ==> line@ == "Trust request from "@ + sender@
            + "..."@,
        call_ensures(receiver_status, (outcome,), line) ==> line@ == match *outcome {
            Ok(name) => "Trusted peer added: "@ + name@,
            Err(error) => "Trust handshake failed: "@ + error@,
        },
{
}

/// A bundle is used where it has not expired and every other one that has not is older, or as old and
/// behind it in the list.
pub proof fn bundles_that_are_newest_are_used(v: Seq<BundleFile>, k: int)
    requires
        0 <= k < v.len() <= usize::MAX,
        v[k].valid,
        forall|i: int| 0 <= i < v.len() && i != k && (#[trigger] v[i]).valid ==> {
            ||| v[i].created_at@.secs < v[k].created_at@.secs
            ||| v[i].created_at@.secs == v[k].created_at@.secs && v[i].created_at@.nanos
                < v[k].created_at@.nanos
            ||| v[i].created_at@ == v[k].created_at@ && k < i
        },
    ensures
        is_used(v, k),
{
    assert forall|i: int| 0 <= i < v.len() && i != k && (#[trigger] v[i]).valid implies before(
        made_at(v),
        k as usize,
        i as usize,
    ) by {
        assert(made_at(v)[i] == v[i].created_at@);
        assert(made_at(v)[k] == v[k].created_at@);
    }
}

/// The bundles that have expired are found, all of them and no others, each once and from the first
/// to the last.
pub proof fn expired_bundles_are_found(bundles: &Vec<BundleFile>, r: Vec<usize>, k: usize)
    requires
        call_ensures(expired_bundles, (bundles,), r),
    ensures
        r@.contains(k) <==> k < bundles@.len() && !bundles@[k as int].valid,
        forall|i: int, j: int| 0 <= i < j < r@.len() ==> #[trigger] r@[i] < #[trigger] r@[j],
{
    let places = Seq::new(bundles@.len(), |i: int| i as usize);
    let keep = |i: usize| !bundles@[i as int].valid;
    assert(bundles@.len() == bundles.len());
    assert(r@ == places.filter(keep));
    crate::seqs::lemma_filter_keeps(places, keep);
    if k < bundles@.len() && !bundles@[k as int].valid {
        assert(places[k as int] == k);
        crate::seqs::lemma_filter_has(places, keep, k as int);
    }
    if r@.contains(k) {
        let i = choose|i: int| 0 <= i < r@.len() && r@[i] == k;
        assert(keep(places.filter(keep)[i]));
        assert(places.contains(k));
    }
    assert forall|i: int, j: int| 0 <= i < j < places.len() implies #[trigger] places[i]
        < #[trigger] places[j] by {}
    crate::seqs::lemma_filter_rises(places, keep);
}

} // verus!
