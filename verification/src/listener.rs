//! Incoming connections: who is served, what is answered, and what is begun.

use vstd::prelude::*;

use crate::peerlist::{access_left, format_access_left, RowChange};
use crate::peers::{PeerInfo, Permissions, TrustedPeer};
use crate::text::{
    blank, copy_opt, copy_texts, join2, join3, opt_text, or_blank, same_text, text_or_blank, texts,
};
use crate::textmap::TextSet;
use crate::time::{format_minute, minute_text, Moment, UtcTime};

verus! {

/// A set of permissions that is granted as a whole.
#[derive(Clone, Copy, Debug, PartialEq, Eq, Structural)]
pub enum Grant {
    /// All permissions.
    All,
    /// Those that a guest gets.
    Guest,
}

/// A peer to be added after a handshake.
#[derive(Debug, PartialEq, Eq)]
pub struct NewPeer<T = String> {
    pub info: PeerInfo<T>,
    /// What we allow the peer.
    pub granted: Grant,
    /// What the peer allows us.
    pub their_permissions: Permissions,
    /// For a guest, how long its access lasts.
    pub guest_hours: Option<u32>,
}

impl View for NewPeer<String> {
    type V = NewPeer<Seq<char>>;

    open spec fn view(&self) -> NewPeer<Seq<char>> {
        NewPeer {
            info: self.info@,
            granted: self.granted,
            their_permissions: self.their_permissions,
            guest_hours: self.guest_hours,
        }
    }
}

/// The first message of an incoming connection.
#[derive(Debug, PartialEq, Eq)]
pub enum Message<T = String, L = Vec<String>> {
    /// Files are offered.
    PushOffer { files: L, total_size: u64 },
    /// A trust bundle of ours has arrived.
    TrustConfirm { peer: PeerInfo<T>, nonce: T, permissions: Permissions },
    /// A directory is asked for.
    BrowseRequest { path: Option<T> },
    /// Files are asked for.
    PullRequest { paths: L },
    /// The peer has changed what it allows us.
    PermissionsUpdate { permissions: Permissions },
    Ping { timestamp: u64 },
    Pong,
    StatusRequest,
    /// The peer's do-not-disturb mode.
    DndStatus { mode: T, message: Option<T> },
    SpeedTestRequest { test_id: T, size: u64 },
    /// The peer removes us.
    TrustRevoke { reason: T },
    /// A guest asks for more time.
    ExtensionRequest { requested_hours: u32 },
    /// A guest asks to be trusted for good.
    PromotionRequest,
    /// Someone wants to introduce us to a peer.
    IntroductionOffer { introduction_id: T, peer: PeerInfo<T> },
    /// Someone asks whether a peer may be introduced to us.
    IntroductionRequest { introduction_id: T, peer: PeerInfo<T> },
    /// Both sides have accepted an introduction.
    IntroductionComplete { peer: PeerInfo<T> },
    IntroductionFailed { reason: T },
    ChatMessage { message_id: T },
    ChatDelivered { message_ids: L },
    ChatRead { message_ids: L },
    ChatTyping { is_typing: bool },
    DisplayListRequest,
    ScreenStreamRequest { stream_id: T },
    ScreenFrame,
    ScreenStreamStop,
    /// Anything else, such as a reply to a question that was not asked.
    Other,
}

impl View for Message<String, Vec<String>> {
    type V = Message<Seq<char>, Seq<Seq<char>>>;

    open spec fn view(&self) -> Message<Seq<char>, Seq<Seq<char>>> {
        match *self {
            Message::PushOffer { files, total_size } => Message::PushOffer {
                files: texts(files@),
                total_size,
            },
            Message::TrustConfirm { peer, nonce, permissions } => Message::TrustConfirm {
                peer: peer@,
                nonce: nonce@,
                permissions,
            },
            Message::BrowseRequest { path } => Message::BrowseRequest {
                path: opt_text(path),
            },
            Message::PullRequest { paths } => Message::PullRequest {
                paths: texts(paths@),
            },
            Message::PermissionsUpdate { permissions } => Message::PermissionsUpdate {
                permissions,
            },
            Message::Ping { timestamp } => Message::Ping {
                timestamp,
            },
            Message::Pong => Message::Pong,
            Message::StatusRequest => Message::StatusRequest,
            Message::DndStatus { mode, message } => Message::DndStatus {
                mode: mode@,
                message: opt_text(message),
            },
            Message::SpeedTestRequest { test_id, size } => Message::SpeedTestRequest {
                test_id: test_id@,
                size,
            },
            Message::TrustRevoke { reason } => Message::TrustRevoke {
                reason: reason@,
            },
            Message::ExtensionRequest { requested_hours } => Message::ExtensionRequest {
                requested_hours,
            },
            Message::PromotionRequest => Message::PromotionRequest,
            Message::IntroductionOffer { introduction_id, peer } => Message::IntroductionOffer {
                introduction_id: introduction_id@,
                peer: peer@,
            },
            Message::IntroductionRequest { introduction_id, peer } => Message::IntroductionRequest {
                introduction_id: introduction_id@,
                peer: peer@,
            },
            Message::IntroductionComplete { peer } => Message::IntroductionComplete {
                peer: peer@,
            },
            Message::IntroductionFailed { reason } => Message::IntroductionFailed {
                reason: reason@,
            },
            Message::ChatMessage { message_id } => Message::ChatMessage {
                message_id: message_id@,
            },
            Message::ChatDelivered { message_ids } => Message::ChatDelivered {
                message_ids: texts(message_ids@),
            },
            Message::ChatRead { message_ids } => Message::ChatRead {
                message_ids: texts(message_ids@),
            },
            Message::ChatTyping { is_typing } => Message::ChatTyping {
                is_typing,
            },
            Message::DisplayListRequest => Message::DisplayListRequest,
            Message::ScreenStreamRequest { stream_id } => Message::ScreenStreamRequest {
                stream_id: stream_id@,
            },
            Message::ScreenFrame => Message::ScreenFrame,
            Message::ScreenStreamStop => Message::ScreenStreamStop,
            Message::Other => Message::Other,
        }
    }
}

/// What is sent back.
#[allow(inconsistent_fields)]
#[derive(Debug, PartialEq, Eq)]
pub enum Reply<T = String, L = Vec<String>> {
    TrustComplete,
    TrustRevoke { reason: T },
    PushResponse { transfer_id: T, accepted: bool, reason: Option<T> },
    /// A refusal to list a directory.
    BrowseResponse { path: T, error: Option<T> },
    /// A refusal to hand out files.
    PullResponse { transfer_id: T, granted: bool, reason: Option<T> },
    Pong { timestamp: u64 },
    ExtensionResponse { approved: bool, new_expires_at: Option<i64>, reason: Option<T> },
    PromotionResponse { approved: bool, reason: Option<T> },
    IntroductionOfferResponse { introduction_id: T, accepted: bool, reason: Option<T> },
    IntroductionRequestResponse { introduction_id: T, accepted: bool, reason: Option<T> },
    ChatDelivered { message_ids: L },
    /// The displays, of which there are none here.
    DisplayListResponse { backend: T },
    ScreenStreamResponse { stream_id: T, accepted: bool, reason: Option<T> },
}

impl View for Reply<String, Vec<String>> {
    type V = Reply<Seq<char>, Seq<Seq<char>>>;

    open spec fn view(&self) -> Reply<Seq<char>, Seq<Seq<char>>> {
        match *self {
            Reply::TrustComplete => Reply::TrustComplete,
            Reply::TrustRevoke { reason } => Reply::TrustRevoke {
                reason: reason@,
            },
            Reply::PushResponse { transfer_id, accepted, reason } => Reply::PushResponse {
                transfer_id: transfer_id@,
                accepted,
                reason: opt_text(reason),
            },
            Reply::BrowseResponse { path, error } => Reply::BrowseResponse {
                path: path@,
                error: opt_text(error),
            },
            Reply::PullResponse { transfer_id, granted, reason } => Reply::PullResponse {
                transfer_id: transfer_id@,
                granted,
                reason: opt_text(reason),
            },
            Reply::Pong { timestamp } => Reply::Pong {
                timestamp,
            },
            Reply::ExtensionResponse { approved, new_expires_at, reason } => Reply::ExtensionResponse {
                approved,
                new_expires_at,
                reason: opt_text(reason),
            },
            Reply::PromotionResponse { approved, reason } => Reply::PromotionResponse {
                approved,
                reason: opt_text(reason),
            },
            Reply::IntroductionOfferResponse { introduction_id, accepted, reason } => Reply::IntroductionOfferResponse {
                introduction_id: introduction_id@,
                accepted,
                reason: opt_text(reason),
            },
            Reply::IntroductionRequestResponse { introduction_id, accepted, reason } => Reply::IntroductionRequestResponse {
                introduction_id: introduction_id@,
                accepted,
                reason: opt_text(reason),
            },
            Reply::ChatDelivered { message_ids } => Reply::ChatDelivered {
                message_ids: texts(message_ids@),
            },
            Reply::DisplayListResponse { backend } => Reply::DisplayListResponse {
                backend: backend@,
            },
            Reply::ScreenStreamResponse { stream_id, accepted, reason } => Reply::ScreenStreamResponse {
                stream_id: stream_id@,
                accepted,
                reason: opt_text(reason),
            },
        }
    }
}

/// What is left to do beyond the reply.
#[allow(inconsistent_fields)]
#[derive(Debug, PartialEq, Eq)]
pub enum Work<T = String, L = Vec<String>> {
    Nothing,
    /// Add a peer that has proved to hold our trust bundle, once the reply is sent.
    CompleteHandshake { peer: NewPeer<T> },
    /// Receive files.
    ReceivePush { files: L, total_size: u64 },
    /// List a directory, within the directories that are allowed.
    ServeBrowse { path: Option<T>, allowed: L },
    /// Hand out files, out of the directories that are allowed.
    ServePull { paths: L, allowed: L },
    /// Note what the peer allows us, and that it is online.
    UpdatePermissions { permissions: Permissions },
    /// Answer with a report on this device.
    ReportStatus,
    RunSpeedTest { test_id: T, size: u64 },
    /// Extend a guest's access, and go on with the outcome.
    ExtendGuest { hours: u32 },
    SetPromotionPending,
    /// Add a peer that was introduced to us, with what we allow it and what it is taken to allow us.
    AddIntroduced { peer: PeerInfo<T>, granted: Grant, theirs: Grant },
    /// Store a chat message, and go on with the outcome.
    HandleChat { message_id: T },
    /// Note that messages were delivered, and show it where the chat is open.
    MarkDelivered { message_ids: L, show: bool },
    /// Note that messages were read, and show it where the chat is open.
    MarkRead { message_ids: L, show: bool },
    ShowTyping { is_typing: bool },
    /// Stream the screen until the stream ends.
    StreamScreen { stream_id: T },
}

impl View for Work<String, Vec<String>> {
    type V = Work<Seq<char>, Seq<Seq<char>>>;

    open spec fn view(&self) -> Work<Seq<char>, Seq<Seq<char>>> {
        match *self {
            Work::Nothing => Work::Nothing,
            Work::CompleteHandshake { peer } => Work::CompleteHandshake {
                peer: peer@,
            },
            Work::ReceivePush { files, total_size } => Work::ReceivePush {
                files: texts(files@),
                total_size,
            },
            Work::ServeBrowse { path, allowed } => Work::ServeBrowse {
                path: opt_text(path),
                allowed: texts(allowed@),
            },
            Work::ServePull { paths, allowed } => Work::ServePull {
                paths: texts(paths@),
                allowed: texts(allowed@),
            },
            Work::UpdatePermissions { permissions } => Work::UpdatePermissions {
                permissions,
            },
            Work::ReportStatus => Work::ReportStatus,
            Work::RunSpeedTest { test_id, size } => Work::RunSpeedTest {
                test_id: test_id@,
                size,
            },
            Work::ExtendGuest { hours } => Work::ExtendGuest {
                hours,
            },
            Work::SetPromotionPending => Work::SetPromotionPending,
            Work::AddIntroduced { peer, granted, theirs } => Work::AddIntroduced {
                peer: peer@,
                granted,
                theirs,
            },
            Work::HandleChat { message_id } => Work::HandleChat {
                message_id: message_id@,
            },
            Work::MarkDelivered { message_ids, show } => Work::MarkDelivered {
                message_ids: texts(message_ids@),
                show,
            },
            Work::MarkRead { message_ids, show } => Work::MarkRead {
                message_ids: texts(message_ids@),
                show,
            },
            Work::ShowTyping { is_typing } => Work::ShowTyping {
                is_typing,
            },
            Work::StreamScreen { stream_id } => Work::StreamScreen {
                stream_id: stream_id@,
            },
        }
    }
}

/// The answer to a message. The reply is sent first, then the work is done, then the row changes and
/// the status line is set, and in the end the connection is closed or left to run out. Work that
/// moves files sets the status line as it begins.
#[derive(Debug, PartialEq, Eq)]
pub struct Step<T = String, L = Vec<String>> {
    pub reply: Option<Reply<T, L>>,
    /// A change to the peer's row.
    pub row: Option<RowChange<T>>,
    /// A new status line.
    pub status: Option<T>,
    pub work: Work<T, L>,
    pub close: bool,
}

impl View for Step<String, Vec<String>> {
    type V = Step<Seq<char>, Seq<Seq<char>>>;

    open spec fn view(&self) -> Step<Seq<char>, Seq<Seq<char>>> {
        Step {
            reply: match self.reply {
                Some(r) => Some(r@),
                None => None,
            },
            row: match self.row {
                Some(r) => Some(r@),
                None => None,
            },
            status: opt_text(self.status),
            work: self.work@,
            close: self.close,
        }
    }
}

/// What guests may do.
#[derive(Clone, Copy, Debug, PartialEq, Eq)]
pub struct GuestPolicy {
    pub auto_accept_guest_pushes: bool,
    pub allow_extensions: bool,
    pub max_extensions: u32,
    pub max_duration_hours: u32,
    pub allow_promotion_requests: bool,
}

/// The security postures.
#[derive(Clone, Copy, Debug, PartialEq, Eq, Structural)]
pub enum Posture {
    Relaxed,
    Balanced,
    Cautious,
}

/// The posture that a text names, if it names one.
pub open spec fn posture_named(s: Seq<char>) -> Option<Posture> {
    if s == "relaxed"@ {
        Some(Posture::Relaxed)
    } else if s == "balanced"@ {
        Some(Posture::Balanced)
    } else if s == "cautious"@ {
        Some(Posture::Cautious)
    } else {
        None
    }
}

/// Reads the name of a posture.
pub fn parse_posture(s: &str) -> (r: Option<Posture>)
    ensures
        r == posture_named(s@),
{
    if same_text(s, "relaxed") {
        Some(Posture::Relaxed)
    } else if same_text(s, "balanced") {
        Some(Posture::Balanced)
    } else if same_text(s, "cautious") {
        Some(Posture::Cautious)
    } else {
        None
    }
}

/// Whether files and introductions are accepted without asking the user. There is no way to ask, so
/// what is not accepted is declined. Of a guest's files the guest policy decides besides.
pub open spec fn accepts_unasked(posture: Posture) -> bool {
    !(posture is Cautious)
}

fn is_accepting(posture: Posture) -> (r: bool)
    ensures
        r == accepts_unasked(posture),
{
    match posture {
        Posture::Cautious => false,
        _ => true,
    }
}

/// What an answer depends on, besides the peer and the message.
#[derive(Debug, PartialEq, Eq)]
pub struct Context<T = String, L = Vec<String>> {
    pub posture: Posture,
    pub policy: GuestPolicy,
    /// Whether this device streams its screen at all.
    pub screen_enabled: bool,
    /// Whether this device has an identity yet.
    pub has_identity: bool,
    /// The endpoints of all peers.
    pub known_endpoints: L,
    /// The endpoint of the peer whose chat is open.
    pub active_chat: Option<T>,
    /// The directories that the settings open to peers.
    pub configured_dirs: L,
    /// The directories that are open to peers where the settings name none.
    pub usual_dirs: L,
}

impl View for Context<String, Vec<String>> {
    type V = Context<Seq<char>, Seq<Seq<char>>>;

    open spec fn view(&self) -> Context<Seq<char>, Seq<Seq<char>>> {
        Context {
            posture: self.posture,
            policy: self.policy,
            screen_enabled: self.screen_enabled,
            has_identity: self.has_identity,
            known_endpoints: texts(self.known_endpoints@),
            active_chat: opt_text(self.active_chat),
            configured_dirs: texts(self.configured_dirs@),
            usual_dirs: texts(self.usual_dirs@),
        }
    }
}

// ---------------------------------------------------------------------------
// Plain steps

/// No reply, no work; the connection is closed or not.
pub open spec fn idle(close: bool) -> Step<Seq<char>, Seq<Seq<char>>> {
    Step { reply: None, row: None, status: None, work: Work::Nothing, close }
}

/// A reply and nothing else.
pub open spec fn replied(reply: Reply<Seq<char>, Seq<Seq<char>>>, close: bool) -> Step<
    Seq<char>,
    Seq<Seq<char>>,
> {
    Step { reply: Some(reply), ..idle(close) }
}

/// Work and nothing else.
pub open spec fn working(work: Work<Seq<char>, Seq<Seq<char>>>, close: bool) -> Step<
    Seq<char>,
    Seq<Seq<char>>,
> {
    Step { work, ..idle(close) }
}

fn idle_step(close: bool) -> (r: Step)
    ensures
        r@ == idle(close),
{
    Step { reply: None, row: None, status: None, work: Work::Nothing, close }
}

fn reply_step(reply: Reply, close: bool) -> (r: Step)
    ensures
        r@ == replied(reply@, close),
{
    Step { reply: Some(reply), row: None, status: None, work: Work::Nothing, close }
}

fn work_step(work: Work, close: bool) -> (r: Step)
    ensures
        r@ == working(work@, close),
{
    Step { reply: None, row: None, status: None, work, close }
}

// ---------------------------------------------------------------------------
// Admission

/// Whether a connection is served at all: those of peers that the user has paused are not.
pub open spec fn admitted(peer: Option<Seq<char>>, disconnected: Set<Seq<char>>) -> bool {
    peer matches Some(id) ==> !disconnected.contains(id)
}

/// Whether a connection is served. `peer` is the identifier of the peer it comes from, if it is a
/// peer's. A connection that is not served is closed.
pub fn is_admitted(peer: &Option<String>, disconnected: &TextSet) -> (r: bool)
    ensures
        r == admitted(opt_text(*peer), disconnected@),
{
    match peer {
        Some(id) => !disconnected.contains(id.as_str()),
        None => true,
    }
}

// ---------------------------------------------------------------------------
// Strangers

/// A trust bundle that is on its way, until its receiver connects.
#[derive(Debug, PartialEq, Eq)]
pub struct PendingTrust<T = String> {
    pub nonce: T,
    pub guest_mode: bool,
    pub guest_duration_hours: Option<u32>,
}

impl View for PendingTrust<String> {
    type V = PendingTrust<Seq<char>>;

    open spec fn view(&self) -> PendingTrust<Seq<char>> {
        PendingTrust {
            nonce: self.nonce@,
            guest_mode: self.guest_mode,
            guest_duration_hours: self.guest_duration_hours,
        }
    }
}

/// The trust bundle that is on its way, if one is.
pub open spec fn pending_view(pending: Option<PendingTrust>) -> Option<PendingTrust<Seq<char>>> {
    match pending {
        Some(p) => Some(p@),
        None => None,
    }
}

/// How long a guest's access lasts where the bundle does not say.
pub const DEFAULT_GUEST_HOURS: u32 = 24;

/// How long the access of a bundle's receiver lasts, where it is a guest's.
pub open spec fn guest_hours(pending: PendingTrust<Seq<char>>) -> Option<u32> {
    if pending.guest_mode {
        match pending.guest_duration_hours {
            Some(hours) => Some(hours),
            None => Some(DEFAULT_GUEST_HOURS),
        }
    } else {
        None
    }
}

/// What a bundle's receiver is allowed.
pub open spec fn granted_to(pending: PendingTrust<Seq<char>>) -> Grant {
    if pending.guest_mode {
        Grant::Guest
    } else {
        Grant::All
    }
}

/// The answer to a stranger's message. Only a confirmation that holds the nonce of the trust bundle
/// on its way makes the stranger a peer.
pub open spec fn stranger_answer(
    pending: Option<PendingTrust<Seq<char>>>,
    msg: Message<Seq<char>, Seq<Seq<char>>>,
) -> Step<Seq<char>, Seq<Seq<char>>> {
    match (msg, pending) {
        (Message::TrustConfirm { peer, nonce, permissions }, Some(bundle)) => if bundle.nonce
            == nonce {
            Step {
                reply: Some(Reply::TrustComplete),
                row: None,
                status: None,
                work: Work::CompleteHandshake {
                    peer: NewPeer {
                        info: peer,
                        granted: granted_to(bundle),
                        their_permissions: permissions,
                        guest_hours: guest_hours(bundle),
                    },
                },
                close: true,
            }
        } else {
            replied(Reply::TrustRevoke { reason: "invalid nonce"@ }, true)
        },
        _ => idle(true),
    }
}

/// The trust bundle that is on its way after a stranger's message: none once it has been confirmed.
pub open spec fn pending_after(
    pending: Option<PendingTrust<Seq<char>>>,
    msg: Message<Seq<char>, Seq<Seq<char>>>,
) -> Option<PendingTrust<Seq<char>>> {
    match (msg, pending) {
        (Message::TrustConfirm { peer, nonce, permissions }, Some(bundle)) => if bundle.nonce
            == nonce {
            None
        } else {
            pending
        },
        _ => pending,
    }
}

/// Answers a stranger.
pub fn on_stranger(pending: &mut Option<PendingTrust>, msg: &Message) -> (r: Step)
    ensures
        r@ == stranger_answer(pending_view(*old(pending)), msg@),
        pending_view(*final(pending)) == pending_after(pending_view(*old(pending)), msg@),
{
    match msg {
        Message::TrustConfirm { peer, nonce, permissions } => match pending.take() {
            Some(bundle) => {
                if same_text(bundle.nonce.as_str(), nonce.as_str()) {
                    let guest_hours: Option<u32> = if bundle.guest_mode {
                        match bundle.guest_duration_hours {
                            Some(hours) => Some(hours),
                            None => Some(DEFAULT_GUEST_HOURS),
                        }
                    } else {
                        None
                    };
                    let granted = if bundle.guest_mode {
                        Grant::Guest
                    } else {
                        Grant::All
                    };
                    let peer = NewPeer {
                        info: peer.clone(),
                        granted,
                        their_permissions: *permissions,
                        guest_hours,
                    };
                    Step {
                        reply: Some(Reply::TrustComplete),
                        row: None,
                        status: None,
                        work: Work::CompleteHandshake { peer },
                        close: true,
                    }
                } else {
                    *pending = Some(bundle);
                    reply_step(Reply::TrustRevoke { reason: "invalid nonce".to_owned() }, true)
                }
            },
            None => idle_step(true),
        },
        _ => idle_step(true),
    }
}

// ---------------------------------------------------------------------------
// Files

/// The answer to an offer of files.
pub open spec fn push_answer(
    peer: TrustedPeer<Seq<char>, Moment>,
    posture: Posture,
    policy: GuestPolicy,
    files: Seq<Seq<char>>,
    total_size: u64,
) -> Step<Seq<char>, Seq<Seq<char>>> {
    if !peer.permissions_granted.push {
        replied(
            Reply::PushResponse {
                transfer_id: blank(),
                accepted: false,
                reason: Some("push not allowed"@),
            },
            false,
        )
    } else if peer.is_guest && !(policy.auto_accept_guest_pushes && accepts_unasked(posture)) {
        Step {
            status: Some("Rejected push from guest "@ + peer.name + " (requires approval)"@),
            ..replied(
                Reply::PushResponse {
                    transfer_id: blank(),
                    accepted: false,
                    reason: Some(
                        "guest pushes require approval (disabled in security settings)"@,
                    ),
                },
                false,
            )
        }
    } else if !peer.is_guest && !accepts_unasked(posture) {
        Step {
            status: Some("Rejected push from "@ + peer.name + " (requires approval)"@),
            ..replied(
                Reply::PushResponse {
                    transfer_id: blank(),
                    accepted: false,
                    reason: Some("pushes require approval (disabled in security settings)"@),
                },
                false,
            )
        }
    } else {
        Step {
            status: Some("Receiving files from "@ + peer.name + "..."@),
            ..working(Work::ReceivePush { files, total_size }, false)
        }
    }
}

/// Answers an offer of files.
pub fn on_push_offer(
    peer: &TrustedPeer,
    posture: Posture,
    policy: &GuestPolicy,
    files: &Vec<String>,
    total_size: u64,
) -> (r: Step)
    ensures
        r@ == push_answer(peer@, posture, *policy, texts(files@), total_size),
{
    if !peer.permissions_granted.push {
        reply_step(
            Reply::PushResponse {
                transfer_id: String::new(),
                accepted: false,
                reason: Some("push not allowed".to_owned()),
            },
            false,
        )
    } else if peer.is_guest && !(policy.auto_accept_guest_pushes && is_accepting(posture)) {
        let refusal = Reply::PushResponse {
            transfer_id: String::new(),
            accepted: false,
            reason: Some(
                "guest pushes require approval (disabled in security settings)".to_owned(),
            ),
        };
        Step {
            status: Some(
                join3("Rejected push from guest ", peer.name.as_str(), " (requires approval)"),
            ),
            ..reply_step(refusal, false)
        }
    } else if !peer.is_guest && !is_accepting(posture) {
        let refusal = Reply::PushResponse {
            transfer_id: String::new(),
            accepted: false,
            reason: Some("pushes require approval (disabled in security settings)".to_owned()),
        };
        Step {
            status: Some(
                join3("Rejected push from ", peer.name.as_str(), " (requires approval)"),
            ),
            ..reply_step(refusal, false)
        }
    } else {
        Step {
            status: Some(join3("Receiving files from ", peer.name.as_str(), "...")),
            ..work_step(
                Work::ReceivePush { files: copy_texts(files), total_size },
                false,
            )
        }
    }
}

/// The directories that are open to peers, for browsing and for pulls alike: those of the settings,
/// or the usual ones where the settings name none.
pub open spec fn open_dirs(configured: Seq<Seq<char>>, usual: Seq<Seq<char>>) -> Seq<Seq<char>> {
    if configured.len() == 0 {
        usual
    } else {
        configured
    }
}

/// The directories that are open to peers, for browsing and for pulls alike.
pub fn browsable_paths(configured: &Vec<String>, usual: &Vec<String>) -> (r: Vec<String>)
    ensures
        texts(r@) == open_dirs(texts(configured@), texts(usual@)),
{
    if configured.len() == 0 {
        copy_texts(usual)
    } else {
        copy_texts(configured)
    }
}

/// The answer to a request for a directory, where `allowed` are open to peers.
pub open spec fn browse_answer(
    peer: TrustedPeer<Seq<char>, Moment>,
    allowed: Seq<Seq<char>>,
    path: Option<Seq<char>>,
) -> Step<Seq<char>, Seq<Seq<char>>> {
    if peer.permissions_granted.browse {
        working(Work::ServeBrowse { path, allowed }, true)
    } else {
        replied(
            Reply::BrowseResponse {
                path: match path {
                    Some(p) => p,
                    None => "/"@,
                },
                error: Some("browse not allowed"@),
            },
            false,
        )
    }
}

/// Answers a request for a directory.
pub fn on_browse_request(peer: &TrustedPeer, allowed: Vec<String>, path: &Option<String>) -> (r:
    Step)
    ensures
        r@ == browse_answer(peer@, texts(allowed@), opt_text(*path)),
{
    if peer.permissions_granted.browse {
        work_step(Work::ServeBrowse { path: copy_opt(path), allowed }, true)
    } else {
        let shown = match path {
            Some(p) => p.clone(),
            None => "/".to_owned(),
        };
        reply_step(
            Reply::BrowseResponse { path: shown, error: Some("browse not allowed".to_owned()) },
            false,
        )
    }
}

/// The answer to a request for files, where `allowed` are open to peers.
pub open spec fn pull_answer(
    peer: TrustedPeer<Seq<char>, Moment>,
    allowed: Seq<Seq<char>>,
    paths: Seq<Seq<char>>,
) -> Step<Seq<char>, Seq<Seq<char>>> {
    if peer.permissions_granted.pull {
        Step {
            status: Some("Sending files to "@ + peer.name + " (pull)..."@),
            ..working(Work::ServePull { paths, allowed }, false)
        }
    } else {
        replied(
            Reply::PullResponse {
                transfer_id: blank(),
                granted: false,
                reason: Some("pull not allowed"@),
            },
            false,
        )
    }
}

/// Answers a request for files.
pub fn on_pull_request(peer: &TrustedPeer, allowed: Vec<String>, paths: &Vec<String>) -> (r: Step)
    ensures
        r@ == pull_answer(peer@, texts(allowed@), texts(paths@)),
{
    if peer.permissions_granted.pull {
        Step {
            status: Some(join3("Sending files to ", peer.name.as_str(), " (pull)...")),
            ..work_step(Work::ServePull { paths: copy_texts(paths), allowed }, false)
        }
    } else {
        reply_step(
            Reply::PullResponse {
                transfer_id: String::new(),
                granted: false,
                reason: Some("pull not allowed".to_owned()),
            },
            false,
        )
    }
}

// ---------------------------------------------------------------------------
// Guests

/// Whether a guest's access may be extended once more.
pub open spec fn may_extend(peer: TrustedPeer<Seq<char>, Moment>, policy: GuestPolicy) -> bool {
    peer.is_guest && policy.allow_extensions && peer.extension_count < policy.max_extensions
}

/// How much time is granted: what was asked for, but no more than the policy's limit.
pub open spec fn granted_hours(requested: u32, policy: GuestPolicy) -> u32 {
    if requested > policy.max_duration_hours {
        policy.max_duration_hours
    } else {
        requested
    }
}

/// A refusal of more time.
pub open spec fn no_extension(reason: Seq<char>) -> Reply<Seq<char>, Seq<Seq<char>>> {
    Reply::ExtensionResponse { approved: false, new_expires_at: None, reason: Some(reason) }
}

/// The answer to a guest's request for more time.
pub open spec fn extension_answer(
    peer: TrustedPeer<Seq<char>, Moment>,
    policy: GuestPolicy,
    requested: u32,
) -> Step<Seq<char>, Seq<Seq<char>>> {
    if may_extend(peer, policy) {
        working(Work::ExtendGuest { hours: granted_hours(requested, policy) }, false)
    } else if !peer.is_guest {
        replied(no_extension("Not a guest peer"@), true)
    } else if peer.extension_count >= policy.max_extensions {
        replied(no_extension("Maximum extensions reached"@), true)
    } else {
        replied(no_extension("Extensions not allowed"@), true)
    }
}

fn refuse_extension(reason: &str) -> (r: Step)
    ensures
        r@ == replied(no_extension(reason@), true),
{
    reply_step(
        Reply::ExtensionResponse {
            approved: false,
            new_expires_at: None,
            reason: Some(reason.to_owned()),
        },
        true,
    )
}

/// Answers a guest's request for more time.
pub fn on_extension_request(peer: &TrustedPeer, policy: &GuestPolicy, requested: u32) -> (r: Step)
    ensures
        r@ == extension_answer(peer@, *policy, requested),
{
    if peer.is_guest && policy.allow_extensions && peer.extension_count < policy.max_extensions {
        let hours: u32 = if requested > policy.max_duration_hours {
            policy.max_duration_hours
        } else {
            requested
        };
        work_step(Work::ExtendGuest { hours }, false)
    } else if !peer.is_guest {
        refuse_extension("Not a guest peer")
    } else if peer.extension_count >= policy.max_extensions {
        refuse_extension("Maximum extensions reached")
    } else {
        refuse_extension("Extensions not allowed")
    }
}

/// What came of an attempt to extend a guest's access.
#[derive(Debug, PartialEq, Eq)]
pub enum ExtensionOutcome<T = String, M = UtcTime> {
    /// The access lasts until then.
    Until { expiry: M },
    /// The peer is no guest.
    NotGuest,
    /// The attempt failed.
    Failed { error: T },
}

impl View for ExtensionOutcome<String, UtcTime> {
    type V = ExtensionOutcome<Seq<char>, Moment>;

    open spec fn view(&self) -> ExtensionOutcome<Seq<char>, Moment> {
        match *self {
            ExtensionOutcome::Until { expiry } => ExtensionOutcome::Until { expiry: expiry@ },
            ExtensionOutcome::NotGuest => ExtensionOutcome::NotGuest,
            ExtensionOutcome::Failed { error } => ExtensionOutcome::Failed { error: error@ },
        }
    }
}

/// How a guest's request for more time ends.
pub open spec fn extension_end(
    name: Seq<char>,
    outcome: ExtensionOutcome<Seq<char>, Moment>,
    now: Moment,
) -> Step<Seq<char>, Seq<Seq<char>>> {
    match outcome {
        ExtensionOutcome::Until { expiry } => Step {
            row: Some(
                RowChange::Extended {
                    expires_at: minute_text(expiry),
                    time_remaining: access_left(expiry, now),
                },
            ),
            status: Some("Extended "@ + name + " access"@),
            ..replied(
                Reply::ExtensionResponse {
                    approved: true,
                    new_expires_at: Some(expiry.secs as i64),
                    reason: None,
                },
                true,
            )
        },
        ExtensionOutcome::NotGuest => replied(no_extension("Not a guest peer"@), true),
        ExtensionOutcome::Failed { error } => replied(
            no_extension("Internal error: "@ + error),
            true,
        ),
    }
}

/// Ends a guest's request for more time.
pub fn on_extension_outcome(name: &str, outcome: &ExtensionOutcome, now: &UtcTime) -> (r: Step)
    ensures
        r@ == extension_end(name@, outcome@, now@),
{
    match outcome {
        ExtensionOutcome::Until { expiry } => Step {
            reply: Some(
                Reply::ExtensionResponse {
                    approved: true,
                    new_expires_at: Some(expiry.secs()),
                    reason: None,
                },
            ),
            row: Some(
                RowChange::Extended {
                    expires_at: format_minute(expiry),
                    time_remaining: format_access_left(expiry, now),
                },
            ),
            status: Some(join3("Extended ", name, " access")),
            work: Work::Nothing,
            close: true,
        },
        ExtensionOutcome::NotGuest => refuse_extension("Not a guest peer"),
        ExtensionOutcome::Failed { error } => refuse_extension(
            join2("Internal error: ", error.as_str()).as_str(),
        ),
    }
}

/// A refusal to trust a guest for good.
pub open spec fn no_promotion(reason: Seq<char>) -> Reply<Seq<char>, Seq<Seq<char>>> {
    Reply::PromotionResponse { approved: false, reason: Some(reason) }
}

/// The answer to a guest's request to be trusted for good: the user decides later.
pub open spec fn promotion_answer(
    peer: TrustedPeer<Seq<char>, Moment>,
    policy: GuestPolicy,
) -> Step<Seq<char>, Seq<Seq<char>>> {
    if peer.is_guest && policy.allow_promotion_requests {
        Step {
            reply: None,
            row: Some(RowChange::PromotionPending),
            status: Some(peer.name + " requested trusted status"@),
            work: Work::SetPromotionPending,
            close: true,
        }
    } else if !peer.is_guest {
        replied(no_promotion("Already a trusted peer"@), true)
    } else {
        replied(no_promotion("Promotion requests not allowed"@), true)
    }
}

fn refuse_promotion(reason: &str) -> (r: Step)
    ensures
        r@ == replied(no_promotion(reason@), true),
{
    reply_step(
        Reply::PromotionResponse { approved: false, reason: Some(reason.to_owned()) },
        true,
    )
}

/// Answers a guest's request to be trusted for good.
pub fn on_promotion_request(peer: &TrustedPeer, policy: &GuestPolicy) -> (r: Step)
    ensures
        r@ == promotion_answer(peer@, *policy),
{
    if peer.is_guest && policy.allow_promotion_requests {
        Step {
            reply: None,
            row: Some(RowChange::PromotionPending),
            status: Some(join2(peer.name.as_str(), " requested trusted status")),
            work: Work::SetPromotionPending,
            close: true,
        }
    } else if !peer.is_guest {
        refuse_promotion("Already a trusted peer")
    } else {
        refuse_promotion("Promotion requests not allowed")
    }
}

// ---------------------------------------------------------------------------
// Introductions

/// Whether an endpoint is a peer's.
fn is_known(known: &Vec<String>, endpoint_id: &str) -> (r: bool)
    ensures
        r == texts(known@).contains(endpoint_id@),
{
    for i in 0..known.len()
        invariant
            forall|j: int| 0 <= j < i ==> (#[trigger] known@[j])@ != endpoint_id@,
    {
        if same_text(known[i].as_str(), endpoint_id) {
            assert(texts(known@)[i as int] == endpoint_id@);
            return true;
        }
    }
    assert(!texts(known@).contains(endpoint_id@)) by {
        if texts(known@).contains(endpoint_id@) {
            let j = choose|j: int| 0 <= j < texts(known@).len() && texts(known@)[j] == endpoint_id@;
            assert(known@[j]@ == endpoint_id@);
        }
    }
    false
}

/// Why an introduction to a peer is declined, if it is.
pub open spec fn introduction_objection(
    posture: Posture,
    known: Seq<Seq<char>>,
    peer: PeerInfo<Seq<char>>,
) -> Option<Seq<char>> {
    if known.contains(peer.endpoint_id) {
        Some("Already connected to this peer"@)
    } else if !accepts_unasked(posture) {
        Some("introductions require approval (disabled in security settings)"@)
    } else {
        None
    }
}

/// The status line of an introduction to a peer that is not known yet.
pub open spec fn introduction_status(
    posture: Posture,
    known: Seq<Seq<char>>,
    peer: PeerInfo<Seq<char>>,
) -> Option<Seq<char>> {
    if known.contains(peer.endpoint_id) {
        None
    } else if !accepts_unasked(posture) {
        Some("Declined introduction to "@ + peer.name + " (requires approval)"@)
    } else {
        Some("Accepted introduction to "@ + peer.name)
    }
}

/// Whether an introduction to a peer is accepted, with the objection or else the status line.
fn consider_introduction(posture: Posture, known: &Vec<String>, peer: &PeerInfo) -> (r: (
    Option<String>,
    Option<String>,
))
    ensures
        opt_text(r.0) == introduction_objection(posture, texts(known@), peer@),
        opt_text(r.1) == introduction_status(posture, texts(known@), peer@),
{
    if is_known(known, peer.endpoint_id.as_str()) {
        (Some("Already connected to this peer".to_owned()), None)
    } else if !is_accepting(posture) {
        (
            Some("introductions require approval (disabled in security settings)".to_owned()),
            Some(
                join3("Declined introduction to ", peer.name.as_str(), " (requires approval)"),
            ),
        )
    } else {
        (None, Some(join2("Accepted introduction to ", peer.name.as_str())))
    }
}

/// The answer to an offer to be introduced to a peer.
pub open spec fn offer_answer(
    posture: Posture,
    known: Seq<Seq<char>>,
    introduction_id: Seq<char>,
    peer: PeerInfo<Seq<char>>,
) -> Step<Seq<char>, Seq<Seq<char>>> {
    let reason = introduction_objection(posture, known, peer);
    Step {
        status: introduction_status(posture, known, peer),
        ..replied(
            Reply::IntroductionOfferResponse { introduction_id, accepted: reason is None, reason },
            true,
        )
    }
}

/// Answers an offer to be introduced to a peer.
pub fn on_introduction_offer(
    posture: Posture,
    known: &Vec<String>,
    introduction_id: &str,
    peer: &PeerInfo,
) -> (r: Step)
    ensures
        r@ == offer_answer(posture, texts(known@), introduction_id@, peer@),
{
    let (reason, status) = consider_introduction(posture, known, peer);
    let accepted = reason.is_none();
    let introduction_id = introduction_id.to_owned();
    Step {
        status,
        ..reply_step(Reply::IntroductionOfferResponse { introduction_id, accepted, reason }, true)
    }
}

/// The answer to the question whether a peer may be introduced to us.
pub open spec fn request_answer(
    posture: Posture,
    known: Seq<Seq<char>>,
    introduction_id: Seq<char>,
    peer: PeerInfo<Seq<char>>,
) -> Step<Seq<char>, Seq<Seq<char>>> {
    let reason = introduction_objection(posture, known, peer);
    Step {
        status: introduction_status(posture, known, peer),
        ..replied(
            Reply::IntroductionRequestResponse {
                introduction_id,
                accepted: reason is None,
                reason,
            },
            true,
        )
    }
}

/// Answers the question whether a peer may be introduced to us.
pub fn on_introduction_request(
    posture: Posture,
    known: &Vec<String>,
    introduction_id: &str,
    peer: &PeerInfo,
) -> (r: Step)
    ensures
        r@ == request_answer(posture, texts(known@), introduction_id@, peer@),
{
    let (reason, status) = consider_introduction(posture, known, peer);
    let accepted = reason.is_none();
    let introduction_id = introduction_id.to_owned();
    Step {
        status,
        ..reply_step(Reply::IntroductionRequestResponse { introduction_id, accepted, reason }, true)
    }
}

/// The answer to word that an introduction is complete: the other peer is added, with all
/// permissions, where introductions are accepted unasked.
pub open spec fn completion_answer(
    posture: Posture,
    known: Seq<Seq<char>>,
    peer: PeerInfo<Seq<char>>,
) -> Step<Seq<char>, Seq<Seq<char>>> {
    if accepts_unasked(posture) {
        working(Work::AddIntroduced { peer, granted: Grant::All, theirs: Grant::All }, true)
    } else {
        Step { status: introduction_status(posture, known, peer), ..idle(true) }
    }
}

/// Answers word that an introduction is complete.
pub fn on_introduction_complete(posture: Posture, known: &Vec<String>, peer: &PeerInfo) -> (r: Step)
    ensures
        r@ == completion_answer(posture, texts(known@), peer@),
{
    if is_accepting(posture) {
        let work = Work::AddIntroduced {
            peer: peer.clone(),
            granted: Grant::All,
            theirs: Grant::All,
        };
        work_step(work, true)
    } else {
        let (_, status) = consider_introduction(posture, known, peer);
        Step { status, ..idle_step(true) }
    }
}

/// The status line of an introduced peer.
pub open spec fn introduced_line(known: Seq<Seq<char>>, peer: PeerInfo<Seq<char>>) -> Option<
    Seq<char>,
> {
    if known.contains(peer.endpoint_id) {
        None
    } else {
        Some("Connected to "@ + peer.name + " via introduction"@)
    }
}

/// The status line once an introduced peer has been added, or nothing where the peer is known
/// already and so is not added.
pub fn on_introduced(known: &Vec<String>, peer: &PeerInfo) -> (r: Option<String>)
    ensures
        opt_text(r) == introduced_line(texts(known@), peer@),
{
    if is_known(known, peer.endpoint_id.as_str()) {
        None
    } else {
        Some(join3("Connected to ", peer.name.as_str(), " via introduction"))
    }
}

// ---------------------------------------------------------------------------
// Chat and screen

/// Whether the chat with an endpoint is open.
pub open spec fn chat_open(active: Option<Seq<char>>, endpoint_id: Seq<char>) -> bool {
    active == Some(endpoint_id)
}

/// Whether the chat with an endpoint is open.
pub fn is_chat_open(active: &Option<String>, endpoint_id: &str) -> (r: bool)
    ensures
        r == chat_open(opt_text(*active), endpoint_id@),
{
    match active {
        Some(id) => same_text(id.as_str(), endpoint_id),
        None => false,
    }
}

/// The answer to a chat message.
pub open spec fn chat_answer(
    peer: TrustedPeer<Seq<char>, Moment>,
    has_identity: bool,
    message_id: Seq<char>,
) -> Step<Seq<char>, Seq<Seq<char>>> {
    if !peer.permissions_granted.chat {
        idle(true)
    } else if !has_identity {
        idle(false)
    } else {
        working(Work::HandleChat { message_id }, false)
    }
}

/// What is shown of a chat message that has been stored.
#[derive(Debug, PartialEq, Eq)]
pub enum ChatDisplay {
    /// Nothing.
    Unchanged,
    /// The open chat is shown anew, the typing indicator is cleared, and the chat counts as read.
    Reload,
    /// The peer's row shows the number of messages not read.
    Unread,
}

/// How a chat message ends: with a receipt where it could be stored.
pub open spec fn chat_end(stored: bool, message_id: Seq<char>) -> Step<Seq<char>, Seq<Seq<char>>> {
    if stored {
        replied(Reply::ChatDelivered { message_ids: seq![message_id] }, true)
    } else {
        idle(true)
    }
}

/// What is shown of a chat message.
pub open spec fn chat_display(stored: bool, open: bool) -> ChatDisplay {
    if !stored {
        ChatDisplay::Unchanged
    } else if open {
        ChatDisplay::Reload
    } else {
        ChatDisplay::Unread
    }
}

/// Ends a chat message.
pub fn on_chat_stored(
    stored: bool,
    message_id: &str,
    active: &Option<String>,
    endpoint_id: &str,
) -> (r: (Step, ChatDisplay))
    ensures
        r.0@ == chat_end(stored, message_id@),
        r.1 == chat_display(stored, chat_open(opt_text(*active), endpoint_id@)),
{
    if stored {
        let mut ids: Vec<String> = Vec::new();
        ids.push(message_id.to_owned());
        assert(texts(ids@) =~= seq![message_id@]);
        let display = if is_chat_open(active, endpoint_id) {
            ChatDisplay::Reload
        } else {
            ChatDisplay::Unread
        };
        (reply_step(Reply::ChatDelivered { message_ids: ids }, true), display)
    } else {
        (idle_step(true), ChatDisplay::Unchanged)
    }
}

/// A refusal to stream the screen.
pub open spec fn no_stream(stream_id: Seq<char>, reason: Seq<char>) -> Reply<
    Seq<char>,
    Seq<Seq<char>>,
> {
    Reply::ScreenStreamResponse { stream_id, accepted: false, reason: Some(reason) }
}

/// The answer to a request for the screen.
pub open spec fn stream_answer(
    peer: TrustedPeer<Seq<char>, Moment>,
    screen_enabled: bool,
    stream_id: Seq<char>,
) -> Step<Seq<char>, Seq<Seq<char>>> {
    if !screen_enabled {
        replied(no_stream(stream_id, "Screen streaming is disabled on this device"@), true)
    } else if !peer.permissions_granted.screen_view {
        replied(no_stream(stream_id, "screen_view permission not granted"@), true)
    } else {
        working(Work::StreamScreen { stream_id }, false)
    }
}

/// Answers a request for the screen.
pub fn on_stream_request(peer: &TrustedPeer, screen_enabled: bool, stream_id: &str) -> (r: Step)
    ensures
        r@ == stream_answer(peer@, screen_enabled, stream_id@),
{
    let stream_id = stream_id.to_owned();
    if !screen_enabled {
        reply_step(
            Reply::ScreenStreamResponse {
                stream_id,
                accepted: false,
                reason: Some("Screen streaming is disabled on this device".to_owned()),
            },
            true,
        )
    } else if !peer.permissions_granted.screen_view {
        reply_step(
            Reply::ScreenStreamResponse {
                stream_id,
                accepted: false,
                reason: Some("screen_view permission not granted".to_owned()),
            },
            true,
        )
    } else {
        work_step(Work::StreamScreen { stream_id }, false)
    }
}

// ---------------------------------------------------------------------------
// All messages

/// The answer to a peer's message.
pub open spec fn answer(
    peer: TrustedPeer<Seq<char>, Moment>,
    cx: Context<Seq<char>, Seq<Seq<char>>>,
    msg: Message<Seq<char>, Seq<Seq<char>>>,
) -> Step<Seq<char>, Seq<Seq<char>>> {
    let open = chat_open(cx.active_chat, peer.endpoint_id);
    match msg {
        Message::PushOffer { files, total_size } => push_answer(
            peer,
            cx.posture,
            cx.policy,
            files,
            total_size,
        ),
        Message::TrustConfirm { .. } => idle(false),
        Message::BrowseRequest { path } => browse_answer(
            peer,
            open_dirs(cx.configured_dirs, cx.usual_dirs),
            path,
        ),
        Message::PullRequest { paths } => pull_answer(
            peer,
            open_dirs(cx.configured_dirs, cx.usual_dirs),
            paths,
        ),
        Message::PermissionsUpdate { permissions } => Step {
            status: Some(peer.name + " updated permissions"@),
            ..working(Work::UpdatePermissions { permissions }, true)
        },
        Message::Ping { timestamp } => replied(Reply::Pong { timestamp }, true),
        Message::Pong => idle(true),
        Message::StatusRequest => working(Work::ReportStatus, true),
        Message::DndStatus { mode, message } => Step {
            row: Some(RowChange::Dnd { mode, message: text_or_blank(message) }),
            ..idle(true)
        },
        Message::SpeedTestRequest { test_id, size } => working(
            Work::RunSpeedTest { test_id, size },
            true,
        ),
        Message::TrustRevoke { reason } => Step {
            row: Some(RowChange::Revoked),
            status: Some(peer.name + " removed you as a peer"@),
            ..idle(true)
        },
        Message::ExtensionRequest { requested_hours } => extension_answer(
            peer,
            cx.policy,
            requested_hours,
        ),
        Message::PromotionRequest => promotion_answer(peer, cx.policy),
        Message::IntroductionOffer { introduction_id, peer: other } => offer_answer(
            cx.posture,
            cx.known_endpoints,
            introduction_id,
            other,
        ),
        Message::IntroductionRequest { introduction_id, peer: other } => request_answer(
            cx.posture,
            cx.known_endpoints,
            introduction_id,
            other,
        ),
        Message::IntroductionComplete { peer: other } => completion_answer(
            cx.posture,
            cx.known_endpoints,
            other,
        ),
        Message::IntroductionFailed { reason } => Step {
            status: Some("Introduction failed: "@ + reason),
            ..idle(true)
        },
        Message::ChatMessage { message_id } => chat_answer(peer, cx.has_identity, message_id),
        Message::ChatDelivered { message_ids } => working(
            Work::MarkDelivered { message_ids, show: open },
            true,
        ),
        Message::ChatRead { message_ids } => working(
            Work::MarkRead { message_ids, show: open },
            true,
        ),
        Message::ChatTyping { is_typing } => if open {
            working(Work::ShowTyping { is_typing }, true)
        } else {
            idle(true)
        },
        Message::DisplayListRequest => if peer.permissions_granted.screen_view {
            replied(Reply::DisplayListResponse { backend: "unsupported"@ }, true)
        } else {
            idle(true)
        },
        Message::ScreenStreamRequest { stream_id } => stream_answer(
            peer,
            cx.screen_enabled,
            stream_id,
        ),
        Message::ScreenFrame => idle(true),
        Message::ScreenStreamStop => idle(true),
        Message::Other => idle(false),
    }
}

/// Answers the messages between peers that are about the peers themselves.
fn on_notice(peer: &TrustedPeer, msg: &Message) -> (r: Option<Step>)
    ensures
        match r {
            Some(step) => forall|cx: Context<Seq<char>, Seq<Seq<char>>>|
                step@ == #[trigger] answer(peer@, cx, msg@),
            None => !(msg@ is PermissionsUpdate || msg@ is Ping || msg@ is Pong
                || msg@ is StatusRequest || msg@ is DndStatus || msg@ is SpeedTestRequest
                || msg@ is TrustRevoke || msg@ is IntroductionFailed),
        },
{
    match msg {
        Message::PermissionsUpdate { permissions } => Some(
            Step {
                status: Some(join2(peer.name.as_str(), " updated permissions")),
                ..work_step(Work::UpdatePermissions { permissions: *permissions }, true)
            },
        ),
        Message::Ping { timestamp } => Some(
            reply_step(Reply::Pong { timestamp: *timestamp }, true),
        ),
        Message::Pong => Some(idle_step(true)),
        Message::StatusRequest => Some(work_step(Work::ReportStatus, true)),
        Message::DndStatus { mode, message } => Some(
            Step {
                row: Some(RowChange::Dnd { mode: mode.clone(), message: or_blank(message) }),
                ..idle_step(true)
            },
        ),
        Message::SpeedTestRequest { test_id, size } => Some(
            work_step(Work::RunSpeedTest { test_id: test_id.clone(), size: *size }, true),
        ),
        Message::TrustRevoke { reason } => Some(
            Step {
                row: Some(RowChange::Revoked),
                status: Some(join2(peer.name.as_str(), " removed you as a peer")),
                ..idle_step(true)
            },
        ),
        Message::IntroductionFailed { reason } => Some(
            Step {
                status: Some(join2("Introduction failed: ", reason.as_str())),
                ..idle_step(true)
            },
        ),
        _ => None,
    }
}

/// Answers the messages of a chat and those about screens.
fn on_chat_or_screen(peer: &TrustedPeer, cx: &Context, msg: &Message) -> (r: Step)
    requires
        msg@ is ChatMessage || msg@ is ChatDelivered || msg@ is ChatRead || msg@ is ChatTyping
            || msg@ is DisplayListRequest || msg@ is ScreenStreamRequest || msg@ is ScreenFrame
            || msg@ is ScreenStreamStop,
    ensures
        r@ == answer(peer@, cx@, msg@),
{
    let show: bool = is_chat_open(&cx.active_chat, peer.endpoint_id.as_str());
    match msg {
        Message::ChatMessage { message_id } => {
            if !peer.permissions_granted.chat {
                idle_step(true)
            } else if !cx.has_identity {
                idle_step(false)
            } else {
                work_step(Work::HandleChat { message_id: message_id.clone() }, false)
            }
        },
        Message::ChatDelivered { message_ids } => work_step(
            Work::MarkDelivered { message_ids: copy_texts(message_ids), show },
            true,
        ),
        Message::ChatRead { message_ids } => work_step(
            Work::MarkRead { message_ids: copy_texts(message_ids), show },
            true,
        ),
        Message::ChatTyping { is_typing } => if show {
            work_step(Work::ShowTyping { is_typing: *is_typing }, true)
        } else {
            idle_step(true)
        },
        Message::DisplayListRequest => if peer.permissions_granted.screen_view {
            reply_step(Reply::DisplayListResponse { backend: "unsupported".to_owned() }, true)
        } else {
            idle_step(true)
        },
        Message::ScreenStreamRequest { stream_id } => on_stream_request(
            peer,
            cx.screen_enabled,
            stream_id.as_str(),
        ),
        _ => idle_step(true),
    }
}

/// Answers a peer's message.
pub fn on_message(peer: &TrustedPeer, cx: &Context, msg: &Message) -> (r: Step)
    ensures
        r@ == answer(peer@, cx@, msg@),
{
    if let Some(step) = on_notice(peer, msg) {
        return step;
    }
    match msg {
        Message::PushOffer { files, total_size } => on_push_offer(
            peer,
            cx.posture,
            &cx.policy,
            files,
            *total_size,
        ),
        Message::TrustConfirm { .. } => idle_step(false),
        Message::BrowseRequest { path } => on_browse_request(
            peer,
            browsable_paths(&cx.configured_dirs, &cx.usual_dirs),
            path,
        ),
        Message::PullRequest { paths } => on_pull_request(
            peer,
            browsable_paths(&cx.configured_dirs, &cx.usual_dirs),
            paths,
        ),
        Message::ExtensionRequest { requested_hours } => on_extension_request(
            peer,
            &cx.policy,
            *requested_hours,
        ),
        Message::PromotionRequest => on_promotion_request(peer, &cx.policy),
        Message::IntroductionOffer { introduction_id, peer: other } => on_introduction_offer(
            cx.posture,
            &cx.known_endpoints,
            introduction_id.as_str(),
            other,
        ),
        Message::IntroductionRequest { introduction_id, peer: other } => on_introduction_request(
            cx.posture,
            &cx.known_endpoints,
            introduction_id.as_str(),
            other,
        ),
        Message::IntroductionComplete { peer: other } => on_introduction_complete(
            cx.posture,
            &cx.known_endpoints,
            other,
        ),
        Message::Other => idle_step(false),
        _ => on_chat_or_screen(peer, cx, msg),
    }
}

// ---------------------------------------------------------------------------
// Reports on this device

/// The name of this device: that of the first of two variables that is set.
pub open spec fn host_name(hostname: Option<Seq<char>>, computername: Option<Seq<char>>) -> Seq<
    char,
> {
    match (hostname, computername) {
        (Some(h), _) => h,
        (None, Some(c)) => c,
        (None, None) => "unknown"@,
    }
}

/// The name of this device.
pub fn pick_host_name(hostname: Option<String>, computername: Option<String>) -> (r: String)
    ensures
        r@ == host_name(opt_text(hostname), opt_text(computername)),
{
    match hostname {
        Some(h) => h,
        None => match computername {
            Some(c) => c,
            None => "unknown".to_owned(),
        },
    }
}

/// How the connection to the relay shows: its state and its address.
pub open spec fn relay_state(url: Option<Seq<char>>) -> (Seq<char>, Seq<char>) {
    match url {
        Some(u) => ("connected"@, u),
        None => ("disconnected"@, blank()),
    }
}

/// What is shown of the relay, once its state is another than the one shown before.
pub fn relay_update(last: &mut String, url: Option<String>) -> (r: Option<(String, String)>)
    ensures
        final(last)@ == relay_state(opt_text(url)).0,
        r is Some <==> old(last)@ != relay_state(opt_text(url)).0,
        r matches Some(shown) ==> (shown.0@, shown.1@) == relay_state(opt_text(url)),
{
    let (state, shown_url) = match url {
        Some(u) => ("connected".to_owned(), u),
        None => ("disconnected".to_owned(), String::new()),
    };
    if same_text(state.as_str(), last.as_str()) {
        None
    } else {
        *last = state.clone();
        Some((state, shown_url))
    }
}

// ---------------------------------------------------------------------------
// Laws

/// Nothing is begun for a peer without the permission for it: no files are taken or handed out, no
/// directory is listed, no chat is stored and no screen is shown.
pub proof fn work_needs_permission(
    peer: TrustedPeer<Seq<char>, Moment>,
    cx: Context<Seq<char>, Seq<Seq<char>>>,
    msg: Message<Seq<char>, Seq<Seq<char>>>,
)
    ensures
        answer(peer, cx, msg).work is ReceivePush ==> peer.permissions_granted.push
            && accepts_unasked(cx.posture) && (peer.is_guest
            ==> cx.policy.auto_accept_guest_pushes),
        answer(peer, cx, msg).work is ServePull ==> peer.permissions_granted.pull,
        answer(peer, cx, msg).work is ServeBrowse ==> peer.permissions_granted.browse,
        answer(peer, cx, msg).work is HandleChat ==> peer.permissions_granted.chat,
        answer(peer, cx, msg).work is StreamScreen ==> peer.permissions_granted.screen_view
            && cx.screen_enabled,
{
}

/// A refused request is told so: an offer of files, a request for files, a directory or the screen
/// that lacks the permission is answered, and the answer grants nothing.
pub proof fn refusals_are_answered(
    peer: TrustedPeer<Seq<char>, Moment>,
    cx: Context<Seq<char>, Seq<Seq<char>>>,
    msg: Message<Seq<char>, Seq<Seq<char>>>,
)
    ensures
        msg is PushOffer && !peer.permissions_granted.push ==> answer(peer, cx, msg).reply == Some(
            Reply::<Seq<char>, Seq<Seq<char>>>::PushResponse {
                transfer_id: blank(),
                accepted: false,
                reason: Some("push not allowed"@),
            },
        ),
        msg is PullRequest && !peer.permissions_granted.pull ==> answer(peer, cx, msg).reply
            == Some(
            Reply::<Seq<char>, Seq<Seq<char>>>::PullResponse {
                transfer_id: blank(),
                granted: false,
                reason: Some("pull not allowed"@),
            },
        ),
        msg matches Message::BrowseRequest { path } ==> !peer.permissions_granted.browse ==> (
        answer(peer, cx, msg).reply matches Some(
            Reply::BrowseResponse { path: p, error: Some(e) },
        ) && e == "browse not allowed"@ && (path matches Some(asked) ==> p == asked)),
        msg matches Message::ScreenStreamRequest { stream_id } ==> !peer.permissions_granted.screen_view
            ==> (answer(peer, cx, msg).reply matches Some(
            Reply::ScreenStreamResponse { stream_id: id, accepted: false, reason: Some(_) },
        ) && id == stream_id),
        answer(peer, cx, msg).reply is Some ==> answer(peer, cx, msg).work is Nothing,
{
}

/// Peers reach only what is open to them, whether they browse or pull: the directories of the
/// settings where the settings name any.
pub proof fn settings_limit_directories(
    peer: TrustedPeer<Seq<char>, Moment>,
    cx: Context<Seq<char>, Seq<Seq<char>>>,
    msg: Message<Seq<char>, Seq<Seq<char>>>,
)
    ensures
        answer(peer, cx, msg).work matches Work::ServePull { paths, allowed } ==> allowed
            == open_dirs(cx.configured_dirs, cx.usual_dirs),
        answer(peer, cx, msg).work matches Work::ServeBrowse { path, allowed } ==> allowed
            == open_dirs(cx.configured_dirs, cx.usual_dirs),
        cx.configured_dirs.len() > 0 ==> open_dirs(cx.configured_dirs, cx.usual_dirs)
            == cx.configured_dirs,
{
}

/// The postures differ as they promise: a relaxed or balanced device takes the files and the
/// introductions of its trusted peers unasked, and a cautious one takes neither, from anyone: it
/// adds no peer that was introduced to it.
pub proof fn postures_keep_their_promises(
    peer: TrustedPeer<Seq<char>, Moment>,
    cx: Context<Seq<char>, Seq<Seq<char>>>,
    msg: Message<Seq<char>, Seq<Seq<char>>>,
)
    ensures
        msg is PushOffer && cx.posture is Cautious ==> answer(peer, cx, msg).work is Nothing && (
        answer(peer, cx, msg).reply matches Some(Reply::PushResponse { accepted: false, .. })),
        msg is PushOffer && !(cx.posture is Cautious) && !peer.is_guest
            && peer.permissions_granted.push ==> answer(peer, cx, msg).work is ReceivePush,
        answer(peer, cx, msg).work is AddIntroduced <==> msg is IntroductionComplete && !(
        cx.posture is Cautious),
        msg matches Message::IntroductionOffer { introduction_id, peer: other } ==> (answer(
            peer,
            cx,
            msg,
        ).reply matches Some(Reply::IntroductionOfferResponse { introduction_id: id, accepted, reason })
            && id == introduction_id && accepted == (!(cx.posture is Cautious)
            && !cx.known_endpoints.contains(other.endpoint_id)) && accepted == (reason is None)),
        msg matches Message::IntroductionRequest { introduction_id, peer: other } ==> (answer(
            peer,
            cx,
            msg,
        ).reply matches Some(
            Reply::IntroductionRequestResponse { introduction_id: id, accepted, reason },
        ) && id == introduction_id && accepted == (!(cx.posture is Cautious)
            && !cx.known_endpoints.contains(other.endpoint_id)) && accepted == (reason is None)),
{
}

/// The connection of a peer that the user has paused is not served, and every other one is.
pub proof fn paused_peers_are_not_served(
    peer: TrustedPeer<Seq<char>, Moment>,
    disconnected: Set<Seq<char>>,
)
    ensures
        admitted(Some(peer.id), disconnected) == !disconnected.contains(peer.id),
        !admitted(Some(peer.id), disconnected.insert(peer.id)),
        admitted(Some(peer.id), disconnected.remove(peer.id)),
        admitted(None, disconnected),
{
}

/// A stranger becomes a peer only by a confirmation that holds the nonce of the bundle on its way,
/// and under the terms of that bundle.
pub proof fn strangers_need_the_nonce(
    pending: Option<PendingTrust<Seq<char>>>,
    msg: Message<Seq<char>, Seq<Seq<char>>>,
)
    ensures
        stranger_answer(pending, msg).work matches Work::CompleteHandshake { peer: new } ==> (
        pending matches Some(bundle) && (msg matches Message::TrustConfirm {
            peer,
            nonce,
            permissions,
        } && nonce == bundle.nonce && new.info == peer && new.their_permissions == permissions
            && new.granted == granted_to(bundle) && new.guest_hours == guest_hours(bundle)
            && (new.guest_hours is Some <==> new.granted is Guest))),
        !(stranger_answer(pending, msg).work is CompleteHandshake) ==> stranger_answer(
            pending,
            msg,
        ).work is Nothing && pending_after(pending, msg) == pending,
        stranger_answer(pending, msg).close,
{
}

/// A bundle serves once: after a confirmation the same confirmation is turned away.
pub proof fn bundles_serve_once(
    pending: Option<PendingTrust<Seq<char>>>,
    msg: Message<Seq<char>, Seq<Seq<char>>>,
)
    requires
        stranger_answer(pending, msg).work is CompleteHandshake,
    ensures
        pending_after(pending, msg) is None,
        stranger_answer(pending_after(pending, msg), msg) == idle(true),
{
}

/// A wrong nonce costs the bundle nothing: the right confirmation is still accepted afterwards.
pub proof fn wrong_nonces_change_nothing(
    bundle: PendingTrust<Seq<char>>,
    wrong: Message<Seq<char>, Seq<Seq<char>>>,
    right: Message<Seq<char>, Seq<Seq<char>>>,
)
    requires
        wrong matches Message::TrustConfirm { peer, nonce, permissions } && nonce != bundle.nonce,
        right matches Message::TrustConfirm { peer, nonce, permissions } && nonce == bundle.nonce,
    ensures
        stranger_answer(Some(bundle), wrong).reply == Some(
            Reply::<Seq<char>, Seq<Seq<char>>>::TrustRevoke { reason: "invalid nonce"@ },
        ),
        stranger_answer(pending_after(Some(bundle), wrong), right).work is CompleteHandshake,
{
}

/// More time is granted to guests only, as often as the policy allows, and never beyond its limit.
pub proof fn extensions_stay_within_policy(
    peer: TrustedPeer<Seq<char>, Moment>,
    cx: Context<Seq<char>, Seq<Seq<char>>>,
    msg: Message<Seq<char>, Seq<Seq<char>>>,
)
    ensures
        answer(peer, cx, msg).work matches Work::ExtendGuest { hours } ==> (msg matches
            Message::ExtensionRequest { requested_hours } && hours <= requested_hours && hours
            <= cx.policy.max_duration_hours && peer.is_guest && cx.policy.allow_extensions
            && peer.extension_count < cx.policy.max_extensions),
        answer(peer, cx, msg).work is SetPromotionPending ==> peer.is_guest
            && cx.policy.allow_promotion_requests,
{
}

/// A peer with the permission gets all that it asks for, and is not refused besides: files are
/// handed out and taken in whole lists, whatever their number, the directory that it names is listed,
/// its message is stored and its stream is begun.
pub proof fn permitted_requests_are_served(peer: TrustedPeer, cx: Context, msg: Message, r: Step)
    requires
        r@ == answer(peer@, cx@, msg@),
    ensures
        msg matches Message::PullRequest { paths } ==> peer.permissions_granted.pull ==> r.reply
            is None && !r.close && (r.work matches Work::ServePull { paths: served, allowed }
            && texts(served@) == texts(paths@)) && (r.status matches Some(line) && line@
            == "Sending files to "@ + peer.name@ + " (pull)..."@),
        msg matches Message::BrowseRequest { path } ==> peer.permissions_granted.browse ==> r.reply
            is None && (r.work matches Work::ServeBrowse { path: listed, allowed } && opt_text(
            listed,
        ) == opt_text(path)),
        msg matches Message::PushOffer { files, total_size } ==> peer.permissions_granted.push
            && cx.posture != Posture::Cautious && (peer.is_guest
            ==> cx.policy.auto_accept_guest_pushes) ==> r.reply is None && !r.close && (
        r.work matches Work::ReceivePush { files: taken, total_size: size } && texts(taken@)
            == texts(files@) && size == total_size) && (r.status matches Some(line) && line@
            == "Receiving files from "@ + peer.name@ + "..."@),
        msg matches Message::ChatMessage { message_id } ==> peer.permissions_granted.chat
            && cx.has_identity ==> r.reply is None && !r.close && (r.work matches Work::HandleChat {
            message_id: stored,
        } && stored@ == message_id@),
        msg matches Message::ScreenStreamRequest { stream_id } ==> cx.screen_enabled
            && peer.permissions_granted.screen_view ==> r.reply is None && !r.close && (
        r.work matches Work::StreamScreen { stream_id: begun } && begun@ == stream_id@),
        msg is DisplayListRequest && peer.permissions_granted.screen_view ==> (r.reply matches Some(
            Reply::DisplayListResponse { backend },
        ) && backend@ == "unsupported"@),
{
}

/// Each request that is refused is refused for its own reason, and the user is told of it where a
/// posture or a policy, and not a permission, stood against it.
pub proof fn refusals_name_their_reason(peer: TrustedPeer, cx: Context, msg: Message, r: Step)
    requires
        r@ == answer(peer@, cx@, msg@),
    ensures
        msg is PushOffer && peer.permissions_granted.push && peer.is_guest && (cx.posture
            == Posture::Cautious || !cx.policy.auto_accept_guest_pushes) ==> (r.reply matches Some(
            Reply::PushResponse { transfer_id, accepted: false, reason: Some(why) },
        ) && why@ == "guest pushes require approval (disabled in security settings)"@) && (
        r.status matches Some(line) && line@ == "Rejected push from guest "@ + peer.name@
            + " (requires approval)"@),
        msg is PushOffer && peer.permissions_granted.push && !peer.is_guest && cx.posture
            == Posture::Cautious ==> (r.reply matches Some(
            Reply::PushResponse { transfer_id, accepted: false, reason: Some(why) },
        ) && why@ == "pushes require approval (disabled in security settings)"@) && (
        r.status matches Some(line) && line@ == "Rejected push from "@ + peer.name@
            + " (requires approval)"@),
        msg is ScreenStreamRequest && !cx.screen_enabled ==> (r.reply matches Some(
            Reply::ScreenStreamResponse { stream_id, accepted: false, reason: Some(why) },
        ) && why@ == "Screen streaming is disabled on this device"@),
        msg is ScreenStreamRequest && cx.screen_enabled && !peer.permissions_granted.screen_view
            ==> (r.reply matches Some(
            Reply::ScreenStreamResponse { stream_id, accepted: false, reason: Some(why) },
        ) && why@ == "screen_view permission not granted"@),
        msg matches Message::BrowseRequest { path } ==> path is None
            && !peer.permissions_granted.browse ==> (r.reply matches Some(
            Reply::BrowseResponse { path: shown, error: Some(_) },
        ) && shown@ == "/"@),
        msg is ChatMessage && !peer.permissions_granted.chat ==> r.reply is None && r.work is Nothing
            && r.close,
        msg is ChatMessage && peer.permissions_granted.chat && !cx.has_identity ==> r.reply is None
            && r.work is Nothing && !r.close,
        msg is DisplayListRequest && !peer.permissions_granted.screen_view ==> r.reply is None
            && r.close,
{
}

/// A peer that browses or pulls is held to the directories of the settings, and where the settings
/// name none, to the usual ones.
pub proof fn open_directories_are_the_configured_or_the_usual(
    peer: TrustedPeer,
    cx: Context,
    msg: Message,
    r: Step,
)
    requires
        r@ == answer(peer@, cx@, msg@),
    ensures
        r.work matches Work::ServePull { paths, allowed } ==> (cx.configured_dirs@.len() > 0
            ==> texts(allowed@) == texts(cx.configured_dirs@)) && (cx.configured_dirs@.len() == 0
            ==> texts(allowed@) == texts(cx.usual_dirs@)),
        r.work matches Work::ServeBrowse { path, allowed } ==> (cx.configured_dirs@.len() > 0
            ==> texts(allowed@) == texts(cx.configured_dirs@)) && (cx.configured_dirs@.len() == 0
            ==> texts(allowed@) == texts(cx.usual_dirs@)),
{
}

/// A confirmation with the nonce of the bundle on its way makes its sender a peer, with all that it
/// has told of itself: for good and with all permissions, or as a guest for just the hours that the
/// bundle names, a day where it names none. The bundle is used up by that.
pub proof fn confirmations_make_peers(
    bundle: PendingTrust,
    after: Option<PendingTrust>,
    msg: Message,
    r: Step,
)
    requires
        r@ == stranger_answer(Some(bundle@), msg@),
        pending_view(after) == pending_after(Some(bundle@), msg@),
        msg matches Message::TrustConfirm { peer, nonce, permissions } && nonce@ == bundle.nonce@,
    ensures
        r.reply == Some(Reply::<String, Vec<String>>::TrustComplete),
        after is None,
        r.work matches Work::CompleteHandshake { peer: new } && (msg matches Message::TrustConfirm {
            peer,
            nonce,
            permissions,
        } && new.info.endpoint_id@ == peer.endpoint_id@ && new.info.name@ == peer.name@ && opt_text(
            new.info.relay_url,
        ) == opt_text(peer.relay_url) && new.their_permissions == permissions),
        r.work matches Work::CompleteHandshake { peer: new } && (!bundle.guest_mode ==> new.granted
            == Grant::All && new.guest_hours is None) && (bundle.guest_mode ==> new.granted
            == Grant::Guest && (bundle.guest_duration_hours is None ==> new.guest_hours == Some(
            24u32,
        )) && (bundle.guest_duration_hours is Some ==> new.guest_hours
            == bundle.guest_duration_hours)),
{
}

/// A stranger without the nonce, or with nothing to confirm, gets nowhere, and the bundle on its way
/// stays as it is.
pub proof fn strangers_without_the_nonce_get_nowhere(
    pending: Option<PendingTrust>,
    after: Option<PendingTrust>,
    msg: Message,
    r: Step,
)
    requires
        r@ == stranger_answer(pending_view(pending), msg@),
        pending_view(after) == pending_after(pending_view(pending), msg@),
        !(pending matches Some(bundle) && (msg matches Message::TrustConfirm {
            peer,
            nonce,
            permissions,
        } && nonce@ == bundle.nonce@)),
    ensures
        r.work is Nothing,
        r.close,
        pending is None <==> after is None,
        pending matches Some(b) ==> (after matches Some(a) && a.nonce@ == b.nonce@ && a.guest_mode
            == b.guest_mode && a.guest_duration_hours == b.guest_duration_hours),
        pending is None || !(msg is TrustConfirm) ==> r.reply is None,
        pending is Some && msg is TrustConfirm ==> (r.reply matches Some(
            Reply::TrustRevoke { reason },
        ) && reason@ == "invalid nonce"@),
{
}

/// A guest that may be extended gets just the hours that it asks for, up to the policy's limit; one
/// that may not is told why, and a peer that is no guest too.
pub proof fn guests_get_the_hours_they_ask_for(
    peer: TrustedPeer,
    cx: Context,
    msg: Message,
    r: Step,
)
    requires
        r@ == answer(peer@, cx@, msg@),
    ensures
        msg matches Message::ExtensionRequest { requested_hours } ==> peer.is_guest
            && cx.policy.allow_extensions && peer.extension_count < cx.policy.max_extensions
            ==> r.reply is None && !r.close && (r.work matches Work::ExtendGuest { hours } && (
        requested_hours <= cx.policy.max_duration_hours ==> hours == requested_hours) && (
        requested_hours > cx.policy.max_duration_hours ==> hours == cx.policy.max_duration_hours)),
        msg is ExtensionRequest && !peer.is_guest ==> (r.reply matches Some(
            Reply::ExtensionResponse { approved: false, new_expires_at: None, reason: Some(why) },
        ) && why@ == "Not a guest peer"@),
        msg is ExtensionRequest && peer.is_guest && peer.extension_count >= cx.policy.max_extensions
            ==> (r.reply matches Some(
            Reply::ExtensionResponse { approved: false, new_expires_at: None, reason: Some(why) },
        ) && why@ == "Maximum extensions reached"@),
        msg is ExtensionRequest && peer.is_guest && peer.extension_count < cx.policy.max_extensions
            && !cx.policy.allow_extensions ==> (r.reply matches Some(
            Reply::ExtensionResponse { approved: false, new_expires_at: None, reason: Some(why) },
        ) && why@ == "Extensions not allowed"@),
        msg is PromotionRequest && peer.is_guest && cx.policy.allow_promotion_requests ==> r.reply
            is None && r.work is SetPromotionPending && (r.row matches Some(change) && change
            is PromotionPending) && (r.status matches Some(line) && line@ == peer.name@
            + " requested trusted status"@),
        msg is PromotionRequest && !peer.is_guest ==> r.row is None && (r.reply matches Some(
            Reply::PromotionResponse { approved: false, reason: Some(why) },
        ) && why@ == "Already a trusted peer"@),
        msg is PromotionRequest && peer.is_guest && !cx.policy.allow_promotion_requests ==> r.row
            is None && (r.reply matches Some(
            Reply::PromotionResponse { approved: false, reason: Some(why) },
        ) && why@ == "Promotion requests not allowed"@),
{
}

/// An extension that was made is confirmed with the very second at which it ends, and shows in the
/// guest's row; one that was not made is refused and shows nowhere.
pub proof fn extensions_are_confirmed(name: &str, outcome: ExtensionOutcome, now: UtcTime, r: Step)
    requires
        r@ == extension_end(name@, outcome@, now@),
    ensures
        r.work is Nothing && r.close,
        outcome matches ExtensionOutcome::Until { expiry } ==> i64::MIN <= expiry@.secs <= i64::MAX
            ==> (r.reply matches Some(
            Reply::ExtensionResponse { approved: true, new_expires_at: Some(until), reason: None },
        ) && until == expiry@.secs) && (r.row matches Some(
            RowChange::Extended { expires_at, time_remaining },
        ) && expires_at@ == minute_text(expiry@) && time_remaining@ == access_left(expiry@, now@))
            && (r.status matches Some(line) && line@ == "Extended "@ + name@ + " access"@),
        !(outcome is Until) ==> r.row is None && r.status is None && (r.reply matches Some(
            Reply::ExtensionResponse { approved: false, new_expires_at: None, reason: Some(_) },
        )),
        outcome is NotGuest ==> (r.reply matches Some(
            Reply::ExtensionResponse { approved, new_expires_at, reason: Some(why) },
        ) && why@ == "Not a guest peer"@),
        outcome matches ExtensionOutcome::Failed { error } ==> (r.reply matches Some(
            Reply::ExtensionResponse { approved, new_expires_at, reason: Some(why) },
        ) && why@ == "Internal error: "@ + error@),
{
}

/// Word from a peer about itself is taken over as it was given: pings come back with their own
/// timestamp, permissions, moods and tests are those of the message, and the user is told who it was.
pub proof fn notices_are_taken_over(peer: TrustedPeer, cx: Context, msg: Message, r: Step)
    requires
        r@ == answer(peer@, cx@, msg@),
    ensures
        msg matches Message::Ping { timestamp } ==> r.reply == Some(
            Reply::<String, Vec<String>>::Pong { timestamp },
        ) && r.work is Nothing && r.close,
        msg matches Message::PermissionsUpdate { permissions } ==> r.reply is None && (r.work matches
            Work::UpdatePermissions { permissions: new } && new == permissions) && (
        r.status matches Some(line) && line@ == peer.name@ + " updated permissions"@) && r.close,
        msg is StatusRequest ==> r.reply is None && r.work is ReportStatus && r.close,
        msg matches Message::DndStatus { mode, message } ==> r.reply is None && r.work is Nothing && (
        r.row matches Some(RowChange::Dnd { mode: m, message: told }) && m@ == mode@ && (
        message matches Some(t) ==> told@ == t@) && (message is None ==> told@.len() == 0)),
        msg matches Message::SpeedTestRequest { test_id, size } ==> r.reply is None && (
        r.work matches Work::RunSpeedTest { test_id: id, size: n } && id@ == test_id@ && n == size),
        msg is TrustRevoke ==> r.reply is None && r.work is Nothing && (r.row matches Some(change)
            && change is Revoked) && (r.status matches Some(line) && line@ == peer.name@
            + " removed you as a peer"@),
        msg matches Message::IntroductionFailed { reason } ==> r.reply is None && r.work is Nothing
            && (r.status matches Some(line) && line@ == "Introduction failed: "@ + reason@),
        msg is Pong || msg is ScreenFrame || msg is ScreenStreamStop ==> r.reply is None && r.work
            is Nothing && r.row is None && r.status is None && r.close,
        msg is Other || msg is TrustConfirm ==> r.reply is None && r.work is Nothing && r.row is None
            && r.status is None && !r.close,
{
}

/// What a peer says in a chat, or about it, goes to the messages that it names, and shows where that
/// peer's own chat is the one that is open, and nowhere else.
pub proof fn chat_notices_reach_their_chat(peer: TrustedPeer, cx: Context, msg: Message, r: Step)
    requires
        r@ == answer(peer@, cx@, msg@),
    ensures
        msg matches Message::ChatDelivered { message_ids } ==> r.reply is None && (r.work matches
            Work::MarkDelivered { message_ids: ids, show } && texts(ids@) == texts(message_ids@)
            && show == (cx.active_chat matches Some(e) && e@ == peer.endpoint_id@)),
        msg matches Message::ChatRead { message_ids } ==> r.reply is None && (r.work matches
            Work::MarkRead { message_ids: ids, show } && texts(ids@) == texts(message_ids@) && show
            == (cx.active_chat matches Some(e) && e@ == peer.endpoint_id@)),
        msg matches Message::ChatTyping { is_typing } ==> r.reply is None && (if (cx.active_chat
            matches Some(e) && e@ == peer.endpoint_id@) {
            r.work matches Work::ShowTyping { is_typing: shown } && shown == is_typing
        } else {
            r.work is Nothing
        }),
{
}

/// A chat message that was stored is acknowledged by its own identifier, and counts as unread unless
/// its chat is open; one that was not stored is passed over in silence.
pub proof fn stored_messages_are_acknowledged(
    stored: bool,
    message_id: &str,
    active: Option<String>,
    endpoint_id: &str,
    r: (Step, ChatDisplay),
)
    requires
        r.0@ == chat_end(stored, message_id@),
        r.1 == chat_display(stored, chat_open(opt_text(active), endpoint_id@)),
    ensures
        stored ==> (r.0.reply matches Some(Reply::ChatDelivered { message_ids }) && texts(
            message_ids@,
        ) == seq![message_id@]),
        !stored ==> r.0.reply is None && r.1 is Unchanged,
        stored && (active matches Some(a) && a@ == endpoint_id@) ==> r.1 is Reload,
        stored && !(active matches Some(a) && a@ == endpoint_id@) ==> r.1 is Unread,
        r.0.work is Nothing && r.0.close,
{
}

/// Who is introduced to us becomes a peer as it was told, with all permissions on both sides, and an
/// introduction that is declined says why: the peer is known already, or the posture stands against
/// it.
pub proof fn introductions_are_answered_in_kind(
    peer: TrustedPeer,
    cx: Context,
    msg: Message,
    r: Step,
)
    requires
        r@ == answer(peer@, cx@, msg@),
    ensures
        msg matches Message::IntroductionComplete { peer: other } ==> cx.posture
            != Posture::Cautious ==> r.reply is None && (r.work matches Work::AddIntroduced {
            peer: new,
            granted,
            theirs,
        } && new.endpoint_id@ == other.endpoint_id@ && new.name@ == other.name@ && opt_text(
            new.relay_url,
        ) == opt_text(other.relay_url) && granted == Grant::All && theirs == Grant::All),
        msg matches Message::IntroductionOffer { introduction_id, peer: other } ==> (r.reply matches
            Some(Reply::IntroductionOfferResponse { introduction_id: id, accepted, reason }) && id@
            == introduction_id@ && (texts(cx.known_endpoints@).contains(other.endpoint_id@) ==> (
        reason matches Some(why) && why@ == "Already connected to this peer"@) && r.status is None)
            && (!texts(cx.known_endpoints@).contains(other.endpoint_id@) && cx.posture
            == Posture::Cautious ==> (reason matches Some(why) && why@
            == "introductions require approval (disabled in security settings)"@)) && (accepted
            ==> (r.status matches Some(line) && line@ == "Accepted introduction to "@
            + other.name@))),
        msg matches Message::IntroductionRequest { introduction_id, peer: other } ==> (
        r.reply matches Some(
            Reply::IntroductionRequestResponse { introduction_id: id, accepted, reason },
        ) && id@ == introduction_id@ && (texts(cx.known_endpoints@).contains(other.endpoint_id@)
            ==> (reason matches Some(why) && why@ == "Already connected to this peer"@) && r.status
            is None) && (!texts(cx.known_endpoints@).contains(other.endpoint_id@) && cx.posture
            == Posture::Cautious ==> (reason matches Some(why) && why@
            == "introductions require approval (disabled in security settings)"@)) && (accepted
            ==> (r.status matches Some(line) && line@ == "Accepted introduction to "@
            + other.name@))),
{
}

/// Each posture is named by its own word and by no other.
pub proof fn postures_are_named(s: Seq<char>)
    ensures
        posture_named(s) == Some(Posture::Relaxed) <==> s == "relaxed"@,
        posture_named(s) == Some(Posture::Balanced) <==> s == "balanced"@,
        posture_named(s) == Some(Posture::Cautious) <==> s == "cautious"@,
{
    reveal_strlit("relaxed");
    reveal_strlit("balanced");
    reveal_strlit("cautious");
    assert("relaxed"@[0] == 'r' && "balanced"@[0] == 'b' && "cautious"@[0] == 'c');
}

/// A device goes by the first of its names that is set, and the relay shows with its address while
/// it is connected.
pub proof fn devices_and_relays_show(
    hostname: Option<Seq<char>>,
    computername: Option<Seq<char>>,
    url: Option<Seq<char>>,
)
    ensures
        hostname matches Some(h) ==> host_name(hostname, computername) == h,
        hostname is None ==> (computername matches Some(c) ==> host_name(hostname, computername)
            == c),
        hostname is None && computername is None ==> host_name(hostname, computername)
            == "unknown"@,
        url matches Some(u) ==> relay_state(url) == ("connected"@, u),
        url is None ==> relay_state(url).0 == "disconnected"@ && relay_state(url).1.len() == 0,
{
}

/// Work is begun just for what calls for it and may be had.
pub proof fn work_is_begun_where_it_belongs(
    peer: TrustedPeer<Seq<char>, Moment>,
    cx: Context<Seq<char>, Seq<Seq<char>>>,
    msg: Message<Seq<char>, Seq<Seq<char>>>,
)
    ensures
        answer(peer, cx, msg).work is Nothing <==> !({
            ||| msg is PushOffer && peer.permissions_granted.push && cx.posture != Posture::Cautious
                && (peer.is_guest ==> cx.policy.auto_accept_guest_pushes)
            ||| msg is BrowseRequest && peer.permissions_granted.browse
            ||| msg is PullRequest && peer.permissions_granted.pull
            ||| msg is PermissionsUpdate || msg is StatusRequest || msg is SpeedTestRequest
            ||| msg is ExtensionRequest && peer.is_guest && cx.policy.allow_extensions
                && peer.extension_count < cx.policy.max_extensions
            ||| msg is PromotionRequest && peer.is_guest && cx.policy.allow_promotion_requests
            ||| msg is IntroductionComplete && cx.posture != Posture::Cautious
            ||| msg is ChatMessage && peer.permissions_granted.chat && cx.has_identity
            ||| msg is ChatDelivered || msg is ChatRead
            ||| msg is ChatTyping && cx.active_chat == Some(peer.endpoint_id)
            ||| msg is ScreenStreamRequest && cx.screen_enabled
                && peer.permissions_granted.screen_view
        }),
{
}

/// A reply is sent just for what asks for one and is not worked on, and the connection stays open just
/// where more is to come on it.
pub proof fn replies_are_sent_where_they_belong(
    peer: TrustedPeer<Seq<char>, Moment>,
    cx: Context<Seq<char>, Seq<Seq<char>>>,
    msg: Message<Seq<char>, Seq<Seq<char>>>,
)
    ensures
        answer(peer, cx, msg).reply is Some <==> ({
            ||| msg is PushOffer && !(peer.permissions_granted.push && cx.posture
                != Posture::Cautious && (peer.is_guest ==> cx.policy.auto_accept_guest_pushes))
            ||| msg is BrowseRequest && !peer.permissions_granted.browse
            ||| msg is PullRequest && !peer.permissions_granted.pull
            ||| msg is Ping || msg is IntroductionOffer || msg is IntroductionRequest
            ||| msg is ExtensionRequest && !(peer.is_guest && cx.policy.allow_extensions
                && peer.extension_count < cx.policy.max_extensions)
            ||| msg is PromotionRequest && !(peer.is_guest && cx.policy.allow_promotion_requests)
            ||| msg is DisplayListRequest && peer.permissions_granted.screen_view
            ||| msg is ScreenStreamRequest && !(cx.screen_enabled
                && peer.permissions_granted.screen_view)
        }),
        answer(peer, cx, msg).close <==> !({
            ||| msg is PushOffer || msg is PullRequest || msg is TrustConfirm || msg is Other
            ||| msg is BrowseRequest && !peer.permissions_granted.browse
            ||| msg is ExtensionRequest && peer.is_guest && cx.policy.allow_extensions
                && peer.extension_count < cx.policy.max_extensions
            ||| msg is ChatMessage && peer.permissions_granted.chat
            ||| msg is ScreenStreamRequest && cx.screen_enabled
                && peer.permissions_granted.screen_view
        }),
{
}

/// A row changes, and the user is told, just where something has happened: nothing is said of a peer
/// that is introduced and known already.
pub proof fn the_user_is_told_where_something_happens(
    peer: TrustedPeer<Seq<char>, Moment>,
    cx: Context<Seq<char>, Seq<Seq<char>>>,
    msg: Message<Seq<char>, Seq<Seq<char>>>,
)
    ensures
        answer(peer, cx, msg).row is Some <==> msg is DndStatus || msg is TrustRevoke || (msg
            is PromotionRequest && peer.is_guest && cx.policy.allow_promotion_requests),
        answer(peer, cx, msg).status is Some <==> ({
            ||| msg is PushOffer && peer.permissions_granted.push
            ||| msg is PullRequest && peer.permissions_granted.pull
            ||| msg is PermissionsUpdate || msg is TrustRevoke || msg is IntroductionFailed
            ||| msg is PromotionRequest && peer.is_guest && cx.policy.allow_promotion_requests
            ||| (msg matches Message::IntroductionOffer { introduction_id, peer: other }
                && !cx.known_endpoints.contains(other.endpoint_id))
            ||| (msg matches Message::IntroductionRequest { introduction_id, peer: other }
                && !cx.known_endpoints.contains(other.endpoint_id))
            ||| (msg matches Message::IntroductionComplete { peer: other } && cx.posture
                == Posture::Cautious && !cx.known_endpoints.contains(other.endpoint_id))
        }),
{
}

/// An introduction that the posture stands against is declined by name, whether it was offered,
/// asked for or complete already. An introduced peer is told of once it has been added, unless it
/// was known before.
pub proof fn declined_introductions_are_told(
    peer: TrustedPeer,
    cx: Context,
    msg: Message,
    r: Step,
    other: PeerInfo,
)
    requires
        r@ == answer(peer@, cx@, msg@),
        cx.posture == Posture::Cautious,
        !texts(cx.known_endpoints@).contains(other.endpoint_id@),
        msg matches Message::IntroductionOffer { introduction_id, peer: p } ==> p@ == other@,
        msg matches Message::IntroductionRequest { introduction_id, peer: p } ==> p@ == other@,
        msg matches Message::IntroductionComplete { peer: p } ==> p@ == other@,
    ensures
        msg is IntroductionOffer || msg is IntroductionRequest || msg is IntroductionComplete ==> (
        r.status matches Some(line) && line@ == "Declined introduction to "@ + other.name@
            + " (requires approval)"@),
        introduced_line(texts(cx.known_endpoints@), other@) == Some(
            "Connected to "@ + other.name@ + " via introduction"@,
        ),
        introduced_line(texts(cx.known_endpoints@).push(other.endpoint_id@), other@) is None,
{
    let known = texts(cx.known_endpoints@);
    assert(known.push(other.endpoint_id@)[known.len() as int] == other.endpoint_id@);
}

} // verus!
