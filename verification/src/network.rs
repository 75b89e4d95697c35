//! Networks of peers, and the introduction of one peer to another, which both have to accept.

use vstd::prelude::*;

use crate::files::opt_peer;
use crate::peers::{peer_views, PeerInfo, TrustedPeer};
use crate::text::{join2, join3, opt_text, or_blank, same_text, text_or_blank, texts};
use crate::time::{date_text, format_date, Moment, UtcTime};

verus! {

// ---------------------------------------------------------------------------
// Networks

/// A network of peers.
#[derive(Debug, PartialEq, Eq)]
pub struct Network<T = String, M = UtcTime, L = Vec<String>> {
    pub id: T,
    pub name: T,
    pub description: Option<T>,
    pub member_count: usize,
    pub is_owner: bool,
    pub can_introduce: bool,
    pub auto_accept_introductions: bool,
    pub share_member_list: bool,
    pub created_at: M,
    /// The identifiers of the members.
    pub members: L,
}

impl View for Network<String, UtcTime, Vec<String>> {
    type V = Network<Seq<char>, Moment, Seq<Seq<char>>>;

    open spec fn view(&self) -> Network<Seq<char>, Moment, Seq<Seq<char>>> {
        Network {
            id: self.id@,
            name: self.name@,
            description: opt_text(self.description),
            member_count: self.member_count,
            is_owner: self.is_owner,
            can_introduce: self.can_introduce,
            auto_accept_introductions: self.auto_accept_introductions,
            share_member_list: self.share_member_list,
            created_at: self.created_at@,
            members: texts(self.members@),
        }
    }
}

/// A member of a network, by identifier and name.
#[derive(Debug, PartialEq, Eq)]
pub struct Member<T = String> {
    pub peer_id: T,
    pub name: T,
}

impl View for Member<String> {
    type V = Member<Seq<char>>;

    open spec fn view(&self) -> Member<Seq<char>> {
        Member { peer_id: self.peer_id@, name: self.name@ }
    }
}

/// The views of a list of members.
pub open spec fn member_views(v: Seq<Member>) -> Seq<Member<Seq<char>>> {
    v.map_values(|m: Member| m@)
}

/// A row of the list of networks.
#[derive(Debug, PartialEq, Eq)]
pub struct NetworkData<T = String, L = Vec<Member>> {
    pub id: T,
    pub name: T,
    pub description: T,
    pub member_count: i32,
    pub is_owner: bool,
    pub allow_introductions: bool,
    pub auto_accept_introductions: bool,
    pub share_member_list: bool,
    pub created_at: T,
    pub members: L,
}

impl View for NetworkData<String, Vec<Member>> {
    type V = NetworkData<Seq<char>, Seq<Member<Seq<char>>>>;

    open spec fn view(&self) -> NetworkData<Seq<char>, Seq<Member<Seq<char>>>> {
        NetworkData {
            id: self.id@,
            name: self.name@,
            description: self.description@,
            member_count: self.member_count,
            is_owner: self.is_owner,
            allow_introductions: self.allow_introductions,
            auto_accept_introductions: self.auto_accept_introductions,
            share_member_list: self.share_member_list,
            created_at: self.created_at@,
            members: member_views(self.members@),
        }
    }
}

/// The name of the first peer with an identifier.
pub open spec fn name_of(peers: Seq<TrustedPeer<Seq<char>, Moment>>, id: Seq<char>) -> Option<
    Seq<char>,
>
    decreases peers.len(),
{
    if peers.len() == 0 {
        None
    } else if peers[0].id == id {
        Some(peers[0].name)
    } else {
        name_of(peers.drop_first(), id)
    }
}

/// The members of a network that are peers still, with their names.
pub open spec fn named_members(
    members: Seq<Seq<char>>,
    peers: Seq<TrustedPeer<Seq<char>, Moment>>,
) -> Seq<Member<Seq<char>>>
    decreases members.len(),
{
    if members.len() == 0 {
        Seq::empty()
    } else {
        let head = named_members(members.drop_last(), peers);
        match name_of(peers, members.last()) {
            Some(name) => head.push(Member { peer_id: members.last(), name }),
            None => head,
        }
    }
}

/// A row of the list of networks.
pub open spec fn network_row(
    n: Network<Seq<char>, Moment, Seq<Seq<char>>>,
    peers: Seq<TrustedPeer<Seq<char>, Moment>>,
) -> NetworkData<Seq<char>, Seq<Member<Seq<char>>>> {
    NetworkData {
        id: n.id,
        name: n.name,
        description: text_or_blank(n.description),
        member_count: n.member_count as i32,
        is_owner: n.is_owner,
        allow_introductions: n.can_introduce,
        auto_accept_introductions: n.auto_accept_introductions,
        share_member_list: n.share_member_list,
        created_at: date_text(n.created_at),
        members: named_members(n.members, peers),
    }
}

fn find_name(peers: &Vec<TrustedPeer>, id: &str) -> (r: Option<String>)
    ensures
        opt_text(r) == name_of(peer_views(peers@), id@),
{
    let ghost all = peer_views(peers@);
    assert(all.skip(0) =~= all);
    for i in 0..peers.len()
        invariant
            all == peer_views(peers@),
            name_of(all, id@) == name_of(all.skip(i as int), id@),
    {
        let ghost rest = all.skip(i as int);
        assert(rest[0] == peers@[i as int]@);
        assert(rest.drop_first() =~= all.skip(i + 1));
        if same_text(peers[i].id.as_str(), id) {
            return Some(peers[i].name.clone());
        }
    }
    assert(all.skip(peers@.len() as int).len() == 0);
    None
}

fn name_members(members: &Vec<String>, peers: &Vec<TrustedPeer>) -> (r: Vec<Member>)
    ensures
        member_views(r@) == named_members(texts(members@), peer_views(peers@)),
{
    let mut out: Vec<Member> = Vec::new();
    let ghost ids = texts(members@);
    let ghost all = peer_views(peers@);
    assert(member_views(out@) =~= named_members(ids.take(0), all));
    for i in 0..members.len()
        invariant
            ids == texts(members@),
            all == peer_views(peers@),
            member_views(out@) == named_members(ids.take(i as int), all),
    {
        let ghost next = ids.take(i + 1);
        assert(next.drop_last() =~= ids.take(i as int));
        assert(next.last() == members@[i as int]@);
        if let Some(name) = find_name(peers, members[i].as_str()) {
            let ghost before = member_views(out@);
            let member = Member { peer_id: members[i].clone(), name };
            let ghost shown = member@;
            out.push(member);
            assert(member_views(out@) =~= before.push(shown));
        }
    }
    assert(ids.take(members@.len() as int) =~= ids);
    out
}

/// A row of the list of networks, with the names of the members that are peers.
pub fn network_data(n: &Network, peers: &Vec<TrustedPeer>) -> (r: NetworkData)
    ensures
        r@ == network_row(n@, peer_views(peers@)),
{
    NetworkData {
        id: n.id.clone(),
        name: n.name.clone(),
        description: or_blank(&n.description),
        member_count: #[verifier::truncate] (n.member_count as i32),
        is_owner: n.is_owner,
        allow_introductions: n.can_introduce,
        auto_accept_introductions: n.auto_accept_introductions,
        share_member_list: n.share_member_list,
        created_at: format_date(&n.created_at),
        members: name_members(&n.members, peers),
    }
}

/// Every member that is listed is a peer, under the peer's name.
pub proof fn listed_members_are_peers(
    members: Seq<Seq<char>>,
    peers: Seq<TrustedPeer<Seq<char>, Moment>>,
)
    ensures
        named_members(members, peers).len() <= members.len(),
        forall|i: int|
            0 <= i < named_members(members, peers).len() ==> name_of(
                peers,
                (#[trigger] named_members(members, peers)[i]).peer_id,
            ) == Some(named_members(members, peers)[i].name),
    decreases members.len(),
{
    if members.len() > 0 {
        listed_members_are_peers(members.drop_last(), peers);
    }
}

/// What the user may set for a network. There is no limit to its members.
#[derive(Clone, Copy, Debug, PartialEq, Eq, Structural)]
pub struct NetworkSettings {
    pub allow_introductions: bool,
    pub auto_accept_introductions: bool,
    pub share_member_list: bool,
    pub max_members: u32,
}

/// The settings that a form holds.
pub open spec fn settings_of_form(
    allow_introductions: bool,
    auto_accept_introductions: bool,
    share_member_list: bool,
) -> NetworkSettings {
    NetworkSettings {
        allow_introductions,
        auto_accept_introductions,
        share_member_list,
        max_members: 0,
    }
}

/// The settings of a network from its form.
pub fn network_settings(
    allow_introductions: bool,
    auto_accept_introductions: bool,
    share_member_list: bool,
) -> (r: NetworkSettings)
    ensures
        r == settings_of_form(allow_introductions, auto_accept_introductions, share_member_list),
{
    NetworkSettings {
        allow_introductions,
        auto_accept_introductions,
        share_member_list,
        max_members: 0,
    }
}

/// What the user does to networks.
#[derive(Debug, PartialEq, Eq)]
pub enum NetworkOp<T = String> {
    Create { name: T },
    Delete,
    Rename { name: T },
    AddMember,
    RemoveMember,
    UpdateSettings,
}

impl View for NetworkOp<String> {
    type V = NetworkOp<Seq<char>>;

    open spec fn view(&self) -> NetworkOp<Seq<char>> {
        match *self {
            NetworkOp::Create { name } => NetworkOp::Create { name: name@ },
            NetworkOp::Delete => NetworkOp::Delete,
            NetworkOp::Rename { name } => NetworkOp::Rename { name: name@ },
            NetworkOp::AddMember => NetworkOp::AddMember,
            NetworkOp::RemoveMember => NetworkOp::RemoveMember,
            NetworkOp::UpdateSettings => NetworkOp::UpdateSettings,
        }
    }
}

/// The status line after an attempt, if there is one: `Err` holds what went wrong, `Ok` whether
/// anything changed.
pub open spec fn network_line(op: NetworkOp<Seq<char>>, outcome: Result<bool, Seq<char>>) -> Option<
    Seq<char>,
> {
    match (op, outcome) {
        (NetworkOp::Create { name }, Ok(_)) => Some("Network '"@ + name + "' created"@),
        (NetworkOp::Create { name }, Err(e)) => Some("Error creating network: "@ + e),
        (NetworkOp::Delete, Ok(_)) => Some("Network deleted"@),
        (NetworkOp::Delete, Err(e)) => Some("Error deleting network: "@ + e),
        (NetworkOp::Rename { name }, Ok(_)) => Some("Network renamed to '"@ + name + "'"@),
        (NetworkOp::Rename { name }, Err(e)) => Some("Error renaming network: "@ + e),
        (NetworkOp::AddMember, Ok(_)) => Some("Peer added to network"@),
        (NetworkOp::RemoveMember, Ok(true)) => Some("Peer removed from network"@),
        (NetworkOp::RemoveMember, Ok(false)) => Some("Peer was not in network"@),
        (NetworkOp::UpdateSettings, Ok(_)) => None,
        (_, Err(e)) => Some("Error: "@ + e),
    }
}

/// What went wrong, as text.
pub open spec fn outcome_view(outcome: Result<bool, String>) -> Result<bool, Seq<char>> {
    match outcome {
        Ok(b) => Ok(b),
        Err(e) => Err(e@),
    }
}

/// Whether the list of networks is shown anew after an attempt.
pub open spec fn networks_changed(
    op: NetworkOp<Seq<char>>,
    outcome: Result<bool, Seq<char>>,
) -> bool {
    outcome matches Ok(changed) && (op is RemoveMember ==> changed)
}

/// The status line after an attempt, and whether the list of networks is shown anew.
pub fn network_status(op: &NetworkOp, outcome: &Result<bool, String>) -> (r: (Option<String>, bool))
    ensures
        opt_text(r.0) == network_line(op@, outcome_view(*outcome)),
        r.1 == networks_changed(op@, outcome_view(*outcome)),
{
    match outcome {
        Ok(changed) => match op {
            NetworkOp::Create { name } => (
                Some(join3("Network '", name.as_str(), "' created")),
                true,
            ),
            NetworkOp::Delete => (Some("Network deleted".to_owned()), true),
            NetworkOp::Rename { name } => (
                Some(join3("Network renamed to '", name.as_str(), "'")),
                true,
            ),
            NetworkOp::AddMember => (Some("Peer added to network".to_owned()), true),
            NetworkOp::RemoveMember => if *changed {
                (Some("Peer removed from network".to_owned()), true)
            } else {
                (Some("Peer was not in network".to_owned()), false)
            },
            NetworkOp::UpdateSettings => (None, true),
        },
        Err(e) => {
            let what = match op {
                NetworkOp::Create { .. } => "Error creating network: ",
                NetworkOp::Delete => "Error deleting network: ",
                NetworkOp::Rename { .. } => "Error renaming network: ",
                _ => "Error: ",
            };
            (Some(join2(what, e.as_str())), false)
        },
    }
}

// ---------------------------------------------------------------------------
// Introductions

/// Why an introduction is not begun, if it is not. `b` is the peer to be introduced and `c` the
/// member to introduce it to, where there are such peers; `allow_introductions` is the setting of
/// the network. A network that is gone has none, and so forbids nothing.
pub open spec fn introduction_obstacle(
    b: Option<TrustedPeer<Seq<char>, Moment>>,
    c: Option<TrustedPeer<Seq<char>, Moment>>,
    allow_introductions: Option<bool>,
    network_ready: bool,
    has_identity: bool,
) -> Option<Seq<char>> {
    if b is None {
        Some("Error: Peer not found"@)
    } else if c is None {
        Some("Error: Target member not found"@)
    } else if b->0.is_guest || c->0.is_guest {
        Some("Cannot introduce guest peers"@)
    } else if allow_introductions == Some(false) {
        Some("Introductions are not allowed in this network"@)
    } else if !network_ready {
        Some("Error: Network not ready"@)
    } else if !has_identity {
        Some("Error: Identity not ready"@)
    } else {
        None
    }
}

fn is_forbidden(allow_introductions: Option<bool>) -> (r: bool)
    ensures
        r == (allow_introductions == Some(false)),
{
    match allow_introductions {
        Some(allowed) => !allowed,
        None => false,
    }
}

/// Why an introduction is not begun, if it is not.
pub fn refuse_introduction(
    b: &Option<TrustedPeer>,
    c: &Option<TrustedPeer>,
    allow_introductions: Option<bool>,
    network_ready: bool,
    has_identity: bool,
) -> (r: Option<String>)
    ensures
        opt_text(r) == introduction_obstacle(
            opt_peer(*b),
            opt_peer(*c),
            allow_introductions,
            network_ready,
            has_identity,
        ),
{
    match (b, c) {
        (None, _) => Some("Error: Peer not found".to_owned()),
        (Some(_), None) => Some("Error: Target member not found".to_owned()),
        (Some(peer), Some(member)) => {
            if peer.is_guest || member.is_guest {
                Some("Cannot introduce guest peers".to_owned())
            } else if is_forbidden(allow_introductions) {
                Some("Introductions are not allowed in this network".to_owned())
            } else if !network_ready {
                Some("Error: Network not ready".to_owned())
            } else if !has_identity {
                Some("Error: Identity not ready".to_owned())
            } else {
                None
            }
        },
    }
}

/// How far an introduction has come.
#[derive(Clone, Copy, Debug, PartialEq, Eq, Structural)]
pub enum Stage {
    /// Connecting to the peer to be introduced.
    ConnectB,
    /// Sending it the offer.
    OfferB,
    /// Waiting for its answer.
    AwaitB,
    /// Connecting to the member.
    ConnectC,
    /// Asking the member.
    RequestC,
    /// Waiting for the member's answer.
    AwaitC,
    /// The introduction is over.
    Over,
}

/// A peer introduction under way.
#[derive(Debug, PartialEq, Eq)]
pub struct PendingIntroduction<T = String> {
    /// Unique introduction ID.
    pub introduction_id: T,
    /// Network ID where the introduction is happening.
    pub network_id: T,
    /// Peer being introduced.
    pub b: PeerInfo<T>,
    /// Target network member.
    pub c: PeerInfo<T>,
    /// Whether the peer being introduced has accepted.
    pub peer_b_accepted: bool,
    /// Whether the target member has accepted.
    pub peer_c_accepted: bool,
    pub stage: Stage,
}

impl View for PendingIntroduction<String> {
    type V = PendingIntroduction<Seq<char>>;

    open spec fn view(&self) -> PendingIntroduction<Seq<char>> {
        PendingIntroduction {
            introduction_id: self.introduction_id@,
            network_id: self.network_id@,
            b: self.b@,
            c: self.c@,
            peer_b_accepted: self.peer_b_accepted,
            peer_c_accepted: self.peer_c_accepted,
            stage: self.stage,
        }
    }
}

/// What has come of the last thing that was done.
#[derive(Debug, PartialEq, Eq)]
pub enum IntroEvent<T = String> {
    /// The connection stands, or the message is sent.
    Done,
    /// It did not work.
    Failed { error: T },
    /// The peer to be introduced has answered.
    OfferAnswer { introduction_id: T, accepted: bool, reason: Option<T> },
    /// The member has answered.
    RequestAnswer { introduction_id: T, accepted: bool, reason: Option<T> },
    /// Something else has been answered.
    OtherAnswer,
    /// Nothing has been answered in time.
    TimedOut,
}

impl View for IntroEvent<String> {
    type V = IntroEvent<Seq<char>>;

    open spec fn view(&self) -> IntroEvent<Seq<char>> {
        match *self {
            IntroEvent::Done => IntroEvent::Done,
            IntroEvent::Failed { error } => IntroEvent::Failed { error: error@ },
            IntroEvent::OfferAnswer { introduction_id, accepted, reason } => {
                IntroEvent::OfferAnswer {
                    introduction_id: introduction_id@,
                    accepted,
                    reason: opt_text(reason),
                }
            },
            IntroEvent::RequestAnswer { introduction_id, accepted, reason } => {
                IntroEvent::RequestAnswer {
                    introduction_id: introduction_id@,
                    accepted,
                    reason: opt_text(reason),
                }
            },
            IntroEvent::OtherAnswer => IntroEvent::OtherAnswer,
            IntroEvent::TimedOut => IntroEvent::TimedOut,
        }
    }
}

/// What is done next.
#[derive(Debug, PartialEq, Eq)]
pub enum IntroAction<T = String> {
    /// Connect to the peer to be introduced.
    ConnectToB,
    /// Offer it the introduction to the member `peer`.
    Offer { peer: PeerInfo<T>, message: T },
    /// Wait for an answer.
    Await,
    /// Connect to the member.
    ConnectToC,
    /// Ask the member about the peer to be introduced, `peer`.
    Request { peer: PeerInfo<T>, message: T },
    /// Tell both that they can connect: the peer to be introduced with `to_b`, the member with
    /// `to_c`.
    CompleteBoth { to_b: PeerInfo<T>, to_c: PeerInfo<T> },
    /// Tell the peer to be introduced that nothing comes of it.
    TellB { reason: T },
    /// Nothing.
    Stop,
}

impl View for IntroAction<String> {
    type V = IntroAction<Seq<char>>;

    open spec fn view(&self) -> IntroAction<Seq<char>> {
        match *self {
            IntroAction::ConnectToB => IntroAction::ConnectToB,
            IntroAction::Offer { peer, message } => IntroAction::Offer {
                peer: peer@,
                message: message@,
            },
            IntroAction::Await => IntroAction::Await,
            IntroAction::ConnectToC => IntroAction::ConnectToC,
            IntroAction::Request { peer, message } => IntroAction::Request {
                peer: peer@,
                message: message@,
            },
            IntroAction::CompleteBoth { to_b, to_c } => IntroAction::CompleteBoth {
                to_b: to_b@,
                to_c: to_c@,
            },
            IntroAction::TellB { reason } => IntroAction::TellB { reason: reason@ },
            IntroAction::Stop => IntroAction::Stop,
        }
    }
}

/// What follows from an event: the status line is set, the action is taken, and the introduction is
/// forgotten where it is over.
#[derive(Debug, PartialEq, Eq)]
pub struct IntroStep<T = String> {
    pub status: Option<T>,
    pub action: IntroAction<T>,
    pub forget: bool,
}

impl View for IntroStep<String> {
    type V = IntroStep<Seq<char>>;

    open spec fn view(&self) -> IntroStep<Seq<char>> {
        IntroStep { status: opt_text(self.status), action: self.action@, forget: self.forget }
    }
}

/// An introduction that has just begun.
pub open spec fn begun(
    introduction_id: Seq<char>,
    network_id: Seq<char>,
    b: PeerInfo<Seq<char>>,
    c: PeerInfo<Seq<char>>,
) -> PendingIntroduction<Seq<char>> {
    PendingIntroduction {
        introduction_id,
        network_id,
        b,
        c,
        peer_b_accepted: false,
        peer_c_accepted: false,
        stage: Stage::ConnectB,
    }
}

/// What is done first: the peer to be introduced is connected to.
pub open spec fn first_step(b: PeerInfo<Seq<char>>) -> IntroStep<Seq<char>> {
    IntroStep {
        status: Some("Sending introduction offer to "@ + b.name + "..."@),
        action: IntroAction::ConnectToB,
        forget: false,
    }
}

/// Begins an introduction.
pub fn begin_introduction(introduction_id: &str, network_id: &str, b: PeerInfo, c: PeerInfo) -> (r:
    (PendingIntroduction, IntroStep))
    ensures
        r.0@ == begun(introduction_id@, network_id@, b@, c@),
        r.1@ == first_step(b@),
{
    let status = join3("Sending introduction offer to ", b.name.as_str(), "...");
    let pending = PendingIntroduction {
        introduction_id: introduction_id.to_owned(),
        network_id: network_id.to_owned(),
        b,
        c,
        peer_b_accepted: false,
        peer_c_accepted: false,
        stage: Stage::ConnectB,
    };
    let step = IntroStep { status: Some(status), action: IntroAction::ConnectToB, forget: false };
    (pending, step)
}

/// An introduction that goes on.
pub open spec fn going_on(
    p: PendingIntroduction<Seq<char>>,
    stage: Stage,
    status: Option<Seq<char>>,
    action: IntroAction<Seq<char>>,
) -> (PendingIntroduction<Seq<char>>, IntroStep<Seq<char>>) {
    (PendingIntroduction { stage, ..p }, IntroStep { status, action, forget: false })
}

/// An introduction that is over.
pub open spec fn over(
    p: PendingIntroduction<Seq<char>>,
    status: Option<Seq<char>>,
    action: IntroAction<Seq<char>>,
) -> (PendingIntroduction<Seq<char>>, IntroStep<Seq<char>>) {
    (PendingIntroduction { stage: Stage::Over, ..p }, IntroStep { status, action, forget: true })
}

/// A reason, or that none was given.
pub open spec fn reason_text(reason: Option<Seq<char>>) -> Seq<char> {
    match reason {
        Some(r) => r,
        None => "No reason given"@,
    }
}

/// An answer that is none, from the peer with a name.
pub open spec fn no_answer(
    p: PendingIntroduction<Seq<char>>,
    name: Seq<char>,
    event: IntroEvent<Seq<char>>,
) -> (PendingIntroduction<Seq<char>>, IntroStep<Seq<char>>) {
    match event {
        IntroEvent::Failed { error } => over(p, Some("Error: "@ + error), IntroAction::Stop),
        IntroEvent::TimedOut => over(
            p,
            Some(name + " did not respond in time"@),
            IntroAction::Stop,
        ),
        _ => over(p, None, IntroAction::Stop),
    }
}

/// What follows from an event.
pub open spec fn introduction_step(
    p: PendingIntroduction<Seq<char>>,
    event: IntroEvent<Seq<char>>,
) -> (PendingIntroduction<Seq<char>>, IntroStep<Seq<char>>) {
    let b = p.b.name;
    let c = p.c.name;
    match p.stage {
        Stage::ConnectB => match event {
            IntroEvent::Failed { error } => over(
                p,
                Some("Error connecting to "@ + b + ": "@ + error),
                IntroAction::Stop,
            ),
            _ => going_on(
                p,
                Stage::OfferB,
                None,
                IntroAction::Offer {
                    peer: p.c,
                    message: "Would you like to connect with "@ + c + "?"@,
                },
            ),
        },
        Stage::OfferB => match event {
            IntroEvent::Failed { error } => over(
                p,
                Some("Error: "@ + error),
                IntroAction::Stop,
            ),
            _ => going_on(
                p,
                Stage::AwaitB,
                Some("Introduction offer sent to "@ + b + ", waiting for response..."@),
                IntroAction::Await,
            ),
        },
        Stage::AwaitB => match event {
            IntroEvent::OfferAnswer { introduction_id, accepted, reason } => {
                if introduction_id != p.introduction_id {
                    over(p, None, IntroAction::Stop)
                } else if accepted {
                    going_on(
                        PendingIntroduction { peer_b_accepted: true, ..p },
                        Stage::ConnectC,
                        Some("Sending introduction request to "@ + c + "..."@),
                        IntroAction::ConnectToC,
                    )
                } else {
                    over(
                        p,
                        Some(b + " declined introduction: "@ + reason_text(reason)),
                        IntroAction::Stop,
                    )
                }
            },
            _ => no_answer(p, b, event),
        },
        Stage::ConnectC => match event {
            IntroEvent::Failed { error } => over(
                p,
                Some("Error connecting to "@ + c + ": "@ + error),
                IntroAction::Stop,
            ),
            _ => going_on(
                p,
                Stage::RequestC,
                None,
                IntroAction::Request {
                    peer: p.b,
                    message: b + " would like to connect with you"@,
                },
            ),
        },
        Stage::RequestC => match event {
            IntroEvent::Failed { error } => over(
                p,
                Some("Error: "@ + error),
                IntroAction::Stop,
            ),
            _ => going_on(p, Stage::AwaitC, None, IntroAction::Await),
        },
        Stage::AwaitC => match event {
            IntroEvent::RequestAnswer { introduction_id, accepted, reason } => {
                if introduction_id != p.introduction_id {
                    over(p, None, IntroAction::Stop)
                } else if accepted {
                    over(
                        PendingIntroduction { peer_c_accepted: true, ..p },
                        Some(
                            "Introduction complete! "@ + b + " and "@ + c
                                + " can now connect directly"@,
                        ),
                        IntroAction::CompleteBoth { to_b: p.c, to_c: p.b },
                    )
                } else {
                    over(
                        p,
                        Some(c + " declined introduction: "@ + reason_text(reason)),
                        IntroAction::TellB { reason: c + " declined"@ },
                    )
                }
            },
            _ => no_answer(p, c, event),
        },
        Stage::Over => over(p, None, IntroAction::Stop),
    }
}

fn go_on(
    p: &mut PendingIntroduction,
    stage: Stage,
    status: Option<String>,
    action: IntroAction,
) -> (r: IntroStep)
    ensures
        (final(p)@, r@) == going_on(old(p)@, stage, opt_text(status), action@),
{
    p.stage = stage;
    IntroStep { status, action, forget: false }
}

fn end(
    p: &mut PendingIntroduction,
    status: Option<String>,
    action: IntroAction,
) -> (r: IntroStep)
    ensures
        (final(p)@, r@) == over(old(p)@, opt_text(status), action@),
{
    p.stage = Stage::Over;
    IntroStep { status, action, forget: true }
}

fn reason_or_none_given(reason: &Option<String>) -> (r: String)
    ensures
        r@ == reason_text(opt_text(*reason)),
{
    match reason {
        Some(r) => r.clone(),
        None => "No reason given".to_owned(),
    }
}

fn end_unanswered(p: &mut PendingIntroduction, name: &str, event: &IntroEvent) -> (r: IntroStep)
    ensures
        (final(p)@, r@) == no_answer(old(p)@, name@, event@),
{
    let status = match event {
        IntroEvent::Failed { error } => Some(join2("Error: ", error.as_str())),
        IntroEvent::TimedOut => Some(join2(name, " did not respond in time")),
        _ => None,
    };
    end(p, status, IntroAction::Stop)
}

fn on_b_event(p: &mut PendingIntroduction, event: &IntroEvent) -> (r: IntroStep)
    requires
        old(p)@.stage is ConnectB || old(p)@.stage is OfferB || old(p)@.stage is AwaitB,
    ensures
        (final(p)@, r@) == introduction_step(old(p)@, event@),
{
    let b = p.b.name.clone();
    let c = p.c.name.clone();
    match p.stage {
        Stage::ConnectB => match event {
            IntroEvent::Failed { error } => {
                let mut s = join3("Error connecting to ", b.as_str(), ": ");
                s.append(error.as_str());
                end(p, Some(s), IntroAction::Stop)
            },
            _ => {
                let message = join3("Would you like to connect with ", c.as_str(), "?");
                let peer = p.c.clone();
                go_on(p, Stage::OfferB, None, IntroAction::Offer { peer, message })
            },
        },
        Stage::OfferB => match event {
            IntroEvent::Failed { error } => {
                let s = join2("Error: ", error.as_str());
                end(p, Some(s), IntroAction::Stop)
            },
            _ => {
                let s = join3(
                    "Introduction offer sent to ",
                    b.as_str(),
                    ", waiting for response...",
                );
                go_on(p, Stage::AwaitB, Some(s), IntroAction::Await)
            },
        },
        _ => match event {
            IntroEvent::OfferAnswer { introduction_id, accepted, reason } => {
                if !same_text(introduction_id.as_str(), p.introduction_id.as_str()) {
                    end(p, None, IntroAction::Stop)
                } else if *accepted {
                    p.peer_b_accepted = true;
                    let s = join3("Sending introduction request to ", c.as_str(), "...");
                    go_on(p, Stage::ConnectC, Some(s), IntroAction::ConnectToC)
                } else {
                    let s = join3(
                        b.as_str(),
                        " declined introduction: ",
                        reason_or_none_given(reason).as_str(),
                    );
                    end(p, Some(s), IntroAction::Stop)
                }
            },
            _ => end_unanswered(p, b.as_str(), event),
        },
    }
}

fn on_c_event(p: &mut PendingIntroduction, event: &IntroEvent) -> (r: IntroStep)
    requires
        old(p)@.stage is ConnectC || old(p)@.stage is RequestC || old(p)@.stage is AwaitC,
    ensures
        (final(p)@, r@) == introduction_step(old(p)@, event@),
{
    let b = p.b.name.clone();
    let c = p.c.name.clone();
    match p.stage {
        Stage::ConnectC => match event {
            IntroEvent::Failed { error } => {
                let mut s = join3("Error connecting to ", c.as_str(), ": ");
                s.append(error.as_str());
                end(p, Some(s), IntroAction::Stop)
            },
            _ => {
                let message = join2(b.as_str(), " would like to connect with you");
                let peer = p.b.clone();
                go_on(p, Stage::RequestC, None, IntroAction::Request { peer, message })
            },
        },
        Stage::RequestC => match event {
            IntroEvent::Failed { error } => {
                let s = join2("Error: ", error.as_str());
                end(p, Some(s), IntroAction::Stop)
            },
            _ => go_on(p, Stage::AwaitC, None, IntroAction::Await),
        },
        _ => match event {
            IntroEvent::RequestAnswer { introduction_id, accepted, reason } => {
                if !same_text(introduction_id.as_str(), p.introduction_id.as_str()) {
                    end(p, None, IntroAction::Stop)
                } else if *accepted {
                    p.peer_c_accepted = true;
                    let mut s = join3("Introduction complete! ", b.as_str(), " and ");
                    s.append(c.as_str());
                    s.append(" can now connect directly");
                    let (to_b, to_c) = (p.c.clone(), p.b.clone());
                    end(p, Some(s), IntroAction::CompleteBoth { to_b, to_c })
                } else {
                    let s = join3(
                        c.as_str(),
                        " declined introduction: ",
                        reason_or_none_given(reason).as_str(),
                    );
                    let reason = join2(c.as_str(), " declined");
                    end(p, Some(s), IntroAction::TellB { reason })
                }
            },
            _ => end_unanswered(p, c.as_str(), event),
        },
    }
}

/// Takes in what has come of the last thing that was done.
pub fn on_introduction_event(p: &mut PendingIntroduction, event: &IntroEvent) -> (r: IntroStep)
    ensures
        (final(p)@, r@) == introduction_step(old(p)@, event@),
{
    match p.stage {
        Stage::ConnectB => on_b_event(p, event),
        Stage::OfferB => on_b_event(p, event),
        Stage::AwaitB => on_b_event(p, event),
        Stage::ConnectC => on_c_event(p, event),
        Stage::RequestC => on_c_event(p, event),
        Stage::AwaitC => on_c_event(p, event),
        Stage::Over => end(p, None, IntroAction::Stop),
    }
}

// ---------------------------------------------------------------------------
// Laws

/// Whether an introduction is sound: the member is approached only after the peer to be introduced
/// has accepted, and once the member has accepted too, the introduction is over.
pub open spec fn sound(p: PendingIntroduction<Seq<char>>) -> bool {
    &&& (p.stage is ConnectC || p.stage is RequestC || p.stage is AwaitC) ==> p.peer_b_accepted
    &&& p.peer_c_accepted ==> p.peer_b_accepted && p.stage is Over
}

/// Every introduction is sound from its beginning, and stays so.
pub proof fn introductions_stay_sound(
    p: PendingIntroduction<Seq<char>>,
    event: IntroEvent<Seq<char>>,
    introduction_id: Seq<char>,
    network_id: Seq<char>,
    b: PeerInfo<Seq<char>>,
    c: PeerInfo<Seq<char>>,
)
    requires
        sound(p),
    ensures
        sound(begun(introduction_id, network_id, b, c)),
        sound(introduction_step(p, event).0),
{
}

/// Two peers are told that they can connect only once both have accepted this very introduction.
pub proof fn completion_needs_both(
    p: PendingIntroduction<Seq<char>>,
    event: IntroEvent<Seq<char>>,
)
    requires
        sound(p),
        introduction_step(p, event).1.action is CompleteBoth,
    ensures
        p.peer_b_accepted,
        event matches IntroEvent::RequestAnswer { introduction_id, accepted, reason } && accepted
            && introduction_id == p.introduction_id,
        introduction_step(p, event).0.peer_b_accepted,
        introduction_step(p, event).0.peer_c_accepted,
{
}

/// The member is asked only after the peer to be introduced has accepted this very introduction.
pub proof fn member_is_asked_second(
    p: PendingIntroduction<Seq<char>>,
    event: IntroEvent<Seq<char>>,
)
    requires
        sound(p),
    ensures
        introduction_step(p, event).1.action is ConnectToC ==> (event matches
            IntroEvent::OfferAnswer { introduction_id, accepted, reason } && accepted
            && introduction_id == p.introduction_id),
        introduction_step(p, event).1.action is Request ==> p.peer_b_accepted,
{
}

/// How many events an introduction can still take in.
pub open spec fn events_left(stage: Stage) -> int {
    match stage {
        Stage::ConnectB => 6,
        Stage::OfferB => 5,
        Stage::AwaitB => 4,
        Stage::ConnectC => 3,
        Stage::RequestC => 2,
        Stage::AwaitC => 1,
        Stage::Over => 0,
    }
}

/// Every introduction ends, whatever happens: each event takes it on or ends it, and what is over
/// stays over and does nothing more. One that ends is forgotten, and no other is.
pub proof fn introductions_end(p: PendingIntroduction<Seq<char>>, event: IntroEvent<Seq<char>>)
    ensures
        p.stage is Over || events_left(introduction_step(p, event).0.stage) < events_left(p.stage),
        p.stage is Over ==> introduction_step(p, event).0 == p && introduction_step(
            p,
            event,
        ).1.action is Stop,
        introduction_step(p, event).1.forget <==> introduction_step(p, event).0.stage is Over,
{
}

/// Each of the two is told of the other and of nobody else: the peer to be introduced learns of the
/// member, and the member of the peer to be introduced, and who they are does not change on the way.
pub proof fn each_is_told_of_the_other(
    p: PendingIntroduction<Seq<char>>,
    event: IntroEvent<Seq<char>>,
)
    ensures
        introduction_step(p, event).0.b == p.b,
        introduction_step(p, event).0.c == p.c,
        introduction_step(p, event).0.introduction_id == p.introduction_id,
        introduction_step(p, event).1.action matches IntroAction::Offer { peer, message } ==> peer
            == p.c,
        introduction_step(p, event).1.action matches IntroAction::Request { peer, message } ==> peer
            == p.b,
        introduction_step(p, event).1.action matches IntroAction::CompleteBoth { to_b, to_c }
            ==> to_b == p.c && to_c == p.b,
{
}

/// Guests are not introduced, and nobody is introduced to a guest.
pub proof fn guests_are_not_introduced(
    b: TrustedPeer<Seq<char>, Moment>,
    c: TrustedPeer<Seq<char>, Moment>,
    allow_introductions: Option<bool>,
    network_ready: bool,
    has_identity: bool,
)
    ensures
        b.is_guest || c.is_guest ==> introduction_obstacle(
            Some(b),
            Some(c),
            allow_introductions,
            network_ready,
            has_identity,
        ) is Some,
{
}

/// Where a network's settings forbid introductions, none is begun.
pub proof fn networks_control_introductions(
    b: Option<TrustedPeer<Seq<char>, Moment>>,
    c: Option<TrustedPeer<Seq<char>, Moment>>,
    network_ready: bool,
    has_identity: bool,
)
    ensures
        introduction_obstacle(b, c, Some(false), network_ready, has_identity) is Some,
{
}

/// A peer is named as the first peer with its identifier is, `k`, and where no peer has the
/// identifier there is no name.
pub proof fn peers_are_named_by_identifier(
    peers: Seq<TrustedPeer<Seq<char>, Moment>>,
    id: Seq<char>,
    k: int,
)
    requires
        0 <= k <= peers.len(),
        k < peers.len() ==> peers[k].id == id,
        forall|j: int| 0 <= j < k ==> (#[trigger] peers[j]).id != id,
    ensures
        k < peers.len() ==> name_of(peers, id) == Some(peers[k].name),
        k == peers.len() ==> name_of(peers, id) is None,
    decreases k,
{
    if k > 0 {
        let rest = peers.drop_first();
        assert(peers[0].id != id);
        assert forall|j: int| 0 <= j < k - 1 implies (#[trigger] rest[j]).id != id by {
            assert(rest[j] == peers[j + 1]);
        }
        peers_are_named_by_identifier(rest, id, k - 1);
    }
}

/// Every member that is a peer is listed under the peer's name, in the order of the members, and no
/// other is.
pub proof fn members_that_are_peers_are_listed(
    a: Seq<Seq<char>>,
    b: Seq<Seq<char>>,
    id: Seq<char>,
    peers: Seq<TrustedPeer<Seq<char>, Moment>>,
)
    ensures
        named_members(a + b, peers) == named_members(a, peers) + named_members(b, peers),
        name_of(peers, id) matches Some(name) ==> named_members(seq![id], peers).len() == 1
            && named_members(seq![id], peers)[0].peer_id == id && named_members(
            seq![id],
            peers,
        )[0].name == name,
        name_of(peers, id) is None ==> named_members(seq![id], peers).len() == 0,
    decreases b.len(),
{
    assert(seq![id].drop_last() =~= Seq::<Seq<char>>::empty());
    assert(named_members(Seq::<Seq<char>>::empty(), peers).len() == 0);
    if b.len() == 0 {
        assert(a + b =~= a);
        assert(named_members(a, peers) + named_members(b, peers) =~= named_members(a, peers));
    } else {
        let c = b.drop_last();
        members_that_are_peers_are_listed(a, c, id, peers);
        assert((a + b).drop_last() =~= a + c);
        assert((a + b).last() == b.last());
        assert(named_members(a + b, peers) =~= named_members(a, peers) + named_members(b, peers));
    }
}

/// A network shows in its row as it is, each setting at its own place.
pub proof fn networks_show_as_they_are(
    n: Network,
    peers: Seq<TrustedPeer<Seq<char>, Moment>>,
    r: NetworkData,
)
    requires
        r@ == network_row(n@, peers),
    ensures
        r.id@ == n.id@,
        r.name@ == n.name@,
        n.description matches Some(t) ==> r.description@ == t@,
        n.description is None ==> r.description@.len() == 0,
        n.member_count <= i32::MAX ==> r.member_count == n.member_count,
        r.is_owner == n.is_owner,
        r.allow_introductions == n.can_introduce,
        r.auto_accept_introductions == n.auto_accept_introductions,
        r.share_member_list == n.share_member_list,
        r.created_at@ == date_text(n.created_at@),
        member_views(r.members@) == named_members(texts(n.members@), peers),
{
}

/// A form sets what it holds, and the number of members is not limited.
pub proof fn network_forms_set_what_they_hold(allow: bool, auto: bool, share: bool)
    ensures
        settings_of_form(allow, auto, share).allow_introductions == allow,
        settings_of_form(allow, auto, share).auto_accept_introductions == auto,
        settings_of_form(allow, auto, share).share_member_list == share,
        settings_of_form(allow, auto, share).max_members == 0,
{
}

/// Each attempt is told in its own words, with the name or the error that belongs to it, and the
/// list is shown anew just where something has changed.
pub proof fn attempts_on_networks_are_told(
    op: NetworkOp,
    outcome: Result<bool, String>,
    r: (Option<String>, bool),
)
    requires
        opt_text(r.0) == network_line(op@, outcome_view(outcome)),
        r.1 == networks_changed(op@, outcome_view(outcome)),
    ensures
        outcome is Err ==> !r.1,
        outcome matches Ok(changed) ==> r.1 == (changed || !(op is RemoveMember)),
        op matches NetworkOp::Create { name } ==> outcome is Ok ==> (r.0 matches Some(line) && line@
            == "Network '"@ + name@ + "' created"@),
        op matches NetworkOp::Rename { name } ==> outcome is Ok ==> (r.0 matches Some(line) && line@
            == "Network renamed to '"@ + name@ + "'"@),
        op is Delete && outcome is Ok ==> (r.0 matches Some(line) && line@ == "Network deleted"@),
        op is AddMember && outcome is Ok ==> (r.0 matches Some(line) && line@
            == "Peer added to network"@),
        op is RemoveMember ==> (outcome matches Ok(changed) ==> (r.0 matches Some(line) && line@
            == if changed {
            "Peer removed from network"@
        } else {
            "Peer was not in network"@
        })),
        op is UpdateSettings && outcome is Ok ==> r.0 is None,
        outcome matches Err(e) ==> (r.0 matches Some(line) && line@ == if op is Create {
            "Error creating network: "@
        } else if op is Delete {
            "Error deleting network: "@
        } else if op is Rename {
            "Error renaming network: "@
        } else {
            "Error: "@
        } + e@),
{
}

/// Two peers that are there and no guests are introduced wherever the network does not forbid it and
/// we are ready; what stands against it otherwise is told.
pub proof fn introductions_are_begun_where_allowed(
    b: Option<TrustedPeer<Seq<char>, Moment>>,
    c: Option<TrustedPeer<Seq<char>, Moment>>,
    allowed: Option<bool>,
    network_ready: bool,
    has_identity: bool,
)
    ensures
        introduction_obstacle(b, c, allowed, network_ready, has_identity) is None <==> (b matches Some(
            x,
        ) && !x.is_guest) && (c matches Some(y) && !y.is_guest) && allowed != Some(false)
            && network_ready && has_identity,
        b is None ==> introduction_obstacle(b, c, allowed, network_ready, has_identity) == Some(
            "Error: Peer not found"@,
        ),
        b is Some && c is None ==> introduction_obstacle(b, c, allowed, network_ready, has_identity)
            == Some("Error: Target member not found"@),
        (b matches Some(x) && c matches Some(y) && (x.is_guest || y.is_guest))
            ==> introduction_obstacle(b, c, allowed, network_ready, has_identity) == Some(
            "Cannot introduce guest peers"@,
        ),
        (b matches Some(x) && c matches Some(y) && !x.is_guest && !y.is_guest) ==> {
            &&& allowed == Some(false) ==> introduction_obstacle(
                b,
                c,
                allowed,
                network_ready,
                has_identity,
            ) == Some("Introductions are not allowed in this network"@)
            &&& allowed != Some(false) && !network_ready ==> introduction_obstacle(
                b,
                c,
                allowed,
                network_ready,
                has_identity,
            ) == Some("Error: Network not ready"@)
            &&& allowed != Some(false) && network_ready && !has_identity ==> introduction_obstacle(
                b,
                c,
                allowed,
                network_ready,
                has_identity,
            ) == Some("Error: Identity not ready"@)
        },
{
}

/// An introduction begins with the peer to be introduced, and nobody has accepted it yet.
pub proof fn introductions_begin_with_the_offer(
    introduction_id: Seq<char>,
    network_id: Seq<char>,
    b: PeerInfo,
    c: PeerInfo,
    p: PendingIntroduction,
    step: IntroStep,
)
    requires
        p@ == begun(introduction_id, network_id, b@, c@),
        step@ == first_step(b@),
    ensures
        p.introduction_id@ == introduction_id,
        p.network_id@ == network_id,
        p.b.endpoint_id@ == b.endpoint_id@ && p.b.name@ == b.name@,
        opt_text(p.b.relay_url) == opt_text(b.relay_url),
        p.c.endpoint_id@ == c.endpoint_id@ && p.c.name@ == c.name@,
        opt_text(p.c.relay_url) == opt_text(c.relay_url),
        !p.peer_b_accepted && !p.peer_c_accepted,
        p.stage is ConnectB && step.action is ConnectToB && !step.forget,
        step.status matches Some(line) && line@ == "Sending introduction offer to "@ + b.name@
            + "..."@,
{
}

/// What works leads on: the connection to the offer or the request, which tells each of the two of
/// the other, and these to waiting for the answer.
pub proof fn what_works_leads_on(
    before: PendingIntroduction,
    event: IntroEvent,
    after: PendingIntroduction,
    step: IntroStep,
)
    requires
        (after@, step@) == introduction_step(before@, event@),
        !(event is Failed),
    ensures
        before.stage is ConnectB ==> after.stage is OfferB && step.status is None && (
        step.action matches IntroAction::Offer { peer, message } && peer.endpoint_id@
            == before.c.endpoint_id@ && peer.name@ == before.c.name@ && opt_text(peer.relay_url)
            == opt_text(before.c.relay_url) && message@ == "Would you like to connect with "@
            + before.c.name@ + "?"@),
        before.stage is OfferB ==> after.stage is AwaitB && step.action is Await && (
        step.status matches Some(line) && line@ == "Introduction offer sent to "@ + before.b.name@
            + ", waiting for response..."@),
        before.stage is ConnectC ==> after.stage is RequestC && step.status is None && (
        step.action matches IntroAction::Request { peer, message } && peer.endpoint_id@
            == before.b.endpoint_id@ && peer.name@ == before.b.name@ && opt_text(peer.relay_url)
            == opt_text(before.b.relay_url) && message@ == before.b.name@
            + " would like to connect with you"@),
        before.stage is RequestC ==> after.stage is AwaitC && step.action is Await && step.status
            is None,
        before.stage is ConnectB || before.stage is OfferB || before.stage is ConnectC
            || before.stage is RequestC ==> !step.forget && after.peer_b_accepted
            == before.peer_b_accepted && after.peer_c_accepted == before.peer_c_accepted,
        after.network_id@ == before.network_id@,
        after.introduction_id@ == before.introduction_id@,
{
}

/// What fails ends an introduction, and the error is told, with the name of whoever could not be
/// reached.
pub proof fn what_fails_ends_the_introduction(
    before: PendingIntroduction,
    event: IntroEvent,
    after: PendingIntroduction,
    step: IntroStep,
)
    requires
        (after@, step@) == introduction_step(before@, event@),
        event is Failed || event is TimedOut,
    ensures
        event is Failed || before.stage is AwaitB || before.stage is AwaitC ==> after.stage is Over
            && step.action is Stop && step.forget,
        event matches IntroEvent::Failed { error } ==> {
            &&& before.stage is ConnectB ==> (step.status matches Some(line) && line@
                == "Error connecting to "@ + before.b.name@ + ": "@ + error@)
            &&& before.stage is ConnectC ==> (step.status matches Some(line) && line@
                == "Error connecting to "@ + before.c.name@ + ": "@ + error@)
            &&& before.stage is OfferB || before.stage is AwaitB || before.stage is RequestC
                || before.stage is AwaitC ==> (step.status matches Some(line) && line@
                == "Error: "@ + error@)
            &&& after.peer_b_accepted == before.peer_b_accepted
            &&& after.peer_c_accepted == before.peer_c_accepted
        },
        event is TimedOut && before.stage is AwaitB ==> (step.status matches Some(line) && line@
            == before.b.name@ + " did not respond in time"@),
        event is TimedOut && before.stage is AwaitC ==> (step.status matches Some(line) && line@
            == before.c.name@ + " did not respond in time"@),
{
}

/// The answers decide: an acceptance of this very introduction leads on to the member, and then to
/// its completion; a refusal ends it with the reason that was given, and the peer to be introduced is
/// told when it was the member's; an answer to anything else ends it in silence.
pub proof fn answers_decide(
    before: PendingIntroduction,
    event: IntroEvent,
    after: PendingIntroduction,
    step: IntroStep,
)
    requires
        (after@, step@) == introduction_step(before@, event@),
    ensures
        before.stage is AwaitB ==> (event matches IntroEvent::OfferAnswer {
            introduction_id,
            accepted,
            reason,
        } ==> {
            &&& introduction_id@ == before.introduction_id@ && accepted ==> after.stage is ConnectC
                && after.peer_b_accepted && step.action is ConnectToC && !step.forget && (
            step.status matches Some(line) && line@ == "Sending introduction request to "@
                + before.c.name@ + "..."@)
            &&& introduction_id@ == before.introduction_id@ && !accepted ==> after.stage is Over
                && step.action is Stop && after.peer_b_accepted == before.peer_b_accepted && (
            step.status matches Some(line) && line@ == before.b.name@ + " declined introduction: "@
                + match reason {
                Some(r) => r@,
                None => "No reason given"@,
            })
            &&& introduction_id@ != before.introduction_id@ ==> after.stage is Over && step.action
                is Stop && step.status is None && after.peer_b_accepted == before.peer_b_accepted
        }),
        before.stage is AwaitC ==> (event matches IntroEvent::RequestAnswer {
            introduction_id,
            accepted,
            reason,
        } ==> {
            &&& introduction_id@ == before.introduction_id@ && accepted ==> after.stage is Over
                && after.peer_c_accepted && (step.action matches IntroAction::CompleteBoth {
                to_b,
                to_c,
            } && to_b.endpoint_id@ == before.c.endpoint_id@ && to_b.name@ == before.c.name@
                && to_c.endpoint_id@ == before.b.endpoint_id@ && to_c.name@ == before.b.name@) && (
            step.status matches Some(line) && line@ == "Introduction complete! "@ + before.b.name@
                + " and "@ + before.c.name@ + " can now connect directly"@)
            &&& introduction_id@ == before.introduction_id@ && !accepted ==> after.stage is Over
                && !after.peer_c_accepted == !before.peer_c_accepted && (
            step.action matches IntroAction::TellB { reason: told } && told@ == before.c.name@
                + " declined"@) && (step.status matches Some(line) && line@ == before.c.name@
                + " declined introduction: "@ + match reason {
                Some(r) => r@,
                None => "No reason given"@,
            })
            &&& introduction_id@ != before.introduction_id@ ==> after.stage is Over && step.action
                is Stop && step.status is None && after.peer_c_accepted == before.peer_c_accepted
        }),
        before.stage is AwaitB && (event is RequestAnswer || event is OtherAnswer || event is Done)
            ==> after.stage is Over && step.action is Stop && step.status is None,
        before.stage is AwaitC && (event is OfferAnswer || event is OtherAnswer || event is Done)
            ==> after.stage is Over && step.action is Stop && step.status is None,
        before.stage is Over ==> step.action is Stop && step.status is None && step.forget,
{
}

} // verus!
