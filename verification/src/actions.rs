//! What the user does to peers: pausing, removing, renaming, extending, promoting and testing them.

use vstd::prelude::*;

use crate::listener::ExtensionOutcome;
use crate::network::outcome_view;
use crate::peerlist::{access_left, format_access_left, RowChange, SpeedResult};
use crate::peers::{PeerConnectionStatus, Permissions};
use crate::text::{join2, join3, opt_text, texts};
use crate::textmap::{TextMap, TextSet};
use crate::time::{format_minute, minute_text, Moment, UtcTime};

verus! {

/// What follows from an action: a change to the peer's row, and a status line.
#[derive(Debug, PartialEq, Eq)]
pub struct ActionStep<T = String> {
    pub row: Option<RowChange<T>>,
    pub status: Option<T>,
}

impl View for ActionStep<String> {
    type V = ActionStep<Seq<char>>;

    open spec fn view(&self) -> ActionStep<Seq<char>> {
        ActionStep {
            row: match self.row {
                Some(r) => Some(r@),
                None => None,
            },
            status: opt_text(self.status),
        }
    }
}

/// A status line and nothing else.
pub open spec fn said(status: Seq<char>) -> ActionStep<Seq<char>> {
    ActionStep { row: None, status: Some(status) }
}

fn say(status: String) -> (r: ActionStep)
    ensures
        r@ == said(status@),
{
    ActionStep { row: None, status: Some(status) }
}

/// The peers that are paused once another one is, and what follows from it.
pub open spec fn paused(disconnected: Set<Seq<char>>, id: Seq<char>) -> (
    Set<Seq<char>>,
    ActionStep<Seq<char>>,
) {
    (
        disconnected.insert(id),
        ActionStep {
            row: Some(RowChange::Paused),
            status: Some("Paused connections with peer"@),
        },
    )
}

/// The peers that are paused once one is no longer, and what follows from it.
pub open spec fn resumed(disconnected: Set<Seq<char>>, id: Seq<char>) -> (
    Set<Seq<char>>,
    ActionStep<Seq<char>>,
) {
    (
        disconnected.remove(id),
        ActionStep {
            row: Some(RowChange::Resumed),
            status: Some("Resumed connections with peer"@),
        },
    )
}

/// Pauses a peer: its connections are not served, and it is not pinged.
pub fn pause_peer(disconnected: &mut TextSet, id: &str) -> (r: ActionStep)
    ensures
        (final(disconnected)@, r@) == paused(old(disconnected)@, id@),
{
    disconnected.insert(id);
    ActionStep {
        row: Some(RowChange::Paused),
        status: Some("Paused connections with peer".to_owned()),
    }
}

/// Resumes a peer.
pub fn resume_peer(disconnected: &mut TextSet, id: &str) -> (r: ActionStep)
    ensures
        (final(disconnected)@, r@) == resumed(old(disconnected)@, id@),
{
    disconnected.remove(id);
    ActionStep {
        row: Some(RowChange::Resumed),
        status: Some("Resumed connections with peer".to_owned()),
    }
}

/// What a peer is told when it is removed, or when only the trust in it is revoked.
pub fn revoke_reason(remove: bool) -> (r: String)
    ensures
        r@ == if remove {
            "Peer removed"@
        } else {
            "Trust revoked by user"@
        },
{
    if remove {
        "Peer removed".to_owned()
    } else {
        "Trust revoked by user".to_owned()
    }
}

/// What is left once a peer has been removed, or could not be, and what is said of it.
pub open spec fn forgotten(
    statuses: Map<Seq<char>, PeerConnectionStatus>,
    disconnected: Set<Seq<char>>,
    id: Seq<char>,
    error: Option<Seq<char>>,
) -> (Map<Seq<char>, PeerConnectionStatus>, Set<Seq<char>>, ActionStep<Seq<char>>) {
    match error {
        Some(e) => (statuses, disconnected, said("Error: "@ + e)),
        None => (statuses.remove(id), disconnected.remove(id), said("Peer removed"@)),
    }
}

/// Forgets all about a peer that has been removed, and gives the status line. Where it could not be
/// removed nothing is forgotten.
pub fn remove_peer(
    statuses: &mut TextMap<PeerConnectionStatus>,
    disconnected: &mut TextSet,
    id: &str,
    error: &Option<String>,
) -> (r: ActionStep)
    ensures
        (final(statuses)@, final(disconnected)@, r@) == forgotten(
            old(statuses)@,
            old(disconnected)@,
            id@,
            opt_text(*error),
        ),
{
    match error {
        Some(e) => say(join2("Error: ", e.as_str())),
        None => {
            statuses.remove(id);
            disconnected.remove(id);
            say("Peer removed".to_owned())
        },
    }
}

/// The peers in which trust is revoked once it is in another one, and what follows from it.
pub open spec fn trust_revoked(revoked: Set<Seq<char>>, id: Seq<char>) -> (
    Set<Seq<char>>,
    ActionStep<Seq<char>>,
) {
    (
        revoked.insert(id),
        ActionStep { row: Some(RowChange::WeRevoked), status: Some("Trust revoked"@) },
    )
}

/// Revokes the trust in a peer, which stays in the list.
pub fn revoke_peer(revoked: &mut TextSet, id: &str) -> (r: ActionStep)
    ensures
        (final(revoked)@, r@) == trust_revoked(old(revoked)@, id@),
{
    revoked.insert(id);
    ActionStep { row: Some(RowChange::WeRevoked), status: Some("Trust revoked".to_owned()) }
}

/// The status line after a peer was given another name.
pub fn rename_status(name: &str, error: &Option<String>) -> (r: ActionStep)
    ensures
        r@ == said(
            match opt_text(*error) {
                Some(e) => "Error: "@ + e,
                None => "Peer renamed to "@ + name@,
            },
        ),
{
    match error {
        Some(e) => say(join2("Error: ", e.as_str())),
        None => say(join2("Peer renamed to ", name)),
    }
}

/// The status line after a peer was asked for its status.
pub fn refresh_status(name: &str, online: bool) -> (r: ActionStep)
    ensures
        r@ == said(
            if online {
                "Refreshed status for "@ + name@
            } else {
                name@ + " is offline"@
            },
        ),
{
    if online {
        say(join2("Refreshed status for ", name))
    } else {
        say(join2(name, " is offline"))
    }
}

/// What comes of an extension that the user has given a guest. `count` is the number of the guest's
/// extensions.
pub open spec fn extension_given(
    outcome: ExtensionOutcome<Seq<char>, Moment>,
    count: i32,
    now: Moment,
) -> ActionStep<Seq<char>> {
    match outcome {
        ExtensionOutcome::Until { expiry } => ActionStep {
            row: Some(
                RowChange::ExtendedTo {
                    expires_at: minute_text(expiry),
                    time_remaining: access_left(expiry, now),
                    count,
                },
            ),
            status: Some("Guest access extended"@),
        },
        ExtensionOutcome::NotGuest => said("Cannot extend: not a guest peer"@),
        ExtensionOutcome::Failed { error } => said("Error extending guest: "@ + error),
    }
}

/// Takes in what has come of an extension that the user has given a guest.
pub fn on_extension_given(outcome: &ExtensionOutcome, count: i32, now: &UtcTime) -> (r: ActionStep)
    ensures
        r@ == extension_given(outcome@, count, now@),
{
    match outcome {
        ExtensionOutcome::Until { expiry } => ActionStep {
            row: Some(
                RowChange::ExtendedTo {
                    expires_at: format_minute(expiry),
                    time_remaining: format_access_left(expiry, now),
                    count,
                },
            ),
            status: Some("Guest access extended".to_owned()),
        },
        ExtensionOutcome::NotGuest => say("Cannot extend: not a guest peer".to_owned()),
        ExtensionOutcome::Failed { error } => say(
            join2("Error extending guest: ", error.as_str()),
        ),
    }
}

/// What comes of the promotion of a guest.
pub open spec fn promotion(
    outcome: Result<bool, Seq<char>>,
    name: Option<Seq<char>>,
) -> ActionStep<Seq<char>> {
    match outcome {
        Ok(true) => ActionStep {
            row: Some(RowChange::Promoted),
            status: Some(
                (match name {
                    Some(n) => n,
                    None => "Peer"@,
                }) + " is now a trusted peer"@,
            ),
        },
        Ok(false) => said("Cannot promote: not a guest peer"@),
        Err(e) => said("Error promoting guest: "@ + e),
    }
}

/// What comes of the promotion of a guest: `Ok` says whether the peer was one, and `name` is the
/// peer's name where the peer is found.
pub fn on_promoted(outcome: &Result<bool, String>, name: &Option<String>) -> (r: ActionStep)
    ensures
        r@ == promotion(outcome_view(*outcome), opt_text(*name)),
{
    match outcome {
        Ok(promoted) => {
            if *promoted {
                let shown = match name {
                    Some(n) => n.clone(),
                    None => "Peer".to_owned(),
                };
                ActionStep {
                    row: Some(RowChange::Promoted),
                    status: Some(join2(shown.as_str(), " is now a trusted peer")),
                }
            } else {
                say("Cannot promote: not a guest peer".to_owned())
            }
        },
        Err(e) => say(join2("Error promoting guest: ", e.as_str())),
    }
}

/// What we allow a peer once the user has set it anew.
pub open spec fn granted_anew(
    granted: Permissions,
    push: bool,
    pull: bool,
    browse: bool,
    screen_view: bool,
) -> Permissions {
    Permissions { push, pull, browse, screen_view, ..granted }
}

/// What we allow a peer, after the user has set it. What the user does not set stays as it is.
pub fn grant_permissions(
    granted: &mut Permissions,
    push: bool,
    pull: bool,
    browse: bool,
    screen_view: bool,
)
    ensures
        *final(granted) == granted_anew(*old(granted), push, pull, browse, screen_view),
{
    granted.push = push;
    granted.pull = pull;
    granted.browse = browse;
    granted.screen_view = screen_view;
}

/// What a peer is told of what we allow it.
pub open spec fn announced(
    push: bool,
    pull: bool,
    browse: bool,
    screen_view: bool,
) -> Permissions {
    Permissions {
        push,
        pull,
        browse,
        status: true,
        chat: true,
        screen_view,
        screen_control: false,
    }
}

/// What a peer is told of what we allow it: status and chat are always allowed, and control of the
/// screen never is.
pub fn announced_permissions(push: bool, pull: bool, browse: bool, screen_view: bool) -> (r:
    Permissions)
    ensures
        r == announced(push, pull, browse, screen_view),
{
    Permissions {
        push,
        pull,
        browse,
        status: true,
        chat: true,
        screen_view,
        screen_control: false,
    }
}

/// The status line of a speed test.
pub open spec fn speed_line(r: SpeedResult<Seq<char>>) -> Seq<char> {
    "Speed test: ↑"@ + r.upload + " ↓"@ + r.download + " ("@ + r.latency + "ms)"@
}

/// The status line of a speed test that has a result.
pub fn speed_status(result: &SpeedResult) -> (r: String)
    ensures
        r@ == speed_line(result@),
{
    let mut s = join3("Speed test: ↑", result.upload.as_str(), " ↓");
    s.append(result.download.as_str());
    s.append(" (");
    s.append(result.latency.as_str());
    s.append("ms)");
    s
}

/// The status line of a speed test that has none.
pub fn speed_failure(connected: bool, error: &str) -> (r: String)
    ensures
        r@ == if connected {
            "Speed test failed: "@ + error@
        } else {
            "Could not connect: "@ + error@
        },
{
    if connected {
        join2("Speed test failed: ", error)
    } else {
        join2("Could not connect: ", error)
    }
}

/// The connections that are left once the guests whose time is up have been removed, and whether the
/// list of peers is shown anew.
pub open spec fn without_expired(
    statuses: Map<Seq<char>, PeerConnectionStatus>,
    expired: Seq<Seq<char>>,
    removed: usize,
) -> (Map<Seq<char>, PeerConnectionStatus>, bool) {
    if expired.len() > 0 && removed > 0 {
        (statuses.remove_keys(expired.to_set()), true)
    } else {
        (statuses, false)
    }
}

/// Forgets the connections of guests whose time is up, and says whether the list of peers is shown
/// anew. `removed` is the number of guests that have been removed.
pub fn forget_expired(
    statuses: &mut TextMap<PeerConnectionStatus>,
    expired: &Vec<String>,
    removed: usize,
) -> (r: bool)
    ensures
        (final(statuses)@, r) == without_expired(old(statuses)@, texts(expired@), removed),
{
    if expired.len() == 0 || removed == 0 {
        return false;
    }
    let ghost before = statuses@;
    let ghost ids = texts(expired@);
    assert(statuses@ =~= before.remove_keys(ids.take(0).to_set()));
    for i in 0..expired.len()
        invariant
            ids == texts(expired@),
            statuses@ == before.remove_keys(ids.take(i as int).to_set()),
    {
        let ghost part = statuses@;
        statuses.remove(expired[i].as_str());
        proof {
            let id = expired@[i as int]@;
            assert(ids.take(i + 1) =~= ids.take(i as int).push(id));
            assert forall|k: Seq<char>| ids.take(i + 1).contains(k) <==> (ids.take(
                i as int,
            ).contains(k) || k == id) by {
                if ids.take(i as int).contains(k) {
                    let j = choose|j: int| 0 <= j < i && ids.take(i as int)[j] == k;
                    assert(ids.take(i + 1)[j] == k);
                }
                if k == id {
                    assert(ids.take(i + 1)[i as int] == k);
                }
            }
            assert(statuses@ =~= before.remove_keys(ids.take(i + 1).to_set()));
        }
    }
    assert(ids.take(expired@.len() as int) =~= ids);
    true
}

// ---------------------------------------------------------------------------
// Laws

/// Pausing and resuming undo each other.
pub proof fn resuming_undoes_pausing(disconnected: Set<Seq<char>>, id: Seq<char>)
    ensures
        !disconnected.contains(id) ==> disconnected.insert(id).remove(id) == disconnected,
        disconnected.contains(id) ==> disconnected.remove(id).insert(id) == disconnected,
{
    if disconnected.contains(id) {
        assert(disconnected.remove(id).insert(id) =~= disconnected);
    } else {
        assert(disconnected.insert(id).remove(id) =~= disconnected);
    }
}

/// An extension that was given shows the guest's new end, the time that is left until then and the
/// number of extensions; one that was not changes no row, and says why.
pub proof fn given_extensions_show(
    outcome: ExtensionOutcome,
    count: i32,
    now: UtcTime,
    step: ActionStep,
)
    requires
        step@ == extension_given(outcome@, count, now@),
    ensures
        outcome matches ExtensionOutcome::Until { expiry } ==> (step.row matches Some(
            RowChange::ExtendedTo { expires_at, time_remaining, count: n },
        ) && expires_at@ == minute_text(expiry@) && time_remaining@ == access_left(expiry@, now@)
            && n == count) && (step.status matches Some(line) && line@ == "Guest access extended"@),
        outcome is NotGuest ==> step.row is None && (step.status matches Some(line) && line@
            == "Cannot extend: not a guest peer"@),
        outcome matches ExtensionOutcome::Failed { error } ==> step.row is None && (
        step.status matches Some(line) && line@ == "Error extending guest: "@ + error@),
{
}

/// A promotion changes the row just where it has been made, and is told under the peer's name, where
/// there is one.
pub proof fn promotions_show(
    outcome: Result<bool, String>,
    name: Option<String>,
    step: ActionStep,
)
    requires
        step@ == promotion(outcome_view(outcome), opt_text(name)),
    ensures
        step.row matches Some(change) ==> change is Promoted,
        step.row is Some <==> (outcome matches Ok(promoted) && promoted),
        outcome matches Ok(true) ==> (step.status matches Some(line) && line@ == match name {
            Some(n) => n@,
            None => "Peer"@,
        } + " is now a trusted peer"@),
        outcome matches Ok(false) ==> (step.status matches Some(line) && line@
            == "Cannot promote: not a guest peer"@),
        outcome matches Err(e) ==> (step.status matches Some(line) && line@
            == "Error promoting guest: "@ + e@),
{
}

/// What the user allows a peer is set and announced as it was chosen. Status, chat and control of
/// the screen are not the user's to set here: we leave them as they are, and announce the first two
/// as allowed and the last as forbidden.
pub proof fn permissions_are_set_as_chosen(
    granted: Permissions,
    push: bool,
    pull: bool,
    browse: bool,
    screen_view: bool,
)
    ensures
        granted_anew(granted, push, pull, browse, screen_view).push == push,
        granted_anew(granted, push, pull, browse, screen_view).pull == pull,
        granted_anew(granted, push, pull, browse, screen_view).browse == browse,
        granted_anew(granted, push, pull, browse, screen_view).screen_view == screen_view,
        granted_anew(granted, push, pull, browse, screen_view).status == granted.status,
        granted_anew(granted, push, pull, browse, screen_view).chat == granted.chat,
        granted_anew(granted, push, pull, browse, screen_view).screen_control
            == granted.screen_control,
        announced(push, pull, browse, screen_view).push == push,
        announced(push, pull, browse, screen_view).pull == pull,
        announced(push, pull, browse, screen_view).browse == browse,
        announced(push, pull, browse, screen_view).screen_view == screen_view,
        announced(push, pull, browse, screen_view).status,
        announced(push, pull, browse, screen_view).chat,
        !announced(push, pull, browse, screen_view).screen_control,
{
}

/// The status line of a speed test shows the two speeds and the latency, each behind its own sign.
pub proof fn speeds_are_told(result: SpeedResult, line: String)
    requires
        line@ == speed_line(result@),
    ensures
        line@ == "Speed test: ↑"@ + result.upload@ + " ↓"@ + result.download@ + " ("@
            + result.latency@ + "ms)"@,
{
}

/// What the user does to a peer is told in its own words: the new name or the error of a renaming,
/// whether a peer that was asked for its status is there, why a peer is turned away, and why a speed
/// test has no result.
pub proof fn actions_are_told(
    name: &str,
    error: &Option<String>,
    yes: bool,
    r: ActionStep,
    line: String,
)
    ensures
        call_ensures(revoke_reason, (yes,), line) ==> line@ == if yes {
            "Peer removed"@
        } else {
            "Trust revoked by user"@
        },
        call_ensures(speed_failure, (yes, name), line) ==> line@ == if yes {
            "Speed test failed: "@ + name@
        } else {
            "Could not connect: "@ + name@
        },
        call_ensures(rename_status, (name, error), r) ==> r.row is None && (
        r.status matches Some(line) && line@ == match *error {
            Some(e) => "Error: "@ + e@,
            None => "Peer renamed to "@ + name@,
        }),
        call_ensures(refresh_status, (name, yes), r) ==> r.row is None && (
        r.status matches Some(line) && line@ == if yes {
            "Refreshed status for "@ + name@
        } else {
            name@ + " is offline"@
        }),
{
}

/// Pausing, resuming and revoking are about one peer: its row shows what was done, the user is told,
/// and every other peer stays as it is.
pub proof fn actions_are_about_one_peer(peers: Set<Seq<char>>, id: Seq<char>, other: Seq<char>)
    requires
        other != id,
    ensures
        paused(peers, id).0.contains(id) && !resumed(peers, id).0.contains(id),
        trust_revoked(peers, id).0.contains(id),
        paused(peers, id).0.contains(other) <==> peers.contains(other),
        resumed(peers, id).0.contains(other) <==> peers.contains(other),
        trust_revoked(peers, id).0.contains(other) <==> peers.contains(other),
        paused(peers, id).1.row == Some(RowChange::<Seq<char>>::Paused),
        resumed(peers, id).1.row == Some(RowChange::<Seq<char>>::Resumed),
        trust_revoked(peers, id).1.row == Some(RowChange::<Seq<char>>::WeRevoked),
        paused(peers, id).1.status == Some("Paused connections with peer"@),
        resumed(peers, id).1.status == Some("Resumed connections with peer"@),
        trust_revoked(peers, id).1.status == Some("Trust revoked"@),
{
}

/// A peer that has been removed is forgotten, and no other is; where it could not be removed nothing
/// is forgotten, and the error is told. Guests whose time is up are forgotten once any has been
/// removed.
pub proof fn removed_peers_are_forgotten(
    statuses: Map<Seq<char>, PeerConnectionStatus>,
    paused_peers: Set<Seq<char>>,
    id: Seq<char>,
    other: Seq<char>,
    error: Seq<char>,
    expired: Seq<Seq<char>>,
    removed: usize,
)
    ensures
        !forgotten(statuses, paused_peers, id, None).0.contains_key(id),
        !forgotten(statuses, paused_peers, id, None).1.contains(id),
        forgotten(statuses, paused_peers, id, None).2.status == Some("Peer removed"@),
        forgotten(statuses, paused_peers, id, None).2.row is None,
        other != id && statuses.contains_key(other) ==> forgotten(
            statuses,
            paused_peers,
            id,
            None,
        ).0.contains_key(other) && forgotten(statuses, paused_peers, id, None).0[other]
            == statuses[other],
        other != id ==> (forgotten(statuses, paused_peers, id, None).1.contains(other)
            <==> paused_peers.contains(other)),
        forgotten(statuses, paused_peers, id, Some(error)).0 == statuses,
        forgotten(statuses, paused_peers, id, Some(error)).1 == paused_peers,
        forgotten(statuses, paused_peers, id, Some(error)).2.status == Some("Error: "@ + error),
        forgotten(statuses, paused_peers, id, Some(error)).2.row is None,
        without_expired(statuses, expired, removed).1 <==> expired.len() >= 1 && removed >= 1,
        without_expired(statuses, expired, removed).1 && expired.contains(id)
            ==> !without_expired(statuses, expired, removed).0.contains_key(id),
        !expired.contains(id) && statuses.contains_key(id) ==> without_expired(
            statuses,
            expired,
            removed,
        ).0.contains_key(id) && without_expired(statuses, expired, removed).0[id] == statuses[id],
        !without_expired(statuses, expired, removed).1 ==> without_expired(
            statuses,
            expired,
            removed,
        ).0 == statuses,
{
}

} // verus!
