//! The peer list: building its rows, keeping what the user has set in them, and changing one row at
//! a time.

use vstd::prelude::*;

use crate::peers::{
    apply_status_at, fresh_item, peer_views, trusted_peer_to_item, with_status,
    PeerConnectionStatus, PeerItem, TrustedPeer,
};
use crate::seqs;
use crate::text::{blank, can_shorten, integer_text, join2, same_text, signed_decimal, texts};
use crate::textmap::{TextMap, TextSet};
use crate::time::{
    days_and_hours, hours_and_minutes, later, secs_between, seconds_between, two_units, Moment,
    UtcTime,
};

verus! {

/// The views of a list of rows.
pub open spec fn rows(v: Seq<PeerItem>) -> Seq<PeerItem<Seq<char>>> {
    v.map_values(|item: PeerItem| item@)
}

/// Whether every peer can be shown.
pub open spec fn all_showable(peers: Seq<TrustedPeer>) -> bool {
    forall|i: int| 0 <= i < peers.len() ==> can_shorten(#[trigger] peers[i]@.endpoint_id, 16, 8)
}

/// The rows of peers of whose connections nothing is known yet.
pub open spec fn fresh_rows(peers: Seq<TrustedPeer>) -> Seq<PeerItem<Seq<char>>> {
    peers.map_values(|p: TrustedPeer| fresh_item(p@))
}

/// The rows of all peers, as they are when the list is first filled, or after guests have left.
pub fn peer_items(peers: &Vec<TrustedPeer>) -> (r: Vec<PeerItem>)
    requires
        all_showable(peers@),
    ensures
        rows(r@) == fresh_rows(peers@),
{
    let mut out: Vec<PeerItem> = Vec::new();
    for i in 0..peers.len()
        invariant
            all_showable(peers@),
            out@.len() == i,
            forall|j: int| 0 <= j < i ==> (#[trigger] out@[j])@ == fresh_item(peers@[j]@),
    {
        out.push(trusted_peer_to_item(&peers[i]));
    }
    assert(rows(out@) =~= fresh_rows(peers@));
    out
}

/// A row with what is known of its peer's connection, if anything is.
pub open spec fn known_row(
    item: PeerItem<Seq<char>>,
    statuses: Map<Seq<char>, PeerConnectionStatus>,
    now: Moment,
) -> PeerItem<Seq<char>> {
    if statuses.contains_key(item.id) {
        with_status(item, statuses[item.id]@, now)
    } else {
        item
    }
}

/// Applies what is known of the connections to every row whose peer has a status.
pub fn apply_statuses(
    items: &mut Vec<PeerItem>,
    statuses: &TextMap<PeerConnectionStatus>,
    now: &UtcTime,
)
    ensures
        rows(final(items)@) == rows(old(items)@).map_values(
            |item: PeerItem<Seq<char>>| known_row(item, statuses@, now@),
        ),
{
    let ghost before = items@;
    let mut out: Vec<PeerItem> = Vec::new();
    for i in 0..items.len()
        invariant
            items@ == before,
            out@.len() == i,
            forall|j: int|
                0 <= j < i ==> (#[trigger] out@[j])@ == known_row(before[j]@, statuses@, now@),
    {
        let mut item = items[i].clone();
        let id = item.id.clone();
        if let Some(status) = statuses.get(id.as_str()) {
            apply_status_at(&mut item, status, now);
        }
        out.push(item);
    }
    *items = out;
    assert(rows(items@) =~= rows(before).map_values(
        |item: PeerItem<Seq<char>>| known_row(item, statuses@, now@),
    ));
}

/// Whether a peer is known to be online.
pub open spec fn is_online(
    p: TrustedPeer<Seq<char>, Moment>,
    statuses: Map<Seq<char>, PeerConnectionStatus>,
) -> bool {
    statuses.contains_key(p.id) && statuses[p.id].online
}

/// The number of peers that are online.
pub open spec fn online_count(
    peers: Seq<TrustedPeer<Seq<char>, Moment>>,
    statuses: Map<Seq<char>, PeerConnectionStatus>,
) -> int {
    peers.filter(|p: TrustedPeer<Seq<char>, Moment>| is_online(p, statuses)).len() as int
}

/// The number of peers that are online.
pub fn count_online(
    peers: &Vec<TrustedPeer>,
    statuses: &TextMap<PeerConnectionStatus>,
) -> (r: i32)
    requires
        peers@.len() <= i32::MAX,
    ensures
        r == online_count(peer_views(peers@), statuses@),
        0 <= r <= peers@.len(),
{
    let mut n: i32 = 0;
    let ghost views = peer_views(peers@);
    let ghost keep = |p: TrustedPeer<Seq<char>, Moment>| is_online(p, statuses@);
    proof {
        seqs::lemma_filter_start(views, keep);
    }
    for i in 0..peers.len()
        invariant
            peers@.len() <= i32::MAX,
            views == peer_views(peers@),
            keep == (|p: TrustedPeer<Seq<char>, Moment>| is_online(p, statuses@)),
            n == views.take(i as int).filter(keep).len(),
            0 <= n <= i,
    {
        proof {
            seqs::lemma_filter_step(views, keep, i as int);
        }
        if let Some(status) = statuses.get(peers[i].id.as_str()) {
            if status.online {
                n = n + 1;
            }
        }
    }
    proof {
        seqs::lemma_filter_end(views, keep);
    }
    n
}

/// The last row with the identifier `id`.
pub open spec fn last_row(
    current: Seq<PeerItem<Seq<char>>>,
    id: Seq<char>,
) -> Option<PeerItem<Seq<char>>>
    decreases current.len(),
{
    if current.len() == 0 {
        None
    } else if current.last().id == id {
        Some(current.last())
    } else {
        last_row(current.drop_last(), id)
    }
}

/// A new row with what the user had set in the old one. A peer that is paused or that we have
/// removed shows as offline, whatever its connection is.
pub open spec fn kept_row(
    item: PeerItem<Seq<char>>,
    current: Seq<PeerItem<Seq<char>>>,
) -> PeerItem<Seq<char>> {
    match last_row(current, item.id) {
        Some(row) => PeerItem {
            expanded: row.expanded,
            connected: row.connected,
            revoked: row.revoked,
            we_revoked: row.we_revoked,
            status: if !row.connected || row.we_revoked {
                "offline"@
            } else {
                item.status
            },
            ..item
        },
        None => item,
    }
}

/// The last of the current rows with an identifier.
fn find_last(current: &Vec<PeerItem>, id: &str) -> (r: Option<usize>)
    ensures
        match r {
            Some(i) => i < current@.len() && last_row(rows(current@), id@) == Some(
                current@[i as int]@,
            ),
            None => last_row(rows(current@), id@) is None,
        },
{
    let mut i: usize = current.len();
    assert(rows(current@).take(i as int) =~= rows(current@));
    while i > 0
        invariant
            i <= current@.len(),
            last_row(rows(current@), id@) == last_row(rows(current@).take(i as int), id@),
        decreases i,
    {
        let ghost part = rows(current@).take(i as int);
        assert(part.last() == current@[i - 1]@);
        assert(part.drop_last() =~= rows(current@).take(i - 1));
        i = i - 1;
        if same_text(current[i].id.as_str(), id) {
            return Some(i);
        }
    }
    None
}

/// A new row with what the user had set in the current one.
fn keep_row(item: &PeerItem, current: &Vec<PeerItem>) -> (r: PeerItem)
    ensures
        r@ == kept_row(item@, rows(current@)),
{
    match find_last(current, item.id.as_str()) {
        Some(k) => {
            let row = &current[k];
            let status = if !row.connected || row.we_revoked {
                "offline".to_owned()
            } else {
                item.status.clone()
            };
            PeerItem {
                expanded: row.expanded,
                connected: row.connected,
                revoked: row.revoked,
                we_revoked: row.we_revoked,
                status,
                ..item.clone()
            }
        },
        None => item.clone(),
    }
}

/// Gives new rows what the user had set in the current ones.
pub fn keep_ui_state(items: Vec<PeerItem>, current: &Vec<PeerItem>) -> (r: Vec<PeerItem>)
    ensures
        rows(r@) == rows(items@).map_values(
            |item: PeerItem<Seq<char>>| kept_row(item, rows(current@)),
        ),
{
    let mut out: Vec<PeerItem> = Vec::new();
    for i in 0..items.len()
        invariant
            out@.len() == i,
            forall|j: int|
                0 <= j < i ==> (#[trigger] out@[j])@ == kept_row(items@[j]@, rows(current@)),
    {
        let item = keep_row(&items[i], current);
        out.push(item);
    }
    assert(rows(out@) =~= rows(items@).map_values(
        |item: PeerItem<Seq<char>>| kept_row(item, rows(current@)),
    ));
    out
}

/// The whole refresh of the list: every peer's row, with what is known of its connection and with
/// what the user had set.
pub open spec fn refreshed_rows(
    peers: Seq<TrustedPeer>,
    statuses: Map<Seq<char>, PeerConnectionStatus>,
    now: Moment,
    current: Seq<PeerItem<Seq<char>>>,
) -> Seq<PeerItem<Seq<char>>> {
    peers.map_values(
        |p: TrustedPeer| kept_row(known_row(fresh_item(p@), statuses, now), current),
    )
}

/// Update the peers UI from the peer store with status information.
/// Preserves UI state (like expanded) from the current rows.
pub fn refresh_peer_rows(
    peers: &Vec<TrustedPeer>,
    statuses: &TextMap<PeerConnectionStatus>,
    now: &UtcTime,
    current: &Vec<PeerItem>,
) -> (r: Vec<PeerItem>)
    requires
        all_showable(peers@),
    ensures
        rows(r@) == refreshed_rows(peers@, statuses@, now@, rows(current@)),
{
    let mut items = peer_items(peers);
    let ghost fresh = items@;
    apply_statuses(&mut items, statuses, now);
    let ghost known = items@;
    let r = keep_ui_state(items, current);
    assert(rows(r@) =~= refreshed_rows(peers@, statuses@, now@, rows(current@))) by {
        assert forall|i: int| 0 <= i < peers@.len() implies #[trigger] rows(r@)[i] == kept_row(
            known_row(fresh_item(peers@[i]@), statuses@, now@),
            rows(current@),
        ) by {
            assert(rows(fresh)[i] == fresh_rows(peers@)[i]);
            assert(rows(known)[i] == known_row(rows(fresh)[i], statuses@, now@));
            assert(rows(r@)[i] == kept_row(rows(known)[i], rows(current@)));
        }
    }
    r
}

/// Whether files can be pushed to the peer of a row.
pub open spec fn takes_pushes(count_our_removals: bool) -> spec_fn(PeerItem<Seq<char>>) -> bool {
    |item: PeerItem<Seq<char>>|
        item.can_push && !item.revoked && !(count_our_removals && item.we_revoked)
}

/// The rows to which files can be pushed.
pub open spec fn pushable(items: Seq<PeerItem<Seq<char>>>, count_our_removals: bool) -> Seq<
    PeerItem<Seq<char>>,
> {
    items.filter(takes_pushes(count_our_removals))
}

/// The names and identifiers of the peers to which files can be pushed, in the order of the list:
/// those that allow it and have not removed us. Peers that we have removed count, unless
/// `count_our_removals` is set.
pub fn pushable_peers(items: &Vec<PeerItem>, count_our_removals: bool) -> (r: (
    Vec<String>,
    Vec<String>,
))
    ensures
        texts(r.0@) == pushable(rows(items@), count_our_removals).map_values(
            |item: PeerItem<Seq<char>>| item.name,
        ),
        texts(r.1@) == pushable(rows(items@), count_our_removals).map_values(
            |item: PeerItem<Seq<char>>| item.id,
        ),
{
    let mut names: Vec<String> = Vec::new();
    let mut ids: Vec<String> = Vec::new();
    let ghost all = rows(items@);
    let ghost keep = takes_pushes(count_our_removals);
    proof {
        seqs::lemma_filter_start(all, keep);
    }
    for i in 0..items.len()
        invariant
            all == rows(items@),
            keep == takes_pushes(count_our_removals),
            names@.len() == all.take(i as int).filter(keep).len(),
            ids@.len() == all.take(i as int).filter(keep).len(),
            forall|j: int|
                0 <= j < names@.len() ==> (#[trigger] names@[j])@ == all.take(i as int).filter(
                    keep,
                )[j].name,
            forall|j: int|
                0 <= j < ids@.len() ==> (#[trigger] ids@[j])@ == all.take(i as int).filter(
                    keep,
                )[j].id,
    {
        proof {
            seqs::lemma_filter_step(all, keep, i as int);
        }
        let item = &items[i];
        if item.can_push && !item.revoked && !(count_our_removals && item.we_revoked) {
            names.push(item.name.clone());
            ids.push(item.id.clone());
        }
    }
    proof {
        seqs::lemma_filter_end(all, keep);
        let f = pushable(all, count_our_removals);
        assert(texts(names@) =~= f.map_values(|item: PeerItem<Seq<char>>| item.name));
        assert(texts(ids@) =~= f.map_values(|item: PeerItem<Seq<char>>| item.id));
    }
    (names, ids)
}

/// The peers that are pinged: those that are not paused.
pub open spec fn pinged_peers(
    peers: Seq<TrustedPeer<Seq<char>, Moment>>,
    paused: Set<Seq<char>>,
) -> Seq<TrustedPeer<Seq<char>, Moment>> {
    peers.filter(|p: TrustedPeer<Seq<char>, Moment>| !paused.contains(p.id))
}

/// The peers that are pinged: those that the user has not paused.
pub fn peers_to_ping(peers: &Vec<TrustedPeer>, disconnected: &TextSet) -> (r: Vec<String>)
    ensures
        texts(r@) == pinged_peers(peer_views(peers@), disconnected@).map_values(
            |p: TrustedPeer<Seq<char>, Moment>| p.id,
        ),
{
    let mut ids: Vec<String> = Vec::new();
    let ghost all = peer_views(peers@);
    let ghost keep = |p: TrustedPeer<Seq<char>, Moment>| !disconnected@.contains(p.id);
    proof {
        seqs::lemma_filter_start(all, keep);
    }
    for i in 0..peers.len()
        invariant
            all == peer_views(peers@),
            keep == (|p: TrustedPeer<Seq<char>, Moment>| !disconnected@.contains(p.id)),
            ids@.len() == all.take(i as int).filter(keep).len(),
            forall|j: int|
                0 <= j < ids@.len() ==> (#[trigger] ids@[j])@ == all.take(i as int).filter(
                    keep,
                )[j].id,
    {
        proof {
            seqs::lemma_filter_step(all, keep, i as int);
        }
        if !disconnected.contains(peers[i].id.as_str()) {
            ids.push(peers[i].id.clone());
        }
    }
    proof {
        seqs::lemma_filter_end(all, keep);
        assert(texts(ids@) =~= all.filter(keep).map_values(
            |p: TrustedPeer<Seq<char>, Moment>| p.id,
        ));
    }
    ids
}

// ---------------------------------------------------------------------------
// Changes to one row

/// What a speed test found, as text.
#[derive(Debug, PartialEq, Eq)]
pub struct SpeedResult<T = String> {
    pub upload: T,
    pub download: T,
    /// The round trip in milliseconds.
    pub latency: T,
}

impl View for SpeedResult<String> {
    type V = SpeedResult<Seq<char>>;

    open spec fn view(&self) -> SpeedResult<Seq<char>> {
        SpeedResult { upload: self.upload@, download: self.download@, latency: self.latency@ }
    }
}

/// A change to the row of one peer.
#[derive(Debug, PartialEq, Eq)]
pub enum RowChange<T = String> {
    /// The peer's do-not-disturb mode.
    Dnd { mode: T, message: T },
    /// The peer has removed us.
    Revoked,
    /// We have removed the peer.
    WeRevoked,
    /// The user has paused the peer.
    Paused,
    /// The user has resumed the peer.
    Resumed,
    /// The user has folded or unfolded the row.
    Expanded { expanded: bool },
    /// What we allow the peer.
    Allowed { push: bool, pull: bool, browse: bool, screen_view: bool },
    /// A guest's own request for more time was granted.
    Extended { expires_at: T, time_remaining: T },
    /// The user has given a guest more time.
    ExtendedTo { expires_at: T, time_remaining: T, count: i32 },
    /// A guest is a guest no longer.
    Promoted,
    /// A guest asks to be one no longer.
    PromotionPending,
    /// A speed test has begun.
    SpeedTestStarted,
    /// A speed test has ended.
    SpeedTestDone { result: Option<SpeedResult<T>> },
    /// Chat messages not read yet.
    Unread { count: i32 },
}

impl View for RowChange<String> {
    type V = RowChange<Seq<char>>;

    open spec fn view(&self) -> RowChange<Seq<char>> {
        match *self {
            RowChange::Dnd { mode, message } => RowChange::Dnd { mode: mode@, message: message@ },
            RowChange::Revoked => RowChange::Revoked,
            RowChange::WeRevoked => RowChange::WeRevoked,
            RowChange::Paused => RowChange::Paused,
            RowChange::Resumed => RowChange::Resumed,
            RowChange::Expanded { expanded } => RowChange::Expanded { expanded },
            RowChange::Allowed { push, pull, browse, screen_view } => RowChange::Allowed {
                push,
                pull,
                browse,
                screen_view,
            },
            RowChange::Extended { expires_at, time_remaining } => RowChange::Extended {
                expires_at: expires_at@,
                time_remaining: time_remaining@,
            },
            RowChange::ExtendedTo { expires_at, time_remaining, count } => RowChange::ExtendedTo {
                expires_at: expires_at@,
                time_remaining: time_remaining@,
                count,
            },
            RowChange::Promoted => RowChange::Promoted,
            RowChange::PromotionPending => RowChange::PromotionPending,
            RowChange::SpeedTestStarted => RowChange::SpeedTestStarted,
            RowChange::SpeedTestDone { result } => RowChange::SpeedTestDone {
                result: match result {
                    Some(r) => Some(r@),
                    None => None,
                },
            },
            RowChange::Unread { count } => RowChange::Unread { count },
        }
    }
}

/// A row after a change.
pub open spec fn changed_row(
    item: PeerItem<Seq<char>>,
    change: RowChange<Seq<char>>,
) -> PeerItem<Seq<char>> {
    match change {
        RowChange::Dnd { mode, message } => PeerItem {
            peer_dnd_mode: mode,
            peer_dnd_message: message,
            ..item
        },
        RowChange::Revoked => PeerItem { revoked: true, status: "revoked"@, ..item },
        RowChange::WeRevoked => PeerItem { we_revoked: true, status: "offline"@, ..item },
        RowChange::Paused => PeerItem { connected: false, status: "offline"@, ..item },
        RowChange::Resumed => PeerItem { connected: true, status: "connecting"@, ..item },
        RowChange::Expanded { expanded } => PeerItem { expanded, ..item },
        RowChange::Allowed { push, pull, browse, screen_view } => PeerItem {
            allow_push: push,
            allow_pull: pull,
            allow_browse: browse,
            allow_screen_view: screen_view,
            ..item
        },
        RowChange::Extended { expires_at, time_remaining } => PeerItem {
            expires_at,
            time_remaining,
            extension_count: (item.extension_count + 1) as i32,
            ..item
        },
        RowChange::ExtendedTo { expires_at, time_remaining, count } => PeerItem {
            expires_at,
            time_remaining,
            extension_count: count,
            ..item
        },
        RowChange::Promoted => PeerItem {
            is_guest: false,
            expires_at: blank(),
            time_remaining: blank(),
            extension_count: 0,
            promotion_pending: false,
            ..item
        },
        RowChange::PromotionPending => PeerItem { promotion_pending: true, ..item },
        RowChange::SpeedTestStarted => PeerItem { speed_test_running: true, ..item },
        RowChange::SpeedTestDone { result } => match result {
            Some(r) => PeerItem {
                speed_test_running: false,
                speed_test_upload: r.upload,
                speed_test_download: r.download,
                speed_test_latency: r.latency + " ms"@,
                ..item
            },
            None => PeerItem { speed_test_running: false, ..item },
        },
        RowChange::Unread { count } => PeerItem { unread_count: count, ..item },
    }
}

/// Whether a change can be made: a guest's extensions are counted within 32 bits.
pub open spec fn can_change(item: PeerItem<Seq<char>>, change: RowChange<Seq<char>>) -> bool {
    change is Extended ==> item.extension_count < i32::MAX
}

/// A copy of a row with another status word.
fn with_word(item: &PeerItem, word: &str) -> (r: PeerItem)
    ensures
        r@ == (PeerItem { status: word@, ..item@ }),
{
    PeerItem { status: word.to_owned(), ..item.clone() }
}

fn change_connection(item: &PeerItem, change: &RowChange) -> (r: PeerItem)
    requires
        change@ is Revoked || change@ is WeRevoked || change@ is Paused || change@ is Resumed,
    ensures
        r@ == changed_row(item@, change@),
{
    match change {
        RowChange::Revoked => PeerItem { revoked: true, ..with_word(item, "revoked") },
        RowChange::WeRevoked => PeerItem { we_revoked: true, ..with_word(item, "offline") },
        RowChange::Paused => PeerItem { connected: false, ..with_word(item, "offline") },
        _ => PeerItem { connected: true, ..with_word(item, "connecting") },
    }
}

/// A copy of a row with another end of a guest's access.
fn with_end(item: &PeerItem, expires_at: &str, time_remaining: &str) -> (r: PeerItem)
    ensures
        r@ == (PeerItem { expires_at: expires_at@, time_remaining: time_remaining@, ..item@ }),
{
    PeerItem {
        expires_at: expires_at.to_owned(),
        time_remaining: time_remaining.to_owned(),
        ..item.clone()
    }
}

fn change_guest(item: &PeerItem, change: &RowChange) -> (r: PeerItem)
    requires
        change@ is Extended || change@ is ExtendedTo || change@ is Promoted
            || change@ is PromotionPending,
        can_change(item@, change@),
    ensures
        r@ == changed_row(item@, change@),
{
    match change {
        RowChange::Extended { expires_at, time_remaining } => PeerItem {
            extension_count: item.extension_count + 1,
            ..with_end(item, expires_at.as_str(), time_remaining.as_str())
        },
        RowChange::ExtendedTo { expires_at, time_remaining, count } => PeerItem {
            extension_count: *count,
            ..with_end(item, expires_at.as_str(), time_remaining.as_str())
        },
        RowChange::Promoted => PeerItem {
            is_guest: false,
            extension_count: 0,
            promotion_pending: false,
            ..with_end(item, String::new().as_str(), String::new().as_str())
        },
        _ => PeerItem { promotion_pending: true, ..item.clone() },
    }
}

fn change_speed_test(item: &PeerItem, result: &Option<SpeedResult>) -> (r: PeerItem)
    ensures
        r@ == changed_row(
            item@,
            (RowChange::SpeedTestDone {
                result: match *result {
                    Some(r) => Some(r@),
                    None => None,
                },
            }),
        ),
{
    match result {
        Some(r) => PeerItem {
            speed_test_running: false,
            speed_test_upload: r.upload.clone(),
            speed_test_download: r.download.clone(),
            speed_test_latency: join2(r.latency.as_str(), " ms"),
            ..item.clone()
        },
        None => PeerItem { speed_test_running: false, ..item.clone() },
    }
}

fn with_dnd(item: &PeerItem, mode: &str, message: &str) -> (r: PeerItem)
    ensures
        r@ == (PeerItem { peer_dnd_mode: mode@, peer_dnd_message: message@, ..item@ }),
{
    PeerItem {
        peer_dnd_mode: mode.to_owned(),
        peer_dnd_message: message.to_owned(),
        ..item.clone()
    }
}

fn with_expanded(item: &PeerItem, expanded: bool) -> (r: PeerItem)
    ensures
        r@ == (PeerItem { expanded, ..item@ }),
{
    PeerItem { expanded, ..item.clone() }
}

fn with_allowed(
    item: &PeerItem,
    allow_push: bool,
    allow_pull: bool,
    allow_browse: bool,
    allow_screen_view: bool,
) -> (r: PeerItem)
    ensures
        r@ == (PeerItem { allow_push, allow_pull, allow_browse, allow_screen_view, ..item@ }),
{
    PeerItem { allow_push, allow_pull, allow_browse, allow_screen_view, ..item.clone() }
}

fn with_test_running(item: &PeerItem) -> (r: PeerItem)
    ensures
        r@ == (PeerItem { speed_test_running: true, ..item@ }),
{
    PeerItem { speed_test_running: true, ..item.clone() }
}

fn with_unread(item: &PeerItem, unread_count: i32) -> (r: PeerItem)
    ensures
        r@ == (PeerItem { unread_count, ..item@ }),
{
    PeerItem { unread_count, ..item.clone() }
}

fn change_row(item: &PeerItem, change: &RowChange) -> (r: PeerItem)
    requires
        can_change(item@, change@),
    ensures
        r@ == changed_row(item@, change@),
{
    match change {
        RowChange::Dnd { mode, message } => with_dnd(item, mode.as_str(), message.as_str()),
        RowChange::Expanded { expanded } => with_expanded(item, *expanded),
        RowChange::Allowed { push, pull, browse, screen_view } => with_allowed(
            item,
            *push,
            *pull,
            *browse,
            *screen_view,
        ),
        RowChange::SpeedTestStarted => with_test_running(item),
        RowChange::SpeedTestDone { result } => change_speed_test(item, result),
        RowChange::Unread { count } => with_unread(item, *count),
        RowChange::Extended { .. } => change_guest(item, change),
        RowChange::ExtendedTo { .. } => change_guest(item, change),
        RowChange::Promoted => change_guest(item, change),
        RowChange::PromotionPending => change_guest(item, change),
        RowChange::Revoked => change_connection(item, change),
        RowChange::WeRevoked => change_connection(item, change),
        RowChange::Paused => change_connection(item, change),
        RowChange::Resumed => change_connection(item, change),
    }
}

/// The place of the first row with the identifier `id`, or the number of rows where none has it.
pub open spec fn first_row(items: Seq<PeerItem<Seq<char>>>, id: Seq<char>) -> int
    decreases items.len(),
{
    if items.len() == 0 || items[0].id == id {
        0
    } else {
        1 + first_row(items.drop_first(), id)
    }
}

/// The rows after a change to the first row with the identifier `id`, if there is one.
pub open spec fn changed_rows(
    items: Seq<PeerItem<Seq<char>>>,
    id: Seq<char>,
    change: RowChange<Seq<char>>,
) -> Seq<PeerItem<Seq<char>>> {
    let i = first_row(items, id);
    if i < items.len() {
        items.update(i, changed_row(items[i], change))
    } else {
        items
    }
}

/// Whether a change can be made to the first row with the identifier `id`, if there is one.
pub open spec fn can_change_first(
    items: Seq<PeerItem<Seq<char>>>,
    id: Seq<char>,
    change: RowChange<Seq<char>>,
) -> bool {
    let i = first_row(items, id);
    i < items.len() ==> can_change(items[i], change)
}

proof fn lemma_first_row(items: Seq<PeerItem<Seq<char>>>, id: Seq<char>, i: int)
    requires
        0 <= i <= items.len(),
        forall|j: int| 0 <= j < i ==> (#[trigger] items[j]).id != id,
        i < items.len() ==> items[i].id == id,
    ensures
        first_row(items, id) == i,
    decreases i,
{
    if i > 0 {
        let rest = items.drop_first();
        assert(items[0].id != id);
        assert forall|j: int| 0 <= j < i - 1 implies (#[trigger] rest[j]).id != id by {
            assert(rest[j] == items[j + 1]);
        }
        lemma_first_row(rest, id, i - 1);
    }
}

/// The place of the first row with an identifier.
pub fn find_row(items: &Vec<PeerItem>, id: &str) -> (r: Option<usize>)
    ensures
        match r {
            Some(i) => i < items@.len() && i == first_row(rows(items@), id@),
            None => first_row(rows(items@), id@) == items@.len(),
        },
{
    for i in 0..items.len()
        invariant
            forall|j: int| 0 <= j < i ==> (#[trigger] rows(items@)[j]).id != id@,
    {
        if same_text(items[i].id.as_str(), id) {
            proof {
                lemma_first_row(rows(items@), id@, i as int);
            }
            return Some(i);
        }
        assert(rows(items@)[i as int].id != id@);
    }
    proof {
        lemma_first_row(rows(items@), id@, items@.len() as int);
    }
    None
}

/// Changes the first row with an identifier, and says which row that is. Without such a row nothing
/// changes.
pub fn change_peer_row(items: &mut Vec<PeerItem>, id: &str, change: &RowChange) -> (r: Option<
    usize,
>)
    requires
        can_change_first(rows(old(items)@), id@, change@),
    ensures
        rows(final(items)@) == changed_rows(rows(old(items)@), id@, change@),
        match r {
            Some(i) => i == first_row(rows(old(items)@), id@) && i < old(items)@.len(),
            None => first_row(rows(old(items)@), id@) == old(items)@.len(),
        },
{
    match find_row(items, id) {
        Some(i) => {
            let ghost before = items@;
            assert(rows(before)[i as int] == before[i as int]@);
            let item = change_row(&items[i], change);
            items[i] = item;
            assert(rows(items@) =~= changed_rows(rows(before), id@, change@));
            Some(i)
        },
        None => None,
    }
}

/// Whether a change can be made to the first row with an identifier.
pub fn can_change_row(items: &Vec<PeerItem>, id: &str, change: &RowChange) -> (r: bool)
    ensures
        r == can_change_first(rows(items@), id@, change@),
{
    match change {
        RowChange::Extended { .. } => match find_row(items, id) {
            Some(i) => {
                assert(rows(items@)[i as int] == items@[i as int]@);
                items[i].extension_count < i32::MAX
            },
            None => true,
        },
        _ => true,
    }
}

/// The time that an extension leaves to a guest, by its two largest units.
pub open spec fn access_left(expiry: Moment, now: Moment) -> Seq<char> {
    let secs = secs_between(expiry, now);
    if !later(expiry, now) {
        "Expired"@
    } else if secs < 3600 {
        signed_decimal(secs / 60) + "m"@
    } else if secs < 86400 {
        hours_and_minutes(secs)
    } else {
        days_and_hours(secs)
    }
}

/// The time that an extension until `expiry` leaves to a guest at the time `now`.
pub fn format_access_left(expiry: &UtcTime, now: &UtcTime) -> (r: String)
    ensures
        r@ == access_left(expiry@, now@),
{
    if expiry.is_after(now) {
        let secs: i64 = seconds_between(expiry, now);
        if secs < 3600 {
            join2(integer_text(secs / 60).as_str(), "m")
        } else if secs < 86400 {
            two_units(secs / 3600, "h ", secs % 3600 / 60, "m")
        } else {
            two_units(secs / 86400, "d ", secs % 86400 / 3600, "h")
        }
    } else {
        "Expired".to_owned()
    }
}

// ---------------------------------------------------------------------------
// Laws

/// A refresh keeps, in every row that was there before, what the user had set: whether it is
/// unfolded, paused, or removed on either side.
pub proof fn refresh_keeps_user_settings(
    peers: Seq<TrustedPeer>,
    statuses: Map<Seq<char>, PeerConnectionStatus>,
    now: Moment,
    current: Seq<PeerItem<Seq<char>>>,
    i: int,
)
    requires
        0 <= i < peers.len(),
        last_row(current, peers[i]@.id) is Some,
    ensures
        ({
            let new = refreshed_rows(peers, statuses, now, current)[i];
            let old_row = last_row(current, peers[i]@.id)->0;
            &&& new.id == peers[i]@.id
            &&& new.expanded == old_row.expanded
            &&& new.connected == old_row.connected
            &&& new.revoked == old_row.revoked
            &&& new.we_revoked == old_row.we_revoked
        }),
{
}

/// A peer that the user has paused, or that we have removed, shows as offline after a refresh,
/// whatever is known of its connection.
pub proof fn paused_peers_show_offline(
    peers: Seq<TrustedPeer>,
    statuses: Map<Seq<char>, PeerConnectionStatus>,
    now: Moment,
    current: Seq<PeerItem<Seq<char>>>,
    i: int,
)
    requires
        0 <= i < peers.len(),
        last_row(current, peers[i]@.id) matches Some(row) && (!row.connected || row.we_revoked),
    ensures
        refreshed_rows(peers, statuses, now, current)[i].status == "offline"@,
{
}

/// A refresh shows every peer once, in the order of the peers, and a peer that had no row before is
/// connected and folded.
pub proof fn refresh_shows_every_peer(
    peers: Seq<TrustedPeer>,
    statuses: Map<Seq<char>, PeerConnectionStatus>,
    now: Moment,
    current: Seq<PeerItem<Seq<char>>>,
)
    ensures
        refreshed_rows(peers, statuses, now, current).len() == peers.len(),
        forall|i: int|
            0 <= i < peers.len() ==> (#[trigger] refreshed_rows(peers, statuses, now, current)[i]).id
                == peers[i]@.id,
        forall|i: int|
            0 <= i < peers.len() && last_row(current, peers[i]@.id) is None ==> (
            #[trigger] refreshed_rows(peers, statuses, now, current)[i]).connected
                && !refreshed_rows(peers, statuses, now, current)[i].expanded,
{
}

/// A change touches the first row with its identifier and no other.
pub proof fn change_touches_one_row(
    items: Seq<PeerItem<Seq<char>>>,
    id: Seq<char>,
    change: RowChange<Seq<char>>,
)
    ensures
        changed_rows(items, id, change).len() == items.len(),
        forall|j: int|
            0 <= j < items.len() && j != first_row(items, id) ==> changed_rows(items, id, change)[j]
                == items[j],
        first_row(items, id) < items.len() ==> items[first_row(items, id)].id == id,
{
    lemma_first_row_found(items, id);
}

proof fn lemma_first_row_found(items: Seq<PeerItem<Seq<char>>>, id: Seq<char>)
    ensures
        0 <= first_row(items, id) <= items.len(),
        first_row(items, id) < items.len() ==> items[first_row(items, id)].id == id,
    decreases items.len(),
{
    if items.len() > 0 && items[0].id != id {
        lemma_first_row_found(items.drop_first(), id);
    }
}

/// No change makes a row another peer's: names and identifiers stay.
pub proof fn change_keeps_identity(item: PeerItem<Seq<char>>, change: RowChange<Seq<char>>)
    ensures
        changed_row(item, change).id == item.id,
        changed_row(item, change).name == item.name,
        changed_row(item, change).endpoint_id == item.endpoint_id,
{
}

/// Files are offered only to peers that allow it, have not removed us and have not been removed.
pub proof fn only_willing_peers_are_offered(items: Seq<PeerItem<Seq<char>>>)
    ensures
        forall|i: int|
            0 <= i < pushable(items, true).len() ==> (#[trigger] pushable(items, true)[i]).can_push
                && !pushable(items, true)[i].revoked && !pushable(items, true)[i].we_revoked
                && items.contains(pushable(items, true)[i]),
{
    seqs::lemma_filter_keeps(items, takes_pushes(true));
}

/// The last row of several with one identifier counts, and where no row has it there is none.
pub proof fn the_last_row_counts(current: Seq<PeerItem<Seq<char>>>, id: Seq<char>, k: int)
    requires
        -1 <= k < current.len(),
        k >= 0 ==> current[k].id == id,
        forall|j: int| k < j < current.len() ==> (#[trigger] current[j]).id != id,
    ensures
        k >= 0 ==> last_row(current, id) == Some(current[k]),
        k < 0 ==> last_row(current, id) is None,
    decreases current.len(),
{
    if current.len() > 0 {
        assert(current.last() == current[current.len() - 1]);
        if k < current.len() - 1 {
            the_last_row_counts(current.drop_last(), id, k);
        }
    }
}

/// A refresh gives every peer a row of its own, in the order of the peers. Where the peer had a row
/// before, `k`, what the user had set there stays, and a peer that is paused or removed shows as
/// offline. Any other peer shows as online just where its status says so, and as offline where there
/// is none.
pub proof fn refreshed_rows_show_their_peers(
    peers: Seq<TrustedPeer>,
    statuses: Map<Seq<char>, PeerConnectionStatus>,
    now: Moment,
    current: Seq<PeerItem>,
    r: Seq<PeerItem>,
    i: int,
    k: int,
)
    requires
        rows(r) == refreshed_rows(peers, statuses, now, rows(current)),
        0 <= i < peers.len(),
        -1 <= k < current.len(),
        k >= 0 ==> current[k].id@ == peers[i].id@,
        forall|j: int| k < j < current.len() ==> (#[trigger] current[j]).id@ != peers[i].id@,
    ensures
        r.len() == peers.len(),
        r[i].id@ == peers[i].id@,
        r[i].name@ == peers[i].name@,
        k >= 0 ==> r[i].expanded == current[k].expanded && r[i].connected == current[k].connected
            && r[i].revoked == current[k].revoked && r[i].we_revoked == current[k].we_revoked,
        k < 0 ==> !r[i].expanded && r[i].connected && !r[i].revoked && !r[i].we_revoked,
        k >= 0 && (!current[k].connected || current[k].we_revoked) ==> r[i].status@ == "offline"@,
        k < 0 || (current[k].connected && !current[k].we_revoked) ==> r[i].status@ == if (
        statuses.contains_key(peers[i].id@) && statuses[peers[i].id@].online) {
            "online"@
        } else {
            "offline"@
        },
{
    let new = refreshed_rows(peers, statuses, now, rows(current));
    assert(rows(r).len() == r.len());
    assert(rows(r)[i] == r[i]@);
    assert(new[i] == kept_row(
        known_row(fresh_item(peers[i]@), statuses, now),
        rows(current),
    ));
    assert forall|j: int| k < j < rows(current).len() implies (#[trigger] rows(current)[j]).id
        != peers[i].id@ by {
        assert(rows(current)[j] == current[j]@);
    }
    if k >= 0 {
        assert(rows(current)[k] == current[k]@);
    }
    the_last_row_counts(rows(current), peers[i].id@, k);
}

/// What the user has set in a row is whether it is unfolded, paused, or removed on either side, and
/// its status word may follow from that: keeping it changes nothing else. What is known of a
/// connection is taken into the row of its peer, and a row whose peer has no status stays as it is.
pub proof fn kept_rows_keep_the_rest(
    item: PeerItem<Seq<char>>,
    current: Seq<PeerItem<Seq<char>>>,
    statuses: Map<Seq<char>, PeerConnectionStatus>,
    now: Moment,
)
    ensures
        item == (PeerItem {
            expanded: item.expanded,
            connected: item.connected,
            revoked: item.revoked,
            we_revoked: item.we_revoked,
            status: item.status,
            ..kept_row(item, current)
        }),
        last_row(current, item.id) is None ==> kept_row(item, current) == item,
        statuses.contains_key(item.id) ==> known_row(item, statuses, now) == with_status(
            item,
            statuses[item.id]@,
            now,
        ),
        !statuses.contains_key(item.id) ==> known_row(item, statuses, now) == item,
{
}

/// Filling the list, taking in what is known of the connections and keeping what the user has set
/// make up a refresh, and each keeps the number and the order of the rows.
pub proof fn refreshing_is_done_in_three_steps(
    peers: Seq<TrustedPeer>,
    statuses: Map<Seq<char>, PeerConnectionStatus>,
    now: Moment,
    current: Seq<PeerItem<Seq<char>>>,
    i: int,
)
    requires
        0 <= i < peers.len(),
    ensures
        fresh_rows(peers).len() == peers.len(),
        fresh_rows(peers)[i].id == peers[i].id@,
        fresh_rows(peers)[i].name == peers[i].name@,
        refreshed_rows(peers, statuses, now, current)[i] == kept_row(
            known_row(fresh_rows(peers)[i], statuses, now),
            current,
        ),
{
}

/// A peer is counted as online just where its status says so: of any two lists together as many as
/// of each of them, and a single peer once or not at all.
pub proof fn online_peers_are_counted(
    a: Seq<TrustedPeer<Seq<char>, Moment>>,
    b: Seq<TrustedPeer<Seq<char>, Moment>>,
    p: TrustedPeer<Seq<char>, Moment>,
    statuses: Map<Seq<char>, PeerConnectionStatus>,
)
    ensures
        online_count(a + b, statuses) == online_count(a, statuses) + online_count(b, statuses),
        statuses.contains_key(p.id) && statuses[p.id].online ==> online_count(seq![p], statuses)
            == 1,
        !statuses.contains_key(p.id) || !statuses[p.id].online ==> online_count(seq![p], statuses)
            == 0,
{
    let keep = |p: TrustedPeer<Seq<char>, Moment>| is_online(p, statuses);
    seqs::lemma_filter_adds(a, b, keep);
    seqs::lemma_filter_one(p, keep);
}

/// Every peer that allows it and has not removed us is offered files, and no other; one that we have
/// removed is left out where that counts. The order is the one of the list.
pub proof fn willing_peers_are_offered(
    a: Seq<PeerItem<Seq<char>>>,
    b: Seq<PeerItem<Seq<char>>>,
    item: PeerItem<Seq<char>>,
    count_our_removals: bool,
)
    ensures
        pushable(a + b, count_our_removals) == pushable(a, count_our_removals) + pushable(
            b,
            count_our_removals,
        ),
        item.can_push && !item.revoked && !item.we_revoked ==> pushable(
            seq![item],
            count_our_removals,
        ) == seq![item],
        item.can_push && !item.revoked && item.we_revoked ==> pushable(seq![item], false)
            == seq![item] && pushable(seq![item], true).len() == 0,
        !item.can_push || item.revoked ==> pushable(seq![item], count_our_removals).len() == 0,
{
    let keep = takes_pushes(count_our_removals);
    seqs::lemma_filter_adds(a, b, keep);
    seqs::lemma_filter_one(item, keep);
    seqs::lemma_filter_one(item, takes_pushes(true));
    seqs::lemma_filter_one(item, takes_pushes(false));
}

/// Every peer that is not paused is pinged, in the order of the peers, and none that is.
pub proof fn peers_are_pinged_unless_paused(
    a: Seq<TrustedPeer<Seq<char>, Moment>>,
    b: Seq<TrustedPeer<Seq<char>, Moment>>,
    p: TrustedPeer<Seq<char>, Moment>,
    paused: Set<Seq<char>>,
)
    ensures
        pinged_peers(a + b, paused) == pinged_peers(a, paused) + pinged_peers(b, paused),
        !paused.contains(p.id) ==> pinged_peers(seq![p], paused) == seq![p],
        paused.contains(p.id) ==> pinged_peers(seq![p], paused).len() == 0,
{
    let keep = |p: TrustedPeer<Seq<char>, Moment>| !paused.contains(p.id);
    seqs::lemma_filter_adds(a, b, keep);
    seqs::lemma_filter_one(p, keep);
}

/// A peer that removes us, is removed, paused or resumed shows so in its row, and nothing else in the
/// row changes.
#[verifier::rlimit(60)]
pub proof fn connections_change_as_told(before: PeerItem, change: RowChange, after: PeerItem)
    requires
        can_change(before@, change@),
        after@ == changed_row(before@, change@),
    ensures
        change is Revoked ==> after.revoked && after.status@ == "revoked"@ && before@ == (PeerItem {
            revoked: before@.revoked,
            status: before@.status,
            ..after@
        }),
        change is WeRevoked ==> after.we_revoked && after.status@ == "offline"@ && before@ == (
        PeerItem { we_revoked: before@.we_revoked, status: before@.status, ..after@ }),
        change is Paused ==> !after.connected && after.status@ == "offline"@ && before@ == (
        PeerItem { connected: before@.connected, status: before@.status, ..after@ }),
        change is Resumed ==> after.connected && after.status@ == "connecting"@ && before@ == (
        PeerItem { connected: before@.connected, status: before@.status, ..after@ }),
{
}

/// What a peer tells of disturbances, what we allow it, and whether its row is unfolded or has unread
/// messages is set as told, and nothing else in the row changes.
#[verifier::rlimit(60)]
pub proof fn settings_of_a_row_change_as_told(before: PeerItem, change: RowChange, after: PeerItem)
    requires
        can_change(before@, change@),
        after@ == changed_row(before@, change@),
    ensures
        change matches RowChange::Dnd { mode, message } ==> after.peer_dnd_mode@ == mode@
            && after.peer_dnd_message@ == message@ && before@ == (PeerItem {
            peer_dnd_mode: before@.peer_dnd_mode,
            peer_dnd_message: before@.peer_dnd_message,
            ..after@
        }),
        change matches RowChange::Expanded { expanded } ==> after.expanded == expanded && before@
            == (PeerItem { expanded: before@.expanded, ..after@ }),
        change matches RowChange::Allowed { push, pull, browse, screen_view } ==> after.allow_push
            == push && after.allow_pull == pull && after.allow_browse == browse
            && after.allow_screen_view == screen_view && before@ == (PeerItem {
            allow_push: before@.allow_push,
            allow_pull: before@.allow_pull,
            allow_browse: before@.allow_browse,
            allow_screen_view: before@.allow_screen_view,
            ..after@
        }),
        change matches RowChange::Unread { count } ==> after.unread_count == count && before@ == (
        PeerItem { unread_count: before@.unread_count, ..after@ }),
{
}

/// A guest that is given more time is shown with its new end, one that is promoted is a guest no
/// longer and has no end, and nothing else in the row changes.
#[verifier::rlimit(60)]
pub proof fn guests_change_as_told(before: PeerItem, change: RowChange, after: PeerItem)
    requires
        can_change(before@, change@),
        after@ == changed_row(before@, change@),
    ensures
        change matches RowChange::Extended { expires_at, time_remaining } ==> after.expires_at@
            == expires_at@ && after.time_remaining@ == time_remaining@ && after.extension_count
            == before.extension_count + 1 && before@ == (PeerItem {
            expires_at: before@.expires_at,
            time_remaining: before@.time_remaining,
            extension_count: before@.extension_count,
            ..after@
        }),
        change matches RowChange::ExtendedTo { expires_at, time_remaining, count }
            ==> after.expires_at@ == expires_at@ && after.time_remaining@ == time_remaining@
            && after.extension_count == count && before@ == (PeerItem {
            expires_at: before@.expires_at,
            time_remaining: before@.time_remaining,
            extension_count: before@.extension_count,
            ..after@
        }),
        change is Promoted ==> !after.is_guest && !after.promotion_pending && after.expires_at@.len()
            == 0 && after.time_remaining@.len() == 0 && after.extension_count == 0 && before@ == (
        PeerItem {
            is_guest: before@.is_guest,
            promotion_pending: before@.promotion_pending,
            expires_at: before@.expires_at,
            time_remaining: before@.time_remaining,
            extension_count: before@.extension_count,
            ..after@
        }),
        change is PromotionPending ==> after.promotion_pending && before@ == (PeerItem {
            promotion_pending: before@.promotion_pending,
            ..after@
        }),
{
}

/// A speed test shows while it runs, and what it found after it has, each number at its own place.
/// One that found nothing leaves what was there, and nothing else in the row changes.
#[verifier::rlimit(60)]
pub proof fn speed_tests_change_as_told(before: PeerItem, change: RowChange, after: PeerItem)
    requires
        can_change(before@, change@),
        after@ == changed_row(before@, change@),
    ensures
        change is SpeedTestStarted ==> after.speed_test_running && before@ == (PeerItem {
            speed_test_running: before@.speed_test_running,
            ..after@
        }),
        change matches RowChange::SpeedTestDone { result: Some(result) } ==> !after.speed_test_running
            && after.speed_test_upload@ == result.upload@ && after.speed_test_download@
            == result.download@ && after.speed_test_latency@ == result.latency@ + " ms"@ && before@
            == (PeerItem {
            speed_test_running: before@.speed_test_running,
            speed_test_upload: before@.speed_test_upload,
            speed_test_download: before@.speed_test_download,
            speed_test_latency: before@.speed_test_latency,
            ..after@
        }),
        change matches RowChange::SpeedTestDone { result: None } ==> !after.speed_test_running
            && before@ == (PeerItem { speed_test_running: before@.speed_test_running, ..after@ }),
{
}

/// Any change can be made, but that a guest's extensions cannot be counted on for ever.
pub proof fn changes_can_be_made(item: PeerItem<Seq<char>>, change: RowChange<Seq<char>>)
    ensures
        !(change is Extended) ==> can_change(item, change),
        change is Extended ==> (can_change(item, change) <==> item.extension_count
            < 0x7fff_ffff),
{
}

/// A change reaches the first row with its identifier, `i`, and leaves all others as they are; where
/// there is no such row, `i` being the number of the rows, nothing changes.
pub proof fn changes_reach_their_row(
    before: Seq<PeerItem>,
    id: Seq<char>,
    change: RowChange<Seq<char>>,
    after: Seq<PeerItem>,
    i: int,
    j: int,
)
    requires
        rows(after) == changed_rows(rows(before), id, change),
        0 <= i <= before.len(),
        i < before.len() ==> before[i].id@ == id,
        forall|h: int| 0 <= h < i ==> (#[trigger] before[h]).id@ != id,
        0 <= j < before.len(),
    ensures
        first_row(rows(before), id) == i,
        after.len() == before.len(),
        j == i ==> after[j]@ == changed_row(before[j]@, change),
        j != i ==> after[j]@ == before[j]@,
        i < before.len() ==> (can_change_first(rows(before), id, change) <==> can_change(
            before[i]@,
            change,
        )),
        i == before.len() ==> can_change_first(rows(before), id, change),
{
    assert forall|h: int| 0 <= h < i implies (#[trigger] rows(before)[h]).id != id by {
        assert(rows(before)[h] == before[h]@);
    }
    if i < before.len() {
        assert(rows(before)[i] == before[i]@);
    }
    lemma_first_row(rows(before), id, i);
    assert(rows(after).len() == after.len());
    assert(rows(after)[j] == after[j]@);
    assert(rows(before)[j] == before[j]@);
}

/// The time that is left is shown as "Expired" once the end has come, in whole minutes below an
/// hour, in hours and minutes below a day, and in days and hours above.
pub proof fn time_left_is_shown_in_large_units(
    expiry: Moment,
    now: Moment,
    days: int,
    hours: int,
    minutes: int,
    seconds: int,
)
    requires
        0 <= days,
        0 <= hours < 24,
        0 <= minutes < 60,
        0 <= seconds < 60,
        secs_between(expiry, now) == 86400 * days + 3600 * hours + 60 * minutes + seconds,
    ensures
        expiry.secs < now.secs || (expiry.secs == now.secs && expiry.nanos <= now.nanos)
            ==> access_left(expiry, now) == "Expired"@,
        expiry.secs > now.secs || (expiry.secs == now.secs && expiry.nanos > now.nanos)
            ==> access_left(expiry, now) == if days > 0 {
            signed_decimal(days) + "d "@ + signed_decimal(hours) + "h"@
        } else if hours > 0 {
            signed_decimal(hours) + "h "@ + signed_decimal(minutes) + "m"@
        } else {
            signed_decimal(minutes) + "m"@
        },
{
    let secs = secs_between(expiry, now);
    if days > 0 {
        assert(secs / 86400 == days && secs % 86400 / 3600 == hours);
    } else {
        assert(secs / 3600 == hours && secs % 3600 / 60 == minutes);
        assert(hours == 0 ==> secs / 60 == minutes);
    }
}

/// The peers that are offered come with their own names and identifiers, and whoever can be pushed to
/// is among them.
pub proof fn offers_name_their_peers(
    items: &Vec<PeerItem>,
    count_our_removals: bool,
    r: (Vec<String>, Vec<String>),
    i: int,
    offer: int,
)
    requires
        call_ensures(pushable_peers, (items, count_our_removals), r),
        0 <= i < items@.len(),
        0 <= offer < r.1@.len(),
    ensures
        r.0@.len() == r.1@.len(),
        items@[i].can_push && !items@[i].revoked && !(count_our_removals && items@[i].we_revoked)
            ==> exists|k: int|
            0 <= k < r.1@.len() && (#[trigger] r.1@[k])@ == items@[i].id@ && r.0@[k]@
                == items@[i].name@,
        exists|j: int|
            0 <= j < items@.len() && (#[trigger] items@[j]).id@ == r.1@[offer]@ && items@[j].name@
                == r.0@[offer]@ && items@[j].can_push && !items@[j].revoked && !(count_our_removals
                && items@[j].we_revoked),
{
    let all = rows(items@);
    let keep = takes_pushes(count_our_removals);
    let f = pushable(all, count_our_removals);
    assert(texts(r.0@).len() == f.len() && texts(r.1@).len() == f.len());
    assert forall|k: int| 0 <= k < f.len() implies (#[trigger] r.1@[k])@ == f[k].id && r.0@[k]@
        == f[k].name by {
        assert(texts(r.1@)[k] == f[k].id);
        assert(texts(r.0@)[k] == f[k].name);
    }
    seqs::lemma_filter_keeps(all, keep);
    assert(all[i] == items@[i]@);
    if items@[i].can_push && !items@[i].revoked && !(count_our_removals && items@[i].we_revoked) {
        seqs::lemma_filter_has(all, keep, i);
        let k = choose|k: int| 0 <= k < f.len() && f[k] == all[i];
        assert(r.1@[k]@ == items@[i].id@);
    }
    assert(keep(f[offer]) && all.contains(f[offer]));
    let j = choose|j: int| 0 <= j < all.len() && all[j] == f[offer];
    assert(all[j] == items@[j]@);
    assert(r.1@[offer]@ == f[offer].id);
}

/// Whoever is not paused is pinged, and nobody who is.
pub proof fn pings_go_to_whoever_is_not_paused(
    peers: &Vec<TrustedPeer>,
    disconnected: &TextSet,
    r: Vec<String>,
    i: int,
)
    requires
        call_ensures(peers_to_ping, (peers, disconnected), r),
        0 <= i < peers@.len(),
    ensures
        !disconnected@.contains(peers@[i].id@) ==> exists|k: int|
            0 <= k < r@.len() && (#[trigger] r@[k])@ == peers@[i].id@,
        forall|k: int| 0 <= k < r@.len() ==> !disconnected@.contains((#[trigger] r@[k])@),
{
    let all = peer_views(peers@);
    let keep = |p: TrustedPeer<Seq<char>, Moment>| !disconnected@.contains(p.id);
    let f = pinged_peers(all, disconnected@);
    assert(f == all.filter(keep));
    assert(texts(r@).len() == f.len());
    seqs::lemma_filter_keeps(all, keep);
    assert forall|k: int| 0 <= k < r@.len() implies (#[trigger] r@[k])@ == f[k].id by {
        assert(texts(r@)[k] == f[k].id);
    }
    assert forall|k: int| 0 <= k < r@.len() implies !disconnected@.contains(
        (#[trigger] r@[k])@,
    ) by {
        assert(keep(f[k]));
    }
    assert(all[i] == peers@[i]@);
    if !disconnected@.contains(peers@[i].id@) {
        seqs::lemma_filter_has(all, keep, i);
        let k = choose|k: int| 0 <= k < f.len() && f[k] == all[i];
        assert(r@[k]@ == peers@[i].id@);
    }
}

} // verus!
