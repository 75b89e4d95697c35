//! Peers: what is known of them, how their rows in the peer list come about, and how rows change.

use vstd::prelude::*;

use crate::size::{format_size, free_percent, size_text, storage_percent};
use crate::text::{
    blank, can_shorten, copy_opt, is_shortenable, opt_text, or_blank, shorten, shortened,
    text_or_blank,
};
use crate::textmap::TextMap;
use crate::time::{
    age_text, date_text, format_date, format_minute, format_relative_time_at,
    format_time_remaining, minute_text, now, on_clock, remaining_text, secs_between, Moment,
    UtcTime,
};

verus! {

/// How a latency shows that is not known.
pub const UNKNOWN_LATENCY: i32 = -1;

/// What one device allows another to do.
#[derive(Clone, Copy, Debug, PartialEq, Eq, Structural)]
pub struct Permissions {
    pub push: bool,
    pub pull: bool,
    pub browse: bool,
    pub status: bool,
    pub chat: bool,
    pub screen_view: bool,
    pub screen_control: bool,
}

/// What a peer tells of itself when it is introduced.
#[derive(Debug, PartialEq, Eq)]
pub struct PeerInfo<T = String> {
    pub endpoint_id: T,
    pub name: T,
    pub relay_url: Option<T>,
}

impl View for PeerInfo<String> {
    type V = PeerInfo<Seq<char>>;

    open spec fn view(&self) -> PeerInfo<Seq<char>> {
        PeerInfo {
            endpoint_id: self.endpoint_id@,
            name: self.name@,
            relay_url: opt_text(self.relay_url),
        }
    }
}

impl Clone for PeerInfo<String> {
    fn clone(&self) -> (r: PeerInfo<String>)
        ensures
            r == *self,
    {
        PeerInfo {
            endpoint_id: self.endpoint_id.clone(),
            name: self.name.clone(),
            relay_url: copy_opt(&self.relay_url),
        }
    }
}

/// A peer that the user trusts, for good or, as a guest, for a time.
#[derive(Debug, PartialEq, Eq)]
pub struct TrustedPeer<T = String, M = UtcTime> {
    pub id: T,
    pub endpoint_id: T,
    pub name: T,
    pub added_at: M,
    pub last_seen: Option<M>,
    pub relay_url: Option<T>,
    /// What we allow the peer.
    pub permissions_granted: Permissions,
    /// What the peer allows us.
    pub their_permissions: Permissions,
    pub is_guest: bool,
    pub expires_at: Option<M>,
    /// Seconds until a guest's access ends.
    pub remaining_secs: Option<i64>,
    pub extension_count: u32,
    pub promotion_pending: bool,
}

/// The point in time, where there is one.
pub open spec fn opt_moment(o: Option<UtcTime>) -> Option<Moment> {
    match o {
        Some(t) => Some(t@),
        None => None,
    }
}

impl View for TrustedPeer<String, UtcTime> {
    type V = TrustedPeer<Seq<char>, Moment>;

    open spec fn view(&self) -> TrustedPeer<Seq<char>, Moment> {
        TrustedPeer {
            id: self.id@,
            endpoint_id: self.endpoint_id@,
            name: self.name@,
            added_at: self.added_at@,
            last_seen: opt_moment(self.last_seen),
            relay_url: opt_text(self.relay_url),
            permissions_granted: self.permissions_granted,
            their_permissions: self.their_permissions,
            is_guest: self.is_guest,
            expires_at: opt_moment(self.expires_at),
            remaining_secs: self.remaining_secs,
            extension_count: self.extension_count,
            promotion_pending: self.promotion_pending,
        }
    }
}

/// The views of a list of peers.
pub open spec fn peer_views(v: Seq<TrustedPeer>) -> Seq<TrustedPeer<Seq<char>, Moment>> {
    v.map_values(|p: TrustedPeer| p@)
}

/// A peer's new word on what it allows us. Whether we may chat is not part of that word.
pub open spec fn updated_permissions(ours: Permissions, word: Permissions) -> Permissions {
    Permissions { chat: ours.chat, ..word }
}

/// Takes over a peer's word on what it allows us.
pub fn update_their_permissions(their: &mut Permissions, word: &Permissions)
    ensures
        *final(their) == updated_permissions(*old(their), *word),
{
    their.push = word.push;
    their.pull = word.pull;
    their.browse = word.browse;
    their.status = word.status;
    their.screen_view = word.screen_view;
    their.screen_control = word.screen_control;
}

/// A row of the peer list.
#[derive(Debug, PartialEq, Eq)]
pub struct PeerItem<T = String> {
    pub id: T,
    pub name: T,
    /// The endpoint's identifier, shortened.
    pub endpoint_id: T,
    /// "online", "offline", "connecting" or "revoked".
    pub status: T,
    pub last_seen: T,
    pub relay_url: T,
    pub added_at: T,
    pub expanded: bool,
    /// What they allow us to do.
    pub can_push: bool,
    pub can_pull: bool,
    pub can_browse: bool,
    pub can_screen_view: bool,
    /// What we allow them to do.
    pub allow_push: bool,
    pub allow_pull: bool,
    pub allow_browse: bool,
    pub allow_screen_view: bool,
    /// Round trip of the last ping, -1 if unknown.
    pub latency_ms: i32,
    /// Average round trip, -1 if unknown.
    pub avg_latency_ms: i32,
    pub connection_type: T,
    pub last_contact: T,
    pub ping_count: i32,
    pub last_upload_speed: T,
    pub last_download_speed: T,
    pub peer_hostname: T,
    pub peer_os: T,
    pub peer_version: T,
    pub peer_free_space: T,
    pub peer_total_space: T,
    pub peer_storage_percent: i32,
    pub peer_uptime: T,
    pub peer_active_transfers: i32,
    pub peer_dnd_mode: T,
    pub peer_dnd_message: T,
    pub speed_test_running: bool,
    pub speed_test_upload: T,
    pub speed_test_download: T,
    pub speed_test_latency: T,
    /// Cleared while the user has paused the peer.
    pub connected: bool,
    /// The peer has removed us.
    pub revoked: bool,
    /// We have removed the peer.
    pub we_revoked: bool,
    pub is_guest: bool,
    pub expires_at: T,
    pub time_remaining: T,
    pub extension_count: i32,
    pub promotion_pending: bool,
    /// Chat messages not read yet.
    pub unread_count: i32,
}

impl View for PeerItem<String> {
    type V = PeerItem<Seq<char>>;

    open spec fn view(&self) -> PeerItem<Seq<char>> {
        PeerItem {
            id: self.id@,
            name: self.name@,
            endpoint_id: self.endpoint_id@,
            status: self.status@,
            last_seen: self.last_seen@,
            relay_url: self.relay_url@,
            added_at: self.added_at@,
            expanded: self.expanded,
            can_push: self.can_push,
            can_pull: self.can_pull,
            can_browse: self.can_browse,
            can_screen_view: self.can_screen_view,
            allow_push: self.allow_push,
            allow_pull: self.allow_pull,
            allow_browse: self.allow_browse,
            allow_screen_view: self.allow_screen_view,
            latency_ms: self.latency_ms,
            avg_latency_ms: self.avg_latency_ms,
            connection_type: self.connection_type@,
            last_contact: self.last_contact@,
            ping_count: self.ping_count,
            last_upload_speed: self.last_upload_speed@,
            last_download_speed: self.last_download_speed@,
            peer_hostname: self.peer_hostname@,
            peer_os: self.peer_os@,
            peer_version: self.peer_version@,
            peer_free_space: self.peer_free_space@,
            peer_total_space: self.peer_total_space@,
            peer_storage_percent: self.peer_storage_percent,
            peer_uptime: self.peer_uptime@,
            peer_active_transfers: self.peer_active_transfers,
            peer_dnd_mode: self.peer_dnd_mode@,
            peer_dnd_message: self.peer_dnd_message@,
            speed_test_running: self.speed_test_running,
            speed_test_upload: self.speed_test_upload@,
            speed_test_download: self.speed_test_download@,
            speed_test_latency: self.speed_test_latency@,
            connected: self.connected,
            revoked: self.revoked,
            we_revoked: self.we_revoked,
            is_guest: self.is_guest,
            expires_at: self.expires_at@,
            time_remaining: self.time_remaining@,
            extension_count: self.extension_count,
            promotion_pending: self.promotion_pending,
            unread_count: self.unread_count,
        }
    }
}

impl Clone for PeerItem<String> {
    fn clone(&self) -> (r: PeerItem<String>)
        ensures
            r == *self,
    {
        PeerItem {
            id: self.id.clone(),
            name: self.name.clone(),
            endpoint_id: self.endpoint_id.clone(),
            status: self.status.clone(),
            last_seen: self.last_seen.clone(),
            relay_url: self.relay_url.clone(),
            added_at: self.added_at.clone(),
            expanded: self.expanded,
            can_push: self.can_push,
            can_pull: self.can_pull,
            can_browse: self.can_browse,
            can_screen_view: self.can_screen_view,
            allow_push: self.allow_push,
            allow_pull: self.allow_pull,
            allow_browse: self.allow_browse,
            allow_screen_view: self.allow_screen_view,
            latency_ms: self.latency_ms,
            avg_latency_ms: self.avg_latency_ms,
            connection_type: self.connection_type.clone(),
            last_contact: self.last_contact.clone(),
            ping_count: self.ping_count,
            last_upload_speed: self.last_upload_speed.clone(),
            last_download_speed: self.last_download_speed.clone(),
            peer_hostname: self.peer_hostname.clone(),
            peer_os: self.peer_os.clone(),
            peer_version: self.peer_version.clone(),
            peer_free_space: self.peer_free_space.clone(),
            peer_total_space: self.peer_total_space.clone(),
            peer_storage_percent: self.peer_storage_percent,
            peer_uptime: self.peer_uptime.clone(),
            peer_active_transfers: self.peer_active_transfers,
            peer_dnd_mode: self.peer_dnd_mode.clone(),
            peer_dnd_message: self.peer_dnd_message.clone(),
            speed_test_running: self.speed_test_running,
            speed_test_upload: self.speed_test_upload.clone(),
            speed_test_download: self.speed_test_download.clone(),
            speed_test_latency: self.speed_test_latency.clone(),
            connected: self.connected,
            revoked: self.revoked,
            we_revoked: self.we_revoked,
            is_guest: self.is_guest,
            expires_at: self.expires_at.clone(),
            time_remaining: self.time_remaining.clone(),
            extension_count: self.extension_count,
            promotion_pending: self.promotion_pending,
            unread_count: self.unread_count,
        }
    }
}

/// Connection status for a peer.
#[derive(Debug, PartialEq, Eq)]
pub struct PeerConnectionStatus<T = String, M = UtcTime, L = Vec<u32>> {
    /// Whether the peer is currently online.
    pub online: bool,
    /// Last successful ping, in milliseconds since the start of the application.
    pub last_ping: Option<u64>,
    /// Round-trip latency in milliseconds (from last ping).
    pub latency_ms: Option<u32>,
    /// Rolling average latency (last 10 pings).
    pub avg_latency_ms: Option<u32>,
    /// Recent latency samples for average calculation.
    pub latency_history: L,
    /// Connection type: "direct", "relay", or "unknown".
    pub connection_type: T,
    /// Total number of successful pings.
    pub ping_count: u32,
    /// Last contact time (for display as relative time).
    pub last_contact: Option<M>,
    /// Last upload speed (from transfers).
    pub last_upload_speed: Option<T>,
    /// Last download speed (from transfers).
    pub last_download_speed: Option<T>,
    /// What the peer last told of itself.
    pub peer_hostname: Option<T>,
    pub peer_os: Option<T>,
    pub peer_version: Option<T>,
    pub peer_free_space: Option<u64>,
    pub peer_total_space: Option<u64>,
    /// The peer's uptime, as text.
    pub peer_uptime: Option<T>,
    pub peer_active_transfers: Option<u32>,
}

impl View for PeerConnectionStatus<String, UtcTime, Vec<u32>> {
    type V = PeerConnectionStatus<Seq<char>, Moment, Seq<u32>>;

    open spec fn view(&self) -> PeerConnectionStatus<Seq<char>, Moment, Seq<u32>> {
        PeerConnectionStatus {
            online: self.online,
            last_ping: self.last_ping,
            latency_ms: self.latency_ms,
            avg_latency_ms: self.avg_latency_ms,
            latency_history: self.latency_history@,
            connection_type: self.connection_type@,
            ping_count: self.ping_count,
            last_contact: opt_moment(self.last_contact),
            last_upload_speed: opt_text(self.last_upload_speed),
            last_download_speed: opt_text(self.last_download_speed),
            peer_hostname: opt_text(self.peer_hostname),
            peer_os: opt_text(self.peer_os),
            peer_version: opt_text(self.peer_version),
            peer_free_space: self.peer_free_space,
            peer_total_space: self.peer_total_space,
            peer_uptime: opt_text(self.peer_uptime),
            peer_active_transfers: self.peer_active_transfers,
        }
    }
}

impl PeerConnectionStatus<String, UtcTime, Vec<u32>> {
    /// The status of a peer of which nothing is known.
    pub fn unknown() -> (r: PeerConnectionStatus)
        ensures
            r@ == blank_status(),
    {
        PeerConnectionStatus {
            online: false,
            last_ping: None,
            latency_ms: None,
            avg_latency_ms: None,
            latency_history: Vec::new(),
            connection_type: "unknown".to_owned(),
            ping_count: 0,
            last_contact: None,
            last_upload_speed: None,
            last_download_speed: None,
            peer_hostname: None,
            peer_os: None,
            peer_version: None,
            peer_free_space: None,
            peer_total_space: None,
            peer_uptime: None,
            peer_active_transfers: None,
        }
    }

    /// A copy of this status.
    fn copied(&self) -> (r: PeerConnectionStatus)
        ensures
            r@ == self@,
    {
        PeerConnectionStatus {
            online: self.online,
            last_ping: self.last_ping,
            latency_ms: self.latency_ms,
            avg_latency_ms: self.avg_latency_ms,
            latency_history: self.latency_history.clone(),
            connection_type: self.connection_type.clone(),
            ping_count: self.ping_count,
            last_contact: self.last_contact,
            last_upload_speed: copy_opt(&self.last_upload_speed),
            last_download_speed: copy_opt(&self.last_download_speed),
            peer_hostname: copy_opt(&self.peer_hostname),
            peer_os: copy_opt(&self.peer_os),
            peer_version: copy_opt(&self.peer_version),
            peer_free_space: self.peer_free_space,
            peer_total_space: self.peer_total_space,
            peer_uptime: copy_opt(&self.peer_uptime),
            peer_active_transfers: self.peer_active_transfers,
        }
    }
}

/// The status of a peer of which nothing is known.
pub open spec fn blank_status() -> PeerConnectionStatus<Seq<char>, Moment, Seq<u32>> {
    PeerConnectionStatus {
        online: false,
        last_ping: None,
        latency_ms: None,
        avg_latency_ms: None,
        latency_history: Seq::empty(),
        connection_type: "unknown"@,
        ping_count: 0,
        last_contact: None,
        last_upload_speed: None,
        last_download_speed: None,
        peer_hostname: None,
        peer_os: None,
        peer_version: None,
        peer_free_space: None,
        peer_total_space: None,
        peer_uptime: None,
        peer_active_transfers: None,
    }
}

/// A date and minute, or another text where there is none.
pub open spec fn minute_or(t: Option<Moment>, other: Seq<char>) -> Seq<char> {
    match t {
        Some(t) => minute_text(t),
        None => other,
    }
}

/// The time that is left, or nothing where there is no end.
pub open spec fn remaining_or_blank(secs: Option<i64>) -> Seq<char> {
    match secs {
        Some(s) => remaining_text(s as int),
        None => blank(),
    }
}

/// The row of a peer of whose connection nothing is known yet.
pub open spec fn fresh_item(p: TrustedPeer<Seq<char>, Moment>) -> PeerItem<Seq<char>> {
    PeerItem {
        id: p.id,
        name: p.name,
        endpoint_id: shortened(p.endpoint_id, 16, 8),
        status: "offline"@,
        last_seen: minute_or(p.last_seen, "Never"@),
        relay_url: text_or_blank(p.relay_url),
        added_at: date_text(p.added_at),
        expanded: false,
        can_push: p.their_permissions.push,
        can_pull: p.their_permissions.pull,
        can_browse: p.their_permissions.browse,
        can_screen_view: p.their_permissions.screen_view,
        allow_push: p.permissions_granted.push,
        allow_pull: p.permissions_granted.pull,
        allow_browse: p.permissions_granted.browse,
        allow_screen_view: p.permissions_granted.screen_view,
        latency_ms: UNKNOWN_LATENCY,
        avg_latency_ms: UNKNOWN_LATENCY,
        connection_type: blank(),
        last_contact: blank(),
        ping_count: 0,
        last_upload_speed: blank(),
        last_download_speed: blank(),
        peer_hostname: blank(),
        peer_os: blank(),
        peer_version: blank(),
        peer_free_space: blank(),
        peer_total_space: blank(),
        peer_storage_percent: 0,
        peer_uptime: blank(),
        peer_active_transfers: 0,
        peer_dnd_mode: "off"@,
        peer_dnd_message: blank(),
        speed_test_running: false,
        speed_test_upload: blank(),
        speed_test_download: blank(),
        speed_test_latency: blank(),
        connected: true,
        revoked: false,
        we_revoked: false,
        is_guest: p.is_guest,
        expires_at: minute_or(p.expires_at, blank()),
        time_remaining: remaining_or_blank(p.remaining_secs),
        extension_count: p.extension_count as i32,
        promotion_pending: p.promotion_pending,
        unread_count: 0,
    }
}

/// Convert a TrustedPeer to PeerItem for UI display.
pub fn trusted_peer_to_item(p: &TrustedPeer) -> (r: PeerItem)
    requires
        can_shorten(p@.endpoint_id, 16, 8),
    ensures
        r@ == fresh_item(p@),
{
    let last_seen = match &p.last_seen {
        Some(t) => format_minute(t),
        None => "Never".to_owned(),
    };
    let expires_at = match &p.expires_at {
        Some(t) => format_minute(t),
        None => String::new(),
    };
    PeerItem {
        id: p.id.clone(),
        name: p.name.clone(),
        endpoint_id: shorten(p.endpoint_id.as_str(), 16, 8),
        status: "offline".to_owned(),
        last_seen: last_seen,
        relay_url: or_blank(&p.relay_url),
        added_at: format_date(&p.added_at),
        expanded: false,
        can_push: p.their_permissions.push,
        can_pull: p.their_permissions.pull,
        can_browse: p.their_permissions.browse,
        can_screen_view: p.their_permissions.screen_view,
        allow_push: p.permissions_granted.push,
        allow_pull: p.permissions_granted.pull,
        allow_browse: p.permissions_granted.browse,
        allow_screen_view: p.permissions_granted.screen_view,
        latency_ms: UNKNOWN_LATENCY,
        avg_latency_ms: UNKNOWN_LATENCY,
        connection_type: String::new(),
        last_contact: String::new(),
        ping_count: 0,
        last_upload_speed: String::new(),
        last_download_speed: String::new(),
        peer_hostname: String::new(),
        peer_os: String::new(),
        peer_version: String::new(),
        peer_free_space: String::new(),
        peer_total_space: String::new(),
        peer_storage_percent: 0,
        peer_uptime: String::new(),
        peer_active_transfers: 0,
        peer_dnd_mode: "off".to_owned(),
        peer_dnd_message: String::new(),
        speed_test_running: false,
        speed_test_upload: String::new(),
        speed_test_download: String::new(),
        speed_test_latency: String::new(),
        connected: true,
        revoked: false,
        we_revoked: false,
        is_guest: p.is_guest,
        expires_at: expires_at,
        time_remaining: format_time_remaining(p.remaining_secs),
        extension_count: p.extension_count as i32,
        promotion_pending: p.promotion_pending,
        unread_count: 0,
    }
}

/// Whether the shortened endpoint of a peer can be shown: its identifier can be cut eight bytes
/// from either end.
pub fn is_showable(p: &TrustedPeer) -> (r: bool)
    ensures
        r == can_shorten(p@.endpoint_id, 16, 8),
{
    is_shortenable(p.endpoint_id.as_str(), 16, 8)
}

/// A size, or nothing where it is not known.
pub open spec fn size_or_blank(bytes: Option<u64>) -> Seq<char> {
    match bytes {
        Some(b) => size_text(b as nat),
        None => blank(),
    }
}

/// How a connection shows.
pub open spec fn online_text(online: bool) -> Seq<char> {
    if online {
        "online"@
    } else {
        "offline"@
    }
}

/// A latency, where it is known.
pub open spec fn latency_or_unknown(ms: Option<u32>) -> i32 {
    match ms {
        Some(v) => v as i32,
        None => UNKNOWN_LATENCY,
    }
}

/// How long ago a contact was.
pub open spec fn age_or_blank(t: Option<Moment>, now: Moment) -> Seq<char> {
    match t {
        Some(t) => age_text(secs_between(now, t)),
        None => blank(),
    }
}

/// The free share of a disk, where both sizes are known.
pub open spec fn percent_or_zero(free: Option<u64>, total: Option<u64>) -> i32 {
    match (free, total) {
        (Some(free), Some(total)) => free_percent(free as nat, total as nat) as i32,
        _ => 0,
    }
}

/// A count, where it is known.
pub open spec fn count_or_zero(n: Option<u32>) -> i32 {
    match n {
        Some(n) => n as i32,
        None => 0,
    }
}

/// A row with what is known of the connection at the time `now`.
pub open spec fn with_status(
    item: PeerItem<Seq<char>>,
    status: PeerConnectionStatus<Seq<char>, Moment, Seq<u32>>,
    now: Moment,
) -> PeerItem<Seq<char>> {
    PeerItem {
        status: online_text(status.online),
        latency_ms: latency_or_unknown(status.latency_ms),
        avg_latency_ms: latency_or_unknown(status.avg_latency_ms),
        connection_type: status.connection_type,
        ping_count: status.ping_count as i32,
        last_contact: age_or_blank(status.last_contact, now),
        last_upload_speed: text_or_blank(status.last_upload_speed),
        last_download_speed: text_or_blank(status.last_download_speed),
        peer_hostname: text_or_blank(status.peer_hostname),
        peer_os: text_or_blank(status.peer_os),
        peer_version: text_or_blank(status.peer_version),
        peer_free_space: size_or_blank(status.peer_free_space),
        peer_total_space: size_or_blank(status.peer_total_space),
        peer_storage_percent: percent_or_zero(status.peer_free_space, status.peer_total_space),
        peer_uptime: text_or_blank(status.peer_uptime),
        peer_active_transfers: count_or_zero(status.peer_active_transfers),
        ..item
    }
}

fn show_online(online: bool) -> (r: String)
    ensures
        r@ == online_text(online),
{
    if online {
        "online".to_owned()
    } else {
        "offline".to_owned()
    }
}

fn show_latency(ms: Option<u32>) -> (r: i32)
    ensures
        r == latency_or_unknown(ms),
{
    match ms {
        Some(v) => #[verifier::truncate] (v as i32),
        None => UNKNOWN_LATENCY,
    }
}

fn show_age(t: &Option<UtcTime>, now: &UtcTime) -> (r: String)
    ensures
        r@ == age_or_blank(opt_moment(*t), now@),
{
    match t {
        Some(t) => format_relative_time_at(t, now),
        None => String::new(),
    }
}

fn show_size(bytes: Option<u64>) -> (r: String)
    ensures
        r@ == size_or_blank(bytes),
{
    match bytes {
        Some(b) => format_size(b),
        None => String::new(),
    }
}

fn show_percent(free: Option<u64>, total: Option<u64>) -> (r: i32)
    ensures
        r == percent_or_zero(free, total),
{
    match (free, total) {
        (Some(free), Some(total)) => storage_percent(free, total),
        _ => 0,
    }
}

fn show_count(n: Option<u32>) -> (r: i32)
    ensures
        r == count_or_zero(n),
{
    match n {
        Some(n) => #[verifier::truncate] (n as i32),
        None => 0,
    }
}

/// Apply connection status to a PeerItem, with ages as of `now`.
#[verifier::rlimit(60)]
pub fn apply_status_at(item: &mut PeerItem, status: &PeerConnectionStatus, now: &UtcTime)
    ensures
        final(item)@ == with_status(old(item)@, status@, now@),
{
    item.status = show_online(status.online);
    item.latency_ms = show_latency(status.latency_ms);
    item.avg_latency_ms = show_latency(status.avg_latency_ms);
    item.connection_type = status.connection_type.clone();
    item.ping_count = #[verifier::truncate] (status.ping_count as i32);
    item.last_contact = show_age(&status.last_contact, now);
    item.last_upload_speed = or_blank(&status.last_upload_speed);
    item.last_download_speed = or_blank(&status.last_download_speed);
    item.peer_hostname = or_blank(&status.peer_hostname);
    item.peer_os = or_blank(&status.peer_os);
    item.peer_version = or_blank(&status.peer_version);
    item.peer_free_space = show_size(status.peer_free_space);
    item.peer_total_space = show_size(status.peer_total_space);
    item.peer_storage_percent = show_percent(status.peer_free_space, status.peer_total_space);
    item.peer_uptime = or_blank(&status.peer_uptime);
    item.peer_active_transfers = show_count(status.peer_active_transfers);
}

/// Apply connection status to a PeerItem.
pub fn apply_status_to_peer_item(item: &mut PeerItem, status: &PeerConnectionStatus)
    ensures
        exists|now: Moment|
            on_clock(now) && final(item)@ == #[trigger] with_status(old(item)@, status@, now),
{
    let now = now();
    apply_status_at(item, status, &now)
}

// ---------------------------------------------------------------------------
// Pings and reports

/// The sum of latency samples.
pub open spec fn total(samples: Seq<u32>) -> nat
    decreases samples.len(),
{
    if samples.len() == 0 {
        0
    } else {
        total(samples.drop_last()) + samples.last() as nat
    }
}

/// The samples that are kept once `sample` has come: at most one is dropped, the oldest, where
/// there are more than ten.
pub open spec fn kept_samples(history: Seq<u32>, sample: u32) -> Seq<u32> {
    let all = history.push(sample);
    if all.len() > 10 {
        all.drop_first()
    } else {
        all
    }
}

/// The status after a ping that was answered after `latency` milliseconds, or not at all. `ms` is
/// the time of the ping since the start of the application.
pub open spec fn pinged(
    s: PeerConnectionStatus<Seq<char>, Moment, Seq<u32>>,
    latency: Option<u32>,
    has_relay: bool,
    ms: u64,
    now: Moment,
) -> PeerConnectionStatus<Seq<char>, Moment, Seq<u32>> {
    match latency {
        Some(sample) => {
            let history = kept_samples(s.latency_history, sample);
            PeerConnectionStatus {
                online: true,
                last_ping: Some(ms),
                last_contact: Some(now),
                latency_ms: latency,
                ping_count: (s.ping_count + 1) as u32,
                latency_history: history,
                avg_latency_ms: Some((total(history) / history.len()) as u32),
                connection_type: if has_relay {
                    "relay"@
                } else {
                    "direct"@
                },
                ..s
            }
        },
        None => PeerConnectionStatus { online: false, ..s },
    }
}

/// Whether a ping can be recorded: the sum of the samples and the count of pings stay within 32
/// bits.
pub open spec fn ping_fits(
    s: PeerConnectionStatus<Seq<char>, Moment, Seq<u32>>,
    latency: Option<u32>,
) -> bool {
    latency matches Some(sample) ==> s.ping_count < u32::MAX && total(
        kept_samples(s.latency_history, sample),
    ) <= u32::MAX && s.latency_history.len() < u32::MAX
}

proof fn lemma_total_take(samples: Seq<u32>, i: int)
    requires
        0 <= i <= samples.len(),
    ensures
        total(samples.take(i)) <= total(samples),
    decreases samples.len() - i,
{
    if i < samples.len() {
        lemma_total_take(samples, i + 1);
        assert(samples.take(i + 1).drop_last() =~= samples.take(i));
    } else {
        assert(samples.take(i) =~= samples);
    }
}

/// The sum of samples, where it stays within 32 bits.
fn sum_samples(samples: &Vec<u32>) -> (r: Option<u32>)
    ensures
        r is Some <==> total(samples@) <= u32::MAX,
        r matches Some(n) ==> n == total(samples@),
{
    let mut sum: u32 = 0;
    for i in 0..samples.len()
        invariant
            sum == total(samples@.take(i as int)),
    {
        proof {
            assert(samples@.take(i + 1).drop_last() =~= samples@.take(i as int));
            lemma_total_take(samples@, i + 1);
        }
        if samples[i] > u32::MAX - sum {
            return None;
        }
        sum = sum + samples[i];
    }
    assert(samples@.take(samples@.len() as int) =~= samples@);
    Some(sum)
}

/// The samples that are kept once `sample` has come.
fn keep_samples(history: &Vec<u32>, sample: u32) -> (r: Vec<u32>)
    ensures
        r@ == kept_samples(history@, sample),
{
    let mut all: Vec<u32> = history.clone();
    assert(all@ =~= history@);
    all.push(sample);
    if all.len() > 10 {
        let ghost before = all@;
        let _ = all.remove(0);
        assert(all@ =~= before.drop_first());
    }
    all
}

/// Whether a ping can be recorded.
pub fn can_record_ping(status: &PeerConnectionStatus, latency: Option<u32>) -> (r: bool)
    ensures
        r == ping_fits(status@, latency),
{
    match latency {
        Some(sample) => status.ping_count < u32::MAX && sum_samples(
            &keep_samples(&status.latency_history, sample),
        ).is_some() && status.latency_history.len() < u32::MAX as usize,
        None => true,
    }
}

/// Records a ping that was answered after `latency` milliseconds, or not at all.
pub fn record_ping(
    status: &mut PeerConnectionStatus,
    latency: Option<u32>,
    has_relay: bool,
    ms: u64,
    now: UtcTime,
)
    requires
        ping_fits(old(status)@, latency),
    ensures
        final(status)@ == pinged(old(status)@, latency, has_relay, ms, now@),
{
    match latency {
        Some(sample) => {
            let history = keep_samples(&status.latency_history, sample);
            let average: u32 = match sum_samples(&history) {
                Some(sum) => sum / history.len() as u32,
                None => 0,
            };
            status.online = true;
            status.last_ping = Some(ms);
            status.last_contact = Some(now);
            status.latency_ms = latency;
            status.ping_count = status.ping_count + 1;
            status.latency_history = history;
            status.avg_latency_ms = Some(average);
            status.connection_type = if has_relay {
                "relay".to_owned()
            } else {
                "direct".to_owned()
            };
        },
        None => {
            status.online = false;
        },
    }
}

/// However many pings come in, no more than ten samples are kept, the latest sample is one of them,
/// and it is the last.
pub proof fn latency_history_is_bounded(history: Seq<u32>, sample: u32)
    requires
        history.len() <= 10,
    ensures
        1 <= kept_samples(history, sample).len() <= 10,
        kept_samples(history, sample).last() == sample,
{
}

/// The average lies between the least and the greatest sample.
pub proof fn average_lies_between(samples: Seq<u32>, least: u32, greatest: u32)
    requires
        samples.len() > 0,
        forall|i: int| 0 <= i < samples.len() ==> least <= #[trigger] samples[i] <= greatest,
    ensures
        least <= total(samples) / samples.len() <= greatest,
{
    lemma_total_bounds(samples, least, greatest);
    let n = samples.len();
    let t = total(samples);
    vstd::arithmetic::div_mod::lemma_fundamental_div_mod(t as int, n as int);
    assert(least <= t / n <= greatest) by (nonlinear_arith)
        requires
            n > 0,
            least * n <= t <= greatest * n,
            t == n * (t / n) + t % n,
            0 <= t % n < n,
    ;
}

proof fn lemma_total_bounds(samples: Seq<u32>, least: u32, greatest: u32)
    requires
        forall|i: int| 0 <= i < samples.len() ==> least <= #[trigger] samples[i] <= greatest,
    ensures
        least * samples.len() <= total(samples) <= greatest * samples.len(),
    decreases samples.len(),
{
    if samples.len() > 0 {
        let t = samples.drop_last();
        assert forall|i: int| 0 <= i < t.len() implies least <= #[trigger] t[i] <= greatest by {
            assert(t[i] == samples[i]);
        }
        lemma_total_bounds(t, least, greatest);
        assert(least * samples.len() == least * t.len() + least) by (nonlinear_arith)
            requires
                samples.len() == t.len() + 1,
        ;
        assert(greatest * samples.len() == greatest * t.len() + greatest) by (nonlinear_arith)
            requires
                samples.len() == t.len() + 1,
        ;
    }
}

/// What is known of each peer's connection, by the peer's identifier.
pub open spec fn known_status(
    m: Map<Seq<char>, PeerConnectionStatus>,
    id: Seq<char>,
) -> PeerConnectionStatus<Seq<char>, Moment, Seq<u32>> {
    if m.contains_key(id) {
        m[id]@
    } else {
        blank_status()
    }
}

/// The status of a peer, or a blank one where the map has none.
fn look_up(statuses: &TextMap<PeerConnectionStatus>, id: &str) -> (r: PeerConnectionStatus)
    ensures
        r@ == known_status(statuses@, id@),
{
    match statuses.get(id) {
        Some(status) => status.copied(),
        None => PeerConnectionStatus::unknown(),
    }
}

/// Whether a map holds, for `id`, the status `s`, and all else as before.
pub open spec fn status_set(
    before: Map<Seq<char>, PeerConnectionStatus>,
    after: Map<Seq<char>, PeerConnectionStatus>,
    id: Seq<char>,
    s: PeerConnectionStatus<Seq<char>, Moment, Seq<u32>>,
) -> bool {
    &&& after.contains_key(id)
    &&& after[id]@ == s
    &&& after == before.insert(id, after[id])
}

/// The status of a peer that was in contact at the time `ms`.
pub open spec fn seen(
    s: PeerConnectionStatus<Seq<char>, Moment, Seq<u32>>,
    ms: u64,
) -> PeerConnectionStatus<Seq<char>, Moment, Seq<u32>> {
    PeerConnectionStatus { online: true, last_ping: Some(ms), ..s }
}

/// Notes that a peer has just been in contact.
pub fn mark_online(statuses: &mut TextMap<PeerConnectionStatus>, id: &str, ms: u64)
    ensures
        status_set(
            old(statuses)@,
            final(statuses)@,
            id@,
            seen(known_status(old(statuses)@, id@), ms),
        ),
{
    let mut status = look_up(statuses, id);
    status.online = true;
    status.last_ping = Some(ms);
    statuses.insert(id, status);
}

/// Records a ping in the map.
pub fn record_ping_of(
    statuses: &mut TextMap<PeerConnectionStatus>,
    id: &str,
    latency: Option<u32>,
    has_relay: bool,
    ms: u64,
    now: UtcTime,
)
    requires
        ping_fits(known_status(old(statuses)@, id@), latency),
    ensures
        status_set(
            old(statuses)@,
            final(statuses)@,
            id@,
            pinged(known_status(old(statuses)@, id@), latency, has_relay, ms, now@),
        ),
{
    let mut status = look_up(statuses, id);
    record_ping(&mut status, latency, has_relay, ms, now);
    statuses.insert(id, status);
}

/// Whether a ping can be recorded in the map.
pub fn can_record_ping_of(
    statuses: &TextMap<PeerConnectionStatus>,
    id: &str,
    latency: Option<u32>,
) -> (r: bool)
    ensures
        r == ping_fits(known_status(statuses@, id@), latency),
{
    match statuses.get(id) {
        Some(status) => can_record_ping(status, latency),
        None => can_record_ping(&PeerConnectionStatus::unknown(), latency),
    }
}

/// Whether a peer is known to be online.
pub fn is_online(statuses: &TextMap<PeerConnectionStatus>, id: &str) -> (r: bool)
    ensures
        r == (statuses@.contains_key(id@) && statuses@[id@].online),
{
    match statuses.get(id) {
        Some(status) => status.online,
        None => false,
    }
}

/// What a peer tells of itself on request.
#[derive(Debug, PartialEq, Eq)]
pub struct StatusReport<T = String> {
    pub hostname: T,
    pub os: T,
    pub version: T,
    pub free_space: u64,
    pub total_space: u64,
    /// The uptime, as text.
    pub uptime: T,
    pub active_transfers: u32,
}

impl View for StatusReport<String> {
    type V = StatusReport<Seq<char>>;

    open spec fn view(&self) -> StatusReport<Seq<char>> {
        StatusReport {
            hostname: self.hostname@,
            os: self.os@,
            version: self.version@,
            free_space: self.free_space,
            total_space: self.total_space,
            uptime: self.uptime@,
            active_transfers: self.active_transfers,
        }
    }
}

/// A status with a peer's report in it.
pub open spec fn reported(
    s: PeerConnectionStatus<Seq<char>, Moment, Seq<u32>>,
    r: StatusReport<Seq<char>>,
) -> PeerConnectionStatus<Seq<char>, Moment, Seq<u32>> {
    PeerConnectionStatus {
        peer_hostname: Some(r.hostname),
        peer_os: Some(r.os),
        peer_version: Some(r.version),
        peer_free_space: Some(r.free_space),
        peer_total_space: Some(r.total_space),
        peer_uptime: Some(r.uptime),
        peer_active_transfers: Some(r.active_transfers),
        ..s
    }
}

/// Takes over a peer's report, where the peer's status is known.
pub fn record_report(
    statuses: &mut TextMap<PeerConnectionStatus>,
    id: &str,
    report: StatusReport,
)
    ensures
        old(statuses)@.contains_key(id@) ==> status_set(
            old(statuses)@,
            final(statuses)@,
            id@,
            reported(old(statuses)@[id@]@, report@),
        ),
        !old(statuses)@.contains_key(id@) ==> final(statuses)@ == old(statuses)@,
{
    if statuses.contains(id) {
        let mut status = look_up(statuses, id);
        status.peer_hostname = Some(report.hostname);
        status.peer_os = Some(report.os);
        status.peer_version = Some(report.version);
        status.peer_free_space = Some(report.free_space);
        status.peer_total_space = Some(report.total_space);
        status.peer_uptime = Some(report.uptime);
        status.peer_active_transfers = Some(report.active_transfers);
        statuses.insert(id, status);
    }
}

/// A status with the speeds that a speed test found.
pub open spec fn timed(
    s: PeerConnectionStatus<Seq<char>, Moment, Seq<u32>>,
    upload: Seq<char>,
    download: Seq<char>,
) -> PeerConnectionStatus<Seq<char>, Moment, Seq<u32>> {
    PeerConnectionStatus {
        last_upload_speed: Some(upload),
        last_download_speed: Some(download),
        ..s
    }
}

/// Takes over the speeds that a speed test found.
pub fn record_speeds(
    statuses: &mut TextMap<PeerConnectionStatus>,
    id: &str,
    upload: String,
    download: String,
)
    ensures
        status_set(
            old(statuses)@,
            final(statuses)@,
            id@,
            timed(known_status(old(statuses)@, id@), upload@, download@),
        ),
{
    let mut status = look_up(statuses, id);
    status.last_upload_speed = Some(upload);
    status.last_download_speed = Some(download);
    statuses.insert(id, status);
}

// ---------------------------------------------------------------------------
// Laws

/// A row shows its peer: who the peer is, what each side allows the other, and, for a guest, how long
/// the access lasts. What nothing is known of yet is empty, or has the value that stands for it.
pub proof fn rows_show_their_peer(p: TrustedPeer, r: PeerItem)
    requires
        r@ == fresh_item(p@),
    ensures
        r.id@ == p.id@,
        r.name@ == p.name@,
        r.endpoint_id@ == shortened(p.endpoint_id@, 16, 8),
        r.status@ == "offline"@,
        p.last_seen matches Some(t) ==> r.last_seen@ == minute_text(t@),
        p.last_seen is None ==> r.last_seen@ == "Never"@,
        p.relay_url matches Some(url) ==> r.relay_url@ == url@,
        p.relay_url is None ==> r.relay_url@.len() == 0,
        r.added_at@ == date_text(p.added_at@),
        r.can_push == p.their_permissions.push,
        r.can_pull == p.their_permissions.pull,
        r.can_browse == p.their_permissions.browse,
        r.can_screen_view == p.their_permissions.screen_view,
        r.allow_push == p.permissions_granted.push,
        r.allow_pull == p.permissions_granted.pull,
        r.allow_browse == p.permissions_granted.browse,
        r.allow_screen_view == p.permissions_granted.screen_view,
        r.latency_ms == -1 && r.avg_latency_ms == -1,
        r.connection_type@.len() == 0 && r.last_contact@.len() == 0 && r.ping_count == 0,
        r.last_upload_speed@.len() == 0 && r.last_download_speed@.len() == 0,
        r.peer_hostname@.len() == 0 && r.peer_os@.len() == 0 && r.peer_version@.len() == 0,
        r.peer_free_space@.len() == 0 && r.peer_total_space@.len() == 0,
        r.peer_storage_percent == 0 && r.peer_uptime@.len() == 0 && r.peer_active_transfers == 0,
        r.peer_dnd_mode@ == "off"@ && r.peer_dnd_message@.len() == 0,
        !r.speed_test_running && r.speed_test_upload@.len() == 0,
        r.speed_test_download@.len() == 0 && r.speed_test_latency@.len() == 0,
        r.connected && !r.revoked && !r.we_revoked && !r.expanded && r.unread_count == 0,
        r.is_guest == p.is_guest,
        p.expires_at matches Some(t) ==> r.expires_at@ == minute_text(t@),
        p.expires_at is None ==> r.expires_at@.len() == 0,
        p.remaining_secs matches Some(secs) ==> r.time_remaining@ == remaining_text(secs as int),
        p.remaining_secs is None ==> r.time_remaining@.len() == 0,
        p.extension_count <= i32::MAX ==> r.extension_count == p.extension_count,
        r.promotion_pending == p.promotion_pending,
{
}

/// A row takes over all that is known of its peer's connection, each thing at its own place, and
/// what is not known becomes empty. Nothing else in the row changes.
pub proof fn rows_show_their_status(
    before: PeerItem,
    status: PeerConnectionStatus,
    now: UtcTime,
    after: PeerItem,
)
    requires
        after@ == with_status(before@, status@, now@),
    ensures
        status.online ==> after.status@ == "online"@,
        !status.online ==> after.status@ == "offline"@,
        status.latency_ms matches Some(ms) ==> ms <= i32::MAX ==> after.latency_ms == ms,
        status.latency_ms is None ==> after.latency_ms == -1,
        status.avg_latency_ms matches Some(ms) ==> ms <= i32::MAX ==> after.avg_latency_ms == ms,
        status.avg_latency_ms is None ==> after.avg_latency_ms == -1,
        after.connection_type@ == status.connection_type@,
        status.ping_count <= i32::MAX ==> after.ping_count == status.ping_count,
        status.last_contact matches Some(t) ==> after.last_contact@ == age_text(
            secs_between(now@, t@),
        ),
        status.last_contact is None ==> after.last_contact@.len() == 0,
        status.last_upload_speed matches Some(t) ==> after.last_upload_speed@ == t@,
        status.last_upload_speed is None ==> after.last_upload_speed@.len() == 0,
        status.last_download_speed matches Some(t) ==> after.last_download_speed@ == t@,
        status.last_download_speed is None ==> after.last_download_speed@.len() == 0,
        status.peer_hostname matches Some(t) ==> after.peer_hostname@ == t@,
        status.peer_hostname is None ==> after.peer_hostname@.len() == 0,
        status.peer_os matches Some(t) ==> after.peer_os@ == t@,
        status.peer_os is None ==> after.peer_os@.len() == 0,
        status.peer_version matches Some(t) ==> after.peer_version@ == t@,
        status.peer_version is None ==> after.peer_version@.len() == 0,
        status.peer_free_space matches Some(n) ==> after.peer_free_space@ == size_text(n as nat),
        status.peer_free_space is None ==> after.peer_free_space@.len() == 0,
        status.peer_total_space matches Some(n) ==> after.peer_total_space@ == size_text(n as nat),
        status.peer_total_space is None ==> after.peer_total_space@.len() == 0,
        status.peer_free_space is Some && status.peer_total_space is Some
            ==> after.peer_storage_percent == free_percent(
            status.peer_free_space->0 as nat,
            status.peer_total_space->0 as nat,
        ) as i32,
        status.peer_free_space is None || status.peer_total_space is None
            ==> after.peer_storage_percent == 0,
        status.peer_uptime matches Some(t) ==> after.peer_uptime@ == t@,
        status.peer_uptime is None ==> after.peer_uptime@.len() == 0,
        status.peer_active_transfers matches Some(n) ==> n <= i32::MAX
            ==> after.peer_active_transfers == n,
        status.peer_active_transfers is None ==> after.peer_active_transfers == 0,
        before@ == (PeerItem {
            status: before@.status,
            latency_ms: before@.latency_ms,
            avg_latency_ms: before@.avg_latency_ms,
            connection_type: before@.connection_type,
            ping_count: before@.ping_count,
            last_contact: before@.last_contact,
            last_upload_speed: before@.last_upload_speed,
            last_download_speed: before@.last_download_speed,
            peer_hostname: before@.peer_hostname,
            peer_os: before@.peer_os,
            peer_version: before@.peer_version,
            peer_free_space: before@.peer_free_space,
            peer_total_space: before@.peer_total_space,
            peer_storage_percent: before@.peer_storage_percent,
            peer_uptime: before@.peer_uptime,
            peer_active_transfers: before@.peer_active_transfers,
            ..after@
        }),
{
}

/// A peer's word is taken on everything that it speaks of, and whether we may chat stays as it is.
pub proof fn peers_are_taken_at_their_word(ours: Permissions, word: Permissions)
    ensures
        updated_permissions(ours, word).push == word.push,
        updated_permissions(ours, word).pull == word.pull,
        updated_permissions(ours, word).browse == word.browse,
        updated_permissions(ours, word).status == word.status,
        updated_permissions(ours, word).screen_view == word.screen_view,
        updated_permissions(ours, word).screen_control == word.screen_control,
        updated_permissions(ours, word).chat == ours.chat,
{
}

/// A sample is put behind the ones that are there. The first ten stay all; beyond that the oldest one
/// makes room, and the others keep their order.
pub proof fn samples_are_kept_in_order(history: Seq<u32>, sample: u32, i: int)
    ensures
        history.len() < 10 ==> kept_samples(history, sample).len() == history.len() + 1,
        history.len() < 10 && 0 <= i < history.len() ==> kept_samples(history, sample)[i]
            == history[i],
        history.len() >= 10 ==> kept_samples(history, sample).len() == history.len(),
        history.len() >= 10 && 1 <= i < history.len() ==> kept_samples(history, sample)[i - 1]
            == history[i],
        kept_samples(history, sample).last() == sample,
{
}

/// The sum of samples is the one of the first of them and the one of the others together, wherever
/// they are divided, and the sum of one sample is that sample.
pub proof fn samples_add_up(a: Seq<u32>, b: Seq<u32>, sample: u32)
    ensures
        total(a + b) == total(a) + total(b),
        total(seq![sample]) == sample,
    decreases b.len(),
{
    assert(total(seq![sample]) == sample) by {
        assert(seq![sample].drop_last() =~= Seq::<u32>::empty());
        assert(total(Seq::<u32>::empty()) == 0);
    }
    if b.len() == 0 {
        assert(a + b =~= a);
    } else {
        samples_add_up(a, b.drop_last(), sample);
        assert((a + b).drop_last() =~= a + b.drop_last());
    }
}

/// An answer to a ping says that the peer is online, when it was in contact, how long the answer took
/// and on which way it came. It counts as one more, and the average is the one of the samples that
/// are kept, cut to whole milliseconds. A ping without an answer says only that the peer is offline.
pub proof fn pings_tell_of_the_connection(
    before: PeerConnectionStatus,
    latency: Option<u32>,
    has_relay: bool,
    ms: u64,
    now: UtcTime,
    after: PeerConnectionStatus,
)
    requires
        ping_fits(before@, latency),
        after@ == pinged(before@, latency, has_relay, ms, now@),
    ensures
        latency matches Some(sample) ==> {
            let n = after.latency_history@.len();
            &&& after.online
            &&& after.last_ping == Some(ms)
            &&& after.last_contact matches Some(t) && t@ == now@
            &&& after.latency_ms == Some(sample)
            &&& after.ping_count == before.ping_count + 1
            &&& after.latency_history@ == kept_samples(before.latency_history@, sample)
            &&& after.avg_latency_ms matches Some(average) && average * n <= total(
                after.latency_history@,
            ) < (average + 1) * n
            &&& after.connection_type@ == if has_relay {
                "relay"@
            } else {
                "direct"@
            }
        },
        latency is None ==> !after.online && after@ == (PeerConnectionStatus {
            online: false,
            ..before@
        }),
        before@ == (PeerConnectionStatus {
            online: before@.online,
            last_ping: before@.last_ping,
            last_contact: before@.last_contact,
            latency_ms: before@.latency_ms,
            ping_count: before@.ping_count,
            latency_history: before@.latency_history,
            avg_latency_ms: before@.avg_latency_ms,
            connection_type: before@.connection_type,
            ..after@
        }),
{
    if let Some(sample) = latency {
        let h = kept_samples(before@.latency_history, sample);
        let n = h.len();
        let t = total(h);
        vstd::arithmetic::div_mod::lemma_fundamental_div_mod(t as int, n as int);
        vstd::arithmetic::div_mod::lemma_div_is_ordered_by_denominator(t as int, 1, n as int);
        let q = t / n;
        assert(0 <= t % n < n);
        assert(q * n <= t < (q + 1) * n) by (nonlinear_arith)
            requires
                t == n * q + t % n,
                0 <= t % n < n,
        ;
        assert(q <= u32::MAX);
    }
}

/// Whatever the peer, ten samples of a hundred thousand seconds each can be recorded, for as long as
/// the pings can be counted; and that no answer came can be recorded in any case.
pub proof fn pings_can_be_recorded(
    s: PeerConnectionStatus<Seq<char>, Moment, Seq<u32>>,
    latency: Option<u32>,
)
    requires
        s.latency_history.len() <= 10,
        forall|i: int| 0 <= i < s.latency_history.len() ==> #[trigger] s.latency_history[i]
            <= 100_000_000,
    ensures
        latency is None ==> ping_fits(s, latency),
        latency matches Some(sample) ==> sample <= 100_000_000 ==> (ping_fits(s, latency)
            <==> s.ping_count < 0xffff_ffff),
{
    if let Some(sample) = latency {
        if sample <= 100_000_000 {
            let h = kept_samples(s.latency_history, sample);
            assert forall|i: int| 0 <= i < h.len() implies 0 <= #[trigger] h[i]
                <= 100_000_000 by {}
            lemma_total_bounds(h, 0, 100_000_000);
            assert(100_000_000 * h.len() <= 1_000_000_000) by (nonlinear_arith)
                requires
                    h.len() <= 10,
            ;
        }
    }
}

/// Of a peer without a status nothing is known: it is not online, and nothing has been measured or
/// told. Setting the status of a peer sets it for this peer and for no other.
pub proof fn statuses_are_kept_apart(
    before: Map<Seq<char>, PeerConnectionStatus>,
    after: Map<Seq<char>, PeerConnectionStatus>,
    id: Seq<char>,
    other: Seq<char>,
    s: PeerConnectionStatus<Seq<char>, Moment, Seq<u32>>,
)
    requires
        status_set(before, after, id, s),
        other != id,
    ensures
        known_status(after, id) == s,
        after.contains_key(id),
        after.contains_key(other) <==> before.contains_key(other),
        before.contains_key(other) ==> after[other] == before[other] && known_status(after, other)
            == before[other]@,
        !before.contains_key(other) ==> {
            let unknown = known_status(before, other);
            &&& !unknown.online && unknown.last_ping is None && unknown.last_contact is None
            &&& unknown.latency_ms is None && unknown.avg_latency_ms is None
            &&& unknown.latency_history.len() == 0 && unknown.ping_count == 0
            &&& unknown.connection_type == "unknown"@
            &&& unknown.last_upload_speed is None && unknown.last_download_speed is None
            &&& unknown.peer_hostname is None && unknown.peer_os is None
            &&& unknown.peer_version is None && unknown.peer_uptime is None
            &&& unknown.peer_free_space is None && unknown.peer_total_space is None
            &&& unknown.peer_active_transfers is None
        },
{
}

/// A report is taken over as it is told, and nothing else changes.
pub proof fn reports_are_taken_over(
    before: PeerConnectionStatus,
    report: StatusReport,
    after: PeerConnectionStatus,
)
    requires
        after@ == reported(before@, report@),
    ensures
        after.peer_hostname matches Some(t) && t@ == report.hostname@,
        after.peer_os matches Some(t) && t@ == report.os@,
        after.peer_version matches Some(t) && t@ == report.version@,
        after.peer_free_space == Some(report.free_space),
        after.peer_total_space == Some(report.total_space),
        after.peer_uptime matches Some(t) && t@ == report.uptime@,
        after.peer_active_transfers == Some(report.active_transfers),
        before@ == (PeerConnectionStatus {
            peer_hostname: before@.peer_hostname,
            peer_os: before@.peer_os,
            peer_version: before@.peer_version,
            peer_free_space: before@.peer_free_space,
            peer_total_space: before@.peer_total_space,
            peer_uptime: before@.peer_uptime,
            peer_active_transfers: before@.peer_active_transfers,
            ..after@
        }),
{
}

/// A contact makes a peer online and is noted with its time; the speeds of a test are noted each at
/// its own place. Nothing else changes.
pub proof fn contacts_and_speeds_are_noted(
    before: PeerConnectionStatus<Seq<char>, Moment, Seq<u32>>,
    ms: u64,
    upload: Seq<char>,
    download: Seq<char>,
)
    ensures
        seen(before, ms).online && seen(before, ms).last_ping == Some(ms),
        before == (PeerConnectionStatus {
            online: before.online,
            last_ping: before.last_ping,
            ..seen(before, ms)
        }),
        timed(before, upload, download).last_upload_speed == Some(upload),
        timed(before, upload, download).last_download_speed == Some(download),
        before == (PeerConnectionStatus {
            last_upload_speed: before.last_upload_speed,
            last_download_speed: before.last_download_speed,
            ..timed(before, upload, download)
        }),
{
}

/// A peer is online just where its status says so, and not where it has none.
pub proof fn statuses_say_who_is_online(
    statuses: &TextMap<PeerConnectionStatus>,
    id: &str,
    r: bool,
)
    ensures
        call_ensures(is_online, (statuses, id), r) ==> (r <==> statuses@.contains_key(id@)
            && statuses@[id@].online),
{
}

} // verus!
