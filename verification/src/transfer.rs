//! Transfers: what changes with each event, what is recorded, what is counted, and how transfers
//! are listed.

use vstd::prelude::*;

use crate::binary;
use crate::binary::{nearest_double, Binary, Scaled};
use crate::size::quotient;
use crate::text::{join2, join3, join_texts, joined, opt_text, or_blank, text_or_blank, texts};
use crate::time::{later, secs_between, seconds_between, Moment, UtcTime};

verus! {

/// The state of a transfer.
#[derive(Clone, Copy, Debug, PartialEq, Eq, Structural)]
pub enum Status {
    Pending,
    Running,
    Completed,
    Failed,
    Cancelled,
}

/// What a transfer does.
#[derive(Clone, Copy, Debug, PartialEq, Eq, Structural)]
pub enum Kind {
    Send,
    Receive,
    IrohPush,
    IrohPull,
}

/// Whether a state is the last one.
pub open spec fn terminal(status: Status) -> bool {
    status is Completed || status is Failed || status is Cancelled
}

/// A change to a transfer: what is set, in place of what was there.
#[derive(Debug, PartialEq, Eq)]
pub struct Patch<T = String, P = Scaled> {
    pub status: Option<Status>,
    pub code: Option<T>,
    /// The progress in percent.
    pub progress: Option<P>,
    pub speed: Option<T>,
    /// The bytes transferred, and those in all.
    pub bytes: Option<(u64, u64)>,
    pub error: Option<T>,
    /// The transfer ends at this very time.
    pub completed: bool,
}

impl View for Patch<String, Scaled> {
    type V = Patch<Seq<char>, Binary>;

    open spec fn view(&self) -> Patch<Seq<char>, Binary> {
        Patch {
            status: self.status,
            code: opt_text(self.code),
            progress: match self.progress {
                Some(p) => Some(p@),
                None => None,
            },
            speed: opt_text(self.speed),
            bytes: self.bytes,
            error: opt_text(self.error),
            completed: self.completed,
        }
    }
}

/// No change.
pub open spec fn no_patch() -> Patch<Seq<char>, Binary> {
    Patch {
        status: None,
        code: None,
        progress: None,
        speed: None,
        bytes: None,
        error: None,
        completed: false,
    }
}

/// The transfer is complete.
pub open spec fn completed_patch() -> Patch<Seq<char>, Binary> {
    Patch {
        status: Some(Status::Completed),
        progress: Some(Binary { mant: 100, exp: 0 }),
        completed: true,
        ..no_patch()
    }
}

/// The transfer has failed.
pub open spec fn failed_patch(error: Seq<char>) -> Patch<Seq<char>, Binary> {
    Patch { status: Some(Status::Failed), error: Some(error), ..no_patch() }
}

impl Patch<String, Scaled> {
    /// No change.
    pub fn none() -> (r: Patch)
        ensures
            r@ == no_patch(),
    {
        Patch {
            status: None,
            code: None,
            progress: None,
            speed: None,
            bytes: None,
            error: None,
            completed: false,
        }
    }

    /// The transfer is complete.
    pub fn completed() -> (r: Patch)
        ensures
            r@ == completed_patch(),
    {
        Patch {
            status: Some(Status::Completed),
            progress: Some(Scaled { mant: 100, exp: 0 }),
            completed: true,
            ..Patch::none()
        }
    }

    /// The transfer has failed.
    pub fn failed(error: &str) -> (r: Patch)
        ensures
            r@ == failed_patch(error@),
    {
        Patch { status: Some(Status::Failed), error: Some(error.to_owned()), ..Patch::none() }
    }

    /// The transfer has come to a state, and nothing else has changed.
    pub fn now(status: Status) -> (r: Patch)
        ensures
            r@ == (Patch { status: Some(status), ..no_patch() }),
    {
        Patch { status: Some(status), ..Patch::none() }
    }

    /// The user has cancelled the transfer.
    pub fn cancelled() -> (r: Patch)
        ensures
            r@ == (Patch { status: Some(Status::Cancelled), completed: true, ..no_patch() }),
    {
        Patch { status: Some(Status::Cancelled), completed: true, ..Patch::none() }
    }
}

/// The progress in percent, in double precision: nothing where there is nothing to transfer.
pub open spec fn percent(transferred: nat, total: nat) -> Binary {
    if total == 0 {
        Binary { mant: 0, exp: 0 }
    } else {
        binary::times(binary::over(binary::of_int(transferred), binary::of_int(total)), 100)
    }
}

/// The progress in percent.
pub fn progress_percent(transferred: u64, total: u64) -> (r: Scaled)
    ensures
        r@ == percent(transferred as nat, total as nat),
{
    if total == 0 {
        return Scaled { mant: 0, exp: 0 };
    }
    let q = quotient(transferred, total);
    let p = nearest_double(q.mant * 100, 1);
    proof {
        binary::powers_of_two();
        if transferred > 0 {
            binary::exponent_at_most((q.mant * 100) as nat, 1, 11);
            binary::exponent_at_least((q.mant * 100) as nat, 1, 52);
        }
    }
    Scaled { mant: p.mant, exp: p.exp + q.exp }
}

/// What a transfer between peers reports.
#[derive(Debug, PartialEq, Eq)]
pub enum TransferEvent<T = String> {
    Started,
    Progress { transferred: u64, total: u64, speed: T },
    FileComplete,
    Complete,
    Failed { error: T },
    Cancelled,
}

impl View for TransferEvent<String> {
    type V = TransferEvent<Seq<char>>;

    open spec fn view(&self) -> TransferEvent<Seq<char>> {
        match *self {
            TransferEvent::Started => TransferEvent::Started,
            TransferEvent::Progress { transferred, total, speed } => TransferEvent::Progress {
                transferred,
                total,
                speed: speed@,
            },
            TransferEvent::FileComplete => TransferEvent::FileComplete,
            TransferEvent::Complete => TransferEvent::Complete,
            TransferEvent::Failed { error } => TransferEvent::Failed { error: error@ },
            TransferEvent::Cancelled => TransferEvent::Cancelled,
        }
    }
}

/// Which side began a transfer between peers, and which way the files go.
#[derive(Debug, PartialEq, Eq)]
pub enum Role<T = String> {
    /// A peer pushes files to us, of the size that it has offered.
    ReceivedPush { peer: T, offered: u64 },
    /// A peer pulls files from us.
    ServedPull { peer: T },
    /// We push files to a peer.
    SentPush,
    /// We pull files from a peer.
    FetchedPull { peer: T },
}

impl View for Role<String> {
    type V = Role<Seq<char>>;

    open spec fn view(&self) -> Role<Seq<char>> {
        match *self {
            Role::ReceivedPush { peer, offered } => Role::ReceivedPush { peer: peer@, offered },
            Role::ServedPull { peer } => Role::ServedPull { peer: peer@ },
            Role::SentPush => Role::SentPush,
            Role::FetchedPull { peer } => Role::FetchedPull { peer: peer@ },
        }
    }
}

/// What a completed transfer adds to the session.
#[derive(Clone, Copy, Debug, PartialEq, Eq)]
pub struct Gain {
    pub uploaded: u64,
    pub downloaded: u64,
}

/// What follows from an event. The transfer changes and the session counts first, then the list of
/// transfers is shown anew where `refresh` is set, then the status line changes, the transfer is
/// recorded, and the list is shown once more where `refresh_again` is set.
#[derive(Debug, PartialEq, Eq)]
pub struct TransferStep<T = String, P = Scaled> {
    pub patch: Option<Patch<T, P>>,
    pub gain: Option<Gain>,
    pub refresh: bool,
    pub status: Option<T>,
    pub record: bool,
    pub refresh_again: bool,
}

impl View for TransferStep<String, Scaled> {
    type V = TransferStep<Seq<char>, Binary>;

    open spec fn view(&self) -> TransferStep<Seq<char>, Binary> {
        TransferStep {
            patch: match self.patch {
                Some(p) => Some(p@),
                None => None,
            },
            gain: self.gain,
            refresh: self.refresh,
            status: opt_text(self.status),
            record: self.record,
            refresh_again: self.refresh_again,
        }
    }
}

/// A change that is shown, and nothing else.
pub open spec fn shown(patch: Patch<Seq<char>, Binary>) -> TransferStep<Seq<char>, Binary> {
    TransferStep {
        patch: Some(patch),
        gain: None,
        refresh: true,
        status: None,
        record: false,
        refresh_again: false,
    }
}

/// What a completed transfer adds to the session. `total_size` is the transfer's size as last
/// reported.
pub open spec fn gain_of(role: Role<Seq<char>>, total_size: u64) -> Gain {
    match role {
        Role::ReceivedPush { peer, offered } => Gain { uploaded: 0, downloaded: offered },
        Role::ServedPull { peer } => Gain { uploaded: total_size, downloaded: 0 },
        Role::SentPush => Gain { uploaded: total_size, downloaded: 0 },
        Role::FetchedPull { peer } => Gain { uploaded: 0, downloaded: total_size },
    }
}

/// The status line of a completed transfer.
pub open spec fn completed_text(role: Role<Seq<char>>) -> Seq<char> {
    match role {
        Role::ReceivedPush { peer, offered } => "Received files from "@ + peer,
        Role::ServedPull { peer } => "Pull completed for "@ + peer,
        Role::SentPush => "Push completed successfully"@,
        Role::FetchedPull { peer } => "Pull from "@ + peer + " completed"@,
    }
}

/// The status line of a failed transfer.
pub open spec fn failed_text(role: Role<Seq<char>>, error: Seq<char>) -> Seq<char> {
    match role {
        Role::ReceivedPush { peer, offered } => "Receive failed: "@ + error,
        Role::ServedPull { peer } => "Pull failed: "@ + error,
        Role::SentPush => "Push failed: "@ + error,
        Role::FetchedPull { peer } => "Pull failed: "@ + error,
    }
}

/// What follows from an event of a transfer between peers.
pub open spec fn transfer_step(
    role: Role<Seq<char>>,
    event: TransferEvent<Seq<char>>,
    total_size: u64,
) -> TransferStep<Seq<char>, Binary> {
    match event {
        TransferEvent::Started => shown(Patch { status: Some(Status::Running), ..no_patch() }),
        TransferEvent::Progress { transferred, total, speed } => shown(
            Patch {
                progress: Some(percent(transferred as nat, total as nat)),
                speed: Some(speed),
                bytes: Some((transferred, total)),
                ..no_patch()
            },
        ),
        TransferEvent::FileComplete => TransferStep {
            patch: None,
            refresh: false,
            ..shown(no_patch())
        },
        TransferEvent::Complete => TransferStep {
            gain: Some(gain_of(role, total_size)),
            status: Some(completed_text(role)),
            record: true,
            refresh_again: true,
            ..shown(completed_patch())
        },
        TransferEvent::Failed { error } => TransferStep {
            status: Some(failed_text(role, error)),
            record: true,
            refresh_again: role is ReceivedPush || role is ServedPull,
            ..shown(failed_patch(error))
        },
        TransferEvent::Cancelled => TransferStep {
            status: if role is SentPush {
                Some("Push cancelled"@)
            } else {
                None
            },
            record: true,
            ..shown(Patch { status: Some(Status::Cancelled), ..no_patch() })
        },
    }
}

fn show_patch(patch: Patch) -> (r: TransferStep)
    ensures
        r@ == shown(patch@),
{
    TransferStep {
        patch: Some(patch),
        gain: None,
        refresh: true,
        status: None,
        record: false,
        refresh_again: false,
    }
}

fn completed_line(role: &Role) -> (r: String)
    ensures
        r@ == completed_text(role@),
{
    match role {
        Role::ReceivedPush { peer, .. } => join2("Received files from ", peer.as_str()),
        Role::ServedPull { peer } => join2("Pull completed for ", peer.as_str()),
        Role::SentPush => "Push completed successfully".to_owned(),
        Role::FetchedPull { peer } => join3("Pull from ", peer.as_str(), " completed"),
    }
}

fn failed_line(role: &Role, error: &str) -> (r: String)
    ensures
        r@ == failed_text(role@, error@),
{
    match role {
        Role::ReceivedPush { .. } => join2("Receive failed: ", error),
        Role::ServedPull { .. } => join2("Pull failed: ", error),
        Role::SentPush => join2("Push failed: ", error),
        Role::FetchedPull { .. } => join2("Pull failed: ", error),
    }
}

fn gain_from(role: &Role, total_size: u64) -> (r: Gain)
    ensures
        r == gain_of(role@, total_size),
{
    match role {
        Role::ReceivedPush { offered, .. } => Gain { uploaded: 0, downloaded: *offered },
        Role::ServedPull { .. } => Gain { uploaded: total_size, downloaded: 0 },
        Role::SentPush => Gain { uploaded: total_size, downloaded: 0 },
        Role::FetchedPull { .. } => Gain { uploaded: 0, downloaded: total_size },
    }
}

/// Takes in an event of a transfer between peers. `total_size` is the transfer's size as last
/// reported, zero where the transfer is gone.
pub fn on_transfer_event(role: &Role, event: &TransferEvent, total_size: u64) -> (r: TransferStep)
    ensures
        r@ == transfer_step(role@, event@, total_size),
{
    match event {
        TransferEvent::Started => show_patch(Patch::now(Status::Running)),
        TransferEvent::Progress { transferred, total, speed } => show_patch(
            Patch {
                progress: Some(progress_percent(*transferred, *total)),
                speed: Some(speed.clone()),
                bytes: Some((*transferred, *total)),
                ..Patch::none()
            },
        ),
        TransferEvent::FileComplete => TransferStep {
            patch: None,
            gain: None,
            refresh: false,
            status: None,
            record: false,
            refresh_again: false,
        },
        TransferEvent::Complete => TransferStep {
            gain: Some(gain_from(role, total_size)),
            status: Some(completed_line(role)),
            record: true,
            refresh_again: true,
            ..show_patch(Patch::completed())
        },
        TransferEvent::Failed { error } => {
            let refresh_again = match role {
                Role::ReceivedPush { .. } => true,
                Role::ServedPull { .. } => true,
                _ => false,
            };
            TransferStep {
                status: Some(failed_line(role, error.as_str())),
                record: true,
                refresh_again,
                ..show_patch(Patch::failed(error.as_str()))
            }
        },
        TransferEvent::Cancelled => {
            let status = match role {
                Role::SentPush => Some("Push cancelled".to_owned()),
                _ => None,
            };
            TransferStep { status, record: true, ..show_patch(Patch::now(Status::Cancelled)) }
        },
    }
}

// ---------------------------------------------------------------------------
// History and session

/// What becomes of a transfer that is to be recorded.
#[derive(Clone, Copy, Debug, PartialEq, Eq, Structural)]
pub struct HistoryAction {
    /// The transfer goes into the history.
    pub save: bool,
    /// The transfer leaves the list.
    pub remove: bool,
}

/// What becomes of a transfer that is to be recorded: only one that has ended is, and it leaves the
/// list unless completed transfers are kept there.
pub open spec fn history_action(status: Option<Status>, keep_completed: bool) -> HistoryAction {
    let ended = status matches Some(s) && terminal(s);
    HistoryAction { save: ended, remove: ended && !keep_completed }
}

/// Save a completed transfer to history.
/// If `keep_completed` is false, the transfer is removed from the manager after saving.
/// If `keep_completed` is true, the transfer remains visible in the active transfer list.
/// `status` is that of the transfer, if there still is one.
pub fn save_to_history(status: Option<Status>, keep_completed: bool) -> (r: HistoryAction)
    ensures
        r == history_action(status, keep_completed),
{
    let ended = match status {
        Some(Status::Completed) => true,
        Some(Status::Failed) => true,
        Some(Status::Cancelled) => true,
        _ => false,
    };
    HistoryAction { save: ended, remove: ended && !keep_completed }
}

/// Tracks session statistics for uploads and downloads.
#[derive(Clone, Copy, Debug, PartialEq, Eq)]
pub struct SessionStatsTracker {
    pub bytes_uploaded: u64,
    pub bytes_downloaded: u64,
    pub transfers_completed: u32,
}

/// Whether a transfer can be counted within the widths of the counters.
pub open spec fn can_count(stats: SessionStatsTracker, gain: Gain) -> bool {
    &&& stats.bytes_uploaded + gain.uploaded <= u64::MAX
    &&& stats.bytes_downloaded + gain.downloaded <= u64::MAX
    &&& stats.transfers_completed < u32::MAX
}

/// The statistics with one more completed transfer.
pub open spec fn counted(stats: SessionStatsTracker, gain: Gain) -> SessionStatsTracker {
    SessionStatsTracker {
        bytes_uploaded: (stats.bytes_uploaded + gain.uploaded) as u64,
        bytes_downloaded: (stats.bytes_downloaded + gain.downloaded) as u64,
        transfers_completed: (stats.transfers_completed + 1) as u32,
    }
}

impl SessionStatsTracker {
    /// A session in which nothing has been transferred.
    pub fn new() -> (r: SessionStatsTracker)
        ensures
            r == (SessionStatsTracker {
                bytes_uploaded: 0,
                bytes_downloaded: 0,
                transfers_completed: 0,
            }),
    {
        SessionStatsTracker { bytes_uploaded: 0, bytes_downloaded: 0, transfers_completed: 0 }
    }

    /// Whether a transfer can be counted.
    pub fn has_room_for(&self, gain: &Gain) -> (r: bool)
        ensures
            r == can_count(*self, *gain),
    {
        gain.uploaded <= u64::MAX - self.bytes_uploaded && gain.downloaded <= u64::MAX
            - self.bytes_downloaded && self.transfers_completed < u32::MAX
    }

    /// Counts a completed transfer.
    pub fn count(&mut self, gain: &Gain)
        requires
            can_count(*old(self), *gain),
        ensures
            *final(self) == counted(*old(self), *gain),
    {
        self.bytes_uploaded = self.bytes_uploaded + gain.uploaded;
        self.bytes_downloaded = self.bytes_downloaded + gain.downloaded;
        self.transfers_completed = self.transfers_completed + 1;
    }
}

// ---------------------------------------------------------------------------
// The list of transfers

/// Whether an order of the places of `times` is from the newest to the oldest, with equal times in
/// the order in which they were.
pub open spec fn newest_first(times: Seq<Moment>, order: Seq<usize>) -> bool {
    &&& order.len() == times.len()
    &&& forall|i: int| 0 <= i < order.len() ==> (#[trigger] order[i]) < times.len()
    &&& forall|i: int, j: int|
        0 <= i < j < order.len() ==> before(times, #[trigger] order[i], #[trigger] order[j])
}

/// Whether place `a` comes before place `b`.
pub open spec fn before(times: Seq<Moment>, a: usize, b: usize) -> bool {
    later(times[a as int], times[b as int]) || (!later(times[b as int], times[a as int]) && a < b)
}

/// The views of a list of times.
pub open spec fn moments(v: Seq<UtcTime>) -> Seq<Moment> {
    v.map_values(|t: UtcTime| t@)
}

/// The places of `times` from the newest to the oldest.
pub fn sort_newest_first(times: &Vec<UtcTime>) -> (r: Vec<usize>)
    ensures
        newest_first(moments(times@), r@),
{
    let ghost m = moments(times@);
    let mut order: Vec<usize> = Vec::new();
    for i in 0..times.len()
        invariant
            m == moments(times@),
            order@.len() == i,
            forall|k: int| 0 <= k < order@.len() ==> (#[trigger] order@[k]) < i,
            forall|k: int, l: int|
                0 <= k < l < order@.len() ==> before(m, #[trigger] order@[k], #[trigger] order@[l]),
    {
        let mut at: usize = order.len();
        while at > 0 && times[i].is_after(&times[order[at - 1]])
            invariant
                m == moments(times@),
                i < times@.len(),
                at <= order@.len() == i,
                forall|k: int| 0 <= k < order@.len() ==> (#[trigger] order@[k]) < i,
                forall|k: int|
                    at <= k < order@.len() ==> later(m[i as int], m[(#[trigger] order@[k]) as int]),
            decreases at,
        {
            at = at - 1;
        }
        let ghost old_order = order@;
        order.insert(at, i);
        assert forall|k: int, l: int| 0 <= k < l < order@.len() implies before(
            m,
            #[trigger] order@[k],
            #[trigger] order@[l],
        ) by {
            if l < at {
                assert(order@[k] == old_order[k] && order@[l] == old_order[l]);
            } else if l == at {
                assert(order@[k] == old_order[k]);
                assert(!later(m[i as int], m[old_order[at - 1] as int]));
                if k < at - 1 {
                    assert(before(m, old_order[k], old_order[at - 1]));
                }
            } else if k < at {
                assert(order@[k] == old_order[k] && order@[l] == old_order[l - 1]);
            } else if k == at {
                assert(order@[l] == old_order[l - 1]);
            } else {
                assert(order@[k] == old_order[k - 1] && order@[l] == old_order[l - 1]);
            }
        }
        assert forall|k: int| 0 <= k < order@.len() implies (#[trigger] order@[k]) < i + 1 by {
            if k < at {
                assert(order@[k] == old_order[k]);
            } else if k > at {
                assert(order@[k] == old_order[k - 1]);
            }
        }
    }
    order
}

/// A transfer, as far as it is listed.
#[derive(Debug, PartialEq, Eq)]
pub struct Transfer<T = String, L = Vec<String>> {
    pub id: T,
    pub kind: Kind,
    pub status: Status,
    pub code: Option<T>,
    pub files: L,
    pub speed: T,
    pub error: Option<T>,
    pub total_size: u64,
    pub transferred: u64,
}

impl View for Transfer<String, Vec<String>> {
    type V = Transfer<Seq<char>, Seq<Seq<char>>>;

    open spec fn view(&self) -> Transfer<Seq<char>, Seq<Seq<char>>> {
        Transfer {
            id: self.id@,
            kind: self.kind,
            status: self.status,
            code: opt_text(self.code),
            files: texts(self.files@),
            speed: self.speed@,
            error: opt_text(self.error),
            total_size: self.total_size,
            transferred: self.transferred,
        }
    }
}

/// A row of the list of transfers, but for the progress bar.
#[derive(Debug, PartialEq, Eq)]
pub struct TransferItem<T = String> {
    pub id: T,
    pub transfer_type: T,
    pub status: T,
    pub code: T,
    pub files: T,
    pub speed: T,
    pub error: T,
    /// The bytes to show in all, where their number is known.
    pub total_size: Option<u64>,
    /// The bytes to show as transferred, where there are any.
    pub transferred: Option<u64>,
}

impl View for TransferItem<String> {
    type V = TransferItem<Seq<char>>;

    open spec fn view(&self) -> TransferItem<Seq<char>> {
        TransferItem {
            id: self.id@,
            transfer_type: self.transfer_type@,
            status: self.status@,
            code: self.code@,
            files: self.files@,
            speed: self.speed@,
            error: self.error@,
            total_size: self.total_size,
            transferred: self.transferred,
        }
    }
}

/// The name of a kind of transfer.
pub open spec fn kind_text(kind: Kind) -> Seq<char> {
    match kind {
        Kind::Send => "send"@,
        Kind::Receive => "receive"@,
        Kind::IrohPush => "push"@,
        Kind::IrohPull => "pull"@,
    }
}

/// The name of a state.
pub open spec fn status_text(status: Status) -> Seq<char> {
    match status {
        Status::Pending => "pending"@,
        Status::Running => "running"@,
        Status::Completed => "completed"@,
        Status::Failed => "failed"@,
        Status::Cancelled => "cancelled"@,
    }
}

/// A number of bytes, none where it is zero.
pub open spec fn some_bytes(n: u64) -> Option<u64> {
    if n > 0 {
        Some(n)
    } else {
        None
    }
}

/// A row of the list of transfers.
pub open spec fn listed(t: Transfer<Seq<char>, Seq<Seq<char>>>) -> TransferItem<Seq<char>> {
    TransferItem {
        id: t.id,
        transfer_type: kind_text(t.kind),
        status: status_text(t.status),
        code: text_or_blank(t.code),
        files: joined(t.files, ", "@),
        speed: t.speed,
        error: text_or_blank(t.error),
        total_size: some_bytes(t.total_size),
        transferred: some_bytes(t.transferred),
    }
}

fn show_kind(kind: Kind) -> (r: String)
    ensures
        r@ == kind_text(kind),
{
    match kind {
        Kind::Send => "send".to_owned(),
        Kind::Receive => "receive".to_owned(),
        Kind::IrohPush => "push".to_owned(),
        Kind::IrohPull => "pull".to_owned(),
    }
}

fn show_status(status: Status) -> (r: String)
    ensures
        r@ == status_text(status),
{
    match status {
        Status::Pending => "pending".to_owned(),
        Status::Running => "running".to_owned(),
        Status::Completed => "completed".to_owned(),
        Status::Failed => "failed".to_owned(),
        Status::Cancelled => "cancelled".to_owned(),
    }
}

fn bytes_to_show(n: u64) -> (r: Option<u64>)
    ensures
        r == some_bytes(n),
{
    if n > 0 {
        Some(n)
    } else {
        None
    }
}

/// Lists a transfer.
pub fn transfer_item(t: &Transfer) -> (r: TransferItem)
    ensures
        r@ == listed(t@),
{
    TransferItem {
        id: t.id.clone(),
        transfer_type: show_kind(t.kind),
        status: show_status(t.status),
        code: or_blank(&t.code),
        files: join_texts(&t.files, ", "),
        speed: t.speed.clone(),
        error: or_blank(&t.error),
        total_size: bytes_to_show(t.total_size),
        transferred: bytes_to_show(t.transferred),
    }
}

/// The whole seconds that a transfer has run.
pub fn running_secs(started_at: &UtcTime, now: &UtcTime) -> (r: u64)
    ensures
        r == if secs_between(now@, started_at@) > 0 {
            secs_between(now@, started_at@)
        } else {
            0
        },
{
    let secs: i64 = seconds_between(now, started_at);
    if secs > 0 {
        secs as u64
    } else {
        0
    }
}

/// Whether the time that a transfer has run is listed.
pub fn shows_elapsed(status: Status, elapsed: u64) -> (r: bool)
    ensures
        r == (status is Running && elapsed > 0),
{
    status == Status::Running && elapsed > 0
}

/// Whether a transfer is active.
pub open spec fn is_active(status: Status) -> bool {
    status is Running || status is Pending
}

/// The number of transfers that are active.
pub fn active_count(statuses: &Vec<Status>) -> (r: usize)
    ensures
        r == statuses@.filter(|s: Status| is_active(s)).len(),
{
    let mut n: usize = 0;
    let ghost keep = |s: Status| is_active(s);
    proof {
        crate::seqs::lemma_filter_start(statuses@, keep);
    }
    for i in 0..statuses.len()
        invariant
            keep == (|s: Status| is_active(s)),
            n == statuses@.take(i as int).filter(keep).len(),
            n <= i,
    {
        proof {
            crate::seqs::lemma_filter_step(statuses@, keep, i as int);
        }
        if statuses[i] == Status::Running || statuses[i] == Status::Pending {
            n = n + 1;
        }
    }
    proof {
        crate::seqs::lemma_filter_end(statuses@, keep);
    }
    n
}

// ---------------------------------------------------------------------------
// Laws

/// Only a transfer that has ended is recorded, and it leaves the list just where completed
/// transfers are not kept.
pub proof fn only_ended_transfers_are_recorded(status: Option<Status>, keep_completed: bool)
    ensures
        history_action(status, keep_completed).save ==> (status matches Some(s) && (s is Completed
            || s is Failed || s is Cancelled)),
        history_action(status, keep_completed).remove ==> history_action(
            status,
            keep_completed,
        ).save,
        history_action(status, keep_completed).save ==> history_action(status, keep_completed).remove
            == !keep_completed,
{
}

/// A transfer between peers is recorded just when it ends, and counts for the session just when it
/// completes, on one side only.
pub proof fn ends_are_recorded(
    role: Role<Seq<char>>,
    event: TransferEvent<Seq<char>>,
    total_size: u64,
)
    ensures
        transfer_step(role, event, total_size).record <==> (transfer_step(
            role,
            event,
            total_size,
        ).patch matches Some(p) && p.status matches Some(s) && terminal(s)),
        transfer_step(role, event, total_size).gain is Some <==> event is Complete,
        transfer_step(role, event, total_size).gain matches Some(g) ==> g.uploaded == 0
            || g.downloaded == 0,
{
}

/// What is received counts as downloaded and what is sent as uploaded, whichever side began.
pub proof fn directions_are_counted(role: Role<Seq<char>>, total_size: u64)
    ensures
        role is ServedPull || role is SentPush ==> gain_of(role, total_size).downloaded == 0
            && gain_of(role, total_size).uploaded == total_size,
        role is FetchedPull ==> gain_of(role, total_size).uploaded == 0 && gain_of(
            role,
            total_size,
        ).downloaded == total_size,
        role matches Role::ReceivedPush { peer, offered } ==> gain_of(role, total_size).downloaded
            == offered && gain_of(role, total_size).uploaded == 0,
{
}

/// The counters of a session never fall.
pub proof fn sessions_only_grow(stats: SessionStatsTracker, gain: Gain)
    requires
        can_count(stats, gain),
    ensures
        counted(stats, gain).bytes_uploaded >= stats.bytes_uploaded,
        counted(stats, gain).bytes_downloaded >= stats.bytes_downloaded,
        counted(stats, gain).transfers_completed == stats.transfers_completed + 1,
{
}

/// An order from the newest to the oldest leaves nothing out and lists nothing twice.
pub proof fn orders_are_complete(times: Seq<Moment>, order: Seq<usize>)
    requires
        newest_first(times, order),
    ensures
        forall|k: int| 0 <= k < times.len() ==> #[trigger] order.contains(k as usize),
        forall|i: int, j: int| 0 <= i < j < order.len() ==> order[i] != order[j],
        forall|i: int, j: int|
            0 <= i < j < order.len() ==> !later(
                times[#[trigger] order[j] as int],
                times[#[trigger] order[i] as int],
            ),
{
    assert forall|i: int, j: int| 0 <= i < j < order.len() implies order[i] != order[j] by {
        assert(before(times, order[i], order[j]));
    }
    let n = times.len() as int;
    let places = order.map_values(|place: usize| place as int);
    assert(places.no_duplicates());
    places.unique_seq_to_set();
    vstd::seq_lib::seq_to_set_is_finite(places);
    vstd::set_lib::lemma_int_range(0, n);
    vstd::set_lib::lemma_subset_equality(places.to_set(), vstd::set_lib::set_int_range(0, n));
    assert forall|k: int| 0 <= k < n implies #[trigger] order.contains(k as usize) by {
        assert(places.to_set().contains(k));
        let i = choose|i: int| 0 <= i < places.len() && places[i] == k;
        assert(order[i] == k as usize);
    }
    assert forall|i: int, j: int| 0 <= i < j < order.len() implies !later(
        times[#[trigger] order[j] as int],
        times[#[trigger] order[i] as int],
    ) by {
        assert(before(times, order[i], order[j]));
    }
}

/// A row of the list carries its own transfer: the identifier, the speed and all file names as they
/// are, the code and the error where there are any, and the bytes where there are any.
pub proof fn rows_carry_their_transfer(t: Transfer, row: TransferItem)
    requires
        row@ == listed(t@),
    ensures
        row.id@ == t.id@,
        t.code matches Some(c) ==> row.code@ == c@,
        t.code is None ==> row.code@.len() == 0,
        t.error matches Some(e) ==> row.error@ == e@,
        t.error is None ==> row.error@.len() == 0,
        row.speed@ == t.speed@,
        row.files@ == joined(texts(t.files@), ", "@),
        t.total_size > 0 ==> row.total_size == Some(t.total_size),
        t.total_size == 0 ==> row.total_size is None,
        t.transferred > 0 ==> row.transferred == Some(t.transferred),
        t.transferred == 0 ==> row.transferred is None,
{
}

/// A row says in one word what its transfer does, and in another how it stands; different kinds and
/// different states have different words.
pub proof fn rows_name_kind_and_state(t: Transfer, row: TransferItem)
    requires
        row@ == listed(t@),
    ensures
        row.transfer_type@ == "send"@ <==> t.kind == Kind::Send,
        row.transfer_type@ == "receive"@ <==> t.kind == Kind::Receive,
        row.transfer_type@ == "push"@ <==> t.kind == Kind::IrohPush,
        row.transfer_type@ == "pull"@ <==> t.kind == Kind::IrohPull,
        row.status@ == "pending"@ <==> t.status == Status::Pending,
        row.status@ == "running"@ <==> t.status == Status::Running,
        row.status@ == "completed"@ <==> t.status == Status::Completed,
        row.status@ == "failed"@ <==> t.status == Status::Failed,
        row.status@ == "cancelled"@ <==> t.status == Status::Cancelled,
{
    reveal_strlit("send");
    reveal_strlit("receive");
    reveal_strlit("push");
    reveal_strlit("pull");
    reveal_strlit("pending");
    reveal_strlit("running");
    reveal_strlit("completed");
    reveal_strlit("failed");
    reveal_strlit("cancelled");
    assert("send"@[0] == 's' && "receive"@[0] == 'r' && "push"@[0] == 'p' && "pull"@[0] == 'p');
    assert("push"@[2] == 's' && "pull"@[2] == 'l');
    assert("pending"@[0] == 'p' && "running"@[0] == 'r' && "failed"@[0] == 'f');
    assert("completed"@[1] == 'o' && "cancelled"@[1] == 'a' && "completed"@[0] == 'c');
    assert("cancelled"@[0] == 'c');
}

/// Each report of a transfer between peers changes what it speaks of, and nothing else: a start makes
/// it run, progress sets the numbers that were reported, and each end sets its own state, with the
/// error where there is one.
pub proof fn reports_change_what_they_speak_of(
    role: Role,
    event: TransferEvent,
    total_size: u64,
    step: TransferStep,
)
    requires
        step@ == transfer_step(role@, event@, total_size),
    ensures
        event is Started ==> (step.patch matches Some(p) && p.status == Some(Status::Running)
            && p.error is None && p.bytes is None && p.progress is None && p.speed is None && p.code
            is None && !p.completed),
        event matches TransferEvent::Progress { transferred, total, speed } ==> (
        step.patch matches Some(p) && p.status is None && p.bytes == Some((transferred, total)) && (
        p.speed matches Some(s) && s@ == speed@) && (p.progress matches Some(shown) && shown@
            == percent(transferred as nat, total as nat)) && p.error is None && p.code is None
            && !p.completed),
        event is FileComplete ==> step.patch is None && step.status is None && !step.refresh,
        event is Complete ==> (step.patch matches Some(p) && p.status == Some(Status::Completed)
            && p.completed && p.error is None && (p.progress matches Some(shown) && shown@.mant
            == 100 && shown@.exp == 0)),
        event matches TransferEvent::Failed { error } ==> (step.patch matches Some(p) && p.status
            == Some(Status::Failed) && (p.error matches Some(e) && e@ == error@) && p.progress
            is None && p.bytes is None),
        event is Cancelled ==> (step.patch matches Some(p) && p.status == Some(Status::Cancelled)
            && p.error is None && p.progress is None && p.bytes is None),
        step.refresh <==> !(event is FileComplete),
        step.record <==> event is Complete || event is Failed || event is Cancelled,
        step.gain is Some <==> event is Complete,
        step.refresh_again <==> event is Complete || (event is Failed && (role is ReceivedPush
            || role is ServedPull)),
{
}

/// The user is told how a transfer ended, in the words of its own role, with the peer's name or with
/// the error; while it runs the status line is left alone.
pub proof fn ends_are_told(
    role: Role,
    event: TransferEvent,
    total_size: u64,
    step: TransferStep,
)
    requires
        step@ == transfer_step(role@, event@, total_size),
    ensures
        event is Started || event is Progress || event is FileComplete ==> step.status is None,
        event is Complete ==> (step.status matches Some(line) && match role {
            Role::ReceivedPush { peer, offered } => line@ == "Received files from "@ + peer@,
            Role::ServedPull { peer } => line@ == "Pull completed for "@ + peer@,
            Role::SentPush => line@ == "Push completed successfully"@,
            Role::FetchedPull { peer } => line@ == "Pull from "@ + peer@ + " completed"@,
        }),
        event matches TransferEvent::Failed { error } ==> (step.status matches Some(line) && (
        role is ReceivedPush ==> line@ == "Receive failed: "@ + error@) && (role is SentPush
            ==> line@ == "Push failed: "@ + error@) && (role is ServedPull || role is FetchedPull
            ==> line@ == "Pull failed: "@ + error@)),
        event is Cancelled && role is SentPush ==> (step.status matches Some(line) && line@
            == "Push cancelled"@),
        event is Cancelled && !(role is SentPush) ==> step.status is None,
{
}

/// A completed transfer counts with the bytes that went over, on the side that they went; what was
/// received by a push counts with the size that was offered.
pub proof fn completed_transfers_are_counted(
    role: Role,
    event: TransferEvent,
    total_size: u64,
    step: TransferStep,
)
    requires
        step@ == transfer_step(role@, event@, total_size),
        event is Complete,
    ensures
        role matches Role::ReceivedPush { peer, offered } ==> step.gain == Some(
            Gain { uploaded: 0, downloaded: offered },
        ),
        role is FetchedPull ==> step.gain == Some(Gain { uploaded: 0, downloaded: total_size }),
        role is ServedPull || role is SentPush ==> step.gain == Some(
            Gain { uploaded: total_size, downloaded: 0 },
        ),
{
}

/// The counters of a session grow by just what was transferred, and a transfer can be counted as
/// long as the counters can hold it.
pub proof fn sessions_add_up(stats: SessionStatsTracker, gain: Gain)
    ensures
        can_count(stats, gain) <==> stats.bytes_uploaded + gain.uploaded <= u64::MAX
            && stats.bytes_downloaded + gain.downloaded <= u64::MAX && stats.transfers_completed
            + 1 <= u32::MAX,
        can_count(stats, gain) ==> counted(stats, gain).bytes_uploaded - stats.bytes_uploaded
            == gain.uploaded && counted(stats, gain).bytes_downloaded - stats.bytes_downloaded
            == gain.downloaded && counted(stats, gain).transfers_completed
            - stats.transfers_completed == 1,
{
}

/// A transfer that has ended is always recorded, and stays in the list just where completed
/// transfers are kept; one that has not ended, or is gone, is left alone.
pub proof fn ended_transfers_are_always_recorded(status: Option<Status>, keep_completed: bool)
    ensures
        status == Some(Status::Completed) || status == Some(Status::Failed) || status == Some(
            Status::Cancelled,
        ) ==> history_action(status, keep_completed) == (HistoryAction {
            save: true,
            remove: !keep_completed,
        }),
        status is None || status == Some(Status::Pending) || status == Some(Status::Running)
            ==> history_action(status, keep_completed) == (HistoryAction {
            save: false,
            remove: false,
        }),
{
}

/// Of two transfers the newer one is listed first, to the nanosecond; of two from the same time, the
/// one that came first.
pub proof fn newer_transfers_come_first(times: Seq<Moment>, order: Seq<usize>, i: int, j: int)
    requires
        newest_first(times, order),
        0 <= i < j < order.len(),
    ensures
        times[order[i] as int].secs >= times[order[j] as int].secs,
        times[order[i] as int].secs == times[order[j] as int].secs ==> times[order[i] as int].nanos
            >= times[order[j] as int].nanos,
        times[order[i] as int] == times[order[j] as int] ==> order[i] < order[j],
{
    assert(before(times, order[i], order[j]));
}

/// The active transfers are those that run or wait, and each of them counts once.
pub proof fn active_transfers_are_counted(a: Seq<Status>, b: Seq<Status>, status: Status)
    ensures
        (a + b).filter(|s: Status| is_active(s)).len() == a.filter(|s: Status| is_active(s)).len()
            + b.filter(|s: Status| is_active(s)).len(),
        status == Status::Running || status == Status::Pending ==> seq![status].filter(
            |s: Status| is_active(s),
        ).len() == 1,
        status == Status::Completed || status == Status::Failed || status == Status::Cancelled
            ==> seq![status].filter(|s: Status| is_active(s)).len() == 0,
{
    let keep = |s: Status| is_active(s);
    crate::seqs::lemma_filter_adds(a, b, keep);
    crate::seqs::lemma_filter_one(status, keep);
}

/// The progress of a transfer is the share that has been transferred, in percent, but for the error
/// of double precision; of nothing, nothing has been.
pub proof fn progress_is_told_in_percent(transferred: nat, total: nat)
    ensures
        total == 0 ==> percent(transferred, total).mant == 0 && percent(transferred, total).exp
            == 0,
        total > 0 ==> binary::is_near(percent(transferred, total), 100 * transferred, total, 6),
{
    if total > 0 {
        let q = binary::over(binary::of_int(transferred), binary::of_int(total));
        binary::quotients_are_near(transferred, total);
        binary::multiples_are_near(q, transferred, total, 100);
    }
}

/// A transfer has run for the seconds since its start, and for none where the clock was set back. That
/// shows while it runs, from the first second on. The user's word ends a transfer as cancelled.
pub proof fn running_times_show(
    started_at: &UtcTime,
    now: &UtcTime,
    secs: u64,
    status: Status,
    shown: bool,
    patch: Patch,
)
    ensures
        call_ensures(running_secs, (started_at, now), secs) ==> (secs_between(now@, started_at@)
            >= 0 ==> secs == secs_between(now@, started_at@)) && (secs_between(now@, started_at@)
            < 0 ==> secs == 0),
        call_ensures(shows_elapsed, (status, secs), shown) ==> (shown <==> status
            == Status::Running && secs >= 1),
        call_ensures(Patch::cancelled, (), patch) ==> patch.status == Some(Status::Cancelled)
            && patch.completed && patch.progress is None && patch.speed is None && patch.error
            is None && patch.code is None,
        call_ensures(Patch::now, (status,), patch) ==> patch.status == Some(status)
            && !patch.completed && patch.progress is None && patch.speed is None && patch.error
            is None && patch.code is None,
{
}

/// Of two lists together as many transfers are active as of each of them.
pub proof fn active_transfers_add_up(
    a: &Vec<Status>,
    b: &Vec<Status>,
    both: &Vec<Status>,
    m: usize,
    n: usize,
    sum: usize,
)
    requires
        both@ == a@ + b@,
        call_ensures(active_count, (a,), m),
        call_ensures(active_count, (b,), n),
        call_ensures(active_count, (both,), sum),
    ensures
        sum == m + n,
        a@.len() == 1 ==> m == if a@[0] == Status::Running || a@[0] == Status::Pending {
            1int
        } else {
            0
        },
        a@.len() == 0 ==> m == 0,
{
    let keep = |s: Status| is_active(s);
    crate::seqs::lemma_filter_adds(a@, b@, keep);
    if a@.len() == 1 {
        assert(a@ =~= seq![a@[0]]);
        crate::seqs::lemma_filter_one(a@[0], keep);
    }
    if a@.len() == 0 {
        crate::seqs::lemma_filter_keeps(a@, keep);
    }
}

} // verus!
