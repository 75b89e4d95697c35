//! Browsing the files of a peer: where the user is, what is listed there, and what is chosen.

use vstd::prelude::*;

use crate::files::{is_listed_as, opt_peer};
use crate::paths::{
    components, is_entry_name, is_portable, is_rooted, lemma_no_components, parent_of,
};
use crate::peers::TrustedPeer;
use crate::seqs;
use crate::size::{format_size, size_text};
use crate::text::{blank, decimal, decimal_text, join2, join3, opt_text, same_text, texts};
use crate::time::{exists_in_calendar, format_timestamp_or, minute_text, Moment, UtcTime};

verus! {

/// An entry of a directory, as the peer tells it.
#[derive(Debug, PartialEq, Eq)]
pub struct RemoteEntry<T = String> {
    pub name: T,
    pub is_dir: bool,
    pub size: u64,
    pub modified: Option<i64>,
}

impl View for RemoteEntry<String> {
    type V = RemoteEntry<Seq<char>>;

    open spec fn view(&self) -> RemoteEntry<Seq<char>> {
        RemoteEntry {
            name: self.name@,
            is_dir: self.is_dir,
            size: self.size,
            modified: self.modified,
        }
    }
}

/// An entry of the directory that is shown.
#[derive(Debug, PartialEq, Eq)]
pub struct BrowseEntryData<T = String> {
    pub name: T,
    pub is_dir: bool,
    pub size: u64,
    pub modified: Option<i64>,
    pub path: T,
    pub selected: bool,
}

impl View for BrowseEntryData<String> {
    type V = BrowseEntryData<Seq<char>>;

    open spec fn view(&self) -> BrowseEntryData<Seq<char>> {
        BrowseEntryData {
            name: self.name@,
            is_dir: self.is_dir,
            size: self.size,
            modified: self.modified,
            path: self.path@,
            selected: self.selected,
        }
    }
}

/// The views of a list of entries.
pub open spec fn entries(v: Seq<BrowseEntryData>) -> Seq<BrowseEntryData<Seq<char>>> {
    v.map_values(|e: BrowseEntryData| e@)
}

/// The views of what the peer tells of a directory.
pub open spec fn remote(v: Seq<RemoteEntry>) -> Seq<RemoteEntry<Seq<char>>> {
    v.map_values(|e: RemoteEntry| e@)
}

/// Where the user is.
#[derive(Debug, PartialEq, Eq)]
pub struct BrowseState<T = String, L = Vec<BrowseEntryData>> {
    pub peer_id: T,
    pub peer_name: T,
    pub current_path: T,
    /// The directory shown before.
    pub previous_path: Option<T>,
    pub entries: L,
}

impl View for BrowseState<String, Vec<BrowseEntryData>> {
    type V = BrowseState<Seq<char>, Seq<BrowseEntryData<Seq<char>>>>;

    open spec fn view(&self) -> BrowseState<Seq<char>, Seq<BrowseEntryData<Seq<char>>>> {
        BrowseState {
            peer_id: self.peer_id@,
            peer_name: self.peer_name@,
            current_path: self.current_path@,
            previous_path: opt_text(self.previous_path),
            entries: entries(self.entries@),
        }
    }
}

/// Nowhere.
pub open spec fn nowhere() -> BrowseState<Seq<char>, Seq<BrowseEntryData<Seq<char>>>> {
    BrowseState {
        peer_id: blank(),
        peer_name: blank(),
        current_path: blank(),
        previous_path: None,
        entries: Seq::empty(),
    }
}

// ---------------------------------------------------------------------------
// Opening

/// Why a peer's files are not browsed, if they are not.
pub open spec fn browse_objection(
    id: Seq<char>,
    peer: Option<TrustedPeer<Seq<char>, Moment>>,
) -> Option<Seq<char>> {
    match peer {
        None => Some("Peer not found: "@ + id),
        Some(p) => if !p.their_permissions.browse {
            Some("Peer "@ + p.name + " does not allow browse"@)
        } else {
            None
        },
    }
}

/// Why a peer's files are not browsed, if they are not. `peer` is the peer with the identifier
/// `id`, where there is one.
pub fn refuse_browse(id: &str, peer: &Option<TrustedPeer>) -> (r: Option<String>)
    ensures
        opt_text(r) == browse_objection(id@, opt_peer(*peer)),
{
    match peer {
        None => Some(join2("Peer not found: ", id)),
        Some(p) => {
            if !p.their_permissions.browse {
                Some(join3("Peer ", p.name.as_str(), " does not allow browse"))
            } else {
                None
            }
        },
    }
}

impl BrowseState<String, Vec<BrowseEntryData>> {
    /// No directory is shown.
    pub fn new() -> (r: BrowseState)
        ensures
            r@ == nowhere(),
    {
        let r = BrowseState {
            peer_id: String::new(),
            peer_name: String::new(),
            current_path: String::new(),
            previous_path: None,
            entries: Vec::new(),
        };
        assert(entries(r.entries@) =~= Seq::empty());
        r
    }

    /// Begins to browse a peer's files, at the root.
    pub fn open(&mut self, peer_id: &str, peer_name: &str)
        ensures
            final(self)@ == opened(old(self)@, peer_id@, peer_name@),
    {
        self.peer_id = peer_id.to_owned();
        self.peer_name = peer_name.to_owned();
        self.current_path = "/".to_owned();
        self.entries = Vec::new();
        assert(entries(self.entries@) =~= Seq::empty());
    }
}

/// The state once a peer's files are to be browsed.
pub open spec fn opened(
    s: BrowseState<Seq<char>, Seq<BrowseEntryData<Seq<char>>>>,
    peer_id: Seq<char>,
    peer_name: Seq<char>,
) -> BrowseState<Seq<char>, Seq<BrowseEntryData<Seq<char>>>> {
    BrowseState { peer_id, peer_name, current_path: "/"@, entries: Seq::empty(), ..s }
}

/// The state once the first directory is shown: the root, or where `home` is set the only directory
/// there.
pub open spec fn arrived(
    s: BrowseState<Seq<char>, Seq<BrowseEntryData<Seq<char>>>>,
    home: bool,
    path: Seq<char>,
    listed: Seq<RemoteEntry<Seq<char>>>,
) -> BrowseState<Seq<char>, Seq<BrowseEntryData<Seq<char>>>> {
    BrowseState {
        previous_path: if home {
            Some("/"@)
        } else {
            None
        },
        current_path: path,
        entries: entries_in(path, home, listed),
        ..s
    }
}

/// The only directory at the root, where the root holds nothing else: browsing begins there.
pub open spec fn home_of(path: Seq<char>, listed: Seq<RemoteEntry<Seq<char>>>) -> Option<Seq<char>> {
    if path == "/"@ && listed.len() == 1 && listed[0].is_dir {
        Some(listed[0].name)
    } else {
        None
    }
}

/// The directory in which browsing begins, where it is not the root.
pub fn home_directory(path: &str, listed: &Vec<RemoteEntry>) -> (r: Option<String>)
    ensures
        opt_text(r) == home_of(path@, remote(listed@)),
{
    if same_text(path, "/") && listed.len() == 1 && listed[0].is_dir {
        assert(remote(listed@)[0] == listed@[0]@);
        Some(listed[0].name.clone())
    } else {
        assert(listed@.len() == 1 ==> remote(listed@)[0] == listed@[0]@);
        None
    }
}

/// A name in a directory: at the root it stands for itself.
pub open spec fn path_in(dir: Seq<char>, name: Seq<char>) -> Seq<char> {
    if dir == "/"@ {
        name
    } else {
        dir + "/"@ + name
    }
}

/// An entry of a directory, not chosen yet. Where the directory is the one in which browsing
/// begins, its own name always comes first.
pub open spec fn entry_in(
    dir: Seq<char>,
    home: bool,
    e: RemoteEntry<Seq<char>>,
) -> BrowseEntryData<Seq<char>> {
    BrowseEntryData {
        name: e.name,
        is_dir: e.is_dir,
        size: e.size,
        modified: e.modified,
        path: if home {
            dir + "/"@ + e.name
        } else {
            path_in(dir, e.name)
        },
        selected: false,
    }
}

/// The entries of a directory.
pub open spec fn entries_in(dir: Seq<char>, home: bool, listed: Seq<RemoteEntry<Seq<char>>>) -> Seq<
    BrowseEntryData<Seq<char>>,
> {
    listed.map_values(|e: RemoteEntry<Seq<char>>| entry_in(dir, home, e))
}

fn list_entries_in(dir: &str, home: bool, listed: &Vec<RemoteEntry>) -> (r: Vec<BrowseEntryData>)
    ensures
        entries(r@) == entries_in(dir@, home, remote(listed@)),
{
    let at_root = same_text(dir, "/");
    let mut out: Vec<BrowseEntryData> = Vec::new();
    for i in 0..listed.len()
        invariant
            at_root == (dir@ == "/"@),
            out@.len() == i,
            forall|j: int|
                0 <= j < i ==> (#[trigger] out@[j])@ == entry_in(dir@, home, listed@[j]@),
    {
        let e = &listed[i];
        let path = if at_root && !home {
            e.name.clone()
        } else {
            join3(dir, "/", e.name.as_str())
        };
        out.push(
            BrowseEntryData {
                name: e.name.clone(),
                is_dir: e.is_dir,
                size: e.size,
                modified: e.modified,
                path,
                selected: false,
            },
        );
    }
    assert(entries(out@) =~= entries_in(dir@, home, remote(listed@)));
    out
}

impl BrowseState<String, Vec<BrowseEntryData>> {
    /// The root is shown first.
    pub fn arrive_first(&mut self, path: &str, listed: &Vec<RemoteEntry>)
        ensures
            final(self)@ == arrived(old(self)@, false, path@, remote(listed@)),
    {
        self.previous_path = None;
        self.current_path = path.to_owned();
        self.entries = list_entries_in(path, false, listed);
    }

    /// The only directory at the root is shown first, as if the user had come from the root.
    pub fn arrive_home(&mut self, path: &str, listed: &Vec<RemoteEntry>)
        ensures
            final(self)@ == arrived(old(self)@, true, path@, remote(listed@)),
    {
        self.previous_path = Some("/".to_owned());
        self.current_path = path.to_owned();
        self.entries = list_entries_in(path, true, listed);
    }

    /// The user has moved to another directory. Gives the directory that was shown before.
    pub fn arrive(&mut self, path: &str, listed: &Vec<RemoteEntry>) -> (r: String)
        ensures
            final(self)@ == moved(old(self)@, path@, remote(listed@)),
            r@ == old(self)@.current_path,
    {
        let previous = self.current_path.clone();
        self.previous_path = Some(previous.clone());
        self.current_path = path.to_owned();
        self.entries = list_entries_in(path, false, listed);
        previous
    }

    /// The user closes the browser.
    pub fn close(&mut self)
        ensures
            final(self)@ == nowhere(),
    {
        *self = BrowseState::new();
    }
}

/// The state after a move to another directory.
pub open spec fn moved(
    state: BrowseState<Seq<char>, Seq<BrowseEntryData<Seq<char>>>>,
    path: Seq<char>,
    listed: Seq<RemoteEntry<Seq<char>>>,
) -> BrowseState<Seq<char>, Seq<BrowseEntryData<Seq<char>>>> {
    BrowseState {
        previous_path: Some(state.current_path),
        current_path: path,
        entries: entries_in(path, false, listed),
        ..state
    }
}

// ---------------------------------------------------------------------------
// Moving

/// The components of the directory above the one with these components: at the top there is none.
pub open spec fn above(components: Seq<Seq<char>>) -> Seq<Seq<char>> {
    if components.len() == 0 {
        components
    } else {
        components.drop_last()
    }
}

/// The directory that is asked for. ".." asks for the parent, which at the root is the root itself,
/// and which is the root too where there is none or where it is empty.
pub open spec fn target_of(
    current: Seq<char>,
    asked: Seq<char>,
    parent: Option<Seq<char>>,
) -> Seq<char> {
    if asked != ".."@ {
        asked
    } else if current == "/"@ {
        "/"@
    } else {
        match parent {
            Some(p) => if p.len() == 0 {
                "/"@
            } else {
                p
            },
            None => "/"@,
        }
    }
}

/// The directory that is asked for, where `parent` is the parent of the current one.
pub fn resolve_target(current: &str, asked: &str, parent: Option<String>) -> (r: String)
    ensures
        r@ == target_of(current@, asked@, opt_text(parent)),
{
    if !same_text(asked, "..") {
        asked.to_owned()
    } else if same_text(current, "/") {
        "/".to_owned()
    } else {
        match parent {
            Some(p) => {
                if p.as_str().is_empty() {
                    "/".to_owned()
                } else {
                    p
                }
            },
            None => "/".to_owned(),
        }
    }
}

/// The directory that is asked for. Above a path that reads the same on every system lies the
/// directory with all of its components but the last.
pub fn target_path(current: &str, asked: &str) -> (r: String)
    ensures
        asked@ != ".."@ ==> r@ == asked@,
        asked@ == ".."@ && current@ == "/"@ ==> r@ == "/"@,
        asked@ == ".."@ ==> r@ == "/"@ || (r@.len() < current@.len() && r@.len() > 0 && r@
            == current@.take(r@.len() as int)),
        asked@ == ".."@ && is_portable(current@) ==> components(r@) == above(components(current@)),
        asked@ == ".."@ && is_portable(current@) && is_rooted(current@) ==> is_rooted(r@),
        asked@ == ".."@ && is_portable(current@) && r@.len() > 1 ==> r@.last() != '/',
{
    let parent = parent_of(current);
    proof {
        lemma_no_components();
        reveal_strlit("/");
        if parent is Some && parent->0@.len() == 0 {
            assert(parent->0@ =~= blank());
        }
        assert(components(current@).len() == 0 ==> components(current@) =~= Seq::empty());
    }
    resolve_target(current, asked, parent)
}

/// What the peer is asked for: nothing stands for the root.
pub fn remote_path(target: &str) -> (r: Option<String>)
    ensures
        opt_text(r) == if target@ == "/"@ {
            None
        } else {
            Some(target@)
        },
{
    if same_text(target, "/") {
        None
    } else {
        Some(target.to_owned())
    }
}

// ---------------------------------------------------------------------------
// Choosing

/// The entries with the one at a place chosen or not chosen any more.
pub open spec fn toggled(es: Seq<BrowseEntryData<Seq<char>>>, index: int) -> Seq<
    BrowseEntryData<Seq<char>>,
> {
    if 0 <= index < es.len() {
        es.update(index, BrowseEntryData { selected: !es[index].selected, ..es[index] })
    } else {
        es
    }
}

/// Whether a place lies between an anchor and a target, either way round. A negative anchor is
/// none, and the target then stands for it. Without a target there is no range.
pub open spec fn in_range(i: int, anchor: i32, target: i32) -> bool {
    if target < 0 {
        false
    } else if anchor < 0 {
        i == target
    } else {
        anchor <= i <= target || target <= i <= anchor
    }
}

/// The entries with all files between two places chosen.
pub open spec fn range_selected(es: Seq<BrowseEntryData<Seq<char>>>, anchor: i32, target: i32) -> Seq<
    BrowseEntryData<Seq<char>>,
> {
    Seq::new(
        es.len(),
        |i: int|
            if in_range(i, anchor, target) && !es[i].is_dir {
                BrowseEntryData { selected: true, ..es[i] }
            } else {
                es[i]
            },
    )
}

/// Whether an entry is a file that is chosen.
pub open spec fn is_chosen() -> spec_fn(BrowseEntryData<Seq<char>>) -> bool {
    |e: BrowseEntryData<Seq<char>>| e.selected && !e.is_dir
}

impl BrowseState<String, Vec<BrowseEntryData>> {
    /// Chooses the entry at a place, or chooses it no more.
    pub fn toggle(&mut self, index: i32)
        ensures
            final(self)@ == (BrowseState {
                entries: toggled(old(self)@.entries, index as int),
                ..old(self)@
            }),
    {
        if index >= 0 && (index as usize) < self.entries.len() {
            let ghost before = self.entries@;
            let i: usize = index as usize;
            let e = &self.entries[i];
            let changed = BrowseEntryData {
                name: e.name.clone(),
                is_dir: e.is_dir,
                size: e.size,
                modified: e.modified,
                path: e.path.clone(),
                selected: !e.selected,
            };
            self.entries[i] = changed;
            assert(entries(self.entries@) =~= toggled(entries(before), index as int));
        }
    }

    /// Chooses all files between two places.
    pub fn select_range(&mut self, anchor: i32, target: i32)
        ensures
            final(self)@ == (BrowseState {
                entries: range_selected(old(self)@.entries, anchor, target),
                ..old(self)@
            }),
    {
        let mut out: Vec<BrowseEntryData> = Vec::new();
        for i in 0..self.entries.len()
            invariant
                *self == *old(self),
                out@.len() == i,
                forall|j: int|
                    0 <= j < i ==> (#[trigger] out@[j])@ == range_selected(
                        old(self)@.entries,
                        anchor,
                        target,
                    )[j],
        {
            let e = &self.entries[i];
            let inside = if target < 0 {
                false
            } else if anchor < 0 {
                i == target as usize
            } else {
                (anchor as usize <= i && i <= target as usize) || (target as usize <= i && i
                    <= anchor as usize)
            };
            let chosen = inside && !e.is_dir;
            out.push(
                BrowseEntryData {
                    name: e.name.clone(),
                    is_dir: e.is_dir,
                    size: e.size,
                    modified: e.modified,
                    path: e.path.clone(),
                    selected: chosen || e.selected,
                },
            );
        }
        self.entries = out;
        assert(entries(self.entries@) =~= range_selected(old(self)@.entries, anchor, target));
    }

    /// The number of files that are chosen.
    pub fn selected_count(&self) -> (r: usize)
        ensures
            r == self@.entries.filter(is_chosen()).len(),
    {
        let mut n: usize = 0;
        let ghost es = self@.entries;
        proof {
            seqs::lemma_filter_start(es, is_chosen());
        }
        for i in 0..self.entries.len()
            invariant
                es == self@.entries,
                n == es.take(i as int).filter(is_chosen()).len(),
                n <= i,
        {
            proof {
                seqs::lemma_filter_step(es, is_chosen(), i as int);
            }
            if self.entries[i].selected && !self.entries[i].is_dir {
                n = n + 1;
            }
        }
        proof {
            seqs::lemma_filter_end(es, is_chosen());
        }
        n
    }

    /// The paths of the files that are chosen.
    pub fn selected_paths(&self) -> (r: Vec<String>)
        ensures
            texts(r@) == self@.entries.filter(is_chosen()).map_values(
                |e: BrowseEntryData<Seq<char>>| e.path,
            ),
    {
        let mut out: Vec<String> = Vec::new();
        let ghost es = self@.entries;
        proof {
            seqs::lemma_filter_start(es, is_chosen());
        }
        for i in 0..self.entries.len()
            invariant
                es == self@.entries,
                out@.len() == es.take(i as int).filter(is_chosen()).len(),
                forall|j: int|
                    0 <= j < out@.len() ==> (#[trigger] out@[j])@ == es.take(i as int).filter(
                        is_chosen(),
                    )[j].path,
        {
            proof {
                seqs::lemma_filter_step(es, is_chosen(), i as int);
            }
            if self.entries[i].selected && !self.entries[i].is_dir {
                out.push(self.entries[i].path.clone());
            }
        }
        proof {
            seqs::lemma_filter_end(es, is_chosen());
        }
        assert(texts(out@) =~= es.filter(is_chosen()).map_values(
            |e: BrowseEntryData<Seq<char>>| e.path,
        ));
        out
    }
}

/// Begins to pull the chosen files: the status line, or an error where none is chosen.
pub fn start_pull(count: usize, peer_name: &str) -> (r: Result<String, String>)
    ensures
        match r {
            Err(why) => count == 0 && why@ == "No files selected"@,
            Ok(status) => count > 0 && status@ == "Pulling "@ + decimal(count as nat)
                + " files from "@ + peer_name@ + "..."@,
        },
{
    if count == 0 {
        Err("No files selected".to_owned())
    } else {
        let mut s = join3("Pulling ", decimal_text(count as u64).as_str(), " files from ");
        s.append(peer_name);
        s.append("...");
        Ok(s)
    }
}

// ---------------------------------------------------------------------------
// Showing

/// A row of the browser.
#[derive(Debug, PartialEq, Eq)]
pub struct BrowseEntry<T = String> {
    pub name: T,
    pub is_dir: bool,
    pub size: T,
    pub modified: T,
    pub path: T,
    pub selected: bool,
}

impl View for BrowseEntry<String> {
    type V = BrowseEntry<Seq<char>>;

    open spec fn view(&self) -> BrowseEntry<Seq<char>> {
        BrowseEntry {
            name: self.name@,
            is_dir: self.is_dir,
            size: self.size@,
            modified: self.modified@,
            path: self.path@,
            selected: self.selected,
        }
    }
}

/// A time of change, as text. Seconds that the calendar does not have show as `now`.
pub open spec fn modified_text(modified: Option<i64>, now: Moment) -> Seq<char> {
    match modified {
        Some(secs) => if exists_in_calendar(secs as int, 0) {
            minute_text((Moment { secs: secs as int, nanos: 0 }))
        } else {
            minute_text(now)
        },
        None => "-"@,
    }
}

/// A row of the browser.
pub open spec fn entry_row(e: BrowseEntryData<Seq<char>>, now: Moment) -> BrowseEntry<Seq<char>> {
    BrowseEntry {
        name: e.name,
        is_dir: e.is_dir,
        size: size_text(e.size as nat),
        modified: modified_text(e.modified, now),
        path: e.path,
        selected: e.selected,
    }
}

/// The rows of the browser.
pub fn browse_rows(es: &Vec<BrowseEntryData>, now: &UtcTime) -> (r: Vec<BrowseEntry>)
    ensures
        r@.map_values(|row: BrowseEntry| row@) == entries(es@).map_values(
            |e: BrowseEntryData<Seq<char>>| entry_row(e, now@),
        ),
{
    let mut out: Vec<BrowseEntry> = Vec::new();
    for i in 0..es.len()
        invariant
            out@.len() == i,
            forall|j: int| 0 <= j < i ==> (#[trigger] out@[j])@ == entry_row(es@[j]@, now@),
    {
        let e = &es[i];
        out.push(
            BrowseEntry {
                name: e.name.clone(),
                is_dir: e.is_dir,
                size: format_size(e.size),
                modified: format_timestamp_or(e.modified, now),
                path: e.path.clone(),
                selected: e.selected,
            },
        );
    }
    assert(out@.map_values(|row: BrowseEntry| row@) =~= entries(es@).map_values(
        |e: BrowseEntryData<Seq<char>>| entry_row(e, now@),
    ));
    out
}

// ---------------------------------------------------------------------------
// Laws

/// Choosing twice is not choosing.
pub proof fn toggling_twice_changes_nothing(es: Seq<BrowseEntryData<Seq<char>>>, index: int)
    ensures
        toggled(toggled(es, index), index) == es,
{
    assert(toggled(toggled(es, index), index) =~= es);
}

/// A range chooses files only, leaves chosen what was chosen, and touches nothing outside; it does
/// not matter which end comes first, nor whether it is chosen again. Without an anchor it touches
/// the target alone.
pub proof fn ranges_choose_files(es: Seq<BrowseEntryData<Seq<char>>>, a: i32, b: i32)
    ensures
        forall|i: int|
            0 <= i < es.len() && es[i].is_dir ==> #[trigger] range_selected(es, a, b)[i] == es[i],
        forall|i: int|
            0 <= i < es.len() && es[i].selected ==> (#[trigger] range_selected(es, a, b)[i]).selected,
        forall|i: int|
            0 <= i < es.len() && !in_range(i, a, b) ==> #[trigger] range_selected(es, a, b)[i]
                == es[i],
        a >= 0 && b >= 0 ==> range_selected(es, a, b) == range_selected(es, b, a),
        forall|i: int|
            0 <= i < es.len() && a < 0 && i != b ==> #[trigger] range_selected(es, a, b)[i] == es[i],
        a < 0 && 0 <= b < es.len() && !es[b as int].is_dir ==> range_selected(
            es,
            a,
            b,
        )[b as int].selected,
        range_selected(range_selected(es, a, b), a, b) == range_selected(es, a, b),
{
    if a >= 0 && b >= 0 {
        assert(range_selected(es, a, b) =~= range_selected(es, b, a));
    }
    assert(range_selected(range_selected(es, a, b), a, b) =~= range_selected(es, a, b));
}

/// Going up from a directory that was entered leads back: the directory above an entry is the one
/// that holds it.
pub proof fn parents_undo_entering(dir: Seq<char>, name: Seq<char>)
    requires
        is_entry_name(name),
    ensures
        above(components(path_in(dir, name))) == components(dir),
{
    lemma_no_components();
    if dir == "/"@ {
        crate::paths::lemma_single_component(name);
        assert(seq![name].drop_last() =~= Seq::<Seq<char>>::empty());
    } else {
        crate::paths::lemma_one_more_component(dir, name);
        assert(components(dir).push(name).drop_last() =~= components(dir));
    }
}

/// A file that is pulled out of a directory is listed under the name that it has there.
pub proof fn pulled_files_keep_their_names(dir: Seq<char>, name: Seq<char>, shown: Seq<char>)
    requires
        is_entry_name(name),
        is_portable(path_in(dir, name)),
        is_listed_as(path_in(dir, name), shown),
    ensures
        shown == name,
{
    if dir == "/"@ {
        crate::paths::lemma_single_component(name);
        assert(seq![name].last() == name);
    } else {
        crate::paths::lemma_one_more_component(dir, name);
        assert(components(dir).push(name).last() == name);
    }
}

/// In a directory that has just been reached, nothing is chosen.
pub proof fn arrivals_choose_nothing(
    state: BrowseState<Seq<char>, Seq<BrowseEntryData<Seq<char>>>>,
    path: Seq<char>,
    listed: Seq<RemoteEntry<Seq<char>>>,
)
    ensures
        moved(state, path, listed).entries.filter(is_chosen()).len() == 0,
        moved(state, path, listed).previous_path == Some(state.current_path),
        moved(state, path, listed).peer_id == state.peer_id,
{
    let es = moved(state, path, listed).entries;
    seqs::lemma_filter_keeps(es, is_chosen());
    if es.filter(is_chosen()).len() > 0 {
        let e = es.filter(is_chosen())[0];
        assert(es.contains(e));
        let i = choose|i: int| 0 <= i < es.len() && es[i] == e;
        assert(es[i] == entry_in(path, false, listed[i]));
    }
}

/// A range from one place to another chooses every file from the lesser to the greater of the two,
/// both ends among them, and leaves all other entries as they are; of the files that it chooses it
/// changes nothing else.
pub proof fn ranges_choose_all_between(
    before: BrowseState,
    after: BrowseState,
    anchor: i32,
    target: i32,
    i: int,
)
    requires
        after@ == (BrowseState {
            entries: range_selected(before@.entries, anchor, target),
            ..before@
        }),
        0 <= i < before.entries@.len(),
    ensures
        after.entries@.len() == before.entries@.len(),
        after.current_path@ == before.current_path@,
        after.peer_id@ == before.peer_id@,
        after.entries@[i].name@ == before.entries@[i].name@,
        after.entries@[i].path@ == before.entries@[i].path@,
        after.entries@[i].is_dir == before.entries@[i].is_dir,
        after.entries@[i].size == before.entries@[i].size,
        after.entries@[i].modified == before.entries@[i].modified,
        0 <= anchor <= i <= target && !before.entries@[i].is_dir ==> after.entries@[i].selected,
        0 <= target <= i <= anchor && !before.entries@[i].is_dir ==> after.entries@[i].selected,
        anchor < 0 && i == target && !before.entries@[i].is_dir ==> after.entries@[i].selected,
        before.entries@[i].is_dir || target < 0 || (anchor < 0 && i != target) || (anchor >= 0 && ((
        i < anchor && i < target) || (i > anchor && i > target))) ==> after.entries@[i].selected
            == before.entries@[i].selected,
{
    assert(entries(before.entries@)[i] == before.entries@[i]@);
    assert(entries(after.entries@).len() == after.entries@.len());
    assert(entries(after.entries@)[i] == after.entries@[i]@);
    assert(entries(after.entries@)[i] == range_selected(entries(before.entries@), anchor, target)[i]);
}

/// A click on an entry turns its choice over, file or directory, and touches nothing else; a click
/// beside the list touches nothing.
pub proof fn clicks_turn_one_entry_over(es: Seq<BrowseEntryData<Seq<char>>>, index: int, i: int)
    requires
        0 <= i < es.len(),
    ensures
        toggled(es, index).len() == es.len(),
        i == index ==> toggled(es, index)[i].selected == !es[i].selected,
        i != index ==> toggled(es, index)[i] == es[i],
        (BrowseEntryData { selected: es[i].selected, ..toggled(es, index)[i] }) == es[i],
{
}

/// The files that are pulled are the files that are chosen, all of them and in the order in which
/// they are listed; a directory is not pulled, chosen or not.
pub proof fn chosen_files_are_pulled(
    es: Seq<BrowseEntryData<Seq<char>>>,
    more: Seq<BrowseEntryData<Seq<char>>>,
    e: BrowseEntryData<Seq<char>>,
)
    ensures
        (es + more).filter(is_chosen()) == es.filter(is_chosen()) + more.filter(is_chosen()),
        seq![e].filter(is_chosen()) == if e.selected && !e.is_dir {
            seq![e]
        } else {
            Seq::empty()
        },
{
    seqs::lemma_filter_adds(es, more, is_chosen());
    seqs::lemma_filter_one(e, is_chosen());
}

/// A directory that is reached shows all that the peer has told of it, in that order, each entry
/// under its own name and with its own size, time and kind, and none of it chosen. An entry lies in
/// the directory, but for one at the root, which stands for itself unless browsing begins there.
pub proof fn directories_show_what_was_told(
    dir: Seq<char>,
    home: bool,
    listed: Seq<RemoteEntry<Seq<char>>>,
    i: int,
)
    requires
        0 <= i < listed.len(),
    ensures
        entries_in(dir, home, listed).len() == listed.len(),
        entries_in(dir, home, listed)[i].name == listed[i].name,
        entries_in(dir, home, listed)[i].is_dir == listed[i].is_dir,
        entries_in(dir, home, listed)[i].size == listed[i].size,
        entries_in(dir, home, listed)[i].modified == listed[i].modified,
        !entries_in(dir, home, listed)[i].selected,
        home || dir != "/"@ ==> entries_in(dir, home, listed)[i].path == dir + "/"@
            + listed[i].name,
        !home && dir == "/"@ ==> entries_in(dir, home, listed)[i].path == listed[i].name,
{
}

/// A move leaves the peer as it is, and leads to the directory that was asked for, from the one that
/// was shown.
pub proof fn moves_lead_where_they_say(
    state: BrowseState<Seq<char>, Seq<BrowseEntryData<Seq<char>>>>,
    path: Seq<char>,
    listed: Seq<RemoteEntry<Seq<char>>>,
)
    ensures
        moved(state, path, listed).current_path == path,
        moved(state, path, listed).previous_path == Some(state.current_path),
        moved(state, path, listed).peer_id == state.peer_id,
        moved(state, path, listed).peer_name == state.peer_name,
        moved(state, path, listed).entries == entries_in(path, false, listed),
        nowhere().entries.len() == 0 && nowhere().previous_path is None,
        nowhere().peer_id.len() == 0 && nowhere().peer_name.len() == 0 && nowhere().current_path.len()
            == 0,
{
}

/// Browsing begins in a directory just where that is all there is at the root.
pub proof fn browsing_begins_in_the_only_directory(
    path: Seq<char>,
    listed: Seq<RemoteEntry<Seq<char>>>,
)
    ensures
        path == "/"@ && listed.len() == 1 && listed[0].is_dir ==> home_of(path, listed) == Some(
            listed[0].name,
        ),
        path != "/"@ || listed.len() != 1 || !listed[0].is_dir ==> home_of(path, listed) is None,
{
}

/// A directory that is named is the one that is asked for, and going up asks for the parent, or for
/// the root where there is none to ask for.
pub proof fn steps_lead_to_their_target(
    current: Seq<char>,
    asked: Seq<char>,
    parent: Option<Seq<char>>,
)
    ensures
        asked != ".."@ ==> target_of(current, asked, parent) == asked,
        asked == ".."@ && current != "/"@ ==> (parent matches Some(p) ==> p.len() > 0 ==> target_of(
            current,
            asked,
            parent,
        ) == p),
        asked == ".."@ && (current == "/"@ || parent is None || parent->0.len() == 0) ==> target_of(
            current,
            asked,
            parent,
        ) == "/"@,
{
}

/// A peer's files are browsed just where there is such a peer and it allows that.
pub proof fn willing_peers_are_browsed(
    id: Seq<char>,
    peer: Option<TrustedPeer<Seq<char>, Moment>>,
)
    ensures
        browse_objection(id, peer) is None <==> (peer matches Some(p) && p.their_permissions.browse),
        peer is None ==> browse_objection(id, peer) == Some("Peer not found: "@ + id),
        peer matches Some(p) ==> !p.their_permissions.browse ==> browse_objection(id, peer) == Some(
            "Peer "@ + p.name + " does not allow browse"@,
        ),
{
}

/// A row of the browser shows its own entry: the name, the path, the kind and the choice as they
/// are, and the size and the time of change as text.
pub proof fn rows_show_their_entry(e: BrowseEntryData, row: BrowseEntry, now: Moment)
    requires
        row@ == entry_row(e@, now),
    ensures
        row.name@ == e.name@,
        row.path@ == e.path@,
        row.is_dir == e.is_dir,
        row.selected == e.selected,
        row.size@ == size_text(e.size as nat),
        e.modified is None ==> row.modified@ == "-"@,
        e.modified matches Some(secs) ==> exists_in_calendar(secs as int, 0) ==> row.modified@
            == minute_text((Moment { secs: secs as int, nanos: 0 })),
        e.modified matches Some(secs) ==> !exists_in_calendar(secs as int, 0) ==> row.modified@
            == minute_text(now),
{
}

/// A pull begins as soon as a file is chosen, and says how many are pulled and from whom; without one
/// it does not. The root is asked for without a path, and any other directory by its own.
pub proof fn pulls_begin_with_a_choice(
    count: usize,
    peer_name: &str,
    r: Result<String, String>,
    target: &str,
    asked: Option<String>,
)
    ensures
        call_ensures(start_pull, (count, peer_name), r) ==> {
            &&& r is Ok <==> count > 0
            &&& r matches Ok(line) ==> line@ == "Pulling "@ + decimal(count as nat)
                + " files from "@ + peer_name@ + "..."@
            &&& r matches Err(why) ==> why@ == "No files selected"@
        },
        call_ensures(remote_path, (target,), asked) ==> (asked is None <==> target@ == "/"@) && (
        asked matches Some(path) ==> path@ == target@),
{
}

/// A browser that is opened shows the peer's root, with nothing in it yet. Where it arrives first it
/// has come from nowhere, but the only directory at the root is shown as if the user had come from the
/// root. All else stays as it was.
pub proof fn browsers_open_at_the_root(
    before: BrowseState<Seq<char>, Seq<BrowseEntryData<Seq<char>>>>,
    peer_id: Seq<char>,
    peer_name: Seq<char>,
    path: Seq<char>,
    listed: Seq<RemoteEntry<Seq<char>>>,
)
    ensures
        ({
            let after = opened(before, peer_id, peer_name);
            &&& after.peer_id == peer_id && after.peer_name == peer_name
            &&& after.current_path == "/"@ && after.entries.len() == 0
            &&& before == (BrowseState {
                peer_id: before.peer_id,
                peer_name: before.peer_name,
                current_path: before.current_path,
                entries: before.entries,
                ..after
            })
        }),
        forall|home: bool| #![trigger arrived(before, home, path, listed)]
            {
                let after = arrived(before, home, path, listed);
                &&& home ==> after.previous_path == Some("/"@)
                &&& !home ==> after.previous_path is None
                &&& after.current_path == path
                &&& after.entries == entries_in(path, home, listed)
                &&& before == (BrowseState {
                    previous_path: before.previous_path,
                    current_path: before.current_path,
                    entries: before.entries,
                    ..after
                })
            },
{
}

/// The browser shows a row for each entry, in their order.
pub proof fn every_entry_has_its_row(
    es: &Vec<BrowseEntryData>,
    now: &UtcTime,
    r: Vec<BrowseEntry>,
    i: int,
)
    requires
        call_ensures(browse_rows, (es, now), r),
        0 <= i < es@.len(),
    ensures
        r@.len() == es@.len(),
        r@[i].name@ == es@[i].name@,
        r@[i].path@ == es@[i].path@,
        r@[i].is_dir == es@[i].is_dir,
        r@[i].selected == es@[i].selected,
        r@[i].size@ == size_text(es@[i].size as nat),
{
    assert(r@.map_values(|row: BrowseEntry| row@).len() == r@.len());
    assert(r@.map_values(|row: BrowseEntry| row@)[i] == r@[i]@);
    assert(entries(es@)[i] == es@[i]@);
}

} // verus!
