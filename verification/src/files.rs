//! Files that the user has chosen to send, and the names of files.

use vstd::prelude::*;

use crate::paths::{components, final_component, has_name, is_dot, is_portable, is_stretch};
use crate::peers::TrustedPeer;
use crate::text::{chars_of, join2, join3, opt_text, text_of, texts};
use crate::time::Moment;

verus! {

/// The name under which a file is listed: its final component, or the whole path where there is
/// none.
pub fn name_or_path(path: &str, component: Option<String>) -> (r: String)
    ensures
        r@ == (match opt_text(component) {
            Some(name) => name,
            None => path@,
        }),
{
    match component {
        Some(name) => name,
        None => path.to_owned(),
    }
}

/// Whether `name` is the name under which the file at a path is listed. Of a path that reads the
/// same on every system that is its last component, or the whole path where that has no name.
pub open spec fn is_listed_as(path: Seq<char>, name: Seq<char>) -> bool {
    &&& is_stretch(name, path)
    &&& path.len() > 0 ==> name.len() > 0
    &&& is_portable(path) && !is_dot(path) ==> name == if has_name(path) {
        components(path).last()
    } else {
        path
    }
}

/// The name under which a file is listed.
pub fn listed_name(path: &str) -> (r: String)
    ensures
        is_listed_as(path@, r@),
{
    let component = final_component(path);
    assert(path@.subrange(0, path@.len() as int) =~= path@);
    name_or_path(path, component)
}

/// The names under which files are listed, one for each path.
pub fn listed_names(paths: &Vec<String>) -> (r: Vec<String>)
    ensures
        r@.len() == paths@.len(),
        forall|i: int| 0 <= i < r@.len() ==> is_listed_as(paths@[i]@, (#[trigger] r@[i])@),
{
    let mut out: Vec<String> = Vec::new();
    for i in 0..paths.len()
        invariant
            out@.len() == i,
            forall|j: int| 0 <= j < i ==> is_listed_as(paths@[j]@, (#[trigger] out@[j])@),
    {
        out.push(listed_name(paths[i].as_str()));
    }
    out
}

/// A path without the prefix that marks it as verbatim on some systems.
pub open spec fn plain_path(path: Seq<char>) -> Seq<char> {
    if path.len() >= 4 && path.take(4) == seq!['\\', '\\', '?', '\\'] {
        path.skip(4)
    } else {
        path
    }
}

/// Takes the verbatim prefix off a path.
pub fn strip_verbatim(path: &str) -> (r: String)
    ensures
        r@ == plain_path(path@),
{
    let chars = chars_of(path);
    let n: usize = chars.len();
    if n >= 4 && chars[0] == '\\' && chars[1] == '\\' && chars[2] == '?' && chars[3] == '\\' {
        assert(path@.take(4) =~= seq!['\\', '\\', '?', '\\']);
        assert(path@.skip(4) =~= path@.subrange(4, n as int));
        text_of(&chars, 4, n)
    } else {
        assert(n >= 4 ==> path@.take(4) != seq!['\\', '\\', '?', '\\']) by {
            if n >= 4 {
                let t = path@.take(4);
                let u = seq!['\\', '\\', '?', '\\'];
                assert(t[0] == path@[0] && t[1] == path@[1] && t[2] == path@[2] && t[3] == path@[3]);
                assert(u[0] == '\\' && u[1] == '\\' && u[2] == '?' && u[3] == '\\');
            }
        }
        path.to_owned()
    }
}

/// A file that the user has chosen.
#[derive(Debug, PartialEq, Eq)]
pub struct SelectedFileData<T = String> {
    pub name: T,
    pub size: u64,
    pub path: T,
}

impl View for SelectedFileData<String> {
    type V = SelectedFileData<Seq<char>>;

    open spec fn view(&self) -> SelectedFileData<Seq<char>> {
        SelectedFileData { name: self.name@, size: self.size, path: self.path@ }
    }
}

/// The views of a list of chosen files.
pub open spec fn chosen(v: Seq<SelectedFileData>) -> Seq<SelectedFileData<Seq<char>>> {
    v.map_values(|f: SelectedFileData| f@)
}

/// A chosen file, under the final component of its path where it has one.
pub fn selected_file(component: Option<String>, size: u64, path: String) -> (r: SelectedFileData)
    ensures
        r@ == (SelectedFileData {
            name: match opt_text(component) {
                Some(name) => name,
                None => "unknown"@,
            },
            size,
            path: path@,
        }),
{
    let name = match component {
        Some(name) => name,
        None => "unknown".to_owned(),
    };
    SelectedFileData { name, size, path }
}

/// The chosen file at a path, under the final component of the path where it has one.
pub fn chosen_file(path: &str, size: u64) -> (r: SelectedFileData)
    ensures
        r@.size == size,
        r@.path == path@,
        r@.name == "unknown"@ || is_stretch(r@.name, path@),
        is_portable(path@) && !is_dot(path@) ==> r@.name == if has_name(path@) {
            components(path@).last()
        } else {
            "unknown"@
        },
{
    selected_file(final_component(path), size, path.to_owned())
}

/// Adds files to those chosen before.
pub fn add_files(files: &mut Vec<SelectedFileData>, more: Vec<SelectedFileData>)
    ensures
        final(files)@ == old(files)@ + more@,
{
    let mut more = more;
    files.append(&mut more);
}

/// The files without the one at a place, where there is such a place.
pub open spec fn without_file<A>(files: Seq<A>, index: int) -> Seq<A> {
    if 0 <= index < files.len() {
        files.remove(index)
    } else {
        files
    }
}

/// Takes one file out of those chosen, and says whether there was such a file.
pub fn remove_file(files: &mut Vec<SelectedFileData>, index: i32) -> (r: bool)
    ensures
        final(files)@ == without_file(old(files)@, index as int),
        r == (0 <= index < old(files)@.len()),
{
    if index >= 0 && (index as usize) < files.len() {
        let _ = files.remove(index as usize);
        true
    } else {
        false
    }
}

/// The names and the paths of chosen files.
pub fn names_and_paths(files: &Vec<SelectedFileData>) -> (r: (Vec<String>, Vec<String>))
    ensures
        texts(r.0@) == chosen(files@).map_values(|f: SelectedFileData<Seq<char>>| f.name),
        texts(r.1@) == chosen(files@).map_values(|f: SelectedFileData<Seq<char>>| f.path),
{
    let mut names: Vec<String> = Vec::new();
    let mut paths: Vec<String> = Vec::new();
    for i in 0..files.len()
        invariant
            names@.len() == i,
            paths@.len() == i,
            forall|j: int| 0 <= j < i ==> (#[trigger] names@[j])@ == files@[j].name@,
            forall|j: int| 0 <= j < i ==> (#[trigger] paths@[j])@ == files@[j].path@,
    {
        names.push(files[i].name.clone());
        paths.push(files[i].path.clone());
    }
    assert(texts(names@) =~= chosen(files@).map_values(|f: SelectedFileData<Seq<char>>| f.name));
    assert(texts(paths@) =~= chosen(files@).map_values(|f: SelectedFileData<Seq<char>>| f.path));
    (names, paths)
}

/// Begins to send files by code: the status line, or nothing where no files are chosen, and so
/// nothing is sent.
pub fn start_send(count: usize) -> (r: Option<String>)
    ensures
        opt_text(r) == if count == 0 {
            None
        } else {
            Some("Starting send..."@)
        },
{
    if count == 0 {
        None
    } else {
        Some("Starting send...".to_owned())
    }
}

/// Why files are not pushed to a peer, if they are not. `peer` is the peer with the identifier
/// `id`, where there is one.
pub open spec fn push_objection(
    any_files: bool,
    id: Seq<char>,
    peer: Option<TrustedPeer<Seq<char>, Moment>>,
) -> Option<Seq<char>> {
    if !any_files {
        Some("No files selected for push"@)
    } else {
        match peer {
            None => Some("Peer not found: "@ + id),
            Some(p) => if !p.their_permissions.push {
                Some("Peer "@ + p.name + " does not allow push"@)
            } else {
                None
            },
        }
    }
}

/// The peer, where there is one.
pub open spec fn opt_peer(o: Option<TrustedPeer>) -> Option<TrustedPeer<Seq<char>, Moment>> {
    match o {
        Some(p) => Some(p@),
        None => None,
    }
}

/// Begins a push: the status line, as an error where no push is begun.
pub fn start_push(any_files: bool, id: &str, peer: &Option<TrustedPeer>) -> (r: Result<
    String,
    String,
>)
    ensures
        match r {
            Err(why) => push_objection(any_files, id@, opt_peer(*peer)) == Some(why@),
            Ok(status) => push_objection(any_files, id@, opt_peer(*peer)) is None && (
            *peer matches Some(p) && status@ == "Starting push to "@ + p@.name + "..."@),
        },
{
    if !any_files {
        return Err("No files selected for push".to_owned());
    }
    match peer {
        None => Err(join2("Peer not found: ", id)),
        Some(p) => {
            if !p.their_permissions.push {
                Err(join3("Peer ", p.name.as_str(), " does not allow push"))
            } else {
                Ok(join3("Starting push to ", p.name.as_str(), "..."))
            }
        },
    }
}

/// Taking a file out leaves the others in their order.
pub proof fn removal_keeps_the_rest<A>(files: Seq<A>, index: int)
    ensures
        0 <= index < files.len() ==> without_file(files, index) == files.take(index) + files.skip(
            index + 1,
        ),
        !(0 <= index < files.len()) ==> without_file(files, index) == files,
{
    if 0 <= index < files.len() {
        assert(files.remove(index) =~= files.take(index) + files.skip(index + 1));
    }
}

/// Files are pushed just where some are chosen and the peer is there and allows it; what stands
/// against it is told in that order.
pub proof fn willing_peers_are_pushed_to(
    any_files: bool,
    id: Seq<char>,
    peer: Option<TrustedPeer<Seq<char>, Moment>>,
)
    ensures
        push_objection(any_files, id, peer) is None <==> any_files && (peer matches Some(p)
            && p.their_permissions.push),
        !any_files ==> push_objection(any_files, id, peer) == Some("No files selected for push"@),
        any_files && peer is None ==> push_objection(any_files, id, peer) == Some(
            "Peer not found: "@ + id,
        ),
        any_files ==> (peer matches Some(p) ==> !p.their_permissions.push ==> push_objection(
            any_files,
            id,
            peer,
        ) == Some("Peer "@ + p.name + " does not allow push"@)),
{
}

/// The verbatim prefix is taken off and put nowhere else: a path with it loses just that, and one
/// without it stays as it is.
pub proof fn verbatim_prefixes_are_taken_off(path: Seq<char>)
    ensures
        plain_path("\\\\?\\"@ + path) == path,
        !("\\\\?\\"@ =~= path.take(4)) || path.len() < 4 ==> plain_path(path) == path,
{
    reveal_strlit("\\\\?\\");
    let prefix = "\\\\?\\"@;
    assert(prefix =~= seq!['\\', '\\', '?', '\\']);
    assert((prefix + path).take(4) =~= prefix);
    assert((prefix + path).skip(4) =~= path);
}

/// A file that lies in a directory is listed under the last part of its path, whatever the directory.
pub proof fn files_are_listed_by_their_last_part(dir: Seq<char>, name: Seq<char>, shown: Seq<char>)
    requires
        crate::paths::is_entry_name(name),
        is_portable(dir + "/"@ + name),
        is_listed_as(dir + "/"@ + name, shown),
    ensures
        shown == name,
{
    crate::paths::lemma_one_more_component(dir, name);
    assert(components(dir).push(name).last() == name);
    assert(components(dir).push(name).len() > 0);
    if is_dot(dir + "/"@ + name) {
        assert(seq!["."@].last() == "."@);
    }
}

/// Taking a file out takes out that file: the list is one shorter, what was before it keeps its
/// place, and what was behind it moves up by one.
pub proof fn removal_takes_one_file<A>(files: Seq<A>, index: int, i: int)
    ensures
        0 <= index < files.len() ==> without_file(files, index).len() == files.len() - 1,
        0 <= i < index < files.len() ==> without_file(files, index)[i] == files[i],
        0 <= index <= i < files.len() - 1 ==> without_file(files, index)[i] == files[i + 1],
        index < 0 || index >= files.len() ==> without_file(files, index) == files,
{
}

/// A chosen file keeps its size and its path and goes by its own name, where it has one. Files are
/// sent as soon as one is chosen, and pushed to whoever allows it, by name.
pub proof fn chosen_files_are_handed_on(
    component: Option<String>,
    size: u64,
    path: String,
    file: SelectedFileData,
    shown: String,
    count: usize,
    sent: Option<String>,
    id: &str,
    peer: &Option<TrustedPeer>,
    pushed: Result<String, String>,
)
    ensures
        call_ensures(selected_file, (component, size, path), file) ==> file.size == size
            && file.path@ == path@ && file.name@ == match component {
            Some(name) => name@,
            None => "unknown"@,
        },
        call_ensures(name_or_path, (id, component), shown) ==> shown@ == match component {
            Some(name) => name@,
            None => id@,
        },
        call_ensures(start_send, (count,), sent) ==> (sent is Some <==> count > 0) && (
        sent matches Some(line) ==> line@ == "Starting send..."@),
        call_ensures(start_push, (count > 0, id, peer), pushed) ==> {
            &&& pushed is Ok <==> count > 0 && (*peer matches Some(p) && p.their_permissions.push)
            &&& pushed matches Ok(line) ==> (*peer matches Some(p) && line@ == "Starting push to "@
                + p.name@ + "..."@)
        },
{
}

/// The names and the paths of chosen files are those of each of them, in their order.
pub proof fn names_and_paths_go_together(
    files: &Vec<SelectedFileData>,
    r: (Vec<String>, Vec<String>),
    i: int,
)
    requires
        call_ensures(names_and_paths, (files,), r),
        0 <= i < files@.len(),
    ensures
        r.0@.len() == files@.len(),
        r.1@.len() == files@.len(),
        r.0@[i]@ == files@[i].name@,
        r.1@[i]@ == files@[i].path@,
{
    assert(texts(r.0@).len() == chosen(files@).len() && texts(r.1@).len() == chosen(files@).len());
    assert(texts(r.0@)[i] == chosen(files@)[i].name);
    assert(texts(r.1@)[i] == chosen(files@)[i].path);
}

} // verus!
