//! Paths: their components, their names and their parents.

use vstd::prelude::*;

use crate::seqs;
use crate::text::{blank, lacks, lemma_last_piece, lemma_one_piece, opt_text, pieces};

verus! {

/// Whether a path reads the same on every system: its components are separated by slashes alone,
/// and it names neither a drive nor a server.
pub open spec fn is_portable(path: Seq<char>) -> bool {
    &&& lacks(path, '\\')
    &&& lacks(path, ':')
    &&& !(path.len() >= 2 && path[0] == '/' && path[1] == '/')
}

/// What is between two separators and names something: not nothing, and not the directory itself.
pub open spec fn names_something() -> spec_fn(Seq<char>) -> bool {
    |piece: Seq<char>| piece.len() > 0 && piece != "."@
}

/// The components of a portable path, but for its root. Repeated and trailing separators separate
/// nothing, and a single dot counts at the beginning only.
pub open spec fn components(path: Seq<char>) -> Seq<Seq<char>> {
    let all = pieces(path, '/');
    let first: Seq<Seq<char>> = if all[0] == "."@ {
        seq!["."@]
    } else {
        Seq::empty()
    };
    first + all.filter(names_something())
}

/// Whether a portable path starts at the root.
pub open spec fn is_rooted(path: Seq<char>) -> bool {
    path.len() > 0 && path[0] == '/'
}

/// Whether `part` is a stretch of `whole`.
pub open spec fn is_stretch(part: Seq<char>, whole: Seq<char>) -> bool {
    exists|i: int, j: int| 0 <= i <= j <= whole.len() && part == #[trigger] whole.subrange(i, j)
}

/// Whether a portable path leads to something with a name: it has a last component, which is not
/// the parent of what comes before.
pub open spec fn has_name(path: Seq<char>) -> bool {
    components(path).len() > 0 && components(path).last() != ".."@
}

/// Whether a portable path has no component but a single dot.
pub open spec fn is_dot(path: Seq<char>) -> bool {
    components(path) == seq!["."@]
}

/// `std::path::Path::file_name`: the final component of a path, where it has one and that is not
/// "..". It is a stretch of the path that is not empty. Of a path that reads the same on every
/// system it is the last of its components; nothing is said of one that is a single dot. Other
/// paths have the components that the machine gives them, so which stretch it is stays open.
#[verifier::external_body]
pub(crate) fn final_component(path: &str) -> (r: Option<String>)
    ensures
        r matches Some(name) ==> name@.len() > 0 && is_stretch(name@, path@),
        is_portable(path@) && !is_dot(path@) ==> opt_text(r) == if has_name(path@) {
            Some(components(path@).last())
        } else {
            None
        },
{
    let name = std::path::Path::new(path).file_name()?;
    name.to_str().map(str::to_owned)
}

/// `std::path::Path::parent`: a path without its final component, where it has one. It is a prefix
/// of the path, and shorter. Of a path that reads the same on every system it has all components
/// but the last, and the root where the path has it, and no separator is left at its end but that
/// of the root alone. Other paths have the components that the machine gives them, so which prefix
/// it is stays open.
#[verifier::external_body]
pub(crate) fn parent_of(path: &str) -> (r: Option<String>)
    ensures
        r matches Some(p) ==> p@.len() < path@.len() && p@ == path@.take(p@.len() as int),
        is_portable(path@) ==> (r is Some <==> components(path@).len() > 0),
        is_portable(path@) ==> (r matches Some(p) ==> components(p@) == components(
            path@,
        ).drop_last() && is_rooted(p@) == is_rooted(path@) && (p@.len() > 1 ==> p@.last()
            != '/')),
{
    let parent = std::path::Path::new(path).parent()?;
    parent.to_str().map(str::to_owned)
}

/// Neither the root nor the empty path has components.
pub proof fn lemma_no_components()
    ensures
        components("/"@) == Seq::<Seq<char>>::empty(),
        components(blank()) == Seq::<Seq<char>>::empty(),
        is_portable("/"@),
        is_rooted("/"@),
{
    reveal_strlit("/");
    reveal_strlit(".");
    reveal(Seq::filter);
    let root = "/"@;
    let keep = names_something();
    assert(root.drop_last() =~= blank());
    assert(root.last() == '/');
    assert(pieces(blank(), '/') == seq![blank()]);
    assert(pieces(root, '/') == pieces(root.drop_last(), '/').push(blank()));
    assert(pieces(root, '/') =~= seq![blank(), blank()]);
    assert(seq![blank(), blank()].drop_last() =~= seq![blank()]);
    assert(seq![blank()].drop_last() =~= Seq::<Seq<char>>::empty());
    assert(!keep(blank()));
    assert(Seq::<Seq<char>>::empty().filter(keep) =~= Seq::<Seq<char>>::empty());
    assert(seq![blank()].last() == blank());
    assert(seq![blank()].filter(keep) =~= Seq::<Seq<char>>::empty());
    assert(seq![blank(), blank()].filter(keep) =~= Seq::<Seq<char>>::empty());
    assert(blank() != "."@) by {
        assert("."@.len() == 1);
    }
    assert(components(root) =~= Seq::<Seq<char>>::empty());
    assert(components(blank()) =~= Seq::<Seq<char>>::empty());
}

/// Whether a text can be the name of an entry of a directory.
pub open spec fn is_entry_name(name: Seq<char>) -> bool {
    lacks(name, '/') && name.len() > 0 && name != "."@ && name != ".."@
}

/// A name by itself is the only component of its path.
pub proof fn lemma_single_component(name: Seq<char>)
    requires
        is_entry_name(name),
    ensures
        components(name) == seq![name],
{
    lemma_one_piece(name, '/');
    let all = seq![name];
    let keep = names_something();
    seqs::lemma_filter_start(all, keep);
    seqs::lemma_filter_step(all, keep, 0);
    seqs::lemma_filter_end(all, keep);
    assert(components(name) =~= seq![name]);
}

/// A name in a directory is one more component.
pub proof fn lemma_one_more_component(dir: Seq<char>, name: Seq<char>)
    requires
        lacks(name, '/'),
        name.len() > 0,
        name != "."@,
    ensures
        components(dir + "/"@ + name) == components(dir).push(name),
{
    reveal_strlit("/");
    assert(dir + "/"@ + name =~= dir.push('/') + name);
    lemma_last_piece(dir, name, '/');
    let before = pieces(dir, '/');
    let all = before.push(name);
    let keep = names_something();
    seqs::lemma_filter_step(all, keep, before.len() as int);
    seqs::lemma_filter_end(all, keep);
    assert(all.take(before.len() as int) =~= before);
    assert(all.take(all.len() as int) =~= all);
    crate::text::lemma_some_piece(dir, '/');
    assert(all[0] == before[0]);
    assert(components(dir + "/"@ + name) =~= components(dir).push(name));
}

/// A path is portable where neither a backslash nor a colon stands in it and it does not begin with
/// two slashes, and it starts at the root where it begins with one.
pub proof fn portable_paths_are_plain(path: Seq<char>)
    ensures
        is_portable(path) <==> (forall|i: int|
            0 <= i < path.len() ==> #[trigger] path[i] != '\\' && path[i] != ':') && (path.len()
            < 2 || path[0] != '/' || path[1] != '/'),
        is_rooted(path) <==> path.len() >= 1 && path[0] == '/',
        path.len() == 0 ==> !is_rooted(path),
{
}

/// A path that ends in the name of an entry has a name, and one that ends in the parent of what comes
/// before has none; the root and the empty path have none either, and a single dot stands for itself.
pub proof fn paths_end_in_their_name(dir: Seq<char>, name: Seq<char>)
    requires
        is_entry_name(name),
    ensures
        has_name(dir + "/"@ + name),
        has_name(name),
        !has_name(dir + "/"@ + ".."@),
        !has_name("/"@),
        !has_name(blank()),
        !is_dot(name),
        !is_dot("/"@),
        !is_dot(blank()),
        is_dot("."@),
{
    reveal_strlit("..");
    reveal_strlit(".");
    lemma_one_more_component(dir, name);
    assert(lacks(".."@, '/'));
    assert(".."@.len() == 2 && "."@.len() == 1);
    lemma_one_more_component(dir, ".."@);
    lemma_single_component(name);
    lemma_no_components();
    assert(seq![name][0] == name && seq!["."@][0] == "."@);
    assert(Seq::<Seq<char>>::empty().len() == 0 && seq!["."@].len() == 1);
    assert(lacks("."@, '/'));
    lemma_one_piece("."@, '/');
    let keep = names_something();
    seqs::lemma_filter_one("."@, keep);
    assert(!keep("."@));
    assert(components("."@) =~= seq!["."@]);
}

} // verus!
