//! A snapshot of a directory tree and the bounded search for an executable
//! in it.
//!
//! The caller lists the install directory and hands the listing over as a
//! tree of [`FsNode`]s; the search itself is a function of that tree. A path
//! in the tree is the sequence of entry indices that leads to a node.

use crate::text::{chars_eq_ignore_ascii_case, same_ignoring_ascii_case, texts, to_chars};
use vstd::prelude::*;
use vstd::string::*;

verus! {

/// One entry of a directory listing.
pub enum FsNode {
    /// A regular file. The name is `None` where it is not valid Unicode;
    /// such a file matches no name.
    File { name: Option<String> },
    /// A directory with its own listing, in listing order.
    Dir { entries: Vec<FsNode> },
    /// Anything that is neither.
    Other,
}

/// Whether `file_name` is one of `names`, up to the case of ASCII letters.
pub open spec fn is_known_name(names: Seq<Seq<char>>, file_name: Seq<char>) -> bool {
    exists|j: int| 0 <= j < names.len() && same_ignoring_ascii_case(#[trigger] names[j], file_name)
}

/// Whether `node` is a file that goes by one of `names`.
pub open spec fn is_wanted_file(node: FsNode, names: Seq<Seq<char>>) -> bool {
    node matches FsNode::File { name: Some(n) } && is_known_name(names, n@)
}

/// The path of the first file with one of `names` in a listing, searching
/// each directory in listing order and descending into a subdirectory at
/// the place where it is listed. `depth` bounds the search: the listing
/// itself is level one, and nothing is looked at when `depth` is zero.
pub open spec fn first_match(entries: Seq<FsNode>, names: Seq<Seq<char>>, depth: nat) -> Option<
    Seq<int>,
>
    decreases depth, entries.len(),
{
    if depth == 0 || entries.len() == 0 {
        None
    } else {
        match first_match(entries.drop_last(), names, depth) {
            Some(path) => Some(path),
            None => {
                let at = entries.len() - 1;
                match entries.last() {
                    FsNode::File { name } => if is_wanted_file(entries.last(), names) {
                        Some(seq![at])
                    } else {
                        None
                    },
                    FsNode::Dir { entries: below } => match first_match(
                        below@,
                        names,
                        (depth - 1) as nat,
                    ) {
                        Some(path) => Some(seq![at] + path),
                        None => None,
                    },
                    FsNode::Other => None,
                }
            },
        }
    }
}

/// The mathematical form of a search result.
pub open spec fn path_view(path: Option<Vec<usize>>) -> Option<Seq<int>> {
    match path {
        Some(p) => Some(Seq::new(p@.len(), |i: int| p@[i] as int)),
        None => None,
    }
}

fn known_name(names: &Vec<String>, file_name: &str) -> (r: bool)
    ensures
        r == is_known_name(texts(names@), file_name@),
{
    let f = to_chars(file_name);
    let mut j: usize = 0;
    while j < names.len()
        invariant
            j <= names.len(),
            f@ == file_name@,
            forall|k: int|
                0 <= k < j ==> !same_ignoring_ascii_case(
                    #[trigger] texts(names@)[k],
                    file_name@,
                ),
        decreases names.len() - j,
    {
        let n = to_chars(names[j].as_str());
        if chars_eq_ignore_ascii_case(&n, &f) {
            assert(same_ignoring_ascii_case(texts(names@)[j as int], file_name@));
            return true;
        }
        j = j + 1;
    }
    false
}

/// Finds the first file that goes by one of `names`, looking at most
/// `depth` levels deep; the result is its path of entry indices.
pub fn find_first_with_names(entries: &Vec<FsNode>, names: &Vec<String>, depth: u8) -> (found:
    Option<Vec<usize>>)
    ensures
        path_view(found) == first_match(entries@, texts(names@), depth as nat),
    decreases depth,
{
    if depth == 0 {
        return None;
    }
    let ghost wanted = texts(names@);
    let mut i: usize = 0;
    assert(entries@.take(0) =~= Seq::<FsNode>::empty());
    while i < entries.len()
        invariant
            i <= entries.len(),
            depth > 0,
            wanted == texts(names@),
            first_match(entries@.take(i as int), wanted, depth as nat) is None,
        decreases entries.len() - i,
    {
        let ghost upto = entries@.take(i + 1);
        proof {
            assert(upto.drop_last() =~= entries@.take(i as int));
            assert(upto.last() == entries@[i as int]);
            assert(upto.len() - 1 == i);
        }
        match &entries[i] {
            FsNode::File { name } => {
                let hit = match name {
                    Some(n) => known_name(names, n.as_str()),
                    None => false,
                };
                if hit {
                    let mut path: Vec<usize> = Vec::new();
                    path.push(i);
                    proof {
                        assert(first_match(upto, wanted, depth as nat) == Some(seq![i as int]));
                        assert(path_view(Some(path))->0 =~= seq![i as int]);
                        first_match_is_stable(entries@, wanted, depth as nat, i + 1);
                    }
                    return Some(path);
                }
            },
            FsNode::Dir { entries: below } => {
                match find_first_with_names(below, names, depth - 1) {
                    Some(rest) => {
                        let mut path: Vec<usize> = Vec::new();
                        path.push(i);
                        let mut k: usize = 0;
                        while k < rest.len()
                            invariant
                                k <= rest.len(),
                                path@.len() == k + 1,
                                path@[0] == i,
                                forall|m: int| 0 <= m < k ==> path@[m + 1] == rest@[m],
                            decreases rest.len() - k,
                        {
                            path.push(rest[k]);
                            k = k + 1;
                        }
                        proof {
                            let sub = first_match(below@, wanted, (depth - 1) as nat)->0;
                            assert(path_view(Some(rest))->0 == sub);
                            assert(path_view(Some(path))->0 =~= seq![i as int] + sub);
                            first_match_is_stable(entries@, wanted, depth as nat, i + 1);
                        }
                        return Some(path);
                    },
                    None => {},
                }
            },
            FsNode::Other => {},
        }
        i = i + 1;
    }
    assert(entries@.take(entries.len() as int) =~= entries@);
    None
}

/// A match among the first `upto` entries is the match of the whole listing:
/// later entries do not change what was found first.
pub proof fn first_match_is_stable(
    entries: Seq<FsNode>,
    names: Seq<Seq<char>>,
    depth: nat,
    upto: int,
)
    requires
        0 <= upto <= entries.len(),
        first_match(entries.take(upto), names, depth) is Some,
    ensures
        first_match(entries, names, depth) == first_match(entries.take(upto), names, depth),
    decreases entries.len() - upto,
{
    if upto < entries.len() {
        assert(entries.take(upto + 1).drop_last() =~= entries.take(upto));
        first_match_is_stable(entries, names, depth, upto + 1);
    } else {
        assert(entries.take(upto) =~= entries);
    }
}

/// The node that a path of entry indices leads to, if it leads anywhere.
pub open spec fn node_at(entries: Seq<FsNode>, path: Seq<int>) -> Option<FsNode>
    decreases path.len(),
{
    if path.len() == 0 || !(0 <= path[0] < entries.len()) {
        None
    } else if path.len() == 1 {
        Some(entries[path[0]])
    } else {
        match entries[path[0]] {
            FsNode::Dir { entries: below } => node_at(below@, path.drop_first()),
            _ => None,
        }
    }
}

proof fn node_at_ignores_later_entries(entries: Seq<FsNode>, path: Seq<int>)
    requires
        entries.len() > 0,
        path.len() > 0,
        path[0] < entries.len() - 1,
    ensures
        node_at(entries, path) == node_at(entries.drop_last(), path),
{
    if 0 <= path[0] {
        assert(entries.drop_last()[path[0]] == entries[path[0]]);
    }
}

/// What the search finds is a file with one of the names, and it lies
/// within the depth of the search.
pub proof fn found_path_leads_to_a_wanted_file(
    entries: Seq<FsNode>,
    names: Seq<Seq<char>>,
    depth: nat,
)
    requires
        first_match(entries, names, depth) is Some,
    ensures
        1 <= first_match(entries, names, depth)->0.len() <= depth,
        node_at(entries, first_match(entries, names, depth)->0) matches Some(node)
            && is_wanted_file(node, names),
    decreases depth, entries.len(),
{
    let at = entries.len() - 1;
    match first_match(entries.drop_last(), names, depth) {
        Some(path) => {
            found_path_leads_to_a_wanted_file(entries.drop_last(), names, depth);
            node_at_ignores_later_entries(entries, path);
        },
        None => {
            match entries.last() {
                FsNode::Dir { entries: below } => {
                    found_path_leads_to_a_wanted_file(below@, names, (depth - 1) as nat);
                    let sub = first_match(below@, names, (depth - 1) as nat)->0;
                    assert((seq![at] + sub).drop_first() =~= sub);
                },
                _ => {},
            }
        },
    }
}

/// The search misses nothing: where any file with one of the names lies
/// within the depth, the search finds a file.
pub proof fn wanted_file_is_found(
    entries: Seq<FsNode>,
    names: Seq<Seq<char>>,
    depth: nat,
    path: Seq<int>,
)
    requires
        1 <= path.len() <= depth,
        node_at(entries, path) matches Some(node) && is_wanted_file(node, names),
    ensures
        first_match(entries, names, depth) is Some,
    decreases depth, entries.len(),
{
    if path[0] < entries.len() - 1 {
        node_at_ignores_later_entries(entries, path);
        wanted_file_is_found(entries.drop_last(), names, depth, path);
    } else if first_match(entries.drop_last(), names, depth) is None && path.len() > 1 {
        match entries.last() {
            FsNode::Dir { entries: below } => {
                wanted_file_is_found(below@, names, (depth - 1) as nat, path.drop_first());
            },
            _ => {},
        }
    }
}

} // verus!
