use vstd::prelude::*;
use vstd::seq_lib::*;

verus! {

/// The directory name whose entries a header copy skips: version-control
/// metadata that must not reach the mirrored `include/` tree.
pub open spec fn vcs_dir_name() -> Seq<char> {
    ".git"@
}

/// True of a path component that names version-control metadata.
pub open spec fn is_vcs_name(name: Seq<char>) -> bool {
    name == vcs_dir_name()
}

/// A relative path (a sequence of components) is excluded from a header
/// copy when any component names version-control metadata: skipping a
/// directory takes everything beneath it along.
pub open spec fn excluded_from_copy(path: Seq<Seq<char>>) -> bool {
    exists|i: int| 0 <= i < path.len() && is_vcs_name(path[i])
}

/// True of a relative path that a header copy must mirror.
pub open spec fn kept_by_copy(path: Seq<Seq<char>>) -> bool {
    !excluded_from_copy(path)
}

/// The entries a header copy mirrors, in their listed order: all of
/// `entries` except those under version-control metadata.
pub open spec fn copied_entries(entries: Seq<Seq<Seq<char>>>) -> Seq<Seq<Seq<char>>> {
    entries.filter(|p: Seq<Seq<char>>| kept_by_copy(p))
}

/// Decides whether one entry of the source header tree, given as its
/// relative path split into components, is mirrored by a header copy.
pub fn keep_entry(path: &Vec<String>) -> (r: bool)
    ensures
        r == kept_by_copy(path.deep_view()),
{
    let needle: String = ".git".to_owned();
    let mut i: usize = 0;
    while i < path.len()
        invariant
            i <= path.len(),
            needle@ == vcs_dir_name(),
            forall|j: int| 0 <= j < i ==> !is_vcs_name(path.deep_view()[j]),
        decreases path.len() - i,
    {
        if needle.eq(&path[i]) {
            proof {
                assert(is_vcs_name(path.deep_view()[i as int]));
            }
            return false;
        }
        i += 1;
    }
    true
}

/// Plans a header copy over a listing of the source tree: of all entries
/// (relative paths, listed recursively, order as the caller found them),
/// exactly those outside version-control metadata are returned, in their
/// listed order. The destination's prior contents play no part: a copy
/// replaces, it never merges.
pub fn plan_header_copy(entries: &Vec<Vec<String>>) -> (kept: Vec<Vec<String>>)
    ensures
        kept.deep_view() == copied_entries(entries.deep_view()),
{
    let mut kept: Vec<Vec<String>> = Vec::new();
    let mut i: usize = 0;
    while i < entries.len()
        invariant
            i <= entries.len(),
            kept.deep_view() =~= entries.deep_view().take(i as int).filter(
                |p: Seq<Seq<char>>| kept_by_copy(p),
            ),
        decreases entries.len() - i,
    {
        proof {
            entries.deep_view().lemma_take_succ_push(i as int);
            entries.deep_view().take(i as int).lemma_filter_push(
                entries.deep_view()[i as int],
                |p: Seq<Seq<char>>| kept_by_copy(p),
            );
        }
        let ghost prev = kept.deep_view();
        if keep_entry(&entries[i]) {
            let entry = entries[i].clone();
            proof {
                assert(entry.deep_view() =~= entries[i as int].deep_view());
            }
            kept.push(entry);
            proof {
                assert(kept.deep_view() =~= prev.push(entries.deep_view()[i as int]));
            }
        }
        i += 1;
    }
    proof {
        assert(entries.deep_view().take(entries.len() as int) =~= entries.deep_view());
    }
    kept
}

/// Everything outside version-control metadata is mirrored, nothing else
/// is: an entry appears in the planned copy exactly when it appears in
/// the source listing and no component of it names the metadata
/// directory.
pub proof fn lemma_header_copy_membership(entries: Seq<Seq<Seq<char>>>, p: Seq<Seq<char>>)
    ensures
        copied_entries(entries).contains(p) <==> entries.contains(p) && kept_by_copy(p),
    decreases entries.len(),
{
    reveal(Seq::filter);
    if entries.len() > 0 {
        lemma_header_copy_membership(entries.drop_last(), p);
        assert(entries.drop_last().push(entries.last()) =~= entries);
        broadcast use lemma_seq_contains_after_push;

        let kept = copied_entries(entries);
        let sub = copied_entries(entries.drop_last());
        if kept_by_copy(entries.last()) {
            assert(kept == sub.push(entries.last()));
        } else {
            assert(kept == sub);
        }
    }
}

/// Re-running a header copy over what a previous copy produced mirrors
/// exactly the same entries: the plan is idempotent, so a repeated build
/// reproduces its `include/` tree rather than growing it.
pub proof fn lemma_header_copy_idempotent(entries: Seq<Seq<Seq<char>>>)
    ensures
        copied_entries(copied_entries(entries)) == copied_entries(entries),
    decreases entries.len(),
{
    reveal(Seq::filter);
    if entries.len() > 0 {
        lemma_header_copy_idempotent(entries.drop_last());
        assert(entries.drop_last().push(entries.last()) =~= entries);
        let pred = |p: Seq<Seq<char>>| kept_by_copy(p);
        if pred(entries.last()) {
            entries.drop_last().lemma_filter_push(entries.last(), pred);
            copied_entries(entries.drop_last()).lemma_filter_push(entries.last(), pred);
        } else {
            entries.drop_last().lemma_filter_push(entries.last(), pred);
        }
    }
}

} // verus!
