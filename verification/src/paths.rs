use vstd::prelude::*;
use vstd::string::*;

verus! {

/// The path convention used throughout the crate: a directory path and an
/// entry name joined by a single forward-slash separator.
pub open spec fn joined(base: Seq<char>, leaf: Seq<char>) -> Seq<char> {
    base + seq!['/'] + leaf
}

/// Joins a directory path and an entry name with a single separator.
pub fn join(base: &str, leaf: &str) -> (r: String)
    ensures
        r@ == joined(base@, leaf@),
{
    let mut r = base.to_owned();
    r.append("/");
    r.append(leaf);
    proof {
        reveal_strlit("/");
        assert(r@ =~= joined(base@, leaf@));
    }
    r
}

} // verus!
