//! Resolution of the system-monitor executable's path from the
//! application's own install directory.
//!
//! The executable is expected at a fixed place relative to that directory:
//! two directories up, then `backend/system-monitor`. Resolution is a pure
//! computation on the directory text and is recomputed on every call, so a
//! relocated installation is picked up at once.

use vstd::prelude::*;
use vstd::string::*;

verus! {

/// Index of the last `/` in `p`, or `-1` when `p` holds none.
pub open spec fn last_slash(p: Seq<char>) -> int
    decreases p.len(),
{
    if p.len() == 0 {
        -1
    } else if p[p.len() - 1] == '/' {
        p.len() - 1
    } else {
        last_slash(p.drop_last())
    }
}

/// Everything before the last `/`; the empty sequence when there is none.
/// On a path without a trailing separator this is one step up the
/// directory tree.
pub open spec fn parent_of(p: Seq<char>) -> Seq<char> {
    if last_slash(p) < 0 {
        Seq::empty()
    } else {
        p.subrange(0, last_slash(p))
    }
}

proof fn lemma_last_slash_none(p: Seq<char>)
    requires
        forall|j: int| 0 <= j < p.len() ==> p[j] != '/',
    ensures
        last_slash(p) == -1,
    decreases p.len(),
{
    if p.len() > 0 {
        lemma_last_slash_none(p.drop_last());
    }
}

proof fn lemma_last_slash_at(p: Seq<char>, k: int)
    requires
        0 <= k < p.len(),
        p[k] == '/',
        forall|j: int| k < j < p.len() ==> p[j] != '/',
    ensures
        last_slash(p) == k,
    decreases p.len(),
{
    if k < p.len() - 1 {
        lemma_last_slash_at(p.drop_last(), k);
    }
}

/// The prefix of `p` up to, not including, its last `/`; the empty string
/// when `p` holds no `/`.
pub fn parent_dir(p: &str) -> (r: String)
    ensures
        r@ == parent_of(p@),
{
    let n = p.unicode_len();
    let mut i: usize = n;
    while i > 0
        invariant
            i <= n,
            n == p@.len(),
            forall|j: int| i <= j < n ==> p@[j] != '/',
        decreases i,
    {
        if p.get_char(i - 1) == '/' {
            proof {
                lemma_last_slash_at(p@, i - 1);
            }
            return p.substring_char(0, i - 1).to_owned();
        }
        i -= 1;
    }
    proof {
        lemma_last_slash_none(p@);
    }
    String::new()
}

/// Where the system-monitor executable is expected, given the application's
/// install directory: two directories up, then `backend/system-monitor`.
pub open spec fn monitor_path(install_dir: Seq<char>) -> Seq<char> {
    parent_of(parent_of(install_dir)) + "/backend/system-monitor"@
}

/// Resolve the system-monitor executable's path from the application's
/// install directory.
pub fn resolve_monitor_path(install_dir: &str) -> (r: String)
    ensures
        r@ == monitor_path(install_dir@),
{
    let up_one = parent_dir(install_dir);
    let mut path = parent_dir(up_one.as_str());
    path.append("/backend/system-monitor");
    path
}

} // verus!
