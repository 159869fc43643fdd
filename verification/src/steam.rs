//! Locating a Steam installation: the fixed candidate locations under the
//! user's home directory, and the choice of the first one that a filesystem
//! probe confirmed. The probes themselves are the caller's I/O; the
//! candidate list and the decision are pure.

use vstd::prelude::*;
use vstd::string::*;

verus! {

/// The candidate locations of a Steam installation under `home`, in the
/// order they are probed.
pub fn steam_root_candidates(home: &str) -> (r: Vec<String>)
    ensures
        r.deep_view() == seq![home@ + "/.steam/root"@, home@ + "/.local/share/Steam"@],
{
    let mut a = String::from_str(home);
    a.append("/.steam/root");
    let mut b = String::from_str(home);
    b.append("/.local/share/Steam");
    let mut r: Vec<String> = Vec::new();
    r.push(a);
    r.push(b);
    proof {
        assert(r.deep_view() =~~= seq![home@ + "/.steam/root"@, home@ + "/.local/share/Steam"@]);
    }
    r
}

/// The index of the first `true` in `found` at or after `i`, or
/// `found.len()` when there is none.
pub open spec fn first_found_ix(found: Seq<bool>, i: int) -> int
    recommends
        0 <= i <= found.len(),
    decreases found.len() - i when 0 <= i <= found.len()
{
    if i >= found.len() {
        i
    } else if found[i] {
        i
    } else {
        first_found_ix(found, i + 1)
    }
}

proof fn lemma_first_found_ix(found: Seq<bool>, j: int, i: int)
    requires
        0 <= j <= i <= found.len(),
        forall|t: int| j <= t < i ==> !found[t],
        i == found.len() || found[i],
    ensures
        first_found_ix(found, j) == i,
    decreases i - j,
{
    if j < i {
        lemma_first_found_ix(found, j + 1, i);
    }
}

/// Picks the candidate at the first position whose probe succeeded, or
/// nothing when no probe did.
pub fn select_steam_root(candidates: &Vec<String>, found: &Vec<bool>) -> (r: Option<String>)
    requires
        candidates@.len() == found@.len(),
    ensures
        match r {
            Some(p) => first_found_ix(found@, 0) < found@.len() && p@ == candidates@[
                first_found_ix(found@, 0)
            ]@,
            None => first_found_ix(found@, 0) == found@.len(),
        },
{
    let mut i: usize = 0;
    while i < found.len()
        invariant
            candidates@.len() == found@.len(),
            i <= found@.len(),
            forall|j: int| 0 <= j < i ==> !found@[j],
        decreases found@.len() - i,
    {
        if found[i] {
            proof {
                lemma_first_found_ix(found@, 0, i as int);
            }
            return Some(String::from_str(candidates[i].as_str()));
        }
        i = i + 1;
    }
    proof {
        lemma_first_found_ix(found@, 0, found@.len() as int);
    }
    None
}

} // verus!
