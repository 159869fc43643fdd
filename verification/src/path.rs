//! The one piece of path arithmetic the launcher needs: the parent directory
//! of the configured executable path, which becomes the working directory of
//! the spawned process. A path has a resolvable parent exactly when it
//! contains a separator and is not the bare root: everything before the last
//! `'/'` is the parent, and a path like `"/name"`, whose only separator is
//! the leading one, has the root as its parent. The bare root `"/"` has no
//! parent.

use vstd::prelude::*;
use vstd::string::*;
use crate::text::find_last;

verus! {

/// The index of the last `'/'` strictly before position `i`, or `-1` when
/// there is none.
pub open spec fn last_slash_ix(s: Seq<char>, i: int) -> int
    recommends
        0 <= i <= s.len(),
    decreases i when 0 <= i <= s.len()
{
    if i <= 0 {
        -1
    } else if s[i - 1] == '/' {
        i - 1
    } else {
        last_slash_ix(s, i - 1)
    }
}

/// The parent component of a path: the prefix before the last separator,
/// the root for a path like `"/name"`, and nothing for a bare file name or
/// for the bare root `"/"`.
pub open spec fn spec_parent(s: Seq<char>) -> Option<Seq<char>> {
    let k = last_slash_ix(s, s.len() as int);
    if k < 0 {
        None
    } else if k == 0 {
        if s.len() == 1 {
            None
        } else {
            Some(seq!['/'])
        }
    } else {
        Some(s.subrange(0, k))
    }
}

/// Whether the path has a resolvable parent directory.
pub open spec fn has_parent(s: Seq<char>) -> bool {
    spec_parent(s) is Some
}

proof fn lemma_last_slash_ix(s: Seq<char>, i: int, k: int)
    requires
        0 <= i <= s.len(),
        -1 <= k < i,
        k >= 0 ==> s[k] == '/',
        forall|t: int| k < t < i ==> s[t] != '/',
    ensures
        last_slash_ix(s, i) == k,
    decreases i - k,
{
    if i - 1 > k {
        lemma_last_slash_ix(s, i - 1, k);
    }
}

/// The parent directory of `path`, as `spec_parent` describes it.
pub fn parent_of(path: &str) -> (r: Option<String>)
    ensures
        match r {
            Some(p) => spec_parent(path@) == Some(p@),
            None => spec_parent(path@) is None,
        },
{
    match find_last(path, '/') {
        Some(k) => {
            proof {
                lemma_last_slash_ix(path@, path@.len() as int, k as int);
            }
            if k == 0 {
                if path.unicode_len() == 1 {
                    return None;
                }
                let mut root = String::new();
                crate::text::push_char(&mut root, '/');
                proof {
                    assert(root@ =~= seq!['/']);
                }
                Some(root)
            } else {
                let p = path.substring_char(0, k);
                Some(String::from_str(p))
            }
        },
        None => {
            proof {
                lemma_last_slash_ix(path@, path@.len() as int, -1);
            }
            None
        },
    }
}

} // verus!
