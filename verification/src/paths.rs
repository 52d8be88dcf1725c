//! File-system paths as text, joined the way a Unix `PathBuf` joins them.
use vstd::prelude::*;
use vstd::string::*;
use crate::text::{cat, cat3, owned};

verus! {

/// `rel` appended to `base`: an absolute `rel` replaces `base`; otherwise a
/// separator goes between them unless `base` is empty or already ends in one.
pub open spec fn joined_path(base: Seq<char>, rel: Seq<char>) -> Seq<char> {
    if rel.len() > 0 && rel[0] == '/' {
        rel
    } else if base.len() == 0 || base.last() == '/' {
        base + rel
    } else {
        base + "/"@ + rel
    }
}

/// `rel` appended to `base` as a path.
pub fn join_path(base: &str, rel: &str) -> (r: String)
    ensures
        r@ == joined_path(base@, rel@),
{
    let rel_len: usize = rel.unicode_len();
    if rel_len > 0 && rel.get_char(0) == '/' {
        return owned(rel);
    }
    let base_len: usize = base.unicode_len();
    if base_len == 0 || base.get_char(base_len - 1) == '/' {
        cat(base, rel)
    } else {
        proof { reveal_strlit("/"); }
        cat3(base, "/", rel)
    }
}

/// `s` without the slashes it starts with.
pub fn trim_leading_slashes(s: &str) -> (r: &str)
    ensures
        exists|k: int|
            #![trigger s@.skip(k)]
            0 <= k <= s@.len() && r@ == s@.skip(k) && (forall|j: int| 0 <= j < k ==> s@[j] == '/')
                && (k == s@.len() || s@[k] != '/'),
{
    let n: usize = s.unicode_len();
    let mut k: usize = 0;
    while k < n && s.get_char(k) == '/'
        invariant
            n == s@.len(),
            k <= n,
            forall|j: int| 0 <= j < k ==> s@[j] == '/',
        decreases n - k,
    {
        k = k + 1;
    }
    let r = s.substring_char(k, n);
    proof {
        assert(r@ =~= s@.skip(k as int));
    }
    r
}

} // verus!
