//! Path and string helpers shared across the library.
//!
//! Paths are plain strings. The library never touches the filesystem; it only
//! assembles and compares path strings, so a path here is a `String` whose
//! mathematical value is its `Seq<char>` view.

use vstd::prelude::*;

verus! {

/// The single path component joined below `base`, with a `/` separator.
pub open spec fn spec_join(base: Seq<char>, leaf: Seq<char>) -> Seq<char> {
    base + "/"@ + leaf
}

/// A path is absolute when it starts at the filesystem root.
pub open spec fn spec_is_absolute(p: Seq<char>) -> bool {
    p.len() > 0 && p[0] == '/'
}

/// `p` starts with `prefix`.
pub open spec fn spec_has_prefix(s: Seq<char>, prefix: Seq<char>) -> bool {
    prefix.len() <= s.len() && s.subrange(0, prefix.len() as int) == prefix
}

/// `p` ends with `suffix`.
pub open spec fn spec_has_suffix(s: Seq<char>, suffix: Seq<char>) -> bool {
    suffix.len() <= s.len() && s.subrange(s.len() - suffix.len(), s.len() as int) == suffix
}

/// Appends `leaf` below `base` with a `/` separator.
pub fn path_join(base: &str, leaf: &str) -> (r: String)
    ensures
        r@ == spec_join(base@, leaf@),
{
    let mut s = String::from_str(base);
    s.append("/");
    s.append(leaf);
    s
}

/// Whether the path string is absolute.
pub fn is_absolute(p: &str) -> (r: bool)
    ensures
        r == spec_is_absolute(p@),
{
    if p.unicode_len() == 0 {
        false
    } else {
        let c = p.get_char(0);
        c == '/'
    }
}

/// Character-by-character prefix test.
pub fn has_prefix(s: &str, prefix: &str) -> (r: bool)
    ensures
        r == spec_has_prefix(s@, prefix@),
{
    let n = s.unicode_len();
    let pn = prefix.unicode_len();
    if pn > n {
        return false;
    }
    let mut i: usize = 0;
    while i < pn
        invariant
            0 <= i <= pn,
            pn == prefix@.len(),
            pn <= n == s@.len(),
            forall|k: int| 0 <= k < i ==> s@[k] == prefix@[k],
        decreases pn - i,
    {
        if s.get_char(i) != prefix.get_char(i) {
            assert(s@.subrange(0, pn as int) != prefix@) by {
                assert(s@.subrange(0, pn as int)[i as int] == s@[i as int]);
            }
            return false;
        }
        i = i + 1;
    }
    assert(s@.subrange(0, pn as int) =~= prefix@);
    true
}

/// Character-by-character suffix test.
pub fn has_suffix(s: &str, suffix: &str) -> (r: bool)
    ensures
        r == spec_has_suffix(s@, suffix@),
{
    let n = s.unicode_len();
    let pn = suffix.unicode_len();
    if pn > n {
        return false;
    }
    let base = n - pn;
    let mut i: usize = 0;
    while i < pn
        invariant
            0 <= i <= pn,
            pn == suffix@.len(),
            pn <= n == s@.len(),
            base == n - pn,
            forall|k: int| 0 <= k < i ==> s@[base + k] == suffix@[k],
        decreases pn - i,
    {
        if s.get_char(base + i) != suffix.get_char(i) {
            assert(s@.subrange(base as int, n as int) != suffix@) by {
                assert(s@.subrange(base as int, n as int)[i as int] == s@[base + i]);
            }
            return false;
        }
        i = i + 1;
    }
    assert(s@.subrange(base as int, n as int) =~= suffix@);
    true
}

/// String equality decided from the views.
pub fn str_equal(a: &str, b: &str) -> (r: bool)
    ensures
        r == (a@ == b@),
{
    let an = a.unicode_len();
    let bn = b.unicode_len();
    if an != bn {
        return false;
    }
    proof {
        assert(a@.subrange(0, bn as int) =~= a@);
    }
    has_prefix(a, b)
}

} // verus!
