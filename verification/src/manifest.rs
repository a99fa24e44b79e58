//! Test-name extraction from native build manifests.
//!
//! Every test unit carries a native build manifest whose `name = "<ident>"`
//! entry supplies the test's unique name and the basis for derived artifact
//! file names. The library scans the manifest text for the first such entry:
//! the literal `name = "` followed by the maximal run of non-whitespace
//! characters. The entry is complete when that run holds a quote, and the
//! name is the run up to the run's last quote — the backtracking capture of
//! a greedy non-whitespace match followed by a closing quote. A manifest
//! with no complete entry yields a fatal name-resolution error.

use vstd::prelude::*;

use crate::errors::RunError;

verus! {

/// Whitespace as the name grammar sees it: the Unicode White_Space set,
/// exactly what the non-whitespace run excludes.
pub open spec fn spec_is_space(c: char) -> bool {
    let u = c as u32;
    (9 <= u && u <= 13) || u == 32 || u == 0x85 || u == 0xa0 || u == 0x1680 || (0x2000 <= u && u
        <= 0x200a) || u == 0x2028 || u == 0x2029 || u == 0x202f || u == 0x205f || u == 0x3000
}

/// A character that may stand inside a well-formed test name: anything but
/// whitespace and the quote itself.
pub open spec fn spec_is_name_char(c: char) -> bool {
    c != '"' && !spec_is_space(c)
}

/// Where the maximal non-whitespace run beginning at `k` ends: the first
/// index at or after `k` holding whitespace, or the end of text.
pub open spec fn spec_run_end(s: Seq<char>, k: int) -> int
    decreases s.len() - k,
{
    if 0 <= k < s.len() {
        if !spec_is_space(s[k]) {
            spec_run_end(s, k + 1)
        } else {
            k
        }
    } else {
        k
    }
}

/// The largest index in `[k, e)` holding a quote, or `k - 1` when the range
/// holds none.
pub open spec fn spec_last_quote(s: Seq<char>, k: int, e: int) -> int
    decreases e - k,
{
    if k < e {
        if s[e - 1] == '"' {
            e - 1
        } else {
            spec_last_quote(s, k, e - 1)
        }
    } else {
        k - 1
    }
}

/// The eight-character opener `name = "` stands at index `i`.
pub open spec fn spec_decl_at(s: Seq<char>, i: int) -> bool {
    &&& 0 <= i
    &&& i + 8 <= s.len()
    &&& s.subrange(i, i + 8) == "name = \""@
}

/// A complete name entry stands at index `i`: the opener, then a maximal
/// non-whitespace run that holds a closing quote.
pub open spec fn spec_match_at(s: Seq<char>, i: int) -> bool {
    &&& spec_decl_at(s, i)
    &&& spec_last_quote(s, i + 8, spec_run_end(s, i + 8)) >= i + 8
}

/// The name captured by the entry at index `i`: the run up to its last
/// quote.
pub open spec fn spec_captured(s: Seq<char>, i: int) -> Seq<char> {
    s.subrange(i + 8, spec_last_quote(s, i + 8, spec_run_end(s, i + 8)))
}

/// The first index at or after `i` holding a complete name entry.
pub open spec fn spec_first_match(s: Seq<char>, i: int) -> Option<int>
    decreases s.len() - i,
{
    if !(0 <= i && i + 8 <= s.len()) {
        None
    } else if spec_match_at(s, i) {
        Some(i)
    } else {
        spec_first_match(s, i + 1)
    }
}

/// The test name the manifest text declares, if any: the capture of the
/// leftmost complete name entry.
pub open spec fn spec_extract_name(s: Seq<char>) -> Option<Seq<char>> {
    match spec_first_match(s, 0) {
        Some(i) => Some(spec_captured(s, i)),
        None => None,
    }
}

/// The maximal non-whitespace run beginning at `k` ends exactly where the
/// first whitespace character stands (or at the end of text).
proof fn lemma_run_end_of_run(s: Seq<char>, k: int, e: int)
    requires
        0 <= k <= e <= s.len(),
        forall|m: int| k <= m < e ==> !spec_is_space(s[m]),
        e == s.len() || spec_is_space(s[e]),
    ensures
        spec_run_end(s, k) == e,
    decreases e - k,
{
    if k < e {
        lemma_run_end_of_run(s, k + 1, e);
    }
}

/// A quote with no later quote before `e` is the last quote of `[k, e)`.
proof fn lemma_last_quote_is(s: Seq<char>, k: int, e: int, q: int)
    requires
        k <= q < e <= s.len(),
        s[q] == '"',
        forall|m: int| q < m < e ==> s[m] != '"',
    ensures
        spec_last_quote(s, k, e) == q,
    decreases e - q,
{
    if e - 1 > q {
        lemma_last_quote_is(s, k, e - 1, q);
    }
}

/// A range without quotes has no last quote.
proof fn lemma_no_quote(s: Seq<char>, k: int, e: int)
    requires
        k <= e <= s.len(),
        forall|m: int| k <= m < e ==> s[m] != '"',
    ensures
        spec_last_quote(s, k, e) == k - 1,
    decreases e - k,
{
    if k < e {
        lemma_no_quote(s, k, e - 1);
    }
}

/// Name derivation: a manifest that consists of exactly one entry
/// `name = "<n>"` yields the test name `n`, whatever name characters `n`
/// holds.
pub proof fn lemma_extract_exact_entry(n: Seq<char>)
    requires
        forall|i: int| 0 <= i < n.len() ==> spec_is_name_char(n[i]),
    ensures
        spec_extract_name("name = \""@ + n + "\""@) == Some(n),
{
    reveal_strlit("name = \"");
    reveal_strlit("\"");
    let s = "name = \""@ + n + "\""@;
    assert(s.subrange(0, 8) =~= "name = \""@);
    let e = 8 + n.len() as int + 1;
    assert(e == s.len());
    assert(s[e - 1] == '"');
    assert(!spec_is_space('"'));
    assert forall|m: int| 8 <= m < e implies !spec_is_space(s[m]) by {
        if m < e - 1 {
            assert(s[m] == n[m - 8]);
        }
    }
    lemma_run_end_of_run(s, 8, e);
    lemma_last_quote_is(s, 8, e, e - 1);
    assert(spec_match_at(s, 0));
    assert(spec_first_match(s, 0) == Some(0int));
    assert(spec_captured(s, 0) =~= n);
}

/// Whether `c` is whitespace to the name grammar.
pub fn is_space(c: char) -> (r: bool)
    ensures
        r == spec_is_space(c),
{
    let u = c as u32;
    (9 <= u && u <= 13) || u == 32 || u == 0x85 || u == 0xa0 || u == 0x1680 || (0x2000 <= u && u
        <= 0x200a) || u == 0x2028 || u == 0x2029 || u == 0x202f || u == 0x205f || u == 0x3000
}

/// Whether the opener `name = "` stands at index `i` of `s`.
fn decl_at(s: &str, i: usize, n: usize) -> (r: bool)
    requires
        n == s@.len(),
        i + 8 <= n,
    ensures
        r == spec_decl_at(s@, i as int),
{
    let pat: &str = "name = \"";
    proof {
        reveal_strlit("name = \"");
    }
    let mut k: usize = 0;
    while k < 8
        invariant
            n == s@.len(),
            i + 8 <= n,
            0 <= k <= 8,
            pat@ == "name = \""@,
            pat@.len() == 8,
            forall|m: int| 0 <= m < k ==> s@[i + m] == pat@[m],
        decreases 8 - k,
    {
        if s.get_char(i + k) != pat.get_char(k) {
            assert(s@.subrange(i as int, i as int + 8) != pat@) by {
                assert(s@.subrange(i as int, i as int + 8)[k as int] == s@[i + k]);
            }
            return false;
        }
        k = k + 1;
    }
    assert(s@.subrange(i as int, i as int + 8) =~= pat@);
    true
}

/// Scans the maximal non-whitespace run beginning at `start`: returns the
/// index just past the run and the position of the last quote inside it.
fn scan_run(s: &str, start: usize, n: usize) -> (r: (usize, Option<usize>))
    requires
        n == s@.len(),
        start <= n,
    ensures
        r.0 == spec_run_end(s@, start as int),
        start <= r.0 <= n,
        match r.1 {
            Some(q) => start <= q < r.0 && spec_last_quote(s@, start as int, r.0 as int)
                == q as int,
            None => spec_last_quote(s@, start as int, r.0 as int) == start as int - 1,
        },
{
    let mut j = start;
    let mut last_quote: Option<usize> = None;
    while j < n && !is_space(s.get_char(j))
        invariant
            n == s@.len(),
            start <= j <= n,
            spec_run_end(s@, start as int) == spec_run_end(s@, j as int),
            match last_quote {
                Some(q) => start <= q < j && s@[q as int] == '"' && (forall|m: int|
                    q < m < j ==> s@[m] != '"'),
                None => forall|m: int| start <= m < j ==> s@[m] != '"',
            },
        decreases n - j,
    {
        let c = s.get_char(j);
        if c == '"' {
            last_quote = Some(j);
        }
        proof {
            assert(spec_run_end(s@, j as int) == spec_run_end(s@, j as int + 1));
        }
        j = j + 1;
    }
    proof {
        assert(spec_run_end(s@, j as int) == j as int);
        match last_quote {
            Some(q) => lemma_last_quote_is(s@, start as int, j as int, q as int),
            None => lemma_no_quote(s@, start as int, j as int),
        }
    }
    (j, last_quote)
}

/// Extracts the declared test name from manifest text: the capture of the
/// leftmost complete `name = "<ident>"` entry, or nothing when no entry is
/// complete.
pub fn extract_test_name(manifest: &str) -> (r: Option<String>)
    ensures
        match r {
            Some(name) => spec_extract_name(manifest@) == Some(name@),
            None => spec_extract_name(manifest@) is None,
        },
{
    let n = manifest.unicode_len();
    if n < 8 {
        proof {
            assert(spec_first_match(manifest@, 0) is None);
        }
        return None;
    }
    let last = n - 8;
    let mut i: usize = 0;
    while i <= last
        invariant
            n == manifest@.len(),
            n >= 8,
            last == n - 8,
            0 <= i <= last + 1,
            spec_first_match(manifest@, 0) == spec_first_match(manifest@, i as int),
        decreases last + 1 - i,
    {
        if decl_at(manifest, i, n) {
            let (_, last_quote) = scan_run(manifest, i + 8, n);
            match last_quote {
                Some(q) => {
                    let name = manifest.substring_char(i + 8, q);
                    proof {
                        assert(spec_match_at(manifest@, i as int));
                        assert(spec_first_match(manifest@, i as int) == Some(i as int));
                    }
                    return Some(String::from_str(name));
                },
                None => {
                    proof {
                        assert(!spec_match_at(manifest@, i as int));
                        assert(spec_first_match(manifest@, i as int) == spec_first_match(
                            manifest@,
                            i as int + 1,
                        ));
                    }
                },
            }
        } else {
            proof {
                assert(spec_first_match(manifest@, i as int) == spec_first_match(
                    manifest@,
                    i as int + 1,
                ));
            }
        }
        i = i + 1;
    }
    proof {
        assert(spec_first_match(manifest@, i as int) is None);
    }
    None
}

/// Extracts one test name per manifest text, in order. Fails with a
/// name-resolution error exactly when some manifest declares no name.
pub fn get_test_names(manifests: &Vec<String>) -> (r: Result<Vec<String>, RunError>)
    ensures
        match r {
            Ok(names) => {
                &&& names@.len() == manifests@.len()
                &&& forall|k: int|
                    0 <= k < manifests@.len() ==> spec_extract_name(#[trigger] manifests@[k]@)
                        == Some(names@[k]@)
            },
            Err(e) => {
                &&& e == RunError::NameResolution
                &&& exists|k: int|
                    0 <= k < manifests@.len() && spec_extract_name(#[trigger] manifests@[k]@)
                        is None
            },
        },
{
    let mut names: Vec<String> = Vec::new();
    let mut i: usize = 0;
    while i < manifests.len()
        invariant
            0 <= i <= manifests@.len(),
            names@.len() == i,
            forall|k: int|
                0 <= k < i ==> spec_extract_name(#[trigger] manifests@[k]@) == Some(names@[k]@),
        decreases manifests@.len() - i,
    {
        match extract_test_name(manifests[i].as_str()) {
            Some(name) => {
                names.push(name);
            },
            None => {
                return Err(RunError::NameResolution);
            },
        }
        i = i + 1;
    }
    Ok(names)
}

} // verus!
