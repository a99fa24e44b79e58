//! Test discovery: classifies directories as test units or containers.
//!
//! The filesystem is handed to the library as a plain tree value: each
//! directory with its own name, the names of the plain files at its top
//! level, and its subdirectories. Building that tree from disk is the
//! caller's job; classification and the walk itself are verified here.
//!
//! A directory whose name matches the naming convention (prefix `test_` or
//! suffix `_test`) is a leaf: if it holds both required manifest files it is
//! a test unit, otherwise it is silently excluded, and either way its
//! subdirectories are never searched. Any other directory is a container:
//! never itself a result, every subdirectory searched in order.

use vstd::prelude::*;

use crate::paths::{
    has_prefix,
    has_suffix,
    path_join,
    spec_has_prefix,
    spec_has_suffix,
    spec_join,
    str_equal,
};

verus! {

/// A directory as the library sees it.
#[derive(Debug)]
pub struct FsDir {
    /// The directory's own name (its last path component).
    pub name: String,
    /// Names of the plain files at the directory's top level.
    pub files: Vec<String>,
    /// The subdirectories, in directory-walk order.
    pub subdirs: Vec<FsDir>,
}

/// The naming convention for test-unit directories.
pub open spec fn spec_is_test_dir_name(name: Seq<char>) -> bool {
    spec_has_prefix(name, "test_"@) || spec_has_suffix(name, "_test"@)
}

/// Some file in the list carries exactly this name.
pub open spec fn spec_has_file(files: Seq<Seq<char>>, fname: Seq<char>) -> bool {
    exists|i: int| 0 <= i < files.len() && files[i] == fname
}

/// A test unit: name matches the convention and both the native build
/// manifest and the testbench configuration file are present at top level.
pub open spec fn spec_is_test_unit(d: FsDir) -> bool {
    &&& spec_is_test_dir_name(d.name@)
    &&& spec_has_file(d.files.deep_view(), "Cargo.toml"@)
    &&& spec_has_file(d.files.deep_view(), "rstb.toml"@)
}

/// The test-unit paths reachable from directory `d`, whose own absolute path
/// is `path`, in depth-first walk order.
pub open spec fn spec_find_tests(d: FsDir, path: Seq<char>) -> Seq<Seq<char>>
    decreases d, d.subdirs@.len() + 1,
{
    if spec_is_test_dir_name(d.name@) {
        if spec_is_test_unit(d) {
            seq![path]
        } else {
            Seq::empty()
        }
    } else {
        spec_find_tests_in_subdirs(d, 0, path)
    }
}

/// The test-unit paths found in `d`'s subdirectories from index `i` on.
pub open spec fn spec_find_tests_in_subdirs(d: FsDir, i: int, path: Seq<char>) -> Seq<Seq<char>>
    decreases d, d.subdirs@.len() - i,
{
    if 0 <= i < d.subdirs@.len() {
        spec_find_tests(d.subdirs@[i], spec_join(path, d.subdirs@[i].name@))
            + spec_find_tests_in_subdirs(d, i + 1, path)
    } else {
        Seq::empty()
    }
}

/// Whether a directory name matches the test-unit naming convention.
pub fn is_test_dir_name(name: &str) -> (r: bool)
    ensures
        r == spec_is_test_dir_name(name@),
{
    if has_prefix(name, "test_") {
        true
    } else {
        has_suffix(name, "_test")
    }
}

/// Whether the file list contains a file of exactly this name.
pub fn contains_file(files: &Vec<String>, fname: &str) -> (r: bool)
    ensures
        r == spec_has_file(files.deep_view(), fname@),
{
    let mut i: usize = 0;
    while i < files.len()
        invariant
            0 <= i <= files@.len(),
            forall|k: int| 0 <= k < i ==> files@[k]@ != fname@,
        decreases files@.len() - i,
    {
        if str_equal(files[i].as_str(), fname) {
            assert(files.deep_view()[i as int] == fname@);
            return true;
        }
        i = i + 1;
    }
    assert(forall|k: int| 0 <= k < files.deep_view().len() ==> files.deep_view()[k] != fname@);
    false
}

/// Depth-first discovery walk. `dir_path` is the absolute path of `dir`;
/// every discovered test-unit path is appended to `test_paths` in walk order.
pub fn find_tests_in_path(dir: &FsDir, dir_path: &String, test_paths: &mut Vec<String>)
    ensures
        final(test_paths).deep_view() == old(test_paths).deep_view() + spec_find_tests(
            *dir,
            dir_path@,
        ),
    decreases *dir,
{
    if is_test_dir_name(dir.name.as_str()) {
        if contains_file(&dir.files, "Cargo.toml") && contains_file(&dir.files, "rstb.toml") {
            test_paths.push(dir_path.clone());
            proof {
                assert(test_paths.deep_view() =~= old(test_paths).deep_view() + spec_find_tests(
                    *dir,
                    dir_path@,
                ));
            }
        } else {
            proof {
                assert(test_paths.deep_view() =~= old(test_paths).deep_view() + spec_find_tests(
                    *dir,
                    dir_path@,
                ));
            }
        }
    } else {
        let mut i: usize = 0;
        while i < dir.subdirs.len()
            invariant
                !spec_is_test_dir_name(dir.name@),
                0 <= i <= dir.subdirs@.len(),
                test_paths.deep_view() + spec_find_tests_in_subdirs(*dir, i as int, dir_path@)
                    == old(test_paths).deep_view() + spec_find_tests(*dir, dir_path@),
            decreases dir.subdirs@.len() - i,
        {
            let child = &dir.subdirs[i];
            let child_path = path_join(dir_path.as_str(), child.name.as_str());
            let ghost before = test_paths.deep_view();
            proof {
                assert(decreases_to!(*dir => dir.subdirs@[i as int]));
            }
            find_tests_in_path(child, &child_path, test_paths);
            proof {
                assert(test_paths.deep_view() + spec_find_tests_in_subdirs(
                    *dir,
                    i as int + 1,
                    dir_path@,
                ) =~= old(test_paths).deep_view() + spec_find_tests(*dir, dir_path@));
            }
            i = i + 1;
        }
        proof {
            assert(test_paths.deep_view() + spec_find_tests_in_subdirs(
                *dir,
                i as int,
                dir_path@,
            ) =~= test_paths.deep_view());
        }
    }
}

/// The near misses reachable from directory `d`: convention-matching
/// directories that lack a required manifest file, which the discovery walk
/// excludes silently. Collected so that a caller can warn on each instead of
/// hiding the misconfiguration.
pub open spec fn spec_find_near_misses(d: FsDir, path: Seq<char>) -> Seq<Seq<char>>
    decreases d, d.subdirs@.len() + 1,
{
    if spec_is_test_dir_name(d.name@) {
        if spec_is_test_unit(d) {
            Seq::empty()
        } else {
            seq![path]
        }
    } else {
        spec_find_near_misses_in_subdirs(d, 0, path)
    }
}

/// The near misses found in `d`'s subdirectories from index `i` on.
pub open spec fn spec_find_near_misses_in_subdirs(d: FsDir, i: int, path: Seq<char>) -> Seq<
    Seq<char>,
>
    decreases d, d.subdirs@.len() - i,
{
    if 0 <= i < d.subdirs@.len() {
        spec_find_near_misses(d.subdirs@[i], spec_join(path, d.subdirs@[i].name@))
            + spec_find_near_misses_in_subdirs(d, i + 1, path)
    } else {
        Seq::empty()
    }
}

/// Companion diagnostic walk: appends the path of every near miss —
/// a convention-matching directory missing a required manifest file — in
/// walk order, so the caller can warn rather than stay silent.
pub fn find_near_misses(dir: &FsDir, dir_path: &String, near_misses: &mut Vec<String>)
    ensures
        final(near_misses).deep_view() == old(near_misses).deep_view() + spec_find_near_misses(
            *dir,
            dir_path@,
        ),
    decreases *dir,
{
    if is_test_dir_name(dir.name.as_str()) {
        if contains_file(&dir.files, "Cargo.toml") && contains_file(&dir.files, "rstb.toml") {
            proof {
                assert(near_misses.deep_view() =~= old(near_misses).deep_view()
                    + spec_find_near_misses(*dir, dir_path@));
            }
        } else {
            near_misses.push(dir_path.clone());
            proof {
                assert(near_misses.deep_view() =~= old(near_misses).deep_view()
                    + spec_find_near_misses(*dir, dir_path@));
            }
        }
    } else {
        let mut i: usize = 0;
        while i < dir.subdirs.len()
            invariant
                !spec_is_test_dir_name(dir.name@),
                0 <= i <= dir.subdirs@.len(),
                near_misses.deep_view() + spec_find_near_misses_in_subdirs(
                    *dir,
                    i as int,
                    dir_path@,
                ) == old(near_misses).deep_view() + spec_find_near_misses(*dir, dir_path@),
            decreases dir.subdirs@.len() - i,
        {
            let child = &dir.subdirs[i];
            let child_path = path_join(dir_path.as_str(), child.name.as_str());
            proof {
                assert(decreases_to!(*dir => dir.subdirs@[i as int]));
            }
            find_near_misses(child, &child_path, near_misses);
            proof {
                assert(near_misses.deep_view() + spec_find_near_misses_in_subdirs(
                    *dir,
                    i as int + 1,
                    dir_path@,
                ) =~= old(near_misses).deep_view() + spec_find_near_misses(*dir, dir_path@));
            }
            i = i + 1;
        }
        proof {
            assert(near_misses.deep_view() + spec_find_near_misses_in_subdirs(
                *dir,
                i as int,
                dir_path@,
            ) =~= near_misses.deep_view());
        }
    }
}

/// A directory whose name matches the naming convention is a leaf of the
/// walk: what lies below it never influences discovery. Two such directories
/// that agree on name and top-level files yield the same result, whatever
/// their subdirectories hold.
pub proof fn lemma_matched_leaf_never_descended(d1: FsDir, d2: FsDir, path: Seq<char>)
    requires
        spec_is_test_dir_name(d1.name@),
        d1.name@ == d2.name@,
        d1.files.deep_view() == d2.files.deep_view(),
    ensures
        spec_find_tests(d1, path) == spec_find_tests(d2, path),
{
    assert(spec_is_test_unit(d1) <==> spec_is_test_unit(d2));
}

} // verus!
