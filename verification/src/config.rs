//! Typed per-test configuration and its normalization.
//!
//! A test unit declares its simulation entry point and its HDL source files
//! in a configuration file. Reading and decoding that file happens outside
//! the library; the decoded record arrives here as plain strings, and the
//! library normalizes every relative source path against the test unit's
//! directory so that later staleness comparisons and tool invocations are
//! unambiguous regardless of working directory.

use vstd::prelude::*;

use crate::paths::{is_absolute, path_join, spec_is_absolute, spec_join};

verus! {

/// Declared simulation entry point of one test.
#[derive(Debug)]
pub struct Test {
    /// Name of the toplevel module the simulator instantiates.
    pub toplevel: String,
}

/// Declared HDL source lists of one test, grouped by dialect.
#[derive(Debug)]
pub struct Src {
    /// Verilog source file paths, in declaration order.
    pub verilog: Option<Vec<String>>,
    /// VHDL source file paths, in declaration order.
    pub vhdl: Option<Vec<String>>,
}

/// Resolved configuration record of one test unit.
#[derive(Debug)]
pub struct Config {
    /// The `test` table of the configuration file.
    pub test: Test,
    /// The `src` table of the configuration file.
    pub src: Src,
}

/// Mathematical value of a `Config`: every string as a character sequence.
#[verifier::ext_equal]
pub struct ConfigModel {
    pub toplevel: Seq<char>,
    pub verilog: Option<Seq<Seq<char>>>,
    pub vhdl: Option<Seq<Seq<char>>>,
}

impl View for Config {
    type V = ConfigModel;

    open spec fn view(&self) -> ConfigModel {
        ConfigModel {
            toplevel: self.test.toplevel@,
            verilog: self.src.verilog.deep_view(),
            vhdl: self.src.vhdl.deep_view(),
        }
    }
}

impl Clone for Test {
    fn clone(&self) -> (r: Self)
        ensures
            r.toplevel@ == self.toplevel@,
    {
        Test { toplevel: self.toplevel.clone() }
    }
}

impl Clone for Src {
    fn clone(&self) -> (r: Self)
        ensures
            r.verilog.deep_view() == self.verilog.deep_view(),
            r.vhdl.deep_view() == self.vhdl.deep_view(),
    {
        Src { verilog: clone_path_list(&self.verilog), vhdl: clone_path_list(&self.vhdl) }
    }
}

impl Clone for Config {
    fn clone(&self) -> (r: Self)
        ensures
            r@ == self@,
    {
        let r = Config { test: self.test.clone(), src: self.src.clone() };
        proof {
            assert(r@ =~= self@);
        }
        r
    }
}

/// Clones an optional list of path strings, keeping every character.
fn clone_path_list(v: &Option<Vec<String>>) -> (r: Option<Vec<String>>)
    ensures
        r.deep_view() == v.deep_view(),
{
    match v {
        None => None,
        Some(list) => {
            let mut out: Vec<String> = Vec::new();
            let mut i: usize = 0;
            while i < list.len()
                invariant
                    0 <= i <= list@.len(),
                    out@.len() == i,
                    forall|k: int| 0 <= k < i ==> out@[k]@ == list@[k]@,
                decreases list@.len() - i,
            {
                out.push(list[i].clone());
                i = i + 1;
            }
            proof {
                assert(out.deep_view() =~= list.deep_view());
            }
            Some(out)
        },
    }
}

/// The normalized form of one source path: an already-absolute path is kept,
/// a relative one is resolved against the test unit's directory.
pub open spec fn spec_normalized(unit_dir: Seq<char>, p: Seq<char>) -> Seq<char> {
    if spec_is_absolute(p) {
        p
    } else {
        spec_join(unit_dir, p)
    }
}

/// Rewrites one source path to its normalized, absolute form.
pub fn normalize_path(path: &mut String, unit_dir: &str)
    requires
        spec_is_absolute(unit_dir@),
    ensures
        final(path)@ == spec_normalized(unit_dir@, old(path)@),
        spec_is_absolute(final(path)@),
{
    if !is_absolute(path.as_str()) {
        let joined = path_join(unit_dir, path.as_str());
        *path = joined;
        proof {
            reveal_strlit("/");
            assert(final(path)@[0] == unit_dir@[0]);
        }
    }
}

/// Rewrites every path of one optional source list to its normalized,
/// absolute form, keeping presence, length and order.
fn normalize_source_list(list: &mut Option<Vec<String>>, unit_dir: &str)
    requires
        spec_is_absolute(unit_dir@),
    ensures
        *final(list) is Some <==> *old(list) is Some,
        *final(list) is Some ==> {
            &&& final(list).deep_view()->0.len() == old(list).deep_view()->0.len()
            &&& forall|k: int|
                0 <= k < old(list).deep_view()->0.len() ==> final(list).deep_view()->0[k]
                    == spec_normalized(unit_dir@, old(list).deep_view()->0[k])
            &&& forall|k: int|
                0 <= k < final(list).deep_view()->0.len() ==> spec_is_absolute(
                    #[trigger] final(list).deep_view()->0[k],
                )
        },
{
    match list {
        Some(v) => {
            let mut i: usize = 0;
            while i < v.len()
                invariant
                    spec_is_absolute(unit_dir@),
                    0 <= i <= v@.len(),
                    *old(list) is Some,
                    v@.len() == old(list).deep_view()->0.len(),
                    forall|k: int|
                        0 <= k < i ==> v@[k]@ == spec_normalized(
                            unit_dir@,
                            old(list).deep_view()->0[k],
                        ) && spec_is_absolute(#[trigger] v@[k]@),
                    forall|k: int| i <= k < v@.len() ==> v@[k]@ == old(list).deep_view()->0[k],
                decreases v@.len() - i,
            {
                let mut p = v[i].clone();
                normalize_path(&mut p, unit_dir);
                v.set(i, p);
                i = i + 1;
            }
        },
        None => {},
    }
}

/// Rewrites every declared source path of `cfg` — Verilog and VHDL alike —
/// to its normalized, absolute form; the entry point, the dialect grouping,
/// and the order of the sources are untouched.
pub fn normalize_cfg(cfg: &mut Config, unit_dir: &str)
    requires
        spec_is_absolute(unit_dir@),
    ensures
        final(cfg)@.toplevel == old(cfg)@.toplevel,
        final(cfg)@.verilog is Some <==> old(cfg)@.verilog is Some,
        final(cfg)@.verilog is Some ==> {
            &&& final(cfg)@.verilog->0.len() == old(cfg)@.verilog->0.len()
            &&& forall|k: int|
                0 <= k < old(cfg)@.verilog->0.len() ==> final(cfg)@.verilog->0[k]
                    == spec_normalized(unit_dir@, old(cfg)@.verilog->0[k])
            &&& forall|k: int|
                0 <= k < final(cfg)@.verilog->0.len() ==> spec_is_absolute(
                    #[trigger] final(cfg)@.verilog->0[k],
                )
        },
        final(cfg)@.vhdl is Some <==> old(cfg)@.vhdl is Some,
        final(cfg)@.vhdl is Some ==> {
            &&& final(cfg)@.vhdl->0.len() == old(cfg)@.vhdl->0.len()
            &&& forall|k: int|
                0 <= k < old(cfg)@.vhdl->0.len() ==> final(cfg)@.vhdl->0[k] == spec_normalized(
                    unit_dir@,
                    old(cfg)@.vhdl->0[k],
                )
            &&& forall|k: int|
                0 <= k < final(cfg)@.vhdl->0.len() ==> spec_is_absolute(
                    #[trigger] final(cfg)@.vhdl->0[k],
                )
        },
{
    normalize_source_list(&mut cfg.src.verilog, unit_dir);
    normalize_source_list(&mut cfg.src.vhdl, unit_dir);
}

} // verus!
