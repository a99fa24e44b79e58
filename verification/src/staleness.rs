//! Staleness oracle: decides whether a build output must be regenerated.
//!
//! Timestamps are plain modification times (seconds or ticks, any monotone
//! unit) observed by the caller; an output that does not exist is `None`.

use vstd::prelude::*;

verus! {

/// A set of outputs is stale with respect to a set of inputs when either no
/// output exists at all (first build), or the newest input is at least as new
/// as the oldest existing output. The "at least as new" (rather than strictly
/// newer) comparison is a deliberate conservative bias: a source edited in
/// the same filesystem tick as a previous build must trigger a rebuild.
///
/// Stated equivalently over individual timestamps: some input/output pair
/// witnesses `input >= output`, which holds exactly when
/// `max(inputs) >= min(existing outputs)`.
pub open spec fn spec_outdated(outs: Seq<Option<u64>>, ins: Seq<u64>) -> bool {
    ||| (forall|j: int| 0 <= j < outs.len() ==> outs[j] is None)
    ||| (exists|i: int, j: int|
        0 <= i < ins.len() && 0 <= j < outs.len() && outs[j] is Some && ins[i] >= outs[j]->0)
}

/// Compares the newest input modification time against the oldest existing
/// output modification time. Inputs must be non-empty: with no inputs the
/// comparison is meaningless and callers guarantee at least one source.
pub fn outdated(out_files: &Vec<Option<u64>>, in_files: &Vec<u64>) -> (r: bool)
    requires
        in_files@.len() > 0,
    ensures
        r == spec_outdated(out_files@, in_files@),
{
    let mut newest_in: u64 = in_files[0];
    let ghost mut newest_wit: int = 0;
    let mut k: usize = 1;
    while k < in_files.len()
        invariant
            1 <= k <= in_files@.len(),
            0 <= newest_wit < k,
            in_files@[newest_wit] == newest_in,
            forall|i: int| 0 <= i < k ==> in_files@[i] <= newest_in,
        decreases in_files@.len() - k,
    {
        if in_files[k] > newest_in {
            newest_in = in_files[k];
            proof {
                newest_wit = k as int;
            }
        }
        k = k + 1;
    }

    let mut oldest_out: Option<u64> = None;
    let ghost mut oldest_wit: int = 0;
    let mut j: usize = 0;
    while j < out_files.len()
        invariant
            0 <= j <= out_files@.len(),
            oldest_out is None ==> forall|m: int| 0 <= m < j ==> out_files@[m] is None,
            oldest_out is Some ==> {
                &&& 0 <= oldest_wit < j
                &&& out_files@[oldest_wit] == oldest_out
                &&& forall|m: int|
                    0 <= m < j && out_files@[m] is Some ==> out_files@[m]->0 >= oldest_out->0
            },
        decreases out_files@.len() - j,
    {
        if let Some(ts) = out_files[j] {
            match oldest_out {
                None => {
                    oldest_out = Some(ts);
                    proof {
                        oldest_wit = j as int;
                    }
                },
                Some(cur) => {
                    if ts < cur {
                        oldest_out = Some(ts);
                        proof {
                            oldest_wit = j as int;
                        }
                    }
                },
            }
        }
        j = j + 1;
    }

    match oldest_out {
        None => true,
        Some(out_ts) => {
            let r = newest_in >= out_ts;
            proof {
                if r {
                    assert(0 <= newest_wit < in_files@.len());
                    assert(in_files@[newest_wit] >= out_files@[oldest_wit]->0);
                } else {
                    assert forall|i: int, jj: int|
                        0 <= i < in_files@.len() && 0 <= jj < out_files@.len() && out_files@[jj]
                            is Some implies in_files@[i] < out_files@[jj]->0 by {
                        assert(in_files@[i] <= newest_in);
                        assert(out_files@[jj]->0 >= out_ts);
                    }
                }
            }
            r
        },
    }
}

/// With no outputs at all (or none of them existing), every input set is
/// stale: the very first build always proceeds.
pub proof fn lemma_stale_when_no_output(outs: Seq<Option<u64>>, ins: Seq<u64>)
    requires
        forall|j: int| 0 <= j < outs.len() ==> outs[j] is None,
    ensures
        spec_outdated(outs, ins),
{
}

/// An existing output strictly newer than every input is fresh: nothing is
/// rebuilt. This is the guarantee that makes a second, unchanged run skip
/// recompilation.
pub proof fn lemma_fresh_when_output_newer(outs: Seq<Option<u64>>, ins: Seq<u64>)
    requires
        exists|j: int| 0 <= j < outs.len() && outs[j] is Some,
        forall|i: int, j: int|
            0 <= i < ins.len() && 0 <= j < outs.len() && outs[j] is Some ==> ins[i] < outs[j]->0,
    ensures
        !spec_outdated(outs, ins),
{
}

/// An existing output that is older than (or exactly as old as) some input is
/// stale: the rebuild is never skipped.
pub proof fn lemma_stale_when_input_newer(
    outs: Seq<Option<u64>>,
    ins: Seq<u64>,
    i: int,
    j: int,
)
    requires
        0 <= i < ins.len(),
        0 <= j < outs.len(),
        outs[j] is Some,
        ins[i] >= outs[j]->0,
    ensures
        spec_outdated(outs, ins),
{
}

/// Runs are idempotent for an unchanged source set: a build that leaves the
/// image strictly newer than every source makes the next run, absent the
/// force flag, find the image fresh and skip recompilation entirely.
pub proof fn lemma_unchanged_sources_not_stale(image_time: u64, source_times: Seq<u64>)
    requires
        forall|i: int| 0 <= i < source_times.len() ==> source_times[i] < image_time,
    ensures
        !spec_outdated(seq![Some(image_time)], source_times),
{
    let outs: Seq<Option<u64>> = seq![Some(image_time)];
    assert(outs[0] is Some);
    assert forall|i: int, j: int|
        0 <= i < source_times.len() && 0 <= j < outs.len() && outs[j]
            is Some implies source_times[i] < outs[j]->0 by {
        assert(j == 0);
    }
}

} // verus!
