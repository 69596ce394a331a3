//! Per-pixel motion differencing between the newest frame and three lagged
//! frames, and the per-frame render step that drives it.
//!
//! The computation is pure: no pixel's result depends on any other pixel,
//! so the pixel range may be partitioned across parallel workers. The
//! parallel fan-out writes disjoint output slots and changes nothing else.

use crate::pixel::diff_pixel;
use crate::pixel::spec_diff_pixel;
use crate::ring::HistoryRing;
use crate::ring::spec_at_lag;
use crate::ring::spec_ring_push;
use crate::BLUE_LAG;
use crate::GREEN_LAG;
use crate::RED_LAG;
use rayon::iter::IndexedParallelIterator;
use rayon::iter::IntoParallelRefMutIterator;
use rayon::iter::ParallelIterator;
use vstd::prelude::*;

verus! {

/// The motion image derived from the newest frame `n` and the lagged frames
/// `fr`, `fg`, `fb`: at every index the per-channel saturating difference of
/// the newest pixel against that channel's lagged pixel.
pub open spec fn spec_diff_frame(n: Seq<u32>, fr: Seq<u32>, fg: Seq<u32>, fb: Seq<u32>) -> Seq<
    u32,
> {
    Seq::new(n.len(), |i: int| spec_diff_pixel(n[i], fr[i], fg[i], fb[i]))
}

/// Law: the motion image is a deterministic function of the decoded frames
/// alone. Any two outputs that meet the diff engine's contract on identical
/// inputs are bit-identical, however the parallel fan-out interleaved.
pub proof fn lemma_diff_deterministic(
    out1: Seq<u32>,
    out2: Seq<u32>,
    n: Seq<u32>,
    fr: Seq<u32>,
    fg: Seq<u32>,
    fb: Seq<u32>,
)
    requires
        out1 == spec_diff_frame(n, fr, fg, fb),
        out2 == spec_diff_frame(n, fr, fg, fb),
    ensures
        out1 == out2,
{
}

/// Computes the motion pixel at index `i` of the output.
pub fn diff_at(i: usize, n: &Vec<u32>, fr: &Vec<u32>, fg: &Vec<u32>, fb: &Vec<u32>) -> (p: u32)
    requires
        i < n@.len(),
        i < fr@.len(),
        i < fg@.len(),
        i < fb@.len(),
    ensures
        p == spec_diff_frame(n@, fr@, fg@, fb@)[i as int],
{
    diff_pixel(n[i], fr[i], fg[i], fb[i])
}

/// Relies on rayon's `par_iter_mut`, `enumerate` and `for_each`: the
/// parallel iterator visits every element of `out` exactly once, `enumerate`
/// pairs each element with its index in the vector, and `for_each` applies
/// the closure to each pair. The closure stores the verified motion pixel
/// for that index, so the whole buffer ends up elementwise equal to the
/// motion image.
#[verifier::external_body]
fn par_diff_into(out: &mut Vec<u32>, n: &Vec<u32>, fr: &Vec<u32>, fg: &Vec<u32>, fb: &Vec<u32>)
    requires
        old(out)@.len() == n@.len(),
        fr@.len() == n@.len(),
        fg@.len() == n@.len(),
        fb@.len() == n@.len(),
    ensures
        final(out)@ == spec_diff_frame(n@, fr@, fg@, fb@),
{
    out.par_iter_mut().enumerate().for_each(|(i, pixel)| {
        *pixel = diff_at(i, n, fr, fg, fb);
    });
}

/// Overwrites the reusable output buffer with the motion image derived from
/// the newest frame `n` and the lagged frames `fr`, `fg`, `fb`. The inputs
/// are never mutated; only the output buffer changes.
pub fn compute_diff(
    out: &mut Vec<u32>,
    n: &Vec<u32>,
    fr: &Vec<u32>,
    fg: &Vec<u32>,
    fb: &Vec<u32>,
)
    requires
        old(out)@.len() == n@.len(),
        fr@.len() == n@.len(),
        fg@.len() == n@.len(),
        fb@.len() == n@.len(),
    ensures
        final(out)@ == spec_diff_frame(n@, fr@, fg@, fb@),
        final(out)@.len() == n@.len(),
{
    par_diff_into(out, n, fr, fg, fb);
}

/// One iteration of the render loop's frame handling: push the newest
/// decoded frame into the history and overwrite the output buffer with the
/// motion image against the fixed per-channel lags.
pub fn render_step(ring: &mut HistoryRing, out: &mut Vec<u32>, frame: Vec<u32>)
    requires
        old(ring).wf(),
        old(out)@.len() == frame@.len(),
        forall|i: int|
            0 <= i < old(ring)@.len() ==> (#[trigger] old(ring)@[i]).len() == frame@.len(),
    ensures
        final(ring).wf(),
        final(ring).cap() == old(ring).cap(),
        final(ring)@ == spec_ring_push(old(ring)@, old(ring).cap(), frame@),
        forall|i: int|
            0 <= i < final(ring)@.len() ==> (#[trigger] final(ring)@[i]).len() == frame@.len(),
        final(out)@ == spec_diff_frame(
            frame@,
            spec_at_lag(final(ring)@, RED_LAG as nat),
            spec_at_lag(final(ring)@, GREEN_LAG as nat),
            spec_at_lag(final(ring)@, BLUE_LAG as nat),
        ),
{
    ring.push(frame);
    let newest = ring.at_lag(0);
    let lag_r = ring.at_lag(RED_LAG);
    let lag_g = ring.at_lag(GREEN_LAG);
    let lag_b = ring.at_lag(BLUE_LAG);
    compute_diff(out, newest, lag_r, lag_g, lag_b);
}

} // verus!
