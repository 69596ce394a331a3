//! Fixed-capacity history of decoded frames with lookback by lag.
//!
//! The ring keeps the most recent frames in order, oldest first. Pushing a
//! frame when the ring is full evicts the oldest one. Lookback by lag `k`
//! yields the frame that was newest `k` insertions ago; while the ring still
//! holds fewer than `k + 1` frames, the lookback clamps to the oldest
//! retained frame.

use std::collections::VecDeque;
use vstd::prelude::*;

verus! {

/// What one push does to the retained sequence `s` of a ring of capacity
/// `cap`: append at the back, evicting the front once `cap` is reached.
pub open spec fn spec_ring_push(s: Seq<Seq<u32>>, cap: nat, f: Seq<u32>) -> Seq<Seq<u32>> {
    if s.len() < cap {
        s.push(f)
    } else {
        s.skip(1).push(f)
    }
}

/// The frame a lookback by lag `k` yields from the retained sequence `s`,
/// newest last: `s[len - 1 - k]`, clamped to the oldest frame `s[0]` when
/// fewer than `k + 1` frames are retained.
pub open spec fn spec_at_lag(s: Seq<Seq<u32>>, k: nat) -> Seq<u32> {
    if k < s.len() {
        s[s.len() - 1 - k]
    } else {
        s[0]
    }
}

/// The retained sequence after pushing every frame of `frames`, first one
/// first, into an empty ring of capacity `cap`.
pub open spec fn spec_pushed(cap: nat, frames: Seq<Seq<u32>>) -> Seq<Seq<u32>>
    decreases frames.len(),
{
    if frames.len() == 0 {
        Seq::empty()
    } else {
        spec_ring_push(spec_pushed(cap, frames.drop_last()), cap, frames.last())
    }
}

/// Law: after pushing `m` frames into an initially empty ring of capacity
/// `cap`, the ring retains exactly `min(m, cap)` frames.
pub proof fn lemma_pushed_length(cap: nat, frames: Seq<Seq<u32>>)
    requires
        cap >= 1,
    ensures
        spec_pushed(cap, frames).len() == if frames.len() < cap {
            frames.len()
        } else {
            cap
        },
    decreases frames.len(),
{
    if frames.len() > 0 {
        lemma_pushed_length(cap, frames.drop_last());
    }
}

/// Law: after any non-empty run of pushes into an initially empty ring, a
/// lookback by lag 0 yields the frame pushed last.
pub proof fn lemma_pushed_newest(cap: nat, frames: Seq<Seq<u32>>)
    requires
        cap >= 1,
        frames.len() > 0,
    ensures
        spec_pushed(cap, frames).last() == frames.last(),
        spec_at_lag(spec_pushed(cap, frames), 0) == frames.last(),
{
    lemma_pushed_length(cap, frames);
}

/// Law: after any run of pushes into an initially empty ring, the ring
/// retains exactly the last `min(m, cap)` pushed frames, in push order —
/// index 0 is always the oldest retained frame, the back the newest.
pub proof fn lemma_pushed_retains_suffix(cap: nat, frames: Seq<Seq<u32>>)
    requires
        cap >= 1,
    ensures
        spec_pushed(cap, frames) == frames.skip(
            if frames.len() <= cap {
                0
            } else {
                frames.len() - cap
            },
        ),
    decreases frames.len(),
{
    let m = frames.len() as int;
    if m > 0 {
        let d = frames.drop_last();
        lemma_pushed_retains_suffix(cap, d);
        lemma_pushed_length(cap, d);
        if m <= cap {
            assert(d.skip(0) =~= d);
            assert(d.push(frames.last()) =~= frames.skip(0));
        } else {
            assert(d.skip(m - 1 - cap).push(frames.last()) =~= frames.skip(m - 1 - cap));
            assert(frames.skip(m - 1 - cap).skip(1) =~= frames.skip(m - cap));
            assert(d.skip(m - 1 - cap).skip(1).push(frames.last()) =~= frames.skip(m - cap));
        }
    } else {
        assert(spec_pushed(cap, frames) =~= frames.skip(0));
    }
}

/// A fixed-capacity ring of decoded frames, oldest first.
pub struct HistoryRing {
    frames: VecDeque<Vec<u32>>,
    capacity: usize,
}

impl View for HistoryRing {
    type V = Seq<Seq<u32>>;

    closed spec fn view(&self) -> Seq<Seq<u32>> {
        self.frames@.map_values(|f: Vec<u32>| f@)
    }
}

impl HistoryRing {
    /// The fixed capacity chosen at construction.
    pub closed spec fn cap(&self) -> nat {
        self.capacity as nat
    }

    /// The ring never retains more frames than its capacity.
    pub open spec fn wf(&self) -> bool {
        &&& self@.len() <= self.cap()
        &&& self.cap() >= 1
    }

    /// Creates an empty ring of the given capacity.
    pub fn new(capacity: usize) -> (r: Self)
        requires
            capacity >= 1,
        ensures
            r.wf(),
            r@.len() == 0,
            r.cap() == capacity as nat,
    {
        let r = HistoryRing { frames: VecDeque::new(), capacity };
        proof {
            assert(r@ =~= Seq::<Seq<u32>>::empty());
        }
        r
    }

    /// The number of frames currently retained.
    pub fn len(&self) -> (n: usize)
        ensures
            n == self@.len(),
    {
        self.frames.len()
    }

    /// Appends the newest frame, evicting the oldest once full.
    pub fn push(&mut self, frame: Vec<u32>)
        requires
            old(self).wf(),
        ensures
            final(self).wf(),
            final(self).cap() == old(self).cap(),
            final(self)@ == spec_ring_push(old(self)@, old(self).cap(), frame@),
            final(self)@.len() == if old(self)@.len() < old(self).cap() {
                old(self)@.len() + 1
            } else {
                old(self).cap()
            },
            final(self)@.last() == frame@,
    {
        let ghost before = self@;
        self.frames.push_back(frame);
        proof {
            assert(self@ =~= before.push(frame@));
        }
        if self.frames.len() > self.capacity {
            let ghost mid = self@;
            self.frames.pop_front();
            proof {
                assert(self@ =~= mid.skip(1));
                assert(self@ =~= before.skip(1).push(frame@));
            }
        }
    }

    /// Lookback by lag: the frame that was newest `k` insertions ago,
    /// clamped to the oldest retained frame during the startup transient.
    pub fn at_lag(&self, k: usize) -> (f: &Vec<u32>)
        requires
            self@.len() > 0,
        ensures
            f@ == spec_at_lag(self@, k as nat),
            k == 0 ==> f@ == self@.last(),
            k as nat >= self@.len() ==> f@ == self@.first(),
    {
        let length = self.frames.len();
        let idx = if k < length {
            length - 1 - k
        } else {
            0
        };
        &self.frames[idx]
    }
}

} // verus!
