use vstd::prelude::*;
use crate::pointer::PointerSample;

verus! {

/// Single-slot "latest value" channel between the pointer sampler and the
/// render loop. Publishing never waits: a sample that was not taken yet is
/// replaced. Taking never waits either: it drains the slot, or finds it empty.
#[derive(Clone, Copy, Debug, PartialEq, Eq, Structural)]
pub struct LatestSlot {
    pub pending: Option<PointerSample>,
}

/// What the slot holds after `samples` are published, in order, into a slot
/// that held `pending`.
pub open spec fn published(pending: Option<PointerSample>, samples: Seq<PointerSample>) -> Option<
    PointerSample,
>
    decreases samples.len(),
{
    if samples.len() == 0 {
        pending
    } else {
        published(Some(samples[0]), samples.drop_first())
    }
}

impl LatestSlot {
    pub fn new() -> (s: LatestSlot)
        ensures
            s.pending is None,
    {
        LatestSlot { pending: None }
    }

    /// Stores `sample`, superseding any sample that was not taken.
    pub fn publish(&mut self, sample: PointerSample)
        ensures
            final(self).pending == Some(sample),
    {
        self.pending = Some(sample);
    }

    /// Removes and returns the sample that is waiting, if any.
    pub fn take(&mut self) -> (r: Option<PointerSample>)
        ensures
            r == old(self).pending,
            final(self).pending is None,
    {
        let r = self.pending;
        self.pending = None;
        r
    }
}

/// After a run of publishes the slot holds the last sample of the run, or what
/// it held before when the run is empty: last value wins, nothing is queued.
pub proof fn lemma_published_is_latest(pending: Option<PointerSample>, samples: Seq<PointerSample>)
    ensures
        published(pending, samples) == (if samples.len() == 0 {
            pending
        } else {
            Some(samples.last())
        }),
    decreases samples.len(),
{
    if samples.len() > 0 {
        lemma_published_is_latest(Some(samples[0]), samples.drop_first());
    }
}

} // verus!
