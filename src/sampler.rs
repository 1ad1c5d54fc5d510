use vstd::prelude::*;
use crate::pointer::PointerSample;

verus! {

/// Milliseconds between two reads of the absolute pointer position.
pub const POLL_INTERVAL_MS: u64 = 25;

/// What the sampler thread does after one read of the pointer position.
#[derive(Clone, Copy, Debug, PartialEq, Eq, Structural)]
pub enum SamplerStep {
    /// The position moved: publish it on the channel.
    Publish(PointerSample),
    /// Same position as last published: publish nothing.
    Unchanged,
    /// Shutdown was requested, or the input source could not be read: leave the loop.
    Stop,
}

/// Decision state of the polling pointer sampler: the position it last published.
#[derive(Clone, Copy, Debug, PartialEq, Eq, Structural)]
pub struct CursorTracker {
    pub last: Option<PointerSample>,
}

/// One poll of the sampler. `reading` is the position read, or `None` when the
/// input source failed; the render loop then keeps its last uniform.
pub open spec fn sampler_step(t: CursorTracker, stop_requested: bool, reading: Option<PointerSample>) -> (
    CursorTracker,
    SamplerStep,
) {
    if stop_requested {
        (t, SamplerStep::Stop)
    } else {
        match reading {
            None => (t, SamplerStep::Stop),
            Some(p) => if t.last == Some(p) {
                (t, SamplerStep::Unchanged)
            } else {
                (CursorTracker { last: Some(p) }, SamplerStep::Publish(p))
            },
        }
    }
}

impl CursorTracker {
    pub fn new() -> (t: CursorTracker)
        ensures
            t.last is None,
    {
        CursorTracker { last: None }
    }

    pub fn poll(&mut self, stop_requested: bool, reading: Option<PointerSample>) -> (r: SamplerStep)
        ensures
            (*final(self), r) == sampler_step(*old(self), stop_requested, reading),
    {
        if stop_requested {
            return SamplerStep::Stop;
        }
        match reading {
            None => SamplerStep::Stop,
            Some(p) => {
                let moved = match self.last {
                    Some(q) => q != p,
                    None => true,
                };
                if moved {
                    self.last = Some(p);
                    SamplerStep::Publish(p)
                } else {
                    SamplerStep::Unchanged
                }
            },
        }
    }
}

/// A position is published once however many polls read it in a row: right
/// after a publish, reading the same position again publishes nothing.
pub proof fn lemma_publish_only_on_change(t: CursorTracker, p: PointerSample)
    ensures
        ({
            let (t1, r1) = sampler_step(t, false, Some(p));
            &&& t1.last == Some(p)
            &&& r1 is Publish || r1 is Unchanged
            &&& sampler_step(t1, false, Some(p)) == (t1, SamplerStep::Unchanged)
        }),
{
}

} // verus!
