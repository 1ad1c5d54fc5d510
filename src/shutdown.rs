use vstd::prelude::*;

verus! {

/// How long the coordinator waits for the sampler thread to finish.
pub const JOIN_GRACE_MS: u64 = 1000;

/// Milliseconds between two checks on the sampler thread while waiting.
pub const JOIN_POLL_MS: u64 = 10;

/// What to do with the sampler thread's handle after one check.
#[derive(Clone, Copy, Debug, PartialEq, Eq, Structural)]
pub enum JoinStep {
    /// The thread has finished: join it, which returns at once.
    Join,
    /// Not finished and within the grace period: sleep `JOIN_POLL_MS` and check again.
    Wait,
    /// The grace period is over: log it and exit without the thread.
    Abandon,
}

/// The shutdown coordinator's bounded wait for the sampler thread.
#[derive(Clone, Copy, Debug, PartialEq, Eq, Structural)]
pub struct JoinWatch {
    /// Time spent waiting so far.
    pub waited_ms: u64,
}

pub open spec fn join_step(w: JoinWatch, finished: bool) -> (JoinWatch, JoinStep) {
    if finished {
        (w, JoinStep::Join)
    } else if w.waited_ms >= JOIN_GRACE_MS {
        (w, JoinStep::Abandon)
    } else {
        (JoinWatch { waited_ms: (w.waited_ms + JOIN_POLL_MS) as u64 }, JoinStep::Wait)
    }
}

/// The watch after `n` checks that found the thread still running.
pub open spec fn after_unfinished(w: JoinWatch, n: nat) -> JoinWatch
    decreases n,
{
    if n == 0 {
        w
    } else {
        join_step(after_unfinished(w, (n - 1) as nat), false).0
    }
}

impl JoinWatch {
    pub fn new() -> (w: JoinWatch)
        ensures
            w.waited_ms == 0,
    {
        JoinWatch { waited_ms: 0 }
    }

    pub fn check(&mut self, finished: bool) -> (r: JoinStep)
        ensures
            (*final(self), r) == join_step(*old(self), finished),
    {
        if finished {
            JoinStep::Join
        } else if self.waited_ms >= JOIN_GRACE_MS {
            JoinStep::Abandon
        } else {
            self.waited_ms = self.waited_ms + JOIN_POLL_MS;
            JoinStep::Wait
        }
    }
}

/// The wait is bounded by the grace period: from a fresh watch, the first
/// `JOIN_GRACE_MS / JOIN_POLL_MS` checks on a running thread say `Wait`, and
/// the next one gives up.
pub proof fn lemma_join_wait_bounded(n: nat)
    requires
        n <= JOIN_GRACE_MS / JOIN_POLL_MS,
    ensures
        after_unfinished(JoinWatch { waited_ms: 0 }, n).waited_ms == n * JOIN_POLL_MS,
        n < JOIN_GRACE_MS / JOIN_POLL_MS ==> join_step(
            after_unfinished(JoinWatch { waited_ms: 0 }, n),
            false,
        ).1 == JoinStep::Wait,
        n == JOIN_GRACE_MS / JOIN_POLL_MS ==> join_step(
            after_unfinished(JoinWatch { waited_ms: 0 }, n),
            false,
        ).1 == JoinStep::Abandon,
    decreases n,
{
    if n > 0 {
        lemma_join_wait_bounded((n - 1) as nat);
    }
}

/// How the process ended.
#[derive(Clone, Copy, Debug, PartialEq, Eq, Structural)]
pub enum Termination {
    /// The compositor closed the surface; a sampler that outlived the grace
    /// period does not change this.
    Closed,
    /// No suitable GPU adapter, or no background-layer support.
    InitFailed,
}

pub fn exit_code(t: Termination) -> (code: i32)
    ensures
        t == Termination::Closed ==> code == 0,
        t == Termination::InitFailed ==> code != 0,
{
    match t {
        Termination::Closed => 0,
        Termination::InitFailed => 1,
    }
}

} // verus!
