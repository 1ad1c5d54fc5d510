use vstd::prelude::*;
use crate::pointer::{normalize, normalized, PointerSample, PointerUniform};
use crate::surface::{SurfaceDimensions, SurfaceState};

verus! {

/// Where a frame in progress stands.
#[derive(Clone, Copy, Debug, PartialEq, Eq, Structural)]
pub enum FrameStage {
    /// Waiting for the latest pointer sample.
    Sampling,
    /// Waiting for the first attempt to acquire a frame target.
    Acquiring,
    /// The first attempt lost the surface; waiting for the one retry.
    Retrying,
}

#[derive(Clone, Copy, Debug, PartialEq, Eq, Structural)]
pub enum Phase {
    /// No configure event yet: nothing may be drawn.
    AwaitingConfigure,
    /// Waiting for the compositor's next frame callback.
    Idle,
    Rendering(FrameStage),
    /// The compositor closed the surface. Terminal.
    Closed,
}

/// Everything the render loop reacts to: compositor notifications, and the
/// answers to the commands it issued.
#[derive(Clone, Copy, Debug, PartialEq, Eq, Structural)]
pub enum Input {
    /// The compositor assigned the surface a size.
    Configure { width: u32, height: u32 },
    /// The compositor granted a frame.
    FrameCallback,
    /// The compositor closed the surface.
    Closed,
    /// Answer to `ReadPointer`: the sample drained from the channel, if one was waiting.
    Pointer(Option<PointerSample>),
    /// Answer to `Acquire` or `Reacquire`: a frame target was obtained.
    Acquired,
    /// Answer to `Acquire` or `Reacquire`: the surface was lost and must be reconfigured.
    SurfaceLost,
}

/// What the render loop asks its driver to do next.
#[derive(Clone, Copy, Debug, PartialEq, Eq, Structural)]
pub enum Command {
    /// Nothing to do until the next compositor event.
    Wait,
    /// Drain the pointer channel without blocking and answer with `Pointer`.
    ReadPointer,
    /// Write `uniform` to the GPU, configure the surface at `configure` when it
    /// is given, then acquire a frame target and answer with `Acquired` or
    /// `SurfaceLost`.
    Acquire { configure: Option<SurfaceDimensions>, uniform: PointerUniform },
    /// Reconfigure the surface at this size and acquire once more.
    Reacquire(SurfaceDimensions),
    /// Record and submit the render pass, damage the whole surface of this
    /// size, request the next frame callback, present and commit.
    Present(SurfaceDimensions),
    /// Give up this frame without drawing; request the next frame callback and commit.
    Skip,
    /// Stop requesting frames, stop the pointer sampler and join it.
    Shutdown,
}

impl Command {
    /// The command makes the driver acquire a frame target.
    pub open spec fn acquires(self) -> bool {
        self is Acquire || self is Reacquire
    }
}

/// State of the compositor-paced render loop.
#[derive(Clone, Copy, Debug, PartialEq, Eq, Structural)]
pub struct FrameLoop {
    pub phase: Phase,
    /// Size last reported by the compositor; the authoritative copy.
    pub surface: SurfaceState,
    /// Uniform of the last frame, kept until a newer sample arrives.
    pub uniform: PointerUniform,
    /// The reported size changed since the GPU surface was last configured.
    pub surface_stale: bool,
}

impl FrameLoop {
    pub open spec fn initial() -> FrameLoop {
        FrameLoop {
            phase: Phase::AwaitingConfigure,
            surface: SurfaceState::Unconfigured,
            uniform: PointerUniform::neutral_spec(),
            surface_stale: false,
        }
    }

    /// Consistency of phase and surface: a surface is configured exactly while
    /// the loop is idle or rendering, always at a positive size.
    pub open spec fn wf(self) -> bool {
        &&& self.uniform.wf()
        &&& (self.phase is AwaitingConfigure <==> self.surface is Unconfigured)
        &&& (self.phase is Closed <==> self.surface is Destroyed)
        &&& (self.surface matches SurfaceState::Configured(d) ==> d.positive())
    }

    pub fn new() -> (r: FrameLoop)
        ensures
            r == FrameLoop::initial(),
            r.wf(),
    {
        FrameLoop {
            phase: Phase::AwaitingConfigure,
            surface: SurfaceState::Unconfigured,
            uniform: PointerUniform::neutral(),
            surface_stale: false,
        }
    }
}

/// One transition of the render loop: the next state and the command for the driver.
pub open spec fn step(s: FrameLoop, i: Input) -> (FrameLoop, Command) {
    match i {
        Input::Configure { width, height } => {
            if s.phase is Closed {
                (s, Command::Wait)
            } else {
                let resized = FrameLoop {
                    surface: SurfaceState::Configured(SurfaceDimensions::for_configure(width, height)),
                    surface_stale: true,
                    ..s
                };
                if s.phase is AwaitingConfigure {
                    // the first configure draws at once, so that no frame stays blank
                    (
                        FrameLoop { phase: Phase::Rendering(FrameStage::Sampling), ..resized },
                        Command::ReadPointer,
                    )
                } else {
                    (resized, Command::Wait)
                }
            }
        },
        Input::FrameCallback => {
            if s.phase is Idle {
                (FrameLoop { phase: Phase::Rendering(FrameStage::Sampling), ..s }, Command::ReadPointer)
            } else {
                (s, Command::Wait)
            }
        },
        Input::Closed => {
            if s.phase is Closed {
                (s, Command::Wait)
            } else {
                (
                    FrameLoop { phase: Phase::Closed, surface: SurfaceState::Destroyed, ..s },
                    Command::Shutdown,
                )
            }
        },
        Input::Pointer(sample) => {
            match (s.phase, s.surface) {
                (Phase::Rendering(FrameStage::Sampling), SurfaceState::Configured(d)) => {
                    let u = match sample {
                        Some(p) => normalized(p, d),
                        None => s.uniform,
                    };
                    let configure = if s.surface_stale {
                        Some(d)
                    } else {
                        None
                    };
                    (
                        FrameLoop {
                            phase: Phase::Rendering(FrameStage::Acquiring),
                            uniform: u,
                            surface_stale: false,
                            ..s
                        },
                        Command::Acquire { configure, uniform: u },
                    )
                },
                _ => (s, Command::Wait),
            }
        },
        Input::Acquired => {
            match (s.phase, s.surface) {
                (Phase::Rendering(FrameStage::Acquiring), SurfaceState::Configured(d)) => (
                    FrameLoop { phase: Phase::Idle, ..s },
                    Command::Present(d),
                ),
                (Phase::Rendering(FrameStage::Retrying), SurfaceState::Configured(d)) => (
                    FrameLoop { phase: Phase::Idle, ..s },
                    Command::Present(d),
                ),
                _ => (s, Command::Wait),
            }
        },
        Input::SurfaceLost => {
            match (s.phase, s.surface) {
                (Phase::Rendering(FrameStage::Acquiring), SurfaceState::Configured(d)) => (
                    FrameLoop { phase: Phase::Rendering(FrameStage::Retrying), ..s },
                    Command::Reacquire(d),
                ),
                (Phase::Rendering(FrameStage::Retrying), _) => (
                    FrameLoop { phase: Phase::Idle, ..s },
                    Command::Skip,
                ),
                _ => (s, Command::Wait),
            }
        },
    }
}

impl FrameLoop {
    /// The single entry point of the render loop: applies one input and
    /// returns what the driver must do.
    pub fn handle(&mut self, input: Input) -> (c: Command)
        ensures
            (*final(self), c) == step(*old(self), input),
    {
        match input {
            Input::Configure { width, height } => {
                if let Phase::Closed = self.phase {
                    return Command::Wait;
                }
                self.surface = SurfaceState::Configured(SurfaceDimensions::from_configure(width, height));
                self.surface_stale = true;
                if let Phase::AwaitingConfigure = self.phase {
                    self.phase = Phase::Rendering(FrameStage::Sampling);
                    Command::ReadPointer
                } else {
                    Command::Wait
                }
            },
            Input::FrameCallback => {
                if let Phase::Idle = self.phase {
                    self.phase = Phase::Rendering(FrameStage::Sampling);
                    Command::ReadPointer
                } else {
                    Command::Wait
                }
            },
            Input::Closed => {
                if let Phase::Closed = self.phase {
                    Command::Wait
                } else {
                    self.phase = Phase::Closed;
                    self.surface = SurfaceState::Destroyed;
                    Command::Shutdown
                }
            },
            Input::Pointer(sample) => {
                match (self.phase, self.surface) {
                    (Phase::Rendering(FrameStage::Sampling), SurfaceState::Configured(d)) => {
                        let u = match sample {
                            Some(p) => normalize(p, d),
                            None => self.uniform,
                        };
                        let configure = if self.surface_stale {
                            Some(d)
                        } else {
                            None
                        };
                        self.phase = Phase::Rendering(FrameStage::Acquiring);
                        self.uniform = u;
                        self.surface_stale = false;
                        Command::Acquire { configure, uniform: u }
                    },
                    _ => Command::Wait,
                }
            },
            Input::Acquired => {
                match (self.phase, self.surface) {
                    (Phase::Rendering(FrameStage::Acquiring), SurfaceState::Configured(d))
                    | (Phase::Rendering(FrameStage::Retrying), SurfaceState::Configured(d)) => {
                        self.phase = Phase::Idle;
                        Command::Present(d)
                    },
                    _ => Command::Wait,
                }
            },
            Input::SurfaceLost => {
                match (self.phase, self.surface) {
                    (Phase::Rendering(FrameStage::Acquiring), SurfaceState::Configured(d)) => {
                        self.phase = Phase::Rendering(FrameStage::Retrying);
                        Command::Reacquire(d)
                    },
                    (Phase::Rendering(FrameStage::Retrying), _) => {
                        self.phase = Phase::Idle;
                        Command::Skip
                    },
                    _ => Command::Wait,
                }
            },
        }
    }
}

/// The state reached from `s` after the inputs, in order.
pub open spec fn run(s: FrameLoop, inputs: Seq<Input>) -> FrameLoop
    decreases inputs.len(),
{
    if inputs.len() == 0 {
        s
    } else {
        step(run(s, inputs.drop_last()), inputs.last()).0
    }
}

/// The command issued for the `k`-th input of a run that starts at the initial state.
pub open spec fn command_at(inputs: Seq<Input>, k: int) -> Command {
    step(run(FrameLoop::initial(), inputs.take(k)), inputs[k]).1
}

/// Every transition keeps the loop well formed.
pub proof fn lemma_step_preserves_wf(s: FrameLoop, i: Input)
    requires
        s.wf(),
    ensures
        step(s, i).0.wf(),
{
}

/// Every state reachable from the initial one is well formed.
pub proof fn lemma_run_wf(inputs: Seq<Input>)
    ensures
        run(FrameLoop::initial(), inputs).wf(),
    decreases inputs.len(),
{
    if inputs.len() > 0 {
        lemma_run_wf(inputs.drop_last());
        lemma_step_preserves_wf(run(FrameLoop::initial(), inputs.drop_last()), inputs.last());
    }
}

/// Until the first configure event the loop is neither idle nor rendering.
pub proof fn lemma_unconfigured_run(inputs: Seq<Input>)
    requires
        forall|j: int| 0 <= j < inputs.len() ==> !(#[trigger] inputs[j] is Configure),
    ensures
        run(FrameLoop::initial(), inputs).phase is AwaitingConfigure
            || run(FrameLoop::initial(), inputs).phase is Closed,
    decreases inputs.len(),
{
    if inputs.len() > 0 {
        let prefix = inputs.drop_last();
        assert forall|j: int| 0 <= j < prefix.len() implies !(#[trigger] prefix[j] is Configure) by {
            assert(prefix[j] == inputs[j]);
        }
        lemma_unconfigured_run(prefix);
        assert(!(inputs[inputs.len() - 1] is Configure));
    }
}

/// A frame target is never acquired before the compositor has configured the
/// surface at least once: every command that acquires answers a later input
/// than some configure event.
pub proof fn lemma_acquire_only_after_configure(inputs: Seq<Input>, k: int)
    requires
        0 <= k < inputs.len(),
        command_at(inputs, k).acquires(),
    ensures
        exists|j: int| 0 <= j < k && #[trigger] inputs[j] is Configure,
{
    let prefix = inputs.take(k);
    if !(exists|j: int| 0 <= j < k && #[trigger] inputs[j] is Configure) {
        assert forall|j: int| 0 <= j < prefix.len() implies !(#[trigger] prefix[j] is Configure) by {
            assert(prefix[j] == inputs[j]);
        }
        lemma_unconfigured_run(prefix);
    }
}

/// In every run from the initial state, each size the driver is asked to
/// configure, reconfigure or damage is positive in both axes.
pub proof fn lemma_commanded_sizes_positive(inputs: Seq<Input>, k: int)
    requires
        0 <= k < inputs.len(),
    ensures
        command_at(inputs, k) matches Command::Acquire { configure: Some(d), .. } ==> d.positive(),
        command_at(inputs, k) matches Command::Reacquire(d) ==> d.positive(),
        command_at(inputs, k) matches Command::Present(d) ==> d.positive(),
{
    lemma_run_wf(inputs.take(k));
}

/// A configure event with a zero edge sets the surface to the fallback square,
/// and the next frame configures the GPU surface at that size before it acquires.
pub proof fn lemma_degenerate_configure(
    s: FrameLoop,
    width: u32,
    height: u32,
    sample: Option<PointerSample>,
)
    requires
        s.wf(),
        s.phase is AwaitingConfigure || s.phase is Idle,
        width == 0 || height == 0,
    ensures
        ({
            let s1 = step(s, Input::Configure { width, height }).0;
            let s2 = if s.phase is Idle {
                step(s1, Input::FrameCallback).0
            } else {
                s1
            };
            &&& s1.surface == SurfaceState::Configured(SurfaceDimensions::fallback())
            &&& step(s2, Input::Pointer(sample)).1 matches Command::Acquire { configure, .. }
            &&& configure == Some(SurfaceDimensions::fallback())
        }),
{
}

/// The uniform of a frame comes from the latest sample published since the
/// previous frame drained the channel, or is the previous frame's uniform when
/// none was published; the loop keeps it for the frames that follow.
pub proof fn lemma_frame_uses_latest_sample(s: FrameLoop, samples: Seq<PointerSample>)
    requires
        s.wf(),
        s.phase == Phase::Rendering(FrameStage::Sampling),
    ensures
        ({
            let (s1, c) = step(s, Input::Pointer(crate::slot::published(None, samples)));
            let expected = if samples.len() == 0 {
                s.uniform
            } else {
                normalized(samples.last(), s.surface->Configured_0)
            };
            &&& c matches Command::Acquire { uniform, .. }
            &&& uniform == expected
            &&& s1.uniform == expected
        }),
{
    crate::slot::lemma_published_is_latest(None, samples);
}

/// A lost surface is retried once per frame: after one loss the loop
/// reconfigures and acquires again, after a second one it skips the frame and
/// goes back to waiting for a frame callback.
pub proof fn lemma_one_retry_per_frame(s: FrameLoop)
    requires
        s.wf(),
        s.phase == Phase::Rendering(FrameStage::Acquiring),
    ensures
        ({
            let d = s.surface->Configured_0;
            let (s1, c1) = step(s, Input::SurfaceLost);
            &&& c1 == Command::Reacquire(d)
            &&& step(s1, Input::Acquired) == (FrameLoop { phase: Phase::Idle, ..s }, Command::Present(d))
            &&& step(s1, Input::SurfaceLost) == (FrameLoop { phase: Phase::Idle, ..s }, Command::Skip)
        }),
{
}

/// Once closed, the loop stays closed and issues no command but `Wait`: in
/// particular it requests no further frame.
pub proof fn lemma_closed_is_terminal(s: FrameLoop, inputs: Seq<Input>)
    requires
        s.phase is Closed,
    ensures
        run(s, inputs) == s,
        forall|i: Input| #[trigger] step(s, i) == (s, Command::Wait),
    decreases inputs.len(),
{
    if inputs.len() > 0 {
        lemma_closed_is_terminal(s, inputs.drop_last());
    }
}

} // verus!
