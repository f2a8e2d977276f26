use vstd::prelude::*;

verus! {

/// Where the current frame stands.
#[derive(Debug, Clone, Copy, PartialEq, Eq, Structural)]
pub enum FramePhase {
    /// Between frames, or the frame was dropped.
    Idle,
    /// Waiting for the next surface texture; `retried` once the surface was reconfigured.
    Acquiring { retried: bool },
    /// A surface texture is held and the passes record into the frame's encoder.
    Recording,
}

/// What happened, as reported by the code that talks to the GPU.
#[derive(Debug, Clone, Copy, PartialEq, Eq, Structural)]
pub enum FrameEvent {
    /// A new frame begins; `window_open` is false when there is no window to draw to.
    Start { window_open: bool },
    /// The surface handed out its next texture.
    Acquired,
    /// The surface is outdated and must be reconfigured.
    Outdated,
    /// Acquiring failed otherwise (lost surface, timeout, out of memory).
    AcquireFailed,
    /// All passes were recorded; the frame ends.
    Finish { window_open: bool },
}

/// What the caller must do next.
#[derive(Debug, Clone, Copy, PartialEq, Eq, Structural)]
pub enum FrameAction {
    Nothing,
    /// Request the next surface texture.
    Acquire,
    /// Configure the surface again with the current configuration, then request again.
    ReconfigureAndAcquire,
    /// Create a view of the acquired texture (and a multisampled target when
    /// `multisampled`), open the frame's single encoder and record the passes into it.
    BeginRecording { multisampled: bool },
    /// Log the failure and drop this frame: no passes, no submit, no present.
    SkipFrame,
    /// Finish the encoder, submit it once, present the texture.
    SubmitAndPresent,
    /// The frame ends without an encoder: log a warning, nothing to submit.
    WarnNoEncoder,
}

/// The transition of the frame orchestrator.
pub open spec fn frame_step(phase: FramePhase, sample_count: u32, ev: FrameEvent) -> (FramePhase, FrameAction) {
    match (phase, ev) {
        (FramePhase::Idle, FrameEvent::Start { window_open }) => if window_open {
            (FramePhase::Acquiring { retried: false }, FrameAction::Acquire)
        } else {
            (FramePhase::Idle, FrameAction::Nothing)
        },
        (FramePhase::Acquiring { retried: _ }, FrameEvent::Acquired) => (
            FramePhase::Recording,
            FrameAction::BeginRecording { multisampled: sample_count > 1 },
        ),
        (FramePhase::Acquiring { retried }, FrameEvent::Outdated) => if retried {
            (FramePhase::Idle, FrameAction::SkipFrame)
        } else {
            (FramePhase::Acquiring { retried: true }, FrameAction::ReconfigureAndAcquire)
        },
        (FramePhase::Acquiring { retried: _ }, FrameEvent::AcquireFailed) => (FramePhase::Idle, FrameAction::SkipFrame),
        (FramePhase::Recording, FrameEvent::Finish { window_open }) => if window_open {
            (FramePhase::Idle, FrameAction::SubmitAndPresent)
        } else {
            (FramePhase::Idle, FrameAction::Nothing)
        },
        (FramePhase::Idle, FrameEvent::Finish { window_open }) => if window_open {
            (FramePhase::Idle, FrameAction::WarnNoEncoder)
        } else {
            (FramePhase::Idle, FrameAction::Nothing)
        },
        _ => (phase, FrameAction::Nothing),
    }
}

/// Runs one frame at a time: acquire, record, submit and present, with one
/// reconfiguration of an outdated surface per frame.
#[derive(Debug, Clone, Copy, PartialEq, Eq, Structural)]
pub struct FrameOrchestrator {
    pub phase: FramePhase,
    pub sample_count: u32,
}

impl FrameOrchestrator {
    pub fn new(sample_count: u32) -> (r: FrameOrchestrator)
        ensures
            r.phase == FramePhase::Idle,
            r.sample_count == sample_count,
    {
        FrameOrchestrator { phase: FramePhase::Idle, sample_count }
    }

    /// Takes an event and returns the action to perform.
    pub fn step(&mut self, ev: FrameEvent) -> (r: FrameAction)
        ensures
            (final(self).phase, r) == frame_step(old(self).phase, old(self).sample_count, ev),
            final(self).sample_count == old(self).sample_count,
    {
        let (phase, action) = match (self.phase, ev) {
            (FramePhase::Idle, FrameEvent::Start { window_open }) => if window_open {
                (FramePhase::Acquiring { retried: false }, FrameAction::Acquire)
            } else {
                (FramePhase::Idle, FrameAction::Nothing)
            },
            (FramePhase::Acquiring { retried: _ }, FrameEvent::Acquired) => (
                FramePhase::Recording,
                FrameAction::BeginRecording { multisampled: self.sample_count > 1 },
            ),
            (FramePhase::Acquiring { retried }, FrameEvent::Outdated) => if retried {
                (FramePhase::Idle, FrameAction::SkipFrame)
            } else {
                (FramePhase::Acquiring { retried: true }, FrameAction::ReconfigureAndAcquire)
            },
            (FramePhase::Acquiring { retried: _ }, FrameEvent::AcquireFailed) => (FramePhase::Idle, FrameAction::SkipFrame),
            (FramePhase::Recording, FrameEvent::Finish { window_open }) => if window_open {
                (FramePhase::Idle, FrameAction::SubmitAndPresent)
            } else {
                (FramePhase::Idle, FrameAction::Nothing)
            },
            (FramePhase::Idle, FrameEvent::Finish { window_open }) => if window_open {
                (FramePhase::Idle, FrameAction::WarnNoEncoder)
            } else {
                (FramePhase::Idle, FrameAction::Nothing)
            },
            _ => (self.phase, FrameAction::Nothing),
        };
        self.phase = phase;
        action
    }

    /// A new multisample count, for the frames that begin from now on.
    pub fn set_sample_count(&mut self, sample_count: u32)
        ensures
            final(self).phase == old(self).phase,
            final(self).sample_count == sample_count,
    {
        self.sample_count = sample_count;
    }
}

/// The phases and actions of a run of events from `phase`.
pub open spec fn frame_run(phase: FramePhase, sample_count: u32, evs: Seq<FrameEvent>) -> (FramePhase, Seq<FrameAction>)
    decreases evs.len(),
{
    if evs.len() == 0 {
        (phase, Seq::empty())
    } else {
        let (next, first_action) = frame_step(phase, sample_count, evs[0]);
        let (last, rest) = frame_run(next, sample_count, evs.subrange(1, evs.len() as int));
        (last, seq![first_action] + rest)
    }
}

pub open spec fn reconfigures(actions: Seq<FrameAction>) -> nat
    decreases actions.len(),
{
    if actions.len() == 0 {
        0
    } else {
        (if actions[0] == FrameAction::ReconfigureAndAcquire { 1nat } else { 0nat })
            + reconfigures(actions.subrange(1, actions.len() as int))
    }
}

/// Events that stay within one frame: no new frame starts.
pub open spec fn within_frame(evs: Seq<FrameEvent>) -> bool {
    forall|i: int| 0 <= i < evs.len() ==> !(#[trigger] evs[i] is Start)
}

proof fn lemma_reconfigure_bound(retried: bool, sample_count: u32, evs: Seq<FrameEvent>)
    requires
        within_frame(evs),
    ensures
        reconfigures(frame_run(FramePhase::Acquiring { retried }, sample_count, evs).1)
            <= (if retried { 0nat } else { 1nat }),
    decreases evs.len(),
{
    if evs.len() > 0 {
        let rest = evs.subrange(1, evs.len() as int);
        assert(within_frame(rest)) by {
            assert forall|i: int| 0 <= i < rest.len() implies !(#[trigger] rest[i] is Start) by {
                assert(rest[i] == evs[i + 1]);
            }
        }
        let (next, first_action) = frame_step(FramePhase::Acquiring { retried }, sample_count, evs[0]);
        let acts = frame_run(FramePhase::Acquiring { retried }, sample_count, evs).1;
        assert(acts.subrange(1, acts.len() as int) =~= frame_run(next, sample_count, rest).1);
        match next {
            FramePhase::Acquiring { retried: r1 } => {
                lemma_reconfigure_bound(r1, sample_count, rest);
            },
            _ => {
                lemma_no_reconfigure_outside_acquire(next, sample_count, rest);
            },
        }
    }
}

proof fn lemma_no_reconfigure_outside_acquire(phase: FramePhase, sample_count: u32, evs: Seq<FrameEvent>)
    requires
        within_frame(evs),
        !(phase is Acquiring),
    ensures
        reconfigures(frame_run(phase, sample_count, evs).1) == 0,
    decreases evs.len(),
{
    if evs.len() > 0 {
        let rest = evs.subrange(1, evs.len() as int);
        assert(within_frame(rest)) by {
            assert forall|i: int| 0 <= i < rest.len() implies !(#[trigger] rest[i] is Start) by {
                assert(rest[i] == evs[i + 1]);
            }
        }
        assert(!(evs[0] is Start));
        let (next, first_action) = frame_step(phase, sample_count, evs[0]);
        let acts = frame_run(phase, sample_count, evs).1;
        assert(acts.subrange(1, acts.len() as int) =~= frame_run(next, sample_count, rest).1);
        lemma_no_reconfigure_outside_acquire(next, sample_count, rest);
    }
}

/// Within one frame the surface is reconfigured at most once: a second outdated surface
/// drops the frame instead.
pub proof fn lemma_one_reconfigure_per_frame(window_open: bool, sample_count: u32, evs: Seq<FrameEvent>)
    requires
        within_frame(evs),
    ensures
        reconfigures(frame_run(FramePhase::Idle, sample_count, seq![FrameEvent::Start { window_open }] + evs).1) <= 1,
{
    let all = seq![FrameEvent::Start { window_open }] + evs;
    assert(all.subrange(1, all.len() as int) =~= evs);
    let (next, first_action) = frame_step(FramePhase::Idle, sample_count, all[0]);
    let acts = frame_run(FramePhase::Idle, sample_count, all).1;
    assert(acts.subrange(1, acts.len() as int) =~= frame_run(next, sample_count, evs).1);
    if window_open {
        lemma_reconfigure_bound(false, sample_count, evs);
    } else {
        lemma_no_reconfigure_outside_acquire(next, sample_count, evs);
    }
}

} // verus!
