//! Frame pacing: a ring of in-flight frame slots, and the steps of one frame.

use vstd::prelude::*;

verus! {

/// Number of frames that may be in flight at once.
pub const FRAMES_IN_FLIGHT: usize = 2;

/// The slot that follows slot `s`.
pub open spec fn next_slot(s: int) -> int {
    (s + 1) % (FRAMES_IN_FLIGHT as int)
}

/// The slot reached from `s` after `k` frames.
pub open spec fn slot_after(s: int, k: nat) -> int
    decreases k,
{
    if k == 0 {
        s
    } else {
        next_slot(slot_after(s, (k - 1) as nat))
    }
}

/// Round-robin choice of the frame slot to use next.
pub struct FrameRing {
    current: usize,
}

impl FrameRing {
    /// The slot used by the latest frame.
    pub closed spec fn slot(&self) -> int {
        self.current as int
    }

    pub open spec fn wf(&self) -> bool {
        0 <= self.slot() < FRAMES_IN_FLIGHT
    }

    /// A ring positioned on slot 0, so that the first frame uses slot 1.
    pub fn new() -> (r: FrameRing)
        ensures
            r.wf(),
            r.slot() == 0,
    {
        FrameRing { current: 0 }
    }

    /// The slot used by the latest frame.
    pub fn current(&self) -> (r: usize)
        ensures
            r == self.slot(),
    {
        self.current
    }

    /// Moves to the next slot and returns it.
    pub fn advance(&mut self) -> (r: usize)
        requires
            old(self).wf(),
        ensures
            final(self).wf(),
            final(self).slot() == next_slot(old(self).slot()),
            r == final(self).slot(),
    {
        self.current = (self.current + 1) % FRAMES_IN_FLIGHT;
        self.current
    }
}

/// Slots are used round-robin: `k` frames after slot `s` comes slot
/// `(s + k) % FRAMES_IN_FLIGHT`, and two frames in a row, the most that can
/// be in flight together, never share a slot.
pub proof fn lemma_round_robin(s: int, k: nat)
    requires
        0 <= s < FRAMES_IN_FLIGHT,
    ensures
        slot_after(s, k) == (s + k) % (FRAMES_IN_FLIGHT as int),
        slot_after(s, k + 1) != slot_after(s, k),
    decreases k,
{
    if k > 0 {
        lemma_round_robin(s, (k - 1) as nat);
    }
}

/// Where one frame stands.
#[derive(Clone, Copy, PartialEq, Eq, Structural, Debug)]
pub enum FramePhase {
    /// Waiting for the slot's fence.
    Idle,
    /// Waiting for a swapchain image.
    Acquiring,
    /// The caller records its commands for the image.
    Recording,
    /// The commands were queued and the image handed to presentation.
    Submitted,
    /// The frame reached the screen.
    Presented,
    /// The swapchain no longer fits the window and must be rebuilt.
    Stale,
    /// The graphics API reported an error that nothing can recover from.
    Failed,
}

/// What the graphics API reported for the last action of a frame.
#[derive(Clone, Copy, PartialEq, Eq, Structural, Debug)]
pub enum FrameEvent {
    /// The slot's fence is signaled: its previous frame is done.
    FenceSignaled,
    /// Image `image` was acquired; `suboptimal` when it no longer matches
    /// the window.
    ImageAcquired { image: u32, suboptimal: bool },
    /// The commands are recorded.
    Recorded,
    /// The frame was queued and presented; `suboptimal` as above.
    PresentDone { suboptimal: bool },
    /// The swapchain is out of date.
    OutOfDate,
    /// Any other error.
    DeviceError,
}

/// What to do next for a frame.
#[derive(Clone, Copy, PartialEq, Eq, Structural, Debug)]
pub enum FrameAction {
    /// Block on the slot's fence.
    WaitFence { slot: usize },
    /// Acquire the next image, signaling the slot's image-acquired semaphore.
    AcquireImage { slot: usize },
    /// Begin the slot's command buffer and the render pass on the image's
    /// framebuffer, let the caller record, then end both.
    Record { slot: usize, image: u32 },
    /// Reset the slot's fence, submit waiting on image-acquired and signaling
    /// render-finished and the fence, then present waiting on render-finished.
    SubmitAndPresent { slot: usize, image: u32 },
    /// The frame is over: `ok` is false when the surface must be rebuilt.
    Finish { ok: bool },
    /// Stop: the error cannot be recovered from.
    Abort,
}

/// One frame in progress: its phase, its slot and, once acquired, its image.
#[derive(Clone, Copy, PartialEq, Eq, Structural, Debug)]
pub struct FrameStep {
    pub phase: FramePhase,
    pub slot: usize,
    pub image: u32,
}

impl FrameStep {
    /// Starts a frame on the ring's next slot: first wait for its fence.
    pub fn begin(ring: &mut FrameRing) -> (r: (FrameStep, FrameAction))
        requires
            old(ring).wf(),
        ensures
            final(ring).wf(),
            final(ring).slot() == next_slot(old(ring).slot()),
            r.0 == (FrameStep { phase: FramePhase::Idle, slot: r.0.slot, image: 0 }),
            r.0.slot == final(ring).slot(),
            r.1 == (FrameAction::WaitFence { slot: r.0.slot }),
    {
        let slot = ring.advance();
        (FrameStep { phase: FramePhase::Idle, slot, image: 0 }, FrameAction::WaitFence { slot })
    }

    /// The phase and action that follow `ev` in phase `self.phase`. An
    /// out-of-date or suboptimal swapchain ends the frame with `ok == false`;
    /// any error, or an event that the phase does not expect, aborts.
    pub fn next(self, ev: FrameEvent) -> (r: (FrameStep, FrameAction))
        ensures
            r.0.slot == self.slot,
            self.phase == FramePhase::Idle && ev == FrameEvent::FenceSignaled ==> r == (
            FrameStep { phase: FramePhase::Acquiring, slot: self.slot, image: self.image },
            FrameAction::AcquireImage { slot: self.slot },
            ),
            forall|image: u32|
                self.phase == FramePhase::Acquiring && ev == (FrameEvent::ImageAcquired {
                    image,
                    suboptimal: false,
                }) ==> r == (FrameStep { phase: FramePhase::Recording, slot: self.slot, image },
                FrameAction::Record { slot: self.slot, image }),
            self.phase == FramePhase::Recording && ev == FrameEvent::Recorded ==> r == (FrameStep {
                phase: FramePhase::Submitted,
                slot: self.slot,
                image: self.image,
            }, FrameAction::SubmitAndPresent { slot: self.slot, image: self.image }),
            self.phase == FramePhase::Submitted && ev == (FrameEvent::PresentDone {
                suboptimal: false,
            }) ==> r == (FrameStep {
                phase: FramePhase::Presented,
                slot: self.slot,
                image: self.image,
            }, FrameAction::Finish { ok: true }),
            reports_stale(self.phase, ev) ==> r == (FrameStep {
                phase: FramePhase::Stale,
                slot: self.slot,
                image: self.image,
            }, FrameAction::Finish { ok: false }),
            !expected(self.phase, ev) ==> r == (FrameStep {
                phase: FramePhase::Failed,
                slot: self.slot,
                image: self.image,
            }, FrameAction::Abort),
    {
        let failed = (
            FrameStep { phase: FramePhase::Failed, slot: self.slot, image: self.image },
            FrameAction::Abort,
        );
        let stale = (
            FrameStep { phase: FramePhase::Stale, slot: self.slot, image: self.image },
            FrameAction::Finish { ok: false },
        );
        match (self.phase, ev) {
            (FramePhase::Idle, FrameEvent::FenceSignaled) => (
                FrameStep { phase: FramePhase::Acquiring, slot: self.slot, image: self.image },
                FrameAction::AcquireImage { slot: self.slot },
            ),
            (FramePhase::Acquiring, FrameEvent::ImageAcquired { image, suboptimal }) => {
                if suboptimal {
                    stale
                } else {
                    (
                        FrameStep { phase: FramePhase::Recording, slot: self.slot, image },
                        FrameAction::Record { slot: self.slot, image },
                    )
                }
            },
            (FramePhase::Acquiring, FrameEvent::OutOfDate) => stale,
            (FramePhase::Recording, FrameEvent::Recorded) => (
                FrameStep { phase: FramePhase::Submitted, slot: self.slot, image: self.image },
                FrameAction::SubmitAndPresent { slot: self.slot, image: self.image },
            ),
            (FramePhase::Submitted, FrameEvent::PresentDone { suboptimal }) => {
                if suboptimal {
                    stale
                } else {
                    (
                        FrameStep {
                            phase: FramePhase::Presented,
                            slot: self.slot,
                            image: self.image,
                        },
                        FrameAction::Finish { ok: true },
                    )
                }
            },
            (FramePhase::Submitted, FrameEvent::OutOfDate) => stale,
            _ => failed,
        }
    }
}

/// Whether event `ev` in phase `p` says that the swapchain is out of date or
/// suboptimal.
pub open spec fn reports_stale(p: FramePhase, ev: FrameEvent) -> bool {
    match ev {
        FrameEvent::OutOfDate => p == FramePhase::Acquiring || p == FramePhase::Submitted,
        FrameEvent::ImageAcquired { suboptimal, .. } => p == FramePhase::Acquiring && suboptimal,
        FrameEvent::PresentDone { suboptimal } => p == FramePhase::Submitted && suboptimal,
        _ => false,
    }
}

/// Whether phase `p` has a transition on event `ev`.
pub open spec fn expected(p: FramePhase, ev: FrameEvent) -> bool {
    match p {
        FramePhase::Idle => ev == FrameEvent::FenceSignaled,
        FramePhase::Acquiring => ev is ImageAcquired || ev == FrameEvent::OutOfDate,
        FramePhase::Recording => ev == FrameEvent::Recorded,
        FramePhase::Submitted => ev is PresentDone || ev == FrameEvent::OutOfDate,
        _ => false,
    }
}

} // verus!
