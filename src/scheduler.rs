//! The frame scheduler: the per-frame protocol of fence wait, image
//! acquisition, submission and presentation, with the resize transition.
//!
//! The scheduler decides; its caller performs each GPU step and reports the
//! outcome back.

use crate::swapchain::Extent2D;
use vstd::prelude::*;

verus! {

/// Where the scheduler stands within a frame.
#[derive(Clone, Copy, PartialEq, Eq, Structural, Debug)]
pub enum FramePhase {
    /// Between frames.
    Idle,
    /// The slot's fence is being waited on and an image acquired.
    Acquiring,
    /// An image is acquired; uniforms are written and work submitted.
    Rendering,
    /// Work is submitted; the image is being presented.
    Presenting,
    /// The swapchain and everything that depends on it is being rebuilt.
    Resizing,
}

/// What image acquisition reported.
#[derive(Clone, Copy, PartialEq, Eq, Structural, Debug)]
pub enum AcquireOutcome {
    Acquired { image_index: u32 },
    /// The surface no longer matches the swapchain.
    OutOfDate,
    /// Any other failure.
    Failed,
}

/// What presentation reported.
#[derive(Clone, Copy, PartialEq, Eq, Structural, Debug)]
pub enum PresentOutcome {
    Presented { suboptimal: bool },
    /// The surface no longer matches the swapchain.
    OutOfDate,
    /// Any other failure.
    Failed,
}

/// The next step after acquisition.
#[derive(Clone, Copy, PartialEq, Eq, Structural, Debug)]
pub enum AcquireStep {
    /// Write the uniforms of this image and submit its command buffer.
    Render { image_index: u32 },
    /// Drop this frame and rebuild the swapchain.
    Resize,
}

/// The next step after presentation.
#[derive(Clone, Copy, PartialEq, Eq, Structural, Debug)]
pub enum PresentStep {
    Continue,
    /// Rebuild the swapchain before the next frame.
    Resize,
}

/// Failures that end the program.
#[derive(Clone, Copy, PartialEq, Eq, Structural, Debug)]
pub enum FrameError {
    /// The frame's transforms do not match the registered models one to one.
    TransformCountMismatch { expected: usize, found: usize },
    /// Acquisition failed other than by staleness.
    AcquireFailed,
    /// Acquisition named an image the swapchain does not have.
    ImageIndexOutOfRange { image_index: u32 },
    /// Presentation failed other than by staleness.
    PresentFailed,
}

/// The slot that follows `slot` among `count` slots.
pub open spec fn next_slot(slot: nat, count: nat) -> nat
    recommends
        count > 0,
{
    (slot + 1) % count
}

/// The slot after `n` advances from slot zero.
pub open spec fn slot_after(n: nat, count: nat) -> nat
    decreases n,
{
    if n == 0 {
        0
    } else {
        next_slot(slot_after((n - 1) as nat, count), count)
    }
}

/// The model of a scheduler.
pub struct SchedulerView {
    pub current_frame: nat,
    pub max_frames_in_flight: nat,
    pub image_count: nat,
    pub model_count: nat,
    pub framebuffer_resized: bool,
    pub extent: Extent2D,
    pub phase: FramePhase,
    pub acquired_image: nat,
    /// Per slot, how many submissions signal its in-flight fence.
    pub fence_signals: Seq<u64>,
}

pub struct FrameScheduler {
    current_frame: usize,
    max_frames_in_flight: usize,
    image_count: u32,
    model_count: usize,
    is_framebuffer_resized: bool,
    extent: Extent2D,
    phase: FramePhase,
    acquired_image: u32,
    fence_signals: Vec<u64>,
}

impl View for FrameScheduler {
    type V = SchedulerView;

    closed spec fn view(&self) -> SchedulerView {
        SchedulerView {
            current_frame: self.current_frame as nat,
            max_frames_in_flight: self.max_frames_in_flight as nat,
            image_count: self.image_count as nat,
            model_count: self.model_count as nat,
            framebuffer_resized: self.is_framebuffer_resized,
            extent: self.extent,
            phase: self.phase,
            acquired_image: self.acquired_image as nat,
            fence_signals: self.fence_signals@,
        }
    }
}

impl FrameScheduler {
    pub open spec fn wf(&self) -> bool {
        &&& self@.max_frames_in_flight > 0
        &&& self@.current_frame < self@.max_frames_in_flight
        &&& self@.fence_signals.len() == self@.max_frames_in_flight
        &&& (self@.phase == FramePhase::Rendering || self@.phase == FramePhase::Presenting)
            ==> self@.acquired_image < self@.image_count
    }

    /// A scheduler for `max_frames_in_flight` slots over a swapchain of
    /// `image_count` images of size `extent`, drawing `model_count` models.
    pub fn new(max_frames_in_flight: usize, image_count: u32, model_count: usize, extent: Extent2D) -> (r: FrameScheduler)
        requires
            max_frames_in_flight > 0,
        ensures
            r.wf(),
            r@.current_frame == 0,
            r@.max_frames_in_flight == max_frames_in_flight,
            r@.image_count == image_count,
            r@.model_count == model_count,
            !r@.framebuffer_resized,
            r@.extent == extent,
            r@.phase == FramePhase::Idle,
            r@.fence_signals == Seq::new(max_frames_in_flight as nat, |i: int| 0u64),
    {
        let mut fence_signals: Vec<u64> = Vec::new();
        let mut i: usize = 0;
        while i < max_frames_in_flight
            invariant
                i <= max_frames_in_flight,
                fence_signals@ =~= Seq::new(i as nat, |k: int| 0u64),
            decreases max_frames_in_flight - i,
        {
            fence_signals.push(0);
            i = i + 1;
        }
        FrameScheduler {
            current_frame: 0,
            max_frames_in_flight,
            image_count,
            model_count,
            is_framebuffer_resized: false,
            extent,
            phase: FramePhase::Idle,
            acquired_image: 0,
            fence_signals,
        }
    }

    /// Starts a frame whose per-model transforms number `transform_count`.
    /// Returns the slot whose fence must be waited on and whose
    /// image-available semaphore the acquisition signals.
    pub fn begin_frame(&mut self, transform_count: usize) -> (r: Result<usize, FrameError>)
        requires
            old(self).wf(),
            old(self)@.phase == FramePhase::Idle,
        ensures
            final(self).wf(),
            transform_count == old(self)@.model_count ==> r == Ok::<usize, FrameError>(
                old(self)@.current_frame as usize,
            ) && final(self)@ == (SchedulerView { phase: FramePhase::Acquiring, ..old(self)@ }),
            transform_count != old(self)@.model_count ==> r == Err::<usize, FrameError>(
                FrameError::TransformCountMismatch { expected: old(self)@.model_count as usize, found: transform_count },
            ) && final(self)@ == old(self)@,
    {
        if transform_count != self.model_count {
            return Err(FrameError::TransformCountMismatch { expected: self.model_count, found: transform_count });
        }
        self.phase = FramePhase::Acquiring;
        Ok(self.current_frame)
    }

    /// Takes the outcome of image acquisition.
    pub fn on_acquire(&mut self, outcome: AcquireOutcome) -> (r: Result<AcquireStep, FrameError>)
        requires
            old(self).wf(),
            old(self)@.phase == FramePhase::Acquiring,
        ensures
            final(self).wf(),
            match outcome {
                AcquireOutcome::Acquired { image_index } => if image_index < old(self)@.image_count {
                    &&& r == Ok::<AcquireStep, FrameError>(AcquireStep::Render { image_index })
                    &&& final(self)@ == (SchedulerView {
                        phase: FramePhase::Rendering,
                        acquired_image: image_index as nat,
                        ..old(self)@
                    })
                } else {
                    &&& r == Err::<AcquireStep, FrameError>(FrameError::ImageIndexOutOfRange { image_index })
                    &&& final(self)@ == old(self)@
                },
                AcquireOutcome::OutOfDate => {
                    &&& r == Ok::<AcquireStep, FrameError>(AcquireStep::Resize)
                    &&& final(self)@ == (SchedulerView { phase: FramePhase::Resizing, ..old(self)@ })
                },
                AcquireOutcome::Failed => {
                    &&& r == Err::<AcquireStep, FrameError>(FrameError::AcquireFailed)
                    &&& final(self)@ == old(self)@
                },
            },
    {
        match outcome {
            AcquireOutcome::Acquired { image_index } => {
                if image_index < self.image_count {
                    self.phase = FramePhase::Rendering;
                    self.acquired_image = image_index;
                    Ok(AcquireStep::Render { image_index })
                } else {
                    Err(FrameError::ImageIndexOutOfRange { image_index })
                }
            },
            AcquireOutcome::OutOfDate => {
                self.phase = FramePhase::Resizing;
                Ok(AcquireStep::Resize)
            },
            AcquireOutcome::Failed => Err(FrameError::AcquireFailed),
        }
    }

    /// Records that the acquired image's command buffer was submitted, after
    /// the slot's fence was reset, with the fence to be signaled on
    /// completion.
    pub fn on_submitted(&mut self)
        requires
            old(self).wf(),
            old(self)@.phase == FramePhase::Rendering,
            old(self)@.fence_signals[old(self)@.current_frame as int] < u64::MAX,
        ensures
            final(self).wf(),
            final(self)@ == (SchedulerView {
                phase: FramePhase::Presenting,
                fence_signals: old(self)@.fence_signals.update(
                    old(self)@.current_frame as int,
                    (old(self)@.fence_signals[old(self)@.current_frame as int] + 1) as u64,
                ),
                ..old(self)@
            }),
    {
        let slot = self.current_frame;
        let count = self.fence_signals[slot];
        self.fence_signals.set(slot, count + 1);
        self.phase = FramePhase::Presenting;
    }

    /// Takes the outcome of presentation. A stale or suboptimal surface, or
    /// a resize reported since the last rebuild, asks for a rebuild. The
    /// slot advances either way.
    pub fn on_present(&mut self, outcome: PresentOutcome) -> (r: Result<PresentStep, FrameError>)
        requires
            old(self).wf(),
            old(self)@.phase == FramePhase::Presenting,
        ensures
            final(self).wf(),
            outcome == PresentOutcome::Failed ==> r == Err::<PresentStep, FrameError>(FrameError::PresentFailed)
                && final(self)@ == old(self)@,
            outcome != PresentOutcome::Failed ==> {
                let resize = present_asks_resize(outcome, old(self)@.framebuffer_resized);
                &&& r == Ok::<PresentStep, FrameError>(
                    if resize {
                        PresentStep::Resize
                    } else {
                        PresentStep::Continue
                    },
                )
                &&& final(self)@ == (SchedulerView {
                    current_frame: next_slot(old(self)@.current_frame, old(self)@.max_frames_in_flight),
                    framebuffer_resized: false,
                    phase: if resize {
                        FramePhase::Resizing
                    } else {
                        FramePhase::Idle
                    },
                    ..old(self)@
                })
            },
    {
        let is_resized = match outcome {
            PresentOutcome::Presented { suboptimal } => suboptimal || self.is_framebuffer_resized,
            PresentOutcome::OutOfDate => true,
            PresentOutcome::Failed => {
                return Err(FrameError::PresentFailed);
            },
        };
        let step = if is_resized {
            self.is_framebuffer_resized = false;
            self.phase = FramePhase::Resizing;
            PresentStep::Resize
        } else {
            self.phase = FramePhase::Idle;
            PresentStep::Continue
        };
        self.advance_frame();
        Ok(step)
    }

    /// Moves to the next frame slot, wrapping around.
    pub fn advance_frame(&mut self)
        requires
            old(self).wf(),
        ensures
            final(self).wf(),
            final(self)@ == (SchedulerView {
                current_frame: next_slot(old(self)@.current_frame, old(self)@.max_frames_in_flight),
                ..old(self)@
            }),
    {
        self.current_frame = (self.current_frame + 1) % self.max_frames_in_flight;
    }

    /// Records that the swapchain and its dependents were rebuilt, with
    /// `image_count` images of size `extent`; the next frame may start.
    pub fn on_swapchain_recreated(&mut self, extent: Extent2D, image_count: u32)
        requires
            old(self).wf(),
            old(self)@.phase == FramePhase::Resizing,
        ensures
            final(self).wf(),
            final(self)@ == (SchedulerView { phase: FramePhase::Idle, extent, image_count: image_count as nat, ..old(self)@ }),
    {
        self.extent = extent;
        self.image_count = image_count;
        self.phase = FramePhase::Idle;
    }

    /// Records that the window's pixel size changed; the next presentation
    /// asks for a rebuild.
    pub fn notify_resized(&mut self)
        requires
            old(self).wf(),
        ensures
            final(self).wf(),
            final(self)@ == (SchedulerView { framebuffer_resized: true, ..old(self)@ }),
    {
        self.is_framebuffer_resized = true;
    }

    pub fn current_frame(&self) -> (r: usize)
        ensures
            r == self@.current_frame,
    {
        self.current_frame
    }

    pub fn phase(&self) -> (r: FramePhase)
        ensures
            r == self@.phase,
    {
        self.phase
    }

    pub fn image_count(&self) -> (r: u32)
        ensures
            r == self@.image_count,
    {
        self.image_count
    }

    pub fn extent(&self) -> (r: Extent2D)
        ensures
            r == self@.extent,
    {
        self.extent
    }

    /// The image acquired for the frame in progress (or the last one).
    pub fn acquired_image(&self) -> (r: u32)
        ensures
            r == self@.acquired_image,
    {
        self.acquired_image
    }

    pub fn is_framebuffer_resized(&self) -> (r: bool)
        ensures
            r == self@.framebuffer_resized,
    {
        self.is_framebuffer_resized
    }

    /// How many submissions signal the in-flight fence of `slot`.
    pub fn fence_signal_count(&self, slot: usize) -> (r: u64)
        requires
            self.wf(),
            slot < self@.max_frames_in_flight,
        ensures
            r == self@.fence_signals[slot as int],
    {
        self.fence_signals[slot]
    }

    /// The projection's aspect ratio as the fraction width / height of the
    /// current extent.
    pub fn aspect_ratio(&self) -> (r: (u32, u32))
        ensures
            r == (self@.extent.width, self@.extent.height),
    {
        (self.extent.width, self.extent.height)
    }
}

/// Whether a presentation outcome asks for a rebuild, given whether a resize
/// was reported.
pub open spec fn present_asks_resize(outcome: PresentOutcome, resize_reported: bool) -> bool {
    match outcome {
        PresentOutcome::Presented { suboptimal } => suboptimal || resize_reported,
        PresentOutcome::OutOfDate => true,
        PresentOutcome::Failed => false,
    }
}

/// After `n` advances from slot zero the frame slot is `n` modulo the number
/// of slots.
pub proof fn lemma_slot_after_advances(n: nat, count: nat)
    requires
        count > 0,
    ensures
        slot_after(n, count) == n % count,
    decreases n,
{
    if n == 0 {
        vstd::arithmetic::div_mod::lemma_small_mod(0, count);
    } else {
        let a = (n - 1) as nat;
        lemma_slot_after_advances(a, count);
        assert(((a % count) + 1) % count == (a + 1) % count) by {
            vstd::arithmetic::div_mod::lemma_add_mod_noop(a as int, 1, count as int);
            if count > 1 {
                vstd::arithmetic::div_mod::lemma_small_mod(1, count);
            }
        }
        assert(slot_after(n, count) == next_slot(slot_after(a, count), count));
    }
}

} // verus!
