use vstd::arithmetic::div_mod::{
    lemma_add_mod_noop, lemma_mod_add_multiples_vanish, lemma_mod_bound, lemma_mod_self_0,
    lemma_small_mod,
};
use vstd::pervasive::VecAdditionalExecFns;
use vstd::prelude::*;

use crate::MAX_FRAMES_IN_FLIGHT;

verus! {

/// The frame slot used after `f`.
pub open spec fn spec_next_slot(f: int) -> int {
    (f + 1) % (MAX_FRAMES_IN_FLIGHT as int)
}

/// The frame slot used `k` frames after a frame in slot `start`.
pub open spec fn spec_slot_after(start: int, k: nat) -> int {
    (start + k) % (MAX_FRAMES_IN_FLIGHT as int)
}

/// Next frame slot after `frame`, cycling round-robin over the fixed set of
/// in-flight slots.
pub fn next_frame_slot(frame: usize) -> (r: usize)
    requires
        frame < MAX_FRAMES_IN_FLIGHT,
    ensures
        r == spec_next_slot(frame as int),
        r < MAX_FRAMES_IN_FLIGHT,
{
    (frame + 1) % MAX_FRAMES_IN_FLIGHT
}

/// Over any run, the frame slots cycle: the slot is always in range, the
/// cycle has period `MAX_FRAMES_IN_FLIGHT`, consecutive frames use different
/// slots, and two consecutive slots sum to `MAX_FRAMES_IN_FLIGHT - 1` — with
/// two slots, one of them is slot zero and the other slot one, so every
/// window of two consecutive frames visits each slot exactly once and every
/// slot is visited with equal frequency.
pub proof fn lemma_frame_slots_cycle(start: int, k: nat)
    requires
        0 <= start < MAX_FRAMES_IN_FLIGHT,
    ensures
        0 <= spec_slot_after(start, k) < MAX_FRAMES_IN_FLIGHT,
        spec_slot_after(start, (k + MAX_FRAMES_IN_FLIGHT) as nat) == spec_slot_after(start, k),
        spec_slot_after(start, (k + 1) as nat) != spec_slot_after(start, k),
        spec_slot_after(start, k) + spec_slot_after(start, (k + 1) as nat) == MAX_FRAMES_IN_FLIGHT
            - 1,
{
    let n = MAX_FRAMES_IN_FLIGHT as int;
    let a = start + k;
    lemma_mod_bound(a, n);
    lemma_mod_bound(a + 1, n);
    lemma_mod_add_multiples_vanish(a, n);
    lemma_add_mod_noop(a, 1, n);
    lemma_small_mod(1nat, n as nat);
    lemma_mod_self_0(n);
    if a % n == 0 {
        assert((a % n + 1int % n) % n == 1);
    } else {
        assert(a % n == 1);
        assert((a % n + 1int % n) % n == 0);
    }
}

/// The per-window state the event loop keeps between frames: which slot the
/// next frame uses, whether a resize was flagged since the last frame, and
/// whether the window is minimized (zero-area).
#[derive(Clone, Copy, Debug, PartialEq, Eq, Structural)]
pub struct FrameClock {
    pub frame: usize,
    pub resized: bool,
    pub minimized: bool,
}

impl FrameClock {
    /// The frame slot stays in range.
    pub open spec fn inv(self) -> bool {
        self.frame < MAX_FRAMES_IN_FLIGHT
    }

    /// A fresh clock: first frame in slot zero, no resize flagged, window not
    /// minimized.
    pub fn new() -> (r: FrameClock)
        ensures
            r.frame == 0,
            !r.resized,
            !r.minimized,
            r.inv(),
    {
        FrameClock { frame: 0, resized: false, minimized: false }
    }

    /// Record a window resize report.  A zero-area size minimizes the window
    /// and suspends rendering; a non-zero size unminimizes it and flags the
    /// resize for the next frame.
    pub fn on_window_resize(&mut self, width: u32, height: u32)
        requires
            old(self).inv(),
        ensures
            final(self).inv(),
            final(self).frame == old(self).frame,
            final(self).minimized == (width == 0 || height == 0),
            final(self).resized == if width == 0 || height == 0 {
                old(self).resized
            } else {
                true
            },
    {
        if width == 0 || height == 0 {
            self.minimized = true;
        } else {
            self.minimized = false;
            self.resized = true;
        }
    }

    /// Start one frame.  While the window is minimized nothing is returned
    /// and nothing changes: no image is acquired.  Otherwise the caller gets
    /// the slot to render in and whether a resize was flagged, the resize
    /// flag is consumed, and the clock advances to the next slot.
    pub fn begin_frame(&mut self) -> (r: Option<(usize, bool)>)
        requires
            old(self).inv(),
        ensures
            final(self).inv(),
            old(self).minimized ==> r is None && *final(self) == *old(self),
            !old(self).minimized ==> r == Some((old(self).frame, old(self).resized)),
            !old(self).minimized ==> final(self).frame == spec_next_slot(old(self).frame as int)
                && final(self).resized == false && final(self).minimized == old(self).minimized,
    {
        if self.minimized {
            None
        } else {
            let frame = self.frame;
            let resized = self.resized;
            self.resized = false;
            self.frame = next_frame_slot(self.frame);
            Some((frame, resized))
        }
    }
}

/// What requesting the next presentable image reported.
#[derive(Clone, Copy, Debug, PartialEq, Eq, Structural)]
pub enum AcquireOutcome {
    /// An image was acquired; the surface may also have been reported
    /// suboptimal.
    Next { image_index: u32, suboptimal: bool },
    /// The surface is out of date: no image was acquired.
    OutOfDate,
    /// Any other acquisition failure, with its API result code.
    Failure { code: i32 },
}

/// What the frame scheduler decides after an acquisition report.
#[derive(Clone, Copy, Debug, PartialEq, Eq)]
pub enum AcquireAction {
    /// Render into the image; first block on the named slot's completion
    /// marker when an earlier, different slot still owns the image.
    Proceed { image_index: usize, wait_for_slot: Option<usize> },
    /// Abort this frame, rebuild the swapchain, and report success: the
    /// caller retries next tick.
    RecreateAndRetry,
    /// Fatal: propagate the code to the caller.
    Fail { code: i32 },
}

/// What presenting the rendered image reported.
#[derive(Clone, Copy, Debug, PartialEq, Eq, Structural)]
pub enum PresentOutcome {
    Success,
    /// Presented, but the surface no longer matches exactly.
    Suboptimal,
    /// The surface is out of date.
    OutOfDate,
    /// Any other presentation failure, with its API result code.
    Failure { code: i32 },
}

/// What the frame scheduler decides after a presentation report.
#[derive(Clone, Copy, Debug, PartialEq, Eq, Structural)]
pub enum AfterPresent {
    /// The frame completed; nothing to do.
    Continue,
    /// Rebuild the swapchain before the next frame.
    Recreate,
    /// Fatal: propagate the code to the caller.
    Fail { code: i32 },
}

/// Which slot a frame must wait for before reusing an image owned by
/// `owner`: an earlier, different slot only.
pub open spec fn spec_wait_for(owner: Option<usize>, slot: usize) -> Option<usize> {
    match owner {
        Some(s) => if s != slot {
            Some(s)
        } else {
            None
        },
        None => None,
    }
}

/// The decision after presenting: a hard failure is fatal; otherwise the
/// swapchain is rebuilt exactly when the surface was reported out of date or
/// suboptimal or the caller flagged a resize.
pub open spec fn spec_after_present(resized: bool, outcome: PresentOutcome) -> AfterPresent {
    match outcome {
        PresentOutcome::Failure { code } => AfterPresent::Fail { code },
        PresentOutcome::OutOfDate => AfterPresent::Recreate,
        PresentOutcome::Suboptimal => AfterPresent::Recreate,
        PresentOutcome::Success => if resized {
            AfterPresent::Recreate
        } else {
            AfterPresent::Continue
        },
    }
}

/// The host-observable synchronization state of the frame scheduler: for each
/// presentable image, which frame slot's completion marker currently owns it.
#[derive(Clone, Debug)]
pub struct FrameScheduler {
    pub images_in_flight: Vec<Option<usize>>,
}

impl FrameScheduler {
    /// Every owner on record is a real frame slot.
    pub open spec fn inv(self) -> bool {
        forall|i: int|
            0 <= i < self.images_in_flight@.len() ==> (#[trigger] self.images_in_flight@[i]
                matches Some(s) ==> s < MAX_FRAMES_IN_FLIGHT)
    }

    /// A fresh scheduler over `image_count` presentable images, none of them
    /// owned by any frame slot yet.
    pub fn new(image_count: usize) -> (r: FrameScheduler)
        ensures
            r.inv(),
            r.images_in_flight@.len() == image_count,
            forall|i: int| 0 <= i < image_count ==> r.images_in_flight@[i] is None,
    {
        let mut images_in_flight: Vec<Option<usize>> = Vec::new();
        let mut k: usize = 0;
        while k < image_count
            invariant
                k <= image_count,
                images_in_flight@.len() == k,
                forall|i: int| 0 <= i < k ==> images_in_flight@[i] is None,
            decreases image_count - k,
        {
            images_in_flight.push(None);
            k += 1;
        }
        FrameScheduler { images_in_flight }
    }

    /// Forget every image owner and track `image_count` images: called after
    /// the swapchain is rebuilt, when the device has been idled and no
    /// submitted work remains.
    pub fn reset_images(&mut self, image_count: usize)
        ensures
            final(self).inv(),
            final(self).images_in_flight@.len() == image_count,
            forall|i: int| 0 <= i < image_count ==> final(self).images_in_flight@[i] is None,
    {
        let fresh = FrameScheduler::new(image_count);
        self.images_in_flight = fresh.images_in_flight;
    }

    /// Decide what to do with an acquisition report for frame slot `slot`.
    /// An acquired image is marked as owned by `slot`, and the caller is told
    /// which earlier slot, if any, must finish with that image first.  An
    /// out-of-date surface aborts the frame into a swapchain rebuild; any
    /// other failure is fatal and changes nothing.
    pub fn handle_acquire(&mut self, slot: usize, outcome: AcquireOutcome) -> (r: AcquireAction)
        requires
            old(self).inv(),
            slot < MAX_FRAMES_IN_FLIGHT,
            outcome matches AcquireOutcome::Next { image_index, .. } ==> (image_index as int)
                < old(self).images_in_flight@.len(),
        ensures
            final(self).inv(),
            outcome matches AcquireOutcome::Next { image_index, suboptimal } ==> r
                == (AcquireAction::Proceed {
                image_index: image_index as usize,
                wait_for_slot: spec_wait_for(
                    old(self).images_in_flight@[image_index as int],
                    slot,
                ),
            }) && final(self).images_in_flight@ == old(self).images_in_flight@.update(
                image_index as int,
                Some(slot),
            ),
            outcome == AcquireOutcome::OutOfDate ==> r == AcquireAction::RecreateAndRetry
                && *final(self) == *old(self),
            outcome matches AcquireOutcome::Failure { code } ==> r == (AcquireAction::Fail { code })
                && *final(self) == *old(self),
    {
        match outcome {
            AcquireOutcome::Next { image_index, suboptimal: _ } => {
                let idx = image_index as usize;
                let owner = self.images_in_flight[idx];
                let wait_for_slot: Option<usize> = match owner {
                    Some(s) => if s != slot {
                        Some(s)
                    } else {
                        None
                    },
                    None => None,
                };
                self.images_in_flight.set(idx, Some(slot));
                AcquireAction::Proceed { image_index: idx, wait_for_slot }
            },
            AcquireOutcome::OutOfDate => AcquireAction::RecreateAndRetry,
            AcquireOutcome::Failure { code } => AcquireAction::Fail { code },
        }
    }
}

/// Decide what to do after presenting: a hard failure is fatal; otherwise the
/// swapchain is rebuilt exactly when the surface was reported out of date or
/// suboptimal or the caller flagged a resize.
pub fn after_present(resized: bool, outcome: PresentOutcome) -> (r: AfterPresent)
    ensures
        r == spec_after_present(resized, outcome),
{
    match outcome {
        PresentOutcome::Failure { code } => AfterPresent::Fail { code },
        PresentOutcome::OutOfDate => AfterPresent::Recreate,
        PresentOutcome::Suboptimal => AfterPresent::Recreate,
        PresentOutcome::Success => {
            if resized {
                AfterPresent::Recreate
            } else {
                AfterPresent::Continue
            }
        },
    }
}

/// How many secondary command buffers must be allocated before one per draw
/// instance up to `model_index` exists: enough that the pool covers the
/// index.
pub fn secondary_buffers_needed(allocated: usize, model_index: usize) -> (r: usize)
    requires
        model_index < usize::MAX,
    ensures
        r == if model_index >= allocated {
            model_index - allocated + 1
        } else {
            0int
        },
        allocated + r > model_index,
{
    if model_index >= allocated {
        model_index - allocated + 1
    } else {
        0
    }
}

} // verus!
