//! Frame pacing: which frame slot records next, and how the renderer
//! reacts to resizes and to what acquisition and presentation report.

use vstd::prelude::*;
use crate::extent::RenderExtent;

verus! {

/// Number of frames the CPU may record and submit before it waits on the
/// GPU; each has its own command buffer and synchronization objects.
pub const FRAMES_IN_FLIGHT: usize = 3;

/// The frame slot after `current`.
pub open spec fn spec_next_frame(current: usize) -> usize {
    ((current + 1) % FRAMES_IN_FLIGHT as int) as usize
}

/// Returns the frame slot that records after `current`.
pub fn next_frame(current: usize) -> (next: usize)
    requires
        current < FRAMES_IN_FLIGHT,
    ensures
        next == spec_next_frame(current),
        next < FRAMES_IN_FLIGHT,
{
    (current + 1) % FRAMES_IN_FLIGHT
}

/// The per-frame slot that a frame index uses.
pub fn frame_slot(frame_index: usize) -> (slot: usize)
    ensures
        slot == frame_index % FRAMES_IN_FLIGHT,
        slot < FRAMES_IN_FLIGHT,
{
    frame_index % FRAMES_IN_FLIGHT
}

/// Position of a per-image object for an image index the swapchain
/// returned, when there is one.
pub fn image_slot(image_index: u32, image_count: usize) -> (slot: Option<usize>)
    ensures
        match slot {
            Some(s) => s == image_index && (image_index as int) < image_count,
            None => image_index as int >= image_count,
        },
{
    let index = image_index as usize;
    if index < image_count {
        Some(index)
    } else {
        None
    }
}

/// What a resize asks of the renderer.
#[derive(Clone, Copy, Debug, PartialEq, Eq, Structural)]
pub enum ResizeAction {
    /// Nothing to rebuild.
    Keep,
    /// Rebuild the swapchain for the new extent.
    Recreate(RenderExtent),
}

/// How the renderer reacts to a resize: rendering pauses while the window
/// is empty; otherwise the swapchain is rebuilt unless the extent is
/// unchanged.
pub open spec fn spec_plan_resize(extent: RenderExtent, current: RenderExtent) -> (bool, ResizeAction) {
    if extent.spec_is_empty() {
        (true, ResizeAction::Keep)
    } else if extent.width == current.width && extent.height == current.height {
        (false, ResizeAction::Keep)
    } else {
        (false, ResizeAction::Recreate(extent))
    }
}

/// Decides whether rendering pauses, and whether the swapchain must be
/// rebuilt, after the window is resized.
pub fn plan_resize(extent: RenderExtent, current: RenderExtent) -> (plan: (bool, ResizeAction))
    ensures
        plan == spec_plan_resize(extent, current),
{
    let paused = extent.is_empty();
    if paused {
        return (true, ResizeAction::Keep);
    }
    if extent.width == current.width && extent.height == current.height {
        return (false, ResizeAction::Keep);
    }
    (false, ResizeAction::Recreate(extent))
}

/// What acquiring the next swapchain image reported.
#[derive(Clone, Copy, Debug, PartialEq, Eq, Structural)]
pub enum AcquireOutcome {
    /// An image is ready; `suboptimal` says the swapchain no longer matches
    /// the surface exactly.
    Acquired { image_index: u32, suboptimal: bool },
    /// The swapchain no longer matches the surface.
    OutOfDate,
    /// Another error code.
    Failed(i32),
}

/// What the renderer does after acquiring.
#[derive(Clone, Copy, Debug, PartialEq, Eq, Structural)]
pub enum AcquireDecision {
    /// Record and present into the image.
    Record { image_index: u32, suboptimal: bool },
    /// Rebuild the swapchain and skip this frame.
    RecreateAndSkip,
    /// Fail with the error code.
    Fail(i32),
}

/// Decides how to continue after acquiring a swapchain image.
pub fn on_acquire(outcome: AcquireOutcome) -> (decision: AcquireDecision)
    ensures
        match outcome {
            AcquireOutcome::Acquired { image_index, suboptimal } => decision
                == (AcquireDecision::Record { image_index, suboptimal }),
            AcquireOutcome::OutOfDate => decision == AcquireDecision::RecreateAndSkip,
            AcquireOutcome::Failed(code) => decision == AcquireDecision::Fail(code),
        },
{
    match outcome {
        AcquireOutcome::Acquired { image_index, suboptimal } => AcquireDecision::Record {
            image_index,
            suboptimal,
        },
        AcquireOutcome::OutOfDate => AcquireDecision::RecreateAndSkip,
        AcquireOutcome::Failed(code) => AcquireDecision::Fail(code),
    }
}

/// What presenting an image reported.
#[derive(Clone, Copy, Debug, PartialEq, Eq, Structural)]
pub enum PresentOutcome {
    /// Presented; `suboptimal` says the swapchain no longer matches the
    /// surface exactly.
    Presented { suboptimal: bool },
    /// The swapchain no longer matches the surface.
    OutOfDate,
    /// Another error code.
    Failed(i32),
}

/// The end of a presented frame: whether the swapchain is rebuilt, and the
/// next frame slot.
#[derive(Clone, Copy, Debug, PartialEq, Eq, Structural)]
pub struct FrameEnd {
    pub recreate_swapchain: bool,
    pub next_frame: usize,
}

/// Decides how a frame ends after presentation: an out-of-date or
/// suboptimal swapchain, at acquisition or presentation, is rebuilt; the
/// frame slot then advances.
pub fn after_present(
    acquire_suboptimal: bool,
    outcome: PresentOutcome,
    current_frame: usize,
) -> (end: Result<FrameEnd, i32>)
    requires
        current_frame < FRAMES_IN_FLIGHT,
    ensures
        match outcome {
            PresentOutcome::Failed(code) => end == Err::<FrameEnd, i32>(code),
            PresentOutcome::OutOfDate => end == Ok::<FrameEnd, i32>(
                FrameEnd { recreate_swapchain: true, next_frame: spec_next_frame(current_frame) },
            ),
            PresentOutcome::Presented { suboptimal } => end == Ok::<FrameEnd, i32>(
                FrameEnd {
                    recreate_swapchain: acquire_suboptimal || suboptimal,
                    next_frame: spec_next_frame(current_frame),
                },
            ),
        },
{
    let present_suboptimal = match outcome {
        PresentOutcome::Presented { suboptimal } => suboptimal,
        PresentOutcome::OutOfDate => true,
        PresentOutcome::Failed(code) => return Err(code),
    };
    Ok(
        FrameEnd {
            recreate_swapchain: acquire_suboptimal || present_suboptimal,
            next_frame: next_frame(current_frame),
        },
    )
}

/// Why a swapchain rebuild was refused.
#[derive(Clone, Copy, Debug, PartialEq, Eq, Structural)]
pub enum RecreateError {
    /// The surface format changed after the graphics pipeline was created
    /// for the old one.
    SurfaceFormatChanged { old: i32, new: i32 },
}

/// Checks that a rebuilt swapchain keeps the format the graphics pipeline
/// was created for.
pub fn check_recreated_format(old: i32, new: i32) -> (checked: Result<(), RecreateError>)
    ensures
        match checked {
            Ok(()) => old == new,
            Err(e) => old != new && e == (RecreateError::SurfaceFormatChanged { old, new }),
        },
{
    if new != old {
        Err(RecreateError::SurfaceFormatChanged { old, new })
    } else {
        Ok(())
    }
}

/// Render-loop state between frames.
#[derive(Clone, Copy, Debug, PartialEq, Eq, Structural)]
pub struct FramePacer {
    pub current_frame: usize,
    pub rendering_paused: bool,
    pub extent: RenderExtent,
}

impl FramePacer {
    /// Whether the frame slot is in range.
    pub open spec fn well_formed(self) -> bool {
        self.current_frame < FRAMES_IN_FLIGHT
    }

    /// Starts at frame slot zero, rendering, at the swapchain's extent.
    pub fn new(extent: RenderExtent) -> (pacer: Self)
        ensures
            pacer.well_formed(),
            pacer == (FramePacer { current_frame: 0, rendering_paused: false, extent }),
    {
        FramePacer { current_frame: 0, rendering_paused: false, extent }
    }

    /// Records a resize: pauses for an empty window and says whether the
    /// swapchain must be rebuilt.
    pub fn resize(&mut self, extent: RenderExtent) -> (action: ResizeAction)
        requires
            old(self).well_formed(),
        ensures
            final(self).well_formed(),
            (final(self).rendering_paused, action) == spec_plan_resize(extent, old(self).extent),
            final(self).current_frame == old(self).current_frame,
            final(self).extent == old(self).extent,
    {
        let (paused, action) = plan_resize(extent, self.extent);
        self.rendering_paused = paused;
        action
    }

    /// Records that the swapchain was rebuilt at `extent`.
    pub fn swapchain_recreated(&mut self, extent: RenderExtent)
        requires
            old(self).well_formed(),
        ensures
            *final(self) == (FramePacer { extent, ..*old(self) }),
    {
        self.extent = extent;
    }

    /// Records a presented frame and moves to the next frame slot.
    pub fn frame_presented(&mut self)
        requires
            old(self).well_formed(),
        ensures
            final(self).well_formed(),
            final(self).current_frame == spec_next_frame(old(self).current_frame),
            final(self).rendering_paused == old(self).rendering_paused,
            final(self).extent == old(self).extent,
    {
        self.current_frame = next_frame(self.current_frame);
    }
}

/// After `n` presented frames from slot zero the slot is `n` modulo the
/// number of frames in flight: each slot is reused every third frame.
pub proof fn lemma_frame_slots_cycle(n: nat)
    ensures
        spec_frame_after(n) == n % FRAMES_IN_FLIGHT as nat,
    decreases n,
{
    if n > 0 {
        lemma_frame_slots_cycle((n - 1) as nat);
    }
}

/// Frame slot after `n` presented frames, starting from slot zero.
pub open spec fn spec_frame_after(n: nat) -> usize
    decreases n,
{
    if n == 0 {
        0
    } else {
        spec_next_frame(spec_frame_after((n - 1) as nat))
    }
}

/// A resize pauses rendering exactly when the window is empty. For a
/// window with area, the swapchain is kept exactly when both the width and
/// the height are unchanged; a change in either rebuilds it at the new
/// extent.
pub proof fn lemma_resize_rebuilds_on_any_change(extent: RenderExtent, current: RenderExtent)
    ensures
        spec_plan_resize(extent, current).0 <==> (extent.width == 0 || extent.height == 0),
        (extent.width == 0 || extent.height == 0) ==> spec_plan_resize(extent, current).1
            == ResizeAction::Keep,
        extent.width != 0 && extent.height != 0 ==> {
            &&& (spec_plan_resize(extent, current).1 == ResizeAction::Keep) <==> (extent.width
                == current.width && extent.height == current.height)
            &&& (extent.width != current.width || extent.height != current.height) ==> spec_plan_resize(
                extent,
                current,
            ).1 == ResizeAction::Recreate(extent)
        },
{
}

} // verus!
