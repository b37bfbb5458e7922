use vstd::prelude::*;

use crate::extent::Extent;

verus! {

/// Where the scheduler stands within one iteration of the frame loop.
#[derive(Clone, Copy, Debug, PartialEq, Eq, Structural)]
pub enum Phase {
    /// Between iterations.
    Idle,
    /// A swapchain rebuild has been asked for and its outcome is awaited.
    Rebuilding,
    /// An image has been asked for and its outcome is awaited.
    Acquiring,
    /// A frame has been handed out for recording, submission and presentation.
    Submitting,
    /// The window was closed; nothing more is done.
    Closed,
}

/// The completion signal that the next submission is chained after.
#[derive(Clone, Copy, Debug, PartialEq, Eq, Structural)]
pub enum InFlight {
    /// Trivially complete: nothing is outstanding.
    Complete,
    /// The previous frame's submission, not yet known to have completed.
    Pending,
}

/// What the windowing and device collaborators report to the scheduler.
#[derive(Clone, Copy, Debug, PartialEq, Eq, Structural)]
pub enum Event {
    /// The surface was resized.
    Resized,
    /// The window is to close.
    CloseRequested,
    /// A redraw tick, with the surface's extent read at that moment.
    Redraw { surface: Extent },
    /// The swapchain was rebuilt and holds this many images.
    Rebuilt { image_count: u32 },
    /// An image was acquired; `suboptimal` when it is usable but not ideal.
    Acquired { image_index: u32, suboptimal: bool },
    /// Acquiring reported that the surface is out of date.
    AcquireStale,
    /// Submission and presentation were flushed to the queue.
    Flushed,
    /// Submission or presentation reported that the surface is out of date.
    FlushStale,
}

/// One frame's work: draw against the target of `image_index` with the
/// given viewport, then submit and present it.
#[derive(Clone, Copy, Debug, PartialEq, Eq, Structural)]
pub struct FramePlan {
    /// The acquired image, and so the frame target drawn against.
    pub image_index: u32,
    /// The viewport's extent; its offset is zero and its depth range is 0 to 1.
    pub viewport: Extent,
    /// The number of vertices of the single draw call.
    pub vertex_count: u32,
    /// The signal that the submission waits for, besides the acquired image.
    pub chain: InFlight,
}

/// What the scheduler asks of its collaborators next.
#[derive(Clone, Copy, Debug, PartialEq, Eq, Structural)]
pub enum Action {
    /// Nothing until the next event.
    Wait,
    /// Reclaim finished work, then rebuild the swapchain at this extent and
    /// report `Rebuilt`.
    Rebuild { extent: Extent },
    /// Reclaim finished work (where no rebuild came first), then acquire an
    /// image and report `Acquired` or `AcquireStale`.
    Acquire,
    /// Record, submit and present the frame, then report `Flushed` or
    /// `FlushStale`.
    Draw { plan: FramePlan },
    /// The frame was dropped: replace the in-flight signal by one that is
    /// already complete.
    ResetInFlight,
    /// Leave the loop and release the resources.
    Exit,
}

/// A render destination bound to one swapchain image, valid for one
/// swapchain generation only.
#[derive(Clone, Copy)]
pub struct FrameTarget {
    pub image_index: u32,
    pub generation: Ghost<nat>,
}

/// The frame target set of a swapchain generation with `n` images: one per
/// image, in image order.
pub open spec fn targets_for(generation: nat, n: nat) -> Seq<FrameTarget> {
    Seq::new(n, |i: int| FrameTarget { image_index: i as u32, generation: Ghost(generation) })
}

} // verus!
