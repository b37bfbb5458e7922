use vstd::prelude::*;

use crate::extent::Extent;
use crate::protocol::{targets_for, Action, Event, FramePlan, FrameTarget, InFlight, Phase};

verus! {

/// The abstract state of the frame scheduler.
pub struct SchedState {
    pub phase: Phase,
    /// Set when the swapchain is stale and must be rebuilt before the next
    /// acquire.
    pub rebuild_requested: bool,
    /// The extent the current swapchain was built with.
    pub extent: Extent,
    /// The surface's extent as last read at a redraw tick.
    pub surface: Extent,
    /// The extent of the rebuild in progress.
    pub pending: Extent,
    /// The vertex count of the fixed draw call.
    pub vertex_count: u32,
    /// The current swapchain generation; each rebuild starts a new one.
    pub generation: nat,
    /// The frame targets of the current swapchain.
    pub targets: Seq<FrameTarget>,
    /// The signal the next submission is chained after.
    pub in_flight: InFlight,
    /// For each frame handed out and settled, in order: whether its
    /// submission was flushed (true) or dropped as stale (false).
    pub history: Seq<bool>,
}

impl SchedState {
    /// Whether the previous frame's submission was flushed, so that its
    /// completion signal is still outstanding.
    pub open spec fn previous_flushed(self) -> bool {
        self.history.len() > 0 && self.history.last()
    }

    /// The frame targets belong to the current generation, one per image in
    /// image order; the in-flight signal is the previous frame's exactly when
    /// that frame was flushed; a rebuild or a frame in progress uses the
    /// surface's last read extent, which is not empty.
    pub open spec fn wf(self) -> bool {
        &&& self.targets.len() <= u32::MAX
        &&& self.targets == targets_for(self.generation, self.targets.len())
        &&& (self.in_flight == InFlight::Pending) == self.previous_flushed()
        &&& self.phase == Phase::Rebuilding ==> self.pending == self.surface
            && !self.pending.is_empty_spec()
        &&& (self.phase == Phase::Acquiring || self.phase == Phase::Submitting) ==> self.extent
            == self.surface && !self.extent.is_empty_spec()
    }

    /// The frame that a draw in this state would hand out.
    pub open spec fn plan(self, image_index: u32) -> FramePlan {
        FramePlan {
            image_index,
            viewport: self.extent,
            vertex_count: self.vertex_count,
            chain: self.in_flight,
        }
    }
}

/// The state right after startup, with a swapchain of `image_count` images
/// built at `extent`.
pub open spec fn init(extent: Extent, image_count: u32, vertex_count: u32) -> SchedState {
    SchedState {
        phase: Phase::Idle,
        rebuild_requested: false,
        extent,
        surface: extent,
        pending: extent,
        vertex_count,
        generation: 0,
        targets: targets_for(0, image_count as nat),
        in_flight: InFlight::Complete,
        history: Seq::empty(),
    }
}

/// One step of the frame loop: the next state and the action asked for, on
/// an event. Events that do not belong to the current phase change nothing.
pub open spec fn next(s: SchedState, e: Event) -> (SchedState, Action) {
    if s.phase == Phase::Closed {
        (s, Action::Exit)
    } else {
        match e {
            Event::CloseRequested => (SchedState { phase: Phase::Closed, ..s }, Action::Exit),
            Event::Resized => (SchedState { rebuild_requested: true, ..s }, Action::Wait),
            Event::Redraw { surface } => {
                if s.phase != Phase::Idle {
                    (s, Action::Wait)
                } else if surface.is_empty_spec() {
                    (SchedState { surface, rebuild_requested: true, ..s }, Action::Wait)
                } else if s.rebuild_requested || surface != s.extent {
                    (
                        SchedState { phase: Phase::Rebuilding, surface, pending: surface, ..s },
                        Action::Rebuild { extent: surface },
                    )
                } else {
                    (SchedState { phase: Phase::Acquiring, surface, ..s }, Action::Acquire)
                }
            },
            Event::Rebuilt { image_count } => {
                if s.phase != Phase::Rebuilding {
                    (s, Action::Wait)
                } else {
                    (
                        SchedState {
                            phase: Phase::Acquiring,
                            rebuild_requested: false,
                            extent: s.pending,
                            generation: s.generation + 1,
                            targets: targets_for(s.generation + 1, image_count as nat),
                            ..s
                        },
                        Action::Acquire,
                    )
                }
            },
            Event::Acquired { image_index, suboptimal } => {
                if s.phase != Phase::Acquiring {
                    (s, Action::Wait)
                } else if image_index < s.targets.len() {
                    (
                        SchedState {
                            phase: Phase::Submitting,
                            rebuild_requested: s.rebuild_requested || suboptimal,
                            ..s
                        },
                        Action::Draw { plan: s.plan(image_index) },
                    )
                } else {
                    (SchedState { phase: Phase::Idle, rebuild_requested: true, ..s }, Action::Wait)
                }
            },
            Event::AcquireStale => {
                if s.phase != Phase::Acquiring {
                    (s, Action::Wait)
                } else {
                    (SchedState { phase: Phase::Idle, rebuild_requested: true, ..s }, Action::Wait)
                }
            },
            Event::Flushed => {
                if s.phase != Phase::Submitting {
                    (s, Action::Wait)
                } else {
                    (
                        SchedState {
                            phase: Phase::Idle,
                            in_flight: InFlight::Pending,
                            history: s.history.push(true),
                            ..s
                        },
                        Action::Wait,
                    )
                }
            },
            Event::FlushStale => {
                if s.phase != Phase::Submitting {
                    (s, Action::Wait)
                } else {
                    (
                        SchedState {
                            phase: Phase::Idle,
                            rebuild_requested: true,
                            in_flight: InFlight::Complete,
                            history: s.history.push(false),
                            ..s
                        },
                        Action::ResetInFlight,
                    )
                }
            },
        }
    }
}

/// The state after a sequence of events.
pub open spec fn run(s: SchedState, evs: Seq<Event>) -> SchedState
    decreases evs.len(),
{
    if evs.len() == 0 {
        s
    } else {
        run(next(s, evs[0]).0, evs.drop_first())
    }
}

/// The actions asked for along a sequence of events, one per event.
pub open spec fn actions(s: SchedState, evs: Seq<Event>) -> Seq<Action>
    decreases evs.len(),
{
    if evs.len() == 0 {
        Seq::empty()
    } else {
        seq![next(s, evs[0]).1] + actions(next(s, evs[0]).0, evs.drop_first())
    }
}

} // verus!
