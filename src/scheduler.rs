use vstd::prelude::*;

use crate::extent::Extent;
use crate::model::{init, next, SchedState};
use crate::protocol::{targets_for, Action, Event, FramePlan, FrameTarget, InFlight, Phase};

verus! {

/// The frame scheduler: owns the in-flight tracking, the rebuild flag and the
/// frame targets, and decides each step of the frame loop.
pub struct Scheduler {
    phase: Phase,
    rebuild_requested: bool,
    extent: Extent,
    surface: Extent,
    pending: Extent,
    vertex_count: u32,
    generation: Ghost<nat>,
    targets: Vec<FrameTarget>,
    in_flight: InFlight,
    history: Ghost<Seq<bool>>,
}

impl View for Scheduler {
    type V = SchedState;

    closed spec fn view(&self) -> SchedState {
        SchedState {
            phase: self.phase,
            rebuild_requested: self.rebuild_requested,
            extent: self.extent,
            surface: self.surface,
            pending: self.pending,
            vertex_count: self.vertex_count,
            generation: self.generation@,
            targets: self.targets@,
            in_flight: self.in_flight,
            history: self.history@,
        }
    }
}

/// One frame target per image of a swapchain generation, in image order.
fn build_targets(image_count: u32, generation: Ghost<nat>) -> (r: Vec<FrameTarget>)
    ensures
        r@ == targets_for(generation@, image_count as nat),
{
    let mut r: Vec<FrameTarget> = Vec::new();
    let mut i: u32 = 0;
    while i < image_count
        invariant
            i <= image_count,
            r@ == targets_for(generation@, i as nat),
        decreases image_count - i,
    {
        r.push(FrameTarget { image_index: i, generation });
        i = i + 1;
        assert(r@ =~= targets_for(generation@, i as nat));
    }
    r
}

impl Scheduler {
    pub open spec fn wf(&self) -> bool {
        self@.wf()
    }

    /// The scheduler at startup, over a swapchain of `image_count` images
    /// built at `extent`, drawing `vertex_count` vertices per frame.
    pub fn new(extent: Extent, image_count: u32, vertex_count: u32) -> (r: Scheduler)
        ensures
            r@ == init(extent, image_count, vertex_count),
            r.wf(),
    {
        let targets = build_targets(image_count, Ghost(0));
        Scheduler {
            phase: Phase::Idle,
            rebuild_requested: false,
            extent,
            surface: extent,
            pending: extent,
            vertex_count,
            generation: Ghost(0),
            targets,
            in_flight: InFlight::Complete,
            history: Ghost(Seq::empty()),
        }
    }

    /// Takes one event and returns the action asked for next.
    pub fn step(&mut self, e: Event) -> (r: Action)
        requires
            old(self).wf(),
        ensures
            final(self).wf(),
            (final(self)@, r) == next(old(self)@, e),
    {
        if self.phase == Phase::Closed {
            return Action::Exit;
        }
        match e {
            Event::CloseRequested => {
                self.phase = Phase::Closed;
                Action::Exit
            },
            Event::Resized => {
                self.rebuild_requested = true;
                Action::Wait
            },
            Event::Redraw { surface } => {
                if self.phase != Phase::Idle {
                    Action::Wait
                } else if surface.is_empty() {
                    self.surface = surface;
                    self.rebuild_requested = true;
                    Action::Wait
                } else if self.rebuild_requested || surface != self.extent {
                    self.phase = Phase::Rebuilding;
                    self.surface = surface;
                    self.pending = surface;
                    Action::Rebuild { extent: surface }
                } else {
                    self.phase = Phase::Acquiring;
                    self.surface = surface;
                    Action::Acquire
                }
            },
            Event::Rebuilt { image_count } => {
                if self.phase != Phase::Rebuilding {
                    Action::Wait
                } else {
                    let generation: Ghost<nat> = Ghost(self.generation@ + 1);
                    self.targets = build_targets(image_count, generation);
                    self.generation = generation;
                    self.phase = Phase::Acquiring;
                    self.rebuild_requested = false;
                    self.extent = self.pending;
                    Action::Acquire
                }
            },
            Event::Acquired { image_index, suboptimal } => {
                if self.phase != Phase::Acquiring {
                    Action::Wait
                } else if (image_index as usize) < self.targets.len() {
                    self.phase = Phase::Submitting;
                    self.rebuild_requested = self.rebuild_requested || suboptimal;
                    Action::Draw {
                        plan: FramePlan {
                            image_index,
                            viewport: self.extent,
                            vertex_count: self.vertex_count,
                            chain: self.in_flight,
                        },
                    }
                } else {
                    self.phase = Phase::Idle;
                    self.rebuild_requested = true;
                    Action::Wait
                }
            },
            Event::AcquireStale => {
                if self.phase != Phase::Acquiring {
                    Action::Wait
                } else {
                    self.phase = Phase::Idle;
                    self.rebuild_requested = true;
                    Action::Wait
                }
            },
            Event::Flushed => {
                if self.phase != Phase::Submitting {
                    Action::Wait
                } else {
                    self.phase = Phase::Idle;
                    self.in_flight = InFlight::Pending;
                    self.history = Ghost(self.history@.push(true));
                    Action::Wait
                }
            },
            Event::FlushStale => {
                if self.phase != Phase::Submitting {
                    Action::Wait
                } else {
                    self.phase = Phase::Idle;
                    self.rebuild_requested = true;
                    self.in_flight = InFlight::Complete;
                    self.history = Ghost(self.history@.push(false));
                    Action::ResetInFlight
                }
            },
        }
    }
    /// Where the scheduler stands within the current iteration.
    pub fn phase(&self) -> (r: Phase)
        ensures
            r == self@.phase,
    {
        self.phase
    }

    /// Whether the swapchain must be rebuilt before the next acquire.
    pub fn needs_rebuild(&self) -> (r: bool)
        ensures
            r == self@.rebuild_requested,
    {
        self.rebuild_requested
    }

    /// The extent the current swapchain was built with, which is also the
    /// viewport's extent.
    pub fn viewport(&self) -> (r: Extent)
        ensures
            r == self@.extent,
    {
        self.extent
    }

    /// The signal the next submission is chained after.
    pub fn in_flight(&self) -> (r: InFlight)
        ensures
            r == self@.in_flight,
    {
        self.in_flight
    }

    /// The number of frame targets of the current swapchain.
    pub fn target_count(&self) -> (r: usize)
        ensures
            r == self@.targets.len(),
    {
        self.targets.len()
    }

    /// The swapchain image that the `i`th frame target is bound to.
    pub fn target_image(&self, i: usize) -> (r: u32)
        requires
            i < self@.targets.len(),
        ensures
            r == self@.targets[i as int].image_index,
    {
        self.targets[i].image_index
    }
}

} // verus!
