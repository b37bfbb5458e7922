//! The frame loop of a swapchain-presented renderer: when to rebuild the
//! swapchain, when to acquire, draw, submit and present, and which signal
//! each submission is chained after. `model` states the loop as a transition
//! function, `scheduler` implements it, and `laws` proves what holds along
//! any sequence of events.

pub mod extent;
pub mod laws;
pub mod model;
pub mod protocol;
pub mod scheduler;

pub use extent::Extent;
pub use protocol::{Action, Event, FramePlan, InFlight, Phase};
pub use scheduler::Scheduler;
