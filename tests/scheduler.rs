use window::{Action, Event, Extent, FramePlan, InFlight, Phase, Scheduler};

fn redraw(width: u32, height: u32) -> Event {
    Event::Redraw { surface: Extent::new(width, height) }
}

fn acquired(image_index: u32) -> Event {
    Event::Acquired { image_index, suboptimal: false }
}

fn plan_of(a: Action) -> FramePlan {
    match a {
        Action::Draw { plan } => plan,
        other => panic!("expected a draw, got {:?}", other),
    }
}

#[test]
fn startup_draws_first_frame() {
    let mut s = Scheduler::new(Extent::new(800, 600), 3, 3);
    assert_eq!(s.step(redraw(800, 600)), Action::Acquire);
    let plan = plan_of(s.step(acquired(0)));
    assert_eq!(plan.image_index, 0);
    assert_eq!(plan.vertex_count, 3);
    assert_eq!(plan.viewport, Extent::new(800, 600));
    assert_eq!(plan.chain, InFlight::Complete);
    assert_eq!(s.phase(), Phase::Submitting);
    assert_eq!(s.step(Event::Flushed), Action::Wait);
    assert!(!s.needs_rebuild());
    assert_eq!(s.phase(), Phase::Idle);
    assert_eq!(s.in_flight(), InFlight::Pending);
}

#[test]
fn resize_rebuilds_once_then_draws() {
    let mut s = Scheduler::new(Extent::new(800, 600), 3, 3);
    assert_eq!(s.step(redraw(800, 600)), Action::Acquire);
    plan_of(s.step(acquired(0)));
    assert_eq!(s.step(Event::Flushed), Action::Wait);
    assert_eq!(s.step(Event::Resized), Action::Wait);
    assert!(s.needs_rebuild());
    assert_eq!(
        s.step(redraw(400, 300)),
        Action::Rebuild { extent: Extent::new(400, 300) }
    );
    assert_eq!(s.step(Event::Rebuilt { image_count: 3 }), Action::Acquire);
    assert_eq!(s.target_count(), 3);
    for i in 0..3usize {
        assert_eq!(s.target_image(i), i as u32);
    }
    assert!(!s.needs_rebuild());
    let plan = plan_of(s.step(acquired(1)));
    assert_eq!(plan.image_index, 1);
    assert_eq!(plan.viewport, Extent::new(400, 300));
    assert_eq!(s.viewport(), Extent::new(400, 300));
    assert_eq!(s.step(Event::Flushed), Action::Wait);
    // no further rebuild
    assert_eq!(s.step(redraw(400, 300)), Action::Acquire);
}

#[test]
fn stale_acquire_drops_frame_then_rebuilds() {
    let mut s = Scheduler::new(Extent::new(800, 600), 2, 3);
    assert_eq!(s.step(redraw(800, 600)), Action::Acquire);
    assert_eq!(s.step(Event::AcquireStale), Action::Wait);
    assert!(s.needs_rebuild());
    assert_eq!(s.phase(), Phase::Idle);
    assert_eq!(s.in_flight(), InFlight::Complete);
    assert_eq!(
        s.step(redraw(800, 600)),
        Action::Rebuild { extent: Extent::new(800, 600) }
    );
    assert_eq!(s.step(Event::Rebuilt { image_count: 2 }), Action::Acquire);
}

#[test]
fn stale_acquire_keeps_in_flight_signal() {
    let mut s = Scheduler::new(Extent::new(800, 600), 2, 3);
    s.step(redraw(800, 600));
    plan_of(s.step(acquired(1)));
    s.step(Event::Flushed);
    assert_eq!(s.step(redraw(800, 600)), Action::Acquire);
    assert_eq!(s.step(Event::AcquireStale), Action::Wait);
    assert_eq!(s.in_flight(), InFlight::Pending);
}

#[test]
fn empty_extent_pauses_until_restored() {
    let mut s = Scheduler::new(Extent::new(800, 600), 3, 3);
    assert_eq!(s.step(redraw(0, 600)), Action::Wait);
    assert_eq!(s.step(redraw(800, 0)), Action::Wait);
    assert_eq!(s.step(redraw(0, 0)), Action::Wait);
    assert_eq!(s.phase(), Phase::Idle);
    assert!(s.needs_rebuild());
    assert_eq!(
        s.step(redraw(800, 600)),
        Action::Rebuild { extent: Extent::new(800, 600) }
    );
    assert_eq!(s.step(Event::Rebuilt { image_count: 3 }), Action::Acquire);
    assert_eq!(s.phase(), Phase::Acquiring);
}

#[test]
fn rebuild_twice_same_extent_same_targets() {
    let mut s = Scheduler::new(Extent::new(640, 480), 2, 3);
    s.step(Event::Resized);
    assert_eq!(
        s.step(redraw(640, 480)),
        Action::Rebuild { extent: Extent::new(640, 480) }
    );
    s.step(Event::Rebuilt { image_count: 4 });
    let first: Vec<u32> = (0..s.target_count()).map(|i| s.target_image(i)).collect();
    assert_eq!(s.step(Event::AcquireStale), Action::Wait);
    assert_eq!(
        s.step(redraw(640, 480)),
        Action::Rebuild { extent: Extent::new(640, 480) }
    );
    s.step(Event::Rebuilt { image_count: 4 });
    let second: Vec<u32> = (0..s.target_count()).map(|i| s.target_image(i)).collect();
    assert_eq!(first, vec![0, 1, 2, 3]);
    assert_eq!(first, second);
    assert_eq!(s.viewport(), Extent::new(640, 480));
}

#[test]
fn second_frame_chains_after_first() {
    let mut s = Scheduler::new(Extent::new(800, 600), 3, 3);
    s.step(redraw(800, 600));
    assert_eq!(plan_of(s.step(acquired(0))).chain, InFlight::Complete);
    s.step(Event::Flushed);
    s.step(redraw(800, 600));
    assert_eq!(plan_of(s.step(acquired(1))).chain, InFlight::Pending);
}

#[test]
fn stale_flush_resets_in_flight() {
    let mut s = Scheduler::new(Extent::new(800, 600), 3, 3);
    s.step(redraw(800, 600));
    plan_of(s.step(acquired(0)));
    s.step(Event::Flushed);
    s.step(redraw(800, 600));
    plan_of(s.step(acquired(1)));
    assert_eq!(s.step(Event::FlushStale), Action::ResetInFlight);
    assert_eq!(s.in_flight(), InFlight::Complete);
    assert!(s.needs_rebuild());
    assert_eq!(
        s.step(redraw(800, 600)),
        Action::Rebuild { extent: Extent::new(800, 600) }
    );
    s.step(Event::Rebuilt { image_count: 3 });
    assert_eq!(plan_of(s.step(acquired(2))).chain, InFlight::Complete);
}

#[test]
fn suboptimal_image_is_drawn_then_rebuilt() {
    let mut s = Scheduler::new(Extent::new(800, 600), 3, 3);
    s.step(redraw(800, 600));
    let plan = plan_of(s.step(Event::Acquired { image_index: 2, suboptimal: true }));
    assert_eq!(plan.image_index, 2);
    assert!(s.needs_rebuild());
    s.step(Event::Flushed);
    assert_eq!(
        s.step(redraw(800, 600)),
        Action::Rebuild { extent: Extent::new(800, 600) }
    );
}

#[test]
fn rebuild_uses_extent_read_at_tick() {
    let mut s = Scheduler::new(Extent::new(800, 600), 3, 3);
    s.step(Event::Resized);
    s.step(Event::Resized);
    // the surface has settled at another size by the time of the tick
    assert_eq!(
        s.step(redraw(1024, 768)),
        Action::Rebuild { extent: Extent::new(1024, 768) }
    );
    s.step(Event::Rebuilt { image_count: 3 });
    assert_eq!(s.viewport(), Extent::new(1024, 768));
}

#[test]
fn surface_change_without_resize_event_rebuilds() {
    let mut s = Scheduler::new(Extent::new(800, 600), 3, 3);
    assert_eq!(
        s.step(redraw(801, 600)),
        Action::Rebuild { extent: Extent::new(801, 600) }
    );
}

#[test]
fn out_of_range_image_drops_frame() {
    let mut s = Scheduler::new(Extent::new(800, 600), 2, 3);
    s.step(redraw(800, 600));
    assert_eq!(s.step(acquired(2)), Action::Wait);
    assert!(s.needs_rebuild());
    assert_eq!(s.phase(), Phase::Idle);
}

#[test]
fn close_exits_and_stays_closed() {
    let mut s = Scheduler::new(Extent::new(800, 600), 2, 3);
    assert_eq!(s.step(Event::CloseRequested), Action::Exit);
    assert_eq!(s.phase(), Phase::Closed);
    assert_eq!(s.step(redraw(800, 600)), Action::Exit);
}

#[test]
fn events_out_of_phase_change_nothing() {
    let mut s = Scheduler::new(Extent::new(800, 600), 2, 3);
    assert_eq!(s.step(Event::Flushed), Action::Wait);
    assert_eq!(s.step(acquired(0)), Action::Wait);
    assert_eq!(s.step(Event::Rebuilt { image_count: 5 }), Action::Wait);
    assert_eq!(s.target_count(), 2);
    assert_eq!(s.phase(), Phase::Idle);
    assert_eq!(s.step(redraw(800, 600)), Action::Acquire);
    assert_eq!(s.step(redraw(800, 600)), Action::Wait);
    assert_eq!(s.phase(), Phase::Acquiring);
}

#[test]
fn extent_emptiness() {
    assert!(Extent::new(0, 600).is_empty());
    assert!(Extent::new(800, 0).is_empty());
    assert!(!Extent::new(1, 1).is_empty());
}
