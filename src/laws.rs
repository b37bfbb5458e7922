use vstd::prelude::*;

use crate::extent::Extent;
use crate::model::{actions, next, run, SchedState};
use crate::protocol::{Action, Event, InFlight, Phase};

verus! {

/// Every step keeps the scheduler's state well formed.
pub proof fn lemma_step_wf(s: SchedState, e: Event)
    requires
        s.wf(),
    ensures
        next(s, e).0.wf(),
{
}

/// Any sequence of events keeps the scheduler's state well formed.
pub proof fn lemma_run_wf(s: SchedState, evs: Seq<Event>)
    requires
        s.wf(),
    ensures
        run(s, evs).wf(),
    decreases evs.len(),
{
    if evs.len() > 0 {
        lemma_step_wf(s, evs[0]);
        lemma_run_wf(next(s, evs[0]).0, evs.drop_first());
    }
}

/// One action is asked for per event.
pub proof fn lemma_actions_len(s: SchedState, evs: Seq<Event>)
    ensures
        actions(s, evs).len() == evs.len(),
    decreases evs.len(),
{
    if evs.len() > 0 {
        lemma_actions_len(next(s, evs[0]).0, evs.drop_first());
    }
}

/// The action asked for at the `j`th event is the step from the state that
/// the events before it led to.
pub proof fn lemma_actions_index(s: SchedState, evs: Seq<Event>, j: int)
    requires
        0 <= j < evs.len(),
    ensures
        actions(s, evs).len() == evs.len(),
        actions(s, evs)[j] == next(run(s, evs.take(j)), evs[j]).1,
    decreases j,
{
    lemma_actions_len(s, evs);
    let s1 = next(s, evs[0]).0;
    let rest = evs.drop_first();
    lemma_actions_len(s1, rest);
    if j > 0 {
        lemma_actions_index(s1, rest, j - 1);
        assert(evs.take(j).drop_first() =~= rest.take(j - 1));
        assert(evs.take(j)[0] == evs[0]);
    } else {
        assert(evs.take(0).len() == 0);
    }
}

/// A rebuild is asked for only at a redraw tick, at the surface extent read
/// at that tick, and the swapchain then takes exactly that extent.
pub proof fn lemma_rebuild_uses_surface(s: SchedState, e: Event, image_count: u32)
    requires
        s.wf(),
        next(s, e).1 is Rebuild,
    ensures
        e is Redraw,
        next(s, e).1->Rebuild_extent == e->Redraw_surface,
        !e->Redraw_surface.is_empty_spec(),
        next(next(s, e).0, Event::Rebuilt { image_count }).0.extent == e->Redraw_surface,
{
}

/// A frame is drawn only against a target of the current swapchain
/// generation, the one of the acquired image, with the viewport at the
/// swapchain's extent, which is the surface extent last read.
pub proof fn lemma_draw_uses_current_targets(s: SchedState, e: Event)
    requires
        s.wf(),
        next(s, e).1 is Draw,
    ensures
        s.phase == Phase::Acquiring,
        ({
            let plan = next(s, e).1->Draw_plan;
            &&& plan.image_index < s.targets.len()
            &&& s.targets[plan.image_index as int].image_index == plan.image_index
            &&& s.targets[plan.image_index as int].generation@ == s.generation
            &&& plan.viewport == s.extent
            &&& plan.viewport == s.surface
        }),
{
}

/// Along any sequence of events: each rebuild is at the surface extent read
/// at the tick that asked for it, and each draw uses a target of the
/// swapchain generation current at that moment, with the viewport at the
/// surface extent last read.
pub proof fn lemma_trace_rebuilds_and_draws(s: SchedState, evs: Seq<Event>, j: int)
    requires
        s.wf(),
        0 <= j < evs.len(),
    ensures
        actions(s, evs).len() == evs.len(),
        actions(s, evs)[j] is Rebuild ==> evs[j] is Redraw
            && actions(s, evs)[j]->Rebuild_extent == evs[j]->Redraw_surface,
        actions(s, evs)[j] is Draw ==> ({
            let sj = run(s, evs.take(j));
            let plan = actions(s, evs)[j]->Draw_plan;
            &&& plan.image_index < sj.targets.len()
            &&& sj.targets[plan.image_index as int].generation@ == sj.generation
            &&& plan.viewport == sj.surface
        }),
{
    lemma_actions_index(s, evs, j);
    lemma_run_wf(s, evs.take(j));
    let sj = run(s, evs.take(j));
    if actions(s, evs)[j] is Rebuild {
        lemma_rebuild_uses_surface(sj, evs[j], 0);
    }
    if actions(s, evs)[j] is Draw {
        lemma_draw_uses_current_targets(sj, evs[j]);
    }
}

/// Rebuilding twice at an unchanged extent, with the swapchain reporting the
/// same image count, gives the same extent and an equivalent target set:
/// one target per image, with the same image at each index.
pub proof fn lemma_rebuild_idempotent(s: SchedState, t: SchedState, image_count: u32)
    requires
        s.wf(),
        t.wf(),
        s.phase == Phase::Rebuilding,
        t.phase == Phase::Rebuilding,
        s.pending == t.pending,
    ensures
        ({
            let s1 = next(s, Event::Rebuilt { image_count }).0;
            let t1 = next(t, Event::Rebuilt { image_count }).0;
            &&& s1.extent == t1.extent
            &&& s1.targets.len() == image_count
            &&& t1.targets.len() == image_count
            &&& forall|i: int|
                0 <= i < image_count ==> s1.targets[i].image_index == t1.targets[i].image_index
                    && s1.targets[i].image_index == i
        }),
{
}

/// A submission is chained after the previous frame's completion signal
/// exactly when that frame was flushed; handing a frame out keeps the signal,
/// and flushing it makes its own signal the one the next frame waits for.
pub proof fn lemma_draw_chains_after_previous(s: SchedState, e: Event)
    requires
        s.wf(),
        next(s, e).1 is Draw,
    ensures
        (next(s, e).1->Draw_plan.chain == InFlight::Pending) == s.previous_flushed(),
        next(s, e).0.in_flight == s.in_flight,
        next(s, e).0.history == s.history,
        next(s, e).0.phase == Phase::Submitting,
        next(next(s, e).0, Event::Flushed).0.in_flight == InFlight::Pending,
        next(next(s, e).0, Event::Flushed).0.history == s.history.push(true),
{
}

/// The in-flight signal changes only when a frame is flushed or dropped.
pub proof fn lemma_in_flight_kept(s: SchedState, e: Event)
    requires
        s.wf(),
        e != Event::Flushed,
        e != Event::FlushStale,
    ensures
        next(s, e).0.in_flight == s.in_flight,
        next(s, e).0.history == s.history,
{
}

/// Along any sequence of events, each frame handed out waits for the
/// previous frame's completion signal exactly when the previous frame was
/// flushed.
pub proof fn lemma_trace_pipelining(s: SchedState, evs: Seq<Event>, j: int)
    requires
        s.wf(),
        0 <= j < evs.len(),
        actions(s, evs)[j] is Draw,
    ensures
        (actions(s, evs)[j]->Draw_plan.chain == InFlight::Pending) == run(
            s,
            evs.take(j),
        ).previous_flushed(),
{
    lemma_actions_index(s, evs, j);
    lemma_run_wf(s, evs.take(j));
    lemma_draw_chains_after_previous(run(s, evs.take(j)), evs[j]);
}

/// Ticks at an empty extent ask for nothing and leave a rebuild pending; the
/// first tick at a non-empty extent then asks for exactly one rebuild, at
/// that extent, followed by an acquire.
pub proof fn lemma_empty_extent_pauses(
    s: SchedState,
    evs: Seq<Event>,
    surface: Extent,
    image_count: u32,
)
    requires
        s.wf(),
        s.phase == Phase::Idle,
        evs.len() > 0,
        forall|i: int| 0 <= i < evs.len() ==> evs[i] is Redraw && evs[i]->Redraw_surface.is_empty_spec(),
        !surface.is_empty_spec(),
    ensures
        forall|i: int| 0 <= i < evs.len() ==> actions(s, evs)[i] == Action::Wait,
        actions(s, evs).len() == evs.len(),
        ({
            let z = run(s, evs);
            let r = next(z, Event::Redraw { surface });
            &&& z.phase == Phase::Idle
            &&& z.rebuild_requested
            &&& r.1 == Action::Rebuild { extent: surface }
            &&& next(r.0, Event::Rebuilt { image_count }).1 == Action::Acquire
            &&& next(r.0, Event::Rebuilt { image_count }).0.extent == surface
        }),
    decreases evs.len(),
{
    lemma_actions_len(s, evs);
    let s1 = next(s, evs[0]).0;
    let rest = evs.drop_first();
    assert(next(s, evs[0]).1 == Action::Wait);
    assert(s1.phase == Phase::Idle && s1.rebuild_requested);
    lemma_step_wf(s, evs[0]);
    if rest.len() > 0 {
        lemma_empty_extent_pauses(s1, rest, surface, image_count);
    } else {
        assert(run(s1, rest) == s1);
    }
    assert forall|i: int| 0 <= i < evs.len() implies actions(s, evs)[i] == Action::Wait by {
        if i > 0 {
            assert(actions(s, evs)[i] == actions(s1, rest)[i - 1]);
        }
    }
}

} // verus!
