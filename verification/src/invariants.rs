//! What holds of every renderer, whatever reaches it.
//!
//! Each statement is about the models of [`crate::state`]: the functions of
//! `State` are proved to act as these models say.

use vstd::prelude::*;
use crate::action::{lemma_occurrences_add, lemma_occurrences_short, occurrences, Action};
use crate::event::{Event, WindowEvent};
use crate::frame::{AcquireOutcome, RenderError, RenderPass};
use crate::size::Size;
use crate::state::StateModel;
use crate::surface::{last_drawable, lemma_resizes_keep_last_drawable};

verus! {

/// A resize with a zero width or a zero height leaves the state, and with it
/// the configuration, as it was and asks for nothing.
pub proof fn lemma_empty_resize_changes_nothing<F>(state: StateModel<F>, new_size: Size)
    requires
        new_size.width == 0 || new_size.height == 0,
    ensures
        state.resized(new_size) == state,
        state.resize_actions(new_size) == Seq::<Action<F>>::empty(),
{
}

/// A resize to an extent that is not empty asks for exactly one thing: that
/// the surface be configured with the new configuration, whose extent is the
/// new one.
pub proof fn lemma_resize_configures<F>(state: StateModel<F>, new_size: Size)
    requires
        new_size.drawable(),
    ensures
        state.resized(new_size).wf(),
        state.resized(new_size).surface.size == new_size,
        state.resized(new_size).surface.config.width == new_size.width,
        state.resized(new_size).surface.config.height == new_size.height,
        state.resized(new_size).exit_requested == state.exit_requested,
        state.resize_actions(new_size) == seq![
            Action::ConfigureSurface(state.resized(new_size).surface.config),
        ],
{
}

/// The events that report the extents of `sizes` for the renderer's own
/// window, one resize each.
pub open spec fn resize_events(sizes: Seq<Size>) -> Seq<Event> {
    Seq::new(
        sizes.len(),
        |i: int| Event::Window { own_window: true, event: WindowEvent::Resized(sizes[i]) },
    )
}

/// After any run of resize events the configuration has the last extent of
/// the run that was not empty, and the extent it had before where all were
/// empty. In particular, a run that ends in an extent that is not empty
/// leaves the configuration at that extent.
pub proof fn lemma_resizes_end_at_last_drawable<F>(state: StateModel<F>, sizes: Seq<Size>)
    requires
        state.wf(),
        !state.exit_requested,
    ensures
        state.after(resize_events(sizes)).surface == state.surface.resized_all(sizes),
        !state.after(resize_events(sizes)).exit_requested,
        state.after(resize_events(sizes)).surface.size == last_drawable(sizes, state.surface.size),
        state.after(resize_events(sizes)).surface.config.extent() == last_drawable(
            sizes,
            state.surface.size,
        ),
        sizes.len() > 0 && sizes.last().drawable() ==> state.after(
            resize_events(sizes),
        ).surface.config.extent() == sizes.last(),
    decreases sizes.len(),
{
    if sizes.len() > 0 {
        lemma_resizes_end_at_last_drawable(state, sizes.drop_last());
        assert(resize_events(sizes).drop_last() =~= resize_events(sizes.drop_last()));
    }
    lemma_resizes_keep_last_drawable(state.surface, sizes);
}

/// Rendering right after a resize to an extent that is not empty finds the
/// surface configured at exactly that extent, so the extent gives the
/// backend no reason to call the surface lost: the render call fails with
/// [`RenderError::Lost`] only where the backend itself reported the loss,
/// and it succeeds and draws where the frame was acquired.
pub proof fn lemma_render_after_resize<F>(
    state: StateModel<F>,
    new_size: Size,
    outcome: AcquireOutcome,
)
    requires
        state.wf(),
        new_size.drawable(),
    ensures
        state.resize_actions(new_size) == seq![
            Action::ConfigureSurface(state.resized(new_size).surface.config),
        ],
        state.resized(new_size).surface.config.extent() == new_size,
        state.resized(new_size).surface.size == new_size,
        outcome.verdict() == Err::<(), RenderError>(RenderError::Lost) <==> outcome
            == AcquireOutcome::Lost,
        outcome == AcquireOutcome::Acquired ==> outcome.verdict() is Ok && state.resized(
            new_size,
        ).render_actions(outcome) == seq![
            Action::<F>::Record(RenderPass::clear_frame()),
            Action::Submit,
            Action::Present,
        ],
{
}

/// A render call succeeds exactly when the frame was acquired, and only
/// then does it ask for anything to be recorded, submitted or presented:
/// each of them once.
pub proof fn lemma_draws_only_acquired_frames<F>(state: StateModel<F>, outcome: AcquireOutcome)
    requires
        state.wf(),
    ensures
        outcome.verdict() is Ok <==> outcome == AcquireOutcome::Acquired,
        occurrences(state.render_actions(outcome), Action::Record(RenderPass::clear_frame()))
            == if outcome == AcquireOutcome::Acquired {
            1nat
        } else {
            0nat
        },
        occurrences(state.render_actions(outcome), Action::Submit) == if outcome
            == AcquireOutcome::Acquired {
            1nat
        } else {
            0nat
        },
        occurrences(state.render_actions(outcome), Action::Present) == if outcome
            == AcquireOutcome::Acquired {
            1nat
        } else {
            0nat
        },
        forall|index: int|
            0 <= index < state.render_actions(outcome).len() && (
            #[trigger] state.render_actions(outcome)[index]) is Record ==> state.render_actions(
                outcome,
            )[index] == Action::<F>::Record(RenderPass::clear_frame()),
{
    let actions = state.render_actions(outcome);
    lemma_occurrences_short(actions, Action::Record(RenderPass::clear_frame()));
    lemma_occurrences_short(actions, Action::Submit);
    lemma_occurrences_short(actions, Action::Present);
}

/// On a lost surface the same render call asks for the surface to be
/// configured again, with the configuration it has, whose extent is the last
/// that the window reported and that was not empty. It asks for nothing
/// else: nothing is recorded, submitted or presented. The state stays as it
/// was.
pub proof fn lemma_lost_surface_is_reconfigured<F>(state: StateModel<F>)
    requires
        state.wf(),
    ensures
        AcquireOutcome::Lost.verdict() == Err::<(), RenderError>(RenderError::Lost),
        state.render_actions(AcquireOutcome::Lost) == seq![
            Action::ConfigureSurface(state.surface.config),
        ],
        state.surface.config.extent() == state.surface.size,
        state.surface.size.drawable(),
        state.rendered(AcquireOutcome::Lost) == state,
        occurrences(state.render_actions(AcquireOutcome::Lost), Action::Present) == 0,
        occurrences(state.render_actions(AcquireOutcome::Lost), Action::Submit) == 0,
{
    let actions = state.render_actions(AcquireOutcome::Lost);
    assert(state.surface.config.with_extent(state.surface.size) == state.surface.config);
    assert(actions =~= seq![Action::ConfigureSurface(state.surface.config)]);
    lemma_occurrences_short(actions, Action::Present);
    lemma_occurrences_short(actions, Action::Submit);
}

/// Without memory the render call makes the renderer ask to exit and asks
/// for nothing but the exit: nothing is recorded, submitted or presented, and
/// the surface is left alone.
pub proof fn lemma_out_of_memory_exits<F>(state: StateModel<F>)
    ensures
        AcquireOutcome::OutOfMemory.verdict() == Err::<(), RenderError>(RenderError::OutOfMemory),
        state.rendered(AcquireOutcome::OutOfMemory).exit_requested,
        state.rendered(AcquireOutcome::OutOfMemory).surface == state.surface,
        state.render_actions(AcquireOutcome::OutOfMemory) == seq![Action::<F>::Exit],
        occurrences(state.render_actions(AcquireOutcome::OutOfMemory), Action::Present) == 0,
        occurrences(state.render_actions(AcquireOutcome::OutOfMemory), Action::Submit) == 0,
        forall|index: int|
            0 <= index < state.render_actions(AcquireOutcome::OutOfMemory).len() ==> !((
            #[trigger] state.render_actions(AcquireOutcome::OutOfMemory)[index]) is Record),
{
    let actions = state.render_actions(AcquireOutcome::OutOfMemory);
    lemma_occurrences_short(actions, Action::Present);
    lemma_occurrences_short(actions, Action::Submit);
}

/// A close request and escape going down are told apart by nothing: on the
/// renderer's own window either makes it ask to exit, with the same state
/// and the same single action as the other.
pub proof fn lemma_close_and_escape_agree<F>(state: StateModel<F>, first: Event, second: Event)
    requires
        first.asks_to_exit(),
        second.asks_to_exit(),
    ensures
        state.handled(first) == state.handled(second),
        state.handle_actions(first) == state.handle_actions(second),
        state.handled(first).exit_requested,
        !state.exit_requested ==> state.handle_actions(first) == seq![Action::<F>::Exit],
{
}

/// The renderer asks to exit with the very event that tells its caller to:
/// the request is new after an event exactly when the event's actions hold
/// an exit.
pub proof fn lemma_exit_is_announced<F>(state: StateModel<F>, event: Event)
    requires
        state.wf(),
    ensures
        state.exit_requested ==> state.handled(event).exit_requested,
        !state.exit_requested ==> (state.handled(event).exit_requested <==> occurrences(
            state.handle_actions(event),
            Action::Exit,
        ) > 0),
{
    lemma_occurrences_short(state.handle_actions(event), Action::Exit);
}

/// Only two things make the renderer ask to exit: an event that asks it to,
/// and a frame request that fails for want of memory. A lost surface and
/// every other failed frame leave the window open.
pub proof fn lemma_only_fatal_conditions_close<F>(state: StateModel<F>, event: Event)
    ensures
        state.handled(event).exit_requested <==> state.exit_requested || event.asks_to_exit()
            || event == Event::FrameAcquired(AcquireOutcome::OutOfMemory),
        forall|outcome: AcquireOutcome| #[trigger]
            state.rendered(outcome).exit_requested <==> state.exit_requested || outcome
                == AcquireOutcome::OutOfMemory,
{
}

/// While the renderer has not asked to exit, the end of every cycle asks for
/// one redraw, a redraw tick for the renderer's own window asks for one
/// frame, and nothing else asks for either.
pub proof fn lemma_one_frame_per_tick<F>(state: StateModel<F>, event: Event)
    requires
        !state.exit_requested,
    ensures
        occurrences(state.handle_actions(event), Action::RequestRedraw) == if event
            == Event::MainEventsCleared {
            1nat
        } else {
            0nat
        },
        occurrences(state.handle_actions(event), Action::AcquireFrame) == if event
            == (Event::RedrawRequested { own_window: true }) {
            1nat
        } else {
            0nat
        },
{
    lemma_occurrences_short(state.handle_actions(event), Action::RequestRedraw);
    lemma_occurrences_short(state.handle_actions(event), Action::AcquireFrame);
}

/// Once the renderer has asked to exit, whatever still reaches it changes
/// nothing and asks for nothing: no frame is acquired, drawn or presented any
/// more.
pub proof fn lemma_exit_is_final<F>(state: StateModel<F>, events: Seq<Event>)
    requires
        state.exit_requested,
    ensures
        state.after(events) == state,
        state.trace(events) == Seq::<Action<F>>::empty(),
    decreases events.len(),
{
    if events.len() > 0 {
        lemma_exit_is_final(state, events.drop_last());
        assert(state.trace(events) =~= Seq::<Action<F>>::empty());
    }
}

/// No event breaks the state: the configuration keeps the extent of the
/// last resize that was not empty, and format, usage and presentation mode
/// stay what they were at the start.
pub proof fn lemma_event_keeps_surface_valid<F>(state: StateModel<F>, event: Event)
    requires
        state.wf(),
    ensures
        state.handled(event).wf(),
        state.handled(event).surface.config == state.surface.config.with_extent(
            state.handled(event).surface.size,
        ),
        state.handled(event).surface.size == state.surface.size || (!state.exit_requested
            && event.new_extent() == Some(state.handled(event).surface.size)),
{
}

/// Whenever an event has the surface configured, it is with the
/// configuration that the state holds afterwards, which is never one with a
/// zero dimension.
pub proof fn lemma_event_configures_with_current<F>(
    state: StateModel<F>,
    event: Event,
    index: int,
)
    requires
        state.wf(),
        0 <= index < state.handle_actions(event).len(),
        state.handle_actions(event)[index] is ConfigureSurface,
    ensures
        state.handle_actions(event)[index] == Action::ConfigureSurface(
            state.handled(event).surface.config,
        ),
        state.handled(event).surface.config.submittable(),
        state.handled(event).surface.config.extent() == state.handled(event).surface.size,
{
    assert(state.surface.config.with_extent(state.surface.size) == state.surface.config);
}

/// Over any run of events the state stays valid, and every configuration
/// that the surface is ever configured with has neither a zero width nor a
/// zero height, and has the format, usage and presentation mode of the
/// start.
pub proof fn lemma_trace_never_submits_empty<F>(state: StateModel<F>, events: Seq<Event>)
    requires
        state.wf(),
    ensures
        state.after(events).wf(),
        state.after(events).surface.config == state.surface.config.with_extent(
            state.after(events).surface.size,
        ),
        forall|index: int|
            0 <= index < state.trace(events).len() ==> (
            #[trigger] state.trace(events)[index] matches Action::ConfigureSurface(config)
                ==> config.submittable() && config == state.surface.config.with_extent(
                config.extent(),
            )),
    decreases events.len(),
{
    if events.len() == 0 {
        assert(state.surface.config.with_extent(state.surface.size) == state.surface.config);
    } else {
        let earlier = events.drop_last();
        let before = state.after(earlier);
        lemma_trace_never_submits_empty(state, earlier);
        lemma_event_keeps_surface_valid(before, events.last());
        let head = state.trace(earlier);
        let tail = before.handle_actions(events.last());
        assert forall|index: int| 0 <= index < state.trace(events).len() implies (
        #[trigger] state.trace(events)[index] matches Action::ConfigureSurface(config)
            ==> config.submittable() && config == state.surface.config.with_extent(
            config.extent(),
        )) by {
            if index < head.len() {
                assert(state.trace(events)[index] == head[index]);
            } else {
                assert(state.trace(events)[index] == tail[index - head.len()]);
                if tail[index - head.len()] is ConfigureSurface {
                    lemma_event_configures_with_current(
                        before,
                        events.last(),
                        index - head.len(),
                    );
                }
            }
        }
    }
}

/// Over any run of events, every frame that is recorded is submitted and
/// presented, once each: the three occur equally often, and no other pass
/// than the clear pass is ever recorded.
pub proof fn lemma_frames_are_whole<F>(state: StateModel<F>, events: Seq<Event>)
    requires
        state.wf(),
    ensures
        occurrences(state.trace(events), Action::Submit) == occurrences(
            state.trace(events),
            Action::Present,
        ),
        occurrences(state.trace(events), Action::Record(RenderPass::clear_frame())) == occurrences(
            state.trace(events),
            Action::Present,
        ),
        forall|index: int|
            0 <= index < state.trace(events).len() && (#[trigger] state.trace(events)[index])
                is Record ==> state.trace(events)[index] == Action::<F>::Record(
                RenderPass::clear_frame(),
            ),
    decreases events.len(),
{
    if events.len() > 0 {
        let earlier = events.drop_last();
        let before = state.after(earlier);
        let head = state.trace(earlier);
        let tail = before.handle_actions(events.last());
        lemma_frames_are_whole(state, earlier);
        lemma_trace_never_submits_empty(state, earlier);
        lemma_occurrences_add(head, tail, Action::Submit);
        lemma_occurrences_add(head, tail, Action::Present);
        lemma_occurrences_add(head, tail, Action::Record(RenderPass::clear_frame()));
        lemma_occurrences_short(tail, Action::Submit);
        lemma_occurrences_short(tail, Action::Present);
        lemma_occurrences_short(tail, Action::Record(RenderPass::clear_frame()));
        assert forall|index: int|
            0 <= index < state.trace(events).len() && (#[trigger] state.trace(events)[index])
                is Record implies state.trace(events)[index] == Action::<F>::Record(
            RenderPass::clear_frame(),
        ) by {
            if index < head.len() {
                assert(state.trace(events)[index] == head[index]);
            } else {
                assert(state.trace(events)[index] == tail[index - head.len()]);
            }
        }
    }
}

} // verus!
