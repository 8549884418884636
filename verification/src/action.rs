//! What the renderer asks its caller to do.

use vstd::prelude::*;
use crate::frame::{AcquireOutcome, RenderPass};
use crate::surface::SurfaceConfig;

verus! {

/// One thing for the caller to carry out. The actions of one answer are
/// carried out in the order given, each to its end before the next begins.
#[derive(Clone, Copy, Debug, PartialEq, Eq)]
pub enum Action<F> {
    /// Configure the backend surface with this configuration.
    ConfigureSurface(SurfaceConfig<F>),
    /// Ask the backend for the next frame and report the answer to
    /// `State::render`.
    AcquireFrame,
    /// Open a command batch, record this pass over the view of the acquired
    /// frame, end the pass, and finish the batch into one command buffer.
    Record(RenderPass),
    /// Submit the recorded command buffer to the device's queue.
    Submit,
    /// Hand the acquired frame to the backend for presentation. The frame is
    /// gone afterwards.
    Present,
    /// Ask the window for another redraw.
    RequestRedraw,
    /// Report that acquiring a frame failed, with the backend's answer.
    Report(AcquireOutcome),
    /// Leave the event loop once the current event is done.
    Exit,
}

/// How often `action` stands in `trace`.
pub open spec fn occurrences<F>(trace: Seq<Action<F>>, action: Action<F>) -> nat
    decreases trace.len(),
{
    if trace.len() == 0 {
        0
    } else {
        let here: nat = if trace.last() == action {
            1
        } else {
            0
        };
        occurrences(trace.drop_last(), action) + here
    }
}

/// The occurrences in two traces, one after the other, add up.
pub proof fn lemma_occurrences_add<F>(
    first: Seq<Action<F>>,
    second: Seq<Action<F>>,
    action: Action<F>,
)
    ensures
        occurrences(first + second, action) == occurrences(first, action) + occurrences(
            second,
            action,
        ),
    decreases second.len(),
{
    if second.len() == 0 {
        assert(first + second =~= first);
    } else {
        assert((first + second).drop_last() =~= first + second.drop_last());
        lemma_occurrences_add(first, second.drop_last(), action);
    }
}

/// How often an action stands in a trace of at most three actions, place by
/// place.
pub proof fn lemma_occurrences_short<F>(trace: Seq<Action<F>>, action: Action<F>)
    requires
        trace.len() <= 3,
    ensures
        occurrences(trace, action) == (if trace.len() > 0 && trace[0] == action {
            1nat
        } else {
            0nat
        }) + (if trace.len() > 1 && trace[1] == action {
            1nat
        } else {
            0nat
        }) + (if trace.len() > 2 && trace[2] == action {
            1nat
        } else {
            0nat
        }),
    decreases trace.len(),
{
    if trace.len() > 0 {
        lemma_occurrences_short(trace.drop_last(), action);
    }
}

} // verus!
