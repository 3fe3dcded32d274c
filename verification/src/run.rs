//! Whole runs: what an engine has done after any sequence of events, and the
//! vocabulary in which the laws of the engine are stated.

use vstd::prelude::*;
use crate::error::ErrorView;
use crate::phase::{emit_text, transition, PhaseView};
use crate::protocol::{DirectiveView, EventView};
use crate::request::RequestView;

verus! {

/// A run so far: the phase it stands in and every directive it has issued,
/// oldest first.
pub struct RunView {
    pub phase: PhaseView,
    pub trace: Seq<DirectiveView>,
}

/// The run of `request` after the driver has reported `events`, in that order,
/// to an engine that started in [`PhaseView::Idle`]. Events that the engine
/// ignores leave no mark.
pub open spec fn run(request: RequestView, events: Seq<EventView>) -> RunView
    decreases events.len(),
{
    if events.len() == 0 {
        RunView { phase: PhaseView::Idle, trace: Seq::empty() }
    } else {
        let before = run(request, events.drop_last());
        match transition(request, before.phase, events.last()) {
            Some(taken) => RunView {
                phase: taken.phase,
                trace: before.trace.push(taken.directive),
            },
            None => before,
        }
    }
}

/// Selects the suspensions among directives.
pub open spec fn suspension() -> spec_fn(DirectiveView) -> bool {
    |d: DirectiveView| d is Suspend
}

/// Selects the text and key events among directives.
pub open spec fn emission() -> spec_fn(DirectiveView) -> bool {
    |d: DirectiveView| d is EmitText || d is EmitEnter
}

/// Selects the device acquisitions among directives.
pub open spec fn acquisition() -> spec_fn(DirectiveView) -> bool {
    |d: DirectiveView| d is AcquireDevice
}

/// The suspensions of a trace, in the order in which they were asked for.
pub open spec fn suspensions(trace: Seq<DirectiveView>) -> Seq<DirectiveView> {
    trace.filter(suspension())
}

/// The text and key events of a trace, in the order in which they were asked
/// for.
pub open spec fn emissions(trace: Seq<DirectiveView>) -> Seq<DirectiveView> {
    trace.filter(emission())
}

/// The device acquisitions of a trace.
pub open spec fn acquisitions(trace: Seq<DirectiveView>) -> Seq<DirectiveView> {
    trace.filter(acquisition())
}

/// The suspensions that go with the first `count` items: the initial delay,
/// then the inter-item delay `count - 1` times.
pub open spec fn expected_suspensions(request: RequestView, count: nat) -> Seq<DirectiveView> {
    Seq::new(count, |i: int| DirectiveView::Suspend { millis: request.delay_before(i as nat) })
}

/// The text and key events of the first `count` items: for each item in turn
/// its text, then Enter.
pub open spec fn expected_emissions(request: RequestView, count: nat) -> Seq<DirectiveView> {
    Seq::new(
        2 * count,
        |k: int|
            if k % 2 == 0 {
                emit_text(request, (k / 2) as nat)
            } else {
                DirectiveView::EmitEnter { index: (k / 2) as nat }
            },
    )
}

/// Everything that item `index` takes: the wait before it, its text, Enter.
pub open spec fn round(request: RequestView, index: nat) -> Seq<DirectiveView> {
    seq![
        DirectiveView::Suspend { millis: request.delay_before(index) },
        emit_text(request, index),
        DirectiveView::EmitEnter { index },
    ]
}

/// The rounds of the first `count` items, one after the other.
pub open spec fn rounds(request: RequestView, count: nat) -> Seq<DirectiveView>
    decreases count,
{
    if count == 0 {
        Seq::empty()
    } else {
        rounds(request, (count - 1) as nat) + round(request, (count - 1) as nat)
    }
}

/// The trace of a run that has acquired the device, finished the rounds of
/// the items before `index`, and issued the first `part` directives of the
/// round of item `index`.
pub open spec fn progress(request: RequestView, index: nat, part: nat) -> Seq<DirectiveView> {
    seq![DirectiveView::AcquireDevice] + rounds(request, index) + round(request, index).take(
        part as int,
    )
}

/// The one trace that leads a run of `request` to `phase`.
pub open spec fn history(request: RequestView, phase: PhaseView) -> Seq<DirectiveView> {
    match phase {
        PhaseView::Idle => Seq::empty(),
        PhaseView::AcquiringDevice => progress(request, 0, 0),
        PhaseView::InitialWait => progress(request, 0, 1),
        PhaseView::InterItemWait { next } => progress(request, next, 1),
        PhaseView::EmittingText { index } => progress(request, index, 2),
        PhaseView::EmittingEnter { index } => progress(request, index, 3),
        PhaseView::Completed => if request.items.len() == 0 {
            seq![DirectiveView::Finish]
        } else {
            (seq![DirectiveView::AcquireDevice] + rounds(request, request.items.len())).push(
                DirectiveView::Finish,
            )
        },
        PhaseView::Aborted { error } => match error {
            ErrorView::InputInitialization { .. } => progress(request, 0, 0).push(
                DirectiveView::Finish,
            ),
            ErrorView::TextInput { index, .. } => progress(request, index, 2).push(
                DirectiveView::Finish,
            ),
            ErrorView::KeyEvent { index, .. } => progress(request, index, 3).push(
                DirectiveView::Finish,
            ),
        },
    }
}

} // verus!
