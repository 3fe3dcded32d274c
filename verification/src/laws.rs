//! What holds of every run, whatever the driver reports.

use vstd::prelude::*;
use crate::lemmas::{
    lemma_completed_measures, lemma_failed_acquisition_measures, lemma_failed_acquisition_trace,
    lemma_finish_is_unmeasured, lemma_history_is_in_order, lemma_nothing_is_unmeasured,
    lemma_progress_between_rounds, lemma_progress_measures, lemma_progress_within_round,
    lemma_rounds_len,
};
use crate::phase::{emit_text, transition, PhaseView, Transition};
use crate::protocol::{DirectiveView, EventView};
use crate::request::RequestView;
use crate::run::{
    acquisitions, emission, emissions, expected_emissions, expected_suspensions, history,
    progress, round, rounds, run, suspensions,
};

verus! {

/// A move of the engine leads from a phase that fits the request to one that
/// fits it, and the history of the new phase is that of the old one with the
/// directive of the move at its end.
pub proof fn law_transition_extends_history(
    request: RequestView,
    phase: PhaseView,
    event: EventView,
)
    requires
        phase.fits(request),
        transition(request, phase, event) is Some,
    ensures
        transition(request, phase, event)->0.phase.fits(request),
        history(request, transition(request, phase, event)->0.phase) == history(
            request,
            phase,
        ).push(transition(request, phase, event)->0.directive),
{
    let taken = transition(request, phase, event)->0;
    let before = history(request, phase);
    let after = history(request, taken.phase);
    match phase {
        PhaseView::Idle => {
            assert(after =~= before.push(taken.directive)) by {
                assert(rounds(request, 0) =~= Seq::<DirectiveView>::empty());
                assert(round(request, 0).take(0) =~= Seq::<DirectiveView>::empty());
            }
        },
        PhaseView::AcquiringDevice => {
            if taken.phase is InitialWait {
                lemma_progress_within_round(request, 0, 0);
            }
        },
        PhaseView::InitialWait => {
            lemma_progress_within_round(request, 0, 1);
        },
        PhaseView::InterItemWait { next } => {
            lemma_progress_within_round(request, next, 1);
        },
        PhaseView::EmittingText { index } => {
            if taken.phase is EmittingEnter {
                lemma_progress_within_round(request, index, 2);
            }
        },
        PhaseView::EmittingEnter { index } => {
            lemma_progress_between_rounds(request, index);
            if taken.phase is InterItemWait {
                lemma_progress_within_round(request, index + 1, 0);
            }
        },
        PhaseView::Completed => {},
        PhaseView::Aborted { .. } => {},
    }
}

/// The phase of a run tells its whole past: after any events, the phase fits
/// the request and the trace is the history of the phase.
pub proof fn law_phase_determines_trace(request: RequestView, events: Seq<EventView>)
    ensures
        run(request, events).phase.fits(request),
        run(request, events).trace == history(request, run(request, events).phase),
    decreases events.len(),
{
    if events.len() > 0 {
        law_phase_determines_trace(request, events.drop_last());
        let before = run(request, events.drop_last());
        if transition(request, before.phase, events.last()) is Some {
            law_transition_extends_history(request, before.phase, events.last());
        }
    }
}

/// An empty request does nothing. Its run never leaves `Idle` but to be
/// `Completed`; it acquires no device, never suspends and emits nothing; and
/// the first `Start` completes it.
pub proof fn law_empty_request_does_nothing(request: RequestView, events: Seq<EventView>)
    requires
        request.items.len() == 0,
    ensures
        run(request, events).phase is Idle || run(request, events).phase is Completed,
        run(request, events).phase is Idle ==> run(request, events).trace
            == Seq::<DirectiveView>::empty(),
        run(request, events).phase is Completed ==> run(request, events).trace
            == seq![DirectiveView::Finish],
        acquisitions(run(request, events).trace).len() == 0,
        suspensions(run(request, events).trace).len() == 0,
        emissions(run(request, events).trace).len() == 0,
        transition(request, PhaseView::Idle, EventView::Start) == Some(
            Transition { phase: PhaseView::Completed, directive: DirectiveView::Finish },
        ),
{
    law_phase_determines_trace(request, events);
    lemma_nothing_is_unmeasured();
    lemma_finish_is_unmeasured(Seq::empty());
    assert(seq![DirectiveView::Finish] =~= Seq::<DirectiveView>::empty().push(
        DirectiveView::Finish,
    ));
}

/// A run of one or more items that completes has gone by the script and by
/// nothing else: the device is acquired, then each item in turn has its
/// round, the wait before it, its text and Enter, and then the run finishes.
/// So each delay comes directly before the text of its item, and none comes
/// after the last item.
pub proof fn law_completed_run_follows_the_script(request: RequestView, events: Seq<EventView>)
    requires
        request.items.len() > 0,
        run(request, events).phase is Completed,
    ensures
        run(request, events).trace == seq![DirectiveView::AcquireDevice] + rounds(
            request,
            request.items.len(),
        ) + seq![DirectiveView::Finish],
        run(request, events).trace.len() == 3 * request.items.len() + 2,
{
    law_phase_determines_trace(request, events);
    let script = seq![DirectiveView::AcquireDevice] + rounds(request, request.items.len());
    assert(script.push(DirectiveView::Finish) =~= script + seq![DirectiveView::Finish]);
    lemma_rounds_len(request, request.items.len());
}

/// A run that completes has suspended exactly once per item: for the initial
/// delay before the first item, for the inter-item delay before each of the
/// others, and at no other time.
pub proof fn law_completed_run_suspends_once_per_item(
    request: RequestView,
    events: Seq<EventView>,
)
    requires
        run(request, events).phase is Completed,
    ensures
        suspensions(run(request, events).trace) == expected_suspensions(
            request,
            request.items.len(),
        ),
        suspensions(run(request, events).trace).len() == request.items.len(),
{
    law_phase_determines_trace(request, events);
    lemma_completed_measures(request);
}

/// A run that completes has emitted, for each item in the order of the
/// request, its text once and then Enter once, and nothing else; it has
/// acquired the device once if there was any item.
pub proof fn law_completed_run_emits_every_item_in_order(
    request: RequestView,
    events: Seq<EventView>,
)
    requires
        run(request, events).phase is Completed,
    ensures
        emissions(run(request, events).trace) == expected_emissions(request, request.items.len()),
        emissions(run(request, events).trace).len() == 2 * request.items.len(),
        acquisitions(run(request, events).trace).len() == if request.items.len() == 0 {
            0nat
        } else {
            1nat
        },
{
    law_phase_determines_trace(request, events);
    lemma_completed_measures(request);
}

/// If the device cannot be acquired, the run is over after that one attempt:
/// no text or key event is emitted and no delay is incurred.
pub proof fn law_failed_acquisition_emits_nothing(request: RequestView, events: Seq<EventView>)
    requires
        run(request, events).phase matches PhaseView::Aborted { error }
            && error is InputInitialization,
    ensures
        run(request, events).trace == seq![DirectiveView::AcquireDevice, DirectiveView::Finish],
        emissions(run(request, events).trace).len() == 0,
        suspensions(run(request, events).trace).len() == 0,
{
    law_phase_determines_trace(request, events);
    lemma_failed_acquisition_trace(request);
    lemma_failed_acquisition_measures(request);
}

/// If the run fails while it emits item `index`, every earlier item has been
/// emitted in full and in order, no later item has been touched, and the
/// failure names `index`. Of item `index` itself the text was attempted, and
/// Enter too if it was Enter that failed. The run has suspended once for
/// each item up to and including `index`.
pub proof fn law_failure_stops_at_its_item(
    request: RequestView,
    events: Seq<EventView>,
    index: nat,
)
    requires
        run(request, events).phase matches PhaseView::Aborted { error } && error.item_index()
            == Some(index),
    ensures
        index < request.items.len(),
        run(request, events).phase->error is TextInput ==> emissions(run(request, events).trace)
            == expected_emissions(request, index).push(emit_text(request, index)),
        run(request, events).phase->error is KeyEvent ==> emissions(run(request, events).trace)
            == expected_emissions(request, index + 1),
        suspensions(run(request, events).trace) == expected_suspensions(request, index + 1),
{
    law_phase_determines_trace(request, events);
    let error = run(request, events).phase->error;
    if error is TextInput {
        lemma_progress_measures(request, index, 2);
        lemma_finish_is_unmeasured(progress(request, index, 2));
    } else {
        lemma_progress_measures(request, index, 3);
        lemma_finish_is_unmeasured(progress(request, index, 3));
    }
}

/// At every moment of every run, order is kept. What has been emitted so far
/// is the beginning of what a completed run emits, so no item is skipped,
/// reordered or duplicated, and no Enter comes without its text before it;
/// the suspensions so far are the beginning of those of a completed run; and
/// the device is acquired at most once.
pub proof fn law_order_is_kept(request: RequestView, events: Seq<EventView>)
    ensures
        emissions(run(request, events).trace).is_prefix_of(
            expected_emissions(request, request.items.len()),
        ),
        suspensions(run(request, events).trace).is_prefix_of(
            expected_suspensions(request, request.items.len()),
        ),
        acquisitions(run(request, events).trace).len() <= 1,
{
    law_phase_determines_trace(request, events);
    lemma_history_is_in_order(request, run(request, events).phase);
}

/// The run holds the device exclusively exactly while an emission is under
/// way: a move enters such a phase if and only if its directive is a text or
/// key event. So no suspension, acquisition or finish holds it; and the move
/// that follows the text of an item is Enter for the same item or the end of
/// the run.
pub proof fn law_exclusive_access_is_scoped(
    request: RequestView,
    phase: PhaseView,
    event: EventView,
)
    requires
        transition(request, phase, event) is Some,
    ensures
        transition(request, phase, event)->0.phase.holds_exclusive_access() <==> emission()(
            transition(request, phase, event)->0.directive,
        ),
        phase matches PhaseView::EmittingText { index } ==> transition(
            request,
            phase,
            event,
        )->0.directive == (DirectiveView::EmitEnter { index }) || transition(
            request,
            phase,
            event,
        )->0.phase is Aborted,
{
}

/// A run that has come to its end stays as it is, whatever is reported to it
/// afterwards: after a failure nothing more is attempted.
pub proof fn law_finished_run_stays_finished(
    request: RequestView,
    events: Seq<EventView>,
    later: Seq<EventView>,
)
    requires
        run(request, events).phase.is_terminal(),
    ensures
        run(request, events + later) == run(request, events),
    decreases later.len(),
{
    if later.len() == 0 {
        assert(events + later =~= events);
    } else {
        law_finished_run_stays_finished(request, events, later.drop_last());
        assert((events + later).drop_last() =~= events + later.drop_last());
        assert((events + later).last() == later.last());
    }
}

/// How many moves a run in `phase` can still make at most.
pub open spec fn moves_left(request: RequestView, phase: PhaseView) -> nat {
    let count = request.items.len();
    match phase {
        PhaseView::Idle => 3 * count + 2,
        PhaseView::AcquiringDevice => 3 * count + 1,
        PhaseView::InitialWait => 3 * count,
        PhaseView::InterItemWait { next } => (3 * (count - next)) as nat,
        PhaseView::EmittingText { index } => (3 * (count - index) - 1) as nat,
        PhaseView::EmittingEnter { index } => (3 * (count - index) - 2) as nat,
        PhaseView::Completed => 0,
        PhaseView::Aborted { .. } => 0,
    }
}

/// Every run ends: each move brings the end nearer, and a phase is terminal
/// exactly when no move is left. Until then some report of the driver is
/// always accepted.
pub proof fn law_every_move_nears_the_end(request: RequestView, phase: PhaseView, event: EventView)
    requires
        phase.fits(request),
    ensures
        transition(request, phase, event) is Some ==> moves_left(
            request,
            transition(request, phase, event)->0.phase,
        ) < moves_left(request, phase),
        phase.is_terminal() <==> moves_left(request, phase) == 0,
        phase.is_terminal() ==> transition(request, phase, event) is None,
        !phase.is_terminal() ==> exists|accepted: EventView|
            transition(request, phase, accepted) is Some,
{
    match phase {
        PhaseView::Idle => {
            assert(transition(request, phase, EventView::Start) is Some);
        },
        PhaseView::AcquiringDevice => {
            assert(transition(request, phase, EventView::DeviceAcquired) is Some);
        },
        PhaseView::InitialWait => {
            assert(transition(request, phase, EventView::DelayElapsed) is Some);
        },
        PhaseView::InterItemWait { .. } => {
            assert(transition(request, phase, EventView::DelayElapsed) is Some);
        },
        PhaseView::EmittingText { .. } => {
            assert(transition(request, phase, EventView::TextEmitted) is Some);
        },
        PhaseView::EmittingEnter { .. } => {
            assert(transition(request, phase, EventView::EnterEmitted) is Some);
        },
        PhaseView::Completed => {},
        PhaseView::Aborted { .. } => {},
    }
}

} // verus!
