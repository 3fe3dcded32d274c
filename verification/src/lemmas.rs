//! The groundwork of the laws: how the trace of a run is built up round by
//! round, and what the selections keep of each part.

use vstd::prelude::*;
use crate::error::ErrorView;
use crate::phase::{emit_text, PhaseView};
use crate::protocol::DirectiveView;
use crate::request::RequestView;
use crate::run::{
    acquisition, acquisitions, emission, emissions, expected_emissions, expected_suspensions,
    history, progress, round, rounds, suspension, suspensions,
};

verus! {

/// Issuing the next directive of a round extends the progress by one part.
pub(crate) proof fn lemma_progress_within_round(request: RequestView, index: nat, part: nat)
    requires
        part < 3,
    ensures
        progress(request, index, part).push(round(request, index)[part as int]) == progress(
            request,
            index,
            (part + 1) as nat,
        ),
{
    let r = round(request, index);
    assert(r.take(part as int).push(r[part as int]) =~= r.take(part + 1 as int));
    assert(progress(request, index, part).push(r[part as int]) =~= progress(
        request,
        index,
        (part + 1) as nat,
    ));
}

/// A finished round is the start of the next one.
pub(crate) proof fn lemma_progress_between_rounds(request: RequestView, index: nat)
    ensures
        progress(request, index, 3) == progress(request, index + 1, 0),
        progress(request, index, 3) == seq![DirectiveView::AcquireDevice] + rounds(
            request,
            index + 1,
        ),
{
    let r = round(request, index);
    assert(r.take(3) =~= r);
    assert(round(request, index + 1).take(0) =~= Seq::<DirectiveView>::empty());
    assert(rounds(request, index + 1) == rounds(request, index) + r);
    assert(progress(request, index, 3) =~= progress(request, index + 1, 0));
    assert(progress(request, index, 3) =~= seq![DirectiveView::AcquireDevice] + rounds(
        request,
        index + 1,
    ));
}

/// Each round holds three directives.
pub(crate) proof fn lemma_rounds_len(request: RequestView, count: nat)
    ensures
        rounds(request, count).len() == 3 * count,
    decreases count,
{
    if count > 0 {
        lemma_rounds_len(request, (count - 1) as nat);
    }
}

/// What the three selections keep of a round, however far it has got.
pub(crate) proof fn lemma_round_measures(request: RequestView, index: nat, part: nat)
    requires
        part <= 3,
    ensures
        suspensions(round(request, index).take(part as int)) == if part == 0 {
            Seq::<DirectiveView>::empty()
        } else {
            seq![DirectiveView::Suspend { millis: request.delay_before(index) }]
        },
        emissions(round(request, index).take(part as int)) == if part <= 1 {
            Seq::<DirectiveView>::empty()
        } else if part == 2 {
            seq![emit_text(request, index)]
        } else {
            seq![emit_text(request, index), DirectiveView::EmitEnter { index }]
        },
        acquisitions(round(request, index).take(part as int)) == Seq::<DirectiveView>::empty(),
{
    let wait = DirectiveView::Suspend { millis: request.delay_before(index) };
    let text = emit_text(request, index);
    let enter = DirectiveView::EmitEnter { index };
    let none = Seq::<DirectiveView>::empty();
    let r = round(request, index);
    assert(none.filter(suspension()) == none && none.filter(emission()) == none && none.filter(
        acquisition(),
    ) == none) by {
        reveal(Seq::filter);
    }
    none.lemma_filter_push(wait, suspension());
    none.lemma_filter_push(wait, emission());
    none.lemma_filter_push(wait, acquisition());
    none.push(wait).lemma_filter_push(text, suspension());
    none.push(wait).lemma_filter_push(text, emission());
    none.push(wait).lemma_filter_push(text, acquisition());
    none.push(wait).push(text).lemma_filter_push(enter, suspension());
    none.push(wait).push(text).lemma_filter_push(enter, emission());
    none.push(wait).push(text).lemma_filter_push(enter, acquisition());
    assert(r.take(0) =~= none);
    assert(r.take(1) =~= none.push(wait));
    assert(r.take(2) =~= none.push(wait).push(text));
    assert(r.take(3) =~= none.push(wait).push(text).push(enter));
    assert(none.push(wait) =~= seq![wait]);
    assert(none.push(text) =~= seq![text]);
    assert(none.push(text).push(enter) =~= seq![text, enter]);
}

/// One more item adds one suspension and two emissions to what is expected.
pub(crate) proof fn lemma_expected_grows(request: RequestView, count: nat)
    ensures
        expected_suspensions(request, count + 1) == expected_suspensions(request, count).push(
            DirectiveView::Suspend { millis: request.delay_before(count) },
        ),
        expected_emissions(request, count + 1) == expected_emissions(request, count).push(
            emit_text(request, count),
        ).push(DirectiveView::EmitEnter { index: count }),
{
    assert(expected_suspensions(request, count + 1) =~= expected_suspensions(request, count).push(
        DirectiveView::Suspend { millis: request.delay_before(count) },
    ));
    assert(expected_emissions(request, count + 1) =~= expected_emissions(request, count).push(
        emit_text(request, count),
    ).push(DirectiveView::EmitEnter { index: count }));
}

/// What the three selections keep of the rounds of the first `count` items.
pub(crate) proof fn lemma_rounds_measures(request: RequestView, count: nat)
    ensures
        suspensions(rounds(request, count)) == expected_suspensions(request, count),
        emissions(rounds(request, count)) == expected_emissions(request, count),
        acquisitions(rounds(request, count)) == Seq::<DirectiveView>::empty(),
    decreases count,
{
    let none = Seq::<DirectiveView>::empty();
    if count == 0 {
        assert(none.filter(suspension()) == none && none.filter(emission()) == none
            && none.filter(acquisition()) == none) by {
            reveal(Seq::filter);
        }
        assert(expected_suspensions(request, 0) =~= none);
        assert(expected_emissions(request, 0) =~= none);
    } else {
        let done = (count - 1) as nat;
        let earlier = rounds(request, done);
        let last = round(request, done);
        lemma_rounds_measures(request, done);
        lemma_round_measures(request, done, 3);
        lemma_expected_grows(request, done);
        assert(last.take(3) =~= last);
        Seq::filter_distributes_over_add(earlier, last, suspension());
        Seq::filter_distributes_over_add(earlier, last, emission());
        Seq::filter_distributes_over_add(earlier, last, acquisition());
        assert(suspensions(rounds(request, count)) =~= expected_suspensions(request, count));
        assert(emissions(rounds(request, count)) =~= expected_emissions(request, count));
        assert(acquisitions(rounds(request, count)) =~= none);
    }
}

/// The selections of a run that is under way, split into what the finished
/// rounds gave and what the round in hand has given so far.
pub(crate) proof fn lemma_progress_splits(request: RequestView, index: nat, part: nat)
    ensures
        suspensions(progress(request, index, part)) == expected_suspensions(request, index)
            + suspensions(round(request, index).take(part as int)),
        emissions(progress(request, index, part)) == expected_emissions(request, index)
            + emissions(round(request, index).take(part as int)),
        acquisitions(progress(request, index, part)) == seq![DirectiveView::AcquireDevice]
            + acquisitions(round(request, index).take(part as int)),
{
    let none = Seq::<DirectiveView>::empty();
    let first = seq![DirectiveView::AcquireDevice];
    let earlier = rounds(request, index);
    let current = round(request, index).take(part as int);
    lemma_rounds_measures(request, index);
    assert(none.filter(suspension()) == none && none.filter(emission()) == none && none.filter(
        acquisition(),
    ) == none) by {
        reveal(Seq::filter);
    }
    assert(first == none.push(DirectiveView::AcquireDevice));
    none.lemma_filter_push(DirectiveView::AcquireDevice, suspension());
    none.lemma_filter_push(DirectiveView::AcquireDevice, emission());
    none.lemma_filter_push(DirectiveView::AcquireDevice, acquisition());
    assert(first.filter(suspension()) == none);
    assert(first.filter(emission()) == none);
    assert(first.filter(acquisition()) == first);
    Seq::filter_distributes_over_add(first, earlier, suspension());
    Seq::filter_distributes_over_add(first, earlier, emission());
    Seq::filter_distributes_over_add(first, earlier, acquisition());
    Seq::filter_distributes_over_add(first + earlier, current, suspension());
    Seq::filter_distributes_over_add(first + earlier, current, emission());
    Seq::filter_distributes_over_add(first + earlier, current, acquisition());
    assert(none + expected_suspensions(request, index) =~= expected_suspensions(request, index));
    assert(none + expected_emissions(request, index) =~= expected_emissions(request, index));
    assert(first + none =~= first);
}

/// What the three selections keep of a run that is under way.
pub(crate) proof fn lemma_progress_measures(request: RequestView, index: nat, part: nat)
    requires
        part <= 3,
    ensures
        part == 0 ==> suspensions(progress(request, index, part)) == expected_suspensions(
            request,
            index,
        ),
        part >= 1 ==> suspensions(progress(request, index, part)) == expected_suspensions(
            request,
            index + 1,
        ),
        part <= 1 ==> emissions(progress(request, index, part)) == expected_emissions(
            request,
            index,
        ),
        part == 2 ==> emissions(progress(request, index, part)) == expected_emissions(
            request,
            index,
        ).push(emit_text(request, index)),
        part == 3 ==> emissions(progress(request, index, part)) == expected_emissions(
            request,
            index + 1,
        ),
        acquisitions(progress(request, index, part)) == seq![DirectiveView::AcquireDevice],
{
    let wait = DirectiveView::Suspend { millis: request.delay_before(index) };
    let text = emit_text(request, index);
    let enter = DirectiveView::EmitEnter { index };
    let waits = expected_suspensions(request, index);
    let sent = expected_emissions(request, index);
    lemma_progress_splits(request, index, part);
    lemma_round_measures(request, index, part);
    lemma_expected_grows(request, index);
    assert(seq![DirectiveView::AcquireDevice] + Seq::<DirectiveView>::empty()
        =~= seq![DirectiveView::AcquireDevice]);
    if part == 0 {
        assert(waits + Seq::<DirectiveView>::empty() =~= waits);
    } else {
        assert(waits + seq![wait] =~= waits.push(wait));
    }
    if part <= 1 {
        assert(sent + Seq::<DirectiveView>::empty() =~= sent);
    } else if part == 2 {
        assert(sent + seq![text] =~= sent.push(text));
    } else {
        assert(sent + seq![text, enter] =~= sent.push(text).push(enter));
    }
}

/// A run that has come to its end issues `Finish`, which is neither a
/// suspension nor an emission nor an acquisition.
pub(crate) proof fn lemma_finish_is_unmeasured(trace: Seq<DirectiveView>)
    ensures
        suspensions(trace.push(DirectiveView::Finish)) == suspensions(trace),
        emissions(trace.push(DirectiveView::Finish)) == emissions(trace),
        acquisitions(trace.push(DirectiveView::Finish)) == acquisitions(trace),
{
    trace.lemma_filter_push(DirectiveView::Finish, suspension());
    trace.lemma_filter_push(DirectiveView::Finish, emission());
    trace.lemma_filter_push(DirectiveView::Finish, acquisition());
}

/// The selections keep nothing of a trace without directives.
pub(crate) proof fn lemma_nothing_is_unmeasured()
    ensures
        suspensions(Seq::<DirectiveView>::empty()) == Seq::<DirectiveView>::empty(),
        emissions(Seq::<DirectiveView>::empty()) == Seq::<DirectiveView>::empty(),
        acquisitions(Seq::<DirectiveView>::empty()) == Seq::<DirectiveView>::empty(),
{
    reveal(Seq::filter);
}

/// The selections of the history of a completed run.
pub(crate) proof fn lemma_completed_measures(request: RequestView)
    ensures
        suspensions(history(request, PhaseView::Completed)) == expected_suspensions(
            request,
            request.items.len(),
        ),
        emissions(history(request, PhaseView::Completed)) == expected_emissions(
            request,
            request.items.len(),
        ),
        acquisitions(history(request, PhaseView::Completed)).len() == if request.items.len()
            == 0 {
            0nat
        } else {
            1nat
        },
{
    let count = request.items.len();
    let none = Seq::<DirectiveView>::empty();
    if count == 0 {
        lemma_nothing_is_unmeasured();
        lemma_finish_is_unmeasured(none);
        assert(seq![DirectiveView::Finish] =~= none.push(DirectiveView::Finish));
        assert(expected_suspensions(request, 0) =~= none);
        assert(expected_emissions(request, 0) =~= none);
    } else {
        let script = seq![DirectiveView::AcquireDevice] + rounds(request, count);
        lemma_progress_measures(request, count, 0);
        assert(round(request, count).take(0) =~= none);
        assert(progress(request, count, 0) =~= script);
        lemma_finish_is_unmeasured(script);
    }
}

/// Before the first round the trace holds the acquisition alone.
pub(crate) proof fn lemma_progress_at_start(request: RequestView)
    ensures
        progress(request, 0, 0) == seq![DirectiveView::AcquireDevice],
{
    assert(rounds(request, 0) =~= Seq::<DirectiveView>::empty());
    assert(round(request, 0).take(0) =~= Seq::<DirectiveView>::empty());
    assert(progress(request, 0, 0) =~= seq![DirectiveView::AcquireDevice]);
}

/// Nothing is expected of a run before its first item.
pub(crate) proof fn lemma_expected_of_no_item(request: RequestView)
    ensures
        expected_suspensions(request, 0).len() == 0,
        expected_emissions(request, 0).len() == 0,
{
}

/// The trace of a run whose device could not be acquired.
pub(crate) proof fn lemma_failed_acquisition_trace(request: RequestView)
    ensures
        progress(request, 0, 0).push(DirectiveView::Finish) == seq![
            DirectiveView::AcquireDevice,
            DirectiveView::Finish,
        ],
{
    lemma_progress_at_start(request);
    assert(seq![DirectiveView::AcquireDevice].push(DirectiveView::Finish) =~= seq![
        DirectiveView::AcquireDevice,
        DirectiveView::Finish,
    ]);
}

/// The selections of the trace of a run whose device could not be acquired.
pub(crate) proof fn lemma_failed_acquisition_measures(request: RequestView)
    ensures
        emissions(progress(request, 0, 0).push(DirectiveView::Finish)).len() == 0,
        suspensions(progress(request, 0, 0).push(DirectiveView::Finish)).len() == 0,
{
    lemma_progress_measures(request, 0, 0);
    lemma_finish_is_unmeasured(progress(request, 0, 0));
    lemma_expected_of_no_item(request);
}

/// What is expected of fewer items opens what is expected of more.
pub(crate) proof fn lemma_expected_is_prefix(request: RequestView, fewer: nat, more: nat)
    requires
        fewer <= more,
    ensures
        expected_suspensions(request, fewer).is_prefix_of(expected_suspensions(request, more)),
        expected_emissions(request, fewer).is_prefix_of(expected_emissions(request, more)),
        fewer < more ==> expected_emissions(request, fewer).push(
            emit_text(request, fewer),
        ).is_prefix_of(expected_emissions(request, more)),
{
    let whole = expected_emissions(request, more);
    assert(expected_suspensions(request, fewer) =~= expected_suspensions(request, more).subrange(
        0,
        fewer as int,
    ));
    assert(expected_emissions(request, fewer) =~= whole.subrange(0, 2 * fewer as int));
    if fewer < more {
        assert(whole[2 * fewer as int] == emit_text(request, fewer));
        assert(expected_emissions(request, fewer).push(emit_text(request, fewer))
            =~= whole.subrange(0, 2 * fewer + 1 as int));
    }
}

/// What the selections keep of the history of a phase that fits the request
/// opens what a completed run shows.
pub(crate) proof fn lemma_history_is_in_order(request: RequestView, phase: PhaseView)
    requires
        phase.fits(request),
    ensures
        suspensions(history(request, phase)).is_prefix_of(
            expected_suspensions(request, request.items.len()),
        ),
        emissions(history(request, phase)).is_prefix_of(
            expected_emissions(request, request.items.len()),
        ),
        acquisitions(history(request, phase)).len() <= 1,
{
    let count = request.items.len();
    match phase {
        PhaseView::Idle => {
            lemma_nothing_is_unmeasured();
        },
        PhaseView::AcquiringDevice => {
            lemma_progress_measures(request, 0, 0);
            lemma_expected_is_prefix(request, 0, count);
        },
        PhaseView::InitialWait => {
            lemma_progress_measures(request, 0, 1);
            lemma_expected_is_prefix(request, 0, count);
            lemma_expected_is_prefix(request, 1, count);
        },
        PhaseView::InterItemWait { next } => {
            lemma_progress_measures(request, next, 1);
            lemma_expected_is_prefix(request, next, count);
            lemma_expected_is_prefix(request, next + 1, count);
        },
        PhaseView::EmittingText { index } => {
            lemma_progress_measures(request, index, 2);
            lemma_expected_is_prefix(request, index, count);
            lemma_expected_is_prefix(request, index + 1, count);
        },
        PhaseView::EmittingEnter { index } => {
            lemma_progress_measures(request, index, 3);
            lemma_expected_is_prefix(request, index + 1, count);
        },
        PhaseView::Completed => {
            lemma_completed_measures(request);
            lemma_expected_is_prefix(request, count, count);
        },
        PhaseView::Aborted { error } => {
            match error {
                ErrorView::InputInitialization { .. } => {
                    lemma_progress_measures(request, 0, 0);
                    lemma_finish_is_unmeasured(progress(request, 0, 0));
                    lemma_expected_is_prefix(request, 0, count);
                },
                ErrorView::TextInput { index, .. } => {
                    lemma_progress_measures(request, index, 2);
                    lemma_finish_is_unmeasured(progress(request, index, 2));
                    lemma_expected_is_prefix(request, index, count);
                    lemma_expected_is_prefix(request, index + 1, count);
                },
                ErrorView::KeyEvent { index, .. } => {
                    lemma_progress_measures(request, index, 3);
                    lemma_finish_is_unmeasured(progress(request, index, 3));
                    lemma_expected_is_prefix(request, index + 1, count);
                },
            }
        },
    }
}

} // verus!
