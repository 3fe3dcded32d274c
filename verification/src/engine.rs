//! The engine: one request, the phase its run stands in, and the step that
//! moves it.

use vstd::prelude::*;
use crate::error::InjectionError;
use crate::laws::law_phase_determines_trace;
use crate::phase::{emit_text, transition, Phase, PhaseView, Transition};
use crate::protocol::{Directive, DirectiveView, Event, EventView};
use crate::request::{InjectionRequest, RequestView};
use crate::run::{run, RunView};

verus! {

/// Mathematical model of an [`Engine`]: its request, the events that have
/// moved it, the phase they have led to and the directives it has issued.
pub struct EngineView {
    pub request: RequestView,
    pub taken: Seq<EventView>,
    pub phase: PhaseView,
    pub trace: Seq<DirectiveView>,
}

impl EngineView {
    /// The engine stands where the run of its request over the events it has
    /// taken stands, and has issued what that run has issued. Every engine
    /// does, so whatever holds of all runs holds of every engine.
    pub open spec fn is_a_run(self) -> bool {
        run(self.request, self.taken) == (RunView { phase: self.phase, trace: self.trace })
    }
}

/// Where an engine stands, with the record of how it came there.
struct Standing {
    phase: Phase,
    taken: Ghost<Seq<EventView>>,
    issued: Ghost<Seq<DirectiveView>>,
}

/// One run of one request.
///
/// The engine performs no I/O. Its driver feeds it events, beginning with
/// [`Event::Start`], and carries out each directive that comes back, until
/// the directive is [`Directive::Finish`].
pub struct Engine {
    request: InjectionRequest,
    standing: Standing,
}

impl View for Engine {
    type V = EngineView;

    closed spec fn view(&self) -> EngineView {
        EngineView {
            request: self.request@,
            taken: self.standing.taken@,
            phase: self.standing.phase@,
            trace: self.standing.issued@,
        }
    }
}

/// The move that `event` makes in `phase`, if it makes one.
fn decide(request: &InjectionRequest, phase: &Phase, event: Event) -> (moved: Option<
    (Phase, Directive),
>)
    requires
        phase@.fits(request@),
    ensures
        match moved {
            Some((next, directive)) => transition(request@, phase@, event@) == Some(
                Transition { phase: next@, directive: directive@ },
            ),
            None => transition(request@, phase@, event@) is None,
        },
{
    match phase {
        Phase::Idle => match event {
            Event::Start => {
                if request.items.len() == 0 {
                    Some((Phase::Completed, Directive::Finish))
                } else {
                    Some((Phase::AcquiringDevice, Directive::AcquireDevice))
                }
            },
            _ => None,
        },
        Phase::AcquiringDevice => match event {
            Event::DeviceAcquired => Some(
                (Phase::InitialWait, Directive::Suspend { millis: request.initial_delay_ms }),
            ),
            Event::DeviceFailed { cause } => Some(
                (
                    Phase::Aborted { error: InjectionError::InputInitialization { cause } },
                    Directive::Finish,
                ),
            ),
            _ => None,
        },
        Phase::InitialWait => match event {
            Event::DelayElapsed => Some(begin_item(request, 0)),
            _ => None,
        },
        Phase::InterItemWait { next } => match event {
            Event::DelayElapsed => Some(begin_item(request, *next)),
            _ => None,
        },
        Phase::EmittingText { index } => match event {
            Event::TextEmitted => Some(
                (Phase::EmittingEnter { index: *index }, Directive::EmitEnter { index: *index }),
            ),
            Event::TextFailed { cause } => Some(
                (
                    Phase::Aborted { error: InjectionError::TextInput { index: *index, cause } },
                    Directive::Finish,
                ),
            ),
            _ => None,
        },
        Phase::EmittingEnter { index } => match event {
            Event::EnterEmitted => {
                let index: usize = *index;
                assert(index < request.items.len());
                if index + 1 < request.items.len() {
                    Some(
                        (
                            Phase::InterItemWait { next: index + 1 },
                            Directive::Suspend { millis: request.item_delay_ms },
                        ),
                    )
                } else {
                    Some((Phase::Completed, Directive::Finish))
                }
            },
            Event::EnterFailed { cause } => Some(
                (
                    Phase::Aborted { error: InjectionError::KeyEvent { index: *index, cause } },
                    Directive::Finish,
                ),
            ),
            _ => None,
        },
        Phase::Completed => None,
        Phase::Aborted { .. } => None,
    }
}

/// The phase and the directive with which the emission of item `index`
/// begins.
fn begin_item(request: &InjectionRequest, index: usize) -> (begun: (Phase, Directive))
    requires
        index < request.items.len(),
    ensures
        begun.0 == (Phase::EmittingText { index }),
        begun.1@ == emit_text(request@, index as nat),
{
    let text = request.items[index].clone();
    (Phase::EmittingText { index }, Directive::EmitText { index, text })
}

impl Engine {
    #[verifier::type_invariant]
    spec fn stands_in_its_run(&self) -> bool {
        self@.is_a_run()
    }

    /// An engine for `request`, with nothing done yet.
    pub fn new(request: InjectionRequest) -> (engine: Engine)
        ensures
            engine@ == (EngineView {
                request: request@,
                taken: Seq::empty(),
                phase: PhaseView::Idle,
                trace: Seq::empty(),
            }),
            engine@.is_a_run(),
    {
        Engine {
            request,
            standing: Standing {
                phase: Phase::Idle,
                taken: Ghost(Seq::empty()),
                issued: Ghost(Seq::empty()),
            },
        }
    }

    /// Takes one event and says what to do next.
    ///
    /// An event that answers what the engine was waiting for moves the run as
    /// [`transition`] says and yields the directive of that move. Any other
    /// event is ignored: the engine stays as it was and yields `None`.
    pub fn step(&mut self, event: Event) -> (next: Option<Directive>)
        ensures
            final(self)@.request == old(self)@.request,
            final(self)@.is_a_run(),
            match next {
                Some(directive) => {
                    &&& transition(old(self)@.request, old(self)@.phase, event@) == Some(
                        Transition { phase: final(self)@.phase, directive: directive@ },
                    )
                    &&& final(self)@.taken == old(self)@.taken.push(event@)
                    &&& final(self)@.trace == old(self)@.trace.push(directive@)
                },
                None => {
                    &&& transition(old(self)@.request, old(self)@.phase, event@) is None
                    &&& final(self)@ == old(self)@
                },
            },
    {
        proof {
            use_type_invariant(&*self);
            law_phase_determines_trace(self@.request, self@.taken);
        }
        let ghost reported = event@;
        match decide(&self.request, &self.standing.phase, event) {
            Some((phase, directive)) => {
                let ghost taken = self.standing.taken@.push(reported);
                let ghost issued = self.standing.issued@.push(directive@);
                proof {
                    assert(taken.drop_last() =~= self.standing.taken@);
                }
                self.standing = Standing { phase, taken: Ghost(taken), issued: Ghost(issued) };
                Some(directive)
            },
            None => None,
        }
    }

    /// The request that this engine runs.
    pub fn request(&self) -> (request: &InjectionRequest)
        ensures
            request@ == self@.request,
    {
        &self.request
    }

    /// The phase in which the run stands.
    pub fn phase(&self) -> (phase: &Phase)
        ensures
            phase@ == self@.phase,
            phase@.fits(self@.request),
            self@.is_a_run(),
    {
        proof {
            use_type_invariant(self);
            law_phase_determines_trace(self@.request, self@.taken);
        }
        &self.standing.phase
    }

    /// Whether the run is over.
    pub fn is_finished(&self) -> (finished: bool)
        ensures
            finished == self@.phase.is_terminal(),
    {
        match &self.standing.phase {
            Phase::Completed => true,
            Phase::Aborted { .. } => true,
            _ => false,
        }
    }

    /// Whether the driver has to hold the device exclusively right now. It
    /// does so from the text of an item to the Enter key that follows it, and
    /// at no other time.
    pub fn holds_exclusive_access(&self) -> (held: bool)
        ensures
            held == self@.phase.holds_exclusive_access(),
    {
        match &self.standing.phase {
            Phase::EmittingText { .. } => true,
            Phase::EmittingEnter { .. } => true,
            _ => false,
        }
    }

    /// How the run ended: `None` while it is not over, `Some(Ok(()))` once
    /// every item was delivered, `Some(Err(..))` with the failure that
    /// aborted it.
    pub fn outcome(&self) -> (outcome: Option<Result<(), &InjectionError>>)
        ensures
            self@.is_a_run(),
            match self@.phase {
                PhaseView::Completed => outcome == Some(Ok::<(), &InjectionError>(())),
                PhaseView::Aborted { error } => outcome matches Some(Err(e)) && e@ == error,
                _ => outcome is None,
            },
    {
        proof {
            use_type_invariant(self);
        }
        match &self.standing.phase {
            Phase::Completed => Some(Ok(())),
            Phase::Aborted { error } => Some(Err(error)),
            _ => None,
        }
    }
}

} // verus!
