//! Where a run stands, and the table of its transitions.

use vstd::prelude::*;
use crate::error::{ErrorView, InjectionError};
use crate::protocol::{DirectiveView, EventView};
use crate::request::RequestView;

verus! {

/// Mathematical model of a [`Phase`].
pub enum PhaseView {
    Idle,
    AcquiringDevice,
    InitialWait,
    EmittingText { index: nat },
    EmittingEnter { index: nat },
    InterItemWait { next: nat },
    Completed,
    Aborted { error: ErrorView },
}

/// Where a run stands.
///
/// A run starts in `Idle` and ends in `Completed` or `Aborted`. Emitting item
/// `index` takes two phases, one for its text and one for the Enter key that
/// follows it.
#[derive(Debug, PartialEq, Eq)]
pub enum Phase {
    /// Nothing has happened yet.
    Idle,
    /// The driver is obtaining the device.
    AcquiringDevice,
    /// The run sleeps before the first item.
    InitialWait,
    /// The driver is inserting the text of item `index`.
    EmittingText { index: usize },
    /// The driver is pressing Enter after item `index`.
    EmittingEnter { index: usize },
    /// The run sleeps before item `next`, which is not the first.
    InterItemWait { next: usize },
    /// Every item was delivered.
    Completed,
    /// The run failed; nothing more will be emitted.
    Aborted { error: InjectionError },
}

impl View for Phase {
    type V = PhaseView;

    open spec fn view(&self) -> PhaseView {
        match self {
            Phase::Idle => PhaseView::Idle,
            Phase::AcquiringDevice => PhaseView::AcquiringDevice,
            Phase::InitialWait => PhaseView::InitialWait,
            Phase::EmittingText { index } => PhaseView::EmittingText { index: *index as nat },
            Phase::EmittingEnter { index } => PhaseView::EmittingEnter { index: *index as nat },
            Phase::InterItemWait { next } => PhaseView::InterItemWait { next: *next as nat },
            Phase::Completed => PhaseView::Completed,
            Phase::Aborted { error } => PhaseView::Aborted { error: error@ },
        }
    }
}

impl Clone for Phase {
    fn clone(&self) -> (copy: Self)
        ensures
            copy@ == self@,
    {
        match self {
            Phase::Idle => Phase::Idle,
            Phase::AcquiringDevice => Phase::AcquiringDevice,
            Phase::InitialWait => Phase::InitialWait,
            Phase::EmittingText { index } => Phase::EmittingText { index: *index },
            Phase::EmittingEnter { index } => Phase::EmittingEnter { index: *index },
            Phase::InterItemWait { next } => Phase::InterItemWait { next: *next },
            Phase::Completed => Phase::Completed,
            Phase::Aborted { error } => Phase::Aborted { error: error.clone() },
        }
    }
}

impl PhaseView {
    /// The run is over: no event is accepted any more.
    pub open spec fn is_terminal(self) -> bool {
        self is Completed || self is Aborted
    }

    /// The run has exclusive access to the device: it is in the middle of
    /// emitting one item.
    pub open spec fn holds_exclusive_access(self) -> bool {
        self is EmittingText || self is EmittingEnter
    }

    /// The phase can occur in a run of `request`: it names no item that the
    /// request lacks, and only an empty request completes without a device.
    pub open spec fn fits(self, request: RequestView) -> bool {
        match self {
            PhaseView::Idle => true,
            PhaseView::AcquiringDevice => request.items.len() > 0,
            PhaseView::InitialWait => request.items.len() > 0,
            PhaseView::EmittingText { index } => index < request.items.len(),
            PhaseView::EmittingEnter { index } => index < request.items.len(),
            PhaseView::InterItemWait { next } => 0 < next < request.items.len(),
            PhaseView::Completed => true,
            PhaseView::Aborted { error } => match error {
                ErrorView::InputInitialization { .. } => request.items.len() > 0,
                ErrorView::TextInput { index, .. } => index < request.items.len(),
                ErrorView::KeyEvent { index, .. } => index < request.items.len(),
            },
        }
    }
}

/// One move of the engine: the phase it enters and the directive it issues.
pub struct Transition {
    pub phase: PhaseView,
    pub directive: DirectiveView,
}

/// The directive that starts the emission of item `index`.
pub open spec fn emit_text(request: RequestView, index: nat) -> DirectiveView {
    DirectiveView::EmitText { index, text: request.items[index as int] }
}

/// The whole engine as a table: what `event` does to a run of `request` that
/// stands in `phase`. `None` where the event answers nothing that the phase
/// was waiting for; such an event is ignored.
pub open spec fn transition(request: RequestView, phase: PhaseView, event: EventView) -> Option<
    Transition,
> {
    match (phase, event) {
        (PhaseView::Idle, EventView::Start) => Some(
            if request.items.len() == 0 {
                Transition { phase: PhaseView::Completed, directive: DirectiveView::Finish }
            } else {
                Transition {
                    phase: PhaseView::AcquiringDevice,
                    directive: DirectiveView::AcquireDevice,
                }
            },
        ),
        (PhaseView::AcquiringDevice, EventView::DeviceAcquired) => Some(
            Transition {
                phase: PhaseView::InitialWait,
                directive: DirectiveView::Suspend { millis: request.initial_delay_ms },
            },
        ),
        (PhaseView::AcquiringDevice, EventView::DeviceFailed { cause }) => Some(
            Transition {
                phase: PhaseView::Aborted { error: ErrorView::InputInitialization { cause } },
                directive: DirectiveView::Finish,
            },
        ),
        (PhaseView::InitialWait, EventView::DelayElapsed) => Some(
            Transition {
                phase: PhaseView::EmittingText { index: 0 },
                directive: emit_text(request, 0),
            },
        ),
        (PhaseView::InterItemWait { next }, EventView::DelayElapsed) => Some(
            Transition {
                phase: PhaseView::EmittingText { index: next },
                directive: emit_text(request, next),
            },
        ),
        (PhaseView::EmittingText { index }, EventView::TextEmitted) => Some(
            Transition {
                phase: PhaseView::EmittingEnter { index },
                directive: DirectiveView::EmitEnter { index },
            },
        ),
        (PhaseView::EmittingText { index }, EventView::TextFailed { cause }) => Some(
            Transition {
                phase: PhaseView::Aborted { error: ErrorView::TextInput { index, cause } },
                directive: DirectiveView::Finish,
            },
        ),
        (PhaseView::EmittingEnter { index }, EventView::EnterEmitted) => Some(
            if index + 1 < request.items.len() {
                Transition {
                    phase: PhaseView::InterItemWait { next: index + 1 },
                    directive: DirectiveView::Suspend { millis: request.item_delay_ms },
                }
            } else {
                Transition { phase: PhaseView::Completed, directive: DirectiveView::Finish }
            },
        ),
        (PhaseView::EmittingEnter { index }, EventView::EnterFailed { cause }) => Some(
            Transition {
                phase: PhaseView::Aborted { error: ErrorView::KeyEvent { index, cause } },
                directive: DirectiveView::Finish,
            },
        ),
        _ => None,
    }
}

} // verus!
