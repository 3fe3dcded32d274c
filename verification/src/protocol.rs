//! The two vocabularies spoken between the engine and its driver: directives
//! go out, events come back.

use vstd::prelude::*;

verus! {

/// Mathematical model of a [`Directive`].
pub enum DirectiveView {
    AcquireDevice,
    Suspend { millis: u64 },
    EmitText { index: nat, text: Seq<char> },
    EmitEnter { index: nat },
    Finish,
}

/// What the driver has to do next.
#[derive(Debug, PartialEq, Eq)]
pub enum Directive {
    /// Obtain the virtual input device for this run.
    AcquireDevice,
    /// Suspend the run for `millis` milliseconds. The device is not held
    /// exclusively while the run sleeps.
    Suspend { millis: u64 },
    /// Take exclusive access to the device and insert `text`, the whole text
    /// of item `index`.
    EmitText { index: usize, text: String },
    /// Press and release Enter for item `index`, still under the exclusive
    /// access taken for its text.
    EmitEnter { index: usize },
    /// Nothing is left to do: release the device and read the outcome.
    Finish,
}

impl View for Directive {
    type V = DirectiveView;

    open spec fn view(&self) -> DirectiveView {
        match self {
            Directive::AcquireDevice => DirectiveView::AcquireDevice,
            Directive::Suspend { millis } => DirectiveView::Suspend { millis: *millis },
            Directive::EmitText { index, text } => DirectiveView::EmitText {
                index: *index as nat,
                text: text@,
            },
            Directive::EmitEnter { index } => DirectiveView::EmitEnter { index: *index as nat },
            Directive::Finish => DirectiveView::Finish,
        }
    }
}

impl Clone for Directive {
    fn clone(&self) -> (copy: Self)
        ensures
            copy@ == self@,
    {
        match self {
            Directive::AcquireDevice => Directive::AcquireDevice,
            Directive::Suspend { millis } => Directive::Suspend { millis: *millis },
            Directive::EmitText { index, text } => Directive::EmitText {
                index: *index,
                text: text.clone(),
            },
            Directive::EmitEnter { index } => Directive::EmitEnter { index: *index },
            Directive::Finish => Directive::Finish,
        }
    }
}

/// Mathematical model of an [`Event`].
pub enum EventView {
    Start,
    DeviceAcquired,
    DeviceFailed { cause: Seq<char> },
    DelayElapsed,
    TextEmitted,
    TextFailed { cause: Seq<char> },
    EnterEmitted,
    EnterFailed { cause: Seq<char> },
}

/// What the driver reports to the engine.
#[derive(Debug, PartialEq, Eq)]
pub enum Event {
    /// The caller wants the run to begin.
    Start,
    /// The device was obtained.
    DeviceAcquired,
    /// The device could not be obtained.
    DeviceFailed { cause: String },
    /// The suspension that was asked for is over.
    DelayElapsed,
    /// The device took the text.
    TextEmitted,
    /// The device rejected the text.
    TextFailed { cause: String },
    /// The device took the Enter key.
    EnterEmitted,
    /// The device rejected the Enter key.
    EnterFailed { cause: String },
}

impl View for Event {
    type V = EventView;

    open spec fn view(&self) -> EventView {
        match self {
            Event::Start => EventView::Start,
            Event::DeviceAcquired => EventView::DeviceAcquired,
            Event::DeviceFailed { cause } => EventView::DeviceFailed { cause: cause@ },
            Event::DelayElapsed => EventView::DelayElapsed,
            Event::TextEmitted => EventView::TextEmitted,
            Event::TextFailed { cause } => EventView::TextFailed { cause: cause@ },
            Event::EnterEmitted => EventView::EnterEmitted,
            Event::EnterFailed { cause } => EventView::EnterFailed { cause: cause@ },
        }
    }
}

impl Clone for Event {
    fn clone(&self) -> (copy: Self)
        ensures
            copy@ == self@,
    {
        match self {
            Event::Start => Event::Start,
            Event::DeviceAcquired => Event::DeviceAcquired,
            Event::DeviceFailed { cause } => Event::DeviceFailed { cause: cause.clone() },
            Event::DelayElapsed => Event::DelayElapsed,
            Event::TextEmitted => Event::TextEmitted,
            Event::TextFailed { cause } => Event::TextFailed { cause: cause.clone() },
            Event::EnterEmitted => Event::EnterEmitted,
            Event::EnterFailed { cause } => Event::EnterFailed { cause: cause.clone() },
        }
    }
}

} // verus!
