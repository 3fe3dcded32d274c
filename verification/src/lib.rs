//! A timed, serialized keystroke injection engine, written without I/O.
//!
//! The engine types a list of texts into whatever has keyboard focus, each
//! followed by Enter: it waits for an initial delay before the first text and
//! for an inter-item delay before each later one, and it stops at the first
//! failure of the device. It decides only; a driver outside this crate owns
//! the virtual input device and the timer, performs each directive and
//! reports back what came of it.
//!
//! - [`request`]: what a caller asks for.
//! - [`protocol`]: the directives that go out and the events that come back.
//! - [`phase`]: where a run stands, and the table of its transitions.
//! - [`engine`]: the executable state machine.
//! - [`error`]: the failures and the lines they are reported with.
//! - [`run`]: whole runs and their traces, as mathematics.
//! - [`laws`]: what is proved of every run.

pub mod engine;
pub mod error;
pub mod laws;
mod lemmas;
pub mod phase;
pub mod protocol;
pub mod request;
pub mod run;
