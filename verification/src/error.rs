//! The ways in which a run can fail.

use vstd::prelude::*;
use vstd::string::*;

verus! {

/// Mathematical model of an [`InjectionError`].
pub enum ErrorView {
    InputInitialization { cause: Seq<char> },
    TextInput { index: nat, cause: Seq<char> },
    KeyEvent { index: nat, cause: Seq<char> },
}

/// Why a run was aborted. Every failure is final: nothing is retried.
#[derive(Debug, PartialEq, Eq)]
pub enum InjectionError {
    /// The input device could not be obtained; no item had been touched yet.
    InputInitialization { cause: String },
    /// The device rejected the text of item `index`.
    TextInput { index: usize, cause: String },
    /// The device rejected the Enter key that follows item `index`.
    KeyEvent { index: usize, cause: String },
}

impl View for InjectionError {
    type V = ErrorView;

    open spec fn view(&self) -> ErrorView {
        match self {
            InjectionError::InputInitialization { cause } => ErrorView::InputInitialization {
                cause: cause@,
            },
            InjectionError::TextInput { index, cause } => ErrorView::TextInput {
                index: *index as nat,
                cause: cause@,
            },
            InjectionError::KeyEvent { index, cause } => ErrorView::KeyEvent {
                index: *index as nat,
                cause: cause@,
            },
        }
    }
}

impl Clone for InjectionError {
    fn clone(&self) -> (copy: Self)
        ensures
            copy@ == self@,
    {
        match self {
            InjectionError::InputInitialization { cause } => InjectionError::InputInitialization {
                cause: cause.clone(),
            },
            InjectionError::TextInput { index, cause } => InjectionError::TextInput {
                index: *index,
                cause: cause.clone(),
            },
            InjectionError::KeyEvent { index, cause } => InjectionError::KeyEvent {
                index: *index,
                cause: cause.clone(),
            },
        }
    }
}

impl ErrorView {
    /// The text that introduces the cause in the message of this class of failure.
    pub open spec fn prefix(self) -> Seq<char> {
        match self {
            ErrorView::InputInitialization { .. } => "Input initialization failed: "@,
            ErrorView::TextInput { .. } => "Text input failed: "@,
            ErrorView::KeyEvent { .. } => "Enter key failed: "@,
        }
    }

    /// The cause as the device reported it.
    pub open spec fn cause(self) -> Seq<char> {
        match self {
            ErrorView::InputInitialization { cause } => cause,
            ErrorView::TextInput { cause, .. } => cause,
            ErrorView::KeyEvent { cause, .. } => cause,
        }
    }

    /// The item that was being emitted, if the run had reached one.
    pub open spec fn item_index(self) -> Option<nat> {
        match self {
            ErrorView::InputInitialization { .. } => None,
            ErrorView::TextInput { index, .. } => Some(index),
            ErrorView::KeyEvent { index, .. } => Some(index),
        }
    }

    /// The single line shown to a caller: the class of the failure, then its cause.
    pub open spec fn message(self) -> Seq<char> {
        self.prefix() + self.cause()
    }
}

impl InjectionError {
    /// The human-readable line for this failure.
    pub fn message(&self) -> (text: String)
        ensures
            text@ == self@.message(),
    {
        match self {
            InjectionError::InputInitialization { cause } => {
                String::from_str("Input initialization failed: ").concat(cause.as_str())
            },
            InjectionError::TextInput { cause, .. } => {
                String::from_str("Text input failed: ").concat(cause.as_str())
            },
            InjectionError::KeyEvent { cause, .. } => {
                String::from_str("Enter key failed: ").concat(cause.as_str())
            },
        }
    }

    /// The index of the item that was being emitted when the run failed, or
    /// `None` when it failed before any item.
    pub fn item_index(&self) -> (index: Option<usize>)
        ensures
            match index {
                Some(i) => self@.item_index() == Some(i as nat),
                None => self@.item_index() is None,
            },
    {
        match self {
            InjectionError::InputInitialization { .. } => None,
            InjectionError::TextInput { index, .. } => Some(*index),
            InjectionError::KeyEvent { index, .. } => Some(*index),
        }
    }
}

} // verus!
