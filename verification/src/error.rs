//! The error taxonomy of the workflows.
//!
//! Only `NotFound` originates here: a resolved or explicit item name that is
//! absent from the enumerated set. Adapter failures (enumeration or action)
//! and interaction failures (a broken prompt or terminal write) are carried
//! through unchanged, as the message the outside layer reported.

use vstd::prelude::*;
use crate::message::not_found_text;
use crate::message::not_found_message;

verus! {

/// Spec-level value of a [`TuiError`].
pub enum TuiErrorView {
    NotFound { kind: Seq<char>, name: Seq<char> },
    Adapter { message: Seq<char> },
    Interaction { message: Seq<char> },
}

impl TuiErrorView {
    /// The user-facing message of the error.
    pub open spec fn text(self) -> Seq<char> {
        match self {
            TuiErrorView::NotFound { kind, name } => not_found_text(kind, name),
            TuiErrorView::Adapter { message } => message,
            TuiErrorView::Interaction { message } => message,
        }
    }
}

/// An error surfaced by a workflow run.
pub enum TuiError {
    /// The resolved or explicit item name is not in the enumerated set.
    NotFound { kind: String, name: String },
    /// An adapter call (enumeration, resolution, or action) failed.
    Adapter { message: String },
    /// A terminal interaction (prompt or line write) failed.
    Interaction { message: String },
}

impl View for TuiError {
    type V = TuiErrorView;

    open spec fn view(&self) -> TuiErrorView {
        match self {
            TuiError::NotFound { kind, name } => (TuiErrorView::NotFound {
                kind: kind@,
                name: name@,
            }),
            TuiError::Adapter { message } => (TuiErrorView::Adapter { message: message@ }),
            TuiError::Interaction { message } => (TuiErrorView::Interaction { message: message@ }),
        }
    }
}

impl TuiError {
    /// Renders the user-facing message; a not-found error reads
    /// "The {kind} {name} was not found".
    pub fn message(&self) -> (r: String)
        ensures
            r@ == self@.text(),
    {
        match self {
            TuiError::NotFound { kind, name } => not_found_message(kind, name),
            TuiError::Adapter { message } => message.clone(),
            TuiError::Interaction { message } => message.clone(),
        }
    }
}

} // verus!
