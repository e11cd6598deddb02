//! The protocol between a workflow session and its driver.
//!
//! A session never performs outside work itself. Instead each step returns
//! an [`Action`] telling the driver what to do next — call the adapter,
//! prompt the terminal, write a line, or finish — and the driver reports
//! what happened as the next [`Event`].

use vstd::prelude::*;
use crate::error::TuiError;
use crate::error::TuiErrorView;

verus! {

/// Spec-level view of a list of item names.
pub open spec fn names_view(v: Vec<String>) -> Seq<Seq<char>> {
    v@.map_values(|s: String| s@)
}

/// Whether `name` occurs in `names`.
pub open spec fn has_name(names: Seq<Seq<char>>, name: Seq<char>) -> bool {
    exists|i: int| 0 <= i < names.len() && names[i] == name
}

/// What the driver reports back to a session: the outcome of the previous
/// action, or `Begin` to start the run.
pub enum Event {
    /// Start the workflow.
    Begin,
    /// Outcome of `List`: the enumerated item names, or an adapter failure.
    Listed { result: Result<Vec<String>, TuiError> },
    /// Outcome of `ResolveName`: the explicit-or-default item name, or an
    /// adapter failure.
    Resolved { result: Result<String, TuiError> },
    /// Outcome of `Confirm`: the user's answer, or an interaction failure.
    Confirmed { result: Result<bool, TuiError> },
    /// Outcome of `Select`: the item names the user chose.
    Selected { names: Vec<String> },
    /// Outcome of `Inform`: whether the line was written.
    Informed { result: Result<(), TuiError> },
    /// Outcome of `ActOne` or `ActMany`.
    Acted { result: Result<(), TuiError> },
}

/// Spec-level value of an [`Event`].
pub enum EventView {
    Begin,
    Listed { result: Result<Seq<Seq<char>>, TuiErrorView> },
    Resolved { result: Result<Seq<char>, TuiErrorView> },
    Confirmed { result: Result<bool, TuiErrorView> },
    Selected { names: Seq<Seq<char>> },
    Informed { result: Result<(), TuiErrorView> },
    Acted { result: Result<(), TuiErrorView> },
}

impl View for Event {
    type V = EventView;

    open spec fn view(&self) -> EventView {
        match self {
            Event::Begin => EventView::Begin,
            Event::Listed { result } => (EventView::Listed {
                result: match result {
                    Ok(names) => Ok(names_view(*names)),
                    Err(e) => Err(e@),
                },
            }),
            Event::Resolved { result } => (EventView::Resolved {
                result: match result {
                    Ok(name) => Ok(name@),
                    Err(e) => Err(e@),
                },
            }),
            Event::Confirmed { result } => (EventView::Confirmed {
                result: match result {
                    Ok(answer) => Ok(*answer),
                    Err(e) => Err(e@),
                },
            }),
            Event::Selected { names } => (EventView::Selected { names: names_view(*names) }),
            Event::Informed { result } => (EventView::Informed {
                result: match result {
                    Ok(u) => Ok(*u),
                    Err(e) => Err(e@),
                },
            }),
            Event::Acted { result } => (EventView::Acted {
                result: match result {
                    Ok(u) => Ok(*u),
                    Err(e) => Err(e@),
                },
            }),
        }
    }
}

/// What a session asks its driver to do next.
pub enum Action {
    /// Ask the adapter to enumerate all item names.
    List,
    /// Ask the adapter for the explicit-or-default item name.
    ResolveName,
    /// Write one informational line.
    Inform { message: String },
    /// Ask the user the given yes/no question.
    Confirm { prompt: String },
    /// Ask the user to pick any number of the candidate names.
    Select { prompt: String, candidates: Vec<String> },
    /// Perform the show/delete action on one name.
    ActOne { name: String },
    /// Perform the show/delete action on a batch of names.
    ActMany { names: Vec<String> },
    /// The run is over, with the given outcome.
    Finish { result: Result<(), TuiError> },
}

/// Spec-level value of an [`Action`].
pub enum ActionView {
    List,
    ResolveName,
    Inform { message: Seq<char> },
    Confirm { prompt: Seq<char> },
    Select { prompt: Seq<char>, candidates: Seq<Seq<char>> },
    ActOne { name: Seq<char> },
    ActMany { names: Seq<Seq<char>> },
    Finish { result: Result<(), TuiErrorView> },
}

impl View for Action {
    type V = ActionView;

    open spec fn view(&self) -> ActionView {
        match self {
            Action::List => ActionView::List,
            Action::ResolveName => ActionView::ResolveName,
            Action::Inform { message } => (ActionView::Inform { message: message@ }),
            Action::Confirm { prompt } => (ActionView::Confirm { prompt: prompt@ }),
            Action::Select { prompt, candidates } => (ActionView::Select {
                prompt: prompt@,
                candidates: names_view(*candidates),
            }),
            Action::ActOne { name } => (ActionView::ActOne { name: name@ }),
            Action::ActMany { names } => (ActionView::ActMany { names: names_view(*names) }),
            Action::Finish { result } => (ActionView::Finish {
                result: match result {
                    Ok(u) => Ok(*u),
                    Err(e) => Err(e@),
                },
            }),
        }
    }
}

/// Whether the action calls the adapter's show/delete operation.
pub open spec fn is_adapter_action(a: ActionView) -> bool {
    a is ActOne || a is ActMany
}

/// Whether any action in the run calls the adapter's show/delete operation.
pub open spec fn has_adapter_action(actions: Seq<ActionView>) -> bool {
    exists|i: int| 0 <= i < actions.len() && is_adapter_action(#[trigger] actions[i])
}

/// Whether any action in the run prompts the user to select items.
pub open spec fn has_selection_prompt(actions: Seq<ActionView>) -> bool {
    exists|i: int| 0 <= i < actions.len() && (#[trigger] actions[i]) is Select
}

/// Whether any action in the run asks the user a yes/no question.
pub open spec fn has_confirmation_prompt(actions: Seq<ActionView>) -> bool {
    exists|i: int| 0 <= i < actions.len() && (#[trigger] actions[i]) is Confirm
}

/// Whether any action in the run writes an informational line.
pub open spec fn has_informational(actions: Seq<ActionView>) -> bool {
    exists|i: int| 0 <= i < actions.len() && (#[trigger] actions[i]) is Inform
}

/// Membership test on a list of item names, by string contents.
pub fn contains_name(names: &Vec<String>, name: &String) -> (b: bool)
    ensures
        b == has_name(names_view(*names), name@),
{
    let mut i: usize = 0;
    while i < names.len()
        invariant
            0 <= i <= names@.len(),
            forall|j: int| 0 <= j < i ==> names_view(*names)[j] != name@,
        decreases names@.len() - i,
    {
        if names[i] == *name {
            proof {
                assert(names_view(*names)[i as int] == name@);
            }
            return true;
        }
        i = i + 1;
    }
    false
}

} // verus!
