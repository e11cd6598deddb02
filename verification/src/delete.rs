//! The delete workflow.
//!
//! A [`DeleteCommandTui`] session resolves which item(s) a delete command
//! targets and gates every destructive action behind a confirmation. A
//! confirmation is granted without prompting when the caller preauthorized
//! it (a force flag); otherwise the driver is asked to prompt. Declining a
//! confirmation is a successful no-op, not an error. The whole decision
//! tree is the spec function [`delete_transition`], and
//! [`DeleteCommandTui::delete_step`] is proved to follow it exactly.

use vstd::prelude::*;
use crate::action::Action;
use crate::action::ActionView;
use crate::action::Event;
use crate::action::EventView;
use crate::action::contains_name;
use crate::action::has_name;
use crate::error::TuiError;
use crate::error::TuiErrorView;
use crate::message::delete_all_prompt;
use crate::message::delete_all_prompt_text;
use crate::message::no_items_to_delete_message;
use crate::message::no_items_to_delete_text;
use crate::message::none_selected_to_delete_message;
use crate::message::none_selected_to_delete_text;
use crate::message::proceed_prompt;
use crate::message::proceed_prompt_text;
use crate::message::select_to_delete_prompt;
use crate::message::select_to_delete_prompt_text;

verus! {

/// The invocation context of a delete run: the item-kind label, whether an
/// explicit target name was supplied, whether the terminal is interactive,
/// whether the whole set is targeted, and whether confirmation was
/// preauthorized (e.g. by a force flag).
pub struct DeleteCtxView {
    pub item_kind: Seq<char>,
    pub has_explicit_name: bool,
    pub interactive: bool,
    pub delete_all: bool,
    pub confirm_preauthorized: bool,
}

/// Where a delete run stands between two events.
pub enum DeleteStateView {
    /// Nothing happened yet; expects `Begin`.
    Ready,
    /// Enumeration is under way; expects `Listed`.
    Listing,
    /// The "delete all ...?" confirmation is open; `names` is the full
    /// enumerated set it would delete. Expects `Confirmed`.
    ConfirmingAll { names: Seq<Seq<char>> },
    /// Name resolution is under way; `names` is the enumerated set the
    /// resolved name is checked against. Expects `Resolved`.
    Resolving { names: Seq<Seq<char>> },
    /// The "proceed?" confirmation for one name is open; expects
    /// `Confirmed`.
    ConfirmingOne { name: Seq<char> },
    /// A multi-selection prompt is open; expects `Selected`.
    Selecting,
    /// The "proceed?" confirmation for a selected batch is open; expects
    /// `Confirmed`.
    ConfirmingMany { names: Seq<Seq<char>> },
    /// The "there are no ...s to delete" line is being written; expects
    /// `Informed`.
    InformingEmpty,
    /// The "no ...s selected to delete" line is being written; expects
    /// `Informed`.
    InformingNone,
    /// The delete action is running; expects `Acted`.
    Acting,
    /// The run is over.
    Finished,
}

/// Executable counterpart of [`DeleteStateView`].
pub enum DeleteState {
    Ready,
    Listing,
    ConfirmingAll { names: Vec<String> },
    Resolving { names: Vec<String> },
    ConfirmingOne { name: String },
    Selecting,
    ConfirmingMany { names: Vec<String> },
    InformingEmpty,
    InformingNone,
    Acting,
    Finished,
}

impl View for DeleteState {
    type V = DeleteStateView;

    open spec fn view(&self) -> DeleteStateView {
        match self {
            DeleteState::Ready => DeleteStateView::Ready,
            DeleteState::Listing => DeleteStateView::Listing,
            DeleteState::ConfirmingAll { names } => (DeleteStateView::ConfirmingAll {
                names: crate::action::names_view(*names),
            }),
            DeleteState::Resolving { names } => (DeleteStateView::Resolving {
                names: crate::action::names_view(*names),
            }),
            DeleteState::ConfirmingOne { name } => (DeleteStateView::ConfirmingOne {
                name: name@,
            }),
            DeleteState::Selecting => DeleteStateView::Selecting,
            DeleteState::ConfirmingMany { names } => (DeleteStateView::ConfirmingMany {
                names: crate::action::names_view(*names),
            }),
            DeleteState::InformingEmpty => DeleteStateView::InformingEmpty,
            DeleteState::InformingNone => DeleteStateView::InformingNone,
            DeleteState::Acting => DeleteStateView::Acting,
            DeleteState::Finished => DeleteStateView::Finished,
        }
    }
}

/// Whether a state expects the given event next.
pub open spec fn delete_accepts(s: DeleteStateView, e: EventView) -> bool {
    match (s, e) {
        (DeleteStateView::Ready, EventView::Begin) => true,
        (DeleteStateView::Listing, EventView::Listed { .. }) => true,
        (DeleteStateView::ConfirmingAll { .. }, EventView::Confirmed { .. }) => true,
        (DeleteStateView::Resolving { .. }, EventView::Resolved { .. }) => true,
        (DeleteStateView::ConfirmingOne { .. }, EventView::Confirmed { .. }) => true,
        (DeleteStateView::Selecting, EventView::Selected { .. }) => true,
        (DeleteStateView::ConfirmingMany { .. }, EventView::Confirmed { .. }) => true,
        (DeleteStateView::InformingEmpty, EventView::Informed { .. }) => true,
        (DeleteStateView::InformingNone, EventView::Informed { .. }) => true,
        (DeleteStateView::Acting, EventView::Acted { .. }) => true,
        _ => false,
    }
}

/// What a granted confirmation for one name leads to: the action itself,
/// or — when confirmation still has to be asked — the "proceed?" prompt.
pub open spec fn delete_one_gate(ctx: DeleteCtxView, name: Seq<char>) -> (
    DeleteStateView,
    ActionView,
) {
    if ctx.confirm_preauthorized {
        (DeleteStateView::Acting, ActionView::ActOne { name })
    } else {
        (
            DeleteStateView::ConfirmingOne { name },
            ActionView::Confirm { prompt: proceed_prompt_text() },
        )
    }
}

/// As [`delete_one_gate`], for a batch of names.
pub open spec fn delete_many_gate(ctx: DeleteCtxView, names: Seq<Seq<char>>) -> (
    DeleteStateView,
    ActionView,
) {
    if ctx.confirm_preauthorized {
        (DeleteStateView::Acting, ActionView::ActMany { names })
    } else {
        (
            DeleteStateView::ConfirmingMany { names },
            ActionView::Confirm { prompt: proceed_prompt_text() },
        )
    }
}

/// The decision tree of the delete workflow: from a state and the event
/// that answers it, the next state and the action the driver must perform.
///
/// On an event the state does not expect, the state is kept and the run is
/// told to finish; [`DeleteCommandTui::delete_step`] excludes that case by
/// precondition.
pub open spec fn delete_transition(ctx: DeleteCtxView, s: DeleteStateView, e: EventView) -> (
    DeleteStateView,
    ActionView,
) {
    match (s, e) {
        (DeleteStateView::Ready, EventView::Begin) => (
            DeleteStateView::Listing,
            ActionView::List,
        ),
        (DeleteStateView::Listing, EventView::Listed { result }) => match result {
            Err(err) => (
                DeleteStateView::Finished,
                ActionView::Finish { result: Err(err) },
            ),
            Ok(names) => if names.len() == 0 {
                (
                    DeleteStateView::InformingEmpty,
                    ActionView::Inform { message: no_items_to_delete_text(ctx.item_kind) },
                )
            } else if ctx.delete_all {
                if ctx.confirm_preauthorized {
                    (DeleteStateView::Acting, ActionView::ActMany { names })
                } else {
                    (
                        DeleteStateView::ConfirmingAll { names },
                        ActionView::Confirm { prompt: delete_all_prompt_text(ctx.item_kind) },
                    )
                }
            } else if ctx.has_explicit_name || !ctx.interactive {
                (DeleteStateView::Resolving { names }, ActionView::ResolveName)
            } else if names.len() == 1 {
                delete_one_gate(ctx, names[0])
            } else {
                (
                    DeleteStateView::Selecting,
                    ActionView::Select {
                        prompt: select_to_delete_prompt_text(ctx.item_kind),
                        candidates: names,
                    },
                )
            },
        },
        (DeleteStateView::ConfirmingAll { names }, EventView::Confirmed { result }) => match result {
            Err(err) => (
                DeleteStateView::Finished,
                ActionView::Finish { result: Err(err) },
            ),
            Ok(answer) => if answer {
                (DeleteStateView::Acting, ActionView::ActMany { names })
            } else {
                (
                    DeleteStateView::Finished,
                    ActionView::Finish { result: Ok(()) },
                )
            },
        },
        (DeleteStateView::Resolving { names }, EventView::Resolved { result }) => match result {
            Err(err) => (
                DeleteStateView::Finished,
                ActionView::Finish { result: Err(err) },
            ),
            Ok(name) => if has_name(names, name) {
                delete_one_gate(ctx, name)
            } else {
                (
                    DeleteStateView::Finished,
                    ActionView::Finish {
                        result: Err(TuiErrorView::NotFound { kind: ctx.item_kind, name }),
                    },
                )
            },
        },
        (DeleteStateView::ConfirmingOne { name }, EventView::Confirmed { result }) => match result {
            Err(err) => (
                DeleteStateView::Finished,
                ActionView::Finish { result: Err(err) },
            ),
            Ok(answer) => if answer {
                (DeleteStateView::Acting, ActionView::ActOne { name })
            } else {
                (
                    DeleteStateView::Finished,
                    ActionView::Finish { result: Ok(()) },
                )
            },
        },
        (DeleteStateView::Selecting, EventView::Selected { names }) => if names.len() == 0 {
            (
                DeleteStateView::InformingNone,
                ActionView::Inform { message: none_selected_to_delete_text(ctx.item_kind) },
            )
        } else if names.len() == 1 {
            delete_one_gate(ctx, names[0])
        } else {
            delete_many_gate(ctx, names)
        },
        (DeleteStateView::ConfirmingMany { names }, EventView::Confirmed { result }) => match result {
            Err(err) => (
                DeleteStateView::Finished,
                ActionView::Finish { result: Err(err) },
            ),
            Ok(answer) => if answer {
                (DeleteStateView::Acting, ActionView::ActMany { names })
            } else {
                (
                    DeleteStateView::Finished,
                    ActionView::Finish { result: Ok(()) },
                )
            },
        },
        (DeleteStateView::InformingEmpty, EventView::Informed { result }) => (
            DeleteStateView::Finished,
            ActionView::Finish { result },
        ),
        (DeleteStateView::InformingNone, EventView::Informed { result }) => (
            DeleteStateView::Finished,
            ActionView::Finish { result },
        ),
        (DeleteStateView::Acting, EventView::Acted { result }) => (
            DeleteStateView::Finished,
            ActionView::Finish { result },
        ),
        _ => (s, ActionView::Finish { result: Ok(()) }),
    }
}

/// A delete workflow session.
pub struct DeleteCommandTui {
    /// Human-readable singular label of the item kind, used in messages.
    pub item_kind: String,
    /// Whether the invocation explicitly named a target item.
    pub has_explicit_name: bool,
    /// Whether the terminal can accept interactive input.
    pub interactive: bool,
    /// Whether the invocation asked to delete every enumerated item.
    pub delete_all: bool,
    /// Whether the caller preauthorized confirmation (e.g. a force flag).
    pub confirm_preauthorized: bool,
    /// Where the run stands.
    pub state: DeleteState,
}

impl DeleteCommandTui {
    /// The invocation context of this session.
    pub open spec fn ctx(&self) -> DeleteCtxView {
        DeleteCtxView {
            item_kind: self.item_kind@,
            has_explicit_name: self.has_explicit_name,
            interactive: self.interactive,
            delete_all: self.delete_all,
            confirm_preauthorized: self.confirm_preauthorized,
        }
    }

    /// A fresh session; feed it `Event::Begin`.
    pub fn new(
        item_kind: String,
        has_explicit_name: bool,
        interactive: bool,
        delete_all: bool,
        confirm_preauthorized: bool,
    ) -> (r: Self)
        ensures
            r.ctx() == (DeleteCtxView {
                item_kind: item_kind@,
                has_explicit_name,
                interactive,
                delete_all,
                confirm_preauthorized,
            }),
            r.state@ is Ready,
    {
        DeleteCommandTui {
            item_kind,
            has_explicit_name,
            interactive,
            delete_all,
            confirm_preauthorized,
            state: DeleteState::Ready,
        }
    }

    /// Whether the session expects the given event next. A driver must not
    /// call [`Self::delete_step`] with an event this refuses.
    pub fn accepts(&self, event: &Event) -> (b: bool)
        ensures
            b == delete_accepts(self.state@, event@),
    {
        match (&self.state, event) {
            (DeleteState::Ready, Event::Begin) => true,
            (DeleteState::Listing, Event::Listed { .. }) => true,
            (DeleteState::ConfirmingAll { .. }, Event::Confirmed { .. }) => true,
            (DeleteState::Resolving { .. }, Event::Resolved { .. }) => true,
            (DeleteState::ConfirmingOne { .. }, Event::Confirmed { .. }) => true,
            (DeleteState::Selecting, Event::Selected { .. }) => true,
            (DeleteState::ConfirmingMany { .. }, Event::Confirmed { .. }) => true,
            (DeleteState::InformingEmpty, Event::Informed { .. }) => true,
            (DeleteState::InformingNone, Event::Informed { .. }) => true,
            (DeleteState::Acting, Event::Acted { .. }) => true,
            _ => false,
        }
    }

    /// The action or "proceed?" prompt a granted single-name deletion leads
    /// to, executably.
    fn one_gate(confirm_preauthorized: bool, name: String) -> (r: (DeleteState, Action))
        ensures
            forall|ctx: DeleteCtxView|
                ctx.confirm_preauthorized == confirm_preauthorized ==> (r.0@, r.1@)
                    == delete_one_gate(ctx, name@),
    {
        if confirm_preauthorized {
            (DeleteState::Acting, Action::ActOne { name })
        } else {
            let prompt = proceed_prompt();
            (DeleteState::ConfirmingOne { name }, Action::Confirm { prompt })
        }
    }

    /// As `one_gate`, for a batch of names.
    fn many_gate(confirm_preauthorized: bool, names: Vec<String>) -> (r: (DeleteState, Action))
        ensures
            forall|ctx: DeleteCtxView|
                ctx.confirm_preauthorized == confirm_preauthorized ==> (r.0@, r.1@)
                    == delete_many_gate(ctx, crate::action::names_view(names)),
    {
        if confirm_preauthorized {
            (DeleteState::Acting, Action::ActMany { names })
        } else {
            let prompt = proceed_prompt();
            (DeleteState::ConfirmingMany { names }, Action::Confirm { prompt })
        }
    }

    /// Advances the session by one decision, following
    /// [`delete_transition`].
    pub fn delete_step(self, event: Event) -> (r: (Self, Action))
        requires
            delete_accepts(self.state@, event@),
        ensures
            r.0.ctx() == self.ctx(),
            (r.0.state@, r.1@) == delete_transition(self.ctx(), self.state@, event@),
    {
        let DeleteCommandTui {
            item_kind,
            has_explicit_name,
            interactive,
            delete_all,
            confirm_preauthorized,
            state,
        } = self;
        let (state, action): (DeleteState, Action) = match (state, event) {
            (DeleteState::Ready, Event::Begin) => (DeleteState::Listing, Action::List),
            (DeleteState::Listing, Event::Listed { result }) => match result {
                Err(err) => (DeleteState::Finished, Action::Finish { result: Err(err) }),
                Ok(mut names) => if names.len() == 0 {
                    let message = no_items_to_delete_message(&item_kind);
                    (DeleteState::InformingEmpty, Action::Inform { message })
                } else if delete_all {
                    if confirm_preauthorized {
                        (DeleteState::Acting, Action::ActMany { names })
                    } else {
                        let prompt = delete_all_prompt(&item_kind);
                        (DeleteState::ConfirmingAll { names }, Action::Confirm { prompt })
                    }
                } else if has_explicit_name || !interactive {
                    (DeleteState::Resolving { names }, Action::ResolveName)
                } else if names.len() == 1 {
                    let name = names.remove(0);
                    Self::one_gate(confirm_preauthorized, name)
                } else {
                    let prompt = select_to_delete_prompt(&item_kind);
                    (DeleteState::Selecting, Action::Select { prompt, candidates: names })
                },
            },
            (DeleteState::ConfirmingAll { names }, Event::Confirmed { result }) => match result {
                Err(err) => (DeleteState::Finished, Action::Finish { result: Err(err) }),
                Ok(answer) => if answer {
                    (DeleteState::Acting, Action::ActMany { names })
                } else {
                    (DeleteState::Finished, Action::Finish { result: Ok(()) })
                },
            },
            (DeleteState::Resolving { names }, Event::Resolved { result }) => match result {
                Err(err) => (DeleteState::Finished, Action::Finish { result: Err(err) }),
                Ok(name) => if contains_name(&names, &name) {
                    Self::one_gate(confirm_preauthorized, name)
                } else {
                    let kind = item_kind.clone();
                    (
                        DeleteState::Finished,
                        Action::Finish { result: Err(TuiError::NotFound { kind, name }) },
                    )
                },
            },
            (DeleteState::ConfirmingOne { name }, Event::Confirmed { result }) => match result {
                Err(err) => (DeleteState::Finished, Action::Finish { result: Err(err) }),
                Ok(answer) => if answer {
                    (DeleteState::Acting, Action::ActOne { name })
                } else {
                    (DeleteState::Finished, Action::Finish { result: Ok(()) })
                },
            },
            (DeleteState::Selecting, Event::Selected { mut names }) => if names.len() == 0 {
                let message = none_selected_to_delete_message(&item_kind);
                (DeleteState::InformingNone, Action::Inform { message })
            } else if names.len() == 1 {
                let name = names.remove(0);
                Self::one_gate(confirm_preauthorized, name)
            } else {
                Self::many_gate(confirm_preauthorized, names)
            },
            (DeleteState::ConfirmingMany { names }, Event::Confirmed { result }) => match result {
                Err(err) => (DeleteState::Finished, Action::Finish { result: Err(err) }),
                Ok(answer) => if answer {
                    (DeleteState::Acting, Action::ActMany { names })
                } else {
                    (DeleteState::Finished, Action::Finish { result: Ok(()) })
                },
            },
            (DeleteState::InformingEmpty, Event::Informed { result }) => (
                DeleteState::Finished,
                Action::Finish { result },
            ),
            (DeleteState::InformingNone, Event::Informed { result }) => (
                DeleteState::Finished,
                Action::Finish { result },
            ),
            (DeleteState::Acting, Event::Acted { result }) => (
                DeleteState::Finished,
                Action::Finish { result },
            ),
            (state, _) => (state, Action::Finish { result: Ok(()) }),
        };
        (
            DeleteCommandTui {
                item_kind,
                has_explicit_name,
                interactive,
                delete_all,
                confirm_preauthorized,
                state,
            },
            action,
        )
    }
}

} // verus!
