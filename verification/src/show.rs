//! The show workflow.
//!
//! A [`ShowCommandTui`] session resolves which item(s) a show command
//! targets. Fed the outcome of each outside call as an [`Event`], it
//! answers with the next [`Action`]: enumerate, resolve, prompt, act on one
//! or many names, or finish. The whole decision tree is the spec function
//! [`show_transition`], and [`ShowCommandTui::show_step`] is proved to
//! follow it exactly.

use vstd::prelude::*;
use crate::action::Action;
use crate::action::ActionView;
use crate::action::Event;
use crate::action::EventView;
use crate::action::contains_name;
use crate::action::has_name;
use crate::error::TuiError;
use crate::error::TuiErrorView;
use crate::message::no_items_to_show_message;
use crate::message::no_items_to_show_text;
use crate::message::none_selected_to_show_message;
use crate::message::none_selected_to_show_text;
use crate::message::select_to_show_prompt;
use crate::message::select_to_show_prompt_text;

verus! {

/// The invocation context of a show run: the item-kind label used in
/// messages, whether the invocation named a target item explicitly, and
/// whether the terminal can accept interactive input.
pub struct ShowCtxView {
    pub item_kind: Seq<char>,
    pub has_explicit_name: bool,
    pub interactive: bool,
}

/// Where a show run stands between two events.
pub enum ShowStateView {
    /// Nothing happened yet; expects `Begin`.
    Ready,
    /// Enumeration is under way; expects `Listed`.
    Listing,
    /// Name resolution is under way; `names` is the enumerated set the
    /// resolved name is checked against. Expects `Resolved`.
    Resolving { names: Seq<Seq<char>> },
    /// A multi-selection prompt is open; expects `Selected`.
    Selecting,
    /// The "there are no ... to show" line is being written; expects
    /// `Informed`.
    InformingEmpty,
    /// The "no ... selected to show" line is being written; expects
    /// `Informed`.
    InformingNone,
    /// The show action is running; expects `Acted`.
    Acting,
    /// The run is over.
    Finished,
}

/// Executable counterpart of [`ShowStateView`].
pub enum ShowState {
    Ready,
    Listing,
    Resolving { names: Vec<String> },
    Selecting,
    InformingEmpty,
    InformingNone,
    Acting,
    Finished,
}

impl View for ShowState {
    type V = ShowStateView;

    open spec fn view(&self) -> ShowStateView {
        match self {
            ShowState::Ready => ShowStateView::Ready,
            ShowState::Listing => ShowStateView::Listing,
            ShowState::Resolving { names } => (ShowStateView::Resolving {
                names: crate::action::names_view(*names),
            }),
            ShowState::Selecting => ShowStateView::Selecting,
            ShowState::InformingEmpty => ShowStateView::InformingEmpty,
            ShowState::InformingNone => ShowStateView::InformingNone,
            ShowState::Acting => ShowStateView::Acting,
            ShowState::Finished => ShowStateView::Finished,
        }
    }
}

/// Whether a state expects the given event next.
pub open spec fn show_accepts(s: ShowStateView, e: EventView) -> bool {
    match (s, e) {
        (ShowStateView::Ready, EventView::Begin) => true,
        (ShowStateView::Listing, EventView::Listed { .. }) => true,
        (ShowStateView::Resolving { .. }, EventView::Resolved { .. }) => true,
        (ShowStateView::Selecting, EventView::Selected { .. }) => true,
        (ShowStateView::InformingEmpty, EventView::Informed { .. }) => true,
        (ShowStateView::InformingNone, EventView::Informed { .. }) => true,
        (ShowStateView::Acting, EventView::Acted { .. }) => true,
        _ => false,
    }
}

/// The decision tree of the show workflow: from a state and the event that
/// answers it, the next state and the action the driver must perform.
///
/// On an event the state does not expect, the state is kept and the run is
/// told to finish; [`ShowCommandTui::show_step`] excludes that case by
/// precondition.
pub open spec fn show_transition(ctx: ShowCtxView, s: ShowStateView, e: EventView) -> (
    ShowStateView,
    ActionView,
) {
    match (s, e) {
        (ShowStateView::Ready, EventView::Begin) => (ShowStateView::Listing, ActionView::List),
        (ShowStateView::Listing, EventView::Listed { result }) => match result {
            Err(err) => (
                ShowStateView::Finished,
                ActionView::Finish { result: Err(err) },
            ),
            Ok(names) => if names.len() == 0 {
                (
                    ShowStateView::InformingEmpty,
                    ActionView::Inform { message: no_items_to_show_text(ctx.item_kind) },
                )
            } else if ctx.has_explicit_name || !ctx.interactive {
                (ShowStateView::Resolving { names }, ActionView::ResolveName)
            } else if names.len() == 1 {
                (ShowStateView::Acting, ActionView::ActOne { name: names[0] })
            } else {
                (
                    ShowStateView::Selecting,
                    ActionView::Select {
                        prompt: select_to_show_prompt_text(ctx.item_kind),
                        candidates: names,
                    },
                )
            },
        },
        (ShowStateView::Resolving { names }, EventView::Resolved { result }) => match result {
            Err(err) => (
                ShowStateView::Finished,
                ActionView::Finish { result: Err(err) },
            ),
            Ok(name) => if has_name(names, name) {
                (ShowStateView::Acting, ActionView::ActOne { name })
            } else {
                (
                    ShowStateView::Finished,
                    ActionView::Finish {
                        result: Err(TuiErrorView::NotFound { kind: ctx.item_kind, name }),
                    },
                )
            },
        },
        (ShowStateView::Selecting, EventView::Selected { names }) => if names.len() == 0 {
            (
                ShowStateView::InformingNone,
                ActionView::Inform { message: none_selected_to_show_text(ctx.item_kind) },
            )
        } else if names.len() == 1 {
            (ShowStateView::Acting, ActionView::ActOne { name: names[0] })
        } else {
            (ShowStateView::Acting, ActionView::ActMany { names })
        },
        (ShowStateView::InformingEmpty, EventView::Informed { result }) => (
            ShowStateView::Finished,
            ActionView::Finish { result },
        ),
        (ShowStateView::InformingNone, EventView::Informed { result }) => (
            ShowStateView::Finished,
            ActionView::Finish { result },
        ),
        (ShowStateView::Acting, EventView::Acted { result }) => (
            ShowStateView::Finished,
            ActionView::Finish { result },
        ),
        _ => (s, ActionView::Finish { result: Ok(()) }),
    }
}

/// A show workflow session.
pub struct ShowCommandTui {
    /// Human-readable singular label of the item kind, used in messages.
    pub item_kind: String,
    /// Whether the invocation explicitly named a target item.
    pub has_explicit_name: bool,
    /// Whether the terminal can accept interactive input.
    pub interactive: bool,
    /// Where the run stands.
    pub state: ShowState,
}

impl ShowCommandTui {
    /// The invocation context of this session.
    pub open spec fn ctx(&self) -> ShowCtxView {
        ShowCtxView {
            item_kind: self.item_kind@,
            has_explicit_name: self.has_explicit_name,
            interactive: self.interactive,
        }
    }

    /// A fresh session; feed it `Event::Begin`.
    pub fn new(item_kind: String, has_explicit_name: bool, interactive: bool) -> (r: Self)
        ensures
            r.ctx() == (ShowCtxView { item_kind: item_kind@, has_explicit_name, interactive }),
            r.state@ is Ready,
    {
        ShowCommandTui { item_kind, has_explicit_name, interactive, state: ShowState::Ready }
    }

    /// Whether the session expects the given event next. A driver must not
    /// call [`Self::show_step`] with an event this refuses.
    pub fn accepts(&self, event: &Event) -> (b: bool)
        ensures
            b == show_accepts(self.state@, event@),
    {
        match (&self.state, event) {
            (ShowState::Ready, Event::Begin) => true,
            (ShowState::Listing, Event::Listed { .. }) => true,
            (ShowState::Resolving { .. }, Event::Resolved { .. }) => true,
            (ShowState::Selecting, Event::Selected { .. }) => true,
            (ShowState::InformingEmpty, Event::Informed { .. }) => true,
            (ShowState::InformingNone, Event::Informed { .. }) => true,
            (ShowState::Acting, Event::Acted { .. }) => true,
            _ => false,
        }
    }

    /// Advances the session by one decision, following [`show_transition`].
    pub fn show_step(self, event: Event) -> (r: (Self, Action))
        requires
            show_accepts(self.state@, event@),
        ensures
            r.0.ctx() == self.ctx(),
            (r.0.state@, r.1@) == show_transition(self.ctx(), self.state@, event@),
    {
        let ShowCommandTui { item_kind, has_explicit_name, interactive, state } = self;
        match (state, event) {
            (ShowState::Ready, Event::Begin) => (
                ShowCommandTui {
                    item_kind,
                    has_explicit_name,
                    interactive,
                    state: ShowState::Listing,
                },
                Action::List,
            ),
            (ShowState::Listing, Event::Listed { result }) => match result {
                Err(err) => (
                    ShowCommandTui {
                        item_kind,
                        has_explicit_name,
                        interactive,
                        state: ShowState::Finished,
                    },
                    Action::Finish { result: Err(err) },
                ),
                Ok(mut names) => if names.len() == 0 {
                    let message = no_items_to_show_message(&item_kind);
                    (
                        ShowCommandTui {
                            item_kind,
                            has_explicit_name,
                            interactive,
                            state: ShowState::InformingEmpty,
                        },
                        Action::Inform { message },
                    )
                } else if has_explicit_name || !interactive {
                    (
                        ShowCommandTui {
                            item_kind,
                            has_explicit_name,
                            interactive,
                            state: ShowState::Resolving { names },
                        },
                        Action::ResolveName,
                    )
                } else if names.len() == 1 {
                    let name = names.remove(0);
                    (
                        ShowCommandTui {
                            item_kind,
                            has_explicit_name,
                            interactive,
                            state: ShowState::Acting,
                        },
                        Action::ActOne { name },
                    )
                } else {
                    let prompt = select_to_show_prompt(&item_kind);
                    (
                        ShowCommandTui {
                            item_kind,
                            has_explicit_name,
                            interactive,
                            state: ShowState::Selecting,
                        },
                        Action::Select { prompt, candidates: names },
                    )
                },
            },
            (ShowState::Resolving { names }, Event::Resolved { result }) => match result {
                Err(err) => (
                    ShowCommandTui {
                        item_kind,
                        has_explicit_name,
                        interactive,
                        state: ShowState::Finished,
                    },
                    Action::Finish { result: Err(err) },
                ),
                Ok(name) => if contains_name(&names, &name) {
                    (
                        ShowCommandTui {
                            item_kind,
                            has_explicit_name,
                            interactive,
                            state: ShowState::Acting,
                        },
                        Action::ActOne { name },
                    )
                } else {
                    let kind = item_kind.clone();
                    (
                        ShowCommandTui {
                            item_kind,
                            has_explicit_name,
                            interactive,
                            state: ShowState::Finished,
                        },
                        Action::Finish { result: Err(TuiError::NotFound { kind, name }) },
                    )
                },
            },
            (ShowState::Selecting, Event::Selected { mut names }) => if names.len() == 0 {
                let message = none_selected_to_show_message(&item_kind);
                (
                    ShowCommandTui {
                        item_kind,
                        has_explicit_name,
                        interactive,
                        state: ShowState::InformingNone,
                    },
                    Action::Inform { message },
                )
            } else if names.len() == 1 {
                let name = names.remove(0);
                (
                    ShowCommandTui {
                        item_kind,
                        has_explicit_name,
                        interactive,
                        state: ShowState::Acting,
                    },
                    Action::ActOne { name },
                )
            } else {
                (
                    ShowCommandTui {
                        item_kind,
                        has_explicit_name,
                        interactive,
                        state: ShowState::Acting,
                    },
                    Action::ActMany { names },
                )
            },
            (ShowState::InformingEmpty, Event::Informed { result }) => (
                ShowCommandTui {
                    item_kind,
                    has_explicit_name,
                    interactive,
                    state: ShowState::Finished,
                },
                Action::Finish { result },
            ),
            (ShowState::InformingNone, Event::Informed { result }) => (
                ShowCommandTui {
                    item_kind,
                    has_explicit_name,
                    interactive,
                    state: ShowState::Finished,
                },
                Action::Finish { result },
            ),
            (ShowState::Acting, Event::Acted { result }) => (
                ShowCommandTui {
                    item_kind,
                    has_explicit_name,
                    interactive,
                    state: ShowState::Finished,
                },
                Action::Finish { result },
            ),
            (state, _) => (
                ShowCommandTui { item_kind, has_explicit_name, interactive, state },
                Action::Finish { result: Ok(()) },
            ),
        }
    }
}

} // verus!
