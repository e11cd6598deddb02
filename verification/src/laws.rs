//! Laws of the two workflows, proved over their spec transitions.
//!
//! A run is modelled as the sequence of actions a session emits while fed a
//! sequence of events; [`show_actions`] and [`delete_actions`] fold
//! [`show_transition`] and [`delete_transition`] over the events. The proof
//! functions below hold for every event sequence, so they cover every
//! driver, whatever the adapter and the user answer.

use vstd::prelude::*;
use crate::action::ActionView;
use crate::action::EventView;
use crate::action::has_adapter_action;
use crate::action::has_confirmation_prompt;
use crate::action::has_informational;
use crate::action::has_selection_prompt;
use crate::delete::DeleteCtxView;
use crate::delete::DeleteStateView;
use crate::delete::delete_transition;
use crate::message::delete_all_prompt_text;
use crate::message::no_items_to_delete_text;
use crate::message::no_items_to_show_text;
use crate::show::ShowCtxView;
use crate::show::ShowStateView;
use crate::show::show_transition;

verus! {

/// The actions a show run emits from state `s` on the given events.
pub open spec fn show_actions(ctx: ShowCtxView, s: ShowStateView, events: Seq<EventView>) -> Seq<
    ActionView,
>
    decreases events.len(),
{
    if events.len() <= 0 {
        Seq::empty()
    } else {
        let (s2, a) = show_transition(ctx, s, events[0]);
        seq![a] + show_actions(ctx, s2, events.drop_first())
    }
}

/// The actions a delete run emits from state `s` on the given events.
pub open spec fn delete_actions(
    ctx: DeleteCtxView,
    s: DeleteStateView,
    events: Seq<EventView>,
) -> Seq<ActionView>
    decreases events.len(),
{
    if events.len() <= 0 {
        Seq::empty()
    } else {
        let (s2, a) = delete_transition(ctx, s, events[0]);
        seq![a] + delete_actions(ctx, s2, events.drop_first())
    }
}

pub proof fn lemma_show_actions_len(ctx: ShowCtxView, s: ShowStateView, events: Seq<EventView>)
    ensures
        show_actions(ctx, s, events).len() == events.len(),
    decreases events.len(),
{
    if events.len() > 0 {
        let (s2, a) = show_transition(ctx, s, events[0]);
        lemma_show_actions_len(ctx, s2, events.drop_first());
    }
}

pub proof fn lemma_delete_actions_len(
    ctx: DeleteCtxView,
    s: DeleteStateView,
    events: Seq<EventView>,
)
    ensures
        delete_actions(ctx, s, events).len() == events.len(),
    decreases events.len(),
{
    if events.len() > 0 {
        let (s2, a) = delete_transition(ctx, s, events[0]);
        lemma_delete_actions_len(ctx, s2, events.drop_first());
    }
}

/// With an explicit target name, or on a non-interactive terminal, a show
/// run never asks the user to select items.
pub proof fn lemma_show_never_selects(ctx: ShowCtxView, s: ShowStateView, events: Seq<EventView>)
    requires
        ctx.has_explicit_name || !ctx.interactive,
    ensures
        !has_selection_prompt(show_actions(ctx, s, events)),
    decreases events.len(),
{
    if events.len() > 0 {
        let (s2, a) = show_transition(ctx, s, events[0]);
        lemma_show_never_selects(ctx, s2, events.drop_first());
        let actions = show_actions(ctx, s, events);
        let rest = show_actions(ctx, s2, events.drop_first());
        assert(actions == seq![a] + rest);
        assert(!(a is Select));
        assert forall|i: int| 0 <= i < actions.len() implies !((#[trigger] actions[i]) is Select) by {
            if i > 0 {
                assert(actions[i] == rest[i - 1]);
            }
        }
    }
}

/// With an explicit target name, or on a non-interactive terminal, a
/// delete run never asks the user to select items.
pub proof fn lemma_delete_never_selects(
    ctx: DeleteCtxView,
    s: DeleteStateView,
    events: Seq<EventView>,
)
    requires
        ctx.has_explicit_name || !ctx.interactive,
    ensures
        !has_selection_prompt(delete_actions(ctx, s, events)),
    decreases events.len(),
{
    if events.len() > 0 {
        let (s2, a) = delete_transition(ctx, s, events[0]);
        lemma_delete_never_selects(ctx, s2, events.drop_first());
        let actions = delete_actions(ctx, s, events);
        let rest = delete_actions(ctx, s2, events.drop_first());
        assert(actions == seq![a] + rest);
        assert(!(a is Select));
        assert forall|i: int| 0 <= i < actions.len() implies !((#[trigger] actions[i]) is Select) by {
            if i > 0 {
                assert(actions[i] == rest[i - 1]);
            }
        }
    }
}

/// With preauthorized confirmation, a delete run never shows a
/// confirmation prompt.
pub proof fn lemma_delete_preauthorized_never_prompts(
    ctx: DeleteCtxView,
    s: DeleteStateView,
    events: Seq<EventView>,
)
    requires
        ctx.confirm_preauthorized,
    ensures
        !has_confirmation_prompt(delete_actions(ctx, s, events)),
    decreases events.len(),
{
    if events.len() > 0 {
        let (s2, a) = delete_transition(ctx, s, events[0]);
        lemma_delete_preauthorized_never_prompts(ctx, s2, events.drop_first());
        let actions = delete_actions(ctx, s, events);
        let rest = delete_actions(ctx, s2, events.drop_first());
        assert(actions == seq![a] + rest);
        assert(!(a is Confirm));
        assert forall|i: int| 0 <= i < actions.len() implies !((#[trigger] actions[i]) is Confirm)
        by {
            if i > 0 {
                assert(actions[i] == rest[i - 1]);
            }
        }
    }
}

/// A show run never asks a yes/no question: confirmation belongs to the
/// delete workflow alone.
pub proof fn lemma_show_never_confirms(ctx: ShowCtxView, s: ShowStateView, events: Seq<EventView>)
    ensures
        !has_confirmation_prompt(show_actions(ctx, s, events)),
    decreases events.len(),
{
    if events.len() > 0 {
        let (s2, a) = show_transition(ctx, s, events[0]);
        lemma_show_never_confirms(ctx, s2, events.drop_first());
        let actions = show_actions(ctx, s, events);
        let rest = show_actions(ctx, s2, events.drop_first());
        assert(actions == seq![a] + rest);
        assert(!(a is Confirm));
        assert forall|i: int| 0 <= i < actions.len() implies !((#[trigger] actions[i]) is Confirm)
        by {
            if i > 0 {
                assert(actions[i] == rest[i - 1]);
            }
        }
    }
}

/// The resolution path of the show workflow acts only on a member of the
/// enumerated set: a resolved name in the set is shown, one outside it
/// fails as not found, and nothing else happens.
pub proof fn lemma_show_resolved_name_is_checked(
    ctx: ShowCtxView,
    names: Seq<Seq<char>>,
    name: Seq<char>,
)
    ensures
        crate::action::has_name(names, name) ==> show_transition(
            ctx,
            (ShowStateView::Resolving { names }),
            (EventView::Resolved { result: Ok(name) }),
        ) == (ShowStateView::Acting, ActionView::ActOne { name }),
        !crate::action::has_name(names, name) ==> show_transition(
            ctx,
            (ShowStateView::Resolving { names }),
            (EventView::Resolved { result: Ok(name) }),
        ) == (
            ShowStateView::Finished,
            ActionView::Finish {
                result: Err(
                    crate::error::TuiErrorView::NotFound { kind: ctx.item_kind, name },
                ),
            },
        ),
{
}

/// The resolution path of the delete workflow acts only on a member of the
/// enumerated set, after its confirmation gate: a resolved name in the set
/// goes to the single-name gate, one outside it fails as not found.
pub proof fn lemma_delete_resolved_name_is_checked(
    ctx: DeleteCtxView,
    names: Seq<Seq<char>>,
    name: Seq<char>,
)
    ensures
        crate::action::has_name(names, name) ==> delete_transition(
            ctx,
            (DeleteStateView::Resolving { names }),
            (EventView::Resolved { result: Ok(name) }),
        ) == crate::delete::delete_one_gate(ctx, name),
        !crate::action::has_name(names, name) ==> delete_transition(
            ctx,
            (DeleteStateView::Resolving { names }),
            (EventView::Resolved { result: Ok(name) }),
        ) == (
            DeleteStateView::Finished,
            ActionView::Finish {
                result: Err(
                    crate::error::TuiErrorView::NotFound { kind: ctx.item_kind, name },
                ),
            },
        ),
{
}

/// Without preauthorized confirmation, one delete decision performs an
/// adapter action only as the immediate answer to a granted confirmation.
pub proof fn lemma_delete_step_acts_only_when_confirmed(
    ctx: DeleteCtxView,
    s: DeleteStateView,
    e: EventView,
)
    requires
        !ctx.confirm_preauthorized,
        crate::action::is_adapter_action(delete_transition(ctx, s, e).1),
    ensures
        e == (EventView::Confirmed { result: Ok(true) }),
{
}

/// Without preauthorized confirmation, a delete run performs an adapter
/// action only right after the user confirmed: wherever the run acts, the
/// event it just handled was a granted confirmation.
pub proof fn lemma_delete_unconfirmed_never_acts(
    ctx: DeleteCtxView,
    s: DeleteStateView,
    events: Seq<EventView>,
)
    requires
        !ctx.confirm_preauthorized,
    ensures
        forall|i: int|
            0 <= i < events.len() && crate::action::is_adapter_action(
                #[trigger] delete_actions(ctx, s, events)[i],
            ) ==> events[i] == (EventView::Confirmed { result: Ok(true) }),
    decreases events.len(),
{
    lemma_delete_actions_len(ctx, s, events);
    if events.len() > 0 {
        let (s2, a) = delete_transition(ctx, s, events[0]);
        lemma_delete_unconfirmed_never_acts(ctx, s2, events.drop_first());
        let actions = delete_actions(ctx, s, events);
        let rest = delete_actions(ctx, s2, events.drop_first());
        assert(actions == seq![a] + rest);
        assert forall|i: int|
            0 <= i < events.len() && crate::action::is_adapter_action(
                #[trigger] actions[i],
            ) implies events[i] == (EventView::Confirmed { result: Ok(true) }) by {
            if i == 0 {
                lemma_delete_step_acts_only_when_confirmed(ctx, s, events[0]);
            } else {
                assert(actions[i] == rest[i - 1]);
                assert(events[i] == events.drop_first()[i - 1]);
            }
        }
    }
}

/// With preauthorized confirmation, a non-empty delete-all run proceeds
/// straight to the batch action over the full enumerated set.
pub proof fn lemma_delete_preauthorized_all_proceeds(ctx: DeleteCtxView, names: Seq<Seq<char>>)
    requires
        ctx.delete_all,
        ctx.confirm_preauthorized,
        names.len() > 0,
    ensures
        delete_transition(ctx, DeleteStateView::Listing, (EventView::Listed { result: Ok(names) }))
            == (DeleteStateView::Acting, ActionView::ActMany { names }),
{
}

/// On a non-interactive terminal, a non-empty show run resolves the
/// explicit-or-default name rather than prompting.
pub proof fn lemma_show_non_interactive_resolves(ctx: ShowCtxView, names: Seq<Seq<char>>)
    requires
        !ctx.interactive,
        names.len() > 0,
    ensures
        show_transition(ctx, ShowStateView::Listing, (EventView::Listed { result: Ok(names) }))
            == (ShowStateView::Resolving { names }, ActionView::ResolveName),
{
}

/// On a non-interactive terminal, a non-empty delete run without the
/// delete-all flag resolves the explicit-or-default name rather than
/// prompting.
pub proof fn lemma_delete_non_interactive_resolves(ctx: DeleteCtxView, names: Seq<Seq<char>>)
    requires
        !ctx.interactive,
        !ctx.delete_all,
        names.len() > 0,
    ensures
        delete_transition(ctx, DeleteStateView::Listing, (EventView::Listed { result: Ok(names) }))
            == (DeleteStateView::Resolving { names }, ActionView::ResolveName),
{
}

/// A show run that reached an informing or finished state only ever tells
/// the driver to finish: no action, no prompt, no further line.
proof fn lemma_show_settled_is_quiet(ctx: ShowCtxView, s: ShowStateView, events: Seq<EventView>)
    requires
        s is InformingEmpty || s is InformingNone || s is Finished,
    ensures
        forall|i: int|
            0 <= i < show_actions(ctx, s, events).len() ==> (#[trigger] show_actions(
                ctx,
                s,
                events,
            )[i]) is Finish,
    decreases events.len(),
{
    if events.len() > 0 {
        let (s2, a) = show_transition(ctx, s, events[0]);
        lemma_show_settled_is_quiet(ctx, s2, events.drop_first());
        let actions = show_actions(ctx, s, events);
        let rest = show_actions(ctx, s2, events.drop_first());
        assert(actions == seq![a] + rest);
        assert(a is Finish);
        assert forall|i: int| 0 <= i < actions.len() implies (#[trigger] actions[i]) is Finish by {
            if i > 0 {
                assert(actions[i] == rest[i - 1]);
            }
        }
    }
}

/// A delete run that reached an informing or finished state only ever
/// tells the driver to finish.
proof fn lemma_delete_settled_is_quiet(
    ctx: DeleteCtxView,
    s: DeleteStateView,
    events: Seq<EventView>,
)
    requires
        s is InformingEmpty || s is InformingNone || s is Finished,
    ensures
        forall|i: int|
            0 <= i < delete_actions(ctx, s, events).len() ==> (#[trigger] delete_actions(
                ctx,
                s,
                events,
            )[i]) is Finish,
    decreases events.len(),
{
    if events.len() > 0 {
        let (s2, a) = delete_transition(ctx, s, events[0]);
        lemma_delete_settled_is_quiet(ctx, s2, events.drop_first());
        let actions = delete_actions(ctx, s, events);
        let rest = delete_actions(ctx, s2, events.drop_first());
        assert(actions == seq![a] + rest);
        assert(a is Finish);
        assert forall|i: int| 0 <= i < actions.len() implies (#[trigger] actions[i]) is Finish by {
            if i > 0 {
                assert(actions[i] == rest[i - 1]);
            }
        }
    }
}

/// An empty item-name set makes the show workflow a successful no-op: the
/// run writes the "There are no ... to show" line, performs no adapter
/// action, and shows no prompt; once the line is written it finishes with
/// success.
pub proof fn lemma_show_empty_set_is_no_op(
    ctx: ShowCtxView,
    events: Seq<EventView>,
    names: Seq<Seq<char>>,
)
    requires
        events.len() >= 2,
        events[0] == EventView::Begin,
        events[1] == (EventView::Listed { result: Ok(names) }),
        names.len() == 0,
    ensures
        show_actions(ctx, ShowStateView::Ready, events).len() == events.len(),
        show_actions(ctx, ShowStateView::Ready, events)[0] == ActionView::List,
        show_actions(ctx, ShowStateView::Ready, events)[1] == (ActionView::Inform {
            message: no_items_to_show_text(ctx.item_kind),
        }),
        !has_adapter_action(show_actions(ctx, ShowStateView::Ready, events)),
        !has_selection_prompt(show_actions(ctx, ShowStateView::Ready, events)),
        !has_confirmation_prompt(show_actions(ctx, ShowStateView::Ready, events)),
        events.len() >= 3 && events[2] == (EventView::Informed { result: Ok(()) })
            ==> show_actions(ctx, ShowStateView::Ready, events)[2] == (ActionView::Finish {
            result: Ok(()),
        }),
{
    lemma_show_actions_len(ctx, ShowStateView::Ready, events);
    let events1 = events.drop_first();
    let events2 = events1.drop_first();
    let actions = show_actions(ctx, ShowStateView::Ready, events);
    let actions1 = show_actions(ctx, ShowStateView::Listing, events1);
    let actions2 = show_actions(ctx, ShowStateView::InformingEmpty, events2);
    assert(events1[0] == events[1]);
    assert(actions == seq![ActionView::List] + actions1);
    assert(actions1 == seq![
        ActionView::Inform { message: no_items_to_show_text(ctx.item_kind) },
    ] + actions2);
    lemma_show_settled_is_quiet(ctx, ShowStateView::InformingEmpty, events2);
    assert forall|i: int| 2 <= i < actions.len() implies (#[trigger] actions[i]) is Finish by {
        assert(actions[i] == actions1[i - 1]);
        assert(actions1[i - 1] == actions2[i - 2]);
    }
    assert forall|i: int|
        0 <= i < actions.len() implies !((#[trigger] actions[i]) is Select) && !(actions[i]
        is Confirm) && !(actions[i] is ActOne) && !(actions[i] is ActMany) by {
        if i == 1 {
            assert(actions[i] == actions1[0]);
        }
    }
    if events.len() >= 3 && events[2] == (EventView::Informed { result: Ok(()) }) {
        assert(events2[0] == events[2]);
        assert(actions2[0] == ActionView::Finish { result: Ok(()) });
        assert(actions[2] == actions1[1]);
        assert(actions1[1] == actions2[0]);
    }
}

/// An empty item-name set makes the delete workflow a successful no-op:
/// the run writes the "There are no ...s to delete" line, performs no
/// adapter action, and shows no prompt; once the line is written it
/// finishes with success.
pub proof fn lemma_delete_empty_set_is_no_op(
    ctx: DeleteCtxView,
    events: Seq<EventView>,
    names: Seq<Seq<char>>,
)
    requires
        events.len() >= 2,
        events[0] == EventView::Begin,
        events[1] == (EventView::Listed { result: Ok(names) }),
        names.len() == 0,
    ensures
        delete_actions(ctx, DeleteStateView::Ready, events).len() == events.len(),
        delete_actions(ctx, DeleteStateView::Ready, events)[0] == ActionView::List,
        delete_actions(ctx, DeleteStateView::Ready, events)[1] == (ActionView::Inform {
            message: no_items_to_delete_text(ctx.item_kind),
        }),
        !has_adapter_action(delete_actions(ctx, DeleteStateView::Ready, events)),
        !has_selection_prompt(delete_actions(ctx, DeleteStateView::Ready, events)),
        !has_confirmation_prompt(delete_actions(ctx, DeleteStateView::Ready, events)),
        events.len() >= 3 && events[2] == (EventView::Informed { result: Ok(()) })
            ==> delete_actions(ctx, DeleteStateView::Ready, events)[2] == (ActionView::Finish {
            result: Ok(()),
        }),
{
    lemma_delete_actions_len(ctx, DeleteStateView::Ready, events);
    let events1 = events.drop_first();
    let events2 = events1.drop_first();
    let actions = delete_actions(ctx, DeleteStateView::Ready, events);
    let actions1 = delete_actions(ctx, DeleteStateView::Listing, events1);
    let actions2 = delete_actions(ctx, DeleteStateView::InformingEmpty, events2);
    assert(events1[0] == events[1]);
    assert(actions == seq![ActionView::List] + actions1);
    assert(actions1 == seq![
        ActionView::Inform { message: no_items_to_delete_text(ctx.item_kind) },
    ] + actions2);
    lemma_delete_settled_is_quiet(ctx, DeleteStateView::InformingEmpty, events2);
    assert forall|i: int| 2 <= i < actions.len() implies (#[trigger] actions[i]) is Finish by {
        assert(actions[i] == actions1[i - 1]);
        assert(actions1[i - 1] == actions2[i - 2]);
    }
    assert forall|i: int|
        0 <= i < actions.len() implies !((#[trigger] actions[i]) is Select) && !(actions[i]
        is Confirm) && !(actions[i] is ActOne) && !(actions[i] is ActMany) by {
        if i == 1 {
            assert(actions[i] == actions1[0]);
        }
    }
    if events.len() >= 3 && events[2] == (EventView::Informed { result: Ok(()) }) {
        assert(events2[0] == events[2]);
        assert(actions2[0] == ActionView::Finish { result: Ok(()) });
        assert(actions[2] == actions1[1]);
        assert(actions1[1] == actions2[0]);
    }
}

/// Declining the "delete all ...?" confirmation ends the delete run as a
/// silent successful no-op: no adapter action is performed, no line is
/// written, and no further prompt is shown.
pub proof fn lemma_delete_all_declined_is_silent_no_op(
    ctx: DeleteCtxView,
    events: Seq<EventView>,
    names: Seq<Seq<char>>,
)
    requires
        ctx.delete_all,
        !ctx.confirm_preauthorized,
        events.len() >= 3,
        events[0] == EventView::Begin,
        events[1] == (EventView::Listed { result: Ok(names) }),
        names.len() > 0,
        events[2] == (EventView::Confirmed { result: Ok(false) }),
    ensures
        delete_actions(ctx, DeleteStateView::Ready, events).len() == events.len(),
        delete_actions(ctx, DeleteStateView::Ready, events)[0] == ActionView::List,
        delete_actions(ctx, DeleteStateView::Ready, events)[1] == (ActionView::Confirm {
            prompt: delete_all_prompt_text(ctx.item_kind),
        }),
        delete_actions(ctx, DeleteStateView::Ready, events)[2] == (ActionView::Finish {
            result: Ok(()),
        }),
        !has_adapter_action(delete_actions(ctx, DeleteStateView::Ready, events)),
        !has_informational(delete_actions(ctx, DeleteStateView::Ready, events)),
        !has_selection_prompt(delete_actions(ctx, DeleteStateView::Ready, events)),
{
    lemma_delete_actions_len(ctx, DeleteStateView::Ready, events);
    let events1 = events.drop_first();
    let events2 = events1.drop_first();
    let events3 = events2.drop_first();
    let actions = delete_actions(ctx, DeleteStateView::Ready, events);
    let actions1 = delete_actions(ctx, DeleteStateView::Listing, events1);
    let actions2 = delete_actions(
        ctx,
        (DeleteStateView::ConfirmingAll { names }),
        events2,
    );
    let actions3 = delete_actions(ctx, DeleteStateView::Finished, events3);
    assert(events1[0] == events[1]);
    assert(events2[0] == events[2]);
    assert(actions == seq![ActionView::List] + actions1);
    assert(actions1 == seq![
        ActionView::Confirm { prompt: delete_all_prompt_text(ctx.item_kind) },
    ] + actions2);
    assert(actions2 == seq![ActionView::Finish { result: Ok(()) }] + actions3);
    lemma_delete_settled_is_quiet(ctx, DeleteStateView::Finished, events3);
    assert forall|i: int| 3 <= i < actions.len() implies (#[trigger] actions[i]) is Finish by {
        assert(actions[i] == actions1[i - 1]);
        assert(actions1[i - 1] == actions2[i - 2]);
        assert(actions2[i - 2] == actions3[i - 3]);
    }
    assert(actions[1] == actions1[0]);
    assert(actions[2] == actions1[1]);
    assert(actions1[1] == actions2[0]);
    assert forall|i: int|
        0 <= i < actions.len() implies !((#[trigger] actions[i]) is Select) && !(actions[i]
        is Inform) && !(actions[i] is ActOne) && !(actions[i] is ActMany) by {}
}

} // verus!
