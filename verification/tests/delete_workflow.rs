use command_tui::action::{Action, Event};
use command_tui::delete::DeleteCommandTui;
use command_tui::error::TuiError;

fn delete_names(names: &[&str]) -> Vec<String> {
    names.iter().map(|n| n.to_string()).collect()
}

fn interactive_delete(delete_all: bool, preauthorized: bool) -> DeleteCommandTui {
    DeleteCommandTui::new("node".to_string(), false, true, delete_all, preauthorized)
}

#[test]
fn delete_selected_batch_after_confirmation() {
    // set = {"a","b","c"}, interactive, no explicit name, no delete-all,
    // user selects {"b","c"} and confirms: act_on_many(["b","c"]) once.
    let tui = interactive_delete(false, false);
    let (tui, a) = tui.delete_step(Event::Begin);
    assert!(matches!(a, Action::List));
    let (tui, a) = tui.delete_step(Event::Listed { result: Ok(delete_names(&["a", "b", "c"])) });
    match a {
        Action::Select { prompt, candidates } => {
            assert_eq!(prompt, "Select one or more nodes that you want to delete");
            assert_eq!(candidates, delete_names(&["a", "b", "c"]));
        }
        _ => panic!("expected a selection prompt"),
    }
    let (tui, a) = tui.delete_step(Event::Selected { names: delete_names(&["b", "c"]) });
    match a {
        Action::Confirm { prompt } => assert_eq!(prompt, "Are you sure you want to proceed?"),
        _ => panic!("expected a confirmation prompt"),
    }
    let (tui, a) = tui.delete_step(Event::Confirmed { result: Ok(true) });
    match a {
        Action::ActMany { names } => assert_eq!(names, delete_names(&["b", "c"])),
        _ => panic!("expected ActMany over the selection"),
    }
    let (_, a) = tui.delete_step(Event::Acted { result: Ok(()) });
    assert!(matches!(a, Action::Finish { result: Ok(()) }));
}

#[test]
fn delete_all_declined_is_a_silent_success() {
    // delete_all = true, set = {"a","b"}, confirmation declined: success,
    // zero action calls, and no informational line either.
    let tui = interactive_delete(true, false);
    let (tui, a) = tui.delete_step(Event::Begin);
    assert!(matches!(a, Action::List));
    let (tui, a) = tui.delete_step(Event::Listed { result: Ok(delete_names(&["a", "b"])) });
    match a {
        Action::Confirm { prompt } => {
            assert_eq!(prompt, "Are you sure you want to delete all node?");
        }
        _ => panic!("expected the delete-all confirmation"),
    }
    let (_, a) = tui.delete_step(Event::Confirmed { result: Ok(false) });
    assert!(matches!(a, Action::Finish { result: Ok(()) }));
}

#[test]
fn delete_all_confirmed_removes_the_full_set() {
    let tui = interactive_delete(true, false);
    let (tui, _) = tui.delete_step(Event::Begin);
    let (tui, _) = tui.delete_step(Event::Listed { result: Ok(delete_names(&["a", "b"])) });
    let (tui, a) = tui.delete_step(Event::Confirmed { result: Ok(true) });
    match a {
        Action::ActMany { names } => assert_eq!(names, delete_names(&["a", "b"])),
        _ => panic!("expected ActMany over the full set"),
    }
    let (_, a) = tui.delete_step(Event::Acted { result: Ok(()) });
    assert!(matches!(a, Action::Finish { result: Ok(()) }));
}

#[test]
fn delete_all_preauthorized_skips_the_prompt() {
    let tui = interactive_delete(true, true);
    let (tui, _) = tui.delete_step(Event::Begin);
    let (tui, a) = tui.delete_step(Event::Listed { result: Ok(delete_names(&["a", "b"])) });
    match a {
        Action::ActMany { names } => assert_eq!(names, delete_names(&["a", "b"])),
        _ => panic!("expected ActMany with no prompt in between"),
    }
    let (_, a) = tui.delete_step(Event::Acted { result: Ok(()) });
    assert!(matches!(a, Action::Finish { result: Ok(()) }));
}

#[test]
fn delete_empty_set_informs_and_succeeds() {
    let tui = interactive_delete(false, false);
    let (tui, _) = tui.delete_step(Event::Begin);
    let (tui, a) = tui.delete_step(Event::Listed { result: Ok(Vec::new()) });
    match a {
        Action::Inform { message } => assert_eq!(message, "There are no nodes to delete"),
        _ => panic!("expected the empty-set line"),
    }
    let (_, a) = tui.delete_step(Event::Informed { result: Ok(()) });
    assert!(matches!(a, Action::Finish { result: Ok(()) }));
}

#[test]
fn delete_explicit_name_confirms_then_acts() {
    let tui = DeleteCommandTui::new("node".to_string(), true, true, false, false);
    let (tui, _) = tui.delete_step(Event::Begin);
    let (tui, a) = tui.delete_step(Event::Listed { result: Ok(delete_names(&["a", "b"])) });
    assert!(matches!(a, Action::ResolveName));
    let (tui, a) = tui.delete_step(Event::Resolved { result: Ok("b".to_string()) });
    match a {
        Action::Confirm { prompt } => assert_eq!(prompt, "Are you sure you want to proceed?"),
        _ => panic!("expected a confirmation prompt"),
    }
    let (tui, a) = tui.delete_step(Event::Confirmed { result: Ok(true) });
    match a {
        Action::ActOne { name } => assert_eq!(name, "b"),
        _ => panic!("expected ActOne on the resolved name"),
    }
    let (_, a) = tui.delete_step(Event::Acted { result: Ok(()) });
    assert!(matches!(a, Action::Finish { result: Ok(()) }));
}

#[test]
fn delete_single_declined_is_a_success_without_action() {
    let tui = DeleteCommandTui::new("node".to_string(), true, true, false, false);
    let (tui, _) = tui.delete_step(Event::Begin);
    let (tui, _) = tui.delete_step(Event::Listed { result: Ok(delete_names(&["a"])) });
    let (tui, _) = tui.delete_step(Event::Resolved { result: Ok("a".to_string()) });
    let (_, a) = tui.delete_step(Event::Confirmed { result: Ok(false) });
    assert!(matches!(a, Action::Finish { result: Ok(()) }));
}

#[test]
fn delete_resolved_name_not_found_is_an_error() {
    // Non-interactive, no explicit name: the default must resolve, and a
    // default absent from the set is a not-found error.
    let tui = DeleteCommandTui::new("node".to_string(), false, false, false, false);
    let (tui, _) = tui.delete_step(Event::Begin);
    let (tui, a) = tui.delete_step(Event::Listed { result: Ok(delete_names(&["a", "b"])) });
    assert!(matches!(a, Action::ResolveName));
    let (_, a) = tui.delete_step(Event::Resolved { result: Ok("z".to_string()) });
    match a {
        Action::Finish { result: Err(err) } => {
            assert_eq!(err.message(), "The node z was not found");
        }
        _ => panic!("expected a not-found failure"),
    }
}

#[test]
fn delete_sole_item_confirms_without_selection() {
    let tui = interactive_delete(false, false);
    let (tui, _) = tui.delete_step(Event::Begin);
    let (tui, a) = tui.delete_step(Event::Listed { result: Ok(delete_names(&["a"])) });
    match a {
        Action::Confirm { prompt } => assert_eq!(prompt, "Are you sure you want to proceed?"),
        _ => panic!("expected a confirmation prompt, not a selection"),
    }
    let (tui, a) = tui.delete_step(Event::Confirmed { result: Ok(true) });
    match a {
        Action::ActOne { name } => assert_eq!(name, "a"),
        _ => panic!("expected ActOne on the sole item"),
    }
}

#[test]
fn delete_empty_selection_informs_and_succeeds() {
    let tui = interactive_delete(false, false);
    let (tui, _) = tui.delete_step(Event::Begin);
    let (tui, _) = tui.delete_step(Event::Listed { result: Ok(delete_names(&["a", "b"])) });
    let (tui, a) = tui.delete_step(Event::Selected { names: Vec::new() });
    match a {
        Action::Inform { message } => assert_eq!(message, "No nodes selected to delete"),
        _ => panic!("expected the none-selected line"),
    }
    let (_, a) = tui.delete_step(Event::Informed { result: Ok(()) });
    assert!(matches!(a, Action::Finish { result: Ok(()) }));
}

#[test]
fn delete_single_selection_preauthorized_acts_without_prompt() {
    let tui = interactive_delete(false, true);
    let (tui, _) = tui.delete_step(Event::Begin);
    let (tui, _) = tui.delete_step(Event::Listed { result: Ok(delete_names(&["a", "b"])) });
    let (tui, a) = tui.delete_step(Event::Selected { names: delete_names(&["b"]) });
    match a {
        Action::ActOne { name } => assert_eq!(name, "b"),
        _ => panic!("expected ActOne with no prompt in between"),
    }
    let (_, a) = tui.delete_step(Event::Acted { result: Ok(()) });
    assert!(matches!(a, Action::Finish { result: Ok(()) }));
}

#[test]
fn delete_confirmation_failure_propagates_unchanged() {
    let tui = interactive_delete(true, false);
    let (tui, _) = tui.delete_step(Event::Begin);
    let (tui, _) = tui.delete_step(Event::Listed { result: Ok(delete_names(&["a"])) });
    let failure = TuiError::Interaction { message: "not a terminal".to_string() };
    let (_, a) = tui.delete_step(Event::Confirmed { result: Err(failure) });
    match a {
        Action::Finish { result: Err(TuiError::Interaction { message }) } => {
            assert_eq!(message, "not a terminal");
        }
        _ => panic!("expected the interaction failure back"),
    }
}

#[test]
fn delete_action_failure_propagates_unchanged() {
    let tui = interactive_delete(true, true);
    let (tui, _) = tui.delete_step(Event::Begin);
    let (tui, _) = tui.delete_step(Event::Listed { result: Ok(delete_names(&["a"])) });
    let failure = TuiError::Adapter { message: "deletion refused".to_string() };
    let (_, a) = tui.delete_step(Event::Acted { result: Err(failure) });
    match a {
        Action::Finish { result: Err(TuiError::Adapter { message }) } => {
            assert_eq!(message, "deletion refused");
        }
        _ => panic!("expected the adapter failure back"),
    }
}

#[test]
fn delete_session_refuses_out_of_protocol_events() {
    let tui = interactive_delete(false, false);
    assert!(!tui.accepts(&Event::Confirmed { result: Ok(true) }));
    let (tui, _) = tui.delete_step(Event::Begin);
    assert!(!tui.accepts(&Event::Begin));
    assert!(!tui.accepts(&Event::Selected { names: Vec::new() }));
    assert!(tui.accepts(&Event::Listed { result: Ok(Vec::new()) }));
}
