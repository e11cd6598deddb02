use command_tui::action::{Action, Event};
use command_tui::error::TuiError;
use command_tui::show::ShowCommandTui;

fn show_names(names: &[&str]) -> Vec<String> {
    names.iter().map(|n| n.to_string()).collect()
}

#[test]
fn show_sole_item_acts_directly_without_prompt() {
    // set = {"a"}, interactive, no explicit name: act_on_one("a"), no prompt.
    let tui = ShowCommandTui::new("node".to_string(), false, true);
    let e = Event::Begin;
    assert!(tui.accepts(&e));
    let (tui, a) = tui.show_step(e);
    assert!(matches!(a, Action::List));
    let e = Event::Listed { result: Ok(show_names(&["a"])) };
    assert!(tui.accepts(&e));
    let (tui, a) = tui.show_step(e);
    match a {
        Action::ActOne { name } => assert_eq!(name, "a"),
        other => panic!("expected ActOne, got {:?}", action_kind(&other)),
    }
    let e = Event::Acted { result: Ok(()) };
    assert!(tui.accepts(&e));
    let (_, a) = tui.show_step(e);
    assert!(matches!(a, Action::Finish { result: Ok(()) }));
}

#[test]
fn show_non_interactive_resolves_default_without_prompts() {
    // set = {"a","b"}, non-interactive, no explicit name, default resolves
    // to "a": act_on_one("a") and no prompts at all.
    let tui = ShowCommandTui::new("node".to_string(), false, false);
    let (tui, a) = tui.show_step(Event::Begin);
    assert!(matches!(a, Action::List));
    let (tui, a) = tui.show_step(Event::Listed { result: Ok(show_names(&["a", "b"])) });
    assert!(matches!(a, Action::ResolveName));
    let (tui, a) = tui.show_step(Event::Resolved { result: Ok("a".to_string()) });
    match a {
        Action::ActOne { name } => assert_eq!(name, "a"),
        other => panic!("expected ActOne, got {:?}", action_kind(&other)),
    }
    let (_, a) = tui.show_step(Event::Acted { result: Ok(()) });
    assert!(matches!(a, Action::Finish { result: Ok(()) }));
}

#[test]
fn show_explicit_name_not_found_is_an_error_without_actions() {
    // set = {"a","b"}, explicit name = "z": NotFound mentioning "z".
    let tui = ShowCommandTui::new("node".to_string(), true, true);
    let (tui, a) = tui.show_step(Event::Begin);
    assert!(matches!(a, Action::List));
    let (tui, a) = tui.show_step(Event::Listed { result: Ok(show_names(&["a", "b"])) });
    assert!(matches!(a, Action::ResolveName));
    let (_, a) = tui.show_step(Event::Resolved { result: Ok("z".to_string()) });
    match a {
        Action::Finish { result: Err(TuiError::NotFound { kind, name }) } => {
            assert_eq!(kind, "node");
            assert_eq!(name, "z");
            let message = TuiError::NotFound { kind, name }.message();
            assert_eq!(message, "The node z was not found");
            assert!(message.contains("z"));
        }
        _ => panic!("expected a not-found failure"),
    }
}

#[test]
fn show_empty_set_informs_and_succeeds() {
    let tui = ShowCommandTui::new("node".to_string(), false, true);
    let (tui, a) = tui.show_step(Event::Begin);
    assert!(matches!(a, Action::List));
    let (tui, a) = tui.show_step(Event::Listed { result: Ok(Vec::new()) });
    match a {
        Action::Inform { message } => assert_eq!(message, "There are no node to show"),
        other => panic!("expected Inform, got {:?}", action_kind(&other)),
    }
    let (_, a) = tui.show_step(Event::Informed { result: Ok(()) });
    assert!(matches!(a, Action::Finish { result: Ok(()) }));
}

#[test]
fn show_many_items_prompts_selection_with_full_candidate_set() {
    let tui = ShowCommandTui::new("node".to_string(), false, true);
    let (tui, _) = tui.show_step(Event::Begin);
    let (tui, a) = tui.show_step(Event::Listed { result: Ok(show_names(&["a", "b", "c"])) });
    match a {
        Action::Select { prompt, candidates } => {
            assert_eq!(prompt, "Select one or more node that you want to show");
            assert_eq!(candidates, show_names(&["a", "b", "c"]));
        }
        other => panic!("expected Select, got {:?}", action_kind(&other)),
    }
    let (tui, a) = tui.show_step(Event::Selected { names: show_names(&["b", "c"]) });
    match a {
        Action::ActMany { names } => assert_eq!(names, show_names(&["b", "c"])),
        other => panic!("expected ActMany, got {:?}", action_kind(&other)),
    }
    let (_, a) = tui.show_step(Event::Acted { result: Ok(()) });
    assert!(matches!(a, Action::Finish { result: Ok(()) }));
}

#[test]
fn show_single_selection_acts_on_one() {
    let tui = ShowCommandTui::new("node".to_string(), false, true);
    let (tui, _) = tui.show_step(Event::Begin);
    let (tui, _) = tui.show_step(Event::Listed { result: Ok(show_names(&["a", "b"])) });
    let (_, a) = tui.show_step(Event::Selected { names: show_names(&["b"]) });
    match a {
        Action::ActOne { name } => assert_eq!(name, "b"),
        other => panic!("expected ActOne, got {:?}", action_kind(&other)),
    }
}

#[test]
fn show_empty_selection_informs_and_succeeds() {
    let tui = ShowCommandTui::new("node".to_string(), false, true);
    let (tui, _) = tui.show_step(Event::Begin);
    let (tui, _) = tui.show_step(Event::Listed { result: Ok(show_names(&["a", "b"])) });
    let (tui, a) = tui.show_step(Event::Selected { names: Vec::new() });
    match a {
        Action::Inform { message } => assert_eq!(message, "No node selected to show"),
        other => panic!("expected Inform, got {:?}", action_kind(&other)),
    }
    let (_, a) = tui.show_step(Event::Informed { result: Ok(()) });
    assert!(matches!(a, Action::Finish { result: Ok(()) }));
}

#[test]
fn show_enumeration_failure_propagates_unchanged() {
    let tui = ShowCommandTui::new("node".to_string(), false, true);
    let (tui, _) = tui.show_step(Event::Begin);
    let failure = TuiError::Adapter { message: "backend unreachable".to_string() };
    let (_, a) = tui.show_step(Event::Listed { result: Err(failure) });
    match a {
        Action::Finish { result: Err(TuiError::Adapter { message }) } => {
            assert_eq!(message, "backend unreachable");
        }
        _ => panic!("expected the adapter failure back"),
    }
}

#[test]
fn show_resolution_failure_propagates_unchanged() {
    let tui = ShowCommandTui::new("node".to_string(), true, true);
    let (tui, _) = tui.show_step(Event::Begin);
    let (tui, _) = tui.show_step(Event::Listed { result: Ok(show_names(&["a"])) });
    let failure = TuiError::Adapter { message: "no default".to_string() };
    let (_, a) = tui.show_step(Event::Resolved { result: Err(failure) });
    match a {
        Action::Finish { result: Err(TuiError::Adapter { message }) } => {
            assert_eq!(message, "no default");
        }
        _ => panic!("expected the adapter failure back"),
    }
}

#[test]
fn show_write_failure_propagates_unchanged() {
    let tui = ShowCommandTui::new("node".to_string(), false, true);
    let (tui, _) = tui.show_step(Event::Begin);
    let (tui, _) = tui.show_step(Event::Listed { result: Ok(Vec::new()) });
    let failure = TuiError::Interaction { message: "broken pipe".to_string() };
    let (_, a) = tui.show_step(Event::Informed { result: Err(failure) });
    match a {
        Action::Finish { result: Err(TuiError::Interaction { message }) } => {
            assert_eq!(message, "broken pipe");
        }
        _ => panic!("expected the interaction failure back"),
    }
}

#[test]
fn show_session_refuses_out_of_protocol_events() {
    let tui = ShowCommandTui::new("node".to_string(), false, true);
    assert!(!tui.accepts(&Event::Acted { result: Ok(()) }));
    assert!(!tui.accepts(&Event::Listed { result: Ok(Vec::new()) }));
    let (tui, _) = tui.show_step(Event::Begin);
    assert!(!tui.accepts(&Event::Begin));
    assert!(!tui.accepts(&Event::Confirmed { result: Ok(true) }));
    assert!(tui.accepts(&Event::Listed { result: Ok(Vec::new()) }));
}

fn action_kind(a: &Action) -> &'static str {
    match a {
        Action::List => "List",
        Action::ResolveName => "ResolveName",
        Action::Inform { .. } => "Inform",
        Action::Confirm { .. } => "Confirm",
        Action::Select { .. } => "Select",
        Action::ActOne { .. } => "ActOne",
        Action::ActMany { .. } => "ActMany",
        Action::Finish { .. } => "Finish",
    }
}
