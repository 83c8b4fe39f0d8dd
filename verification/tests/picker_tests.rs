use workspacers::formatter::fmt;
use workspacers::picker::{
    filter_result, find_action, interpret, labels, pick_workspace, present, Action, Choice,
};
use workspacers::workspace::{Error, Workspace};

fn entry(name: &str, path: &str) -> Workspace {
    Workspace { name: name.to_string(), path: path.to_string(), shortcut: None }
}

fn two() -> Vec<Workspace> {
    vec![entry("A", "/x"), entry("Bee", "/y")]
}

fn keys() -> Vec<(String, Action)> {
    vec![
        ("ctrl-a".to_string(), Action::Add),
        ("ctrl-d".to_string(), Action::Delete),
        ("ctrl-k".to_string(), Action::Promote),
        ("ctrl-j".to_string(), Action::Demote),
    ]
}

#[test]
fn filter_result_puts_the_last_line_first() {
    assert_eq!(filter_result("ctrl-d\n[ A ] - [ /x ]\n".to_string()), vec!["[ A ] - [ /x ]", "ctrl-d"]);
    assert_eq!(filter_result("one\ntwo\nthree".to_string()), vec!["three", "two", "one"]);
}

#[test]
fn filter_result_trims_and_drops_empty_lines() {
    assert_eq!(filter_result("\n  label  \n\n \t \n".to_string()), vec!["label"]);
    assert_eq!(filter_result("label\r\n".to_string()), vec!["label"]);
}

#[test]
fn filter_result_of_nothing_is_empty() {
    assert!(filter_result("".to_string()).is_empty());
    assert!(filter_result("\n\n".to_string()).is_empty());
    assert!(filter_result("   ".to_string()).is_empty());
}

#[test]
fn find_action_takes_the_first_binding_of_a_key() {
    let mut bound = keys();
    bound.push(("ctrl-a".to_string(), Action::Delete));
    assert_eq!(find_action(&bound, &"ctrl-a".to_string()), Some(Action::Add));
    assert_eq!(find_action(&bound, &"ctrl-j".to_string()), Some(Action::Demote));
    assert_eq!(find_action(&bound, &"ctrl-x".to_string()), None);
    assert_eq!(find_action(&Vec::new(), &"ctrl-a".to_string()), None);
}

#[test]
fn no_output_is_a_cancel() {
    let shown = fmt(&two(), &None);
    assert_eq!(interpret(&shown, &keys(), "".to_string()), Ok(Choice::Cancelled));
    assert_eq!(interpret(&shown, &keys(), "\n".to_string()), Ok(Choice::Cancelled));
}

#[test]
fn one_line_selects_the_record_with_that_label() {
    let shown = fmt(&two(), &None);
    assert_eq!(
        interpret(&shown, &keys(), "[ Bee ] - [ /y ]\n".to_string()),
        Ok(Choice::Selected(entry("Bee", "/y")))
    );
}

#[test]
fn a_label_that_was_not_shown_is_stale() {
    let shown = fmt(&two(), &None);
    assert_eq!(interpret(&shown, &keys(), "[ C ] - [ /z ]".to_string()), Err(Error::StaleLabel));
    assert_eq!(
        interpret(&shown, &keys(), "ctrl-d\n[ C ] - [ /z ]".to_string()),
        Err(Error::StaleLabel)
    );
    assert_eq!(interpret(&shown, &keys(), "a\nb\nc".to_string()), Err(Error::StaleLabel));
}

#[test]
fn a_key_and_a_label_request_an_action() {
    let shown = fmt(&two(), &None);
    assert_eq!(
        interpret(&shown, &keys(), "ctrl-d\n[ A   ] - [ /x ]\n".to_string()),
        Ok(Choice::ActionRequested(Action::Delete, entry("A", "/x")))
    );
    assert_eq!(
        interpret(&shown, &keys(), "ctrl-k\n[ Bee ] - [ /y ]\n".to_string()),
        Ok(Choice::ActionRequested(Action::Promote, entry("Bee", "/y")))
    );
    assert_eq!(
        interpret(&shown, &keys(), "ctrl-j\n[ Bee ] - [ /y ]\n".to_string()),
        Ok(Choice::ActionRequested(Action::Demote, entry("Bee", "/y")))
    );
    assert_eq!(
        interpret(&shown, &keys(), "ctrl-a\n[ Bee ] - [ /y ]\n".to_string()),
        Ok(Choice::ActionRequested(Action::Add, entry("Bee", "/y")))
    );
}

#[test]
fn an_unbound_key_is_an_unrecognized_action() {
    let shown = fmt(&two(), &None);
    assert_eq!(
        interpret(&shown, &keys(), "ctrl-x\n[ A   ] - [ /x ]\n".to_string()),
        Err(Error::UnrecognizedAction { key: "ctrl-x".to_string() })
    );
}

#[test]
fn more_than_two_lines_are_unexpected() {
    let shown = fmt(&two(), &None);
    assert_eq!(
        interpret(&shown, &keys(), "x\nctrl-d\n[ A   ] - [ /x ]\n".to_string()),
        Err(Error::UnexpectedOutput)
    );
}

#[test]
fn pick_workspace_returns_the_record_picked() {
    assert_eq!(
        pick_workspace(two(), &None, Some("[ A   ] - [ /x ]\n".to_string())),
        Ok(Some(entry("A", "/x")))
    );
}

#[test]
fn pick_workspace_without_output_picks_nothing() {
    assert_eq!(pick_workspace(two(), &None, None), Ok(None));
    assert_eq!(pick_workspace(two(), &None, Some("".to_string())), Ok(None));
    assert_eq!(pick_workspace(two(), &None, Some(" \n".to_string())), Ok(None));
}

#[test]
fn pick_workspace_fails_on_a_stale_label_or_a_key() {
    assert_eq!(
        pick_workspace(two(), &None, Some("[ A ] - [ /x ]".to_string())),
        Err(Error::StaleLabel)
    );
    assert_eq!(
        pick_workspace(two(), &None, Some("ctrl-d\n[ A   ] - [ /x ]".to_string())),
        Err(Error::UnrecognizedAction { key: "ctrl-d".to_string() })
    );
}

#[test]
fn pick_workspace_renders_with_the_home_directory() {
    let list = vec![entry("A", "/home/u/x")];
    assert_eq!(
        pick_workspace(list.clone(), &Some("/home/u".to_string()), Some("[ A ] - [ ~/x ]".to_string())),
        Ok(Some(entry("A", "/home/u/x")))
    );
    assert_eq!(
        pick_workspace(list, &None, Some("[ A ] - [ ~/x ]".to_string())),
        Err(Error::StaleLabel)
    );
}

#[test]
fn pick_workspace_of_an_empty_collection_fails_at_once() {
    assert_eq!(pick_workspace(Vec::new(), &None, None), Err(Error::EmptyCollection));
    assert_eq!(pick_workspace(Vec::new(), &None, Some("".to_string())), Err(Error::EmptyCollection));
    assert_eq!(
        pick_workspace(Vec::new(), &None, Some("[ A ] - [ /x ]".to_string())),
        Err(Error::EmptyCollection)
    );
}

#[test]
fn present_gives_the_labels_for_the_chooser() {
    assert_eq!(
        present(&two(), &None),
        Ok(vec!["[ A   ] - [ /x ]".to_string(), "[ Bee ] - [ /y ]".to_string()])
    );
    let at_home = vec![entry("A", "/home/u/x")];
    assert_eq!(
        present(&at_home, &Some("/home/u".to_string())),
        Ok(vec!["[ A ] - [ ~/x ]".to_string()])
    );
}

#[test]
fn present_of_an_empty_collection_fails() {
    assert_eq!(present(&Vec::new(), &None), Err(Error::EmptyCollection));
}

#[test]
fn labels_are_the_first_parts_of_a_rendering() {
    let shown = fmt(&two(), &None);
    assert_eq!(labels(&shown), vec!["[ A   ] - [ /x ]", "[ Bee ] - [ /y ]"]);
    assert!(labels(&Vec::new()).is_empty());
}
