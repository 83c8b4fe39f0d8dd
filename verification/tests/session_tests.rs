use workspacers::picker::Action;
use workspacers::session::{confirmation, confirms, start, step, Change, Effect, Event, State};
use workspacers::workspace::{Error, Field, StoreError, Workspace};

fn item(name: &str, path: &str) -> Workspace {
    Workspace { name: name.to_string(), path: path.to_string(), shortcut: None }
}

fn trio() -> Vec<Workspace> {
    vec![item("A", "/x"), item("B", "/y"), item("C", "/z")]
}

fn bindings() -> Vec<(String, Action)> {
    vec![
        ("ctrl-a".to_string(), Action::Add),
        ("ctrl-d".to_string(), Action::Delete),
        ("ctrl-k".to_string(), Action::Promote),
        ("ctrl-j".to_string(), Action::Demote),
    ]
}

fn presenting(list: Vec<Workspace>) -> State {
    let (state, effect) = start();
    assert_eq!(effect, Effect::Load);
    let (state, _) = step(state, Event::Loaded(list), &None, &bindings());
    state
}

#[test]
fn a_session_starts_by_loading() {
    assert_eq!(start(), (State::Idle, Effect::Load));
}

#[test]
fn an_empty_collection_ends_the_session() {
    let (state, effect) = step(State::Idle, Event::Loaded(Vec::new()), &None, &bindings());
    assert_eq!(state, State::Failed(Error::EmptyCollection));
    assert_eq!(effect, Effect::Finish);
}

#[test]
fn a_loaded_collection_is_shown_to_the_chooser() {
    let (state, effect) = step(State::Idle, Event::Loaded(trio()), &None, &bindings());
    let labels = vec![
        "[ A ] - [ /x ]".to_string(),
        "[ B ] - [ /y ]".to_string(),
        "[ C ] - [ /z ]".to_string(),
    ];
    assert_eq!(effect, Effect::Choose(labels.clone()));
    let shown: Vec<(String, Workspace)> = labels.into_iter().zip(trio()).collect();
    assert_eq!(state, State::Presenting { shown });
}

#[test]
fn a_plain_selection_is_returned() {
    let (state, effect) =
        step(presenting(trio()), Event::Chosen("[ B ] - [ /y ]\n".to_string()), &None, &bindings());
    assert_eq!(state, State::Returned(Some(item("B", "/y"))));
    assert_eq!(effect, Effect::Finish);
}

#[test]
fn a_cancel_returns_nothing() {
    let (state, effect) = step(presenting(trio()), Event::Chosen("".to_string()), &None, &bindings());
    assert_eq!(state, State::Returned(None));
    assert_eq!(effect, Effect::Finish);
}

#[test]
fn a_stale_label_aborts() {
    let (state, effect) =
        step(presenting(trio()), Event::Chosen("[ D ] - [ /w ]".to_string()), &None, &bindings());
    assert_eq!(state, State::Failed(Error::StaleLabel));
    assert_eq!(effect, Effect::Finish);
}

#[test]
fn an_unbound_key_aborts() {
    let (state, effect) = step(
        presenting(trio()),
        Event::Chosen("f1\n[ A ] - [ /x ]".to_string()),
        &None,
        &bindings(),
    );
    assert_eq!(state, State::Failed(Error::UnrecognizedAction { key: "f1".to_string() }));
    assert_eq!(effect, Effect::Finish);
}

#[test]
fn promote_reloads_moves_saves_and_presents_again() {
    let (state, effect) = step(
        presenting(trio()),
        Event::Chosen("ctrl-k\n[ B ] - [ /y ]\n".to_string()),
        &None,
        &bindings(),
    );
    assert_eq!(state, State::Applying { change: Change::Move(item("B", "/y"), true) });
    assert_eq!(effect, Effect::Load);
    let (state, effect) = step(state, Event::Loaded(trio()), &None, &bindings());
    assert_eq!(state, State::Saving);
    let moved = vec![item("B", "/y"), item("A", "/x"), item("C", "/z")];
    assert_eq!(effect, Effect::Save(moved.clone()));
    let (state, effect) = step(state, Event::Saved, &None, &bindings());
    assert_eq!(state, State::Idle);
    assert_eq!(effect, Effect::Load);
    let (_, effect) = step(state, Event::Loaded(moved), &None, &bindings());
    assert_eq!(
        effect,
        Effect::Choose(vec![
            "[ B ] - [ /y ]".to_string(),
            "[ A ] - [ /x ]".to_string(),
            "[ C ] - [ /z ]".to_string(),
        ])
    );
}

#[test]
fn demote_of_the_last_record_wraps_round() {
    let (state, _) = step(
        presenting(trio()),
        Event::Chosen("ctrl-j\n[ C ] - [ /z ]\n".to_string()),
        &None,
        &bindings(),
    );
    let (state, effect) = step(state, Event::Loaded(trio()), &None, &bindings());
    assert_eq!(state, State::Saving);
    assert_eq!(effect, Effect::Save(vec![item("C", "/z"), item("A", "/x"), item("B", "/y")]));
}

#[test]
fn a_move_works_on_the_collection_as_it_is_when_reloaded() {
    let (state, _) = step(
        presenting(trio()),
        Event::Chosen("ctrl-k\n[ C ] - [ /z ]\n".to_string()),
        &None,
        &bindings(),
    );
    let shrunk = vec![item("C", "/z"), item("A", "/x")];
    let (_, effect) = step(state, Event::Loaded(shrunk), &None, &bindings());
    assert_eq!(effect, Effect::Save(vec![item("A", "/x"), item("C", "/z")]));
}

#[test]
fn a_move_in_a_collection_of_one_writes_nothing() {
    let one = vec![item("A", "/x")];
    let (state, _) = step(
        presenting(one.clone()),
        Event::Chosen("ctrl-k\n[ A ] - [ /x ]\n".to_string()),
        &None,
        &bindings(),
    );
    let (state, effect) = step(state, Event::Loaded(one), &None, &bindings());
    assert_eq!(state, State::Failed(Error::InsufficientSize));
    assert_eq!(effect, Effect::Finish);
}

#[test]
fn a_move_of_a_record_that_is_gone_writes_nothing() {
    let (state, _) = step(
        presenting(trio()),
        Event::Chosen("ctrl-j\n[ A ] - [ /x ]\n".to_string()),
        &None,
        &bindings(),
    );
    let (state, effect) = step(state, Event::Loaded(Vec::new()), &None, &bindings());
    assert_eq!(state, State::Failed(Error::NotFound));
    assert_eq!(effect, Effect::Finish);
}

#[test]
fn delete_asks_first_and_then_deletes() {
    let (state, effect) = step(
        presenting(trio()),
        Event::Chosen("ctrl-d\n[ B ] - [ /y ]\n".to_string()),
        &None,
        &bindings(),
    );
    assert_eq!(state, State::Confirming { target: item("B", "/y") });
    assert_eq!(effect, Effect::Confirm(item("B", "/y")));
    let (state, effect) = step(state, Event::Confirmed, &None, &bindings());
    assert_eq!(state, State::Applying { change: Change::Delete(item("B", "/y")) });
    assert_eq!(effect, Effect::Load);
    let (state, effect) = step(state, Event::Loaded(trio()), &None, &bindings());
    assert_eq!(state, State::Saving);
    assert_eq!(effect, Effect::Save(vec![item("A", "/x"), item("C", "/z")]));
}

#[test]
fn a_declined_delete_aborts_without_writing() {
    let (state, _) = step(
        presenting(trio()),
        Event::Chosen("ctrl-d\n[ B ] - [ /y ]\n".to_string()),
        &None,
        &bindings(),
    );
    let (state, effect) = step(state, Event::Cancelled, &None, &bindings());
    assert_eq!(state, State::Failed(Error::Cancelled));
    assert_eq!(effect, Effect::Finish);
}

#[test]
fn add_collects_a_record_and_appends_it() {
    let (state, effect) = step(
        presenting(trio()),
        Event::Chosen("ctrl-a\n[ A ] - [ /x ]\n".to_string()),
        &None,
        &bindings(),
    );
    assert_eq!(state, State::Collecting);
    assert_eq!(effect, Effect::Collect(trio()));
    let (state, effect) = step(state, Event::Entered(item("D", "/w")), &None, &bindings());
    assert_eq!(state, State::Applying { change: Change::Add(item("D", "/w")) });
    assert_eq!(effect, Effect::Load);
    let (state, effect) = step(state, Event::Loaded(trio()), &None, &bindings());
    assert_eq!(state, State::Saving);
    let mut grown = trio();
    grown.push(item("D", "/w"));
    assert_eq!(effect, Effect::Save(grown));
}

#[test]
fn a_duplicate_add_aborts_without_writing() {
    let state = State::Applying { change: Change::Add(item("B", "/other")) };
    let (state, effect) = step(state, Event::Loaded(trio()), &None, &bindings());
    assert_eq!(state, State::Failed(Error::DuplicateField { field: Field::Name }));
    assert_eq!(effect, Effect::Finish);
}

#[test]
fn an_abandoned_add_aborts() {
    let (state, effect) = step(State::Collecting, Event::Cancelled, &None, &bindings());
    assert_eq!(state, State::Failed(Error::Cancelled));
    assert_eq!(effect, Effect::Finish);
}

#[test]
fn a_failed_save_aborts_with_its_reason() {
    let (state, effect) =
        step(State::Saving, Event::SaveFailed("disk full".to_string()), &None, &bindings());
    assert_eq!(
        state,
        State::Failed(Error::Store(StoreError::WriteFailed { reason: "disk full".to_string() }))
    );
    assert_eq!(effect, Effect::Finish);
}

#[test]
fn an_event_out_of_turn_aborts() {
    let (state, effect) = step(State::Idle, Event::Saved, &None, &bindings());
    assert_eq!(state, State::Failed(Error::OutOfTurn));
    assert_eq!(effect, Effect::Finish);
    let (state, _) = step(presenting(trio()), Event::Confirmed, &None, &bindings());
    assert_eq!(state, State::Failed(Error::OutOfTurn));
    let (state, _) = step(State::Saving, Event::Loaded(trio()), &None, &bindings());
    assert_eq!(state, State::Failed(Error::OutOfTurn));
}

#[test]
fn a_session_that_is_over_stays_over() {
    let (state, effect) =
        step(State::Returned(Some(item("A", "/x"))), Event::Loaded(trio()), &None, &bindings());
    assert_eq!(state, State::Returned(Some(item("A", "/x"))));
    assert_eq!(effect, Effect::Finish);
    let (state, effect) = step(State::Failed(Error::NotFound), Event::Saved, &None, &bindings());
    assert_eq!(state, State::Failed(Error::NotFound));
    assert_eq!(effect, Effect::Finish);
}

#[test]
fn deleting_the_last_record_ends_in_an_empty_collection() {
    let one = vec![item("A", "/x")];
    let (state, _) = step(
        presenting(one.clone()),
        Event::Chosen("ctrl-d\n[ A ] - [ /x ]\n".to_string()),
        &None,
        &bindings(),
    );
    let (state, _) = step(state, Event::Confirmed, &None, &bindings());
    let (state, effect) = step(state, Event::Loaded(one), &None, &bindings());
    assert_eq!(effect, Effect::Save(Vec::new()));
    let (state, _) = step(state, Event::Saved, &None, &bindings());
    let (state, _) = step(state, Event::Loaded(Vec::new()), &None, &bindings());
    assert_eq!(state, State::Failed(Error::EmptyCollection));
}

#[test]
fn only_y_confirms_a_delete() {
    assert!(confirms("y"));
    assert!(!confirms("Y"));
    assert!(!confirms("yes"));
    assert!(!confirms(" y"));
    assert!(!confirms("n"));
    assert!(!confirms(""));
}

#[test]
fn an_answer_is_reported_as_confirmed_or_cancelled() {
    assert_eq!(confirmation(Some("y".to_string())), Event::Confirmed);
    assert_eq!(confirmation(Some("n".to_string())), Event::Cancelled);
    assert_eq!(confirmation(Some("".to_string())), Event::Cancelled);
    assert_eq!(confirmation(None), Event::Cancelled);
}
