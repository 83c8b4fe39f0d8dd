//! One selection session as a state machine. The session decides; the front end
//! does what it is told (load, show the chooser, ask, save) and reports back what
//! came of it. Nothing is saved but the result of a change that went through, and
//! after every save the collection is loaded and rendered afresh.

use crate::formatter::{
    fmt, label_position, labelled, labelled_as, labels_of, records_of, rendered,
};
use crate::operations::{
    add_workspace, added, delete_workspace, deleted, lemma_shift_needs_two, move_workspace,
    shifted,
};
use crate::picker::{
    bound, choice_of, interpret, labels, selected_lines, texts, Action, Choice, Picked,
};
use crate::search::lemma_first_where;
use crate::text::same_text;
use crate::workspace::{
    records, text_of, Error, Failure, Record, StoreError, StoreFailure, Workspace,
};
use vstd::prelude::*;

verus! {

/// A change to the collection that waits for the collection to be loaded.
#[derive(Debug, PartialEq, Eq)]
pub enum Change {
    /// Append this workspace.
    Add(Workspace),
    /// Delete the workspace that this one identifies.
    Delete(Workspace),
    /// Move the workspace that this one identifies one place up (`true`) or down.
    Move(Workspace, bool),
}

/// What a `Change` holds, as plain values.
pub enum ChangeModel {
    Add(Record),
    Delete(Record),
    Move(Record, bool),
}

impl View for Change {
    type V = ChangeModel;

    open spec fn view(&self) -> ChangeModel {
        match *self {
            Change::Add(w) => ChangeModel::Add(w@),
            Change::Delete(w) => ChangeModel::Delete(w@),
            Change::Move(w, up) => ChangeModel::Move(w@, up),
        }
    }
}

/// Where a session stands.
#[derive(Debug, PartialEq, Eq)]
pub enum State {
    /// Waiting for the collection, to render it.
    Idle,
    /// The chooser shows this rendering; waiting for its output.
    Presenting { shown: Vec<(String, Workspace)> },
    /// Waiting for the values of a new workspace.
    Collecting,
    /// Waiting for the user to confirm that this workspace is to be deleted.
    Confirming { target: Workspace },
    /// Waiting for the collection, to make this change to it.
    Applying { change: Change },
    /// Waiting for the store to have written the changed collection.
    Saving,
    /// Over: this workspace was picked, or none.
    Returned(Option<Workspace>),
    /// Over: the session was aborted for this reason.
    Failed(Error),
}

/// What a `State` holds, as plain values.
pub enum StateModel {
    Idle,
    Presenting { shown: Seq<(Seq<char>, Record)> },
    Collecting,
    Confirming { target: Record },
    Applying { change: ChangeModel },
    Saving,
    Returned(Option<Record>),
    Failed(Failure),
}

impl View for State {
    type V = StateModel;

    open spec fn view(&self) -> StateModel {
        match *self {
            State::Idle => StateModel::Idle,
            State::Presenting { shown } => StateModel::Presenting { shown: labelled(shown@) },
            State::Collecting => StateModel::Collecting,
            State::Confirming { target } => StateModel::Confirming { target: target@ },
            State::Applying { change } => StateModel::Applying { change: change@ },
            State::Saving => StateModel::Saving,
            State::Returned(w) => StateModel::Returned(
                match w {
                    Some(w) => Some(w@),
                    None => None,
                },
            ),
            State::Failed(e) => StateModel::Failed(e@),
        }
    }
}

/// What the front end reports back.
#[derive(Debug, PartialEq, Eq)]
pub enum Event {
    /// The collection as the store holds it now.
    Loaded(Vec<Workspace>),
    /// The output of the chooser; empty where the user left without picking.
    Chosen(String),
    /// The new workspace that the user entered.
    Entered(Workspace),
    /// The user confirmed.
    Confirmed,
    /// The user backed out of entering or confirming.
    Cancelled,
    /// The store has written the collection.
    Saved,
    /// The store could not write the collection, for this reason.
    SaveFailed(String),
}

/// What an `Event` holds, as plain values.
pub enum EventModel {
    Loaded(Seq<Record>),
    Chosen(Seq<char>),
    Entered(Record),
    Confirmed,
    Cancelled,
    Saved,
    SaveFailed(Seq<char>),
}

impl View for Event {
    type V = EventModel;

    open spec fn view(&self) -> EventModel {
        match *self {
            Event::Loaded(list) => EventModel::Loaded(records(list@)),
            Event::Chosen(output) => EventModel::Chosen(output@),
            Event::Entered(w) => EventModel::Entered(w@),
            Event::Confirmed => EventModel::Confirmed,
            Event::Cancelled => EventModel::Cancelled,
            Event::Saved => EventModel::Saved,
            Event::SaveFailed(reason) => EventModel::SaveFailed(reason@),
        }
    }
}

/// What the front end is to do next.
#[derive(Debug, PartialEq, Eq)]
pub enum Effect {
    /// Load the collection and report `Loaded`.
    Load,
    /// Show these labels in the chooser and report `Chosen`.
    Choose(Vec<String>),
    /// Ask for a new workspace, which must not repeat any of these, and report
    /// `Entered` or `Cancelled`.
    Collect(Vec<Workspace>),
    /// Ask whether this workspace is to be deleted and report `Confirmed` or
    /// `Cancelled`.
    Confirm(Workspace),
    /// Write this collection and report `Saved` or `SaveFailed`.
    Save(Vec<Workspace>),
    /// Nothing: the session is over.
    Finish,
}

/// What an `Effect` holds, as plain values.
pub enum EffectModel {
    Load,
    Choose(Seq<Seq<char>>),
    Collect(Seq<Record>),
    Confirm(Record),
    Save(Seq<Record>),
    Finish,
}

impl View for Effect {
    type V = EffectModel;

    open spec fn view(&self) -> EffectModel {
        match *self {
            Effect::Load => EffectModel::Load,
            Effect::Choose(labels) => EffectModel::Choose(texts(labels@)),
            Effect::Collect(list) => EffectModel::Collect(records(list@)),
            Effect::Confirm(w) => EffectModel::Confirm(w@),
            Effect::Save(list) => EffectModel::Save(records(list@)),
            Effect::Finish => EffectModel::Finish,
        }
    }
}

/// The collection after `change`, or why the change cannot be made.
pub open spec fn applied(c: Seq<Record>, change: ChangeModel) -> Result<Seq<Record>, Failure> {
    match change {
        ChangeModel::Add(new) => added(c, new),
        ChangeModel::Delete(key) => deleted(c, key),
        ChangeModel::Move(key, up) => match shifted(c, key, up) {
            Ok((d, _)) => Ok(d),
            Err(e) => Err(e),
        },
    }
}

/// A session is over once a workspace, or none, was returned, or it was aborted.
pub open spec fn is_over(state: StateModel) -> bool {
    state is Returned || state is Failed
}

/// The state that a session goes to on an event, and what the front end is to do
/// then.
pub open spec fn next(
    state: StateModel,
    event: EventModel,
    home: Option<Seq<char>>,
    bindings: Seq<(Seq<char>, Action)>,
) -> (StateModel, EffectModel) {
    match (state, event) {
        (StateModel::Returned(r), _) => (StateModel::Returned(r), EffectModel::Finish),
        (StateModel::Failed(e), _) => (StateModel::Failed(e), EffectModel::Finish),
        (StateModel::Idle, EventModel::Loaded(c)) => if c.len() == 0 {
            (StateModel::Failed(Failure::EmptyCollection), EffectModel::Finish)
        } else {
            (
                StateModel::Presenting { shown: rendered(c, home) },
                EffectModel::Choose(labels_of(rendered(c, home))),
            )
        },
        (StateModel::Presenting { shown }, EventModel::Chosen(output)) => match choice_of(
            shown,
            bindings,
            selected_lines(output),
        ) {
            Err(e) => (StateModel::Failed(e), EffectModel::Finish),
            Ok(Picked::Cancelled) => (StateModel::Returned(None), EffectModel::Finish),
            Ok(Picked::Selected(r)) => (StateModel::Returned(Some(r)), EffectModel::Finish),
            Ok(Picked::ActionRequested(Action::Add, _)) => (
                StateModel::Collecting,
                EffectModel::Collect(records_of(shown)),
            ),
            Ok(Picked::ActionRequested(Action::Delete, r)) => (
                StateModel::Confirming { target: r },
                EffectModel::Confirm(r),
            ),
            Ok(Picked::ActionRequested(Action::Promote, r)) => (
                StateModel::Applying { change: ChangeModel::Move(r, true) },
                EffectModel::Load,
            ),
            Ok(Picked::ActionRequested(Action::Demote, r)) => (
                StateModel::Applying { change: ChangeModel::Move(r, false) },
                EffectModel::Load,
            ),
        },
        (StateModel::Collecting, EventModel::Entered(r)) => (
            StateModel::Applying { change: ChangeModel::Add(r) },
            EffectModel::Load,
        ),
        (StateModel::Collecting, EventModel::Cancelled) => (
            StateModel::Failed(Failure::Cancelled),
            EffectModel::Finish,
        ),
        (StateModel::Confirming { target }, EventModel::Confirmed) => (
            StateModel::Applying { change: ChangeModel::Delete(target) },
            EffectModel::Load,
        ),
        (StateModel::Confirming { target }, EventModel::Cancelled) => (
            StateModel::Failed(Failure::Cancelled),
            EffectModel::Finish,
        ),
        (StateModel::Applying { change }, EventModel::Loaded(c)) => match applied(c, change) {
            Ok(d) => (StateModel::Saving, EffectModel::Save(d)),
            Err(e) => (StateModel::Failed(e), EffectModel::Finish),
        },
        (StateModel::Saving, EventModel::Saved) => (StateModel::Idle, EffectModel::Load),
        (StateModel::Saving, EventModel::SaveFailed(reason)) => (
            StateModel::Failed(Failure::Store(StoreFailure::WriteFailed { reason })),
            EffectModel::Finish,
        ),
        _ => (StateModel::Failed(Failure::OutOfTurn), EffectModel::Finish),
    }
}

/// The answer that confirms a delete.
pub open spec fn yes() -> Seq<char> {
    seq!['y']
}

/// Whether an answer to the question before a delete confirms it: only `y` does.
pub fn confirms(answer: &str) -> (b: bool)
    ensures
        b == (answer@ == yes()),
{
    proof {
        reveal_strlit("y");
    }
    assert("y"@ =~= yes());
    same_text(answer, "y")
}

/// What an answer to the question before a delete is reported as: `Confirmed`
/// for the answer that confirms, `Cancelled` for any other and for none.
pub fn confirmation(answer: Option<String>) -> (out: Event)
    ensures
        out@ == if text_of(answer) == Some(yes()) {
            EventModel::Confirmed
        } else {
            EventModel::Cancelled
        },
{
    match answer {
        Some(text) => {
            if confirms(text.as_str()) {
                Event::Confirmed
            } else {
                Event::Cancelled
            }
        },
        None => Event::Cancelled,
    }
}

/// How a session begins: it waits for the collection, which the front end is to
/// load.
pub fn start() -> (out: (State, Effect))
    ensures
        out.0@ == StateModel::Idle,
        out.1@ == EffectModel::Load,
{
    (State::Idle, Effect::Load)
}

/// The workspaces of a rendering.
fn shown_workspaces(shown: &Vec<(String, Workspace)>) -> (out: Vec<Workspace>)
    ensures
        records(out@) == records_of(labelled(shown@)),
{
    let mut out: Vec<Workspace> = Vec::new();
    let mut i: usize = 0;
    while i < shown.len()
        invariant
            i <= shown@.len(),
            out@.len() == i,
            forall|k: int| 0 <= k < i ==> (#[trigger] out@[k]) == shown@[k].1,
        decreases shown@.len() - i,
    {
        out.push(shown[i].1.clone());
        i = i + 1;
    }
    assert(records(out@) =~= records_of(labelled(shown@)));
    out
}

/// Makes a change to the collection just loaded.
fn apply(list: Vec<Workspace>, change: Change) -> (out: Result<Vec<Workspace>, Error>)
    ensures
        match out {
            Ok(d) => applied(records(list@), change@) == Ok::<Seq<Record>, Failure>(records(d@)),
            Err(e) => applied(records(list@), change@) == Err::<Seq<Record>, Failure>(e@),
        },
{
    let mut list = list;
    match change {
        Change::Add(w) => match add_workspace(&mut list, w) {
            Ok(()) => Ok(list),
            Err(e) => Err(e),
        },
        Change::Delete(w) => match delete_workspace(&mut list, &w) {
            Ok(()) => Ok(list),
            Err(e) => Err(e),
        },
        Change::Move(w, up) => match move_workspace(&mut list, &w, up) {
            Ok(_) => Ok(list),
            Err(e) => Err(e),
        },
    }
}

/// Takes a session one step on: from the state it is in and what the front end
/// reports, to the state it goes to and what the front end is to do next.
pub fn step(
    state: State,
    event: Event,
    home: &Option<String>,
    bindings: &Vec<(String, Action)>,
) -> (out: (State, Effect))
    ensures
        (out.0@, out.1@) == next(state@, event@, text_of(*home), bound(bindings@)),
{
    match (state, event) {
        (State::Returned(r), _) => (State::Returned(r), Effect::Finish),
        (State::Failed(e), _) => (State::Failed(e), Effect::Finish),
        (State::Idle, Event::Loaded(list)) => {
            if list.len() == 0 {
                (State::Failed(Error::EmptyCollection), Effect::Finish)
            } else {
                let shown = fmt(&list, home);
                let texts = labels(&shown);
                (State::Presenting { shown }, Effect::Choose(texts))
            }
        },
        (State::Presenting { shown }, Event::Chosen(output)) => {
            match interpret(&shown, bindings, output) {
                Err(e) => (State::Failed(e), Effect::Finish),
                Ok(Choice::Cancelled) => (State::Returned(None), Effect::Finish),
                Ok(Choice::Selected(w)) => (State::Returned(Some(w)), Effect::Finish),
                Ok(Choice::ActionRequested(Action::Add, _)) => (
                    State::Collecting,
                    Effect::Collect(shown_workspaces(&shown)),
                ),
                Ok(Choice::ActionRequested(Action::Delete, w)) => {
                    let target = w.clone();
                    (State::Confirming { target }, Effect::Confirm(w))
                },
                Ok(Choice::ActionRequested(Action::Promote, w)) => (
                    State::Applying { change: Change::Move(w, true) },
                    Effect::Load,
                ),
                Ok(Choice::ActionRequested(Action::Demote, w)) => (
                    State::Applying { change: Change::Move(w, false) },
                    Effect::Load,
                ),
            }
        },
        (State::Collecting, Event::Entered(w)) => (
            State::Applying { change: Change::Add(w) },
            Effect::Load,
        ),
        (State::Collecting, Event::Cancelled) => (State::Failed(Error::Cancelled), Effect::Finish),
        (State::Confirming { target }, Event::Confirmed) => (
            State::Applying { change: Change::Delete(target) },
            Effect::Load,
        ),
        (State::Confirming { target }, Event::Cancelled) => (
            State::Failed(Error::Cancelled),
            Effect::Finish,
        ),
        (State::Applying { change }, Event::Loaded(list)) => match apply(list, change) {
            Ok(d) => (State::Saving, Effect::Save(d)),
            Err(e) => (State::Failed(e), Effect::Finish),
        },
        (State::Saving, Event::Saved) => (State::Idle, Effect::Load),
        (State::Saving, Event::SaveFailed(reason)) => (
            State::Failed(Error::Store(StoreError::WriteFailed { reason })),
            Effect::Finish,
        ),
        _ => (State::Failed(Error::OutOfTurn), Effect::Finish),
    }
}

/// A session that is over stays as it is, whatever is reported to it, and asks
/// for nothing more.
pub proof fn lemma_over_stays(
    state: StateModel,
    event: EventModel,
    home: Option<Seq<char>>,
    bindings: Seq<(Seq<char>, Action)>,
)
    requires
        is_over(state),
    ensures
        next(state, event, home, bindings) == (state, EffectModel::Finish),
{
}

/// The front end is told to finish exactly when the session is over.
pub proof fn lemma_finish_when_over(
    state: StateModel,
    event: EventModel,
    home: Option<Seq<char>>,
    bindings: Seq<(Seq<char>, Action)>,
)
    ensures
        next(state, event, home, bindings).1 is Finish <==> is_over(
            next(state, event, home, bindings).0,
        ),
{
}

/// Nothing is written but the result of a change that went through on the
/// collection just loaded: a change that fails ends the session with its error
/// and writes nothing.
pub proof fn lemma_saves_only_changes(
    state: StateModel,
    event: EventModel,
    home: Option<Seq<char>>,
    bindings: Seq<(Seq<char>, Action)>,
)
    ensures
        next(state, event, home, bindings).1 matches EffectModel::Save(d) ==> {
            &&& state matches StateModel::Applying { change }
            &&& event matches EventModel::Loaded(c)
            &&& applied(c, change) == Ok::<Seq<Record>, Failure>(d)
        },
        state is Applying && event is Loaded && applied(event->Loaded_0, state->change) is Err
            ==> next(state, event, home, bindings) == (
            StateModel::Failed(applied(event->Loaded_0, state->change)->Err_0),
            EffectModel::Finish,
        ),
{
}

/// A move asked for on a collection of one record or none writes nothing and
/// ends the session with `InsufficientSize` or `NotFound`.
pub proof fn lemma_move_needs_two(
    key: Record,
    up: bool,
    c: Seq<Record>,
    home: Option<Seq<char>>,
    bindings: Seq<(Seq<char>, Action)>,
)
    requires
        c.len() <= 1,
    ensures
        ({
            let out = next(
                StateModel::Applying { change: ChangeModel::Move(key, up) },
                EventModel::Loaded(c),
                home,
                bindings,
            );
            &&& out.1 == EffectModel::Finish
            &&& out.0 == StateModel::Failed(Failure::InsufficientSize) || out.0
                == StateModel::Failed(Failure::NotFound)
        }),
{
    lemma_shift_needs_two(c, key, up);
}

/// A session returns a workspace only from the chooser's answer to a rendering:
/// the answer is one line, and that line is the label of the workspace returned.
pub proof fn lemma_returns_what_was_picked(
    state: StateModel,
    event: EventModel,
    home: Option<Seq<char>>,
    bindings: Seq<(Seq<char>, Action)>,
)
    requires
        !is_over(state),
        next(state, event, home, bindings).0 matches StateModel::Returned(Some(_)),
    ensures
        ({
            let r = next(state, event, home, bindings).0->Returned_0->0;
            &&& state matches StateModel::Presenting { shown }
            &&& event matches EventModel::Chosen(output)
            &&& selected_lines(output).len() == 1
            &&& exists|i: int|
                0 <= i < shown.len() && #[trigger] shown[i] == (selected_lines(output)[0], r)
        }),
{
    let shown = state->shown;
    let output = event->Chosen_0;
    let lines = selected_lines(output);
    lemma_first_where(shown, labelled_as(lines[0]));
    let i = label_position(shown, lines[0])->0;
    assert(shown[i] == (lines[0], shown[i].1));
}

/// After a change has been written, the session loads the collection again and
/// renders what it then holds: no rendering outlives a change.
pub proof fn lemma_fresh_after_save(
    c: Seq<Record>,
    home: Option<Seq<char>>,
    bindings: Seq<(Seq<char>, Action)>,
)
    ensures
        next(StateModel::Saving, EventModel::Saved, home, bindings) == (
            StateModel::Idle,
            EffectModel::Load,
        ),
        c.len() > 0 ==> next(StateModel::Idle, EventModel::Loaded(c), home, bindings) == (
            StateModel::Presenting { shown: rendered(c, home) },
            EffectModel::Choose(labels_of(rendered(c, home))),
        ),
        c.len() == 0 ==> next(StateModel::Idle, EventModel::Loaded(c), home, bindings) == (
            StateModel::Failed(Failure::EmptyCollection),
            EffectModel::Finish,
        ),
{
}

} // verus!
