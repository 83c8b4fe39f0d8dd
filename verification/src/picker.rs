//! Reading what the chooser answered: the lines of its output, the record that
//! was picked, and the action that was asked for.

use crate::formatter::{find, fmt, label_position, labelled, labels_of, rendered};
use crate::search::{first_where, lemma_first_where_at, lemma_first_where_none};
use crate::text::{chars_of, split, trim, trimmed};
use crate::workspace::{records, text_of, Error, Failure, Record, Workspace};
use vstd::prelude::*;
use vstd::string::*;

verus! {

/// The texts of a list of strings, in order.
pub open spec fn texts(list: Seq<String>) -> Seq<Seq<char>> {
    list.map_values(|s: String| s@)
}

/// The pieces that count as lines: each one trimmed, those that are then empty
/// left out, in their order.
pub open spec fn kept_lines(pieces: Seq<Seq<char>>) -> Seq<Seq<char>>
    decreases pieces.len(),
{
    if pieces.len() == 0 {
        Seq::empty()
    } else {
        let before = kept_lines(pieces.drop_last());
        let line = trimmed(pieces.last());
        if line.len() > 0 {
            before.push(line)
        } else {
            before
        }
    }
}

/// The lines of the chooser's output, last line first: where a key was pressed the
/// chooser prints the key before the label, so the label comes first here.
pub open spec fn selected_lines(output: Seq<char>) -> Seq<Seq<char>> {
    kept_lines(split(output, '\n')).reverse()
}

/// Splits the chooser's output into its lines, trims each, drops the empty ones,
/// and returns them last line first.
pub fn filter_result(output: String) -> (out: Vec<String>)
    ensures
        texts(out@) == selected_lines(output@),
{
    let chars = chars_of(output.as_str());
    let n: usize = chars.len();
    let ghost s = output@;
    let ghost mut done: Seq<Seq<char>> = Seq::empty();
    let mut kept: Vec<String> = Vec::new();
    let mut start: usize = 0;
    let mut k: usize = 0;
    assert(s.take(0) =~= Seq::<char>::empty());
    assert(s.subrange(0, 0) =~= Seq::<char>::empty());
    assert(seq![Seq::<char>::empty()] =~= Seq::<Seq<char>>::empty().push(Seq::<char>::empty()));
    assert(texts(kept@) =~= kept_lines(done));
    while k < n
        invariant
            n == chars@.len(),
            chars@ == s,
            s == output@,
            start <= k <= n,
            split(s.take(k as int), '\n') == done.push(s.subrange(start as int, k as int)),
            texts(kept@) == kept_lines(done),
        decreases n - k,
    {
        proof {
            assert(s.take(k + 1).drop_last() =~= s.take(k as int));
            assert(s.take(k + 1).last() == s[k as int]);
            assert(done.push(s.subrange(start as int, k as int)).drop_last() =~= done);
        }
        if chars[k] == '\n' {
            let piece = s_piece(&output, start, k);
            let line = trim(piece.as_str());
            proof {
                let full = done.push(s.subrange(start as int, k as int));
                assert(full.drop_last() =~= done);
                assert(s.subrange(k + 1, k + 1) =~= Seq::<char>::empty());
                done = full;
            }
            if line.as_str().unicode_len() > 0 {
                kept.push(line);
                assert(texts(kept@) =~= kept_lines(done));
            }
            start = k + 1;
        } else {
            proof {
                assert(s.subrange(start as int, k as int).push(s[k as int]) =~= s.subrange(
                    start as int,
                    k + 1,
                ));
            }
        }
        k = k + 1;
    }
    let piece = s_piece(&output, start, n);
    let line = trim(piece.as_str());
    proof {
        assert(s.take(n as int) =~= s);
        let full = done.push(s.subrange(start as int, n as int));
        assert(full.drop_last() =~= done);
        done = full;
    }
    if line.as_str().unicode_len() > 0 {
        kept.push(line);
        assert(texts(kept@) =~= kept_lines(done));
    }
    let ghost forward = texts(kept@);
    let mut out: Vec<String> = Vec::new();
    while kept.len() > 0
        invariant
            kept@.len() <= forward.len(),
            texts(kept@) == forward.take(kept@.len() as int),
            out@.len() == forward.len() - kept@.len(),
            forall|j: int| 0 <= j < out@.len() ==> (#[trigger] out@[j])@ == forward[forward.len() - 1 - j],
        decreases kept@.len(),
    {
        let ghost before = kept@;
        let last = kept.pop().unwrap();
        proof {
            assert(texts(before)[before.len() - 1] == last@);
            assert(texts(kept@) =~= forward.take(kept@.len() as int));
        }
        out.push(last);
    }
    assert(texts(out@) =~= forward.reverse());
    out
}

/// The characters of `s` from `from` up to `to`, as a string of their own.
fn s_piece(s: &String, from: usize, to: usize) -> (out: String)
    requires
        from <= to <= s@.len(),
    ensures
        out@ == s@.subrange(from as int, to as int),
{
    String::from_str(s.as_str().substring_char(from, to))
}

/// What the user can ask for with a key while picking.
#[derive(Clone, Copy, Debug, PartialEq, Eq)]
pub enum Action {
    /// Take in a new workspace.
    Add,
    /// Delete the workspace under the cursor.
    Delete,
    /// Move it one place toward the front.
    Promote,
    /// Move it one place toward the back.
    Demote,
}

/// Keys and the actions bound to them, as plain values.
pub open spec fn bound(bindings: Seq<(String, Action)>) -> Seq<(Seq<char>, Action)> {
    bindings.map_values(|b: (String, Action)| (b.0@, b.1))
}

/// The test that a binding is for the key `key`.
pub open spec fn bound_to(key: Seq<char>) -> spec_fn((Seq<char>, Action)) -> bool {
    |b: (Seq<char>, Action)| b.0 == key
}

/// The action that `key` is bound to: that of the first binding for it.
pub open spec fn action_for(bindings: Seq<(Seq<char>, Action)>, key: Seq<char>) -> Option<Action> {
    match first_where(bindings, bound_to(key)) {
        Some(i) => Some(bindings[i].1),
        None => None,
    }
}

/// Looks up the action that a key is bound to.
pub fn find_action(bindings: &Vec<(String, Action)>, key: &String) -> (out: Option<Action>)
    ensures
        out == action_for(bound(bindings@), key@),
{
    let ghost b = bound(bindings@);
    let ghost p = bound_to(key@);
    let mut i: usize = 0;
    while i < bindings.len()
        invariant
            i <= bindings@.len(),
            b == bound(bindings@),
            p == bound_to(key@),
            forall|j: int| 0 <= j < i ==> !p(#[trigger] b[j]),
        decreases bindings@.len() - i,
    {
        if bindings[i].0 == *key {
            proof {
                lemma_first_where_at(b, p, i as int);
            }
            return Some(bindings[i].1);
        }
        i = i + 1;
    }
    proof {
        lemma_first_where_none(b, p);
    }
    None
}

/// What the user decided.
#[derive(Debug, PartialEq, Eq)]
pub enum Choice {
    /// Nothing was picked.
    Cancelled,
    /// This workspace was picked.
    Selected(Workspace),
    /// A key was pressed on this workspace.
    ActionRequested(Action, Workspace),
}

/// What a `Choice` holds, as plain values.
pub enum Picked {
    Cancelled,
    Selected(Record),
    ActionRequested(Action, Record),
}

impl View for Choice {
    type V = Picked;

    open spec fn view(&self) -> Picked {
        match *self {
            Choice::Cancelled => Picked::Cancelled,
            Choice::Selected(w) => Picked::Selected(w@),
            Choice::ActionRequested(a, w) => Picked::ActionRequested(a, w@),
        }
    }
}

/// What the lines of the chooser's output mean, against the rendering that the
/// chooser was given: no line, nothing picked; the first line, the label of the
/// record picked; a second line, the key of an action on it.
pub open spec fn choice_of(
    shown: Seq<(Seq<char>, Record)>,
    bindings: Seq<(Seq<char>, Action)>,
    lines: Seq<Seq<char>>,
) -> Result<Picked, Failure> {
    if lines.len() == 0 {
        Ok(Picked::Cancelled)
    } else {
        match label_position(shown, lines[0]) {
            None => Err(Failure::StaleLabel),
            Some(i) => if lines.len() == 1 {
                Ok(Picked::Selected(shown[i].1))
            } else if lines.len() == 2 {
                match action_for(bindings, lines[1]) {
                    Some(action) => Ok(Picked::ActionRequested(action, shown[i].1)),
                    None => Err(Failure::UnrecognizedAction { key: lines[1] }),
                }
            } else {
                Err(Failure::UnexpectedOutput)
            },
        }
    }
}

/// The view of a result of `interpret`.
pub open spec fn choice_view(out: Result<Choice, Error>) -> Result<Picked, Failure> {
    match out {
        Ok(c) => Ok(c@),
        Err(e) => Err(e@),
    }
}

/// Reads the chooser's output against the rendering that the chooser was given
/// and the keys that actions are bound to.
pub fn interpret(
    fmt_vals: &Vec<(String, Workspace)>,
    bindings: &Vec<(String, Action)>,
    output: String,
) -> (out: Result<Choice, Error>)
    ensures
        choice_view(out) == choice_of(
            labelled(fmt_vals@),
            bound(bindings@),
            selected_lines(output@),
        ),
        out matches Ok(Choice::Selected(w)) ==> exists|i: int|
            0 <= i < fmt_vals@.len() && w == #[trigger] fmt_vals@[i].1,
        out matches Ok(Choice::ActionRequested(_, w)) ==> exists|i: int|
            0 <= i < fmt_vals@.len() && w == #[trigger] fmt_vals@[i].1,
{
    let mut lines = filter_result(output);
    let ghost all = texts(lines@);
    if lines.len() == 0 {
        return Ok(Choice::Cancelled);
    }
    assert(all[0] == lines@[0]@);
    let picked: Workspace = match find(fmt_vals, lines[0].as_str()) {
        Some(w) => w.clone(),
        None => {
            return Err(Error::StaleLabel);
        },
    };
    if lines.len() == 1 {
        Ok(Choice::Selected(picked))
    } else if lines.len() == 2 {
        assert(all[1] == lines@[1]@);
        match find_action(bindings, &lines[1]) {
            Some(action) => Ok(Choice::ActionRequested(action, picked)),
            None => {
                let key = lines.pop().unwrap();
                Err(Error::UnrecognizedAction { key })
            },
        }
    } else {
        Err(Error::UnexpectedOutput)
    }
}

/// The labels of a rendering, to hand to the chooser.
pub fn labels(fmt_vals: &Vec<(String, Workspace)>) -> (out: Vec<String>)
    ensures
        texts(out@) == labels_of(labelled(fmt_vals@)),
{
    let mut out: Vec<String> = Vec::new();
    let mut i: usize = 0;
    while i < fmt_vals.len()
        invariant
            i <= fmt_vals@.len(),
            out@.len() == i,
            forall|k: int| 0 <= k < i ==> (#[trigger] out@[k])@ == fmt_vals@[k].0@,
        decreases fmt_vals@.len() - i,
    {
        out.push(fmt_vals[i].0.clone());
        i = i + 1;
    }
    assert(texts(out@) =~= labels_of(labelled(fmt_vals@)));
    out
}

/// What is shown to the chooser for a collection: its labels, in order. There is
/// nothing to show for an empty collection, and the chooser is not to be run.
pub fn present(workspaces: &Vec<Workspace>, home: &Option<String>) -> (out: Result<
    Vec<String>,
    Error,
>)
    ensures
        match out {
            Ok(l) => workspaces@.len() > 0 && texts(l@) == labels_of(
                rendered(records(workspaces@), text_of(*home)),
            ),
            Err(e) => workspaces@.len() == 0 && e == Error::EmptyCollection,
        },
{
    if workspaces.len() == 0 {
        return Err(Error::EmptyCollection);
    }
    let shown = fmt(workspaces, home);
    Ok(labels(&shown))
}

/// What picking without any key bound to an action comes to, for a collection
/// shown as `shown`: `EmptyCollection` where there is nothing to pick from,
/// whatever the chooser answered.
pub open spec fn pick_of(shown: Seq<(Seq<char>, Record)>, output: Option<Seq<char>>) -> Result<
    Option<Record>,
    Failure,
> {
    if shown.len() == 0 {
        Err(Failure::EmptyCollection)
    } else {
        match output {
            None => Ok(None),
            Some(text) => match choice_of(shown, Seq::empty(), selected_lines(text)) {
                Ok(Picked::Selected(r)) => Ok(Some(r)),
                Ok(_) => Ok(None),
                Err(e) => Err(e),
            },
        }
    }
}

/// The workspace that the user picked from `workspaces`, given what the chooser
/// answered when it was shown their labels: `None` where the chooser gave no
/// output or no line, the workspace whose label is the one line, and an error for
/// a label that is not among those shown or for any further line. An empty
/// collection is an error at once.
pub fn pick_workspace(
    workspaces: Vec<Workspace>,
    home: &Option<String>,
    output: Option<String>,
) -> (out: Result<Option<Workspace>, Error>)
    ensures
        match out {
            Ok(Some(w)) => pick_of(
                rendered(records(workspaces@), text_of(*home)),
                text_of(output),
            ) == Ok::<Option<Record>, Failure>(Some(w@)) && exists|i: int|
                0 <= i < workspaces@.len() && w == #[trigger] workspaces@[i],
            Ok(None) => pick_of(rendered(records(workspaces@), text_of(*home)), text_of(output))
                == Ok::<Option<Record>, Failure>(None),
            Err(e) => pick_of(rendered(records(workspaces@), text_of(*home)), text_of(output))
                == Err::<Option<Record>, Failure>(e@),
        },
        workspaces@.len() == 0 ==> out == Err::<Option<Workspace>, Error>(Error::EmptyCollection),
{
    if workspaces.len() == 0 {
        return Err(Error::EmptyCollection);
    }
    let fmt_vals = fmt(&workspaces, home);
    let none: Vec<(String, Action)> = Vec::new();
    assert(bound(none@) =~= Seq::empty());
    match output {
        None => Ok(None),
        Some(text) => match interpret(&fmt_vals, &none, text) {
            Ok(Choice::Selected(w)) => {
                let ghost i = choose|i: int| 0 <= i < fmt_vals@.len() && w == #[trigger] fmt_vals@[i].1;
                assert(w == workspaces@[i]);
                Ok(Some(w))
            },
            Ok(_) => Ok(None),
            Err(e) => Err(e),
        },
    }
}

} // verus!
