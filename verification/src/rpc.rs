//! The requests that an editor client sends: their names, the shape of their
//! arguments, and what each one does to a collection.

use crate::formatter::{
    expanded_path, fmt, label_position, labelled, labelled_as, position, rendered, unfmt_path,
    unfmt_ws_value, unquoted_value,
};
use crate::operations::{
    add_workspace, collision, delete_workspace, identified_by, move_workspace, moved, position_of,
    replace_workspace, target_index,
};
use crate::search::{first_where, lemma_first_where, lemma_first_where_at, lemma_first_where_none};
use crate::text::same_text;
use crate::workspace::{records, text_of, Error, Record, Workspace};
use vstd::prelude::*;
use vstd::string::*;

verus! {

/// An argument of a request, as far as its shape matters: a text, a map from
/// arguments to arguments, or anything else.
#[derive(Debug, PartialEq, Eq)]
pub enum Arg {
    Text(String),
    Table(Vec<(Arg, Arg)>),
    Other,
}

impl Arg {
    /// The characters of a text argument.
    pub open spec fn text(self) -> Option<Seq<char>> {
        match self {
            Arg::Text(s) => Some(s@),
            _ => None,
        }
    }

    /// The entries of a map argument, in order.
    pub open spec fn entries(self) -> Option<Seq<(Arg, Arg)>> {
        match self {
            Arg::Table(m) => Some(m@),
            _ => None,
        }
    }

    /// The text, where the argument is one.
    pub fn as_text(&self) -> (out: Option<&String>)
        ensures
            match out {
                Some(s) => self.text() == Some(s@),
                None => self.text() is None,
            },
    {
        match self {
            Arg::Text(s) => Some(s),
            _ => None,
        }
    }

    /// The entries, where the argument is a map.
    pub fn as_map(&self) -> (out: Option<&Vec<(Arg, Arg)>>)
        ensures
            match out {
                Some(m) => self.entries() == Some(m@),
                None => self.entries() is None,
            },
    {
        match self {
            Arg::Table(m) => Some(m),
            _ => None,
        }
    }
}

/// The test that an entry of a map has the text `key` as its key.
pub open spec fn keyed(key: Seq<char>) -> spec_fn((Arg, Arg)) -> bool {
    |e: (Arg, Arg)| e.0.text() == Some(key)
}

/// The value of the first entry of `map` whose key is the text `key`.
pub open spec fn entry(map: Seq<(Arg, Arg)>, key: Seq<char>) -> Option<Arg> {
    match first_where(map, keyed(key)) {
        Some(i) => Some(map[i].1),
        None => None,
    }
}

/// Looks `key` up in a map argument. Entries whose key is no text match nothing.
pub fn lookup<'a>(map: &'a Vec<(Arg, Arg)>, key: &str) -> (out: Option<&'a Arg>)
    ensures
        match out {
            Some(a) => entry(map@, key@) == Some(*a),
            None => entry(map@, key@) is None,
        },
{
    let wanted = String::from_str(key);
    let ghost p = keyed(key@);
    let mut i: usize = 0;
    while i < map.len()
        invariant
            i <= map@.len(),
            wanted@ == key@,
            p == keyed(key@),
            forall|j: int| 0 <= j < i ==> !p(#[trigger] map@[j]),
        decreases map@.len() - i,
    {
        let hit = match map[i].0.as_text() {
            Some(s) => *s == wanted,
            None => false,
        };
        if hit {
            proof {
                lemma_first_where_at(map@, p, i as int);
            }
            return Some(&map[i].1);
        }
        i = i + 1;
    }
    proof {
        lemma_first_where_none(map@, p);
    }
    None
}

/// The operations that a client can ask for.
#[derive(Clone, Copy, Debug, PartialEq, Eq)]
pub enum Command {
    List,
    Record,
    Add,
    Delete,
    Promote,
    Demote,
    Replace,
    Json,
}

/// The operation that a request name stands for.
pub open spec fn command_named(name: Seq<char>) -> Option<Command> {
    if name == "WORKSPACERS.LIST"@ {
        Some(Command::List)
    } else if name == "WORKSPACERS.RECORD"@ {
        Some(Command::Record)
    } else if name == "WORKSPACERS.ADD"@ {
        Some(Command::Add)
    } else if name == "WORKSPACERS.DELETE"@ {
        Some(Command::Delete)
    } else if name == "WORKSPACERS.PROMOTE"@ {
        Some(Command::Promote)
    } else if name == "WORKSPACERS.DEMOTE"@ {
        Some(Command::Demote)
    } else if name == "WORKSPACERS.REPLACE"@ {
        Some(Command::Replace)
    } else if name == "WORKSPACERS.JSON"@ {
        Some(Command::Json)
    } else {
        None
    }
}

/// Recognises a request name.
pub fn parse_command(name: &str) -> (out: Option<Command>)
    ensures
        out == command_named(name@),
{
    if same_text(name, "WORKSPACERS.LIST") {
        Some(Command::List)
    } else if same_text(name, "WORKSPACERS.RECORD") {
        Some(Command::Record)
    } else if same_text(name, "WORKSPACERS.ADD") {
        Some(Command::Add)
    } else if same_text(name, "WORKSPACERS.DELETE") {
        Some(Command::Delete)
    } else if same_text(name, "WORKSPACERS.PROMOTE") {
        Some(Command::Promote)
    } else if same_text(name, "WORKSPACERS.DEMOTE") {
        Some(Command::Demote)
    } else if same_text(name, "WORKSPACERS.REPLACE") {
        Some(Command::Replace)
    } else if same_text(name, "WORKSPACERS.JSON") {
        Some(Command::Json)
    } else {
        None
    }
}

/// A request with its arguments checked and named.
#[derive(Debug, PartialEq, Eq)]
pub enum Request {
    /// Render the collection.
    List,
    /// Resolve a label of an earlier rendering to its record.
    Record { label: String },
    /// Append a record with this name and this path, as the client gave it.
    Add { name: String, path: String },
    /// Delete the record with this label.
    Delete { label: String },
    /// Move the record with this label one place up.
    Promote { label: String },
    /// Move the record with this label one place down.
    Demote { label: String },
    /// Give the record with this label a new name and a new path.
    Replace { label: String, name: String, path: String },
    /// Name the directory that holds the collections.
    Json,
    /// A name that stands for no operation, or an `Add` whose payload is no map:
    /// answered with `false`.
    Unsupported,
}

/// What a `Request` holds, as plain character sequences.
pub enum Call {
    List,
    Record { label: Seq<char> },
    Add { name: Seq<char>, path: Seq<char> },
    Delete { label: Seq<char> },
    Promote { label: Seq<char> },
    Demote { label: Seq<char> },
    Replace { label: Seq<char>, name: Seq<char>, path: Seq<char> },
    Json,
    Unsupported,
}

impl View for Request {
    type V = Call;

    open spec fn view(&self) -> Call {
        match *self {
            Request::List => Call::List,
            Request::Record { label } => Call::Record { label: label@ },
            Request::Add { name, path } => Call::Add { name: name@, path: path@ },
            Request::Delete { label } => Call::Delete { label: label@ },
            Request::Promote { label } => Call::Promote { label: label@ },
            Request::Demote { label } => Call::Demote { label: label@ },
            Request::Replace { label, name, path } => Call::Replace {
                label: label@,
                name: name@,
                path: path@,
            },
            Request::Json => Call::Json,
            Request::Unsupported => Call::Unsupported,
        }
    }
}

/// The text of the payload, the argument after the list name.
pub open spec fn payload_text(args: Seq<Arg>) -> Option<Seq<char>> {
    if args.len() > 1 {
        args[1].text()
    } else {
        None
    }
}

/// The entries of the payload, where it is a map.
pub open spec fn payload_entries(args: Seq<Arg>) -> Option<Seq<(Arg, Arg)>> {
    if args.len() > 1 {
        args[1].entries()
    } else {
        None
    }
}

/// The text under `key` in a map, where there is one.
pub open spec fn text_entry(map: Seq<(Arg, Arg)>, key: Seq<char>) -> Option<Seq<char>> {
    match entry(map, key) {
        Some(a) => a.text(),
        None => None,
    }
}

/// The map under `key` in a map, where there is one.
pub open spec fn map_entry(map: Seq<(Arg, Arg)>, key: Seq<char>) -> Option<Seq<(Arg, Arg)>> {
    match entry(map, key) {
        Some(a) => a.entries(),
        None => None,
    }
}

/// The request that a name and its arguments stand for, or `InvalidRequest` where
/// an argument that the operation needs is missing or of the wrong shape.
pub open spec fn decoded(name: Seq<char>, args: Seq<Arg>) -> Result<Call, Error> {
    match command_named(name) {
        None => Ok(Call::Unsupported),
        Some(Command::List) => Ok(Call::List),
        Some(Command::Json) => Ok(Call::Json),
        Some(Command::Record) => match payload_text(args) {
            Some(label) => Ok(Call::Record { label }),
            None => Err(Error::InvalidRequest),
        },
        Some(Command::Delete) => match payload_text(args) {
            Some(label) => Ok(Call::Delete { label }),
            None => Err(Error::InvalidRequest),
        },
        Some(Command::Promote) => match payload_text(args) {
            Some(label) => Ok(Call::Promote { label }),
            None => Err(Error::InvalidRequest),
        },
        Some(Command::Demote) => match payload_text(args) {
            Some(label) => Ok(Call::Demote { label }),
            None => Err(Error::InvalidRequest),
        },
        Some(Command::Add) => match payload_entries(args) {
            None => Ok(Call::Unsupported),
            Some(m) => match (text_entry(m, "name"@), text_entry(m, "path"@)) {
                (Some(name), Some(path)) => Ok(
                    Call::Add {
                        name: unquoted_value(shown_text(name)),
                        path: unquoted_value(shown_text(path)),
                    },
                ),
                _ => Err(Error::InvalidRequest),
            },
        },
        Some(Command::Replace) => match payload_entries(args) {
            None => Err(Error::InvalidRequest),
            Some(m) => match (text_entry(m, "Key"@), map_entry(m, "New"@)) {
                (Some(label), Some(new)) => match (
                    text_entry(new, "Name"@),
                    text_entry(new, "Path"@),
                ) {
                    (Some(name), Some(path)) => Ok(Call::Replace { label, name, path }),
                    _ => Err(Error::InvalidRequest),
                },
                _ => Err(Error::InvalidRequest),
            },
        },
    }
}

/// The name of the collection that a request is about: its first argument.
pub fn list_name(args: &Vec<Arg>) -> (out: Result<String, Error>)
    ensures
        match out {
            Ok(s) => args@.len() > 0 && args@[0].text() == Some(s@),
            Err(e) => e == Error::InvalidRequest && (args@.len() == 0 || args@[0].text() is None),
        },
{
    if args.len() == 0 {
        return Err(Error::InvalidRequest);
    }
    match args[0].as_text() {
        Some(s) => Ok(s.clone()),
        None => Err(Error::InvalidRequest),
    }
}

/// The text of the payload.
fn label_arg(args: &Vec<Arg>) -> (out: Option<String>)
    ensures
        text_of(out) == payload_text(args@),
{
    if args.len() > 1 {
        match args[1].as_text() {
            Some(s) => Some(s.clone()),
            None => None,
        }
    } else {
        None
    }
}

/// The text under `key` in a map.
fn text_arg(map: &Vec<(Arg, Arg)>, key: &str) -> (out: Option<String>)
    ensures
        text_of(out) == text_entry(map@, key@),
{
    match lookup(map, key) {
        Some(a) => match a.as_text() {
            Some(s) => Some(s.clone()),
            None => None,
        },
        None => None,
    }
}

/// What a text value of the channel is shown as: the text that `to_string` gives
/// for a `Value` that holds it.
pub uninterp spec fn shown_text(text: Seq<char>) -> Seq<char>;

/// `to_string` of `nvim_rs::Value` (the `Value` of `rmpv`), on the value made of
/// `text`. It writes a text as `Debug` writes a `str`: between double quotes,
/// with escapes inside. The contract gives that result its name and claims only
/// that it depends on the text alone.
#[verifier::external_body]
fn show_text(text: &str) -> (out: String)
    ensures
        out@ == shown_text(text@),
{
    nvim_rs::Value::from(text).to_string()
}

/// Cleans a value as the channel shows it: trims it and takes one pair of
/// surrounding double quotes off, with the whitespace inside them.
pub fn fmt_ws_value(raw: &str) -> (out: String)
    ensures
        out@ == unquoted_value(raw@),
{
    unfmt_ws_value(raw)
}

/// Reads one property of a record to add from the payload of an `Add`: the text
/// under `prop` as the channel shows it, cleaned of the quotes and the whitespace
/// around it.
pub fn convert_ws_add(obj: &Vec<(Arg, Arg)>, prop: &str) -> (out: Result<String, Error>)
    ensures
        match out {
            Ok(s) => text_entry(obj@, prop@) matches Some(t) && s@ == unquoted_value(
                shown_text(t),
            ),
            Err(e) => e == Error::InvalidRequest && text_entry(obj@, prop@) is None,
        },
{
    match text_arg(obj, prop) {
        Some(s) => {
            let shown = show_text(s.as_str());
            Ok(fmt_ws_value(shown.as_str()))
        },
        None => Err(Error::InvalidRequest),
    }
}

/// Checks the arguments of a request against what its name asks for.
pub fn decode_request(name: &str, args: &Vec<Arg>) -> (out: Result<Request, Error>)
    ensures
        match out {
            Ok(r) => decoded(name@, args@) == Ok::<Call, Error>(r@),
            Err(e) => decoded(name@, args@) == Err::<Call, Error>(e),
        },
{
    match parse_command(name) {
        None => Ok(Request::Unsupported),
        Some(Command::List) => Ok(Request::List),
        Some(Command::Json) => Ok(Request::Json),
        Some(Command::Record) => match label_arg(args) {
            Some(label) => Ok(Request::Record { label }),
            None => Err(Error::InvalidRequest),
        },
        Some(Command::Delete) => match label_arg(args) {
            Some(label) => Ok(Request::Delete { label }),
            None => Err(Error::InvalidRequest),
        },
        Some(Command::Promote) => match label_arg(args) {
            Some(label) => Ok(Request::Promote { label }),
            None => Err(Error::InvalidRequest),
        },
        Some(Command::Demote) => match label_arg(args) {
            Some(label) => Ok(Request::Demote { label }),
            None => Err(Error::InvalidRequest),
        },
        Some(Command::Add) => {
            if args.len() <= 1 {
                return Ok(Request::Unsupported);
            }
            match args[1].as_map() {
                None => Ok(Request::Unsupported),
                Some(m) => {
                    let name = convert_ws_add(m, "name");
                    let path = convert_ws_add(m, "path");
                    match (name, path) {
                        (Ok(name), Ok(path)) => Ok(Request::Add { name, path }),
                        _ => Err(Error::InvalidRequest),
                    }
                },
            }
        },
        Some(Command::Replace) => {
            if args.len() <= 1 {
                return Err(Error::InvalidRequest);
            }
            match args[1].as_map() {
                None => Err(Error::InvalidRequest),
                Some(m) => {
                    let label = text_arg(m, "Key");
                    let new = match lookup(m, "New") {
                        Some(a) => a.as_map(),
                        None => None,
                    };
                    match (label, new) {
                        (Some(label), Some(new)) => {
                            let name = text_arg(new, "Name");
                            let path = text_arg(new, "Path");
                            match (name, path) {
                                (Some(name), Some(path)) => Ok(
                                    Request::Replace { label, name, path },
                                ),
                                _ => Err(Error::InvalidRequest),
                            }
                        },
                        _ => Err(Error::InvalidRequest),
                    }
                },
            }
        },
    }
}

/// What is sent back for a request.
#[derive(Debug, PartialEq, Eq)]
pub enum Response {
    /// The collection as it is shown: labels with their records.
    Listing(Vec<(String, Workspace)>),
    /// The record that a label stands for.
    Record(Workspace),
    /// Whether the operation was carried out.
    Done(bool),
    /// The new position of a record that was moved.
    Index(usize),
    /// A text, such as the directory of the collections.
    Text(String),
}

/// The answer to a request, and the collection to persist where the request
/// changed it.
#[derive(Debug, PartialEq, Eq)]
pub struct Reply {
    pub response: Response,
    pub updated: Option<Vec<Workspace>>,
}

/// Where the record with the label `text` stands in the rendering of `list`.
pub open spec fn labelled_position(
    list: Seq<Workspace>,
    home: Option<Seq<char>>,
    text: Seq<char>,
) -> Option<int> {
    label_position(rendered(records(list), home), text)
}

/// Where the record stands that a change by label applies to: the record that
/// the one with the label `text` identifies.
pub open spec fn labelled_target(
    list: Seq<Workspace>,
    home: Option<Seq<char>>,
    text: Seq<char>,
) -> Option<int> {
    match labelled_position(list, home, text) {
        Some(i) => position_of(records(list), list[i]@),
        None => None,
    }
}

/// Every record identifies itself, so a record of a collection is found in it:
/// at its own place or, where an earlier record has the same identity, there.
pub proof fn lemma_position_of_member(c: Seq<Record>, i: int)
    requires
        0 <= i < c.len(),
    ensures
        position_of(c, c[i]) is Some,
        0 <= position_of(c, c[i])->0 <= i,
{
    let p = identified_by(c[i]);
    assert(p(c[i]));
    lemma_first_where(c, p);
}

/// A label of the rendering leads to a record of the list; in a list whose
/// records are told apart by their identity, to the record with that label.
pub proof fn lemma_labelled_target(list: Seq<Workspace>, home: Option<Seq<char>>, text: Seq<char>)
    ensures
        labelled_target(list, home, text) is Some <==> labelled_position(list, home, text) is Some,
        labelled_target(list, home, text) matches Some(k) ==> 0 <= k <= labelled_position(
            list,
            home,
            text,
        )->0 < list.len(),
{
    lemma_first_where(rendered(records(list), home), labelled_as(text));
    if labelled_position(list, home, text) is Some {
        lemma_position_of_member(records(list), labelled_position(list, home, text)->0);
    }
}

/// The record with the label `text`.
fn labelled_record(workspaces: &Vec<Workspace>, home: &Option<String>, text: &str) -> (out: Option<
    Workspace,
>)
    ensures
        match out {
            Some(w) => {
                &&& labelled_position(workspaces@, text_of(*home), text@) matches Some(i)
                &&& 0 <= i < workspaces@.len()
                &&& w == workspaces@[i]
                &&& labelled_target(workspaces@, text_of(*home), text@) == position_of(
                    records(workspaces@),
                    w@,
                )
                &&& labelled_target(workspaces@, text_of(*home), text@) is Some
            },
            None => {
                &&& labelled_position(workspaces@, text_of(*home), text@) is None
                &&& labelled_target(workspaces@, text_of(*home), text@) is None
            },
        },
{
    let shown = fmt(workspaces, home);
    proof {
        lemma_labelled_target(workspaces@, text_of(*home), text@);
    }
    match position(&shown, text) {
        Some(i) => Some(workspaces[i].clone()),
        None => None,
    }
}

/// Renders the collection for the client.
pub fn rpc_ws_list(workspaces: &Vec<Workspace>, home: &Option<String>) -> (out: Vec<
    (String, Workspace),
>)
    ensures
        labelled(out@) == rendered(records(workspaces@), text_of(*home)),
{
    fmt(workspaces, home)
}

/// Resolves a label of an earlier rendering to its record; the collection stays
/// as it is. A label that the present rendering does not hold is stale.
pub fn rpc_ws_record(workspaces: &Vec<Workspace>, home: &Option<String>, label: &str) -> (out:
    Result<Workspace, Error>)
    ensures
        match labelled_position(workspaces@, text_of(*home), label@) {
            Some(i) => out == Ok::<Workspace, Error>(workspaces@[i]),
            None => out == Err::<Workspace, Error>(Error::StaleLabel),
        },
{
    match labelled_record(workspaces, home, label) {
        Some(w) => Ok(w),
        None => Err(Error::StaleLabel),
    }
}

/// The record that an `Add` with these arguments appends: the path is expanded,
/// and there is no shortcut.
pub open spec fn record_to_add(name: Seq<char>, path: Seq<char>, home: Option<Seq<char>>) -> Record {
    Record { name, path: expanded_path(path, home), shortcut: None }
}

/// Appends a record with this name and the expansion of this path, unless it
/// repeats the name or the path of a record that is there.
pub fn rpc_ws_add(
    workspaces: &mut Vec<Workspace>,
    home: &Option<String>,
    name: String,
    path: String,
) -> (out: Result<bool, Error>)
    ensures
        match collision(
            records(old(workspaces)@),
            record_to_add(name@, path@, text_of(*home)),
        ) {
            None => {
                &&& out == Ok::<bool, Error>(true)
                &&& final(workspaces)@.len() == old(workspaces)@.len() + 1
                &&& final(workspaces)@.drop_last() == old(workspaces)@
                &&& final(workspaces)@.last()@ == record_to_add(name@, path@, text_of(*home))
            },
            Some(field) => {
                &&& out == Err::<bool, Error>(Error::DuplicateField { field })
                &&& final(workspaces)@ == old(workspaces)@
            },
        },
{
    let ws = Workspace { name, path: unfmt_path(path, home), shortcut: None };
    match add_workspace(workspaces, ws) {
        Ok(()) => {
            assert(workspaces@.drop_last() =~= old(workspaces)@);
            Ok(true)
        },
        Err(e) => Err(e),
    }
}

/// Deletes the record with this label; `NotFound` where no record has it.
pub fn rpc_ws_delete(workspaces: &mut Vec<Workspace>, home: &Option<String>, label: &str) -> (out:
    Result<bool, Error>)
    ensures
        match labelled_target(old(workspaces)@, text_of(*home), label@) {
            Some(k) => {
                &&& out == Ok::<bool, Error>(true)
                &&& final(workspaces)@ == old(workspaces)@.remove(k)
            },
            None => {
                &&& out == Err::<bool, Error>(Error::NotFound)
                &&& final(workspaces)@ == old(workspaces)@
            },
        },
{
    match labelled_record(workspaces, home, label) {
        Some(w) => match delete_workspace(workspaces, &w) {
            Ok(()) => Ok(true),
            Err(e) => Err(e),
        },
        None => Err(Error::NotFound),
    }
}

/// What moving the record with the label `text` comes to: the reordered list and
/// the new position of the record; `NotFound` where no record has the label, and
/// `InsufficientSize` where the record is the only one.
pub open spec fn moved_by_label(
    list: Seq<Workspace>,
    home: Option<Seq<char>>,
    text: Seq<char>,
    up: bool,
) -> Result<(Seq<Workspace>, int), Error> {
    match labelled_target(list, home, text) {
        None => Err(Error::NotFound),
        Some(k) => if list.len() <= 1 {
            Err(Error::InsufficientSize)
        } else {
            let t = target_index(k, list.len() as int, up);
            Ok((moved(list, k, t), t))
        },
    }
}

/// Moves the record with this label one place up or down.
fn move_labelled(workspaces: &mut Vec<Workspace>, home: &Option<String>, label: &str, up: bool) -> (out:
    Result<usize, Error>)
    ensures
        match out {
            Ok(t) => moved_by_label(old(workspaces)@, text_of(*home), label@, up) == Ok::<
                (Seq<Workspace>, int),
                Error,
            >((final(workspaces)@, t as int)),
            Err(e) => {
                &&& moved_by_label(old(workspaces)@, text_of(*home), label@, up) == Err::<
                    (Seq<Workspace>, int),
                    Error,
                >(e)
                &&& final(workspaces)@ == old(workspaces)@
            },
        },
{
    match labelled_record(workspaces, home, label) {
        Some(w) => move_workspace(workspaces, &w, up),
        None => Err(Error::NotFound),
    }
}

/// Moves the record with this label one place toward the front, round to the
/// back from the first place, and returns its new position.
pub fn rpc_ws_promote(workspaces: &mut Vec<Workspace>, home: &Option<String>, label: &str) -> (out:
    Result<usize, Error>)
    ensures
        match out {
            Ok(t) => moved_by_label(old(workspaces)@, text_of(*home), label@, true) == Ok::<
                (Seq<Workspace>, int),
                Error,
            >((final(workspaces)@, t as int)),
            Err(e) => {
                &&& moved_by_label(old(workspaces)@, text_of(*home), label@, true) == Err::<
                    (Seq<Workspace>, int),
                    Error,
                >(e)
                &&& final(workspaces)@ == old(workspaces)@
            },
        },
{
    move_labelled(workspaces, home, label, true)
}

/// Moves the record with this label one place toward the back, round to the
/// front from the last place, and returns its new position.
pub fn rpc_ws_demote(workspaces: &mut Vec<Workspace>, home: &Option<String>, label: &str) -> (out:
    Result<usize, Error>)
    ensures
        match out {
            Ok(t) => moved_by_label(old(workspaces)@, text_of(*home), label@, false) == Ok::<
                (Seq<Workspace>, int),
                Error,
            >((final(workspaces)@, t as int)),
            Err(e) => {
                &&& moved_by_label(old(workspaces)@, text_of(*home), label@, false) == Err::<
                    (Seq<Workspace>, int),
                    Error,
                >(e)
                &&& final(workspaces)@ == old(workspaces)@
            },
        },
{
    move_labelled(workspaces, home, label, false)
}

/// Whether `after` is `before` with the record at `k` given the name `name` and
/// the expansion of the path `path`, its shortcut and all other records kept.
pub open spec fn replaced_at(
    before: Seq<Workspace>,
    after: Seq<Workspace>,
    k: int,
    name: Seq<char>,
    path: Seq<char>,
    home: Option<Seq<char>>,
) -> bool {
    &&& 0 <= k < before.len()
    &&& after.len() == before.len()
    &&& forall|j: int| 0 <= j < before.len() && j != k ==> after[j] == before[j]
    &&& after[k]@ == Record {
        name,
        path: expanded_path(path, home),
        shortcut: before[k]@.shortcut,
    }
}

/// Gives the record with this label a new name and the expansion of a new path;
/// its place and its shortcut stay. `NotFound` where no record has the label.
pub fn rpc_ws_replace(
    workspaces: &mut Vec<Workspace>,
    home: &Option<String>,
    label: &str,
    name: String,
    path: String,
) -> (out: Result<bool, Error>)
    ensures
        match labelled_target(old(workspaces)@, text_of(*home), label@) {
            Some(k) => {
                &&& out == Ok::<bool, Error>(true)
                &&& replaced_at(
                    old(workspaces)@,
                    final(workspaces)@,
                    k,
                    name@,
                    path@,
                    text_of(*home),
                )
            },
            None => {
                &&& out == Err::<bool, Error>(Error::NotFound)
                &&& final(workspaces)@ == old(workspaces)@
            },
        },
{
    match labelled_record(workspaces, home, label) {
        Some(w) => {
            let new_path = unfmt_path(path, home);
            match replace_workspace(workspaces, &w, name, new_path) {
                Ok(()) => Ok(true),
                Err(e) => Err(e),
            }
        },
        None => Err(Error::NotFound),
    }
}

/// Carries out a request on the collection it is about. The reply holds the
/// answer for the client and, where the request changed the collection, the whole
/// new collection to persist; a request that fails changes nothing.
pub fn handle_req(
    request: Request,
    workspaces: Vec<Workspace>,
    home: &Option<String>,
    json_dir: &str,
) -> (out: Result<Reply, Error>)
    ensures
        match request@ {
            Call::List => {
                &&& out matches Ok(r)
                &&& r.updated is None
                &&& r.response matches Response::Listing(l)
                &&& labelled(l@) == rendered(records(workspaces@), text_of(*home))
            },
            Call::Json => {
                &&& out matches Ok(r)
                &&& r.updated is None
                &&& r.response matches Response::Text(t)
                &&& t@ == json_dir@
            },
            Call::Unsupported => {
                &&& out matches Ok(r)
                &&& r.updated is None
                &&& r.response == Response::Done(false)
            },
            Call::Record { label } => match labelled_position(workspaces@, text_of(*home), label) {
                Some(i) => {
                    &&& out matches Ok(r)
                    &&& r.updated is None
                    &&& r.response == Response::Record(workspaces@[i])
                },
                None => out == Err::<Reply, Error>(Error::StaleLabel),
            },
            Call::Add { name, path } => match collision(
                records(workspaces@),
                record_to_add(name, path, text_of(*home)),
            ) {
                None => {
                    &&& out matches Ok(r)
                    &&& r.response == Response::Done(true)
                    &&& r.updated matches Some(u)
                    &&& u@.len() == workspaces@.len() + 1
                    &&& u@.drop_last() == workspaces@
                    &&& u@.last()@ == record_to_add(name, path, text_of(*home))
                },
                Some(field) => out == Err::<Reply, Error>(Error::DuplicateField { field }),
            },
            Call::Delete { label } => match labelled_target(workspaces@, text_of(*home), label) {
                Some(k) => {
                    &&& out matches Ok(r)
                    &&& r.response == Response::Done(true)
                    &&& r.updated matches Some(u)
                    &&& u@ == workspaces@.remove(k)
                },
                None => out == Err::<Reply, Error>(Error::NotFound),
            },
            Call::Promote { label } => moved_reply(out, workspaces@, text_of(*home), label, true),
            Call::Demote { label } => moved_reply(out, workspaces@, text_of(*home), label, false),
            Call::Replace { label, name, path } => match labelled_target(
                workspaces@,
                text_of(*home),
                label,
            ) {
                Some(k) => {
                    &&& out matches Ok(r)
                    &&& r.response == Response::Done(true)
                    &&& r.updated matches Some(u)
                    &&& replaced_at(workspaces@, u@, k, name, path, text_of(*home))
                },
                None => out == Err::<Reply, Error>(Error::NotFound),
            },
        },
{
    let mut list = workspaces;
    match request {
        Request::List => Ok(
            Reply { response: Response::Listing(rpc_ws_list(&list, home)), updated: None },
        ),
        Request::Json => Ok(
            Reply { response: Response::Text(String::from_str(json_dir)), updated: None },
        ),
        Request::Unsupported => Ok(Reply { response: Response::Done(false), updated: None }),
        Request::Record { label } => match rpc_ws_record(&list, home, label.as_str()) {
            Ok(w) => Ok(Reply { response: Response::Record(w), updated: None }),
            Err(e) => Err(e),
        },
        Request::Add { name, path } => match rpc_ws_add(&mut list, home, name, path) {
            Ok(done) => Ok(Reply { response: Response::Done(done), updated: Some(list) }),
            Err(e) => Err(e),
        },
        Request::Delete { label } => match rpc_ws_delete(&mut list, home, label.as_str()) {
            Ok(done) => Ok(Reply { response: Response::Done(done), updated: Some(list) }),
            Err(e) => Err(e),
        },
        Request::Promote { label } => match rpc_ws_promote(&mut list, home, label.as_str()) {
            Ok(index) => Ok(Reply { response: Response::Index(index), updated: Some(list) }),
            Err(e) => Err(e),
        },
        Request::Demote { label } => match rpc_ws_demote(&mut list, home, label.as_str()) {
            Ok(index) => Ok(Reply { response: Response::Index(index), updated: Some(list) }),
            Err(e) => Err(e),
        },
        Request::Replace { label, name, path } => match rpc_ws_replace(
            &mut list,
            home,
            label.as_str(),
            name,
            path,
        ) {
            Ok(done) => Ok(Reply { response: Response::Done(done), updated: Some(list) }),
            Err(e) => Err(e),
        },
    }
}

/// What a request to move the record with the label `text` is answered with: its
/// new position and the reordered collection, or the reason why nothing moved.
pub open spec fn moved_reply(
    out: Result<Reply, Error>,
    list: Seq<Workspace>,
    home: Option<Seq<char>>,
    text: Seq<char>,
    up: bool,
) -> bool {
    match moved_by_label(list, home, text, up) {
        Ok((after, t)) => {
            &&& out matches Ok(r)
            &&& r.response == Response::Index(t as usize)
            &&& r.updated matches Some(u)
            &&& u@ == after
        },
        Err(e) => out == Err::<Reply, Error>(e),
    }
}

} // verus!
