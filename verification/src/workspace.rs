//! The workspace record, the ordered collection it lives in, and the errors that
//! the operations on a collection report.

use vstd::prelude::*;
use vstd::string::*;

verus! {

/// One entry of a workspace list: a display name and the directory it stands for,
/// with an optional shortcut that identifies the entry on its own.
#[derive(Debug, PartialEq, Eq)]
pub struct Workspace {
    pub name: String,
    pub path: String,
    pub shortcut: Option<String>,
}

/// What a `Workspace` holds, as plain character sequences.
pub struct Record {
    pub name: Seq<char>,
    pub path: Seq<char>,
    pub shortcut: Option<Seq<char>>,
}

/// The characters of an optional text.
pub open spec fn text_of(s: Option<String>) -> Option<Seq<char>> {
    match s {
        Some(t) => Some(t@),
        None => None,
    }
}

impl View for Workspace {
    type V = Record;

    open spec fn view(&self) -> Record {
        Record { name: self.name@, path: self.path@, shortcut: text_of(self.shortcut) }
    }
}

impl Clone for Workspace {
    fn clone(&self) -> (out: Self)
        ensures
            out == *self,
    {
        let shortcut = match &self.shortcut {
            Some(s) => Some(s.clone()),
            None => None,
        };
        Workspace { name: self.name.clone(), path: self.path.clone(), shortcut }
    }
}

/// The records of a list of workspaces, in order.
pub open spec fn records(list: Seq<Workspace>) -> Seq<Record> {
    list.map_values(|w: Workspace| w@)
}

/// The field of a record that a uniqueness rule or a prompt speaks of.
#[derive(Clone, Copy, Debug, PartialEq, Eq)]
pub enum Field {
    Name,
    Path,
    Shortcut,
}

/// Why the backing file of a collection could not be used.
#[derive(Debug, PartialEq, Eq)]
pub enum StoreError {
    /// The file could not be created or written; `reason` says why.
    WriteFailed { reason: String },
    /// The platform names no per-user data directory.
    NoDataDir,
}

/// Why an operation on a collection, or a selection session, did not go through.
#[derive(Debug, PartialEq, Eq)]
pub enum Error {
    /// No record of the collection matches the key or label.
    NotFound,
    /// The new record repeats `field` of a record that is already there.
    DuplicateField { field: Field },
    /// Reordering needs at least two records.
    InsufficientSize,
    /// There is nothing to pick from.
    EmptyCollection,
    /// The chooser answered with a label that the last rendering does not hold.
    StaleLabel,
    /// The chooser answered with a key that no action is bound to.
    UnrecognizedAction { key: String },
    /// The chooser answered with more lines than a key and a label.
    UnexpectedOutput,
    /// A value entered for `field` was empty.
    EmptyField { field: Field },
    /// The user declined to go on with the action.
    Cancelled,
    /// A request from the editor lacks an argument, or holds one of the wrong shape.
    InvalidRequest,
    /// An event arrived that the session was not waiting for.
    OutOfTurn,
    /// The collection could not be persisted.
    Store(StoreError),
}

/// What a `StoreError` holds, as plain values.
pub enum StoreFailure {
    WriteFailed { reason: Seq<char> },
    NoDataDir,
}

impl View for StoreError {
    type V = StoreFailure;

    open spec fn view(&self) -> StoreFailure {
        match *self {
            StoreError::WriteFailed { reason } => StoreFailure::WriteFailed { reason: reason@ },
            StoreError::NoDataDir => StoreFailure::NoDataDir,
        }
    }
}

/// What an `Error` holds, as plain values.
pub enum Failure {
    NotFound,
    DuplicateField { field: Field },
    InsufficientSize,
    EmptyCollection,
    StaleLabel,
    UnrecognizedAction { key: Seq<char> },
    UnexpectedOutput,
    EmptyField { field: Field },
    Cancelled,
    InvalidRequest,
    OutOfTurn,
    Store(StoreFailure),
}

impl View for Error {
    type V = Failure;

    open spec fn view(&self) -> Failure {
        match *self {
            Error::NotFound => Failure::NotFound,
            Error::DuplicateField { field } => Failure::DuplicateField { field },
            Error::InsufficientSize => Failure::InsufficientSize,
            Error::EmptyCollection => Failure::EmptyCollection,
            Error::StaleLabel => Failure::StaleLabel,
            Error::UnrecognizedAction { key } => Failure::UnrecognizedAction { key: key@ },
            Error::UnexpectedOutput => Failure::UnexpectedOutput,
            Error::EmptyField { field } => Failure::EmptyField { field },
            Error::Cancelled => Failure::Cancelled,
            Error::InvalidRequest => Failure::InvalidRequest,
            Error::OutOfTurn => Failure::OutOfTurn,
            Error::Store(e) => Failure::Store(e@),
        }
    }
}

/// A record has a name and a path, neither of them empty.
pub open spec fn well_formed(r: Record) -> bool {
    r.name.len() > 0 && r.path.len() > 0
}

/// No two records of `c` share a name, a path or a shortcut.
pub open spec fn unique(c: Seq<Record>) -> bool {
    forall|i: int, j: int|
        0 <= i < c.len() && 0 <= j < c.len() && i != j ==> {
            &&& (#[trigger] c[i]).name != (#[trigger] c[j]).name
            &&& c[i].path != c[j].path
            &&& c[i].shortcut is Some ==> c[i].shortcut != c[j].shortcut
        }
}

/// The invariant of a collection: every record is well formed, and names, paths
/// and shortcuts are unique.
pub open spec fn valid_collection(c: Seq<Record>) -> bool {
    &&& forall|i: int| 0 <= i < c.len() ==> well_formed(#[trigger] c[i])
    &&& unique(c)
}

/// Whether `rec` is the record that `key` identifies: by its shortcut where `key`
/// has one, else by name and path together.
pub open spec fn same_identity(key: Record, rec: Record) -> bool {
    match key.shortcut {
        Some(s) => rec.shortcut == Some(s),
        None => rec.name == key.name && rec.path == key.path,
    }
}

/// A record as it is written in messages: on a line of its own, name and path in
/// brackets.
pub open spec fn described(r: Record) -> Seq<char> {
    "\n\n\t[ "@ + r.name + " ] - [ "@ + r.path + " ]\n"@
}

impl Workspace {
    /// Whether `self`, taken as a key, identifies `rec`.
    pub fn identifies(&self, rec: &Workspace) -> (b: bool)
        ensures
            b == same_identity(self@, rec@),
    {
        match &self.shortcut {
            Some(s) => match &rec.shortcut {
                Some(t) => {
                    assert(Some(t@) == Some(s@) <==> t@ == s@);
                    *t == *s
                },
                None => false,
            },
            None => rec.name == self.name && rec.path == self.path,
        }
    }

    /// The workspace as it is written in messages.
    pub fn describe(&self) -> (out: String)
        ensures
            out@ == described(self@),
    {
        let mut out = String::from_str("\n\n\t[ ");
        out.append(self.name.as_str());
        out.append(" ] - [ ");
        out.append(self.path.as_str());
        out.append(" ]\n");
        out
    }
}

impl Field {
    /// The name of the field, as it is shown to the user.
    pub open spec fn title(self) -> Seq<char> {
        match self {
            Field::Name => "Name"@,
            Field::Path => "Path"@,
            Field::Shortcut => "Shortcut"@,
        }
    }

    /// The name of the field, as it is shown to the user.
    pub fn name(&self) -> (out: String)
        ensures
            out@ == self.title(),
    {
        match self {
            Field::Name => String::from_str("Name"),
            Field::Path => String::from_str("Path"),
            Field::Shortcut => String::from_str("Shortcut"),
        }
    }
}

/// What the user is told of a failure of the store.
pub open spec fn store_message_of(f: StoreFailure) -> Seq<char> {
    match f {
        StoreFailure::WriteFailed { reason } => "Could not write workspaces: "@ + reason,
        StoreFailure::NoDataDir => "Data directory not found"@,
    }
}

/// What the user is told of a failure.
pub open spec fn message_of(f: Failure) -> Seq<char> {
    match f {
        Failure::NotFound => "Could not match Workspace"@,
        Failure::DuplicateField { field } => "Workspace "@ + field.title() + " already exists"@,
        Failure::InsufficientSize => "Cannot move workspace - need at least two workspaces"@,
        Failure::EmptyCollection => "No workspaces found"@,
        Failure::StaleLabel => "Could not match label back to Workspace"@,
        Failure::UnrecognizedAction { key } => "Unrecognized action: "@ + key,
        Failure::UnexpectedOutput => "Unexpected number of lines"@,
        Failure::EmptyField { field } => field.title() + " cannot be empty"@,
        Failure::Cancelled => "Operation Cancelled"@,
        Failure::InvalidRequest => "Invalid arguments"@,
        Failure::OutOfTurn => "Unexpected event"@,
        Failure::Store(e) => store_message_of(e),
    }
}

impl StoreError {
    /// The message for the user.
    pub fn message(&self) -> (out: String)
        ensures
            out@ == store_message_of(self@),
    {
        match self {
            StoreError::WriteFailed { reason } => {
                let mut out = String::from_str("Could not write workspaces: ");
                out.append(reason.as_str());
                out
            },
            StoreError::NoDataDir => String::from_str("Data directory not found"),
        }
    }
}

impl Error {
    /// The message for the user.
    pub fn message(&self) -> (out: String)
        ensures
            out@ == message_of(self@),
    {
        match self {
            Error::NotFound => String::from_str("Could not match Workspace"),
            Error::DuplicateField { field } => {
                let mut out = String::from_str("Workspace ");
                out.append(field.name().as_str());
                out.append(" already exists");
                out
            },
            Error::InsufficientSize => String::from_str(
                "Cannot move workspace - need at least two workspaces",
            ),
            Error::EmptyCollection => String::from_str("No workspaces found"),
            Error::StaleLabel => String::from_str("Could not match label back to Workspace"),
            Error::UnrecognizedAction { key } => {
                let mut out = String::from_str("Unrecognized action: ");
                out.append(key.as_str());
                out
            },
            Error::UnexpectedOutput => String::from_str("Unexpected number of lines"),
            Error::EmptyField { field } => {
                let mut out = field.name();
                out.append(" cannot be empty");
                out
            },
            Error::Cancelled => String::from_str("Operation Cancelled"),
            Error::InvalidRequest => String::from_str("Invalid arguments"),
            Error::OutOfTurn => String::from_str("Unexpected event"),
            Error::Store(e) => e.message(),
        }
    }
}

} // verus!
