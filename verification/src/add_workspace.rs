//! Taking in a new workspace: what is checked of the values that the user
//! entered, and the record that is made of them.

use crate::formatter::{expanded_path, unfmt_path};
use crate::operations::{
    collision, has_name, has_path, has_shortcut, name_taken, path_taken, shortcut_taken,
};
use crate::text::{add_separator, with_separator};
use crate::workspace::{records, text_of, well_formed, Error, Field, Record, Workspace};
use vstd::prelude::*;
use vstd::string::*;

verus! {

/// The text that the prompt for a path starts with: the current directory, ending
/// in the separator `/`.
pub fn initial_path(cwd: String) -> (out: String)
    ensures
        out@ == with_separator(cwd@),
{
    add_separator(cwd)
}

/// Why a name cannot be taken for a new record of `c`, if it cannot.
pub open spec fn name_error(c: Seq<Record>, name: Seq<char>) -> Option<Error> {
    if name.len() == 0 {
        Some(Error::EmptyField { field: Field::Name })
    } else if has_name(c, name) {
        Some(Error::DuplicateField { field: Field::Name })
    } else {
        None
    }
}

/// Checks a name as soon as it was entered: it must not be empty, and no record
/// may have it already.
pub fn check_name(workspaces: &Vec<Workspace>, name: &String) -> (out: Result<(), Error>)
    ensures
        match out {
            Ok(()) => name_error(records(workspaces@), name@) is None,
            Err(e) => name_error(records(workspaces@), name@) == Some(e),
        },
{
    if name.as_str().unicode_len() == 0 {
        return Err(Error::EmptyField { field: Field::Name });
    }
    if name_taken(workspaces, name) {
        return Err(Error::DuplicateField { field: Field::Name });
    }
    Ok(())
}

/// The record that is made of the values entered: the path with its quotes taken
/// off and a leading `~` expanded.
pub open spec fn entered(
    name: Seq<char>,
    path: Seq<char>,
    shortcut: Option<Seq<char>>,
    home: Option<Seq<char>>,
) -> Record {
    Record { name, path: expanded_path(path, home), shortcut }
}

/// Why the record `new` cannot be taken into `c`, if it cannot: the first of an
/// empty or repeated name, an empty or repeated path, an empty or repeated
/// shortcut.
pub open spec fn entry_error(c: Seq<Record>, new: Record) -> Option<Error> {
    if name_error(c, new.name) is Some {
        name_error(c, new.name)
    } else if new.path.len() == 0 {
        Some(Error::EmptyField { field: Field::Path })
    } else if has_path(c, new.path) {
        Some(Error::DuplicateField { field: Field::Path })
    } else if new.shortcut is Some && new.shortcut->0.len() == 0 {
        Some(Error::EmptyField { field: Field::Shortcut })
    } else if new.shortcut is Some && has_shortcut(c, new.shortcut->0) {
        Some(Error::DuplicateField { field: Field::Shortcut })
    } else {
        None
    }
}

/// A record that passes the checks is well formed and repeats nothing.
pub proof fn lemma_entry_accepted(c: Seq<Record>, new: Record)
    requires
        entry_error(c, new) is None,
    ensures
        well_formed(new),
        collision(c, new) is None,
{
}

/// Makes the record of a new workspace from the values entered, and checks it
/// against the list it is meant for.
pub fn read_new_workspace(
    workspaces: &Vec<Workspace>,
    name: String,
    path: String,
    shortcut: Option<String>,
    home: &Option<String>,
) -> (out: Result<Workspace, Error>)
    ensures
        match out {
            Ok(w) => {
                &&& w@ == entered(name@, path@, text_of(shortcut), text_of(*home))
                &&& entry_error(records(workspaces@), w@) is None
            },
            Err(e) => entry_error(
                records(workspaces@),
                entered(name@, path@, text_of(shortcut), text_of(*home)),
            ) == Some(e),
        },
{
    match check_name(workspaces, &name) {
        Ok(()) => {},
        Err(e) => {
            return Err(e);
        },
    }
    let path = unfmt_path(path, home);
    if path.as_str().unicode_len() == 0 {
        return Err(Error::EmptyField { field: Field::Path });
    }
    if path_taken(workspaces, &path) {
        return Err(Error::DuplicateField { field: Field::Path });
    }
    match &shortcut {
        Some(s) => {
            if s.as_str().unicode_len() == 0 {
                return Err(Error::EmptyField { field: Field::Shortcut });
            }
            if shortcut_taken(workspaces, s) {
                return Err(Error::DuplicateField { field: Field::Shortcut });
            }
        },
        None => {},
    }
    Ok(Workspace { name, path, shortcut })
}

/// The list with a new workspace, made of the values entered, at its end; the
/// list given stays as it is.
pub fn add(
    workspaces: &Vec<Workspace>,
    name: String,
    path: String,
    shortcut: Option<String>,
    home: &Option<String>,
) -> (out: Result<Vec<Workspace>, Error>)
    ensures
        match out {
            Ok(list) => {
                &&& entry_error(
                    records(workspaces@),
                    entered(name@, path@, text_of(shortcut), text_of(*home)),
                ) is None
                &&& list@.len() == workspaces@.len() + 1
                &&& list@.drop_last() == workspaces@
                &&& list@.last()@ == entered(name@, path@, text_of(shortcut), text_of(*home))
            },
            Err(e) => entry_error(
                records(workspaces@),
                entered(name@, path@, text_of(shortcut), text_of(*home)),
            ) == Some(e),
        },
{
    match read_new_workspace(workspaces, name, path, shortcut, home) {
        Ok(w) => {
            let mut list = workspaces.clone();
            assert(list@ =~= workspaces@);
            list.push(w);
            assert(list@.drop_last() =~= workspaces@);
            Ok(list)
        },
        Err(e) => Err(e),
    }
}

} // verus!
