//! Where the collections are kept: the directory, the file of one named list, and
//! what a file that cannot be read counts as.

use crate::text::{join_path, joined};
use crate::workspace::{text_of, StoreError, Workspace};
use vstd::prelude::*;
use vstd::string::*;

verus! {

/// The name of the directory, under the user's data directory, that holds the
/// collections.
pub const APP_NAME: &'static str = "workspacers";

/// The directory of the application `app_name` under the user's data directory,
/// where the platform names one.
pub fn get_data_dir(data_local_dir: &Option<String>, app_name: &str) -> (out: Result<
    String,
    StoreError,
>)
    ensures
        match text_of(*data_local_dir) {
            Some(dir) => out matches Ok(path) && path@ == joined(dir, app_name@),
            None => out == Err::<String, StoreError>(StoreError::NoDataDir),
        },
{
    match data_local_dir {
        Some(dir) => Ok(join_path(dir.as_str(), app_name)),
        None => Err(StoreError::NoDataDir),
    }
}

/// The directory that holds the collections: the one given explicitly, where one
/// is given; else the application's directory under the user's data directory.
/// Only where neither is to be had is there no directory.
pub fn get_json_dir(json_arg: Option<String>, data_local_dir: &Option<String>) -> (out: Result<
    String,
    StoreError,
>)
    ensures
        match (text_of(json_arg), text_of(*data_local_dir)) {
            (Some(dir), _) => out matches Ok(path) && path@ == dir,
            (None, Some(dir)) => out matches Ok(path) && path@ == joined(dir, APP_NAME@),
            (None, None) => out == Err::<String, StoreError>(StoreError::NoDataDir),
        },
{
    match json_arg {
        Some(dir) => Ok(dir),
        None => get_data_dir(data_local_dir, APP_NAME),
    }
}

/// The path of the file of the list `ws_name` in `json_dir`: the directory
/// extended by the name with `.json` after it.
pub fn get_json_file(json_dir: &str, ws_name: &str) -> (out: String)
    ensures
        out@ == joined(json_dir@, ws_name@ + ".json"@),
{
    let mut file = String::from_str(ws_name);
    file.append(".json");
    join_path(json_dir, file.as_str())
}

/// The collection that a file stands for: what was read from it, and the empty
/// collection where the file is missing or could not be read or understood.
pub fn read_workspaces(contents: Option<Vec<Workspace>>) -> (out: Vec<Workspace>)
    ensures
        match contents {
            Some(list) => out@ == list@,
            None => out@.len() == 0,
        },
{
    match contents {
        Some(list) => list,
        None => Vec::new(),
    }
}

} // verus!
