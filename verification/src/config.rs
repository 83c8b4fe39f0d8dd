//! The configuration of the application and the file it is read from.

use crate::text::{join_path, joined};
use crate::workspace::{text_of, StoreError};
use vstd::prelude::*;
use vstd::string::*;

verus! {

/// What the application can be configured with.
#[derive(Debug, PartialEq, Eq)]
pub struct AppConfig {
    /// The directory that holds the collections; empty where the default is to be
    /// used.
    pub json_path: String,
}

impl Clone for AppConfig {
    fn clone(&self) -> (out: Self)
        ensures
            out == *self,
    {
        AppConfig { json_path: self.json_path.clone() }
    }
}

impl AppConfig {
    /// The configuration that is written where none exists: no directory set.
    pub fn default() -> (out: AppConfig)
        ensures
            out.json_path@ == Seq::<char>::empty(),
    {
        AppConfig { json_path: String::new() }
    }
}

/// The path of the configuration file: the one given explicitly, where one is
/// given; else `<app_name>.toml` in the application's directory under the user's
/// data directory.
pub fn get_config_file(
    config_arg: Option<String>,
    data_local_dir: &Option<String>,
    app_name: &str,
) -> (out: Result<String, StoreError>)
    ensures
        match (text_of(config_arg), text_of(*data_local_dir)) {
            (Some(file), _) => out matches Ok(path) && path@ == file,
            (None, Some(dir)) => out matches Ok(path) && path@ == joined(
                joined(dir, app_name@),
                app_name@ + ".toml"@,
            ),
            (None, None) => out == Err::<String, StoreError>(StoreError::NoDataDir),
        },
{
    match config_arg {
        Some(file) => Ok(file),
        None => match data_local_dir {
            Some(dir) => {
                let app_dir = join_path(dir.as_str(), app_name);
                let mut file = String::from_str(app_name);
                file.append(".toml");
                Ok(join_path(app_dir.as_str(), file.as_str()))
            },
            None => Err(StoreError::NoDataDir),
        },
    }
}

} // verus!
