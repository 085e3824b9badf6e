//! Where the window state is kept.
//!
//! The state file has a fixed name and lies in a directory of the
//! application's own under the user's configuration directory. Finding the
//! configuration directory and the name of the executable, and reading and
//! writing the file, is the application's part; naming the place is done
//! here.

use vstd::prelude::*;

verus! {

/// The name of the state file.
pub const STATE_FILE: &'static str = "windows.ron";

/// The place of a state file: the file `file_name` in the directory
/// `directory` under `config_dir`.
#[derive(Clone, Debug, PartialEq, Eq)]
pub struct StatePath<P> {
    pub config_dir: P,
    pub directory: String,
    pub file_name: &'static str,
}

/// Get the default state file path using the executable name.
///
/// Returns `config_dir/<exe_name>/windows.ron`, or `None` where the name of
/// the executable or the configuration directory is not known.
pub fn get_default_state_path<P>(config_dir: Option<P>, executable_name: Option<String>) -> (r:
    Option<StatePath<P>>)
    ensures
        r == match (config_dir, executable_name) {
            (Some(config_dir), Some(directory)) => Some(
                StatePath { config_dir, directory, file_name: STATE_FILE },
            ),
            _ => None,
        },
{
    match executable_name {
        Some(directory) => get_state_path_for_app(config_dir, directory),
        None => None,
    }
}

/// Get the state file path for a given app name.
///
/// Returns `config_dir/<app_name>/windows.ron`, or `None` where the
/// configuration directory is not known.
pub fn get_state_path_for_app<P>(config_dir: Option<P>, app_name: String) -> (r: Option<
    StatePath<P>,
>)
    ensures
        r == match config_dir {
            Some(config_dir) => Some(
                StatePath { config_dir, directory: app_name, file_name: STATE_FILE },
            ),
            None => None,
        },
{
    match config_dir {
        Some(config_dir) => Some(
            StatePath { config_dir, directory: app_name, file_name: STATE_FILE },
        ),
        None => None,
    }
}

} // verus!
