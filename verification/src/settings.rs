//! Application settings: the data-file path. Reading and parsing a
//! configuration file is I/O around the library; this module holds the
//! decision: which path a loaded value, or its absence, yields.

use vstd::prelude::*;
use vstd::string::StringExecFns;

verus! {

/// The application settings.
#[derive(Debug, Clone, PartialEq, Eq)]
pub struct Settings {
    pub data_path: String,
}

impl Default for Settings {
    /// The built-in default data path.
    fn default() -> (r: Settings)
        ensures
            r.data_path@ == "/Data/"@,
    {
        Settings { data_path: String::from_str("/Data/") }
    }
}

impl Settings {
    /// The settings a loaded configuration yields: the configured data
    /// path when the configuration holds one, the default otherwise.
    pub fn from_data_path(path: Option<String>) -> (r: Settings)
        ensures
            match path {
                Some(p) => r.data_path == p,
                None => r.data_path@ == "/Data/"@,
            },
    {
        match path {
            Some(p) => Settings { data_path: p },
            None => Settings::default(),
        }
    }
}

} // verus!
