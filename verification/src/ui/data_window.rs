//! State of the data-file panel: the list of plugin file names on
//! offer. Rendering is out of scope of this library and lives with the
//! application.

use vstd::prelude::*;

verus! {

/// The data-file panel: the file names it lists.
#[derive(Debug, Clone, PartialEq, Eq)]
pub struct DataWindow {
    pub data_files: Vec<String>,
}

impl DataWindow {
    /// An empty panel.
    pub fn new() -> (r: DataWindow)
        ensures
            r.data_files@.len() == 0,
    {
        DataWindow { data_files: Vec::new() }
    }

    /// Append a file name to the list.
    pub fn add_file(&mut self, filename: String)
        ensures
            final(self).data_files@ == old(self).data_files@.push(filename),
    {
        self.data_files.push(filename);
    }
}

} // verus!
