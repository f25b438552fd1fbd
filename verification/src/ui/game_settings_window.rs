//! State of the game-settings panel: the editor ids it lists.
//! Rendering is out of scope of this library and lives with the
//! application.

use vstd::prelude::*;

verus! {

/// The game-settings panel: the entries it lists.
#[derive(Debug, Clone, PartialEq, Eq)]
pub struct GameSettingsWindow {
    pub entries: Vec<String>,
}

impl GameSettingsWindow {
    /// An empty panel.
    pub fn new() -> (r: GameSettingsWindow)
        ensures
            r.entries@.len() == 0,
    {
        GameSettingsWindow { entries: Vec::new() }
    }

    /// Append an entry to the list.
    pub fn add_entry(&mut self, entry: String)
        ensures
            final(self).entries@ == old(self).entries@.push(entry),
    {
        self.entries.push(entry);
    }
}

} // verus!
