//! State of the about panel. Rendering is out of scope of this
//! library and lives with the application.

use vstd::prelude::*;

verus! {

/// The about panel: it carries no state of its own.
#[derive(Debug, Clone, PartialEq, Eq)]
pub struct AboutWindow {}

impl AboutWindow {
    pub fn new() -> (r: AboutWindow)
        ensures
            r == (AboutWindow {  }),
    {
        AboutWindow {  }
    }
}

} // verus!
