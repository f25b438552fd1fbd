//! State of the log panel: the lines to show and whether to scroll to
//! the newest one. Rendering is out of scope of this library and lives
//! with the application.

use vstd::prelude::*;

verus! {

/// The log panel: the lines it shows and its scroll request.
#[derive(Debug, Clone, PartialEq, Eq)]
pub struct LogWindow {
    pub lines: Vec<String>,
    pub scroll: bool,
}

impl LogWindow {
    /// A panel over the given lines, not scrolling.
    pub fn new(lines: Vec<String>) -> (r: LogWindow)
        ensures
            r.lines == lines,
            r.scroll == false,
    {
        LogWindow { lines, scroll: false }
    }

    /// Request scrolling to the newest line.
    pub fn scroll(self, scroll: bool) -> (r: LogWindow)
        ensures
            r.lines == self.lines,
            r.scroll == scroll,
    {
        LogWindow { lines: self.lines, scroll }
    }
}

} // verus!
