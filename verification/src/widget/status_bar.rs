//! The one-line key hint under the input box.

use vstd::prelude::*;

use crate::tui::InputMode;

verus! {

pub struct StatusBar {
    pub mode: InputMode,
}

impl StatusBar {
    /// The hint text of each mode.
    pub open spec fn spec_content(mode: InputMode) -> Seq<char> {
        match mode {
            InputMode::Normal => "[q] quit | [i, a] chat"@,
            InputMode::Insert => "[esc] normal | [enter] send"@,
            InputMode::Leader => "[esc] normal | [e] edit file"@,
            InputMode::EditFile => "[esc] normal | [m] edit model config | [s] edit mcp config"@,
        }
    }

    /// The keys that the current mode answers to.
    #[inline]
    pub fn content(&self) -> (text: &'static str)
        ensures
            text@ == Self::spec_content(self.mode),
    {
        match self.mode {
            InputMode::Normal => "[q] quit | [i, a] chat",
            InputMode::Insert => "[esc] normal | [enter] send",
            InputMode::Leader => "[esc] normal | [e] edit file",
            InputMode::EditFile => "[esc] normal | [m] edit model config | [s] edit mcp config",
        }
    }
}

} // verus!
