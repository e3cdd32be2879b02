//! The display mode and how it is chosen.

use vstd::prelude::*;

verus! {

/// The display mode of the application.
#[derive(Clone, Copy, Debug, PartialEq, Eq, Structural)]
pub enum DisplayMode {
    /// Full TUI with progress indicators and live updates.
    Tui,
    /// No output until the final results.
    Silent,
    /// Structured output only.
    Json,
}

impl DisplayMode {
    /// The display mode for the given flags: `Json` when JSON output is
    /// asked for, whatever the terminal; else `Tui` on an interactive
    /// terminal and `Silent` elsewhere.
    pub fn detect(json_flag: bool, is_tty: bool) -> (r: Self)
        ensures
            r == (if json_flag {
                DisplayMode::Json
            } else if is_tty {
                DisplayMode::Tui
            } else {
                DisplayMode::Silent
            }),
    {
        if json_flag {
            DisplayMode::Json
        } else if is_tty {
            DisplayMode::Tui
        } else {
            DisplayMode::Silent
        }
    }
}

} // verus!
