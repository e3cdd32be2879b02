//! What the terminal display needs from the library: the display mode,
//! the progress events of a run, and the values shown.

pub mod display_mode;
pub mod progress;
pub mod renderer;
pub mod state;
