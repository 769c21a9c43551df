//! A side-by-side viewer for two text files: each file is shown in its own
//! pane, one pane at a time receives keyboard input, and navigation commands
//! move a cursor and scroll a viewport over the file's lines.
//!
//! The crate holds the viewer's state and its transitions: the per-pane text
//! buffer with cursor and scroll offset, the decoder from key input to
//! commands, the focus coordinator over the panes, and the horizontal layout
//! split. Reading the files and talking to the terminal are left to the
//! embedding program.
use vstd::prelude::*;

pub mod app;
pub mod buffer;
pub mod filewidget;
pub mod input;
pub mod layout;
pub mod lines;

verus! {

/// Startup configuration: the paths of the two files to show side by side.
pub struct Config {
    pub file1: String,
    pub file2: String,
}

} // verus!
