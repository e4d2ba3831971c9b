//! Keeps the names of a tiling window manager's workspaces in step with the
//! windows that are open on them.
//!
//! A workspace name holds a number, an optional short label and a summary of
//! the open windows as icons. The library parses and builds such names, walks
//! the layout tree, picks an icon for each window, and plans the rename
//! requests of a pass. What talks to the window manager lives outside of it.

pub mod classes;
pub mod format;
pub mod icons;
pub mod names;
pub mod rename;
pub mod settings;
pub mod supervisor;
pub mod tally;
pub mod text;
pub mod tree;

pub use settings::{IconListFormat, Settings};
