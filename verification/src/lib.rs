//! Pinned workspaces and a status line for a tiling window manager.
//!
//! Every workspace tag has a home screen.  Showing a tag exchanges the
//! workspace on that screen with the requested one, and every change of state
//! is rendered as one line of markup for a status bar.
use vstd::prelude::*;

pub mod actions;
pub mod bar;
pub mod bindings;
pub mod client_set;
pub mod decimal;
pub mod directory;
pub mod menus;
pub mod scratchpads;

verus! {

/// Number of windows in the main area of a layout.
pub const MAX_MAIN: u32 = 1;

/// Gap around the edge of a screen, in pixels.
pub const OUTER_PX: u32 = 5;

/// Gap between windows, in pixels.
pub const INNER_PX: u32 = 10;

/// Height kept free for the status bar, in pixels.
pub const BAR_HEIGHT_PX: u32 = 20;

/// Height kept free for the panel, in pixels.
pub const PANEL_HEIGHT_PX: u32 = 24;

} // verus!
