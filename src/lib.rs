//! Native shell of a desktop application: the menu bar with its Settings
//! entry, the single main window, and the routing of menu and lifecycle
//! events to signals for the frontend.
use vstd::prelude::*;

pub mod events;
pub mod menu;
pub mod startup;
pub mod window;

verus! {

/// Identifier of the Settings menu item; the only menu identifier this shell reacts to.
pub const MENU_OPEN_SETTINGS_ID: &'static str = "open_settings";

} // verus!
