//! Route ids for the dashboard's rows, used for composition and diagnostics.

use vstd::prelude::*;
use crate::key_routes::RouteId;

verus! {

/// Move selection up one row (`k`).
pub const NAV_UP: RouteId = RouteId::NavUp;

/// Move selection down one row (`j`).
pub const NAV_DOWN: RouteId = RouteId::NavDown;

/// Jump to the first row (`g`).
pub const NAV_FIRST: RouteId = RouteId::NavFirst;

/// Jump to the last row (`G`).
pub const NAV_LAST: RouteId = RouteId::NavLast;

/// Switch back to the chat tab (`<Tab>`/`<esc>`).
pub const SWITCH_TAB: RouteId = RouteId::SwitchTab;

/// Quit the application (`q`).
pub const QUIT: RouteId = RouteId::Quit;

/// Toggle the which-key popup (`?`).
pub const TOGGLE_WHICHKEY: RouteId = RouteId::ToggleWhichkey;

} // verus!
