//! Dashboard keyboard navigation messages and their fold.

use vstd::prelude::*;
use crate::dashboard::DashboardState;

verus! {

/// Move the dashboard's selection cursor.
#[derive(Debug, Clone, Copy, PartialEq, Eq, Structural)]
pub enum DashboardNav {
    /// Move selection up one entry (`k`).
    Up,
    /// Move selection down one entry (`j`).
    Down,
    /// Jump to the first entry (`g`).
    First,
    /// Jump to the last entry (`G`).
    Last,
}

/// The selected index after a navigation step over `len` rows.
pub open spec fn spec_nav(nav: DashboardNav, sel: nat, len: nat) -> nat {
    match nav {
        DashboardNav::Up => if sel > 0 { (sel - 1) as nat } else { 0 },
        DashboardNav::Down => if len > 0 && sel + 1 < len { sel + 1 } else { sel },
        DashboardNav::First => if len > 0 { 0 } else { sel },
        DashboardNav::Last => if len > 0 { (len - 1) as nat } else { sel },
    }
}

/// Folds a [`DashboardNav`] into the dashboard: only the selection moves.
pub fn apply_nav(dashboard: &mut DashboardState, nav: DashboardNav)
    requires
        old(dashboard).wf(),
    ensures
        final(dashboard).wf(),
        final(dashboard)@.entries == old(dashboard)@.entries,
        final(dashboard)@.scroll_offset == old(dashboard)@.scroll_offset,
        final(dashboard)@.selected_index == spec_nav(
            nav,
            old(dashboard)@.selected_index,
            old(dashboard)@.entries.len(),
        ),
{
    match nav {
        DashboardNav::Up => dashboard.select_prev(),
        DashboardNav::Down => dashboard.select_next(),
        DashboardNav::First => dashboard.select_first(),
        DashboardNav::Last => dashboard.select_last(),
    }
}

} // verus!
