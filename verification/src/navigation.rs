//! Scrolling the active session's chat log.

use vstd::prelude::*;
use crate::app_state::AppState;
use crate::intent_result::IntentResult;
use crate::selection::only_active_changed;

verus! {

/// What `handle_scroll_up` does: the state it leaves and the result it returns.
pub open spec fn scroll_up_effect(pre: AppState, post: AppState, r: IntentResult) -> bool {
    &&& r.is_empty_result()
    &&& only_active_changed(pre, post)
    &&& post.session.active@ == pre.session.active@.scroll_up(1)
}

/// Scrolls the chat log up by one row, stopping at the top.
pub fn handle_scroll_up(state: &mut AppState) -> (r: IntentResult)
    requires
        old(state).wf(),
    ensures
        final(state).wf(),
        r.wf(),
        scroll_up_effect(*old(state), *final(state), r),
{
    state.session.active.scroll_up(1);
    IntentResult::empty()
}

/// What `handle_scroll_down` does: the state it leaves and the result it returns.
pub open spec fn scroll_down_effect(pre: AppState, post: AppState, r: IntentResult) -> bool {
    &&& r.is_empty_result()
    &&& only_active_changed(pre, post)
    &&& post.session.active@ == pre.session.active@.scroll_down(1)
}

/// Scrolls the chat log down by one row, stopping at the end.
pub fn handle_scroll_down(state: &mut AppState) -> (r: IntentResult)
    requires
        old(state).wf(),
    ensures
        final(state).wf(),
        r.wf(),
        scroll_down_effect(*old(state), *final(state), r),
{
    state.session.active.scroll_down(1);
    IntentResult::empty()
}

} // verus!
