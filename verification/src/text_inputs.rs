//! Intent handlers for the single-line text inputs that take the keyboard
//! while their scope has focus: the lifecycle argument input, the session
//! rename input and the picker's filter.

use vstd::prelude::*;
use crate::app_state::{AppState, ArgInputState, FrontendState, RenameSessionInputState};
use crate::intent_result::IntentResult;
use crate::line_input::{LineEdit, LineInput, line_edited, line_pasted};

verus! {

/// Nothing changed but the argument input's text (and its cursor).
pub open spec fn only_arg_text_changed(pre: AppState, post: AppState) -> bool {
    &&& post.session == pre.session
    &&& post.frontend == (FrontendState {
        arg_input: ArgInputState { text: post.frontend.arg_input.text, ..pre.frontend.arg_input },
        ..pre.frontend
    })
}

/// Nothing changed but the rename input's text (and its cursor).
pub open spec fn only_rename_text_changed(pre: AppState, post: AppState) -> bool {
    &&& post.session == pre.session
    &&& post.frontend == (FrontendState {
        rename_session_input: RenameSessionInputState { text: post.frontend.rename_session_input.text },
        ..pre.frontend
    })
}

/// What `handle_arg_input_edit` does: the state it leaves and the result it returns.
pub open spec fn arg_input_edit_effect(e: LineEdit, pre: AppState, post: AppState, r: IntentResult) -> bool {
    &&& r.is_empty_result()
    &&& only_arg_text_changed(pre, post)
    &&& line_edited(pre.frontend.arg_input.text, post.frontend.arg_input.text, e)
}

/// Applies an editing key to the lifecycle argument input.
pub fn handle_arg_input_edit(state: &mut AppState, e: LineEdit) -> (r: IntentResult)
    requires
        old(state).wf(),
    ensures
        final(state).wf(),
        r.wf(),
        arg_input_edit_effect(e, *old(state), *final(state), r),
{
    state.frontend.arg_input.text.apply(e);
    IntentResult::empty()
}

/// What `handle_arg_input_paste` does: the state it leaves and the result it returns.
pub open spec fn arg_input_paste_effect(text: Seq<char>, pre: AppState, post: AppState, r: IntentResult) -> bool {
    &&& r.is_empty_result()
    &&& only_arg_text_changed(pre, post)
    &&& line_pasted(pre.frontend.arg_input.text, post.frontend.arg_input.text, text)
}

/// Pastes text into the lifecycle argument input.
pub fn handle_arg_input_paste(state: &mut AppState, text: &str) -> (r: IntentResult)
    requires
        old(state).wf(),
    ensures
        final(state).wf(),
        r.wf(),
        arg_input_paste_effect(text@, *old(state), *final(state), r),
{
    state.frontend.arg_input.text.paste(text);
    IntentResult::empty()
}

/// What `handle_arg_input_leave` does: the state it leaves and the result it returns.
pub open spec fn arg_input_leave_effect(pre: AppState, post: AppState, r: IntentResult) -> bool {
    &&& r.is_empty_result()
    &&& post.session == pre.session
    &&& post.frontend.scope_stack.base == pre.frontend.scope_stack.base
    &&& post.frontend.scope_stack.overlays@ == if pre.frontend.scope_stack.overlays@.len() > 0 {
        pre.frontend.scope_stack.overlays@.drop_last()
    } else {
        pre.frontend.scope_stack.overlays@
    }
    &&& post.frontend.arg_input.lifecycle_name@.len() == 0
    &&& post.frontend.arg_input.template_display@.len() == 0
    &&& post.frontend.arg_input.text.input@.len() == 0
    &&& post.frontend.arg_input.text.cursor_pos == 0
    &&& post.frontend == (FrontendState {
        scope_stack: post.frontend.scope_stack,
        arg_input: post.frontend.arg_input,
        ..pre.frontend
    })
}

/// Escape in the argument input cancels it: the scope is popped and the
/// input cleared.
pub fn handle_arg_input_leave(state: &mut AppState) -> (r: IntentResult)
    requires
        old(state).wf(),
    ensures
        final(state).wf(),
        r.wf(),
        arg_input_leave_effect(*old(state), *final(state), r),
{
    state.frontend.scope_stack.pop();
    state.frontend.arg_input = ArgInputState::new();
    IntentResult::empty()
}

/// What `handle_rename_edit` does: the state it leaves and the result it returns.
pub open spec fn rename_edit_effect(e: LineEdit, pre: AppState, post: AppState, r: IntentResult) -> bool {
    &&& r.is_empty_result()
    &&& only_rename_text_changed(pre, post)
    &&& line_edited(pre.frontend.rename_session_input.text, post.frontend.rename_session_input.text, e)
}

/// Applies an editing key to the session rename input.
pub fn handle_rename_edit(state: &mut AppState, e: LineEdit) -> (r: IntentResult)
    requires
        old(state).wf(),
    ensures
        final(state).wf(),
        r.wf(),
        rename_edit_effect(e, *old(state), *final(state), r),
{
    state.frontend.rename_session_input.text.apply(e);
    IntentResult::empty()
}

/// What `handle_rename_paste` does: the state it leaves and the result it returns.
pub open spec fn rename_paste_effect(text: Seq<char>, pre: AppState, post: AppState, r: IntentResult) -> bool {
    &&& r.is_empty_result()
    &&& only_rename_text_changed(pre, post)
    &&& line_pasted(pre.frontend.rename_session_input.text, post.frontend.rename_session_input.text, text)
}

/// Pastes text into the session rename input.
pub fn handle_rename_paste(state: &mut AppState, text: &str) -> (r: IntentResult)
    requires
        old(state).wf(),
    ensures
        final(state).wf(),
        r.wf(),
        rename_paste_effect(text@, *old(state), *final(state), r),
{
    state.frontend.rename_session_input.text.paste(text);
    IntentResult::empty()
}

/// What `handle_rename_session_leave` does: the state it leaves and the result it returns.
pub open spec fn rename_session_leave_effect(pre: AppState, post: AppState, r: IntentResult) -> bool {
    &&& r.is_empty_result()
    &&& post.session == pre.session
    &&& post.frontend.scope_stack.base == pre.frontend.scope_stack.base
    &&& post.frontend.scope_stack.overlays@ == if pre.frontend.scope_stack.overlays@.len() > 0 {
        pre.frontend.scope_stack.overlays@.drop_last()
    } else {
        pre.frontend.scope_stack.overlays@
    }
    &&& post.frontend.rename_session_input.text.input@.len() == 0
    &&& post.frontend.rename_session_input.text.cursor_pos == 0
    &&& post.frontend == (FrontendState {
        scope_stack: post.frontend.scope_stack,
        rename_session_input: post.frontend.rename_session_input,
        ..pre.frontend
    })
}

/// Leaves the rename input without renaming: the scope is popped and the
/// input cleared.
pub fn handle_rename_session_leave(state: &mut AppState) -> (r: IntentResult)
    requires
        old(state).wf(),
    ensures
        final(state).wf(),
        r.wf(),
        rename_session_leave_effect(*old(state), *final(state), r),
{
    state.frontend.scope_stack.pop();
    state.frontend.rename_session_input = RenameSessionInputState { text: LineInput::new() };
    IntentResult::empty()
}

/// What `handle_picker_paste` does: the state it leaves and the result it returns.
pub open spec fn picker_paste_effect(text: Seq<char>, pre: AppState, post: AppState, r: IntentResult) -> bool {
    &&& r.is_empty_result()
    &&& post.session == pre.session
    &&& match pre.frontend.picker {
        Some(p) => {
            &&& post.frontend.picker matches Some(q) && q.kind == p.kind && line_pasted(p.filter, q.filter, text)
            &&& post.frontend == (FrontendState { picker: post.frontend.picker, ..pre.frontend })
        },
        None => post.frontend == pre.frontend,
    }
}

/// Pastes text into the open picker's filter; without a picker, nothing.
pub fn handle_picker_paste(state: &mut AppState, text: &str) -> (r: IntentResult)
    requires
        old(state).wf(),
    ensures
        final(state).wf(),
        r.wf(),
        picker_paste_effect(text@, *old(state), *final(state), r),
{
    match &mut state.frontend.picker {
        Some(p) => p.filter.paste(text),
        None => {},
    }
    IntentResult::empty()
}

} // verus!
