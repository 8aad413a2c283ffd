//! The chat input box and its intent handlers: typing, cursor movement,
//! pasting, mode switches and message submission.

use vstd::prelude::*;
use vstd::string::*;
use crate::app_state::{AppState, FocusScope, FrontendState};
use crate::intent_result::{IntentResult, Message};
use crate::line_input::{LineInput, line_pasted};
use crate::session::{ChatInputState, ChatSessionState, InputMode, PhaseKind, spec_phase};

verus! {

impl ChatInputState {
    /// The typed text.
    pub fn text(&self) -> (r: &str)
        ensures
            r@ == self.text.input@,
    {
        self.text.input.as_str()
    }

    /// Whether nothing is typed.
    pub fn is_empty(&self) -> (r: bool)
        ensures
            r == (self.text.input@.len() == 0),
    {
        self.text.is_empty()
    }

    /// Whether the input box refuses edits.
    pub fn disabled(&self) -> (r: bool)
        ensures
            r == self.disabled,
    {
        self.disabled
    }

    /// Enables or disables the input box.
    pub fn set_enabled(&mut self, enabled: bool)
        ensures
            *final(self) == (ChatInputState { disabled: !enabled, ..*old(self) }),
    {
        self.disabled = !enabled;
    }

    /// The submission mode.
    pub fn input_mode(&self) -> (r: InputMode)
        ensures
            r == self.mode,
    {
        self.mode
    }

    /// Empties the text.
    pub fn reset(&mut self)
        ensures
            final(self).text.wf(),
            final(self).text.input@ == Seq::<char>::empty(),
            final(self).text.cursor_pos == 0,
            final(self).disabled == old(self).disabled,
            final(self).mode == old(self).mode,
    {
        self.text.clear();
    }

    /// Inserts `text` at the cursor (no-op when the result would not fit in
    /// memory addressing).
    pub fn insert_text(&mut self, text: &str)
        requires
            old(self).text.wf(),
        ensures
            final(self).text.wf(),
            final(self).disabled == old(self).disabled,
            final(self).mode == old(self).mode,
            old(self).text.input@.len() + text@.len() <= usize::MAX ==> {
                &&& final(self).text.input@ == old(self).text.input@.subrange(
                    0,
                    old(self).text.cursor_pos as int,
                ) + text@ + old(self).text.input@.subrange(
                    old(self).text.cursor_pos as int,
                    old(self).text.input@.len() as int,
                )
                &&& final(self).text.cursor_pos == old(self).text.cursor_pos + text@.len()
            },
            old(self).text.input@.len() + text@.len() > usize::MAX ==> *final(self) == *old(self),
    {
        let len = self.text.input.as_str().unicode_len();
        let n = text.unicode_len();
        if n <= usize::MAX - len {
            self.text.insert_str(text);
        }
    }

    /// Moves the cursor to the start of the text.
    pub fn move_cursor_to_start(&mut self)
        requires
            old(self).text.wf(),
        ensures
            final(self).text.wf(),
            *final(self) == (ChatInputState {
                text: LineInput { cursor_pos: 0, ..old(self).text },
                ..*old(self)
            }),
    {
        self.text.cursor_pos = 0;
    }

    /// Moves the cursor to the end of the text.
    pub fn move_cursor_to_end(&mut self)
        requires
            old(self).text.wf(),
        ensures
            final(self).text.wf(),
            *final(self) == (ChatInputState {
                text: LineInput { cursor_pos: old(self).text.input@.len() as usize, ..old(self).text },
                ..*old(self)
            }),
            final(self).text.cursor_pos == old(self).text.input@.len(),
    {
        self.text.cursor_pos = self.text.input.as_str().unicode_len();
    }
}

/// Only the active session's chat input changed.
pub open spec fn only_chat_input_changed(old: AppState, new: AppState) -> bool {
    &&& new.frontend == old.frontend
    &&& new.session.inactive == old.session.inactive
    &&& new.session.loading == old.session.loading
    &&& new.session.next_session_id == old.session.next_session_id
    &&& new.session.active == (ChatSessionState {
        chat_input: new.session.active.chat_input,
        ..old.session.active
    })
    &&& new.session.active.chat_input.disabled == old.session.active.chat_input.disabled
    &&& new.session.active.chat_input.mode == old.session.active.chat_input.mode
}

/// What `handle_insert_char` does: the state it leaves and the result it returns.
pub open spec fn insert_char_effect(ch: char, pre: AppState, post: AppState, r: IntentResult) -> bool {
    &&& (r.is_empty_result())
    &&& (only_chat_input_changed(pre, post))
    &&& (({
                let t = pre.session.active.chat_input.text;
                let n = post.session.active.chat_input.text;
                if t.input@.len() < usize::MAX {
                    n.input@ == t.input@.subrange(0, t.cursor_pos as int) + seq![ch] + t.input@.subrange(
                        t.cursor_pos as int,
                        t.input@.len() as int,
                    ) && n.cursor_pos == t.cursor_pos + 1
                } else {
                    n == t
                }
            }))
}

/// Inserts a character at the chat input's cursor.
pub fn handle_insert_char(ch: char, state: &mut AppState) -> (r: IntentResult)
    requires
        old(state).wf(),
    ensures
        final(state).wf(),
        r.wf(),
        insert_char_effect(ch, *old(state), *final(state), r),
{
    let input = &mut state.session.active.chat_input.text;
    if input.input.as_str().unicode_len() < usize::MAX {
        input.insert_char(ch);
    }
    IntentResult::empty()
}

/// What `handle_delete_grapheme` does: the state it leaves and the result it returns.
pub open spec fn delete_grapheme_effect(pre: AppState, post: AppState, r: IntentResult) -> bool {
    &&& (r.is_empty_result())
    &&& (only_chat_input_changed(pre, post))
    &&& (({
                let t = pre.session.active.chat_input.text;
                let n = post.session.active.chat_input.text;
                if t.cursor_pos > 0 {
                    n.input@ == t.input@.remove(t.cursor_pos - 1) && n.cursor_pos == t.cursor_pos - 1
                } else {
                    n == t
                }
            }))
}

/// Deletes the character before the chat input's cursor.
pub fn handle_delete_grapheme(state: &mut AppState) -> (r: IntentResult)
    requires
        old(state).wf(),
    ensures
        final(state).wf(),
        r.wf(),
        delete_grapheme_effect(*old(state), *final(state), r),
{
    state.session.active.chat_input.text.delete_back();
    IntentResult::empty()
}

/// What `handle_delete_grapheme_forward` does: the state it leaves and the result it returns.
pub open spec fn delete_grapheme_forward_effect(pre: AppState, post: AppState, r: IntentResult) -> bool {
    &&& (r.is_empty_result())
    &&& (only_chat_input_changed(pre, post))
    &&& (({
                let t = pre.session.active.chat_input.text;
                let n = post.session.active.chat_input.text;
                if t.cursor_pos < t.input@.len() {
                    n.input@ == t.input@.remove(t.cursor_pos as int) && n.cursor_pos == t.cursor_pos
                } else {
                    n == t
                }
            }))
}

/// Deletes the character after the chat input's cursor.
pub fn handle_delete_grapheme_forward(state: &mut AppState) -> (r: IntentResult)
    requires
        old(state).wf(),
    ensures
        final(state).wf(),
        r.wf(),
        delete_grapheme_forward_effect(*old(state), *final(state), r),
{
    state.session.active.chat_input.text.delete_forward();
    IntentResult::empty()
}

/// What `handle_move_cursor_left` does: the state it leaves and the result it returns.
pub open spec fn move_cursor_left_effect(pre: AppState, post: AppState, r: IntentResult) -> bool {
    &&& (r.is_empty_result())
    &&& (only_chat_input_changed(pre, post))
    &&& (post.session.active.chat_input.text.input
                == pre.session.active.chat_input.text.input)
    &&& (post.session.active.chat_input.text.cursor_pos == if pre.session.active.chat_input.text.cursor_pos > 0 {
                pre.session.active.chat_input.text.cursor_pos - 1
            } else {
                0
            })
}

/// Moves the chat input's cursor one character left.
pub fn handle_move_cursor_left(state: &mut AppState) -> (r: IntentResult)
    requires
        old(state).wf(),
    ensures
        final(state).wf(),
        r.wf(),
        move_cursor_left_effect(*old(state), *final(state), r),
{
    state.session.active.chat_input.text.move_left();
    IntentResult::empty()
}

/// What `handle_move_cursor_right` does: the state it leaves and the result it returns.
pub open spec fn move_cursor_right_effect(pre: AppState, post: AppState, r: IntentResult) -> bool {
    &&& (r.is_empty_result())
    &&& (only_chat_input_changed(pre, post))
    &&& (post.session.active.chat_input.text.input
                == pre.session.active.chat_input.text.input)
    &&& (post.session.active.chat_input.text.cursor_pos == if pre.session.active.chat_input.text.cursor_pos < pre.session.active.chat_input.text.input@.len() {
                pre.session.active.chat_input.text.cursor_pos + 1
            } else {
                pre.session.active.chat_input.text.cursor_pos as int
            })
}

/// Moves the chat input's cursor one character right.
pub fn handle_move_cursor_right(state: &mut AppState) -> (r: IntentResult)
    requires
        old(state).wf(),
    ensures
        final(state).wf(),
        r.wf(),
        move_cursor_right_effect(*old(state), *final(state), r),
{
    state.session.active.chat_input.text.move_right();
    IntentResult::empty()
}

/// What `handle_move_cursor_to_start` does: the state it leaves and the result it returns.
pub open spec fn move_cursor_to_start_effect(pre: AppState, post: AppState, r: IntentResult) -> bool {
    &&& (r.is_empty_result())
    &&& (only_chat_input_changed(pre, post))
    &&& (post.session.active.chat_input.text.input
                == pre.session.active.chat_input.text.input)
    &&& (post.session.active.chat_input.text.cursor_pos == 0)
}

/// Moves the chat input's cursor to the start of the text.
pub fn handle_move_cursor_to_start(state: &mut AppState) -> (r: IntentResult)
    requires
        old(state).wf(),
    ensures
        final(state).wf(),
        r.wf(),
        move_cursor_to_start_effect(*old(state), *final(state), r),
{
    state.session.active.chat_input.move_cursor_to_start();
    IntentResult::empty()
}

/// What `handle_move_cursor_to_end` does: the state it leaves and the result it returns.
pub open spec fn move_cursor_to_end_effect(pre: AppState, post: AppState, r: IntentResult) -> bool {
    &&& (r.is_empty_result())
    &&& (only_chat_input_changed(pre, post))
    &&& (post.session.active.chat_input.text.input
                == pre.session.active.chat_input.text.input)
    &&& (post.session.active.chat_input.text.cursor_pos
                == pre.session.active.chat_input.text.input@.len())
}

/// Moves the chat input's cursor to the end of the text.
pub fn handle_move_cursor_to_end(state: &mut AppState) -> (r: IntentResult)
    requires
        old(state).wf(),
    ensures
        final(state).wf(),
        r.wf(),
        move_cursor_to_end_effect(*old(state), *final(state), r),
{
    state.session.active.chat_input.move_cursor_to_end();
    IntentResult::empty()
}

/// What `handle_paste_text` does: the state it leaves and the result it returns.
pub open spec fn paste_text_effect(text: Seq<char>, pre: AppState, post: AppState, r: IntentResult) -> bool {
    &&& r.is_empty_result()
    &&& only_chat_input_changed(pre, post)
    &&& line_pasted(pre.session.active.chat_input.text, post.session.active.chat_input.text, text)
}

/// Pastes text at the chat input's cursor.
pub fn handle_paste_text(text: &str, state: &mut AppState) -> (r: IntentResult)
    requires
        old(state).wf(),
    ensures
        final(state).wf(),
        r.wf(),
        paste_text_effect(text@, *old(state), *final(state), r),
{
    state.session.active.chat_input.text.paste(text);
    IntentResult::empty()
}

/// What `handle_submit_message` does: the state it leaves and the result it returns.
pub open spec fn submit_message_effect(pre: AppState, post: AppState, r: IntentResult) -> bool {
    &&& (r.scope_signal is None)
    &&& (only_chat_input_changed(pre, post))
    &&& (pre.session.active.chat_input.text.input@.len() == 0 ==> {
                &&& r.messages@.len() == 0
                &&& post == pre
            })
    &&& (pre.session.active.chat_input.text.input@.len() > 0 ==> {
                let v = pre.session.active@;
                let sid = v.session_id;
                let steer = v.chat_input.mode == InputMode::Steer && spec_phase(v) != PhaseKind::Idle;
                &&& post.session.active.chat_input.text.input@.len() == 0
                &&& post.session.active.chat_input.text.cursor_pos == 0
                &&& r.messages@.len() == 2
                &&& r.messages@[0] == Message::MarkSessionInteracted { session_id: sid }
                &&& steer ==> (r.messages@[1] matches Message::SubmitSteeringMessage { session_id, text }
                    && session_id == sid && text@ == v.chat_input.text.input@)
                &&& !steer ==> (r.messages@[1] matches Message::EnqueueUserMessage { session_id, text }
                    && session_id == sid && text@ == v.chat_input.text.input@)
            })
}

/// Submits the typed message. With nothing typed this is a no-op. Otherwise
/// the input empties and the session is marked interacted with; in Steer
/// mode while the session streams or is busy the text steers the running
/// turn (`SubmitSteeringMessage`), else it is enqueued
/// (`EnqueueUserMessage`). The history is not touched.
pub fn handle_submit_message(state: &mut AppState) -> (r: IntentResult)
    requires
        old(state).wf(),
    ensures
        final(state).wf(),
        r.wf(),
        submit_message_effect(*old(state), *final(state), r),
{
    if state.session.active.chat_input.is_empty() {
        return IntentResult::empty();
    }
    let text = state.session.active.chat_input.text.input.clone();
    let session_id = state.session.active.session_id();
    let steer = match state.session.active.chat_input.input_mode() {
        InputMode::Steer => match state.session.active.phase() {
            PhaseKind::Idle => false,
            _ => true,
        },
        InputMode::Queue => false,
    };
    state.session.active.chat_input.reset();
    let second = if steer {
        Message::SubmitSteeringMessage { session_id, text }
    } else {
        Message::EnqueueUserMessage { session_id, text }
    };
    IntentResult::empty().with_message(Message::MarkSessionInteracted { session_id }).with_message(
        second,
    )
}

/// What `handle_toggle_input_mode` does: the state it leaves and the result it returns.
pub open spec fn toggle_input_mode_effect(pre: AppState, post: AppState, r: IntentResult) -> bool {
    &&& (r.is_empty_result())
    &&& (only_active_chat_mode_changed(pre, post))
    &&& (post.session.active.chat_input.mode == match pre.session.active.chat_input.mode {
                InputMode::Steer => InputMode::Queue,
                InputMode::Queue => InputMode::Steer,
            })
}

/// Flips the submission mode between Steer and Queue.
pub fn handle_toggle_input_mode(state: &mut AppState) -> (r: IntentResult)
    requires
        old(state).wf(),
    ensures
        final(state).wf(),
        r.wf(),
        toggle_input_mode_effect(*old(state), *final(state), r),
{
    let next = match state.session.active.chat_input.mode {
        InputMode::Steer => InputMode::Queue,
        InputMode::Queue => InputMode::Steer,
    };
    state.session.active.chat_input.mode = next;
    IntentResult::empty()
}

/// Only the active chat input's mode changed.
pub open spec fn only_active_chat_mode_changed(old: AppState, new: AppState) -> bool {
    &&& new.frontend == old.frontend
    &&& new.session == (crate::app_state::SessionStore {
        active: ChatSessionState {
            chat_input: ChatInputState { mode: new.session.active.chat_input.mode, ..old.session.active.chat_input },
            ..old.session.active
        },
        ..old.session
    })
}

/// What `handle_normal_escape` does: the state it leaves and the result it returns.
pub open spec fn normal_escape_effect(pre: AppState, post: AppState, r: IntentResult) -> bool {
    &&& (r.is_empty_result())
    &&& (post.session == pre.session)
    &&& (post.frontend == (FrontendState {
                cancel_stream_prompt: pre.frontend.cancel_stream_prompt
                    || pre.session.active.streaming,
                ..pre.frontend
            }))
}

/// Escape in Normal scope: while the active session streams, raises the
/// cancel-stream confirmation prompt; otherwise nothing.
pub fn handle_normal_escape(state: &mut AppState) -> (r: IntentResult)
    requires
        old(state).wf(),
    ensures
        final(state).wf(),
        r.wf(),
        normal_escape_effect(*old(state), *final(state), r),
{
    if state.session.active.streaming {
        state.frontend.cancel_stream_prompt = true;
    }
    IntentResult::empty()
}

/// What `handle_enter_insert_mode` does: the state it leaves and the result it returns.
pub open spec fn enter_insert_mode_effect(pre: AppState, post: AppState, r: IntentResult) -> bool {
    &&& (r.is_empty_result())
    &&& (post.session == pre.session)
    &&& (post.frontend.scope_stack.base == pre.frontend.scope_stack.base)
    &&& (post.frontend.scope_stack.overlays@ == pre.frontend.scope_stack.overlays@.push(
                FocusScope::Input,
            ))
    &&& (post.frontend == (FrontendState {
                scope_stack: post.frontend.scope_stack,
                ..pre.frontend
            }))
}

/// Enters insert mode: the chat input takes focus.
pub fn handle_enter_insert_mode(state: &mut AppState) -> (r: IntentResult)
    requires
        old(state).wf(),
    ensures
        final(state).wf(),
        r.wf(),
        enter_insert_mode_effect(*old(state), *final(state), r),
{
    state.frontend.scope_stack.push(FocusScope::Input);
    IntentResult::empty()
}

/// What `handle_enter_normal_mode` does: the state it leaves and the result it returns.
pub open spec fn enter_normal_mode_effect(pre: AppState, post: AppState, r: IntentResult) -> bool {
    &&& (r.is_empty_result())
    &&& (post.session == pre.session)
    &&& (post.frontend.scope_stack.base == pre.frontend.scope_stack.base)
    &&& (post.frontend.scope_stack.overlays@.len() == 0)
    &&& (post.frontend.picker is None)
    &&& (post.frontend == (FrontendState {
                scope_stack: post.frontend.scope_stack,
                picker: None,
                ..pre.frontend
            }))
}

/// Returns to Normal mode: drops the focus overlays (back to the current
/// tab) and closes any picker.
pub fn handle_enter_normal_mode(state: &mut AppState) -> (r: IntentResult)
    requires
        old(state).wf(),
    ensures
        final(state).wf(),
        r.wf(),
        enter_normal_mode_effect(*old(state), *final(state), r),
{
    state.frontend.scope_stack.clear_overlays();
    state.frontend.picker = None;
    IntentResult::empty()
}

} // verus!
