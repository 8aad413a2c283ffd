//! The intent handler: the single decision point for all user input.
//!
//! Every intent first clears the previous intent's transient signals and
//! status hint. It is then offered to the route table (a slice's own action
//! serves it and nothing else runs), then to the confirmation prompts (a
//! shown prompt is dismissed by any intent and confirmed by its own key; the
//! sidebar's tree prompt is dismissed by any key but its own), and finally
//! to the built-in arms, chosen by the intent and the scope with
//! focus. When the active session changed, `ActiveSessionChanged` is
//! appended to the result.

use vstd::prelude::*;
use crate::app_state::{AppState, FocusScope, FrontendState, SessionStore, TuiSignals};
use crate::archive_tree::{ArchiveTreePrompt, archive_prompt_settled, settle_archive_prompt, spec_pressed};
use crate::chat_input::{
    delete_grapheme_effect, delete_grapheme_forward_effect, enter_insert_mode_effect,
    enter_normal_mode_effect, handle_delete_grapheme, handle_delete_grapheme_forward,
    handle_enter_insert_mode, handle_enter_normal_mode, handle_insert_char,
    handle_move_cursor_left, handle_move_cursor_right, handle_move_cursor_to_end,
    handle_move_cursor_to_start, handle_normal_escape, handle_paste_text, handle_submit_message,
    handle_toggle_input_mode, insert_char_effect, move_cursor_left_effect,
    move_cursor_right_effect, move_cursor_to_end_effect, move_cursor_to_start_effect,
    normal_escape_effect, paste_text_effect, submit_message_effect, toggle_input_mode_effect,
};
use crate::global::{
    ctrl_clear_effect, handle_ctrl_clear, handle_interrupt, handle_quit,
    handle_toggle_audit_popup, handle_toggle_whichkey, interrupt_effect, quit_effect,
    toggle_audit_popup_effect, toggle_whichkey_effect,
};
use crate::intent::Intent;
use crate::intent_result::{IntentResult, Message, ScopeSignal, SliceScopeId};
use crate::key_routes::{KeyRoutes, RouteAction, RouteRowView, spec_action_message, spec_intent_route};
use crate::line_input::LineEdit;
use crate::navigation::{handle_scroll_down, handle_scroll_up, scroll_down_effect, scroll_up_effect};
use crate::selection::{
    EntryPredicate, expand_tool_entry_effect, fork_from_entry_effect, handle_expand_tool_entry,
    handle_fork_from_entry, handle_ignore_selected, handle_jump_next_entry,
    handle_jump_prev_entry, handle_new_session_from_entry, handle_pin_selected,
    handle_reset_selected, handle_select_next, handle_select_prev, handle_toggle_ignored_block,
    handle_yank_selected, ignore_selected_effect, jump_next_entry_effect, jump_prev_entry_effect,
    new_session_from_entry_effect, only_active_changed, pin_selected_effect,
    reset_selected_effect, select_next_effect, select_prev_effect, toggle_ignored_block_effect,
    yank_selected_effect,
};
use crate::session::{ChatSessionState, SessionView};
use crate::slices::Slices;
use crate::text_inputs::{
    arg_input_edit_effect, arg_input_leave_effect, arg_input_paste_effect, handle_arg_input_edit,
    handle_arg_input_leave, handle_arg_input_paste, handle_picker_paste, handle_rename_edit,
    handle_rename_paste, handle_rename_session_leave, picker_paste_effect, rename_edit_effect,
    rename_paste_effect, rename_session_leave_effect,
};

verus! {

/// Processes user intents: the single decision point for all user input.
pub struct IntentHandler;

/// How many times handling an intent can hand another intent back to the
/// handler: the clear key may redispatch once.
pub open spec fn intent_rank(i: Intent) -> nat {
    if i is CtrlClear {
        1
    } else {
        0
    }
}

/// Whether an intent edits the chat input box (typing, deletion, cursor
/// movement, paste, submit, mode toggle).
pub open spec fn spec_is_chat_input_editing(i: Intent) -> bool {
    ||| i is InsertChar
    ||| i is DeleteGrapheme
    ||| i is DeleteGraphemeForward
    ||| i is SubmitMessage
    ||| i is ToggleInputMode
    ||| i is MoveCursorLeft
    ||| i is MoveCursorRight
    ||| i is MoveCursorToStart
    ||| i is MoveCursorToEnd
    ||| i is PasteText
}

/// Returns `true` for intents that edit the chat input box; they are no-ops
/// while the active session's input box is disabled. Navigation and other
/// Normal-scope intents are not editing intents.
fn is_chat_input_editing(intent: &Intent) -> (r: bool)
    ensures
        r == spec_is_chat_input_editing(*intent),
{
    match intent {
        Intent::InsertChar { .. } | Intent::DeleteGrapheme | Intent::DeleteGraphemeForward
        | Intent::SubmitMessage | Intent::ToggleInputMode | Intent::MoveCursorLeft
        | Intent::MoveCursorRight | Intent::MoveCursorToStart | Intent::MoveCursorToEnd
        | Intent::PasteText { .. } => true,
        _ => false,
    }
}

/// The state with the previous intent's signals and status hint cleared.
pub open spec fn transients_cleared(s: AppState) -> AppState {
    AppState {
        frontend: FrontendState {
            tui_signals: TuiSignals { toggle_whichkey: false, yank_text: None },
            status_hint: None,
            ..s.frontend
        },
        ..s
    }
}

/// The state with the active session's ignore sweep cleared.
pub open spec fn sweep_cleared(s: AppState) -> AppState {
    AppState {
        session: SessionStore {
            active: ChatSessionState { ignore_sweep: None, ..s.session.active },
            ..s.session
        },
        ..s
    }
}

/// The state with the cancel-stream prompt dismissed.
pub open spec fn cancel_prompt_dismissed(s: AppState) -> AppState {
    AppState { frontend: FrontendState { cancel_stream_prompt: false, ..s.frontend }, ..s }
}

/// The state with the close-session prompt set to `shown`.
pub open spec fn close_prompt_set(s: AppState, shown: bool) -> AppState {
    AppState { frontend: FrontendState { close_session_prompt: shown, ..s.frontend }, ..s }
}

/// Whether two slice scope ids name the same scope.
pub open spec fn same_scope(a: SliceScopeId, b: SliceScopeId) -> bool {
    a.namespace@ == b.namespace@ && a.name@ == b.name@
}

/// Whether only the focus stack changed, to the given overlays.
pub open spec fn overlays_now(pre: AppState, post: AppState, overlays: Seq<FocusScope>) -> bool {
    &&& post.session == pre.session
    &&& post.frontend == (FrontendState { scope_stack: post.frontend.scope_stack, ..pre.frontend })
    &&& post.frontend.scope_stack.base == pre.frontend.scope_stack.base
    &&& post.frontend.scope_stack.overlays@ == overlays
}

/// The state after applying a route result's scope signal: `Push` pushes
/// the slice's scope; `PopIf` pops the top scope when it is that slice's
/// scope.
pub open spec fn scope_signal_applied(sig: Option<ScopeSignal>, pre: AppState, post: AppState) -> bool {
    let stack = pre.frontend.scope_stack;
    match sig {
        None => post == pre,
        Some(ScopeSignal::Push(id)) => overlays_now(pre, post, stack.overlays@.push(FocusScope::Dynamic(id))),
        Some(ScopeSignal::PopIf(id)) => if stack.spec_current() matches FocusScope::Dynamic(cur) && same_scope(cur, id) {
            overlays_now(pre, post, if stack.overlays@.len() > 0 {
                stack.overlays@.drop_last()
            } else {
                stack.overlays@
            })
        } else {
            post == pre
        },
    }
}

/// Applies a route result's scope signal to the focus stack, before the
/// result's messages publish; the signal is consumed.
fn apply_scope_signal(result: &mut IntentResult, state: &mut AppState)
    requires
        old(state).wf(),
    ensures
        final(state).wf(),
        final(result).messages == old(result).messages,
        final(result).message_names == old(result).message_names,
        final(result).scope_signal is None,
        scope_signal_applied(old(result).scope_signal, *old(state), *final(state)),
{
    match result.scope_signal.take() {
        Some(ScopeSignal::Push(id)) => state.frontend.scope_stack.push(FocusScope::Dynamic(id)),
        Some(ScopeSignal::PopIf(id)) => {
            let pop = match state.frontend.scope_stack.current() {
                FocusScope::Dynamic(cur) => cur.same(&id),
                _ => false,
            };
            if pop {
                state.frontend.scope_stack.pop();
            }
        },
        None => {},
    }
}

/// The first position of scope `id` among the tabs (meaningful when some
/// tab is that scope).
pub open spec fn tab_position(tabs: Seq<SliceScopeId>, id: SliceScopeId) -> int {
    choose|p: int| 0 <= p < tabs.len() && same_scope(tabs[p], id) && forall|q: int| 0 <= q < p ==> !same_scope(#[trigger] tabs[q], id)
}

/// The base scope after a tab switch: chat (Normal) is first in the cycle,
/// then each registered tab in order, then back to chat. With no tab
/// registered the switch lands on chat.
pub open spec fn spec_next_tab_base(base: FocusScope, tabs: Seq<SliceScopeId>) -> FocusScope {
    if tabs.len() == 0 {
        FocusScope::Normal
    } else {
        match base {
            FocusScope::Dynamic(id) => if exists|p: int| 0 <= p < tabs.len() && same_scope(#[trigger] tabs[p], id) {
                let p = tab_position(tabs, id);
                if p + 1 < tabs.len() {
                    FocusScope::Dynamic(tabs[p + 1])
                } else {
                    FocusScope::Normal
                }
            } else {
                FocusScope::Dynamic(tabs[0])
            },
            _ => FocusScope::Dynamic(tabs[0]),
        }
    }
}

/// The first position of scope `id` among `tabs`.
fn find_tab(tabs: &Vec<SliceScopeId>, id: &SliceScopeId) -> (r: Option<usize>)
    ensures
        match r {
            Some(p) => p < tabs@.len() && same_scope(tabs@[p as int], *id)
                && forall|q: int| 0 <= q < p ==> !same_scope(#[trigger] tabs@[q], *id),
            None => forall|q: int| 0 <= q < tabs@.len() ==> !same_scope(#[trigger] tabs@[q], *id),
        },
{
    let mut i: usize = 0;
    while i < tabs.len()
        invariant
            i <= tabs@.len(),
            forall|q: int| 0 <= q < i ==> !same_scope(#[trigger] tabs@[q], *id),
        decreases tabs.len() - i,
    {
        if tabs[i].same(id) {
            return Some(i);
        }
        i += 1;
    }
    None
}

/// The first position found by a scan is the one `tab_position` names.
proof fn lemma_tab_position(tabs: Seq<SliceScopeId>, id: SliceScopeId, p: int)
    requires
        0 <= p < tabs.len(),
        same_scope(tabs[p], id),
        forall|q: int| 0 <= q < p ==> !same_scope(#[trigger] tabs[q], id),
    ensures
        tab_position(tabs, id) == p,
{
    let c = tab_position(tabs, id);
    assert(c < p ==> !same_scope(tabs[c], id));
}

/// Resolves the base scope after a tab switch, walking the registered tab
/// scopes.
pub fn next_tab_base(state: &AppState, slices: &Slices) -> (r: FocusScope)
    ensures
        r == spec_next_tab_base(state.frontend.scope_stack.base, slices.tabs@),
{
    let tabs = slices.tab_scopes();
    if tabs.len() == 0 {
        return FocusScope::Normal;
    }
    let position = match state.frontend.scope_stack.base() {
        FocusScope::Dynamic(id) => {
            let found = find_tab(tabs, id);
            proof {
                if let Some(p) = found {
                    lemma_tab_position(tabs@, *id, p as int);
                }
            }
            found
        },
        _ => None,
    };
    match position {
        Some(i) => {
            if i + 1 < tabs.len() {
                FocusScope::Dynamic(tabs[i + 1].copy())
            } else {
                FocusScope::Normal
            }
        },
        None => FocusScope::Dynamic(tabs[0].copy()),
    }
}

/// Nothing changed and nothing was emitted.
pub open spec fn noop(s: AppState, post: AppState, r: IntentResult) -> bool {
    post == s && r.is_empty_result()
}

/// Confirming the cancel-stream prompt: the active session stops streaming
/// and its background operation is cancelled; `CancelStream` is emitted,
/// followed by `CancelLifecycleCommand` when the session was busy.
pub open spec fn cancel_confirm_effect(s: AppState, post: AppState, r: IntentResult) -> bool {
    let v = s.session.active@;
    let sid = v.session_id;
    &&& r.scope_signal is None
    &&& only_active_changed(s, post)
    &&& post.session.active@ == (SessionView { busy: false, streaming: false, ..v })
    &&& r.messages@ =~= if v.busy {
        seq![Message::CancelStream { session_id: sid }, Message::CancelLifecycleCommand { session_id: sid }]
    } else {
        seq![Message::CancelStream { session_id: sid }]
    }
}

/// Confirming the close-session prompt: re-validated in case the session
/// became busy between the two presses; an idle session is closed
/// (`CloseSession`), a busy one is left alone.
pub open spec fn close_confirm_effect(s: AppState, post: AppState, r: IntentResult) -> bool {
    &&& post == s
    &&& r.scope_signal is None
    &&& r.messages@ =~= if s.session.active.busy {
        Seq::<Message>::empty()
    } else {
        seq![Message::CloseSession { session_id: s.session.active.session_id }]
    }
}

/// The tab switch: with the terminal overlay open it closes the overlay;
/// while the user holds terminal control it is inert; otherwise the base
/// scope moves to the next tab and the overlays are dropped.
pub open spec fn switch_tab_effect(tabs: Seq<SliceScopeId>, s: AppState, post: AppState, r: IntentResult) -> bool {
    let stack = s.frontend.scope_stack;
    &&& r.is_empty_result()
    &&& match stack.spec_current() {
        FocusScope::TerminalView => overlays_now(s, post, if stack.overlays@.len() > 0 {
            stack.overlays@.drop_last()
        } else {
            stack.overlays@
        }),
        FocusScope::TerminalControl => post == s,
        _ => {
            &&& post.session == s.session
            &&& post.frontend == (FrontendState { scope_stack: post.frontend.scope_stack, ..s.frontend })
            &&& post.frontend.scope_stack.base == spec_next_tab_base(stack.base, tabs)
            &&& post.frontend.scope_stack.overlays@.len() == 0
        },
    }
}

/// The built-in arm for `intent` in state `s` (after the route table and
/// the prompts had their turn), for every intent but the clear key, which
/// redispatches (see [`arm_effect`]).
pub open spec fn arm_effect_base(intent: Intent, s: AppState, post: AppState, r: IntentResult, slices: Slices) -> bool
{
    let cur = s.frontend.scope_stack.spec_current();
    let in_arg = cur is ArgInput;
    let disabled = s.session.active.chat_input.disabled;
    if in_arg && intent is InsertChar {
        arg_input_edit_effect(LineEdit::InsertChar(intent->InsertChar_ch), s, post, r)
    } else if in_arg && intent is DeleteGrapheme {
        arg_input_edit_effect(LineEdit::DeleteBack, s, post, r)
    } else if in_arg && intent is MoveCursorLeft {
        arg_input_edit_effect(LineEdit::Left, s, post, r)
    } else if in_arg && intent is MoveCursorRight {
        arg_input_edit_effect(LineEdit::Right, s, post, r)
    } else if in_arg && intent is DeleteGraphemeForward {
        arg_input_edit_effect(LineEdit::DeleteForward, s, post, r)
    } else if in_arg && intent is EnterNormalMode {
        arg_input_leave_effect(s, post, r)
    } else if spec_is_chat_input_editing(intent) && disabled {
        noop(s, post, r)
    } else if spec_is_chat_input_editing(intent) {
        chat_input_arm_effect(intent, s, post, r)
    } else if is_chat_log_intent(intent) {
        chat_log_arm_effect(intent, s, post, r)
    } else {
        app_arm_effect(intent, s, post, r, slices)
    }
}

/// The arms of the chat input box's editing intents.
pub open spec fn chat_input_arm_effect(intent: Intent, s: AppState, post: AppState, r: IntentResult) -> bool {
    match intent {
        Intent::InsertChar { ch } => insert_char_effect(ch, s, post, r),
        Intent::DeleteGrapheme => delete_grapheme_effect(s, post, r),
        Intent::DeleteGraphemeForward => delete_grapheme_forward_effect(s, post, r),
        Intent::SubmitMessage => submit_message_effect(s, post, r),
        Intent::ToggleInputMode => toggle_input_mode_effect(s, post, r),
        Intent::MoveCursorLeft => move_cursor_left_effect(s, post, r),
        Intent::MoveCursorRight => move_cursor_right_effect(s, post, r),
        Intent::MoveCursorToStart => move_cursor_to_start_effect(s, post, r),
        Intent::MoveCursorToEnd => move_cursor_to_end_effect(s, post, r),
        Intent::PasteText { text } => match s.frontend.scope_stack.spec_current() {
            FocusScope::Input => paste_text_effect(text@, s, post, r),
            FocusScope::Picker { .. } => picker_paste_effect(text@, s, post, r),
            FocusScope::ArgInput => arg_input_paste_effect(text@, s, post, r),
            FocusScope::RenameSessionInput => rename_paste_effect(text@, s, post, r),
            _ => noop(s, post, r),
        },
        _ => false,
    }
}

/// Whether an intent acts on the active session's chat log.
pub open spec fn is_chat_log_intent(i: Intent) -> bool {
    ||| i is ScrollUp
    ||| i is ScrollDown
    ||| i is ChatEntrySelectNext
    ||| i is ChatEntrySelectPrev
    ||| i is ChatEntryJumpNextCompaction
    ||| i is ChatEntryJumpPrevCompaction
    ||| i is ChatEntryJumpNextUserEntry
    ||| i is ChatEntryJumpPrevUserEntry
    ||| i is ChatEntryJumpNextPinned
    ||| i is ChatEntryJumpPrevPinned
    ||| i is ChatEntryPinSelected
    ||| i is ExpandToolEntry
    ||| i is ToggleIgnoredBlockVisibility
    ||| i is ForkFromEntry
    ||| i is NewSessionFromEntry
    ||| i is YankSelectedEntry
    ||| i is ChatEntryIgnoreSelected
    ||| i is ChatEntryResetSelected
}

/// The arms of the chat log's intents.
pub open spec fn chat_log_arm_effect(intent: Intent, s: AppState, post: AppState, r: IntentResult) -> bool {
    match intent {
        Intent::ScrollUp => scroll_up_effect(s, post, r),
        Intent::ScrollDown => scroll_down_effect(s, post, r),
        Intent::ChatEntrySelectNext => select_next_effect(s, post, r),
        Intent::ChatEntrySelectPrev => select_prev_effect(s, post, r),
        Intent::ChatEntryJumpNextCompaction => jump_next_entry_effect(EntryPredicate::Compaction, s, post, r),
        Intent::ChatEntryJumpPrevCompaction => jump_prev_entry_effect(EntryPredicate::Compaction, s, post, r),
        Intent::ChatEntryJumpNextUserEntry => jump_next_entry_effect(EntryPredicate::UserEntry, s, post, r),
        Intent::ChatEntryJumpPrevUserEntry => jump_prev_entry_effect(EntryPredicate::UserEntry, s, post, r),
        Intent::ChatEntryJumpNextPinned => jump_next_entry_effect(EntryPredicate::Pinned, s, post, r),
        Intent::ChatEntryJumpPrevPinned => jump_prev_entry_effect(EntryPredicate::Pinned, s, post, r),
        Intent::ChatEntryPinSelected => pin_selected_effect(s, post, r),
        Intent::ExpandToolEntry => expand_tool_entry_effect(s, post, r),
        Intent::ToggleIgnoredBlockVisibility => toggle_ignored_block_effect(s, post, r),
        Intent::ForkFromEntry => fork_from_entry_effect(s, post, r),
        Intent::NewSessionFromEntry => new_session_from_entry_effect(s, post, r),
        Intent::YankSelectedEntry => yank_selected_effect(s, post, r),
        Intent::ChatEntryIgnoreSelected => ignore_selected_effect(s, post, r),
        Intent::ChatEntryResetSelected => reset_selected_effect(s, post, r),
        _ => false,
    }
}

/// The arms of the application-wide intents, the rename input's and the
/// tab switch.
pub open spec fn app_arm_effect(intent: Intent, s: AppState, post: AppState, r: IntentResult, slices: Slices) -> bool {
    match intent {
        Intent::Quit => quit_effect(s, post, r),
        Intent::Interrupt { session_id } => interrupt_effect(session_id, s, post, r),
        Intent::EnterInsertMode => enter_insert_mode_effect(s, post, r),
        Intent::EnterNormalMode => enter_normal_mode_effect(s, post, r),
        Intent::ToggleWhichkey => toggle_whichkey_effect(s, post, r),
        Intent::ToggleAuditPopup => toggle_audit_popup_effect(s, post, r),
        Intent::NormalEscape => normal_escape_effect(s, post, r),
        Intent::NoOp => noop(s, post, r),
        Intent::SidebarSessionClose => post == close_prompt_set(s, true) && r.is_empty_result(),
        Intent::SidebarSessionArchiveTree => noop(s, post, r),
        Intent::SidebarSessionTeardownTree => noop(s, post, r),
        Intent::RenameSessionLeave => rename_session_leave_effect(s, post, r),
        Intent::RenameInsertChar { ch } => rename_edit_effect(LineEdit::InsertChar(ch), s, post, r),
        Intent::RenameCursorLeft => rename_edit_effect(LineEdit::Left, s, post, r),
        Intent::RenameCursorRight => rename_edit_effect(LineEdit::Right, s, post, r),
        Intent::RenameDeleteGrapheme => rename_edit_effect(LineEdit::DeleteBack, s, post, r),
        Intent::RenameDeleteForward => rename_edit_effect(LineEdit::DeleteForward, s, post, r),
        Intent::SwitchTab => switch_tab_effect(slices.tabs@, s, post, r),
        Intent::Dynamic(_) => noop(s, post, r),
        _ => false,
    }
}

/// The clear key: it clears the focused input, or hands back an intent
/// whose handling (from the state it left) is merged after its own result.
pub open spec fn ctrl_clear_arm_effect(s: AppState, post: AppState, r: IntentResult, slices: Slices, rows: Seq<RouteRowView>) -> bool {
    exists|mid: AppState, r0: (IntentResult, Option<Intent>)| {
        &&& #[trigger] ctrl_clear_effect(s, mid, r0)
        &&& r0.0.wf()
        &&& match r0.1 {
            None => post == mid && r.messages@ =~= r0.0.messages@ && r.scope_signal == r0.0.scope_signal,
            Some(next) => !(next is CtrlClear) && exists|r1: IntentResult| {
                &&& #[trigger] handle_effect_base(next, mid, post, r1, slices, rows)
                &&& r.messages@ =~= r0.0.messages@ + r1.messages@
                &&& r.scope_signal == if r1.scope_signal is Some {
                    r1.scope_signal
                } else {
                    r0.0.scope_signal
                }
            },
        }
    }
}

/// The built-in arm for `intent` in state `s` (after the route table and
/// the prompts had their turn).
pub open spec fn arm_effect(intent: Intent, s: AppState, post: AppState, r: IntentResult, slices: Slices, rows: Seq<RouteRowView>) -> bool {
    if intent is CtrlClear {
        ctrl_clear_arm_effect(s, post, r, slices, rows)
    } else {
        arm_effect_base(intent, s, post, r, slices)
    }
}

/// Where the handler's processing of an intent lands, once the transient
/// signals are cleared.
pub enum Stage {
    /// A route row serves the intent with this action.
    Routed(RouteAction),
    /// The cancel-stream prompt is confirmed, from this state.
    CancelConfirm(AppState),
    /// The close-session prompt is confirmed, from this state.
    CloseConfirm(AppState),
    /// The built-in arm runs, from this state.
    Arm(AppState),
}

/// The stage for `intent` in state `s`: a route row serving it wins;
/// otherwise the ignore sweep is cleared (unless the intent continues it)
/// and the prompts are dismissed, or confirmed by their own key.
pub open spec fn stage(intent: Intent, s: AppState, rows: Seq<RouteRowView>) -> Stage {
    match spec_intent_route(rows, intent) {
        Some(a) => Stage::Routed(a),
        None => {
            let s3 = if intent is ChatEntryIgnoreSelected {
                s
            } else {
                sweep_cleared(s)
            };
            if s3.frontend.cancel_stream_prompt && intent is NormalEscape {
                Stage::CancelConfirm(cancel_prompt_dismissed(s3))
            } else {
                let s4 = if s3.frontend.cancel_stream_prompt {
                    cancel_prompt_dismissed(s3)
                } else {
                    s3
                };
                if s4.frontend.close_session_prompt && intent is SidebarSessionClose {
                    Stage::CloseConfirm(close_prompt_set(s4, false))
                } else if s4.frontend.close_session_prompt {
                    Stage::Arm(archive_prompt_settled(intent, close_prompt_set(s4, false)))
                } else {
                    Stage::Arm(archive_prompt_settled(intent, s4))
                }
            }
        },
    }
}

/// A route row's action ran: nothing changed but its message.
pub open spec fn routed_effect(a: RouteAction, s: AppState, post: AppState, r: IntentResult) -> bool {
    &&& post == s
    &&& r.messages@ =~= seq![spec_action_message(a)]
    &&& r.scope_signal is None
}

/// What the handler does with `intent` once the transient signals are
/// cleared, for every intent but the clear key.
pub open spec fn inner_effect_base(intent: Intent, s: AppState, post: AppState, r: IntentResult, slices: Slices, rows: Seq<RouteRowView>) -> bool {
    match stage(intent, s, rows) {
        Stage::Routed(a) => routed_effect(a, s, post, r),
        Stage::CancelConfirm(x) => cancel_confirm_effect(x, post, r),
        Stage::CloseConfirm(x) => close_confirm_effect(x, post, r),
        Stage::Arm(x) => arm_effect_base(intent, x, post, r, slices),
    }
}

/// What the handler does with `intent` once the transient signals are
/// cleared.
pub open spec fn inner_effect(intent: Intent, s: AppState, post: AppState, r: IntentResult, slices: Slices, rows: Seq<RouteRowView>) -> bool {
    match stage(intent, s, rows) {
        Stage::Routed(a) => routed_effect(a, s, post, r),
        Stage::CancelConfirm(x) => cancel_confirm_effect(x, post, r),
        Stage::CloseConfirm(x) => close_confirm_effect(x, post, r),
        Stage::Arm(x) => arm_effect(intent, x, post, r, slices, rows),
    }
}

/// The handler's result from the processing result `r0`: when the active
/// session changed, `ActiveSessionChanged` for the new one is appended.
pub open spec fn announced(r0: IntentResult, s1: AppState, post: AppState, r: IntentResult) -> bool {
    &&& r.scope_signal == r0.scope_signal
    &&& r.messages@ =~= if post.session.active.session_id != s1.session.active.session_id {
        r0.messages@.push(Message::ActiveSessionChanged { session_id: post.session.active.session_id })
    } else {
        r0.messages@
    }
}

/// What handling `intent` does, for every intent but the clear key.
pub open spec fn handle_effect_base(intent: Intent, pre: AppState, post: AppState, r: IntentResult, slices: Slices, rows: Seq<RouteRowView>) -> bool {
    let s1 = transients_cleared(pre);
    exists|r0: IntentResult| #[trigger] inner_effect_base(intent, s1, post, r0, slices, rows) && announced(r0, s1, post, r)
}

/// What handling `intent` does, from the state `pre` before it: the
/// transient signals are cleared, the intent is processed, and when the
/// active session changed an `ActiveSessionChanged` message for the new one
/// is appended.
pub open spec fn handle_effect(intent: Intent, pre: AppState, post: AppState, r: IntentResult, slices: Slices, rows: Seq<RouteRowView>) -> bool {
    let s1 = transients_cleared(pre);
    exists|r0: IntentResult| #[trigger] inner_effect(intent, s1, post, r0, slices, rows) && announced(r0, s1, post, r)
}

/// For every intent but the clear key, handling is as the base arms say.
proof fn lemma_handle_base(intent: Intent, pre: AppState, post: AppState, r: IntentResult, slices: Slices, rows: Seq<RouteRowView>)
    requires
        !(intent is CtrlClear),
        handle_effect(intent, pre, post, r, slices, rows),
    ensures
        handle_effect_base(intent, pre, post, r, slices, rows),
{
    let s1 = transients_cleared(pre);
    let r0 = choose|r0: IntentResult| #[trigger] inner_effect(intent, s1, post, r0, slices, rows) && announced(r0, s1, post, r);
    assert(inner_effect_base(intent, s1, post, r0, slices, rows));
}

/// The cancel-stream prompt intercept. While the prompt shows, any intent
/// dismisses it; `NormalEscape` confirms the cancel and is consumed, any
/// other intent falls through to normal processing (`None`).
pub fn try_handle_cancel_stream_prompt(intent: &Intent, state: &mut AppState) -> (r: Option<IntentResult>)
    requires
        old(state).wf(),
    ensures
        final(state).wf(),
        if old(state).frontend.cancel_stream_prompt {
            if *intent is NormalEscape {
                r matches Some(res) && res.wf() && cancel_confirm_effect(cancel_prompt_dismissed(*old(state)), *final(state), res)
            } else {
                r is None && *final(state) == cancel_prompt_dismissed(*old(state))
            }
        } else {
            r is None && *final(state) == *old(state)
        },
{
    if !state.frontend.cancel_stream_prompt {
        return None;
    }
    state.frontend.cancel_stream_prompt = false;
    match intent {
        Intent::NormalEscape => {},
        _ => return None,
    }
    let session_id = state.session.active_session_id();
    let was_busy = state.active_session().is_busy();
    if was_busy {
        state.session.active.cancel_busy();
    }
    state.session.active.cancel_stream_and_drain();
    let mut result = IntentResult::empty().with_message(Message::CancelStream { session_id });
    if was_busy {
        result = result.with_message(Message::CancelLifecycleCommand { session_id });
    }
    Some(result)
}

/// Closes the active session on the second press of the close key,
/// re-validated in case the session became busy between the presses.
fn close_session_with_lifecycle(state: &AppState) -> (r: IntentResult)
    ensures
        r.wf(),
        close_confirm_effect(*state, *state, r),
{
    if state.session.active.is_busy() {
        return IntentResult::empty();
    }
    IntentResult::new_message(Message::CloseSession { session_id: state.session.active_session_id() })
}

/// The close-session prompt intercept. While the prompt shows, any intent
/// dismisses it; `SidebarSessionClose` confirms the close and is consumed,
/// any other intent falls through to normal processing (`None`).
pub fn try_handle_close_session_prompt(intent: &Intent, state: &mut AppState) -> (r: Option<IntentResult>)
    requires
        old(state).wf(),
    ensures
        final(state).wf(),
        if old(state).frontend.close_session_prompt {
            &&& *final(state) == close_prompt_set(*old(state), false)
            &&& if *intent is SidebarSessionClose {
                r matches Some(res) && res.wf() && close_confirm_effect(*final(state), *final(state), res)
            } else {
                r is None
            }
        } else {
            r is None && *final(state) == *old(state)
        },
{
    if !state.frontend.close_session_prompt {
        return None;
    }
    state.frontend.close_session_prompt = false;
    match intent {
        Intent::SidebarSessionClose => Some(close_session_with_lifecycle(state)),
        _ => None,
    }
}

/// An intent that a route row serves runs that row's action and nothing
/// else: the state only loses its transient signals, and the result is the
/// action's message alone.
pub proof fn lemma_routed_intent_runs_action(intent: Intent, pre: AppState, post: AppState, r: IntentResult, slices: Slices, rows: Seq<RouteRowView>, a: RouteAction)
    requires
        handle_effect(intent, pre, post, r, slices, rows),
        spec_intent_route(rows, intent) == Some(a),
    ensures
        post == transients_cleared(pre),
        r.messages@ == seq![spec_action_message(a)],
        r.scope_signal is None,
{
    let s1 = transients_cleared(pre);
    let r0 = choose|r0: IntentResult| #[trigger] inner_effect(intent, s1, post, r0, slices, rows) && announced(r0, s1, post, r);
}

/// A dynamic intent that no route row serves is inert: the prompts are
/// dismissed and the ignore sweep cleared as for any other intent, and
/// nothing else changes or is emitted.
pub proof fn lemma_unrouted_dynamic_intent_is_inert(intent: Intent, pre: AppState, post: AppState, r: IntentResult, slices: Slices, rows: Seq<RouteRowView>)
    requires
        handle_effect(intent, pre, post, r, slices, rows),
        intent is Dynamic,
        spec_intent_route(rows, intent) is None,
    ensures
        stage(intent, transients_cleared(pre), rows) == Stage::Arm(post),
        r.messages@.len() == 0,
        r.scope_signal is None,
{
    let s1 = transients_cleared(pre);
    let r0 = choose|r0: IntentResult| #[trigger] inner_effect(intent, s1, post, r0, slices, rows) && announced(r0, s1, post, r);
}

/// When the active session changed, the handler's last message announces
/// the new active session.
pub proof fn lemma_active_session_change_announced(intent: Intent, pre: AppState, post: AppState, r: IntentResult, slices: Slices, rows: Seq<RouteRowView>)
    requires
        handle_effect(intent, pre, post, r, slices, rows),
        post.session.active.session_id != pre.session.active.session_id,
    ensures
        r.messages@.len() > 0,
        r.messages@.last() == (Message::ActiveSessionChanged { session_id: post.session.active.session_id }),
{
    let s1 = transients_cleared(pre);
    let r0 = choose|r0: IntentResult| #[trigger] inner_effect(intent, s1, post, r0, slices, rows) && announced(r0, s1, post, r);
}

/// No message of `m` announces a session change.
pub open spec fn unannounced(m: Seq<Message>) -> bool {
    forall|i: int| 0 <= i < m.len() ==> !(#[trigger] m[i] is ActiveSessionChanged)
}

/// The chat input box's arms announce no session change.
proof fn lemma_chat_input_arm_unannounced(intent: Intent, s: AppState, post: AppState, r: IntentResult)
    requires
        chat_input_arm_effect(intent, s, post, r),
    ensures
        unannounced(r.messages@),
{
}

/// The chat log's arms announce no session change.
proof fn lemma_chat_log_arm_unannounced(intent: Intent, s: AppState, post: AppState, r: IntentResult)
    requires
        chat_log_arm_effect(intent, s, post, r),
    ensures
        unannounced(r.messages@),
{
    match intent {
        Intent::ScrollUp => assert(scroll_up_effect(s, post, r)),
        Intent::ScrollDown => assert(scroll_down_effect(s, post, r)),
        Intent::ChatEntrySelectNext => assert(select_next_effect(s, post, r)),
        Intent::ChatEntrySelectPrev => assert(select_prev_effect(s, post, r)),
        Intent::ChatEntryJumpNextCompaction => assert(jump_next_entry_effect(EntryPredicate::Compaction, s, post, r)),
        Intent::ChatEntryJumpPrevCompaction => assert(jump_prev_entry_effect(EntryPredicate::Compaction, s, post, r)),
        Intent::ChatEntryJumpNextUserEntry => assert(jump_next_entry_effect(EntryPredicate::UserEntry, s, post, r)),
        Intent::ChatEntryJumpPrevUserEntry => assert(jump_prev_entry_effect(EntryPredicate::UserEntry, s, post, r)),
        Intent::ChatEntryJumpNextPinned => assert(jump_next_entry_effect(EntryPredicate::Pinned, s, post, r)),
        Intent::ChatEntryJumpPrevPinned => assert(jump_prev_entry_effect(EntryPredicate::Pinned, s, post, r)),
        Intent::ChatEntryPinSelected => assert(pin_selected_effect(s, post, r)),
        Intent::ExpandToolEntry => assert(expand_tool_entry_effect(s, post, r)),
        Intent::ToggleIgnoredBlockVisibility => assert(toggle_ignored_block_effect(s, post, r)),
        Intent::ForkFromEntry => assert(fork_from_entry_effect(s, post, r)),
        Intent::NewSessionFromEntry => assert(new_session_from_entry_effect(s, post, r)),
        Intent::YankSelectedEntry => assert(yank_selected_effect(s, post, r)),
        Intent::ChatEntryIgnoreSelected => assert(ignore_selected_effect(s, post, r)),
        Intent::ChatEntryResetSelected => assert(reset_selected_effect(s, post, r)),
        _ => {},
    }
}

/// The application-wide arms announce no session change.
proof fn lemma_app_arm_unannounced(intent: Intent, s: AppState, post: AppState, r: IntentResult, slices: Slices)
    requires
        app_arm_effect(intent, s, post, r, slices),
    ensures
        unannounced(r.messages@),
{
}

/// The built-in arms but the clear key's announce no session change.
proof fn lemma_arm_base_unannounced(intent: Intent, s: AppState, post: AppState, r: IntentResult, slices: Slices)
    requires
        arm_effect_base(intent, s, post, r, slices),
    ensures
        unannounced(r.messages@),
{
    let cur = s.frontend.scope_stack.spec_current();
    let in_arg = cur is ArgInput;
    let disabled = s.session.active.chat_input.disabled;
    if in_arg && (intent is InsertChar || intent is DeleteGrapheme || intent is MoveCursorLeft
        || intent is MoveCursorRight || intent is DeleteGraphemeForward || intent is EnterNormalMode) {
    } else if spec_is_chat_input_editing(intent) && disabled {
    } else if spec_is_chat_input_editing(intent) {
        lemma_chat_input_arm_unannounced(intent, s, post, r);
    } else if is_chat_log_intent(intent) {
        lemma_chat_log_arm_unannounced(intent, s, post, r);
    } else {
        lemma_app_arm_unannounced(intent, s, post, r, slices);
    }
}

/// Handling an intent but the clear key that leaves the active session in
/// place announces no session change.
proof fn lemma_handle_base_unannounced(intent: Intent, pre: AppState, post: AppState, r: IntentResult, slices: Slices, rows: Seq<RouteRowView>)
    requires
        handle_effect_base(intent, pre, post, r, slices, rows),
        post.session.active.session_id == pre.session.active.session_id,
    ensures
        unannounced(r.messages@),
{
    let s1 = transients_cleared(pre);
    let r0 = choose|r0: IntentResult| #[trigger] inner_effect_base(intent, s1, post, r0, slices, rows) && announced(r0, s1, post, r);
    match stage(intent, s1, rows) {
        Stage::Arm(x) => lemma_arm_base_unannounced(intent, x, post, r0, slices),
        _ => {},
    }
    assert(r.messages@ =~= r0.messages@);
}

/// Only a change of the active session is announced: when handling an
/// intent leaves the active session in place, no message of the result is
/// an `ActiveSessionChanged`.
pub proof fn lemma_unchanged_session_unannounced(intent: Intent, pre: AppState, post: AppState, r: IntentResult, slices: Slices, rows: Seq<RouteRowView>)
    requires
        handle_effect(intent, pre, post, r, slices, rows),
        post.session.active.session_id == pre.session.active.session_id,
    ensures
        forall|i: int| 0 <= i < r.messages@.len() ==> !(#[trigger] r.messages@[i] is ActiveSessionChanged),
{
    let s1 = transients_cleared(pre);
    let r0 = choose|r0: IntentResult| #[trigger] inner_effect(intent, s1, post, r0, slices, rows) && announced(r0, s1, post, r);
    assert(r.messages@ =~= r0.messages@);
    if let Stage::Arm(x) = stage(intent, s1, rows) {
        if intent is CtrlClear {
            let (mid, c) = choose|mid: AppState, c: (IntentResult, Option<Intent>)| {
                &&& #[trigger] ctrl_clear_effect(x, mid, c)
                &&& c.0.wf()
                &&& match c.1 {
                    None => post == mid && r0.messages@ =~= c.0.messages@ && r0.scope_signal == c.0.scope_signal,
                    Some(next) => !(next is CtrlClear) && exists|r1: IntentResult| {
                        &&& #[trigger] handle_effect_base(next, mid, post, r1, slices, rows)
                        &&& r0.messages@ =~= c.0.messages@ + r1.messages@
                        &&& r0.scope_signal == if r1.scope_signal is Some {
                            r1.scope_signal
                        } else {
                            c.0.scope_signal
                        }
                    },
                }
            };
            if let Some(next) = c.1 {
                let r1 = choose|r1: IntentResult| {
                    &&& #[trigger] handle_effect_base(next, mid, post, r1, slices, rows)
                    &&& r0.messages@ =~= c.0.messages@ + r1.messages@
                    &&& r0.scope_signal == if r1.scope_signal is Some {
                        r1.scope_signal
                    } else {
                        c.0.scope_signal
                    }
                };
                assert(mid.session.active.session_id == x.session.active.session_id);
                lemma_handle_base_unannounced(next, mid, post, r1, slices, rows);
                assert(unannounced(r0.messages@));
            }
        } else {
            lemma_arm_base_unannounced(intent, x, post, r0, slices);
        }
    }
}

/// The built-in arms leave the confirmation prompts alone, but for the
/// intents that raise them, and never raise a status hint.
proof fn lemma_arm_base_keeps_prompts(intent: Intent, s: AppState, post: AppState, r: IntentResult, slices: Slices)
    requires
        arm_effect_base(intent, s, post, r, slices),
    ensures
        !(intent is NormalEscape) ==> post.frontend.cancel_stream_prompt == s.frontend.cancel_stream_prompt,
        !(intent is SidebarSessionClose) ==> post.frontend.close_session_prompt == s.frontend.close_session_prompt,
        post.frontend.status_hint == s.frontend.status_hint,
        post.frontend.archive_tree_prompt == s.frontend.archive_tree_prompt,
{
    if spec_is_chat_input_editing(intent) && !s.session.active.chat_input.disabled
        && !(s.frontend.scope_stack.spec_current() is ArgInput) {
        assert(chat_input_arm_effect(intent, s, post, r));
    } else if is_chat_log_intent(intent) {
        assert(chat_log_arm_effect(intent, s, post, r));
    }
}

/// Handling an intent that raises neither prompt, with neither shown,
/// leaves both hidden (for every intent but the clear key).
proof fn lemma_handle_base_keeps_prompts_hidden(intent: Intent, pre: AppState, post: AppState, r: IntentResult, slices: Slices, rows: Seq<RouteRowView>)
    requires
        handle_effect_base(intent, pre, post, r, slices, rows),
        !(intent is NormalEscape),
        !(intent is SidebarSessionClose),
        !pre.frontend.cancel_stream_prompt,
        !pre.frontend.close_session_prompt,
    ensures
        !post.frontend.cancel_stream_prompt,
        !post.frontend.close_session_prompt,
{
    let s1 = transients_cleared(pre);
    let r0 = choose|r0: IntentResult| #[trigger] inner_effect_base(intent, s1, post, r0, slices, rows) && announced(r0, s1, post, r);
    if let Stage::Arm(x) = stage(intent, s1, rows) {
        lemma_arm_base_keeps_prompts(intent, x, post, r0, slices);
    }
}

/// The built-in arm (the clear key's redispatch included) leaves hidden
/// prompts hidden, for an intent that raises neither.
proof fn lemma_arm_keeps_prompts_hidden(intent: Intent, s: AppState, post: AppState, r: IntentResult, slices: Slices, rows: Seq<RouteRowView>)
    requires
        arm_effect(intent, s, post, r, slices, rows),
        !(intent is NormalEscape),
        !(intent is SidebarSessionClose),
        !s.frontend.cancel_stream_prompt,
        !s.frontend.close_session_prompt,
    ensures
        !post.frontend.cancel_stream_prompt,
        !post.frontend.close_session_prompt,
{
    if intent is CtrlClear {
        let (mid, r0) = choose|mid: AppState, r0: (IntentResult, Option<Intent>)| {
            &&& #[trigger] ctrl_clear_effect(s, mid, r0)
            &&& r0.0.wf()
            &&& match r0.1 {
                None => post == mid && r.messages@ =~= r0.0.messages@ && r.scope_signal == r0.0.scope_signal,
                Some(next) => !(next is CtrlClear) && exists|r1: IntentResult| {
                    &&& #[trigger] handle_effect_base(next, mid, post, r1, slices, rows)
                    &&& r.messages@ =~= r0.0.messages@ + r1.messages@
                    &&& r.scope_signal == if r1.scope_signal is Some {
                        r1.scope_signal
                    } else {
                        r0.0.scope_signal
                    }
                },
            }
        };
        if let Some(next) = r0.1 {
            let r1 = choose|r1: IntentResult| {
                &&& #[trigger] handle_effect_base(next, mid, post, r1, slices, rows)
                &&& r.messages@ =~= r0.0.messages@ + r1.messages@
                &&& r.scope_signal == if r1.scope_signal is Some {
                    r1.scope_signal
                } else {
                    r0.0.scope_signal
                }
            };
            lemma_handle_base_keeps_prompts_hidden(next, mid, post, r1, slices, rows);
        }
    } else {
        lemma_arm_base_keeps_prompts(intent, s, post, r, slices);
    }
}

/// Handling an intent but the clear key never raises the tree prompt.
proof fn lemma_handle_base_keeps_tree_prompt_hidden(intent: Intent, pre: AppState, post: AppState, r: IntentResult, slices: Slices, rows: Seq<RouteRowView>)
    requires
        handle_effect_base(intent, pre, post, r, slices, rows),
        pre.frontend.archive_tree_prompt is None,
    ensures
        post.frontend.archive_tree_prompt is None,
{
    let s1 = transients_cleared(pre);
    let r0 = choose|r0: IntentResult| #[trigger] inner_effect_base(intent, s1, post, r0, slices, rows) && announced(r0, s1, post, r);
    if let Stage::Arm(x) = stage(intent, s1, rows) {
        lemma_arm_base_keeps_prompts(intent, x, post, r0, slices);
    }
}

/// The built-in arm (the clear key's redispatch included) never raises the
/// tree prompt.
proof fn lemma_arm_keeps_tree_prompt_hidden(intent: Intent, s: AppState, post: AppState, r: IntentResult, slices: Slices, rows: Seq<RouteRowView>)
    requires
        arm_effect(intent, s, post, r, slices, rows),
        s.frontend.archive_tree_prompt is None,
    ensures
        post.frontend.archive_tree_prompt is None,
{
    if intent is CtrlClear {
        let (mid, r0) = choose|mid: AppState, r0: (IntentResult, Option<Intent>)| {
            &&& #[trigger] ctrl_clear_effect(s, mid, r0)
            &&& r0.0.wf()
            &&& match r0.1 {
                None => post == mid && r.messages@ =~= r0.0.messages@ && r.scope_signal == r0.0.scope_signal,
                Some(next) => !(next is CtrlClear) && exists|r1: IntentResult| {
                    &&& #[trigger] handle_effect_base(next, mid, post, r1, slices, rows)
                    &&& r.messages@ =~= r0.0.messages@ + r1.messages@
                    &&& r.scope_signal == if r1.scope_signal is Some {
                        r1.scope_signal
                    } else {
                        r0.0.scope_signal
                    }
                },
            }
        };
        assert(mid.frontend.archive_tree_prompt is None);
        if let Some(next) = r0.1 {
            let r1 = choose|r1: IntentResult| {
                &&& #[trigger] handle_effect_base(next, mid, post, r1, slices, rows)
                &&& r.messages@ =~= r0.0.messages@ + r1.messages@
                &&& r.scope_signal == if r1.scope_signal is Some {
                    r1.scope_signal
                } else {
                    r0.0.scope_signal
                }
            };
            lemma_handle_base_keeps_tree_prompt_hidden(next, mid, post, r1, slices, rows);
        }
    } else {
        lemma_arm_base_keeps_prompts(intent, s, post, r, slices);
    }
}

/// The sidebar's tree prompt is gone after any intent that no route row
/// serves and that is not the prompt's own key (either tree key over the
/// busy notice), unless the intent confirmed another prompt first; and no
/// intent raises it.
pub proof fn lemma_tree_prompt_dismissed(intent: Intent, pre: AppState, post: AppState, r: IntentResult, slices: Slices, rows: Seq<RouteRowView>)
    requires
        handle_effect(intent, pre, post, r, slices, rows),
        spec_intent_route(rows, intent) is None,
        !(pre.frontend.cancel_stream_prompt && intent is NormalEscape),
        !(pre.frontend.close_session_prompt && intent is SidebarSessionClose),
        match pre.frontend.archive_tree_prompt {
            Some(ArchiveTreePrompt::Confirm { action }) => spec_pressed(intent) != Some(action),
            Some(ArchiveTreePrompt::Busy) => spec_pressed(intent) is None,
            None => true,
        },
    ensures
        post.frontend.archive_tree_prompt is None,
{
    let s1 = transients_cleared(pre);
    let r0 = choose|r0: IntentResult| #[trigger] inner_effect(intent, s1, post, r0, slices, rows) && announced(r0, s1, post, r);
    if let Stage::Arm(x) = stage(intent, s1, rows) {
        lemma_arm_keeps_tree_prompt_hidden(intent, x, post, r0, slices, rows);
    }
}

/// A shown cancel-stream prompt is gone after any intent that no route row
/// serves: `NormalEscape` confirms it, anything else dismisses it.
pub proof fn lemma_cancel_prompt_dismissed(intent: Intent, pre: AppState, post: AppState, r: IntentResult, slices: Slices, rows: Seq<RouteRowView>)
    requires
        handle_effect(intent, pre, post, r, slices, rows),
        pre.frontend.cancel_stream_prompt,
        spec_intent_route(rows, intent) is None,
    ensures
        !post.frontend.cancel_stream_prompt,
{
    let s1 = transients_cleared(pre);
    let r0 = choose|r0: IntentResult| #[trigger] inner_effect(intent, s1, post, r0, slices, rows) && announced(r0, s1, post, r);
    if let Stage::Arm(x) = stage(intent, s1, rows) {
        if intent is SidebarSessionClose {
            assert(post == close_prompt_set(x, true));
        } else {
            lemma_arm_keeps_prompts_hidden(intent, x, post, r0, slices, rows);
        }
    }
}

/// A shown close-session prompt is gone after any intent that no route row
/// serves (`SidebarSessionClose` confirms it, anything else dismisses it),
/// unless the same intent confirmed a cancel-stream prompt first.
pub proof fn lemma_close_prompt_dismissed(intent: Intent, pre: AppState, post: AppState, r: IntentResult, slices: Slices, rows: Seq<RouteRowView>)
    requires
        handle_effect(intent, pre, post, r, slices, rows),
        pre.frontend.close_session_prompt,
        spec_intent_route(rows, intent) is None,
        !(pre.frontend.cancel_stream_prompt && intent is NormalEscape),
    ensures
        !post.frontend.close_session_prompt,
{
    let s1 = transients_cleared(pre);
    let r0 = choose|r0: IntentResult| #[trigger] inner_effect(intent, s1, post, r0, slices, rows) && announced(r0, s1, post, r);
    if let Stage::Arm(x) = stage(intent, s1, rows) {
        if intent is NormalEscape {
            assert(normal_escape_effect(x, post, r0));
        } else {
            lemma_arm_keeps_prompts_hidden(intent, x, post, r0, slices, rows);
        }
    }
}

/// While the active session's input box is disabled, an editing intent
/// (outside the argument input, and served by no route row) changes
/// nothing in the sessions and emits nothing.
pub proof fn lemma_disabled_input_rejects_edits(intent: Intent, pre: AppState, post: AppState, r: IntentResult, slices: Slices, rows: Seq<RouteRowView>)
    requires
        handle_effect(intent, pre, post, r, slices, rows),
        spec_is_chat_input_editing(intent),
        pre.session.active.chat_input.disabled,
        !(pre.frontend.scope_stack.spec_current() is ArgInput),
        spec_intent_route(rows, intent) is None,
    ensures
        post.session == sweep_cleared(pre).session,
        r.messages@.len() == 0,
{
    let s1 = transients_cleared(pre);
    let r0 = choose|r0: IntentResult| #[trigger] inner_effect(intent, s1, post, r0, slices, rows) && announced(r0, s1, post, r);
}

/// Handling an intent (the clear key's redispatch included) never leaves a
/// status hint: the previous one is dismissed and no arm raises one.
pub proof fn lemma_status_hint_dismissed(intent: Intent, pre: AppState, post: AppState, r: IntentResult, slices: Slices, rows: Seq<RouteRowView>)
    requires
        handle_effect(intent, pre, post, r, slices, rows),
    ensures
        post.frontend.status_hint is None,
{
    let s1 = transients_cleared(pre);
    let r0 = choose|r0: IntentResult| #[trigger] inner_effect(intent, s1, post, r0, slices, rows) && announced(r0, s1, post, r);
    if let Stage::Arm(x) = stage(intent, s1, rows) {
        if intent is CtrlClear {
            let (mid, c) = choose|mid: AppState, c: (IntentResult, Option<Intent>)| {
                &&& #[trigger] ctrl_clear_effect(x, mid, c)
                &&& c.0.wf()
                &&& match c.1 {
                    None => post == mid && r0.messages@ =~= c.0.messages@ && r0.scope_signal == c.0.scope_signal,
                    Some(next) => !(next is CtrlClear) && exists|r1: IntentResult| {
                        &&& #[trigger] handle_effect_base(next, mid, post, r1, slices, rows)
                        &&& r0.messages@ =~= c.0.messages@ + r1.messages@
                        &&& r0.scope_signal == if r1.scope_signal is Some {
                            r1.scope_signal
                        } else {
                            c.0.scope_signal
                        }
                    },
                }
            };
            if let Some(next) = c.1 {
                let r1 = choose|r1: IntentResult| {
                    &&& #[trigger] handle_effect_base(next, mid, post, r1, slices, rows)
                    &&& r0.messages@ =~= c.0.messages@ + r1.messages@
                    &&& r0.scope_signal == if r1.scope_signal is Some {
                        r1.scope_signal
                    } else {
                        c.0.scope_signal
                    }
                };
                let m1 = transients_cleared(mid);
                let q = choose|q: IntentResult| #[trigger] inner_effect_base(next, m1, post, q, slices, rows) && announced(q, m1, post, r1);
                if let Stage::Arm(y) = stage(next, m1, rows) {
                    lemma_arm_base_keeps_prompts(next, y, post, q, slices);
                }
            }
        } else {
            lemma_arm_base_keeps_prompts(intent, x, post, r0, slices);
        }
    }
}

/// Scrolling and stepping the selection keep a cleared ignore sweep cleared.
#[verifier::spinoff_prover]
proof fn lemma_sweep_cleared_after_moves(intent: Intent, s: AppState, post: AppState, r: IntentResult)
    requires
        chat_log_arm_effect(intent, s, post, r),
        s.session.active.ignore_sweep is None,
        intent is ScrollUp || intent is ScrollDown || intent is ChatEntrySelectNext || intent is ChatEntrySelectPrev,
    ensures
        post.session.active.ignore_sweep is None,
{
}

/// Jumping the selection keep a cleared ignore sweep cleared.
#[verifier::spinoff_prover]
proof fn lemma_sweep_cleared_after_jumps(intent: Intent, s: AppState, post: AppState, r: IntentResult)
    requires
        chat_log_arm_effect(intent, s, post, r),
        s.session.active.ignore_sweep is None,
        intent is ChatEntryJumpNextCompaction || intent is ChatEntryJumpPrevCompaction || intent is ChatEntryJumpNextUserEntry || intent is ChatEntryJumpPrevUserEntry || intent is ChatEntryJumpNextPinned || intent is ChatEntryJumpPrevPinned,
    ensures
        post.session.active.ignore_sweep is None,
{
}

/// Pinning, expanding, forking and yanking keep a cleared ignore sweep cleared.
#[verifier::spinoff_prover]
proof fn lemma_sweep_cleared_after_entry_edits(intent: Intent, s: AppState, post: AppState, r: IntentResult)
    requires
        chat_log_arm_effect(intent, s, post, r),
        s.session.active.ignore_sweep is None,
        intent is ChatEntryPinSelected || intent is ExpandToolEntry || intent is ToggleIgnoredBlockVisibility || intent is ForkFromEntry || intent is YankSelectedEntry,
    ensures
        post.session.active.ignore_sweep is None,
{
}

/// Starting a session from an entry and resetting an override keep a cleared ignore sweep cleared.
#[verifier::spinoff_prover]
proof fn lemma_sweep_cleared_after_resets(intent: Intent, s: AppState, post: AppState, r: IntentResult)
    requires
        chat_log_arm_effect(intent, s, post, r),
        s.session.active.ignore_sweep is None,
        intent is NewSessionFromEntry || intent is ChatEntryResetSelected,
    ensures
        post.session.active.ignore_sweep is None,
{
}

/// The chat log's arms other than the ignore toggle keep a cleared ignore
/// sweep cleared.
proof fn lemma_chat_log_keeps_sweep_cleared(intent: Intent, s: AppState, post: AppState, r: IntentResult)
    requires
        chat_log_arm_effect(intent, s, post, r),
        s.session.active.ignore_sweep is None,
        !(intent is ChatEntryIgnoreSelected),
    ensures
        post.session.active.ignore_sweep is None,
{
    if intent is ScrollUp || intent is ScrollDown || intent is ChatEntrySelectNext || intent is ChatEntrySelectPrev {
        lemma_sweep_cleared_after_moves(intent, s, post, r);
    } else if intent is ChatEntryJumpNextCompaction || intent is ChatEntryJumpPrevCompaction || intent is ChatEntryJumpNextUserEntry || intent is ChatEntryJumpPrevUserEntry || intent is ChatEntryJumpNextPinned || intent is ChatEntryJumpPrevPinned {
        lemma_sweep_cleared_after_jumps(intent, s, post, r);
    } else if intent is ChatEntryPinSelected || intent is ExpandToolEntry || intent is ToggleIgnoredBlockVisibility || intent is ForkFromEntry || intent is YankSelectedEntry {
        lemma_sweep_cleared_after_entry_edits(intent, s, post, r);
    } else if intent is NewSessionFromEntry || intent is ChatEntryResetSelected {
        lemma_sweep_cleared_after_resets(intent, s, post, r);
    }
}

/// The application-wide arms keep a cleared ignore sweep cleared.
#[verifier::spinoff_prover]
proof fn lemma_app_keeps_sweep_cleared(intent: Intent, s: AppState, post: AppState, r: IntentResult, slices: Slices)
    requires
        app_arm_effect(intent, s, post, r, slices),
        s.session.active.ignore_sweep is None,
    ensures
        post.session.active.ignore_sweep is None,
{
}

/// The built-in arms other than the ignore toggle keep a cleared ignore
/// sweep cleared.
#[verifier::spinoff_prover]
proof fn lemma_arm_base_keeps_sweep_cleared(intent: Intent, s: AppState, post: AppState, r: IntentResult, slices: Slices)
    requires
        arm_effect_base(intent, s, post, r, slices),
        s.session.active.ignore_sweep is None,
        !(intent is ChatEntryIgnoreSelected),
    ensures
        post.session.active.ignore_sweep is None,
{
    let in_arg = s.frontend.scope_stack.spec_current() is ArgInput;
    if in_arg && (intent is InsertChar || intent is DeleteGrapheme || intent is MoveCursorLeft
        || intent is MoveCursorRight || intent is DeleteGraphemeForward || intent is EnterNormalMode) {
    } else if spec_is_chat_input_editing(intent) {
    } else if is_chat_log_intent(intent) {
        lemma_chat_log_keeps_sweep_cleared(intent, s, post, r);
    } else {
        lemma_app_keeps_sweep_cleared(intent, s, post, r, slices);
    }
}

/// Processing an intent other than the ignore toggle (`handle_inner`)
/// ends any ignore sweep, unless a route row serves it, which leaves the
/// session alone: holding the toggle key sweeps only while nothing else is
/// pressed.
pub proof fn lemma_inner_ends_the_sweep(intent: Intent, s: AppState, post: AppState, r0: IntentResult, slices: Slices, rows: Seq<RouteRowView>)
    requires
        inner_effect(intent, s, post, r0, slices, rows),
        !(intent is ChatEntryIgnoreSelected),
        spec_intent_route(rows, intent) is None,
    ensures
        post.session.active.ignore_sweep is None,
{
    if let Stage::Arm(x) = stage(intent, s, rows) {
        if intent is CtrlClear {
            let (mid, c) = choose|mid: AppState, c: (IntentResult, Option<Intent>)| {
                &&& #[trigger] ctrl_clear_effect(x, mid, c)
                &&& c.0.wf()
                &&& match c.1 {
                    None => post == mid && r0.messages@ =~= c.0.messages@ && r0.scope_signal == c.0.scope_signal,
                    Some(next) => !(next is CtrlClear) && exists|r1: IntentResult| {
                        &&& #[trigger] handle_effect_base(next, mid, post, r1, slices, rows)
                        &&& r0.messages@ =~= c.0.messages@ + r1.messages@
                        &&& r0.scope_signal == if r1.scope_signal is Some {
                            r1.scope_signal
                        } else {
                            c.0.scope_signal
                        }
                    },
                }
            };
            if let Some(next) = c.1 {
                let r1 = choose|r1: IntentResult| {
                    &&& #[trigger] handle_effect_base(next, mid, post, r1, slices, rows)
                    &&& r0.messages@ =~= c.0.messages@ + r1.messages@
                    &&& r0.scope_signal == if r1.scope_signal is Some {
                        r1.scope_signal
                    } else {
                        c.0.scope_signal
                    }
                };
                let m1 = transients_cleared(mid);
                let q = choose|q: IntentResult| #[trigger] inner_effect_base(next, m1, post, q, slices, rows) && announced(q, m1, post, r1);
                if let Stage::Arm(y) = stage(next, m1, rows) {
                    lemma_arm_base_keeps_sweep_cleared(next, y, post, q, slices);
                }
            }
        } else {
            lemma_arm_base_keeps_sweep_cleared(intent, x, post, r0, slices);
        }
    }
}


/// An intent other than the ignore toggle ends any ignore sweep (unless a
/// route row serves it, which leaves the session alone): holding the toggle
/// key sweeps only while nothing else is pressed.
pub proof fn lemma_other_intents_end_the_sweep(intent: Intent, pre: AppState, post: AppState, r: IntentResult, slices: Slices, rows: Seq<RouteRowView>)
    requires
        handle_effect(intent, pre, post, r, slices, rows),
        !(intent is ChatEntryIgnoreSelected),
        spec_intent_route(rows, intent) is None,
    ensures
        post.session.active.ignore_sweep is None,
{
    let s1 = transients_cleared(pre);
    let r0 = choose|r0: IntentResult| #[trigger] inner_effect(intent, s1, post, r0, slices, rows) && announced(r0, s1, post, r);
    lemma_inner_ends_the_sweep(intent, s1, post, r0, slices, rows);
}

/// No two registered tabs name the same scope.
pub open spec fn tabs_distinct(tabs: Seq<SliceScopeId>) -> bool {
    forall|a: int, b: int| 0 <= a < tabs.len() && 0 <= b < tabs.len() && a != b ==> !same_scope(#[trigger] tabs[a], #[trigger] tabs[b])
}

/// The tab cycle: from chat (or any scope that is not a registered tab) the
/// switch enters the first registered tab; from the `i`-th tab it moves to
/// the next one, and from the last back to chat. With no tab registered it
/// always lands on chat.
pub proof fn lemma_tab_cycle(tabs: Seq<SliceScopeId>, i: int)
    requires
        tabs_distinct(tabs),
        0 <= i < tabs.len(),
    ensures
        spec_next_tab_base(FocusScope::Normal, tabs) == FocusScope::Dynamic(tabs[0]),
        spec_next_tab_base(FocusScope::Dynamic(tabs[i]), tabs) == if i + 1 < tabs.len() {
            FocusScope::Dynamic(tabs[i + 1])
        } else {
            FocusScope::Normal
        },
        spec_next_tab_base(FocusScope::Normal, Seq::<SliceScopeId>::empty()) == FocusScope::Normal,
{
    assert(same_scope(tabs[i], tabs[i]));
    assert forall|q: int| 0 <= q < i implies !same_scope(#[trigger] tabs[q], tabs[i]) by {}
    lemma_tab_position(tabs, tabs[i], i);
}

impl IntentHandler {
    /// Processes an intent against the current application state.
    ///
    /// Clears the previous intent's signals and status hint, then processes
    /// the intent; when the active session changed, `ActiveSessionChanged`
    /// is appended. Returns the commands and events for the actor system.
    pub fn handle(intent: &Intent, state: &mut AppState, slices: &Slices, routes: &KeyRoutes) -> (r: IntentResult)
        requires
            old(state).wf(),
            old(state).session.next_session_id < u64::MAX,
        ensures
            final(state).wf(),
            r.wf(),
            handle_effect(*intent, *old(state), *final(state), r, *slices, routes@),
        decreases intent_rank(*intent), 3nat,
    {
        state.frontend.tui_signals.clear();
        state.frontend.status_hint = None;
        let ghost s1 = *state;
        assert(s1 == transients_cleared(*old(state)));
        let prev = state.session.active_session_id();
        let result = Self::handle_inner(intent, state, slices, routes);
        let ghost r0 = result;
        let sid = state.session.active_session_id();
        if sid != prev {
            let r = result.with_message(Message::ActiveSessionChanged { session_id: sid });
            assert(inner_effect(*intent, s1, *state, r0, *slices, routes@));
            r
        } else {
            assert(inner_effect(*intent, s1, *state, r0, *slices, routes@));
            result
        }
    }

    /// The intent's processing after the signals are cleared: the route
    /// table first, then the ignore-sweep reset, the prompts, and the
    /// built-in arms.
    pub fn handle_inner(intent: &Intent, state: &mut AppState, slices: &Slices, routes: &KeyRoutes) -> (r: IntentResult)
        requires
            old(state).wf(),
            old(state).session.next_session_id < u64::MAX,
        ensures
            final(state).wf(),
            r.wf(),
            inner_effect(*intent, *old(state), *final(state), r, *slices, routes@),
        decreases intent_rank(*intent), 2nat,
    {
        match routes.action_for(intent) {
            Some(result) => {
                let mut result = result;
                apply_scope_signal(&mut result, state);
                return result;
            },
            None => {},
        }
        let continues_sweep = match intent {
            Intent::ChatEntryIgnoreSelected => true,
            _ => false,
        };
        if !continues_sweep {
            state.session.active.ignore_sweep = None;
        }
        match try_handle_cancel_stream_prompt(intent, state) {
            Some(result) => return result,
            None => {},
        }
        match try_handle_close_session_prompt(intent, state) {
            Some(result) => return result,
            None => {},
        }
        let ghost before_settle = *state;
        settle_archive_prompt(intent, state);
        assert(state.wf()) by {
            assert(state.session == before_settle.session);
            assert(state.frontend.arg_input == before_settle.frontend.arg_input);
            assert(state.frontend.rename_session_input == before_settle.frontend.rename_session_input);
            assert(state.frontend.picker == before_settle.frontend.picker);
        }
        assert(stage(*intent, *old(state), routes@) == Stage::Arm(*state));
        Self::dispatch(intent, state, slices, routes)
    }

    /// The clear-or-leave key: clears the focused input, or hands back an
    /// intent to redispatch (closing the picker or the rename input) whose
    /// result is merged after its own.
    fn dispatch_ctrl_clear(state: &mut AppState, slices: &Slices, routes: &KeyRoutes) -> (r: IntentResult)
        requires
            old(state).wf(),
            old(state).session.next_session_id < u64::MAX,
        ensures
            final(state).wf(),
            r.wf(),
            ctrl_clear_arm_effect(*old(state), *final(state), r, *slices, routes@),
        decreases 1nat, 0nat,
    {
        let ghost s = *state;
        let (result, maybe_intent) = handle_ctrl_clear(state);
        let ghost mid = *state;
        let ghost r0 = (result, maybe_intent);
        assert(ctrl_clear_effect(s, mid, r0));
        match maybe_intent {
            Some(next) => {
                let redispatch = IntentHandler::handle(&next, state, slices, routes);
                proof {
                    lemma_handle_base(next, mid, *state, redispatch, *slices, routes@);
                }
                result.merge(redispatch)
            },
            None => result,
        }
    }

    /// The built-in arms.
    fn dispatch(intent: &Intent, state: &mut AppState, slices: &Slices, routes: &KeyRoutes) -> (r: IntentResult)
        requires
            old(state).wf(),
            old(state).session.next_session_id < u64::MAX,
        ensures
            final(state).wf(),
            r.wf(),
            arm_effect(*intent, *old(state), *final(state), r, *slices, routes@),
        decreases intent_rank(*intent), 1nat,
    {
        let in_arg_input = match state.frontend.scope_stack.current() {
            FocusScope::ArgInput => true,
            _ => false,
        };
        if in_arg_input {
            match intent {
                Intent::InsertChar { ch } => return handle_arg_input_edit(state, LineEdit::InsertChar(*ch)),
                Intent::DeleteGrapheme => return handle_arg_input_edit(state, LineEdit::DeleteBack),
                Intent::MoveCursorLeft => return handle_arg_input_edit(state, LineEdit::Left),
                Intent::MoveCursorRight => return handle_arg_input_edit(state, LineEdit::Right),
                Intent::DeleteGraphemeForward => return handle_arg_input_edit(state, LineEdit::DeleteForward),
                Intent::EnterNormalMode => return handle_arg_input_leave(state),
                _ => {},
            }
        }
        if is_chat_input_editing(intent) && state.active_chat_input().disabled() {
            return IntentResult::empty();
        }
        match intent {
            Intent::InsertChar { ch } => handle_insert_char(*ch, state),
            Intent::DeleteGrapheme => handle_delete_grapheme(state),
            Intent::DeleteGraphemeForward => handle_delete_grapheme_forward(state),
            Intent::SubmitMessage => handle_submit_message(state),
            Intent::ToggleInputMode => handle_toggle_input_mode(state),
            Intent::MoveCursorLeft => handle_move_cursor_left(state),
            Intent::MoveCursorRight => handle_move_cursor_right(state),
            Intent::MoveCursorToStart => handle_move_cursor_to_start(state),
            Intent::MoveCursorToEnd => handle_move_cursor_to_end(state),
            Intent::PasteText { text } => {
                let scope = state.frontend.scope_stack.current();
                match scope {
                    FocusScope::Input => handle_paste_text(text.as_str(), state),
                    FocusScope::Picker { .. } => handle_picker_paste(state, text.as_str()),
                    FocusScope::ArgInput => handle_arg_input_paste(state, text.as_str()),
                    FocusScope::RenameSessionInput => handle_rename_paste(state, text.as_str()),
                    _ => IntentResult::empty(),
                }
            },
            Intent::ScrollUp => handle_scroll_up(state),
            Intent::ScrollDown => handle_scroll_down(state),
            Intent::Quit => handle_quit(state),
            Intent::Interrupt { session_id } => handle_interrupt(state, *session_id),
            Intent::EnterInsertMode => handle_enter_insert_mode(state),
            Intent::EnterNormalMode => handle_enter_normal_mode(state),
            Intent::ToggleWhichkey => handle_toggle_whichkey(state),
            Intent::ToggleAuditPopup => handle_toggle_audit_popup(state),
            Intent::NormalEscape => handle_normal_escape(state),
            Intent::NoOp => IntentResult::empty(),
            Intent::CtrlClear => Self::dispatch_ctrl_clear(state, slices, routes),
            Intent::SidebarSessionClose => {
                state.frontend.close_session_prompt = true;
                IntentResult::empty()
            },
            // Arming a tree action needs the sidebar's session tree, which this
            // state does not hold; `try_handle_archive_tree_prompt` confirms a
            // shown prompt given the subtree's check.
            Intent::SidebarSessionArchiveTree => IntentResult::empty(),
            Intent::SidebarSessionTeardownTree => IntentResult::empty(),
            Intent::ChatEntrySelectNext => handle_select_next(state),
            Intent::ChatEntrySelectPrev => handle_select_prev(state),
            Intent::ChatEntryJumpNextCompaction => handle_jump_next_entry(state, EntryPredicate::Compaction),
            Intent::ChatEntryJumpPrevCompaction => handle_jump_prev_entry(state, EntryPredicate::Compaction),
            Intent::ChatEntryJumpNextUserEntry => handle_jump_next_entry(state, EntryPredicate::UserEntry),
            Intent::ChatEntryJumpPrevUserEntry => handle_jump_prev_entry(state, EntryPredicate::UserEntry),
            Intent::ChatEntryJumpNextPinned => handle_jump_next_entry(state, EntryPredicate::Pinned),
            Intent::ChatEntryJumpPrevPinned => handle_jump_prev_entry(state, EntryPredicate::Pinned),
            Intent::ChatEntryPinSelected => handle_pin_selected(state),
            Intent::ExpandToolEntry => handle_expand_tool_entry(state),
            Intent::ToggleIgnoredBlockVisibility => handle_toggle_ignored_block(state),
            Intent::ForkFromEntry => handle_fork_from_entry(state),
            Intent::NewSessionFromEntry => handle_new_session_from_entry(state),
            Intent::YankSelectedEntry => handle_yank_selected(state),
            Intent::ChatEntryIgnoreSelected => handle_ignore_selected(state),
            Intent::ChatEntryResetSelected => handle_reset_selected(state),
            Intent::RenameSessionLeave => handle_rename_session_leave(state),
            Intent::RenameInsertChar { ch } => handle_rename_edit(state, LineEdit::InsertChar(*ch)),
            Intent::RenameCursorLeft => handle_rename_edit(state, LineEdit::Left),
            Intent::RenameCursorRight => handle_rename_edit(state, LineEdit::Right),
            Intent::RenameDeleteGrapheme => handle_rename_edit(state, LineEdit::DeleteBack),
            Intent::RenameDeleteForward => handle_rename_edit(state, LineEdit::DeleteForward),
            Intent::SwitchTab => {
                match state.frontend.scope_stack.current() {
                    FocusScope::TerminalView => {
                        state.frontend.scope_stack.pop();
                        return IntentResult::empty();
                    },
                    FocusScope::TerminalControl => return IntentResult::empty(),
                    _ => {},
                }
                let new_base = next_tab_base(state, slices);
                state.frontend.scope_stack.swap_base(new_base);
                IntentResult::empty()
            },
            Intent::Dynamic(_) => IntentResult::empty(),
        }
    }
}

} // verus!
