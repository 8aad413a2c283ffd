//! Global intent handlers: quit, which-key, the audit popup, interrupt, and
//! the universal clear-or-leave key.

use vstd::prelude::*;
use vstd::string::*;
use crate::app_state::{AppState, ArgInputState, FocusScope, FrontendState, SessionStore, TuiSignals};
use crate::clock::now_millis;
use crate::intent::Intent;
use crate::intent_result::{IntentResult, Message};
use crate::session::{ChatSessionState, SessionId, SessionView};

verus! {

/// What `handle_quit` does: the state it leaves and the result it returns.
pub open spec fn quit_effect(pre: AppState, post: AppState, r: IntentResult) -> bool {
    &&& (r.is_empty_result())
    &&& (post.session == pre.session)
    &&& (post.frontend == (FrontendState { should_quit: true, ..pre.frontend }))
}

/// Handles the Quit intent: the frontend is told to quit.
pub fn handle_quit(state: &mut AppState) -> (r: IntentResult)
    requires
        old(state).wf(),
    ensures
        final(state).wf(),
        r.wf(),
        quit_effect(*old(state), *final(state), r),
{
    state.frontend.should_quit = true;
    IntentResult::empty()
}

/// What `handle_toggle_whichkey` does: the state it leaves and the result it returns.
pub open spec fn toggle_whichkey_effect(pre: AppState, post: AppState, r: IntentResult) -> bool {
    &&& (r.is_empty_result())
    &&& (post.session == pre.session)
    &&& (post.frontend == (FrontendState {
                tui_signals: TuiSignals { toggle_whichkey: true, ..pre.frontend.tui_signals },
                ..pre.frontend
            }))
}

/// Handles the ToggleWhichkey intent: raises the `toggle_whichkey` signal.
pub fn handle_toggle_whichkey(state: &mut AppState) -> (r: IntentResult)
    requires
        old(state).wf(),
    ensures
        final(state).wf(),
        r.wf(),
        toggle_whichkey_effect(*old(state), *final(state), r),
{
    state.frontend.tui_signals.toggle_whichkey = true;
    IntentResult::empty()
}

/// What `handle_toggle_audit_popup` does: the state it leaves and the result it returns.
pub open spec fn toggle_audit_popup_effect(pre: AppState, post: AppState, r: IntentResult) -> bool {
    &&& (r.is_empty_result())
    &&& (post.session == pre.session)
    &&& (post.frontend == (FrontendState {
                audit_popup_visible: !pre.frontend.audit_popup_visible,
                ..pre.frontend
            }))
}

/// Handles the ToggleAuditPopup intent: flips the popup's visibility.
pub fn handle_toggle_audit_popup(state: &mut AppState) -> (r: IntentResult)
    requires
        old(state).wf(),
    ensures
        final(state).wf(),
        r.wf(),
        toggle_audit_popup_effect(*old(state), *final(state), r),
{
    state.frontend.audit_popup_visible = !state.frontend.audit_popup_visible;
    IntentResult::empty()
}

/// The position of the inactive session with id `id`.
fn find_inactive(store: &SessionStore, id: SessionId) -> (r: Option<usize>)
    ensures
        r matches Some(i) ==> i < store.inactive@.len() && store.inactive@[i as int].session_id == id
            && forall|j: int| 0 <= j < i ==> #[trigger] store.inactive@[j].session_id != id,
        r is None ==> forall|i: int| 0 <= i < store.inactive@.len() ==> #[trigger] store.inactive@[i].session_id != id,
{
    let mut i: usize = 0;
    while i < store.inactive.len()
        invariant
            i <= store.inactive@.len(),
            forall|j: int| 0 <= j < i ==> #[trigger] store.inactive@[j].session_id != id,
        decreases store.inactive.len() - i,
    {
        if store.inactive[i].session_id == id {
            return Some(i);
        }
        i += 1;
    }
    None
}

/// The session after its stream was cancelled: the time of the cancel is
/// recorded, unless the system clock could not be read, which leaves the
/// previous record.
pub open spec fn stream_cancelled(old: SessionView, new: SessionView) -> bool {
    &&& (new.cancelled_at_ms is Some || new.cancelled_at_ms == old.cancelled_at_ms)
    &&& new == (SessionView { streaming: false, cancelled_at_ms: new.cancelled_at_ms, ..old })
}

/// What `handle_interrupt` does: the state it leaves and the result it returns.
pub open spec fn interrupt_effect(target: Option<SessionId>, pre: AppState, post: AppState, r: IntentResult) -> bool {
    &&& (r.scope_signal is None)
    &&& (post.frontend == pre.frontend)
    &&& (match target {
                Some(id) => {
                    &&& r.messages@ =~= seq![Message::CancelStream { session_id: id }]
                    &&& post.session.loading == pre.session.loading
                    &&& post.session.next_session_id == pre.session.next_session_id
                    &&& if pre.session.active.session_id == id {
                        &&& stream_cancelled(pre.session.active@, post.session.active@)
                        &&& post.session.inactive == pre.session.inactive
                    } else {
                        &&& post.session.active == pre.session.active
                        &&& post.session.inactive@.len() == pre.session.inactive@.len()
                        &&& forall|i: int| 0 <= i < pre.session.inactive@.len() ==> if pre.session.inactive@[i].session_id == id
                            && (forall|j: int| 0 <= j < i ==> pre.session.inactive@[j].session_id != id) {
                            stream_cancelled(pre.session.inactive@[i]@, #[trigger] post.session.inactive@[i]@)
                        } else {
                            post.session.inactive@[i] == pre.session.inactive@[i]
                        }
                    }
                },
                None => {
                    &&& r.messages@.len() == 0
                    &&& post.session.inactive == pre.session.inactive
                    &&& post.session.loading == pre.session.loading
                    &&& post.session.next_session_id == pre.session.next_session_id
                    &&& post.session.active == (ChatSessionState {
                        chat_input: post.session.active.chat_input,
                        ..pre.session.active
                    })
                    &&& post.session.active.chat_input.text.input@.len() == 0
                    &&& post.session.active.chat_input.text.cursor_pos == 0
                    &&& post.session.active.chat_input.mode == pre.session.active.chat_input.mode
                    &&& post.session.active.chat_input.disabled == pre.session.active.chat_input.disabled
                },
            })
}

/// Handles the Interrupt intent.
///
/// With a target session, that session's stream is cancelled (it stops
/// streaming, and the time of the cancel is recorded) and a `CancelStream`
/// command is emitted for it. Without one, the chat input is cleared.
pub fn handle_interrupt(state: &mut AppState, target: Option<SessionId>) -> (r: IntentResult)
    requires
        old(state).wf(),
    ensures
        final(state).wf(),
        r.wf(),
        interrupt_effect(target, *old(state), *final(state), r),
{
    match target {
        Some(id) => {
            let now = now_millis();
            if state.session.active.session_id == id {
                state.session.active.cancel_streaming(now);
            } else {
                match find_inactive(&state.session, id) {
                    Some(i) => {
                        let ghost before = state.session.inactive@;
                        let mut s = ChatSessionState::new(id);
                        state.session.inactive.set_and_swap(i, &mut s);
                        s.cancel_streaming(now);
                        state.session.inactive.set_and_swap(i, &mut s);
                        proof {
                            assert forall|k: int| 0 <= k < state.session.inactive@.len() implies #[trigger] state.session.inactive@[k].wf() by {
                                if k != i as int {
                                    assert(state.session.inactive@[k] == before[k]);
                                }
                            }
                            assert forall|k: int| 0 <= k < before.len() implies if before[k].session_id == id
                                && (forall|j: int| 0 <= j < k ==> before[j].session_id != id) {
                                stream_cancelled(before[k]@, #[trigger] state.session.inactive@[k]@)
                            } else {
                                state.session.inactive@[k] == before[k]
                            } by {
                                if k < i as int {
                                    assert(before[k].session_id != id);
                                } else if k > i as int {
                                    assert(before[i as int].session_id == id);
                                }
                            }
                        }
                    },
                    None => {
                        assert forall|k: int| 0 <= k < state.session.inactive@.len() implies state.session.inactive@[k].session_id != id by {
                            assert(state.session.inactive@[k].session_id != id);
                        }
                    },
                }
            }
            IntentResult::new_message(Message::CancelStream { session_id: id })
        },
        None => {
            state.session.active.chat_input.reset();
            IntentResult::empty()
        },
    }
}

/// What `handle_ctrl_clear` does: the state it leaves and the result it returns.
pub open spec fn ctrl_clear_effect(pre: AppState, post: AppState, r: (IntentResult, Option<Intent>)) -> bool {
    &&& (r.0.is_empty_result())
    &&& (match pre.frontend.scope_stack.spec_current() {
                FocusScope::Input => {
                    &&& r.1 is None
                    &&& post.frontend == pre.frontend
                    &&& post.session.inactive == pre.session.inactive
                    &&& post.session.active == (ChatSessionState {
                        chat_input: post.session.active.chat_input,
                        ..pre.session.active
                    })
                    &&& post.session.active.chat_input.text.input@.len() == 0
                    &&& post.session.active.chat_input.text.cursor_pos == 0
                    &&& post.session.active.chat_input.mode == pre.session.active.chat_input.mode
                    &&& post.session.active.chat_input.disabled == pre.session.active.chat_input.disabled
                    &&& post.session.loading == pre.session.loading
                    &&& post.session.next_session_id == pre.session.next_session_id
                },
                FocusScope::Picker { .. } => {
                    &&& post.session == pre.session
                    &&& match pre.frontend.picker {
                        Some(p) => if p.filter.input@.len() == 0 {
                            r.1 matches Some(Intent::EnterNormalMode) && post == pre
                        } else {
                            &&& r.1 is None
                            &&& post.frontend.picker matches Some(q) && q.kind == p.kind
                                && q.filter.input@.len() == 0 && q.filter.cursor_pos == 0
                            &&& post.frontend == (FrontendState {
                                picker: post.frontend.picker,
                                ..pre.frontend
                            })
                        },
                        None => r.1 is None && post == pre,
                    }
                },
                FocusScope::ArgInput => {
                    &&& r.1 is None
                    &&& post.session == pre.session
                    &&& if pre.frontend.arg_input.text.input@.len() == 0 {
                        &&& post.frontend.scope_stack.base == pre.frontend.scope_stack.base
                        &&& post.frontend.scope_stack.overlays@ == if pre.frontend.scope_stack.overlays@.len() > 0 {
                            pre.frontend.scope_stack.overlays@.drop_last()
                        } else {
                            pre.frontend.scope_stack.overlays@
                        }
                        &&& post.frontend.arg_input.text.input@.len() == 0
                        &&& post.frontend.arg_input.lifecycle_name@.len() == 0
                        &&& post.frontend.arg_input.template_display@.len() == 0
                        &&& post.frontend == (FrontendState {
                            scope_stack: post.frontend.scope_stack,
                            arg_input: post.frontend.arg_input,
                            ..pre.frontend
                        })
                    } else {
                        &&& post.frontend.arg_input.text.input@.len() == 0
                        &&& post.frontend.arg_input.text.cursor_pos == 0
                        &&& post.frontend == (FrontendState {
                            arg_input: ArgInputState {
                                text: post.frontend.arg_input.text,
                                ..pre.frontend.arg_input
                            },
                            ..pre.frontend
                        })
                    }
                },
                FocusScope::RenameSessionInput => {
                    &&& post.session == pre.session
                    &&& if pre.frontend.rename_session_input.text.input@.len() == 0 {
                        r.1 matches Some(Intent::RenameSessionLeave) && post == pre
                    } else {
                        &&& r.1 is None
                        &&& post.frontend.rename_session_input.text.input@.len() == 0
                        &&& post.frontend.rename_session_input.text.cursor_pos == 0
                        &&& post.frontend == (FrontendState {
                            rename_session_input: post.frontend.rename_session_input,
                            ..pre.frontend
                        })
                    }
                },
                _ => r.1 is None && post == pre,
            })
}

/// Handles the `CtrlClear` intent (the universal clear-or-leave key).
///
/// By scope: `Input` clears the chat input; `Picker` empties the filter, or
/// when it is already empty asks to redispatch `EnterNormalMode` (closing the
/// picker); `ArgInput` clears the input, or when already empty pops the
/// scope and resets the argument input; `RenameSessionInput` clears the
/// input, or when already empty asks to redispatch `RenameSessionLeave`.
/// Elsewhere nothing happens.
pub fn handle_ctrl_clear(state: &mut AppState) -> (r: (IntentResult, Option<Intent>))
    requires
        old(state).wf(),
    ensures
        final(state).wf(),
        r.0.wf(),
        ctrl_clear_effect(*old(state), *final(state), r),
{
    let current = state.frontend.scope_stack.current().copy();
    match current {
        FocusScope::Input => {
            state.session.active.chat_input.reset();
            (IntentResult::empty(), None)
        },
        FocusScope::Picker { .. } => {
            match &mut state.frontend.picker {
                Some(picker) => {
                    if picker.filter.is_empty() {
                        (IntentResult::empty(), Some(Intent::EnterNormalMode))
                    } else {
                        picker.filter.clear();
                        (IntentResult::empty(), None)
                    }
                },
                None => (IntentResult::empty(), None),
            }
        },
        FocusScope::ArgInput => {
            if state.frontend.arg_input.text.is_empty() {
                state.frontend.scope_stack.pop();
                state.frontend.arg_input = ArgInputState::new();
            } else {
                state.frontend.arg_input.text.set(String::new());
            }
            (IntentResult::empty(), None)
        },
        FocusScope::RenameSessionInput => {
            if state.frontend.rename_session_input.text.is_empty() {
                (IntentResult::empty(), Some(Intent::RenameSessionLeave))
            } else {
                state.frontend.rename_session_input.text.clear();
                (IntentResult::empty(), None)
            }
        },
        _ => (IntentResult::empty(), None),
    }
}

} // verus!
