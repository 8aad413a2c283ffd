use jinn_domain::app_state::{AppState, ArgInputState, FocusScope, PickerKind, PickerState, RenameSessionInputState};
use jinn_domain::global::{handle_ctrl_clear, handle_interrupt, handle_quit, handle_toggle_audit_popup, handle_toggle_whichkey};
use jinn_domain::handler::IntentHandler;
use jinn_domain::intent::Intent;
use jinn_domain::key_routes::KeyRoutes;
use jinn_domain::line_input::LineInput;
use jinn_domain::session::{ChatSessionState, PhaseKind, SessionId};
use jinn_domain::slices::Slices;

fn picker_with_filter(filter: &str) -> PickerState {
    PickerState {
        kind: PickerKind::Model,
        filter: LineInput { input: filter.to_owned(), cursor_pos: filter.chars().count() },
    }
}

#[test]
fn quit_sets_should_quit() {
    let mut state = AppState::default();
    let result = handle_quit(&mut state);
    assert!(state.frontend.should_quit);
    assert!(result.message_names.is_empty());
}

#[test]
fn toggle_whichkey_sets_tui_signal() {
    let mut state = AppState::default();
    let result = handle_toggle_whichkey(&mut state);
    assert!(state.frontend.tui_signals.toggle_whichkey);
    assert!(result.message_names.is_empty());
}

#[test]
fn toggle_audit_popup_off_to_on_sets_visibility_flag() {
    let mut state = AppState::default();
    assert!(!state.frontend.audit_popup_visible);
    let result = handle_toggle_audit_popup(&mut state);
    assert!(state.frontend.audit_popup_visible);
    assert!(result.message_names.is_empty());
}

#[test]
fn toggle_audit_popup_on_to_off_clears_visibility_flag() {
    let mut state = AppState::default();
    handle_toggle_audit_popup(&mut state);
    assert!(state.frontend.audit_popup_visible);
    let result = handle_toggle_audit_popup(&mut state);
    assert!(!state.frontend.audit_popup_visible);
    assert!(result.message_names.is_empty());
}

#[test]
fn audit_popup_remains_visible_when_input_mode_entered() {
    let mut state = AppState::default();
    state.frontend.scope_stack.swap_base(FocusScope::Normal);
    handle_toggle_audit_popup(&mut state);
    assert!(state.frontend.audit_popup_visible);
    state.frontend.scope_stack.push(FocusScope::Input);
    assert!(state.frontend.audit_popup_visible);
    assert!(matches!(state.frontend.scope_stack.current(), FocusScope::Input));
}

#[test]
fn audit_popup_remains_visible_after_input_mode_exited() {
    let mut state = AppState::default();
    state.frontend.scope_stack.swap_base(FocusScope::Normal);
    handle_toggle_audit_popup(&mut state);
    state.frontend.scope_stack.push(FocusScope::Input);
    assert!(state.frontend.audit_popup_visible);
    state.frontend.scope_stack.pop();
    assert!(state.frontend.audit_popup_visible);
    assert!(matches!(state.frontend.scope_stack.current(), FocusScope::Normal));
}

#[test]
fn interrupt_clears_buffer_when_non_empty() {
    let mut state = AppState::default();
    state.active_chat_input_mut().insert_text("h");
    let result = handle_interrupt(&mut state, None);
    assert!(state.active_chat_input().is_empty());
    assert!(result.message_names.is_empty());
}

#[test]
fn interrupt_clears_empty_buffer_is_noop() {
    let mut state = AppState::default();
    let result = handle_interrupt(&mut state, None);
    assert!(state.active_chat_input().is_empty());
    assert!(result.message_names.is_empty());
}

#[test]
fn interrupt_does_not_cancel_stream() {
    let mut state = AppState::default();
    state.active_session_mut().begin_streaming();
    let result = handle_interrupt(&mut state, None);
    assert!(result.message_names.is_empty());
    assert!(matches!(state.active_session().phase(), PhaseKind::Streaming));
}

#[test]
fn interrupt_with_specific_session_cancels_stream() {
    let mut state = AppState::default();
    let second_id = SessionId { id: 42 };
    let mut second = ChatSessionState::new(second_id);
    second.begin_streaming();
    state.session.inactive.push(second);
    let result = handle_interrupt(&mut state, Some(second_id));
    assert!(matches!(state.session.inactive[0].phase(), PhaseKind::Idle));
    assert!(state.session.inactive[0].cancelled_at_ms.is_some());
    assert_eq!(result.messages.len(), 1);
    assert_eq!(result.message_names, vec!["jinn_domain::protocol::CancelStream".to_owned()]);
}

#[test]
fn interrupt_of_active_session_cancels_its_stream() {
    let mut state = AppState::default();
    state.active_session_mut().begin_streaming();
    let id = state.session.active_session_id();
    let result = handle_interrupt(&mut state, Some(id));
    assert!(matches!(state.active_session().phase(), PhaseKind::Idle));
    assert_eq!(result.messages.len(), 1);
}

#[test]
fn ctrl_clear_input_nonempty_clears_buffer() {
    let mut state = AppState::default();
    state.frontend.scope_stack.push(FocusScope::Input);
    state.active_chat_input_mut().insert_text("hi");
    let (result, maybe_intent) = handle_ctrl_clear(&mut state);
    assert!(state.active_chat_input().is_empty());
    assert!(result.message_names.is_empty());
    assert!(maybe_intent.is_none());
}

#[test]
fn ctrl_clear_input_empty_is_noop() {
    let mut state = AppState::default();
    state.frontend.scope_stack.push(FocusScope::Input);
    let (result, maybe_intent) = handle_ctrl_clear(&mut state);
    assert!(state.active_chat_input().is_empty());
    assert!(result.message_names.is_empty());
    assert!(maybe_intent.is_none());
    assert!(matches!(state.frontend.scope_stack.current(), FocusScope::Input));
}

#[test]
fn ctrl_clear_picker_filter_nonempty_clears_filter() {
    let mut state = AppState::default();
    state.frontend.scope_stack.push(FocusScope::Picker { kind: PickerKind::Model });
    state.frontend.picker = Some(picker_with_filter("ab"));
    let (result, maybe_intent) = handle_ctrl_clear(&mut state);
    assert!(state.frontend.picker.as_ref().expect("picker still active").filter.is_empty());
    assert!(result.message_names.is_empty());
    assert!(maybe_intent.is_none());
    assert!(matches!(state.frontend.scope_stack.current(), FocusScope::Picker { .. }));
}

#[test]
fn ctrl_clear_picker_filter_empty_closes_picker() {
    let mut state = AppState::default();
    state.frontend.scope_stack.push(FocusScope::Picker { kind: PickerKind::Model });
    state.frontend.picker = Some(picker_with_filter(""));
    let result = IntentHandler::handle(&Intent::CtrlClear, &mut state, &Slices::new(), &KeyRoutes::new());
    assert!(state.frontend.picker.is_none());
    assert!(matches!(state.frontend.scope_stack.current(), FocusScope::Normal));
    assert!(result.message_names.is_empty());
}

#[test]
fn ctrl_clear_arg_input_nonempty_clears_input() {
    let mut state = AppState::default();
    state.frontend.arg_input = ArgInputState {
        text: LineInput { input: "some arg".to_owned(), cursor_pos: 8 },
        lifecycle_name: "abc".to_owned(),
        template_display: String::new(),
    };
    state.frontend.scope_stack.push(FocusScope::ArgInput);
    let (result, maybe_intent) = handle_ctrl_clear(&mut state);
    assert!(state.frontend.arg_input.text.input.is_empty());
    assert_eq!(state.frontend.arg_input.text.cursor_pos, 0);
    assert!(matches!(state.frontend.scope_stack.current(), FocusScope::ArgInput));
    assert!(result.message_names.is_empty());
    assert!(maybe_intent.is_none());
}

#[test]
fn ctrl_clear_arg_input_empty_closes_scope() {
    let mut state = AppState::default();
    state.frontend.arg_input = ArgInputState {
        text: LineInput { input: String::new(), cursor_pos: 0 },
        lifecycle_name: "abc".to_owned(),
        template_display: String::new(),
    };
    state.frontend.scope_stack.push(FocusScope::ArgInput);
    let (result, maybe_intent) = handle_ctrl_clear(&mut state);
    assert!(matches!(state.frontend.scope_stack.current(), FocusScope::Input));
    assert_eq!(state.frontend.arg_input.lifecycle_name, "");
    assert!(result.message_names.is_empty());
    assert!(maybe_intent.is_none());
}

#[test]
fn ctrl_clear_rename_nonempty_clears_input() {
    let mut state = AppState::default();
    state.frontend.rename_session_input =
        RenameSessionInputState { text: LineInput { input: "New Name".to_owned(), cursor_pos: 8 } };
    state.frontend.scope_stack.push(FocusScope::RenameSessionInput);
    let (result, maybe_intent) = handle_ctrl_clear(&mut state);
    assert!(state.frontend.rename_session_input.text.input.is_empty());
    assert_eq!(state.frontend.rename_session_input.text.cursor_pos, 0);
    assert!(matches!(state.frontend.scope_stack.current(), FocusScope::RenameSessionInput));
    assert!(result.message_names.is_empty());
    assert!(maybe_intent.is_none());
}

#[test]
fn ctrl_clear_rename_empty_closes_popup() {
    let mut state = AppState::default();
    state.frontend.rename_session_input = RenameSessionInputState { text: LineInput::new() };
    state.frontend.scope_stack.push(FocusScope::RenameSessionInput);
    let result = IntentHandler::handle(&Intent::CtrlClear, &mut state, &Slices::new(), &KeyRoutes::new());
    assert!(matches!(state.frontend.scope_stack.current(), FocusScope::Input));
    assert!(state.frontend.rename_session_input.text.input.is_empty());
    assert!(result.message_names.is_empty());
}

#[test]
fn ctrl_clear_picker_two_presses_clears_then_closes() {
    let mut state = AppState::default();
    state.frontend.scope_stack.push(FocusScope::Picker { kind: PickerKind::Model });
    state.frontend.picker = Some(picker_with_filter("ab"));
    let result1 = IntentHandler::handle(&Intent::CtrlClear, &mut state, &Slices::new(), &KeyRoutes::new());
    assert!(matches!(state.frontend.scope_stack.current(), FocusScope::Picker { .. }));
    assert!(state.frontend.picker.as_ref().expect("picker still active").filter.is_empty());
    assert!(result1.messages.is_empty());
    let result2 = IntentHandler::handle(&Intent::CtrlClear, &mut state, &Slices::new(), &KeyRoutes::new());
    assert!(!matches!(state.frontend.scope_stack.current(), FocusScope::Picker { .. }));
    assert!(matches!(state.frontend.scope_stack.current(), FocusScope::Normal));
    assert!(result2.messages.is_empty());
}

#[test]
fn ctrl_clear_rename_pre_populated_clears_without_persisting() {
    let mut state = AppState::default();
    state.frontend.rename_session_input =
        RenameSessionInputState { text: LineInput { input: "My Session".to_owned(), cursor_pos: 10 } };
    state.frontend.scope_stack.push(FocusScope::RenameSessionInput);
    let (result, maybe_intent) = handle_ctrl_clear(&mut state);
    assert!(state.frontend.rename_session_input.text.input.is_empty());
    assert_eq!(state.frontend.rename_session_input.text.cursor_pos, 0);
    assert!(matches!(state.frontend.scope_stack.current(), FocusScope::RenameSessionInput));
    assert!(result.message_names.is_empty());
    assert!(maybe_intent.is_none());
}

#[test]
fn ctrl_clear_elsewhere_does_nothing() {
    let mut state = AppState::default();
    state.frontend.scope_stack.clear_overlays();
    state.active_chat_input_mut().insert_text("keep");
    let (result, maybe_intent) = handle_ctrl_clear(&mut state);
    assert_eq!(state.active_chat_input().text(), "keep");
    assert!(result.message_names.is_empty());
    assert!(maybe_intent.is_none());
}
