use jinn_domain::app_state::{AppState, ArgInputState, FocusScope, PickerKind, PickerState, RenameSessionInputState};
use jinn_domain::archive_tree::{ArchiveTreePrompt, TreePromptAction};
use jinn_domain::handler::IntentHandler;
use jinn_domain::intent::{DynamicIntent, Intent};
use jinn_domain::intent_result::SliceScopeId;
use jinn_domain::key_routes::{attach_dashboard_rows, dashboard_scope, KeyRoutes};
use jinn_domain::line_input::LineInput;
use jinn_domain::session::{ChatEntry, ChatSessionState, SessionId};
use jinn_domain::slices::Slices;

fn empty_slices() -> Slices {
    Slices::new()
}

fn empty_routes() -> KeyRoutes {
    KeyRoutes::new()
}

fn arg_input(input: &str, cursor_pos: usize) -> ArgInputState {
    ArgInputState {
        lifecycle_name: "test".to_owned(),
        template_display: "<arg>".to_owned(),
        text: LineInput { input: input.to_owned(), cursor_pos },
    }
}

fn rename_input(input: &str, cursor_pos: usize) -> RenameSessionInputState {
    RenameSessionInputState { text: LineInput { input: input.to_owned(), cursor_pos } }
}

fn handle(intent: Intent, state: &mut AppState) -> jinn_domain::intent_result::IntentResult {
    IntentHandler::handle(&intent, state, &empty_slices(), &empty_routes())
}

#[test]
fn paste_text_ignored_in_normal_scope() {
    let mut state = AppState::default();
    state.frontend.scope_stack.clear_overlays();
    let result = handle(Intent::PasteText { text: "hello".into() }, &mut state);
    assert!(state.active_chat_input().is_empty());
    assert!(result.message_names.is_empty());
}

#[test]
fn paste_text_inserts_in_input_scope() {
    let mut state = AppState::default();
    state.frontend.scope_stack.push(FocusScope::Input);
    let result = handle(Intent::PasteText { text: "hello\nworld".into() }, &mut state);
    assert_eq!(state.active_chat_input().text(), "hello\nworld");
    assert!(result.message_names.is_empty());
}

#[test]
fn disabled_input_box_rejects_insert_char() {
    let mut state = AppState::default();
    state.frontend.scope_stack.push(FocusScope::Input);
    state.active_chat_input_mut().set_enabled(false);
    let result = handle(Intent::InsertChar { ch: 'x' }, &mut state);
    assert!(state.active_chat_input().is_empty());
    assert!(result.message_names.is_empty());
}

#[test]
fn enabled_input_box_accepts_insert_char() {
    let mut state = AppState::default();
    state.frontend.scope_stack.push(FocusScope::Input);
    state.active_chat_input_mut().set_enabled(false);
    state.active_chat_input_mut().set_enabled(true);
    let _result = handle(Intent::InsertChar { ch: 'x' }, &mut state);
    assert_eq!(state.active_chat_input().text(), "x");
}

#[test]
fn disabled_input_box_does_not_block_normal_scope() {
    let mut state = AppState::default();
    state.active_chat_input_mut().set_enabled(false);
    let result = handle(Intent::EnterNormalMode, &mut state);
    assert!(
        matches!(state.frontend.scope_stack.current(), FocusScope::Normal),
        "Normal intent should still route when input box is disabled"
    );
    assert!(result.message_names.is_empty());
}

#[test]
fn rename_insert_char_inserts_into_rename_input() {
    let mut state = AppState::default();
    state.frontend.scope_stack.push(FocusScope::RenameSessionInput);
    state.frontend.rename_session_input = rename_input("Hel", 3);
    let result = handle(Intent::RenameInsertChar { ch: 'o' }, &mut state);
    assert_eq!(state.frontend.rename_session_input.text.input, "Helo");
    assert_eq!(state.frontend.rename_session_input.text.cursor_pos, 4);
    assert!(state.active_chat_input().is_empty());
    assert!(result.message_names.is_empty());
}

#[test]
fn rename_cursor_left_moves_cursor_in_rename_input() {
    let mut state = AppState::default();
    state.frontend.scope_stack.push(FocusScope::RenameSessionInput);
    state.frontend.rename_session_input = rename_input("Hello", 5);
    let result = handle(Intent::RenameCursorLeft, &mut state);
    assert_eq!(state.frontend.rename_session_input.text.cursor_pos, 4);
    assert!(result.message_names.is_empty());
}

#[test]
fn rename_cursor_right_moves_cursor_in_rename_input() {
    let mut state = AppState::default();
    state.frontend.scope_stack.push(FocusScope::RenameSessionInput);
    state.frontend.rename_session_input = rename_input("Hi", 0);
    let result = handle(Intent::RenameCursorRight, &mut state);
    assert_eq!(state.frontend.rename_session_input.text.cursor_pos, 1);
    assert!(result.message_names.is_empty());
}

#[test]
fn rename_delete_grapheme_deletes_in_rename_input() {
    let mut state = AppState::default();
    state.frontend.scope_stack.push(FocusScope::RenameSessionInput);
    state.frontend.rename_session_input = rename_input("Hello", 5);
    let result = handle(Intent::RenameDeleteGrapheme, &mut state);
    assert_eq!(state.frontend.rename_session_input.text.input, "Hell");
    assert_eq!(state.frontend.rename_session_input.text.cursor_pos, 4);
    assert!(result.message_names.is_empty());
}

#[test]
fn rename_delete_forward_deletes_in_rename_input() {
    let mut state = AppState::default();
    state.frontend.scope_stack.push(FocusScope::RenameSessionInput);
    state.frontend.rename_session_input = rename_input("Hello", 1);
    let result = handle(Intent::RenameDeleteForward, &mut state);
    assert_eq!(state.frontend.rename_session_input.text.input, "Hllo");
    assert_eq!(state.frontend.rename_session_input.text.cursor_pos, 1);
    assert!(result.message_names.is_empty());
}

#[test]
fn insert_char_routes_to_arg_input_when_scope_is_arg_input() {
    let mut state = AppState::default();
    state.frontend.scope_stack.push(FocusScope::ArgInput);
    state.frontend.arg_input = arg_input("hel", 3);
    let _result = handle(Intent::InsertChar { ch: 'o' }, &mut state);
    assert_eq!(state.frontend.arg_input.text.input, "helo");
    assert!(state.active_chat_input().is_empty(), "chat input should be empty");
}

#[test]
fn insert_char_routes_to_chat_input_when_scope_is_normal() {
    let mut state = AppState::default();
    state.frontend.scope_stack.push(FocusScope::Input);
    let _result = handle(Intent::InsertChar { ch: 'x' }, &mut state);
    assert_eq!(state.active_chat_input().text(), "x");
    assert!(state.frontend.arg_input.text.input.is_empty(), "arg input should be empty");
}

#[test]
fn delete_grapheme_routes_to_arg_input_when_scope_is_arg_input() {
    let mut state = AppState::default();
    state.frontend.scope_stack.push(FocusScope::ArgInput);
    state.frontend.arg_input = arg_input("abc", 3);
    let _result = handle(Intent::DeleteGrapheme, &mut state);
    assert_eq!(state.frontend.arg_input.text.input, "ab");
}

#[test]
fn move_cursor_left_routes_to_arg_input_when_scope_is_arg_input() {
    let mut state = AppState::default();
    state.frontend.scope_stack.push(FocusScope::ArgInput);
    state.frontend.arg_input = arg_input("ab", 2);
    let _result = handle(Intent::MoveCursorLeft, &mut state);
    assert_eq!(state.frontend.arg_input.text.cursor_pos, 1);
}

#[test]
fn move_cursor_right_routes_to_arg_input_when_scope_is_arg_input() {
    let mut state = AppState::default();
    state.frontend.scope_stack.push(FocusScope::ArgInput);
    state.frontend.arg_input = arg_input("ab", 0);
    let _result = handle(Intent::MoveCursorRight, &mut state);
    assert_eq!(state.frontend.arg_input.text.cursor_pos, 1);
}

#[test]
fn delete_forward_routes_to_arg_input_when_scope_is_arg_input() {
    let mut state = AppState::default();
    state.frontend.scope_stack.push(FocusScope::ArgInput);
    state.frontend.arg_input = arg_input("abc", 1);
    let _result = handle(Intent::DeleteGraphemeForward, &mut state);
    assert_eq!(state.frontend.arg_input.text.input, "ac");
}

#[test]
fn enter_normal_mode_pops_arg_input_scope() {
    let mut state = AppState::default();
    state.frontend.scope_stack.push(FocusScope::ArgInput);
    state.frontend.arg_input = arg_input("partial", 7);
    let _result = handle(Intent::EnterNormalMode, &mut state);
    assert!(!matches!(state.frontend.scope_stack.current(), FocusScope::ArgInput));
    assert!(state.frontend.arg_input.text.input.is_empty());
}

#[test]
fn paste_text_in_picker_scope_routes_to_picker() {
    let mut state = AppState::default();
    state.frontend.scope_stack.push(FocusScope::Picker { kind: PickerKind::Persona });
    let _result = handle(Intent::PasteText { text: "hello".into() }, &mut state);
}

#[test]
fn paste_text_in_picker_scope_updates_the_filter() {
    let mut state = AppState::default();
    state.frontend.scope_stack.push(FocusScope::Picker { kind: PickerKind::Persona });
    state.frontend.picker = Some(PickerState { kind: PickerKind::Persona, filter: LineInput::new() });
    let result = handle(Intent::PasteText { text: "hello".into() }, &mut state);
    let picker = state.frontend.picker.as_ref().expect("picker stays open");
    assert_eq!(picker.filter.input, "hello");
    assert_eq!(picker.filter.cursor_pos, 5);
    assert!(state.active_chat_input().is_empty());
    assert!(result.message_names.is_empty());
}

#[test]
fn paste_text_in_rename_session_scope_routes_to_rename() {
    let mut state = AppState::default();
    state.frontend.scope_stack.push(FocusScope::RenameSessionInput);
    state.frontend.rename_session_input = rename_input("old", 3);
    let _result = handle(Intent::PasteText { text: " new".into() }, &mut state);
    assert_eq!(state.frontend.rename_session_input.text.input, "old new");
}

#[test]
fn cancel_stream_prompt_esc_confirms() {
    let mut state = AppState::default();
    state.frontend.cancel_stream_prompt = true;
    let result = handle(Intent::NormalEscape, &mut state);
    assert!(!state.frontend.cancel_stream_prompt);
    assert!(
        result.message_names.iter().any(|n| n.contains("CancelStream")),
        "should emit CancelStream: {:?}",
        result.message_names
    );
}

#[test]
fn cancel_stream_prompt_esc_on_busy_session_also_cancels_lifecycle() {
    let mut state = AppState::default();
    state.frontend.cancel_stream_prompt = true;
    state.session.active.streaming = true;
    state.session.active.busy = true;
    let result = handle(Intent::NormalEscape, &mut state);
    assert_eq!(
        result.message_names,
        vec![
            "jinn_domain::protocol::CancelStream".to_owned(),
            "jinn_domain::protocol::CancelLifecycleCommand".to_owned(),
        ]
    );
    assert!(!state.session.active.streaming);
    assert!(!state.session.active.busy);
    assert!(!state.frontend.cancel_stream_prompt);
}

#[test]
fn cancel_stream_prompt_other_intent_dismisses() {
    let mut state = AppState::default();
    state.frontend.cancel_stream_prompt = true;
    let _result = handle(Intent::InsertChar { ch: 'a' }, &mut state);
    assert!(!state.frontend.cancel_stream_prompt);
}

#[test]
fn cancel_stream_prompt_not_showing_returns_none() {
    let mut state = AppState::default();
    state.frontend.cancel_stream_prompt = false;
    let _result = handle(Intent::NormalEscape, &mut state);
    assert!(!state.frontend.cancel_stream_prompt);
}

#[test]
fn normal_escape_while_streaming_raises_cancel_prompt() {
    let mut state = AppState::default();
    state.session.active.streaming = true;
    let result = handle(Intent::NormalEscape, &mut state);
    assert!(state.frontend.cancel_stream_prompt);
    assert!(result.message_names.is_empty());
}

#[test]
fn close_session_prompt_sidebar_close_confirms() {
    let mut state = AppState::default();
    state.frontend.close_session_prompt = true;
    let _result = handle(Intent::SidebarSessionClose, &mut state);
    assert!(!state.frontend.close_session_prompt);
}

#[test]
fn close_session_prompt_confirm_emits_close_session() {
    let mut state = AppState::default();
    state.frontend.close_session_prompt = true;
    let result = handle(Intent::SidebarSessionClose, &mut state);
    assert_eq!(result.message_names, vec!["jinn_domain::protocol::CloseSession".to_owned()]);
}

#[test]
fn close_session_prompt_confirm_on_busy_session_emits_nothing() {
    let mut state = AppState::default();
    state.frontend.close_session_prompt = true;
    state.session.active.busy = true;
    let result = handle(Intent::SidebarSessionClose, &mut state);
    assert!(result.message_names.is_empty());
    assert!(!state.frontend.close_session_prompt);
}

#[test]
fn sidebar_session_close_first_press_raises_prompt() {
    let mut state = AppState::default();
    let result = handle(Intent::SidebarSessionClose, &mut state);
    assert!(state.frontend.close_session_prompt);
    assert!(result.message_names.is_empty());
}

#[test]
fn close_session_prompt_other_intent_dismisses() {
    let mut state = AppState::default();
    state.frontend.close_session_prompt = true;
    let _result = handle(Intent::ScrollUp, &mut state);
    assert!(!state.frontend.close_session_prompt);
}

#[test]
fn cancel_stream_prompt_noop_dismisses() {
    let mut state = AppState::default();
    state.frontend.cancel_stream_prompt = true;
    let result = handle(Intent::NoOp, &mut state);
    assert!(!state.frontend.cancel_stream_prompt);
    assert!(
        !result.message_names.iter().any(|n| n.contains("CancelStream")),
        "should not emit CancelStream: {:?}",
        result.message_names
    );
}

#[test]
fn close_session_prompt_noop_dismisses() {
    let mut state = AppState::default();
    state.frontend.close_session_prompt = true;
    let _result = handle(Intent::NoOp, &mut state);
    assert!(!state.frontend.close_session_prompt);
}

#[test]
fn noop_is_empty_when_no_prompt() {
    let mut state = AppState::default();
    let result = handle(Intent::NoOp, &mut state);
    assert!(result.message_names.is_empty());
}

#[test]
fn active_session_changed_emitted_on_session_switch() {
    let mut state = AppState::default();
    let first_id = state.session.active_session_id();
    let mut second = ChatSessionState::new(SessionId { id: 7 });
    second.push_entry(ChatEntry::user("second session"));
    second.set_selected_entry_index(0);
    std::mem::swap(&mut state.session.active, &mut second);
    state.session.inactive.push(second);
    state.session.active.set_selected_entry_index(0);
    let result = handle(Intent::NewSessionFromEntry, &mut state);
    assert_ne!(state.session.active_session_id(), first_id);
    assert_eq!(
        result.message_names.last().map(String::as_str),
        Some("jinn_domain::protocol::ActiveSessionChanged")
    );
}

#[test]
fn new_session_from_entry_through_handler_announces_creation_then_switch() {
    let mut state = AppState::default();
    state.active_session_mut().push_entry(ChatEntry::user("a metaprompt"));
    state.active_session_mut().select_next_entry();
    let result = handle(Intent::NewSessionFromEntry, &mut state);
    let names: Vec<&str> = result.message_names.iter().map(String::as_str).collect();
    assert_eq!(
        names,
        vec![
            "jinn_domain::protocol::SessionCreated",
            "jinn_domain::protocol::PushChatEntry",
            "jinn_domain::protocol::ActiveSessionChanged",
        ]
    );
}

#[test]
fn select_next_on_unchanged_session_announces_nothing() {
    let mut state = AppState::default();
    state.active_session_mut().push_entry(ChatEntry::user("a"));
    state.active_session_mut().push_entry(ChatEntry::user("b"));
    let before = state.session.active_session_id();
    let result = handle(Intent::ChatEntrySelectNext, &mut state);
    assert_eq!(state.session.active_session_id(), before);
    assert!(!result.message_names.iter().any(|n| n.contains("ActiveSessionChanged")));
}

#[test]
fn handle_clears_previous_signals_and_hint() {
    let mut state = AppState::default();
    state.frontend.tui_signals.toggle_whichkey = true;
    state.frontend.tui_signals.yank_text = Some("old".to_owned());
    state.frontend.status_hint = Some("hint".to_owned());
    let _result = handle(Intent::NoOp, &mut state);
    assert!(!state.frontend.tui_signals.toggle_whichkey);
    assert!(state.frontend.tui_signals.yank_text.is_none());
    assert!(state.frontend.status_hint.is_none());
}

#[test]
fn ctrl_clear_in_empty_rename_input_leaves_it() {
    let mut state = AppState::default();
    state.frontend.scope_stack.push(FocusScope::RenameSessionInput);
    state.frontend.rename_session_input = rename_input("", 0);
    let result = handle(Intent::CtrlClear, &mut state);
    assert!(matches!(state.frontend.scope_stack.current(), FocusScope::Input));
    assert!(result.message_names.is_empty());
}

#[test]
fn ctrl_clear_in_filled_rename_input_clears_it() {
    let mut state = AppState::default();
    state.frontend.scope_stack.push(FocusScope::RenameSessionInput);
    state.frontend.rename_session_input = rename_input("abc", 2);
    let _result = handle(Intent::CtrlClear, &mut state);
    assert!(matches!(state.frontend.scope_stack.current(), FocusScope::RenameSessionInput));
    assert!(state.frontend.rename_session_input.text.input.is_empty());
}

#[test]
fn switch_tab_without_tabs_returns_to_chat() {
    let mut state = AppState::default();
    state.frontend.scope_stack.push(FocusScope::Input);
    let _result = handle(Intent::SwitchTab, &mut state);
    assert!(matches!(state.frontend.scope_stack.base(), FocusScope::Normal));
    assert!(state.frontend.scope_stack.overlays.is_empty());
}

#[test]
fn switch_tab_cycles_through_registered_tabs() {
    let mut slices = Slices::new();
    slices.tabs.push(dashboard_scope());
    slices.tabs.push(SliceScopeId::new("other", "tab"));
    let routes = KeyRoutes::new();
    let mut state = AppState::default();

    IntentHandler::handle(&Intent::SwitchTab, &mut state, &slices, &routes);
    assert!(matches!(state.frontend.scope_stack.base(), FocusScope::Dynamic(id) if id.namespace == "dashboard"));

    IntentHandler::handle(&Intent::SwitchTab, &mut state, &slices, &routes);
    assert!(matches!(state.frontend.scope_stack.base(), FocusScope::Dynamic(id) if id.namespace == "other"));

    IntentHandler::handle(&Intent::SwitchTab, &mut state, &slices, &routes);
    assert!(matches!(state.frontend.scope_stack.base(), FocusScope::Normal));
}

#[test]
fn switch_tab_closes_terminal_overlay() {
    let mut state = AppState::default();
    state.frontend.scope_stack.push(FocusScope::TerminalView);
    let _result = handle(Intent::SwitchTab, &mut state);
    assert!(matches!(state.frontend.scope_stack.current(), FocusScope::Input));
}

#[test]
fn routed_dynamic_intent_emits_dashboard_nav() {
    let mut routes = KeyRoutes::new();
    attach_dashboard_rows(&mut routes);
    let mut state = AppState::default();
    state.frontend.cancel_stream_prompt = true;
    let intent = Intent::Dynamic(DynamicIntent {
        scope: dashboard_scope(),
        action: "nav-down".to_owned(),
        display: "dashboard nav".to_owned(),
    });
    let result = IntentHandler::handle(&intent, &mut state, &empty_slices(), &routes);
    assert_eq!(result.message_names, vec!["jinn_domain::dashboard_nav::DashboardNav".to_owned()]);
    assert!(state.frontend.cancel_stream_prompt, "a routed intent never reaches the prompts");
}

#[test]
fn unrouted_dynamic_intent_is_inert() {
    let mut state = AppState::default();
    let intent = Intent::Dynamic(DynamicIntent {
        scope: dashboard_scope(),
        action: "nav-down".to_owned(),
        display: "dashboard nav".to_owned(),
    });
    let result = handle(intent, &mut state);
    assert!(result.message_names.is_empty());
}

#[test]
fn another_intent_ends_the_ignore_sweep() {
    let mut state = AppState::default();
    for t in ["a", "b", "c"] {
        state.active_session_mut().push_entry(ChatEntry::user(t));
    }
    state.active_session_mut().set_selected_entry_index(0);
    let _ = handle(Intent::ChatEntryIgnoreSelected, &mut state);
    assert!(state.session.active.ignore_sweep.is_some());
    let _ = handle(Intent::ScrollUp, &mut state);
    assert!(state.session.active.ignore_sweep.is_none());
}

#[test]
fn escape_confirming_cancel_leaves_close_prompt_shown() {
    let mut state = AppState::default();
    state.frontend.cancel_stream_prompt = true;
    state.frontend.close_session_prompt = true;
    let result = handle(Intent::NormalEscape, &mut state);
    assert!(!state.frontend.cancel_stream_prompt);
    assert!(state.frontend.close_session_prompt);
    assert_eq!(result.message_names, vec!["jinn_domain::protocol::CancelStream".to_owned()]);
}

#[test]
fn other_intent_dismisses_archive_tree_prompt() {
    let mut state = AppState::default();
    state.frontend.archive_tree_prompt = Some(ArchiveTreePrompt::Confirm { action: TreePromptAction::Archive });
    let result = handle(Intent::ScrollUp, &mut state);
    assert!(state.frontend.archive_tree_prompt.is_none());
    assert!(result.message_names.is_empty());
}

#[test]
fn sibling_tree_key_dismisses_archive_tree_prompt() {
    let mut state = AppState::default();
    state.frontend.archive_tree_prompt = Some(ArchiveTreePrompt::Confirm { action: TreePromptAction::Archive });
    let _result = handle(Intent::SidebarSessionTeardownTree, &mut state);
    assert!(state.frontend.archive_tree_prompt.is_none());
}

#[test]
fn own_tree_key_leaves_archive_tree_prompt_for_its_check() {
    let mut state = AppState::default();
    state.frontend.archive_tree_prompt = Some(ArchiveTreePrompt::Busy);
    let _result = handle(Intent::SidebarSessionArchiveTree, &mut state);
    assert_eq!(state.frontend.archive_tree_prompt, Some(ArchiveTreePrompt::Busy));
}
