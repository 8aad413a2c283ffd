use jinn_domain::app_state::AppState;
use jinn_domain::intent_result::Message;
use jinn_domain::selection::{
    handle_expand_tool_entry, handle_fork_from_entry, handle_ignore_selected, handle_ignore_selected_at,
    handle_jump_next_entry, handle_jump_prev_entry, handle_new_session_from_entry, handle_pin_selected,
    handle_reset_selected, handle_select_next, handle_select_prev, handle_toggle_ignored_block, handle_yank_selected,
    EntryPredicate,
};
use jinn_domain::session::{ChatEntry, ChatEntryKind, ContextOverride, PinPosition, VisualItem};

fn with_users(texts: &[&str]) -> AppState {
    let mut state = AppState::default();
    for t in texts {
        state.active_session_mut().push_entry(ChatEntry::user(t));
    }
    state
}

fn overrides(state: &AppState) -> Vec<ContextOverride> {
    state.active_session().history().iter().map(|e| e.context_override).collect()
}

#[test]
fn chat_entry_select_next_increments_index() {
    let mut state = with_users(&["a", "b"]);
    state.active_session_mut().select_prev_entry();
    assert_eq!(state.active_session().selected_entry_index(), Some(0));
    let _result = handle_select_next(&mut state);
    assert_eq!(state.active_session().selected_entry_index(), Some(1));
}

#[test]
fn chat_entry_select_next_returns_no_commands() {
    let mut state = with_users(&["a", "b"]);
    state.active_session_mut().select_prev_entry();
    let result = handle_select_next(&mut state);
    assert!(result.message_names.is_empty());
}

#[test]
fn chat_entry_select_next_clamps_at_last() {
    let mut state = with_users(&["a", "b"]);
    let _result = handle_select_next(&mut state);
    assert_eq!(state.active_session().selected_entry_index(), Some(1));
}

#[test]
fn chat_entry_select_prev_decrements_index() {
    let mut state = with_users(&["a", "b"]);
    state.active_session_mut().select_prev_entry();
    let _result = handle_select_prev(&mut state);
    assert_eq!(state.active_session().selected_entry_index(), Some(0));
}

#[test]
fn chat_entry_select_prev_returns_no_commands() {
    let mut state = with_users(&["a", "b"]);
    let result = handle_select_prev(&mut state);
    assert!(result.message_names.is_empty());
}

#[test]
fn select_next_pages_viewport_from_last_visible_row() {
    let mut state = with_users(&["a", "b", "c", "d", "e"]);
    state.active_session_mut().viewport_height = 2;
    state.active_session_mut().set_selected_entry_index(1);
    let _result = handle_select_next(&mut state);
    assert_eq!(state.active_session().selected_entry_index(), Some(2));
    assert_eq!(state.active_session().scroll_offset, 2);
}

#[test]
fn chat_entry_pin_selected_returns_pin_command() {
    let mut state = with_users(&["hello"]);
    let result = handle_pin_selected(&mut state);
    assert!(result.message_names.iter().any(|n| n.contains("PinChatEntry")));
    assert!(matches!(result.messages[0], Message::PinChatEntry { position: PinPosition::Relative, .. }));
}

#[test]
fn chat_entry_pin_selected_noop_with_empty_history() {
    let mut state = AppState::default();
    let result = handle_pin_selected(&mut state);
    assert!(result.message_names.is_empty());
}

#[test]
fn toggle_pin_selected_returns_unpin_command_when_pinned() {
    let mut state = AppState::default();
    let mut entry = ChatEntry::user("hello");
    entry.pin_position = Some(PinPosition::Top);
    state.active_session_mut().push_entry(entry);
    let result = handle_pin_selected(&mut state);
    assert!(result.message_names.iter().any(|n| n.contains("UnpinChatEntry")));
}

#[test]
fn expand_tool_entry_toggles_expanded_state() {
    let mut state = AppState::default();
    state.active_session_mut().push_entry(ChatEntry::tool_result("id", "bash", "output"));
    let entry_id = state.active_session().selected_entry_id().expect("selected");
    let result = handle_expand_tool_entry(&mut state);
    assert!(state.active_session().is_entry_expanded(entry_id));
    assert!(result.message_names.is_empty());
    let _result = handle_expand_tool_entry(&mut state);
    assert!(!state.active_session().is_entry_expanded(entry_id));
}

#[test]
fn expand_tool_entry_noop_with_non_tool_entry() {
    let mut state = with_users(&["hello"]);
    let entry_id = state.active_session().selected_entry_id().expect("selected");
    let _result = handle_expand_tool_entry(&mut state);
    assert!(!state.active_session().is_entry_expanded(entry_id));
}

#[test]
fn fork_from_entry_uses_selected_index_as_ordinal() {
    let mut state = with_users(&["a", "b", "c"]);
    state.active_session_mut().set_selected_entry_index(1);
    let result = handle_fork_from_entry(&mut state);
    assert!(matches!(result.messages[0], Message::SessionForkRequested { at_ordinal: 1, .. }));
    assert_eq!(state.session.loading, Some(state.session.active_session_id()));
}

#[test]
fn fork_from_entry_noop_with_empty_history() {
    let mut state = AppState::default();
    let result = handle_fork_from_entry(&mut state);
    assert!(result.message_names.is_empty());
    assert!(state.session.loading.is_none());
}

#[test]
fn yank_selected_sets_yank_text_when_entry_selected() {
    let mut state = AppState::default();
    state.active_session_mut().push_entry(ChatEntry::assistant("the answer"));
    let result = handle_yank_selected(&mut state);
    assert_eq!(state.frontend.tui_signals.yank_text.as_deref(), Some("the answer"));
    assert!(result.message_names.is_empty());
    assert_eq!(state.active_session().selected_entry_index(), Some(0));
}

#[test]
fn yank_selected_noop_with_no_selection() {
    let mut state = AppState::default();
    let _result = handle_yank_selected(&mut state);
    assert!(state.frontend.tui_signals.yank_text.is_none());
}

#[test]
fn handle_ignore_selected_toggles_false_to_true() {
    let mut state = with_users(&["hello"]);
    let result = handle_ignore_selected(&mut state);
    assert_eq!(overrides(&state), vec![ContextOverride::ForcedExclude]);
    assert!(result.message_names.iter().any(|n| n.contains("PersistSession")));
    assert!(result.message_names.iter().any(|n| n.contains("ContextOverrideChanged")));
}

#[test]
fn handle_ignore_selected_noop_empty_history() {
    let mut state = AppState::default();
    let result = handle_ignore_selected(&mut state);
    assert!(result.message_names.is_empty());
}

#[test]
fn sweep_presses_apply_captured_override_down_the_log() {
    let mut state = with_users(&["a", "b", "c"]);
    state.active_session_mut().set_selected_entry_index(0);
    let _ = handle_ignore_selected_at(&mut state, 1_000);
    assert_eq!(state.active_session().selected_entry_index(), Some(1));
    let _ = handle_ignore_selected_at(&mut state, 1_050);
    assert_eq!(state.active_session().selected_entry_index(), Some(2));
    let result = handle_ignore_selected_at(&mut state, 1_100);
    assert_eq!(state.active_session().selected_entry_index(), Some(2));
    assert_eq!(overrides(&state), vec![ContextOverride::ForcedExclude; 3]);
    assert!(result.message_names.iter().any(|n| n.contains("PersistSession")));
}

#[test]
fn sweep_expired_resets_to_toggle() {
    let mut state = with_users(&["a", "b"]);
    state.active_session_mut().set_selected_entry_index(0);
    let _ = handle_ignore_selected_at(&mut state, 1_000);
    assert_eq!(state.active_session().selected_entry_index(), Some(1));
    let _ = handle_ignore_selected_at(&mut state, 1_200);
    assert_eq!(overrides(&state), vec![ContextOverride::ForcedExclude, ContextOverride::ForcedExclude]);
    let sweep = state.active_session_mut().take_ignore_sweep(1_250);
    assert_eq!(sweep, Some(ContextOverride::ForcedExclude));
}

#[test]
fn sweep_skips_pinned_entries() {
    let mut state = AppState::default();
    state.active_session_mut().push_entry(ChatEntry::user("a"));
    let mut pinned = ChatEntry::user("pinned");
    pinned.pin_position = Some(PinPosition::Top);
    state.active_session_mut().push_entry(pinned);
    state.active_session_mut().push_entry(ChatEntry::user("c"));
    state.active_session_mut().set_selected_entry_index(0);
    let _ = handle_ignore_selected_at(&mut state, 1_000);
    let _ = handle_ignore_selected_at(&mut state, 1_010);
    assert_eq!(overrides(&state)[1], ContextOverride::Default);
    assert_eq!(state.active_session().selected_entry_index(), Some(2));
    let _ = handle_ignore_selected_at(&mut state, 1_020);
    assert_eq!(overrides(&state)[2], ContextOverride::ForcedExclude);
}

#[test]
fn handle_reset_sets_forced_exclude_back_to_default() {
    let mut state = AppState::default();
    state.active_session_mut().push_entry(ChatEntry::user("a").with_context_override(ContextOverride::ForcedExclude));
    let result = handle_reset_selected(&mut state);
    assert_eq!(overrides(&state), vec![ContextOverride::Default]);
    assert_eq!(
        result.message_names,
        vec![
            "jinn_domain::protocol::PersistSession".to_owned(),
            "jinn_domain::protocol::ContextOverrideChanged".to_owned(),
        ]
    );
}

#[test]
fn handle_reset_is_noop_on_already_default_entry() {
    let mut state = with_users(&["a"]);
    let result = handle_reset_selected(&mut state);
    assert!(result.message_names.is_empty());
}

#[test]
fn handle_reset_advances_cursor() {
    let mut state = with_users(&["a", "b"]);
    state.active_session_mut().set_selected_entry_index(0);
    let _ = handle_reset_selected(&mut state);
    assert_eq!(state.active_session().selected_entry_index(), Some(1));
}

fn with_compactions() -> AppState {
    let mut state = AppState::default();
    let kinds = ["user", "compaction", "user", "compaction", "user"];
    for k in kinds {
        let entry = if k == "user" {
            ChatEntry::user("u")
        } else {
            let mut e = ChatEntry::user("c");
            e.kind = ChatEntryKind::Compaction { summary: "s".to_owned() };
            e
        };
        state.active_session_mut().push_entry(entry);
    }
    state
}

#[test]
fn jump_next_moves_to_next_compaction() {
    let mut state = with_compactions();
    state.active_session_mut().set_selected_entry_index(0);
    let result = handle_jump_next_entry(&mut state, EntryPredicate::Compaction);
    assert_eq!(state.active_session().selected_entry_index(), Some(1));
    assert!(result.message_names.is_empty());
}

#[test]
fn jump_prev_moves_to_prev_compaction() {
    let mut state = with_compactions();
    state.active_session_mut().set_selected_entry_index(4);
    let _ = handle_jump_prev_entry(&mut state, EntryPredicate::Compaction);
    assert_eq!(state.active_session().selected_entry_index(), Some(3));
}

#[test]
fn jump_next_noop_at_last_compaction() {
    let mut state = with_compactions();
    state.active_session_mut().set_selected_entry_index(3);
    let _ = handle_jump_next_entry(&mut state, EntryPredicate::Compaction);
    assert_eq!(state.active_session().selected_entry_index(), Some(3));
}

#[test]
fn jump_prev_anchors_on_last_entry_when_no_selection() {
    let mut state = with_compactions();
    state.active_session_mut().clear_selection();
    let _ = handle_jump_prev_entry(&mut state, EntryPredicate::Compaction);
    assert_eq!(state.active_session().selected_entry_index(), Some(3));
}

#[test]
fn jump_next_noop_when_history_empty() {
    let mut state = AppState::default();
    let _ = handle_jump_next_entry(&mut state, EntryPredicate::Pinned);
    assert_eq!(state.active_session().selected_entry_index(), None);
}

#[test]
fn new_session_from_entry_switches_active_session_on_user_entry() {
    let mut state = with_users(&["seed me"]);
    let first = state.session.active_session_id();
    let result = handle_new_session_from_entry(&mut state);
    assert_ne!(state.session.active_session_id(), first);
    assert_eq!(state.session.inactive.len(), 1);
    assert!(state.active_session().history().is_empty());
    match &result.messages[..] {
        [Message::SessionCreated { session_id: created }, Message::PushChatEntry { session_id, entry }] => {
            assert_eq!(*created, state.session.active_session_id());
            assert_eq!(*session_id, state.session.active_session_id());
            assert!(matches!(&entry.kind, ChatEntryKind::User(t) if t == "seed me"));
        },
        other => panic!("unexpected messages {other:?}"),
    }
}

fn with_selected_metaprompt() -> AppState {
    let mut state = AppState::default();
    state.active_session_mut().push_entry(ChatEntry::user("a metaprompt"));
    state.active_session_mut().select_next_entry();
    state
}

#[test]
fn new_session_from_entry_returns_push_chat_entry() {
    let mut state = with_selected_metaprompt();
    let result = handle_new_session_from_entry(&mut state);
    assert!(
        result.message_names.iter().any(|n| n.contains("PushChatEntry")),
        "expected PushChatEntry in message_names: {:?}",
        result.message_names
    );
}

#[test]
fn new_session_from_entry_emits_session_created() {
    let mut state = with_selected_metaprompt();
    let result = handle_new_session_from_entry(&mut state);
    assert!(
        result.message_names.iter().any(|n| n.contains("SessionCreated")),
        "expected SessionCreated in message_names: {:?}",
        result.message_names
    );
}

#[test]
fn new_session_from_entry_no_dispatch_command() {
    let mut state = with_selected_metaprompt();
    let result = handle_new_session_from_entry(&mut state);
    assert!(
        !result
            .message_names
            .iter()
            .any(|n| n.contains("EnqueueUserMessage") || n.contains("SendToLlmProvider")),
        "no dispatch expected, got: {:?}",
        result.message_names
    );
}

#[test]
fn new_session_from_entry_preserves_old_session_in_map() {
    let mut state = with_selected_metaprompt();
    let old_id = state.session.active_session_id();
    let _result = handle_new_session_from_entry(&mut state);
    assert_ne!(state.session.active_session_id(), old_id);
    assert!(state.session.contains(old_id));
}

#[test]
fn new_session_from_entry_inherits_active_session_cwd() {
    let mut state = AppState::default();
    state.active_session_mut().set_cwd("/tmp/inherited-project".to_owned());
    state.active_session_mut().push_entry(ChatEntry::user("a metaprompt"));
    state.active_session_mut().select_next_entry();
    let _result = handle_new_session_from_entry(&mut state);
    assert_eq!(state.active_session().cwd(), "/tmp/inherited-project");
}

#[test]
fn new_session_from_entry_noop_on_system_kind() {
    let mut state = AppState::default();
    let mut e = ChatEntry::user("x");
    e.kind = ChatEntryKind::System("sys".to_owned());
    state.active_session_mut().push_entry(e);
    let first = state.session.active_session_id();
    let result = handle_new_session_from_entry(&mut state);
    assert_eq!(state.session.active_session_id(), first);
    assert!(result.message_names.is_empty());
}

/// "a", fifteen excluded entries, "b".
fn with_ignored_run() -> AppState {
    let mut state = AppState::default();
    state.active_session_mut().push_entry(ChatEntry::user("a"));
    for _ in 0..15 {
        let mut entry = ChatEntry::user("ignored");
        entry.context_override = ContextOverride::ForcedExclude;
        state.active_session_mut().push_entry(entry);
    }
    state.active_session_mut().push_entry(ChatEntry::user("b"));
    state
}

#[test]
fn toggle_ignored_block_noop_with_no_selection() {
    let mut state = AppState::default();
    let result = handle_toggle_ignored_block(&mut state);
    assert!(result.message_names.is_empty());
}

#[test]
fn toggle_ignored_block_noop_with_non_ignored_entry() {
    let mut state = AppState::default();
    state.active_session_mut().push_entry(ChatEntry::user("hello"));
    state.active_session_mut().select_next_entry();
    let result = handle_toggle_ignored_block(&mut state);
    assert!(result.message_names.is_empty());
    assert!(state.active_session().shown_ignored_blocks.is_empty());
}

#[test]
fn toggle_ignored_block_expands_collapsed_block() {
    let mut state = with_ignored_run();
    state.active_session_mut().set_visual_items(vec![
        VisualItem::Entry(0),
        VisualItem::CollapsedIgnoredBlock { start: 1, end: 15 },
        VisualItem::Entry(16),
    ]);
    state.active_session_mut().set_selected_entry_index(1);
    let block_start_id = state.active_session().history()[1].id;
    assert!(!state.active_session().shown_ignored_blocks.contains(&block_start_id));
    let result = handle_toggle_ignored_block(&mut state);
    assert!(result.message_names.is_empty());
    assert!(state.active_session().shown_ignored_blocks.contains(&block_start_id));
}

#[test]
fn toggle_ignored_block_collapses_expanded_block() {
    let mut state = with_ignored_run();
    let block_start_id = state.active_session().history()[1].id;
    state.active_session_mut().set_visual_items((0..17).map(VisualItem::Entry).collect());
    state.active_session_mut().set_selected_entry_index(5);
    let _expand = handle_toggle_ignored_block(&mut state);
    assert!(state.active_session().shown_ignored_blocks.contains(&block_start_id));
    state.active_session_mut().set_selected_entry_index(5);
    let _collapse = handle_toggle_ignored_block(&mut state);
    assert!(!state.active_session().shown_ignored_blocks.contains(&block_start_id));
}

fn excluded_count(state: &AppState) -> usize {
    overrides(state).iter().filter(|o| **o == ContextOverride::ForcedExclude).count()
}

#[test]
fn sweep_advances_exactly_one_entry_across_multiple_presses() {
    let mut state = with_users(&["0", "1", "2", "3", "4", "5", "6", "7", "8", "9"]);
    state.active_session_mut().set_selected_entry_index(0);
    let mut override_events = 0;
    for press in 0..5 {
        let result = handle_ignore_selected_at(&mut state, 1_000 + 20 * press);
        override_events += result.message_names.iter().filter(|n| n.contains("ContextOverrideChanged")).count();
    }
    assert_eq!(excluded_count(&state), 5);
    assert_eq!(override_events, 5);
    assert_eq!(state.active_session().history()[5].context_override, ContextOverride::Default);
    assert_eq!(state.active_session_mut().take_ignore_sweep(1_090), Some(ContextOverride::ForcedExclude));
}

#[test]
fn new_session_from_entry_inherits_model_persona_and_effort() {
    let mut state = with_selected_metaprompt();
    state.active_session_mut().model = Some("large-v2".to_owned());
    state.active_session_mut().persona = Some("tutor".to_owned());
    state.active_session_mut().reasoning_effort = Some("high".to_owned());
    let _result = handle_new_session_from_entry(&mut state);
    assert!(state.active_session().history().is_empty());
    assert_eq!(state.active_session().model.as_deref(), Some("large-v2"));
    assert_eq!(state.active_session().persona.as_deref(), Some("tutor"));
    assert_eq!(state.active_session().reasoning_effort.as_deref(), Some("high"));
}

#[test]
fn new_session_seed_carries_the_new_sessions_next_id() {
    let mut state = with_selected_metaprompt();
    let result = handle_new_session_from_entry(&mut state);
    match &result.messages[..] {
        [_, Message::PushChatEntry { entry, .. }] => {
            assert_eq!(entry.id.id, state.active_session().next_entry_id);
            assert!(state.active_session().history().iter().all(|e| e.id != entry.id));
        },
        other => panic!("unexpected messages {other:?}"),
    }
}

#[test]
fn default_state_is_the_initial_one() {
    let state = AppState::default();
    assert_eq!(state.session.active_session_id().id, 0);
    assert_eq!(state.session.next_session_id, 1);
    assert!(state.session.inactive.is_empty());
    assert!(state.active_session().history().is_empty());
    assert_eq!(state.active_session().cwd(), "");
    assert!(state.frontend.archive_tree_prompt.is_none());
    assert!(!state.frontend.close_session_prompt);
}
