use jinn_domain::app_state::AppState;
use jinn_domain::archive_tree::{try_handle_archive_tree_prompt, ArchiveTreeError, ArchiveTreePrompt, TreePromptAction};
use jinn_domain::intent::Intent;
use jinn_domain::intent_result::Message;
use jinn_domain::session::SessionId;

fn with_prompt(p: ArchiveTreePrompt) -> AppState {
    let mut state = AppState::default();
    state.frontend.archive_tree_prompt = Some(p);
    state
}

fn members() -> Result<Vec<SessionId>, ArchiveTreeError> {
    Ok(vec![SessionId { id: 7 }, SessionId { id: 8 }])
}

#[test]
fn archive_prompt_not_showing_returns_none() {
    let mut state = AppState::default();
    let r = try_handle_archive_tree_prompt(&Intent::SidebarSessionArchiveTree, &mut state, members());
    assert!(r.is_none());
    assert!(state.frontend.archive_tree_prompt.is_none());
}

#[test]
fn archive_prompt_confirm_emits_archive_for_root() {
    let mut state = with_prompt(ArchiveTreePrompt::Confirm { action: TreePromptAction::Archive });
    let r = try_handle_archive_tree_prompt(&Intent::SidebarSessionArchiveTree, &mut state, members()).unwrap();
    assert_eq!(r.message_names.len(), 1);
    assert!(matches!(r.messages[0], Message::ArchiveSessionTree { root } if root == SessionId { id: 7 }));
    assert!(state.frontend.archive_tree_prompt.is_none());
}

#[test]
fn teardown_prompt_confirm_emits_teardown_for_root() {
    let mut state = with_prompt(ArchiveTreePrompt::Confirm { action: TreePromptAction::TeardownAndArchive });
    let r = try_handle_archive_tree_prompt(&Intent::SidebarSessionTeardownTree, &mut state, members()).unwrap();
    assert!(matches!(r.messages[..], [Message::TeardownSessionTree { root }] if root == SessionId { id: 7 }));
    assert!(r.message_names[0].contains("TeardownSessionTree"));
}

#[test]
fn archive_prompt_other_key_dismisses_and_falls_through() {
    let mut state = with_prompt(ArchiveTreePrompt::Confirm { action: TreePromptAction::Archive });
    let r = try_handle_archive_tree_prompt(&Intent::ScrollUp, &mut state, members());
    assert!(r.is_none());
    assert!(state.frontend.archive_tree_prompt.is_none());
}

#[test]
fn archive_prompt_sibling_tree_key_dismisses() {
    let mut state = with_prompt(ArchiveTreePrompt::Confirm { action: TreePromptAction::Archive });
    let r = try_handle_archive_tree_prompt(&Intent::SidebarSessionTeardownTree, &mut state, members());
    assert!(r.is_none());
    assert!(state.frontend.archive_tree_prompt.is_none());
}

#[test]
fn archive_prompt_busy_subtree_turns_into_busy_notice() {
    let mut state = with_prompt(ArchiveTreePrompt::Confirm { action: TreePromptAction::Archive });
    let r = try_handle_archive_tree_prompt(
        &Intent::SidebarSessionArchiveTree,
        &mut state,
        Err(ArchiveTreeError::SubtreeBusy),
    )
    .unwrap();
    assert!(r.messages.is_empty());
    assert!(r.scope_signal.is_none());
    assert_eq!(state.frontend.archive_tree_prompt, Some(ArchiveTreePrompt::Busy));
}

#[test]
fn archive_prompt_vanished_selection_dismisses() {
    let mut state = with_prompt(ArchiveTreePrompt::Confirm { action: TreePromptAction::Archive });
    let r = try_handle_archive_tree_prompt(
        &Intent::SidebarSessionArchiveTree,
        &mut state,
        Err(ArchiveTreeError::NoSelection),
    );
    assert!(r.is_none());
    assert!(state.frontend.archive_tree_prompt.is_none());
}

#[test]
fn busy_notice_dismissed_by_non_tree_key() {
    let mut state = with_prompt(ArchiveTreePrompt::Busy);
    let r = try_handle_archive_tree_prompt(&Intent::NoOp, &mut state, members());
    assert!(r.is_none());
    assert!(state.frontend.archive_tree_prompt.is_none());
}

#[test]
fn busy_notice_tree_key_confirms_that_key() {
    let mut state = with_prompt(ArchiveTreePrompt::Busy);
    let r = try_handle_archive_tree_prompt(&Intent::SidebarSessionTeardownTree, &mut state, members()).unwrap();
    assert!(matches!(r.messages[..], [Message::TeardownSessionTree { .. }]));
}

#[test]
fn archive_prompt_empty_members_keeps_prompt() {
    let mut state = with_prompt(ArchiveTreePrompt::Confirm { action: TreePromptAction::Archive });
    let r = try_handle_archive_tree_prompt(&Intent::SidebarSessionArchiveTree, &mut state, Ok(Vec::new()));
    assert!(r.is_none());
    assert_eq!(state.frontend.archive_tree_prompt, Some(ArchiveTreePrompt::Confirm { action: TreePromptAction::Archive }));
}
