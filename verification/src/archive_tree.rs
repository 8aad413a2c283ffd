//! The sidebar's tree-action confirmation prompt: archiving a session and
//! its descendants (`A`), or tearing them down and archiving them (`X`),
//! asks for a second press of the same key.

use vstd::prelude::*;
use crate::app_state::{AppState, FrontendState};
use crate::intent::Intent;
use crate::intent_result::{IntentResult, Message};
use crate::session::SessionId;

verus! {

/// What a tree key asks for.
#[derive(Debug, Clone, Copy, PartialEq, Eq, Structural)]
pub enum TreePromptAction {
    /// Archive the session and its descendants.
    Archive,
    /// Tear the sessions down, then archive them.
    TeardownAndArchive,
}

/// The prompt the sidebar shows.
#[derive(Debug, Clone, Copy, PartialEq, Eq, Structural)]
pub enum ArchiveTreePrompt {
    /// Press the same key again to carry out `action`.
    Confirm { action: TreePromptAction },
    /// A session of the subtree is busy; the action cannot run now.
    Busy,
}

/// Why the selected subtree cannot be acted on.
#[derive(Debug, Clone, Copy, PartialEq, Eq, Structural)]
pub enum ArchiveTreeError {
    /// The sidebar's selection is not in the sessions section.
    WrongSection,
    /// Nothing is selected.
    NoSelection,
    /// The selected row is not a session.
    NotASession,
    /// A session of the subtree is busy.
    SubtreeBusy,
}

/// The tree action a key asks for, if it is a tree key.
pub open spec fn spec_pressed(intent: Intent) -> Option<TreePromptAction> {
    match intent {
        Intent::SidebarSessionArchiveTree => Some(TreePromptAction::Archive),
        Intent::SidebarSessionTeardownTree => Some(TreePromptAction::TeardownAndArchive),
        _ => None,
    }
}

/// The tree action `intent` asks for, if it is a tree key.
pub fn pressed_action(intent: &Intent) -> (r: Option<TreePromptAction>)
    ensures
        r == spec_pressed(*intent),
{
    match intent {
        Intent::SidebarSessionArchiveTree => Some(TreePromptAction::Archive),
        Intent::SidebarSessionTeardownTree => Some(TreePromptAction::TeardownAndArchive),
        _ => None,
    }
}

/// The message that carries out `action` on the subtree rooted at `root`.
pub open spec fn spec_tree_message(action: TreePromptAction, root: SessionId) -> Message {
    match action {
        TreePromptAction::Archive => Message::ArchiveSessionTree { root },
        TreePromptAction::TeardownAndArchive => Message::TeardownSessionTree { root },
    }
}

/// `s` with the tree prompt set to `p`.
pub open spec fn tree_prompt_set(s: AppState, p: Option<ArchiveTreePrompt>) -> AppState {
    AppState { frontend: FrontendState { archive_tree_prompt: p, ..s.frontend }, ..s }
}

/// The second press of the prompt's key, after the subtree was checked
/// again (`check`: the subtree's sessions, root first, or why it cannot be
/// acted on).
pub open spec fn tree_confirm_effect(
    action: TreePromptAction,
    pre: AppState,
    post: AppState,
    r: Option<IntentResult>,
    check: Result<Seq<SessionId>, ArchiveTreeError>,
) -> bool {
    match check {
        Ok(members) => if members.len() == 0 {
            post == pre && r is None
        } else {
            &&& post == tree_prompt_set(pre, None)
            &&& r matches Some(res) && res.scope_signal is None && res.messages@ == seq![
                spec_tree_message(action, members[0]),
            ]
        },
        Err(ArchiveTreeError::SubtreeBusy) => {
            &&& post == tree_prompt_set(pre, Some(ArchiveTreePrompt::Busy))
            &&& r matches Some(res) && res.is_empty_result()
        },
        Err(_) => post == tree_prompt_set(pre, None) && r is None,
    }
}

/// What the tree prompt intercept does with `intent`. With no prompt it
/// does nothing. Any key but a tree key dismisses the prompt and falls
/// through (`None`); so does the other tree key while a confirmation shows.
/// The prompt's own key (either tree key over the busy notice) confirms,
/// as [`tree_confirm_effect`] says.
pub open spec fn archive_prompt_effect(
    intent: Intent,
    pre: AppState,
    post: AppState,
    r: Option<IntentResult>,
    check: Result<Seq<SessionId>, ArchiveTreeError>,
) -> bool {
    let pressed = spec_pressed(intent);
    match pre.frontend.archive_tree_prompt {
        None => post == pre && r is None,
        Some(ArchiveTreePrompt::Busy) => match pressed {
            None => post == tree_prompt_set(pre, None) && r is None,
            Some(action) => tree_confirm_effect(action, pre, post, r, check),
        },
        Some(ArchiveTreePrompt::Confirm { action }) => if pressed == Some(action) {
            tree_confirm_effect(action, pre, post, r, check)
        } else {
            post == tree_prompt_set(pre, None) && r is None
        },
    }
}

/// The state after the tree prompt saw `intent`, for every key but the
/// prompt's own: any other key dismisses it (the busy notice gives way to
/// any key but a tree key). The prompt's own key leaves it for
/// [`try_handle_archive_tree_prompt`], which needs the subtree's check.
pub open spec fn archive_prompt_settled(intent: Intent, s: AppState) -> AppState {
    match s.frontend.archive_tree_prompt {
        None => s,
        Some(ArchiveTreePrompt::Busy) => if spec_pressed(intent) is None {
            tree_prompt_set(s, None)
        } else {
            s
        },
        Some(ArchiveTreePrompt::Confirm { action }) => if spec_pressed(intent) == Some(action) {
            s
        } else {
            tree_prompt_set(s, None)
        },
    }
}

/// Dismisses the tree prompt unless `intent` is its own key.
pub fn settle_archive_prompt(intent: &Intent, state: &mut AppState)
    ensures
        *final(state) == archive_prompt_settled(*intent, *old(state)),
{
    let pressed = pressed_action(intent);
    let keep = match state.frontend.archive_tree_prompt {
        None => true,
        Some(ArchiveTreePrompt::Busy) => pressed.is_some(),
        Some(ArchiveTreePrompt::Confirm { action }) => match pressed {
            Some(a) => a == action,
            None => false,
        },
    };
    if !keep {
        state.frontend.archive_tree_prompt = None;
    }
}

/// The tree-action prompt intercept. `check` is the subtree's validation
/// as it stands now: its sessions, root first, or the reason it cannot be
/// acted on. A confirmed action emits `ArchiveSessionTree` or
/// `TeardownSessionTree` for the root and closes the prompt; a subtree that
/// became busy turns the prompt into the busy notice and consumes the key;
/// a vanished selection dismisses the prompt and lets the key through.
pub fn try_handle_archive_tree_prompt(
    intent: &Intent,
    state: &mut AppState,
    check: Result<Vec<SessionId>, ArchiveTreeError>,
) -> (r: Option<IntentResult>)
    ensures
        archive_prompt_effect(
            *intent,
            *old(state),
            *final(state),
            r,
            match check {
                Ok(v) => Ok(v@),
                Err(e) => Err(e),
            },
        ),
        r matches Some(res) ==> res.wf(),
        final(state).wf() == old(state).wf(),
{
    let prompt = match state.frontend.archive_tree_prompt {
        Some(p) => p,
        None => return None,
    };
    let pressed = pressed_action(intent);
    let action = match prompt {
        ArchiveTreePrompt::Confirm { action } => action,
        ArchiveTreePrompt::Busy => match pressed {
            Some(a) => a,
            None => {
                state.frontend.archive_tree_prompt = None;
                return None;
            },
        },
    };
    let own_key = match pressed {
        Some(a) => a == action,
        None => false,
    };
    if !own_key {
        state.frontend.archive_tree_prompt = None;
        return None;
    }
    match check {
        Ok(members) => {
            if members.len() == 0 {
                return None;
            }
            let root = members[0];
            state.frontend.archive_tree_prompt = None;
            let message = match action {
                TreePromptAction::Archive => Message::ArchiveSessionTree { root },
                TreePromptAction::TeardownAndArchive => Message::TeardownSessionTree { root },
            };
            Some(IntentResult::new_message(message))
        },
        Err(ArchiveTreeError::SubtreeBusy) => {
            state.frontend.archive_tree_prompt = Some(ArchiveTreePrompt::Busy);
            Some(IntentResult::empty())
        },
        Err(_) => {
            state.frontend.archive_tree_prompt = None;
            None
        },
    }
}

} // verus!
