//! The user intents that the intent handler processes.

use vstd::prelude::*;
use crate::intent_result::SliceScopeId;
use crate::session::SessionId;

verus! {

/// An intent addressed to a slice's own action, by scope and action name.
#[derive(Debug)]
pub struct DynamicIntent {
    pub scope: SliceScopeId,
    pub action: String,
    pub display: String,
}

/// What the user asked for, decoded from a key press or a paste.
#[derive(Debug)]
pub enum Intent {
    InsertChar { ch: char },
    DeleteGrapheme,
    DeleteGraphemeForward,
    SubmitMessage,
    ToggleInputMode,
    MoveCursorLeft,
    MoveCursorRight,
    MoveCursorToStart,
    MoveCursorToEnd,
    PasteText { text: String },
    ScrollUp,
    ScrollDown,
    Quit,
    Interrupt { session_id: Option<SessionId> },
    EnterInsertMode,
    EnterNormalMode,
    ToggleWhichkey,
    ToggleAuditPopup,
    NormalEscape,
    NoOp,
    CtrlClear,
    SidebarSessionClose,
    SidebarSessionArchiveTree,
    SidebarSessionTeardownTree,
    ChatEntrySelectNext,
    ChatEntrySelectPrev,
    ChatEntryJumpNextCompaction,
    ChatEntryJumpPrevCompaction,
    ChatEntryJumpNextUserEntry,
    ChatEntryJumpPrevUserEntry,
    ChatEntryJumpNextPinned,
    ChatEntryJumpPrevPinned,
    ChatEntryPinSelected,
    ExpandToolEntry,
    ToggleIgnoredBlockVisibility,
    ForkFromEntry,
    NewSessionFromEntry,
    YankSelectedEntry,
    ChatEntryIgnoreSelected,
    ChatEntryResetSelected,
    RenameSessionLeave,
    RenameInsertChar { ch: char },
    RenameCursorLeft,
    RenameCursorRight,
    RenameDeleteGrapheme,
    RenameDeleteForward,
    SwitchTab,
    Dynamic(DynamicIntent),
}

} // verus!
