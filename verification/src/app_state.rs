//! The application state that intent handlers read and write: the sessions
//! (the active one and the others) and the frontend state (focus scopes,
//! text inputs, prompts, flags and signals for the terminal layer).

use vstd::prelude::*;
use vstd::string::*;
use crate::archive_tree::ArchiveTreePrompt;
use crate::intent_result::SliceScopeId;
use crate::line_input::LineInput;
use crate::session::{ChatInputState, ChatSessionState, SessionId, SessionView, is_fresh_session};

verus! {

/// The kinds of picker.
#[derive(Debug, Clone, Copy, PartialEq, Eq, Structural)]
pub enum PickerKind {
    Persona,
    Theme,
    Tool,
    Plugin,
    Skill,
    TaskList,
    Project,
    Model,
    Provider,
    Endpoint,
    SessionLifecycle,
}

/// Which surface has keyboard focus.
#[derive(Debug)]
pub enum FocusScope {
    Normal,
    Input,
    Picker { kind: PickerKind },
    ArgInput,
    RenameSessionInput,
    Sidebar,
    TerminalView,
    TerminalControl,
    /// A slice-registered scope (for example the dashboard tab).
    Dynamic(SliceScopeId),
}

impl FocusScope {
    /// A copy of this scope.
    pub fn copy(&self) -> (r: FocusScope)
        ensures
            r == *self,
    {
        match self {
            FocusScope::Normal => FocusScope::Normal,
            FocusScope::Input => FocusScope::Input,
            FocusScope::Picker { kind } => FocusScope::Picker { kind: *kind },
            FocusScope::ArgInput => FocusScope::ArgInput,
            FocusScope::RenameSessionInput => FocusScope::RenameSessionInput,
            FocusScope::Sidebar => FocusScope::Sidebar,
            FocusScope::TerminalView => FocusScope::TerminalView,
            FocusScope::TerminalControl => FocusScope::TerminalControl,
            FocusScope::Dynamic(id) => FocusScope::Dynamic(id.copy()),
        }
    }
}

/// The focus stack: a base scope (the current tab) with overlays on top.
#[derive(Debug)]
pub struct ScopeStack {
    pub base: FocusScope,
    pub overlays: Vec<FocusScope>,
}

impl ScopeStack {
    /// The scope with focus: the top overlay, else the base.
    pub open spec fn spec_current(&self) -> FocusScope {
        if self.overlays@.len() > 0 {
            self.overlays@.last()
        } else {
            self.base
        }
    }

    /// The chat tab with no overlays.
    pub fn new() -> (r: ScopeStack)
        ensures
            r.base is Normal,
            r.overlays@.len() == 0,
    {
        ScopeStack { base: FocusScope::Normal, overlays: Vec::new() }
    }

    /// The chat tab with the chat input focused, as the application starts.
    pub fn typing() -> (r: ScopeStack)
        ensures
            r.base is Normal,
            r.overlays@ == seq![FocusScope::Input],
    {
        let mut overlays = Vec::new();
        overlays.push(FocusScope::Input);
        ScopeStack { base: FocusScope::Normal, overlays }
    }

    /// The scope with focus.
    pub fn current(&self) -> (r: &FocusScope)
        ensures
            *r == self.spec_current(),
    {
        if self.overlays.len() > 0 {
            &self.overlays[self.overlays.len() - 1]
        } else {
            &self.base
        }
    }

    /// The base scope.
    pub fn base(&self) -> (r: &FocusScope)
        ensures
            *r == self.base,
    {
        &self.base
    }

    /// Pushes an overlay.
    pub fn push(&mut self, scope: FocusScope)
        ensures
            final(self).base == old(self).base,
            final(self).overlays@ == old(self).overlays@.push(scope),
    {
        self.overlays.push(scope);
    }

    /// Pops the top overlay; the base is never popped.
    pub fn pop(&mut self)
        ensures
            final(self).base == old(self).base,
            final(self).overlays@ == if old(self).overlays@.len() > 0 {
                old(self).overlays@.drop_last()
            } else {
                old(self).overlays@
            },
    {
        if self.overlays.len() > 0 {
            self.overlays.pop();
        }
    }

    /// Replaces the base scope and drops the overlays.
    pub fn swap_base(&mut self, base: FocusScope)
        ensures
            final(self).base == base,
            final(self).overlays@.len() == 0,
    {
        self.base = base;
        self.overlays.clear();
    }

    /// Drops the overlays.
    pub fn clear_overlays(&mut self)
        ensures
            final(self).base == old(self).base,
            final(self).overlays@.len() == 0,
    {
        self.overlays.clear();
    }
}

/// A picker and its filter text.
#[derive(Debug)]
pub struct PickerState {
    pub kind: PickerKind,
    pub filter: LineInput,
}

/// Signals for the terminal layer, cleared at the start of each intent.
#[derive(Debug)]
pub struct TuiSignals {
    pub toggle_whichkey: bool,
    /// Text to put on the system clipboard.
    pub yank_text: Option<String>,
}

impl TuiSignals {
    /// No signals.
    pub fn new() -> (r: TuiSignals)
        ensures
            !r.toggle_whichkey,
            r.yank_text is None,
    {
        TuiSignals { toggle_whichkey: false, yank_text: None }
    }

    /// Clears every signal.
    pub fn clear(&mut self)
        ensures
            !final(self).toggle_whichkey,
            final(self).yank_text is None,
    {
        self.toggle_whichkey = false;
        self.yank_text = None;
    }
}

/// The lifecycle argument input.
#[derive(Debug)]
pub struct ArgInputState {
    pub lifecycle_name: String,
    pub template_display: String,
    pub text: LineInput,
}

impl ArgInputState {
    /// An empty argument input.
    pub fn new() -> (r: ArgInputState)
        ensures
            r.lifecycle_name@ == Seq::<char>::empty(),
            r.template_display@ == Seq::<char>::empty(),
            r.text.wf(),
            r.text.input@ == Seq::<char>::empty(),
            r.text.cursor_pos == 0,
    {
        ArgInputState {
            lifecycle_name: String::new(),
            template_display: String::new(),
            text: LineInput::new(),
        }
    }
}

/// The session rename input.
#[derive(Debug)]
pub struct RenameSessionInputState {
    pub text: LineInput,
}

/// Discord preferences.
#[derive(Debug)]
pub struct DiscordPreferences {
    pub enabled: bool,
}

/// User preferences.
#[derive(Debug)]
pub struct Preferences {
    pub discord: DiscordPreferences,
}

/// Frontend state.
#[derive(Debug)]
pub struct FrontendState {
    pub should_quit: bool,
    pub audit_popup_visible: bool,
    pub tui_signals: TuiSignals,
    /// A transient hint in the status line.
    pub status_hint: Option<String>,
    pub scope_stack: ScopeStack,
    pub arg_input: ArgInputState,
    pub rename_session_input: RenameSessionInputState,
    pub picker: Option<PickerState>,
    pub cancel_stream_prompt: bool,
    pub close_session_prompt: bool,
    /// The sidebar's tree-action confirmation prompt, when it shows.
    pub archive_tree_prompt: Option<ArchiveTreePrompt>,
    pub preferences: Preferences,
}

impl FrontendState {
    /// The text inputs keep their cursors inside their text.
    pub open spec fn wf(&self) -> bool {
        &&& self.arg_input.text.wf()
        &&& self.rename_session_input.text.wf()
        &&& self.picker matches Some(p) ==> p.filter.wf()
    }
}

/// Session `new` runs with the working directory, model, persona and
/// reasoning effort of session `from`.
pub open spec fn inherits_setup(new: SessionView, from: SessionView) -> bool {
    &&& new.cwd == from.cwd
    &&& new.model == from.model
    &&& new.persona == from.persona
    &&& new.reasoning_effort == from.reasoning_effort
}

/// A copy of an optional string.
fn clone_opt(s: &Option<String>) -> (r: Option<String>)
    ensures
        r.deep_view() == s.deep_view(),
{
    match s {
        Some(t) => Some(t.clone()),
        None => None,
    }
}

/// The sessions: the active one and the others.
#[derive(Debug)]
pub struct SessionStore {
    pub active: ChatSessionState,
    pub inactive: Vec<ChatSessionState>,
    /// A session being loaded, if any.
    pub loading: Option<SessionId>,
    /// The id the next new session receives.
    pub next_session_id: u64,
}

impl SessionStore {
    /// The active session's id.
    pub fn active_session_id(&self) -> (r: SessionId)
        ensures
            r == self.active.session_id,
    {
        self.active.session_id
    }

    /// Whether a session with id `id` is held, active or not.
    pub fn contains(&self, id: SessionId) -> (r: bool)
        ensures
            r == (self.active.session_id == id || exists|i: int|
                0 <= i < self.inactive@.len() && #[trigger] self.inactive@[i].session_id == id),
    {
        if self.active.session_id == id {
            return true;
        }
        let mut i: usize = 0;
        while i < self.inactive.len()
            invariant
                i <= self.inactive@.len(),
                self.active.session_id != id,
                forall|j: int| 0 <= j < i ==> #[trigger] self.inactive@[j].session_id != id,
            decreases self.inactive@.len() - i,
        {
            if self.inactive[i].session_id == id {
                return true;
            }
            i = i + 1;
        }
        false
    }

    /// The active session.
    pub fn active_session(&self) -> (r: &ChatSessionState)
        ensures
            *r == self.active,
    {
        &self.active
    }

    /// Starts a fresh session under the next session id and makes it the
    /// active one, with the working directory, model, persona and reasoning
    /// effort of the session active before; the previously active session
    /// joins the others.
    pub fn open_new_session(&mut self) -> (r: SessionId)
        requires
            old(self).next_session_id < u64::MAX,
        ensures
            r == (SessionId { id: old(self).next_session_id }),
            final(self).active.wf(),
            is_fresh_session(final(self).active@, r),
            inherits_setup(final(self).active@, old(self).active@),
            final(self).inactive@ == old(self).inactive@.push(old(self).active),
            final(self).loading == old(self).loading,
            final(self).next_session_id == old(self).next_session_id + 1,
    {
        let id = SessionId { id: self.next_session_id };
        self.next_session_id = self.next_session_id + 1;
        let mut previous = ChatSessionState::new(id);
        previous.cwd = self.active.cwd.clone();
        previous.model = clone_opt(&self.active.model);
        previous.persona = clone_opt(&self.active.persona);
        previous.reasoning_effort = clone_opt(&self.active.reasoning_effort);
        std::mem::swap(&mut self.active, &mut previous);
        self.inactive.push(previous);
        id
    }

    /// Records that the session `id` is being loaded.
    pub fn begin_load(&mut self, id: SessionId)
        ensures
            *final(self) == (SessionStore { loading: Some(id), ..*old(self) }),
    {
        self.loading = Some(id);
    }
}

/// The application state.
#[derive(Debug)]
pub struct AppState {
    pub session: SessionStore,
    pub frontend: FrontendState,
}

impl AppState {
    /// The state's invariant.
    pub open spec fn wf(&self) -> bool {
        &&& self.session.active.wf()
        &&& forall|i: int|
            0 <= i < self.session.inactive@.len() ==> #[trigger] self.session.inactive@[i].wf()
        &&& self.frontend.wf()
    }

    /// The state the client starts in: one empty session (id 0, no working
    /// directory, model, persona or reasoning effort), the chat input
    /// focused over the chat tab, nothing shown, nothing typed.
    pub open spec fn is_initial(self) -> bool {
        &&& is_fresh_session(self.session.active@, SessionId { id: 0 })
        &&& self.session.inactive@.len() == 0
        &&& self.session.loading is None
        &&& self.session.next_session_id == 1
        &&& self.frontend.scope_stack.base is Normal
        &&& self.frontend.scope_stack.overlays@ == seq![FocusScope::Input]
        &&& !self.frontend.should_quit
        &&& !self.frontend.audit_popup_visible
        &&& !self.frontend.tui_signals.toggle_whichkey
        &&& self.frontend.tui_signals.yank_text is None
        &&& self.frontend.picker is None
        &&& !self.frontend.cancel_stream_prompt
        &&& self.frontend.archive_tree_prompt is None
        &&& !self.frontend.close_session_prompt
        &&& !self.frontend.preferences.discord.enabled
        &&& self.frontend.status_hint is None
        &&& self.frontend.arg_input.text.input@ == Seq::<char>::empty()
        &&& self.frontend.arg_input.text.cursor_pos == 0
        &&& self.frontend.arg_input.lifecycle_name@ == Seq::<char>::empty()
        &&& self.frontend.arg_input.template_display@ == Seq::<char>::empty()
        &&& self.frontend.rename_session_input.text.input@ == Seq::<char>::empty()
        &&& self.frontend.rename_session_input.text.cursor_pos == 0
        &&& self.session.active@.cwd.len() == 0
        &&& self.session.active@.model is None
        &&& self.session.active@.persona is None
        &&& self.session.active@.reasoning_effort is None
    }

    /// A fresh state: one empty session, the chat input focused over the chat
    /// tab, nothing shown.
    pub fn new() -> (r: AppState)
        ensures
            r.wf(),
            r.is_initial(),
    {
        AppState {
            session: SessionStore {
                active: ChatSessionState::new(SessionId { id: 0 }),
                inactive: Vec::new(),
                loading: None,
                next_session_id: 1,
            },
            frontend: FrontendState {
                should_quit: false,
                audit_popup_visible: false,
                tui_signals: TuiSignals::new(),
                status_hint: None,
                scope_stack: ScopeStack::typing(),
                arg_input: ArgInputState::new(),
                rename_session_input: RenameSessionInputState { text: LineInput::new() },
                picker: None,
                cancel_stream_prompt: false,
                close_session_prompt: false,
                archive_tree_prompt: None,
                preferences: Preferences { discord: DiscordPreferences { enabled: false } },
            },
        }
    }

    /// The active session.
    pub fn active_session(&self) -> (r: &ChatSessionState)
        ensures
            *r == self.session.active,
    {
        &self.session.active
    }

    /// The active session, for writing.
    pub fn active_session_mut(&mut self) -> (r: &mut ChatSessionState)
        ensures
            *r == old(self).session.active,
            final(self).session.active == *final(r),
            final(self).session.inactive == old(self).session.inactive,
            final(self).session.loading == old(self).session.loading,
            final(self).session.next_session_id == old(self).session.next_session_id,
            final(self).frontend == old(self).frontend,
    {
        &mut self.session.active
    }

    /// The active session's chat input.
    pub fn active_chat_input(&self) -> (r: &ChatInputState)
        ensures
            *r == self.session.active.chat_input,
    {
        &self.session.active.chat_input
    }

    /// The active session's chat input, for writing.
    pub fn active_chat_input_mut(&mut self) -> (r: &mut ChatInputState)
        ensures
            *r == old(self).session.active.chat_input,
            final(self).session.active == (ChatSessionState {
                chat_input: *final(r),
                ..old(self).session.active
            }),
            final(self).session.inactive == old(self).session.inactive,
            final(self).session.loading == old(self).session.loading,
            final(self).session.next_session_id == old(self).session.next_session_id,
            final(self).frontend == old(self).frontend,
    {
        &mut self.session.active.chat_input
    }
}

impl Default for AppState {
    fn default() -> (r: AppState)
        ensures
            r.wf(),
            r.is_initial(),
    {
        AppState::new()
    }
}

} // verus!
