//! The chat session: its history of entries, the rows the chat log shows for
//! them, the selection cursor, the viewport, and the per-entry display state
//! (expanded entries, shown ignored blocks).
//!
//! Rows: when `visual_items` is empty each history entry is one row; otherwise
//! each visual item is one row, and a collapsed ignored block stands for a run
//! of history entries.

use vstd::prelude::*;
use vstd::string::*;
use crate::line_input::LineInput;

verus! {

/// Identifies a chat session.
#[derive(Debug, Clone, Copy, PartialEq, Eq, Structural)]
pub struct SessionId {
    pub id: u64,
}

/// Identifies a chat entry within its session.
#[derive(Debug, Clone, Copy, PartialEq, Eq, Structural)]
pub struct EntryId {
    pub id: u64,
}

/// Whether an entry is forced into or out of the model's context.
#[derive(Debug, Clone, Copy, PartialEq, Eq, Structural)]
pub enum ContextOverride {
    /// The entry's kind decides.
    Default,
    /// Always in context.
    ForcedInclude,
    /// Never in context.
    ForcedExclude,
}

/// Where a pinned entry is placed.
#[derive(Debug, Clone, Copy, PartialEq, Eq, Structural)]
pub enum PinPosition {
    Top,
    Bottom,
    Relative,
}

/// What a chat entry holds.
#[derive(Debug)]
pub enum ChatEntryKind {
    User(String),
    Assistant(String),
    System(String),
    Error(String),
    Transient(String),
    Thinking(String),
    ToolCall { call_id: String, name: String, arguments: String },
    ToolResult { call_id: String, name: String, content: String },
    Annotation(String),
    Compaction { summary: String },
}

/// One entry of a session's history.
#[derive(Debug)]
pub struct ChatEntry {
    pub id: EntryId,
    pub kind: ChatEntryKind,
    pub pin_position: Option<PinPosition>,
    pub context_override: ContextOverride,
}

/// One row of the chat log.
#[derive(Debug, Clone, Copy, PartialEq, Eq, Structural)]
pub enum VisualItem {
    /// The history entry at this index.
    Entry(usize),
    /// A collapsed run of ignored entries, `start..=end` in history.
    CollapsedIgnoredBlock { start: usize, end: usize },
}

/// Whether an entry of this kind is in context when not overridden:
/// thinking, transient and error entries are not.
pub open spec fn spec_default_in_context(k: ChatEntryKind) -> bool {
    !(k is Thinking || k is Transient || k is Error)
}

/// Whether the entry is part of the model's context.
pub open spec fn spec_in_context(e: ChatEntry) -> bool {
    match e.context_override {
        ContextOverride::Default => spec_default_in_context(e.kind),
        ContextOverride::ForcedInclude => true,
        ContextOverride::ForcedExclude => false,
    }
}

/// The raw content of an entry: the message text, a tool call's arguments,
/// a tool result's output, a compaction's summary.
pub open spec fn spec_text(k: ChatEntryKind) -> Seq<char> {
    match k {
        ChatEntryKind::User(t) => t@,
        ChatEntryKind::Assistant(t) => t@,
        ChatEntryKind::System(t) => t@,
        ChatEntryKind::Error(t) => t@,
        ChatEntryKind::Transient(t) => t@,
        ChatEntryKind::Thinking(t) => t@,
        ChatEntryKind::ToolCall { arguments, .. } => arguments@,
        ChatEntryKind::ToolResult { content, .. } => content@,
        ChatEntryKind::Annotation(t) => t@,
        ChatEntryKind::Compaction { summary } => summary@,
    }
}

/// Whether the entry can be expanded (tool calls, tool results, annotations).
pub open spec fn spec_expandable(k: ChatEntryKind) -> bool {
    k is ToolCall || k is ToolResult || k is Annotation
}

impl ChatEntryKind {
    /// A copy of this kind.
    pub fn copy(&self) -> (r: ChatEntryKind)
        ensures
            r == *self,
    {
        match self {
            ChatEntryKind::User(t) => ChatEntryKind::User(t.clone()),
            ChatEntryKind::Assistant(t) => ChatEntryKind::Assistant(t.clone()),
            ChatEntryKind::System(t) => ChatEntryKind::System(t.clone()),
            ChatEntryKind::Error(t) => ChatEntryKind::Error(t.clone()),
            ChatEntryKind::Transient(t) => ChatEntryKind::Transient(t.clone()),
            ChatEntryKind::Thinking(t) => ChatEntryKind::Thinking(t.clone()),
            ChatEntryKind::ToolCall { call_id, name, arguments } => ChatEntryKind::ToolCall {
                call_id: call_id.clone(),
                name: name.clone(),
                arguments: arguments.clone(),
            },
            ChatEntryKind::ToolResult { call_id, name, content } => ChatEntryKind::ToolResult {
                call_id: call_id.clone(),
                name: name.clone(),
                content: content.clone(),
            },
            ChatEntryKind::Annotation(t) => ChatEntryKind::Annotation(t.clone()),
            ChatEntryKind::Compaction { summary } => ChatEntryKind::Compaction {
                summary: summary.clone(),
            },
        }
    }
}

impl ChatEntry {
    fn with_kind(kind: ChatEntryKind) -> (r: ChatEntry)
        ensures
            r.kind == kind,
            r.id == (EntryId { id: 0 }),
            r.pin_position is None,
            r.context_override == ContextOverride::Default,
    {
        ChatEntry {
            id: EntryId { id: 0 },
            kind,
            pin_position: None,
            context_override: ContextOverride::Default,
        }
    }

    /// A user message.
    pub fn user(text: &str) -> (r: ChatEntry)
        ensures
            r.kind matches ChatEntryKind::User(t) && t@ == text@,
            r.id == (EntryId { id: 0 }),
            r.pin_position is None,
            r.context_override == ContextOverride::Default,
    {
        ChatEntry::with_kind(ChatEntryKind::User(String::from_str(text)))
    }

    /// An assistant message.
    pub fn assistant(text: &str) -> (r: ChatEntry)
        ensures
            r.kind matches ChatEntryKind::Assistant(t) && t@ == text@,
            r.id == (EntryId { id: 0 }),
            r.pin_position is None,
            r.context_override == ContextOverride::Default,
    {
        ChatEntry::with_kind(ChatEntryKind::Assistant(String::from_str(text)))
    }

    /// An error notice.
    pub fn error(text: &str) -> (r: ChatEntry)
        ensures
            r.kind matches ChatEntryKind::Error(t) && t@ == text@,
            r.id == (EntryId { id: 0 }),
            r.pin_position is None,
            r.context_override == ContextOverride::Default,
    {
        ChatEntry::with_kind(ChatEntryKind::Error(String::from_str(text)))
    }

    /// A transient notice.
    pub fn transient(text: &str) -> (r: ChatEntry)
        ensures
            r.kind matches ChatEntryKind::Transient(t) && t@ == text@,
            r.id == (EntryId { id: 0 }),
            r.pin_position is None,
            r.context_override == ContextOverride::Default,
    {
        ChatEntry::with_kind(ChatEntryKind::Transient(String::from_str(text)))
    }

    /// A tool call.
    pub fn tool_call(call_id: &str, name: &str, arguments: &str) -> (r: ChatEntry)
        ensures
            r.kind matches ChatEntryKind::ToolCall { call_id: c, name: n, arguments: a } && c@
                == call_id@ && n@ == name@ && a@ == arguments@,
            r.id == (EntryId { id: 0 }),
            r.pin_position is None,
            r.context_override == ContextOverride::Default,
    {
        ChatEntry::with_kind(
            ChatEntryKind::ToolCall {
                call_id: String::from_str(call_id),
                name: String::from_str(name),
                arguments: String::from_str(arguments),
            },
        )
    }

    /// A tool result.
    pub fn tool_result(call_id: &str, name: &str, content: &str) -> (r: ChatEntry)
        ensures
            r.kind matches ChatEntryKind::ToolResult { call_id: c, name: n, content: o } && c@
                == call_id@ && n@ == name@ && o@ == content@,
            r.id == (EntryId { id: 0 }),
            r.pin_position is None,
            r.context_override == ContextOverride::Default,
    {
        ChatEntry::with_kind(
            ChatEntryKind::ToolResult {
                call_id: String::from_str(call_id),
                name: String::from_str(name),
                content: String::from_str(content),
            },
        )
    }

    /// This entry with the given context override.
    pub fn with_context_override(self, o: ContextOverride) -> (r: ChatEntry)
        ensures
            r == (ChatEntry { context_override: o, ..self }),
    {
        ChatEntry { context_override: o, ..self }
    }

    /// A copy of this entry.
    pub fn copy(&self) -> (r: ChatEntry)
        ensures
            r == *self,
    {
        ChatEntry {
            id: self.id,
            kind: self.kind.copy(),
            pin_position: self.pin_position,
            context_override: self.context_override,
        }
    }

    /// Whether this is a user message.
    pub fn is_user(&self) -> (r: bool)
        ensures
            r == self.kind is User,
    {
        matches!(self.kind, ChatEntryKind::User(_))
    }

    /// Whether this is an assistant message.
    pub fn is_assistant(&self) -> (r: bool)
        ensures
            r == self.kind is Assistant,
    {
        matches!(self.kind, ChatEntryKind::Assistant(_))
    }

    /// Whether this is a compaction summary.
    pub fn is_compaction(&self) -> (r: bool)
        ensures
            r == self.kind is Compaction,
    {
        matches!(self.kind, ChatEntryKind::Compaction { .. })
    }

    /// Whether this entry is pinned.
    pub fn is_pinned(&self) -> (r: bool)
        ensures
            r == self.pin_position is Some,
    {
        self.pin_position.is_some()
    }

    /// Whether this entry can be expanded.
    pub fn is_expandable(&self) -> (r: bool)
        ensures
            r == spec_expandable(self.kind),
    {
        match self.kind {
            ChatEntryKind::ToolCall { .. } | ChatEntryKind::ToolResult { .. }
            | ChatEntryKind::Annotation(_) => true,
            _ => false,
        }
    }

    /// The entry's context override.
    pub fn context_override(&self) -> (r: ContextOverride)
        ensures
            r == self.context_override,
    {
        self.context_override
    }

    /// Whether the entry is part of the model's context.
    pub fn is_in_context(&self) -> (r: bool)
        ensures
            r == spec_in_context(*self),
    {
        match self.context_override {
            ContextOverride::ForcedInclude => true,
            ContextOverride::ForcedExclude => false,
            ContextOverride::Default => match self.kind {
                ChatEntryKind::Thinking(_) | ChatEntryKind::Transient(_) | ChatEntryKind::Error(
                    _,
                ) => false,
                _ => true,
            },
        }
    }

    /// The entry's raw content, as copied to the clipboard.
    pub fn text(&self) -> (r: String)
        ensures
            r@ == spec_text(self.kind),
    {
        match &self.kind {
            ChatEntryKind::User(t) => t.clone(),
            ChatEntryKind::Assistant(t) => t.clone(),
            ChatEntryKind::System(t) => t.clone(),
            ChatEntryKind::Error(t) => t.clone(),
            ChatEntryKind::Transient(t) => t.clone(),
            ChatEntryKind::Thinking(t) => t.clone(),
            ChatEntryKind::ToolCall { arguments, .. } => arguments.clone(),
            ChatEntryKind::ToolResult { content, .. } => content.clone(),
            ChatEntryKind::Annotation(t) => t.clone(),
            ChatEntryKind::Compaction { summary } => summary.clone(),
        }
    }

    /// The text copied to the clipboard by a yank: the raw content.
    pub fn yank_text(&self) -> (r: String)
        ensures
            r@ == spec_text(self.kind),
    {
        self.text()
    }
}

/// What a session is doing.
#[derive(Debug, Clone, Copy, PartialEq, Eq, Structural)]
pub enum PhaseKind {
    Idle,
    Streaming,
    Busy,
}

/// The phase of a session.
pub open spec fn spec_phase(v: SessionView) -> PhaseKind {
    if v.streaming {
        PhaseKind::Streaming
    } else if v.busy {
        PhaseKind::Busy
    } else {
        PhaseKind::Idle
    }
}

/// Steer sends a message into the running turn; Queue always enqueues it.
#[derive(Debug, Clone, Copy, PartialEq, Eq, Structural)]
pub enum InputMode {
    Steer,
    Queue,
}

/// The chat input box of a session.
#[derive(Debug)]
pub struct ChatInputState {
    pub text: LineInput,
    pub disabled: bool,
    pub mode: InputMode,
}

impl ChatInputState {
    /// An empty, enabled input box in Steer mode.
    pub fn new() -> (r: ChatInputState)
        ensures
            r.text.wf(),
            r.text.input@ == Seq::<char>::empty(),
            !r.disabled,
            r.mode == InputMode::Steer,
    {
        ChatInputState { text: LineInput::new(), disabled: false, mode: InputMode::Steer }
    }
}

/// The rows the chat log shows.
pub open spec fn spec_rows(items: Seq<VisualItem>, history: Seq<ChatEntry>) -> nat {
    if items.len() == 0 {
        history.len()
    } else {
        items.len()
    }
}

/// All entry ids are distinct and below `next`.
pub open spec fn ids_fresh(h: Seq<ChatEntry>, next: u64) -> bool {
    &&& forall|i: int| 0 <= i < h.len() ==> #[trigger] h[i].id.id < next
    &&& forall|i: int, j: int|
        0 <= i < h.len() && 0 <= j < h.len() && i != j ==> #[trigger] h[i].id != #[trigger] h[j].id
}

/// No id occurs twice.
pub open spec fn no_dups(s: Seq<EntryId>) -> bool {
    forall|i: int, j: int| 0 <= i < s.len() && 0 <= j < s.len() && i != j ==> s[i] != s[j]
}

/// Every visual item refers to existing history entries.
pub open spec fn items_valid(items: Seq<VisualItem>, hlen: nat) -> bool {
    forall|k: int|
        0 <= k < items.len() ==> match #[trigger] items[k] {
            VisualItem::Entry(h) => h < hlen,
            VisualItem::CollapsedIgnoredBlock { start, end } => start <= end < hlen,
        }
}

/// The history index of the entry shown on row `r`, if that row is one entry.
pub open spec fn spec_row_history_index(items: Seq<VisualItem>, hlen: nat, r: int) -> Option<int> {
    if items.len() == 0 {
        if 0 <= r < hlen {
            Some(r)
        } else {
            None
        }
    } else if 0 <= r < items.len() {
        match items[r] {
            VisualItem::Entry(h) => Some(h as int),
            VisualItem::CollapsedIgnoredBlock { .. } => None,
        }
    } else {
        None
    }
}

/// The first index of the run of out-of-context entries that ends at `i`
/// (`i` itself when the entry before it is in context).
pub open spec fn spec_block_start(h: Seq<ChatEntry>, i: int) -> int
    decreases i,
{
    if 0 < i <= h.len() && !spec_in_context(h[i - 1]) {
        spec_block_start(h, i - 1)
    } else {
        i
    }
}

/// Whether the history holds an entry with this id.
pub open spec fn has_id(h: Seq<ChatEntry>, id: EntryId) -> bool {
    exists|i: int| 0 <= i < h.len() && #[trigger] h[i].id == id
}

/// The index of the entry with this id (meaningful when `has_id`).
pub open spec fn index_of_id(h: Seq<ChatEntry>, id: EntryId) -> int {
    choose|i: int| 0 <= i < h.len() && #[trigger] h[i].id == id
}

/// The position of `x` in `s` (meaningful when `s.contains(x)`).
pub open spec fn position_of(s: Seq<EntryId>, x: EntryId) -> int {
    choose|i: int| 0 <= i < s.len() && s[i] == x
}

/// `s` with `x` removed when present, appended when absent.
pub open spec fn seq_toggle(s: Seq<EntryId>, x: EntryId) -> Seq<EntryId> {
    if s.contains(x) {
        s.remove(position_of(s, x))
    } else {
        s.push(x)
    }
}

/// A pending hold-to-sweep of the ignore toggle: the override to apply and
/// when the last press happened (milliseconds).
#[derive(Debug, Clone, Copy, PartialEq, Eq, Structural)]
pub struct IgnoreSweep {
    pub target: ContextOverride,
    pub at_ms: i64,
}

/// Presses further apart than this (milliseconds) end a sweep.
pub const SWEEP_WINDOW_MS: i64 = 100;

/// The mathematical content of a session.
pub struct SessionView {
    pub session_id: SessionId,
    pub title: Option<Seq<char>>,
    pub history: Seq<ChatEntry>,
    pub visual_items: Seq<VisualItem>,
    pub cursor: Option<usize>,
    pub scroll_offset: usize,
    pub viewport_height: usize,
    pub expanded: Seq<EntryId>,
    pub shown_ignored_blocks: Seq<EntryId>,
    pub ignore_sweep: Option<IgnoreSweep>,
    pub streaming: bool,
    pub busy: bool,
    pub cancelled_at_ms: Option<i64>,
    pub chat_input: ChatInputState,
    pub next_entry_id: u64,
    pub cwd: Seq<char>,
    pub model: Option<Seq<char>>,
    pub persona: Option<Seq<char>>,
    pub reasoning_effort: Option<Seq<char>>,
}

impl SessionView {
    /// Rows of the chat log.
    pub open spec fn rows(self) -> nat {
        spec_rows(self.visual_items, self.history)
    }

    /// The session's invariant.
    pub open spec fn wf(self) -> bool {
        &&& self.cursor matches Some(c) ==> c < self.rows()
        &&& items_valid(self.visual_items, self.history.len())
        &&& ids_fresh(self.history, self.next_entry_id)
        &&& no_dups(self.expanded)
        &&& no_dups(self.shown_ignored_blocks)
        &&& self.chat_input.text.wf()
    }

    /// The history index of the selected row's entry, if the row is one entry.
    pub open spec fn selected_history_index(self) -> Option<int> {
        match self.cursor {
            Some(c) => spec_row_history_index(self.visual_items, self.history.len(), c as int),
            None => None,
        }
    }

    /// Whether the selected row is a collapsed ignored block.
    pub open spec fn selected_is_collapsed(self) -> bool {
        self.cursor matches Some(c) && c < self.visual_items.len()
            && self.visual_items[c as int] is CollapsedIgnoredBlock
    }

    /// The largest scroll offset that still fills the viewport.
    pub open spec fn max_scroll(self) -> int {
        if self.rows() > self.viewport_height {
            self.rows() - self.viewport_height
        } else {
            0
        }
    }

    /// One past the last visible row.
    pub open spec fn visible_end(self) -> int {
        if self.scroll_offset + self.viewport_height < self.rows() {
            self.scroll_offset + self.viewport_height
        } else {
            self.rows() as int
        }
    }

    /// Whether row `row` shows history entry `h` (as itself, or inside a
    /// collapsed block).
    pub open spec fn row_shows(self, row: int, h: int) -> bool {
        if self.visual_items.len() == 0 {
            row == h
        } else {
            0 <= row < self.visual_items.len() && match self.visual_items[row] {
                VisualItem::Entry(x) => x == h,
                VisualItem::CollapsedIgnoredBlock { start, end } => start <= h <= end,
            }
        }
    }

    /// The first row showing history entry `h`, if any row does.
    pub open spec fn first_row_showing(self, h: int) -> Option<int> {
        if exists|r: int| 0 <= r < self.rows() && #[trigger] self.row_shows(r, h) {
            Some(
                choose|r: int|
                    0 <= r < self.rows() && #[trigger] self.row_shows(r, h) && forall|q: int|
                        0 <= q < r ==> !self.row_shows(q, h),
            )
        } else {
            None
        }
    }

    /// The cursor one row down: the first row when nothing is selected,
    /// clamped at the last row.
    pub open spec fn select_next(self) -> SessionView {
        SessionView {
            cursor: match self.cursor {
                None => if self.rows() > 0 {
                    Some(0usize)
                } else {
                    None
                },
                Some(c) => if c + 1 < self.rows() {
                    Some((c + 1) as usize)
                } else {
                    Some(c)
                },
            },
            ..self
        }
    }

    /// The cursor one row up: the last row when nothing is selected, clamped
    /// at the first row.
    pub open spec fn select_prev(self) -> SessionView {
        SessionView {
            cursor: match self.cursor {
                None => if self.rows() > 0 {
                    Some((self.rows() - 1) as usize)
                } else {
                    None
                },
                Some(c) => if c > 0 {
                    Some((c - 1) as usize)
                } else {
                    Some(c)
                },
            },
            ..self
        }
    }

    /// The viewport scrolled down `n` rows, stopping where the last row
    /// reaches the bottom of the viewport.
    pub open spec fn scroll_down(self, n: int) -> SessionView {
        SessionView {
            scroll_offset: if self.scroll_offset + n < self.max_scroll() {
                (self.scroll_offset + n) as usize
            } else if self.scroll_offset < self.max_scroll() {
                self.max_scroll() as usize
            } else {
                self.scroll_offset
            },
            ..self
        }
    }

    /// The viewport scrolled up `n` rows, stopping at the top.
    pub open spec fn scroll_up(self, n: int) -> SessionView {
        SessionView {
            scroll_offset: if self.scroll_offset > n {
                (self.scroll_offset - n) as usize
            } else {
                0
            },
            ..self
        }
    }

    /// The session after appending `e` under the next fresh id and selecting
    /// it; with visual items the entry also gets its own row.
    pub open spec fn push(self, e: ChatEntry) -> SessionView {
        let items = if self.visual_items.len() == 0 {
            self.visual_items
        } else {
            self.visual_items.push(VisualItem::Entry(self.history.len() as usize))
        };
        let history = self.history.push(ChatEntry { id: EntryId { id: self.next_entry_id }, ..e });
        SessionView {
            history,
            visual_items: items,
            next_entry_id: (self.next_entry_id + 1) as u64,
            cursor: Some((spec_rows(items, history) - 1) as usize),
            ..self
        }
    }

    /// The cursor on the first row showing the entry with id `id`; unchanged
    /// when there is no such entry or no row shows it.
    pub open spec fn select_id(self, id: EntryId) -> SessionView {
        if has_id(self.history, id) {
            match self.first_row_showing(index_of_id(self.history, id)) {
                Some(r) => SessionView { cursor: Some(r as usize), ..self },
                None => self,
            }
        } else {
            self
        }
    }

    /// The ignored block containing the entry with id `id` toggled between
    /// shown and collapsed (keyed by its first entry's id).
    pub open spec fn toggle_block(self, id: EntryId) -> SessionView {
        if has_id(self.history, id) {
            let s = spec_block_start(self.history, index_of_id(self.history, id));
            SessionView {
                shown_ignored_blocks: seq_toggle(self.shown_ignored_blocks, self.history[s].id),
                ..self
            }
        } else {
            self
        }
    }

    /// History entry `h` given the override `o`.
    pub open spec fn set_override(self, h: int, o: ContextOverride) -> SessionView {
        SessionView {
            history: self.history.update(h, ChatEntry { context_override: o, ..self.history[h] }),
            ..self
        }
    }

    /// The selected entry flipped in or out of context (an in-context entry
    /// becomes `ForcedExclude`, an out-of-context one `ForcedInclude`), with
    /// its id; unchanged with `None` when the selected row is not one entry.
    pub open spec fn toggle_ignored(self) -> (SessionView, Option<EntryId>) {
        match self.selected_history_index() {
            Some(h) => (
                self.set_override(
                    h,
                    if spec_in_context(self.history[h]) {
                        ContextOverride::ForcedExclude
                    } else {
                        ContextOverride::ForcedInclude
                    },
                ),
                Some(self.history[h].id),
            ),
            None => (self, None),
        }
    }

    /// The selected entry given the override `o`, with its id when this
    /// changed it; unchanged with `None` otherwise.
    pub open spec fn set_context_override(self, o: ContextOverride) -> (SessionView, Option<
        EntryId,
    >) {
        match self.selected_history_index() {
            Some(h) => if self.history[h].context_override != o {
                (self.set_override(h, o), Some(self.history[h].id))
            } else {
                (self, None)
            },
            None => (self, None),
        }
    }

    /// After the entry with id `id` came into context: when its former
    /// ignored block was shown and the entry after it is out of context, the
    /// part of the block after it stays shown.
    pub open spec fn propagate(self, id: EntryId) -> SessionView {
        let hist = self.history;
        let h = index_of_id(hist, id);
        let left = if h > 0 && !spec_in_context(hist[h - 1]) {
            spec_block_start(hist, h - 1)
        } else {
            h
        };
        if has_id(hist, id) && spec_in_context(hist[h]) && h + 1 < hist.len() && !spec_in_context(
            hist[h + 1],
        ) && self.shown_ignored_blocks.contains(hist[left].id)
            && !self.shown_ignored_blocks.contains(hist[h + 1].id) {
            SessionView {
                shown_ignored_blocks: self.shown_ignored_blocks.push(hist[h + 1].id),
                ..self
            }
        } else {
            self
        }
    }

    /// The pending sweep's target when the last press was at most
    /// [`SWEEP_WINDOW_MS`] before `now_ms`.
    pub open spec fn live_sweep(self, now_ms: i64) -> Option<ContextOverride> {
        match self.ignore_sweep {
            Some(s) => if s.at_ms <= now_ms && now_ms - s.at_ms <= SWEEP_WINDOW_MS {
                Some(s.target)
            } else {
                None
            },
            None => None,
        }
    }
}

/// A chat session.
/// Whether `v` is a session as it starts under id `id`: untitled, with no
/// history, rows, selection or scroll, nothing expanded, idle, never
/// cancelled, an empty enabled chat input in Steer mode, and entry ids
/// starting at zero.
pub open spec fn is_fresh_session(v: SessionView, id: SessionId) -> bool {
    &&& v.session_id == id
    &&& v.title is None
    &&& v.history.len() == 0
    &&& v.visual_items.len() == 0
    &&& v.cursor is None
    &&& v.scroll_offset == 0
    &&& v.viewport_height == 0
    &&& v.expanded.len() == 0
    &&& v.shown_ignored_blocks.len() == 0
    &&& v.ignore_sweep is None
    &&& !v.streaming
    &&& !v.busy
    &&& v.cancelled_at_ms is None
    &&& v.chat_input.text.input@.len() == 0
    &&& v.chat_input.text.cursor_pos == 0
    &&& !v.chat_input.disabled
    &&& v.chat_input.mode == InputMode::Steer
    &&& v.next_entry_id == 0
}

#[derive(Debug)]
pub struct ChatSessionState {
    pub session_id: SessionId,
    pub title: Option<String>,
    pub history: Vec<ChatEntry>,
    /// The chat log's rows, as last laid out by the renderer; empty means one
    /// row per history entry.
    pub visual_items: Vec<VisualItem>,
    /// The selected row.
    pub cursor: Option<usize>,
    /// The first visible row.
    pub scroll_offset: usize,
    /// Number of rows the viewport shows.
    pub viewport_height: usize,
    /// Ids of expanded entries.
    pub expanded: Vec<EntryId>,
    /// Ids of the first entries of ignored blocks shown expanded.
    pub shown_ignored_blocks: Vec<EntryId>,
    pub ignore_sweep: Option<IgnoreSweep>,
    pub streaming: bool,
    pub busy: bool,
    /// When streaming was last cancelled (milliseconds), if ever.
    pub cancelled_at_ms: Option<i64>,
    pub chat_input: ChatInputState,
    /// The id the next pushed entry receives.
    pub next_entry_id: u64,
    /// The working directory the session's tools run in.
    pub cwd: String,
    /// The model the session talks to, when one was chosen.
    pub model: Option<String>,
    /// The persona the session runs under, when one was chosen.
    pub persona: Option<String>,
    /// The reasoning effort asked of the model, when one was chosen.
    pub reasoning_effort: Option<String>,
}

impl View for ChatSessionState {
    type V = SessionView;

    open spec fn view(&self) -> SessionView {
        SessionView {
            session_id: self.session_id,
            title: self.title.deep_view(),
            history: self.history@,
            visual_items: self.visual_items@,
            cursor: self.cursor,
            scroll_offset: self.scroll_offset,
            viewport_height: self.viewport_height,
            expanded: self.expanded@,
            shown_ignored_blocks: self.shown_ignored_blocks@,
            ignore_sweep: self.ignore_sweep,
            streaming: self.streaming,
            busy: self.busy,
            cancelled_at_ms: self.cancelled_at_ms,
            chat_input: self.chat_input,
            next_entry_id: self.next_entry_id,
            cwd: self.cwd@,
            model: self.model.deep_view(),
            persona: self.persona.deep_view(),
            reasoning_effort: self.reasoning_effort.deep_view(),
        }
    }
}

impl ChatSessionState {
    /// The session's invariant.
    pub open spec fn wf(&self) -> bool {
        self@.wf()
    }

    /// A fresh session.
    pub fn new(session_id: SessionId) -> (r: ChatSessionState)
        ensures
            r.wf(),
            is_fresh_session(r@, session_id),
            r@.cwd.len() == 0,
            r@.model is None,
            r@.persona is None,
            r@.reasoning_effort is None,
    {
        ChatSessionState {
            session_id,
            title: None,
            history: Vec::new(),
            visual_items: Vec::new(),
            cursor: None,
            scroll_offset: 0,
            viewport_height: 0,
            expanded: Vec::new(),
            shown_ignored_blocks: Vec::new(),
            ignore_sweep: None,
            streaming: false,
            busy: false,
            cancelled_at_ms: None,
            chat_input: ChatInputState::new(),
            next_entry_id: 0,
            cwd: String::new(),
            model: None,
            persona: None,
            reasoning_effort: None,
        }
    }

    /// The session's working directory.
    pub fn cwd(&self) -> (r: &str)
        ensures
            r@ == self@.cwd,
    {
        self.cwd.as_str()
    }

    /// Sets the session's working directory.
    pub fn set_cwd(&mut self, cwd: String)
        ensures
            final(self)@ == (SessionView { cwd: cwd@, ..old(self)@ }),
    {
        self.cwd = cwd;
    }

    /// The session's id.
    pub fn session_id(&self) -> (r: SessionId)
        ensures
            r == self@.session_id,
    {
        self.session_id
    }

    /// The session's title, once set.
    pub fn title(&self) -> (r: Option<&String>)
        ensures
            r.deep_view() == self@.title,
    {
        match &self.title {
            Some(t) => Some(t),
            None => None,
        }
    }

    /// The history.
    pub fn history(&self) -> (r: &Vec<ChatEntry>)
        ensures
            r@ == self@.history,
    {
        &self.history
    }

    /// Number of rows of the chat log.
    pub fn row_count(&self) -> (r: usize)
        ensures
            r == self@.rows(),
    {
        if self.visual_items.len() == 0 {
            self.history.len()
        } else {
            self.visual_items.len()
        }
    }

    /// The visible rows, `start..end`.
    pub fn visible_entry_range(&self) -> (r: (usize, usize))
        ensures
            r.0 == self@.scroll_offset,
            r.1 == self@.visible_end(),
    {
        let rows = self.row_count();
        let end = if self.viewport_height < rows && self.scroll_offset < rows - self.viewport_height {
            self.scroll_offset + self.viewport_height
        } else {
            rows
        };
        (self.scroll_offset, end)
    }

    /// The selected row.
    pub fn selected_entry_index(&self) -> (r: Option<usize>)
        ensures
            r == self@.cursor,
    {
        self.cursor
    }

    /// The history index of the selected row's entry, if the row is one
    /// entry (a collapsed block has none).
    pub fn selected_history_index(&self) -> (r: Option<usize>)
        requires
            self.wf(),
        ensures
            r matches Some(h) ==> self@.selected_history_index() == Some(h as int) && h
                < self@.history.len(),
            r is None ==> self@.selected_history_index() is None,
    {
        match self.cursor {
            None => None,
            Some(c) => {
                if self.visual_items.len() == 0 {
                    Some(c)
                } else {
                    match self.visual_items[c] {
                        VisualItem::Entry(h) => Some(h),
                        VisualItem::CollapsedIgnoredBlock { .. } => None,
                    }
                }
            },
        }
    }

    /// The selected visual item, when the log has visual items.
    pub fn selected_visual_item(&self) -> (r: Option<VisualItem>)
        requires
            self.wf(),
        ensures
            r == match self@.cursor {
                Some(c) => if c < self@.visual_items.len() {
                    Some(self@.visual_items[c as int])
                } else {
                    None::<VisualItem>
                },
                None => None,
            },
    {
        match self.cursor {
            Some(c) => if c < self.visual_items.len() {
                Some(self.visual_items[c])
            } else {
                None
            },
            None => None,
        }
    }

    /// Whether the selected row is a collapsed ignored block.
    pub fn is_selected_collapsed_block(&self) -> (r: bool)
        requires
            self.wf(),
        ensures
            r == self@.selected_is_collapsed(),
    {
        match self.selected_visual_item() {
            Some(VisualItem::CollapsedIgnoredBlock { .. }) => true,
            _ => false,
        }
    }

    /// The selected entry, if the selected row is one entry.
    pub fn selected_entry(&self) -> (r: Option<&ChatEntry>)
        requires
            self.wf(),
        ensures
            r is None <==> self@.selected_history_index() is None,
            r matches Some(e) ==> self@.selected_history_index() matches Some(h) && *e
                == self@.history[h],
    {
        match self.selected_history_index() {
            Some(h) => Some(&self.history[h]),
            None => None,
        }
    }

    /// The id of the selected entry.
    pub fn selected_entry_id(&self) -> (r: Option<EntryId>)
        requires
            self.wf(),
        ensures
            r is None <==> self@.selected_history_index() is None,
            r matches Some(id) ==> self@.selected_history_index() matches Some(h) && id
                == self@.history[h].id,
    {
        match self.selected_entry() {
            Some(e) => Some(e.id),
            None => None,
        }
    }

    /// The viewport height, in rows.
    pub fn viewport_height_value(&self) -> (r: usize)
        ensures
            r == self@.viewport_height,
    {
        self.viewport_height
    }

    /// Moves the cursor one row down (to the first row when none is
    /// selected); clamps at the last row.
    pub fn select_next_entry(&mut self)
        requires
            old(self).wf(),
        ensures
            final(self).wf(),
            final(self)@ == old(self)@.select_next(),
    {
        let rows = self.row_count();
        match self.cursor {
            None => {
                if rows > 0 {
                    self.cursor = Some(0);
                }
            },
            Some(c) => {
                if c + 1 < rows {
                    self.cursor = Some(c + 1);
                }
            },
        }
    }

    /// Moves the cursor one row up (to the last row when none is selected);
    /// clamps at the first row.
    pub fn select_prev_entry(&mut self)
        requires
            old(self).wf(),
        ensures
            final(self).wf(),
            final(self)@ == old(self)@.select_prev(),
    {
        let rows = self.row_count();
        match self.cursor {
            None => {
                if rows > 0 {
                    self.cursor = Some(rows - 1);
                }
            },
            Some(c) => {
                if c > 0 {
                    self.cursor = Some(c - 1);
                }
            },
        }
    }

    /// Clears the selection.
    pub fn clear_selection(&mut self)
        requires
            old(self).wf(),
        ensures
            final(self).wf(),
            final(self)@ == (SessionView { cursor: None, ..old(self)@ }),
    {
        self.cursor = None;
    }

    /// Selects row `row`; no-op when there is no such row.
    pub fn set_selected_entry_index(&mut self, row: usize)
        requires
            old(self).wf(),
        ensures
            final(self).wf(),
            final(self)@ == if row < old(self)@.rows() {
                SessionView { cursor: Some(row), ..old(self)@ }
            } else {
                old(self)@
            },
    {
        if row < self.row_count() {
            self.cursor = Some(row);
        }
    }

    /// Replaces the chat log's rows (as laid out by the renderer), keeping
    /// the cursor when it still names a row.
    pub fn set_visual_items(&mut self, items: Vec<VisualItem>)
        requires
            old(self).wf(),
            items_valid(items@, old(self)@.history.len()),
        ensures
            final(self).wf(),
            final(self)@.visual_items == items@,
            final(self)@.cursor == match old(self)@.cursor {
                Some(c) => if c < spec_rows(items@, old(self)@.history) {
                    Some(c)
                } else {
                    None
                },
                None => None,
            },
            final(self)@ == (SessionView {
                visual_items: items@,
                cursor: final(self)@.cursor,
                ..old(self)@
            }),
    {
        self.visual_items = items;
        let rows = self.row_count();
        match self.cursor {
            Some(c) => if c >= rows {
                self.cursor = None;
            },
            None => {},
        }
    }

    /// Scrolls the viewport down by `n` rows, stopping at the end.
    pub fn scroll_down(&mut self, n: usize)
        requires
            old(self).wf(),
        ensures
            final(self).wf(),
            final(self)@ == old(self)@.scroll_down(n as int),
    {
        let rows = self.row_count();
        let max_scroll = if rows > self.viewport_height {
            rows - self.viewport_height
        } else {
            0
        };
        if self.scroll_offset < max_scroll {
            if n < max_scroll - self.scroll_offset {
                self.scroll_offset = self.scroll_offset + n;
            } else {
                self.scroll_offset = max_scroll;
            }
        }
    }

    /// Scrolls the viewport up by `n` rows, stopping at the top.
    pub fn scroll_up(&mut self, n: usize)
        requires
            old(self).wf(),
        ensures
            final(self).wf(),
            final(self)@ == old(self)@.scroll_up(n as int),
    {
        if self.scroll_offset > n {
            self.scroll_offset = self.scroll_offset - n;
        } else {
            self.scroll_offset = 0;
        }
    }

    /// Appends an entry under a fresh id and selects it. When the log has
    /// visual items, the entry also gets its own row.
    pub fn push_entry(&mut self, entry: ChatEntry)
        requires
            old(self).wf(),
            old(self)@.next_entry_id < u64::MAX,
            old(self)@.history.len() < usize::MAX,
            old(self)@.visual_items.len() < usize::MAX,
        ensures
            final(self).wf(),
            final(self)@ == old(self)@.push(entry),
    {
        let id = EntryId { id: self.next_entry_id };
        let e = ChatEntry { id, ..entry };
        let h = self.history.len();
        self.history.push(e);
        self.next_entry_id = self.next_entry_id + 1;
        if self.visual_items.len() > 0 {
            self.visual_items.push(VisualItem::Entry(h));
        }
        let rows = self.row_count();
        self.cursor = Some(rows - 1);
        proof {
            let hh = self.history@;
            let n = old(self)@.history.len();
            assert(hh[n as int].id == id);
            assert forall|a: int| 0 <= a < hh.len() implies #[trigger] hh[a].id.id
                < self.next_entry_id by {
                if a < n {
                    assert(hh[a] == old(self)@.history[a]);
                }
            }
            assert forall|a: int, b: int|
                0 <= a < hh.len() && 0 <= b < hh.len() && a != b implies #[trigger] hh[a].id
                != #[trigger] hh[b].id by {
                if a < n {
                    assert(hh[a] == old(self)@.history[a]);
                    assert(old(self)@.history[a].id.id < old(self)@.next_entry_id);
                }
                if b < n {
                    assert(hh[b] == old(self)@.history[b]);
                    assert(old(self)@.history[b].id.id < old(self)@.next_entry_id);
                }
            }
            assert forall|k: int| 0 <= k < self.visual_items@.len() implies match #[trigger] self.visual_items@[k] {
                VisualItem::Entry(x) => x < hh.len(),
                VisualItem::CollapsedIgnoredBlock { start, end } => start <= end < hh.len(),
            } by {
                if k < old(self)@.visual_items.len() {
                    assert(self.visual_items@[k] == old(self)@.visual_items[k]);
                }
            }
            assert(self@ == old(self)@.push(entry));
        }
    }

    /// Position of the entry with id `id` in the history.
    pub fn find_entry(&self, id: EntryId) -> (r: Option<usize>)
        requires
            self.wf(),
        ensures
            r is None <==> !has_id(self@.history, id),
            r matches Some(i) ==> i < self@.history.len() && self@.history[i as int].id == id && i
                == index_of_id(self@.history, id),
    {
        let mut i: usize = 0;
        while i < self.history.len()
            invariant
                i <= self@.history.len(),
                self.wf(),
                forall|j: int| 0 <= j < i ==> #[trigger] self@.history[j].id != id,
            decreases self.history.len() - i,
        {
            if self.history[i].id == id {
                proof {
                    assert(self@.history[i as int].id == id);
                    assert(has_id(self@.history, id));
                    let k = index_of_id(self@.history, id);
                    assert(self@.history[k].id == id);
                    if k != i as int {
                        assert(self@.history[k].id != self@.history[i as int].id);
                    }
                }
                return Some(i);
            }
            i += 1;
        }
        None
    }

    /// Moves the cursor to the first row showing the entry with id `id`;
    /// no-op when there is no such entry or no row shows it.
    pub fn set_selected_cursor_id(&mut self, id: EntryId)
        requires
            old(self).wf(),
        ensures
            final(self).wf(),
            final(self)@ == old(self)@.select_id(id),
    {
        let h = match self.find_entry(id) {
            Some(h) => h,
            None => {
                return ;
            },
        };
        let ghost v = self@;
        if self.visual_items.len() == 0 {
            proof {
                assert(v.row_shows(h as int, h as int));
                let r = choose|r: int|
                    0 <= r < v.rows() && #[trigger] v.row_shows(r, h as int) && forall|q: int|
                        0 <= q < r ==> !v.row_shows(q, h as int);
                assert(forall|q: int| 0 <= q < h ==> !v.row_shows(q, h as int));
                assert(r == h);
            }
            self.cursor = Some(h);
            return ;
        }
        let mut k: usize = 0;
        while k < self.visual_items.len()
            invariant
                k <= self.visual_items@.len(),
                self@ == v,
                v == old(self)@,
                v.wf(),
                v.visual_items.len() > 0,
                h == index_of_id(v.history, id),
                has_id(v.history, id),
                forall|q: int| 0 <= q < k ==> !v.row_shows(q, h as int),
            decreases self.visual_items.len() - k,
        {
            let shows = match self.visual_items[k] {
                VisualItem::Entry(x) => x == h,
                VisualItem::CollapsedIgnoredBlock { start, end } => start <= h && h <= end,
            };
            if shows {
                proof {
                    assert(v.row_shows(k as int, h as int));
                    assert(0 <= k < v.rows());
                    assert(exists|r: int| 0 <= r < v.rows() && #[trigger] v.row_shows(r, h as int));
                    let r = choose|r: int|
                        0 <= r < v.rows() && #[trigger] v.row_shows(r, h as int) && forall|q: int|
                            0 <= q < r ==> !v.row_shows(q, h as int);
                    if r < k {
                    } else if r > k {
                    }
                    assert(r == k);
                }
                self.cursor = Some(k);
                return ;
            }
            k += 1;
        }
        proof {
            assert(!(exists|r: int| 0 <= r < v.rows() && #[trigger] v.row_shows(r, h as int)));
        }
    }

    /// Toggles whether the entry with id `id` is expanded.
    pub fn toggle_expand_entry(&mut self, id: EntryId)
        requires
            old(self).wf(),
        ensures
            final(self).wf(),
            final(self)@ == (SessionView {
                expanded: seq_toggle(old(self)@.expanded, id),
                ..old(self)@
            }),
    {
        toggle_id(&mut self.expanded, id);
    }

    /// Whether the entry with id `id` is expanded.
    pub fn is_entry_expanded(&self, id: EntryId) -> (r: bool)
        ensures
            r == self@.expanded.contains(id),
    {
        contains_id(&self.expanded, id)
    }

    /// The first index of the run of out-of-context entries ending at `i`.
    pub fn block_start(&self, i: usize) -> (r: usize)
        requires
            i <= self@.history.len(),
        ensures
            r == spec_block_start(self@.history, i as int),
            r <= i,
    {
        let mut j = i;
        while j > 0 && !self.history[j - 1].is_in_context()
            invariant
                j <= i <= self@.history.len(),
                spec_block_start(self@.history, j as int) == spec_block_start(
                    self@.history,
                    i as int,
                ),
            decreases j,
        {
            j = j - 1;
        }
        j
    }

    /// Toggles whether the ignored block containing the entry with id `id` is
    /// shown expanded. The block is keyed by the id of its first entry.
    pub fn toggle_ignored_block_visibility(&mut self, id: EntryId)
        requires
            old(self).wf(),
        ensures
            final(self).wf(),
            final(self)@ == old(self)@.toggle_block(id),
    {
        match self.find_entry(id) {
            None => {},
            Some(h) => {
                let s = self.block_start(h);
                let start_id = self.history[s].id;
                toggle_id(&mut self.shown_ignored_blocks, start_id);
            },
        }
    }

    /// Replaces the context override of history entry `i`.
    fn set_override_at(&mut self, i: usize, o: ContextOverride)
        requires
            old(self).wf(),
            i < old(self)@.history.len(),
        ensures
            final(self).wf(),
            final(self)@ == old(self)@.set_override(i as int, o),
    {
        let mut tmp = ChatEntry::error("");
        self.history.set_and_swap(i, &mut tmp);
        tmp.context_override = o;
        self.history.set_and_swap(i, &mut tmp);
        proof {
            let hh = self.history@;
            assert(hh.len() == old(self)@.history.len());
            assert forall|a: int, b: int|
                0 <= a < hh.len() && 0 <= b < hh.len() && a != b implies #[trigger] hh[a].id
                != #[trigger] hh[b].id by {
                assert(hh[a].id == old(self)@.history[a].id);
                assert(hh[b].id == old(self)@.history[b].id);
            }
            assert forall|a: int| 0 <= a < hh.len() implies #[trigger] hh[a].id.id
                < self.next_entry_id by {
                assert(hh[a].id == old(self)@.history[a].id);
            }
            assert(self.history@ =~= old(self)@.history.update(
                i as int,
                ChatEntry { context_override: o, ..old(self)@.history[i as int] },
            ));
            assert(self@ == old(self)@.set_override(i as int, o));
        }
    }

    /// Flips the selected entry in or out of context. Returns the flipped
    /// entry's id; `None` (and no change) when the selected row is not one
    /// entry.
    pub fn toggle_entry_ignored(&mut self) -> (r: Option<EntryId>)
        requires
            old(self).wf(),
        ensures
            final(self).wf(),
            (final(self)@, r) == old(self)@.toggle_ignored(),
    {
        match self.selected_history_index() {
            None => None,
            Some(h) => {
                let o = if self.history[h].is_in_context() {
                    ContextOverride::ForcedExclude
                } else {
                    ContextOverride::ForcedInclude
                };
                let id = self.history[h].id;
                self.set_override_at(h, o);
                Some(id)
            },
        }
    }

    /// Sets the selected entry's context override. Returns the entry's id
    /// when the override changed.
    pub fn set_entry_context_override(&mut self, o: ContextOverride) -> (r: Option<EntryId>)
        requires
            old(self).wf(),
        ensures
            final(self).wf(),
            (final(self)@, r) == old(self)@.set_context_override(o),
    {
        match self.selected_history_index() {
            None => None,
            Some(h) => {
                if self.history[h].context_override == o {
                    None
                } else {
                    let id = self.history[h].id;
                    self.set_override_at(h, o);
                    Some(id)
                }
            },
        }
    }

    /// After the entry with id `id` came into context, keeps the part of its
    /// former ignored block that follows it shown when the block was shown.
    pub fn propagate_shown_on_unignore(&mut self, id: EntryId)
        requires
            old(self).wf(),
        ensures
            final(self).wf(),
            final(self)@ == old(self)@.propagate(id),
    {
        let h = match self.find_entry(id) {
            Some(h) => h,
            None => return ,
        };
        assert(h < self@.history.len());
        if !self.history[h].is_in_context() {
            return ;
        }
        if h >= self.history.len() - 1 {
            return ;
        }
        if self.history[h + 1].is_in_context() {
            return ;
        }
        let left = if h > 0 && !self.history[h - 1].is_in_context() {
            self.block_start(h - 1)
        } else {
            h
        };
        let left_id = self.history[left].id;
        let next_id = self.history[h + 1].id;
        if contains_id(&self.shown_ignored_blocks, left_id) && !contains_id(
            &self.shown_ignored_blocks,
            next_id,
        ) {
            self.shown_ignored_blocks.push(next_id);
            proof {
                let s = self.shown_ignored_blocks@;
                assert forall|a: int, b: int|
                    0 <= a < s.len() && 0 <= b < s.len() && a != b implies s[a] != s[b] by {
                    if a == s.len() - 1 {
                        assert(old(self)@.shown_ignored_blocks[b] == s[b]);
                    } else if b == s.len() - 1 {
                        assert(old(self)@.shown_ignored_blocks[a] == s[a]);
                    }
                }
            }
        }
    }

    /// Records a sweep of the ignore toggle, pressed at `now_ms`.
    pub fn set_ignore_sweep(&mut self, target: ContextOverride, now_ms: i64)
        requires
            old(self).wf(),
        ensures
            final(self).wf(),
            final(self)@ == (SessionView {
                ignore_sweep: Some(IgnoreSweep { target, at_ms: now_ms }),
                ..old(self)@
            }),
    {
        self.ignore_sweep = Some(IgnoreSweep { target, at_ms: now_ms });
    }

    /// Takes the pending sweep's target when the last press was at most
    /// [`SWEEP_WINDOW_MS`] before `now_ms`; the sweep state is cleared either
    /// way.
    pub fn take_ignore_sweep(&mut self, now_ms: i64) -> (r: Option<ContextOverride>)
        requires
            old(self).wf(),
        ensures
            final(self).wf(),
            final(self)@ == (SessionView { ignore_sweep: None, ..old(self)@ }),
            r == old(self)@.live_sweep(now_ms),
    {
        let taken = self.ignore_sweep.take();
        match taken {
            Some(s) => {
                if s.at_ms <= now_ms && (now_ms as i128) - (s.at_ms as i128) <= (
                SWEEP_WINDOW_MS as i128) {
                    Some(s.target)
                } else {
                    None
                }
            },
            None => None,
        }
    }

    /// Clears any pending sweep.
    pub fn clear_ignore_sweep(&mut self)
        requires
            old(self).wf(),
        ensures
            final(self).wf(),
            final(self)@ == (SessionView { ignore_sweep: None, ..old(self)@ }),
    {
        self.ignore_sweep = None;
    }

    /// Sets the session title.
    pub fn set_title(&mut self, title: String)
        requires
            old(self).wf(),
        ensures
            final(self).wf(),
            final(self)@ == (SessionView { title: Some(title@), ..old(self)@ }),
    {
        self.title = Some(title);
    }

    /// Marks the session as streaming a response.
    pub fn begin_streaming(&mut self)
        requires
            old(self).wf(),
        ensures
            final(self).wf(),
            final(self)@ == (SessionView { streaming: true, ..old(self)@ }),
    {
        self.streaming = true;
    }

    /// The session's phase: streaming a response, busy with a background
    /// operation, or idle.
    pub fn phase(&self) -> (r: PhaseKind)
        ensures
            r == spec_phase(self@),
    {
        if self.streaming {
            PhaseKind::Streaming
        } else if self.busy {
            PhaseKind::Busy
        } else {
            PhaseKind::Idle
        }
    }

    /// Whether a background operation (a lifecycle command) is running.
    pub fn is_busy(&self) -> (r: bool)
        ensures
            r == self@.busy,
    {
        self.busy
    }

    /// Cancels the running background operation.
    pub fn cancel_busy(&mut self)
        requires
            old(self).wf(),
        ensures
            final(self).wf(),
            final(self)@ == (SessionView { busy: false, ..old(self)@ }),
    {
        self.busy = false;
    }

    /// Stops the running stream.
    pub fn cancel_stream_and_drain(&mut self)
        requires
            old(self).wf(),
        ensures
            final(self).wf(),
            final(self)@ == (SessionView { streaming: false, ..old(self)@ }),
    {
        self.streaming = false;
    }

    /// Stops the running stream, recording when (milliseconds) when the
    /// time is known.
    pub fn cancel_streaming(&mut self, now_ms: Option<i64>)
        requires
            old(self).wf(),
        ensures
            final(self).wf(),
            final(self)@ == (SessionView {
                streaming: false,
                cancelled_at_ms: match now_ms {
                    Some(t) => Some(t),
                    None => old(self)@.cancelled_at_ms,
                },
                ..old(self)@
            }),
    {
        self.streaming = false;
        match now_ms {
            Some(t) => self.cancelled_at_ms = Some(t),
            None => {},
        }
    }
}

/// Whether `id` occurs in `v`.
pub fn contains_id(v: &Vec<EntryId>, id: EntryId) -> (r: bool)
    ensures
        r == v@.contains(id),
{
    let mut i: usize = 0;
    while i < v.len()
        invariant
            i <= v@.len(),
            forall|j: int| 0 <= j < i ==> v@[j] != id,
        decreases v.len() - i,
    {
        if v[i] == id {
            assert(v@[i as int] == id);
            return true;
        }
        i += 1;
    }
    false
}

/// Adds `id` to `v` when absent, removes it when present.
pub fn toggle_id(v: &mut Vec<EntryId>, id: EntryId)
    requires
        no_dups(old(v)@),
    ensures
        final(v)@ == seq_toggle(old(v)@, id),
        no_dups(final(v)@),
{
    let mut i: usize = 0;
    while i < v.len()
        invariant
            i <= v@.len(),
            v@ == old(v)@,
            no_dups(v@),
            forall|j: int| 0 <= j < i ==> v@[j] != id,
        decreases v.len() - i,
    {
        if v[i] == id {
            let ghost before = v@;
            proof {
                assert(before.contains(id));
                let k = position_of(before, id);
                assert(before[k] == id);
                if k != i as int {
                    assert(before[k] != before[i as int]);
                }
            }
            v.remove(i);
            proof {
                assert(v@ == before.remove(i as int));
                assert forall|a: int, b: int|
                    0 <= a < v@.len() && 0 <= b < v@.len() && a != b implies v@[a] != v@[b] by {
                    let a2 = if a < i { a } else { a + 1 };
                    let b2 = if b < i { b } else { b + 1 };
                    assert(v@[a] == before[a2]);
                    assert(v@[b] == before[b2]);
                }
            }
            return ;
        }
        i += 1;
    }
    proof {
        assert(!old(v)@.contains(id));
    }
    v.push(id);
    proof {
        let s = v@;
        assert forall|a: int, b: int| 0 <= a < s.len() && 0 <= b < s.len() && a != b implies s[a]
            != s[b] by {
            if a == s.len() - 1 {
                assert(s[b] == old(v)@[b]);
            } else if b == s.len() - 1 {
                assert(s[a] == old(v)@[a]);
            }
        }
    }
}

} // verus!
