//! Chat entry selection intent handlers: navigate the chat log, pin, expand,
//! fork, yank, and flip entries in and out of the model's context.

use vstd::prelude::*;
use vstd::string::*;
use crate::app_state::{AppState, FrontendState, SessionStore, inherits_setup};
use crate::clock::now_millis;
use crate::intent_result::{IntentResult, Message};
use crate::session::{
    ChatEntry, ChatEntryKind, ChatSessionState, ContextOverride, EntryId, PinPosition, SessionId,
    SessionView, VisualItem, has_id, index_of_id, is_fresh_session, no_dups, position_of, spec_block_start,
    spec_expandable, spec_in_context, spec_text, items_valid,
};

verus! {

/// Which entries a jump looks for.
#[derive(Debug, Clone, Copy, PartialEq, Eq, Structural)]
pub enum EntryPredicate {
    /// Compaction summaries.
    Compaction,
    /// User messages.
    UserEntry,
    /// Pinned entries.
    Pinned,
}

/// Whether entry `e` is one that `p` looks for.
pub open spec fn spec_pred(p: EntryPredicate, e: ChatEntry) -> bool {
    match p {
        EntryPredicate::Compaction => e.kind is Compaction,
        EntryPredicate::UserEntry => e.kind is User,
        EntryPredicate::Pinned => e.pin_position is Some,
    }
}

impl EntryPredicate {
    /// Whether entry `e` is one this predicate looks for.
    pub fn test(&self, e: &ChatEntry) -> (r: bool)
        ensures
            r == spec_pred(*self, *e),
    {
        match self {
            EntryPredicate::Compaction => e.is_compaction(),
            EntryPredicate::UserEntry => e.is_user(),
            EntryPredicate::Pinned => e.is_pinned(),
        }
    }
}

/// Nothing but the active session changed.
pub open spec fn only_active_changed(old: AppState, new: AppState) -> bool {
    &&& new.frontend == old.frontend
    &&& new.session.inactive == old.session.inactive
    &&& new.session.loading == old.session.loading
    &&& new.session.next_session_id == old.session.next_session_id
}

/// The viewport height used for paging: at least one row.
pub open spec fn page(v: SessionView) -> int {
    if v.viewport_height == 0 {
        1
    } else {
        v.viewport_height as int
    }
}

/// One step of the selection cursor down, paging the viewport when the
/// cursor sits on the last visible row; `false` when already at the last row
/// (or, with nothing selected, when the history is empty).
pub open spec fn spec_advance(v: SessionView) -> (SessionView, bool) {
    match v.cursor {
        None => if v.history.len() > 0 {
            (v.select_next(), true)
        } else {
            (v, false)
        },
        Some(c) => if c + 1 >= v.rows() {
            (v, false)
        } else {
            let paged = if v.scroll_offset < v.visible_end() && v.visible_end() - 1 == c {
                v.scroll_down(page(v))
            } else {
                v
            };
            (paged.select_next(), true)
        },
    }
}

/// One step of the selection cursor up, paging the viewport up when the
/// cursor sits on the first visible row; no-op at the first row.
pub open spec fn spec_step_prev(v: SessionView) -> SessionView {
    match v.cursor {
        Some(c) => if c == 0 {
            v
        } else if v.scroll_offset < v.visible_end() && v.scroll_offset == c {
            v.scroll_up(page(v)).select_prev()
        } else {
            v.select_prev()
        },
        None => if v.history.len() > 0 {
            v.select_prev()
        } else {
            v
        },
    }
}

/// Advances the selection cursor by one entry, paging the viewport if
/// needed. Returns `false` if already at the last entry (no-op).
pub fn advance_selection_one(session: &mut ChatSessionState) -> (r: bool)
    requires
        old(session).wf(),
    ensures
        final(session).wf(),
        (final(session)@, r) == spec_advance(old(session)@),
{
    let (vstart, vend) = session.visible_entry_range();
    let rows = session.row_count();
    match session.selected_entry_index() {
        None => {
            if session.history().len() > 0 {
                session.select_next_entry();
                return true;
            }
            false
        },
        Some(cur) => {
            if cur + 1 >= rows {
                return false;
            }
            if vstart < vend && vend - 1 == cur {
                let h = session.viewport_height_value();
                let page = if h == 0 {
                    1
                } else {
                    h
                };
                session.scroll_down(page);
            }
            session.select_next_entry();
            true
        },
    }
}

/// What `handle_select_next` does: the state it leaves and the result it returns.
pub open spec fn select_next_effect(pre: AppState, post: AppState, r: IntentResult) -> bool {
    &&& (r.is_empty_result())
    &&& (only_active_changed(pre, post))
    &&& (post.session.active@ == spec_advance(pre.session.active@).0)
}

/// Selects the next chat entry in the active session. If the cursor is on
/// the last visible entry, pages the viewport down first, then advances the
/// cursor by exactly one. Clamps at the last entry; no wrapping.
pub fn handle_select_next(state: &mut AppState) -> (r: IntentResult)
    requires
        old(state).wf(),
    ensures
        final(state).wf(),
        r.wf(),
        select_next_effect(*old(state), *final(state), r),
{
    advance_selection_one(&mut state.session.active);
    IntentResult::empty()
}

/// What `handle_select_prev` does: the state it leaves and the result it returns.
pub open spec fn select_prev_effect(pre: AppState, post: AppState, r: IntentResult) -> bool {
    &&& (r.is_empty_result())
    &&& (only_active_changed(pre, post))
    &&& (post.session.active@ == spec_step_prev(pre.session.active@))
}

/// Selects the previous chat entry in the active session. If the cursor is
/// on the first visible entry, pages the viewport up first, then moves the
/// cursor back by exactly one. Clamps at entry 0; no wrapping.
pub fn handle_select_prev(state: &mut AppState) -> (r: IntentResult)
    requires
        old(state).wf(),
    ensures
        final(state).wf(),
        r.wf(),
        select_prev_effect(*old(state), *final(state), r),
{
    let session = &mut state.session.active;
    let (vstart, vend) = session.visible_entry_range();
    match session.selected_entry_index() {
        Some(cur) => {
            if cur == 0 {
                return IntentResult::empty();
            }
            if vstart < vend && vstart == cur {
                let h = session.viewport_height_value();
                let page = if h == 0 {
                    1
                } else {
                    h
                };
                session.scroll_up(page);
                session.select_prev_entry();
            } else {
                session.select_prev_entry();
            }
        },
        None => {
            if session.history().len() > 0 {
                session.select_prev_entry();
            }
        },
    }
    IntentResult::empty()
}

/// The anchor history index for a jump: the selected entry, else the first
/// entry of a selected collapsed block, else one past the newest entry;
/// `None` when the history is empty.
pub open spec fn spec_jump_anchor(v: SessionView) -> Option<int> {
    if v.history.len() == 0 {
        None
    } else if v.selected_history_index() is Some {
        v.selected_history_index()
    } else if v.cursor matches Some(c) && c < v.visual_items.len()
        && v.visual_items[c as int] is CollapsedIgnoredBlock {
        Some(v.visual_items[v.cursor.unwrap() as int]->start as int)
    } else {
        Some(v.history.len() as int)
    }
}

/// Resolve the anchor history index for a jump.
fn jump_anchor(session: &ChatSessionState) -> (r: Option<usize>)
    requires
        session.wf(),
    ensures
        r matches Some(a) ==> spec_jump_anchor(session@) == Some(a as int) && a
            <= session@.history.len(),
        r is None ==> spec_jump_anchor(session@) is None,
{
    let n = session.history().len();
    if n == 0 {
        return None;
    }
    if let Some(idx) = session.selected_history_index() {
        return Some(idx);
    }
    if let Some(VisualItem::CollapsedIgnoredBlock { start, .. }) = session.selected_visual_item() {
        return Some(start);
    }
    Some(n)
}

/// The first entry after index `a` that `p` looks for.
pub open spec fn first_match_after(h: Seq<ChatEntry>, a: int, p: EntryPredicate) -> Option<int> {
    if exists|j: int| a < j < h.len() && #[trigger] spec_pred(p, h[j]) {
        Some(
            choose|j: int|
                a < j < h.len() && #[trigger] spec_pred(p, h[j]) && forall|k: int|
                    a < k < j ==> !spec_pred(p, h[k]),
        )
    } else {
        None
    }
}

/// The last entry before index `a` that `p` looks for.
pub open spec fn last_match_before(h: Seq<ChatEntry>, a: int, p: EntryPredicate) -> Option<int> {
    if exists|j: int| 0 <= j < a && j < h.len() && #[trigger] spec_pred(p, h[j]) {
        Some(
            choose|j: int|
                0 <= j < a && j < h.len() && #[trigger] spec_pred(p, h[j]) && forall|k: int|
                    j < k < a ==> !spec_pred(p, h[k]),
        )
    } else {
        None
    }
}

/// The first entry after index `anchor` that `p` looks for.
fn find_next_match(h: &Vec<ChatEntry>, anchor: usize, p: EntryPredicate) -> (r: Option<usize>)
    ensures
        r matches Some(j) ==> first_match_after(h@, anchor as int, p) == Some(j as int) && j < h@.len(),
        r is None ==> first_match_after(h@, anchor as int, p) is None,
{
    let n = h.len();
    if anchor >= n {
        return None;
    }
    let mut j = anchor + 1;
    while j < n
        invariant
            anchor < j <= n,
            n == h@.len(),
            forall|k: int| anchor < k < j ==> !spec_pred(p, h@[k]),
        decreases n - j,
    {
        if p.test(&h[j]) {
            proof {
                assert(spec_pred(p, h@[j as int]));
                let c = choose|c: int|
                    anchor < c < h@.len() && #[trigger] spec_pred(p, h@[c]) && forall|k: int|
                        anchor < k < c ==> !spec_pred(p, h@[k]);
                if c < j {
                } else if c > j {
                    assert(!spec_pred(p, h@[j as int]));
                }
            }
            return Some(j);
        }
        j += 1;
    }
    None
}

/// The last entry before index `anchor` that `p` looks for.
fn find_prev_match(h: &Vec<ChatEntry>, anchor: usize, p: EntryPredicate) -> (r: Option<usize>)
    requires
        anchor <= h@.len(),
    ensures
        r matches Some(j) ==> last_match_before(h@, anchor as int, p) == Some(j as int) && j < h@.len(),
        r is None ==> last_match_before(h@, anchor as int, p) is None,
{
    let mut j = anchor;
    while j > 0
        invariant
            j <= anchor <= h@.len(),
            forall|k: int| j <= k < anchor ==> !spec_pred(p, h@[k]),
        decreases j,
    {
        if p.test(&h[j - 1]) {
            proof {
                let i = j - 1;
                assert(spec_pred(p, h@[i as int]));
                let c = choose|c: int|
                    0 <= c < anchor && c < h@.len() && #[trigger] spec_pred(p, h@[c]) && forall|k: int|
                        c < k < anchor ==> !spec_pred(p, h@[k]);
                if c > i {
                } else if c < i {
                    assert(!spec_pred(p, h@[i as int]));
                }
            }
            return Some(j - 1);
        }
        j -= 1;
    }
    None
}

/// The active session after a jump forward.
pub open spec fn spec_jump_next(v: SessionView, p: EntryPredicate) -> SessionView {
    match spec_jump_anchor(v) {
        None => v,
        Some(a) => match first_match_after(v.history, a, p) {
            Some(j) => v.select_id(v.history[j].id),
            None => v,
        },
    }
}

/// The active session after a jump backward.
pub open spec fn spec_jump_prev(v: SessionView, p: EntryPredicate) -> SessionView {
    match spec_jump_anchor(v) {
        None => v,
        Some(a) => match last_match_before(v.history, a, p) {
            Some(j) => v.select_id(v.history[j].id),
            None => v,
        },
    }
}

/// A match after `a` gives a first one.
proof fn lemma_first_match_exists(h: Seq<ChatEntry>, a: int, p: EntryPredicate, w: int)
    requires
        a < w < h.len(),
        spec_pred(p, h[w]),
    ensures
        exists|j: int|
            a < j < h.len() && #[trigger] spec_pred(p, h[j]) && forall|k: int|
                a < k < j ==> !spec_pred(p, h[k]),
    decreases w - a,
{
    if exists|k: int| a < k < w && #[trigger] spec_pred(p, h[k]) {
        let k = choose|k: int| a < k < w && #[trigger] spec_pred(p, h[k]);
        lemma_first_match_exists(h, a, p, k);
    } else {
        assert(forall|k: int| a < k < w ==> !spec_pred(p, h[k]));
    }
}

/// A match before `a` gives a last one.
proof fn lemma_last_match_exists(h: Seq<ChatEntry>, a: int, p: EntryPredicate, w: int)
    requires
        0 <= w < a <= h.len(),
        spec_pred(p, h[w]),
    ensures
        exists|j: int|
            0 <= j < a && j < h.len() && #[trigger] spec_pred(p, h[j]) && forall|k: int|
                j < k < a ==> !spec_pred(p, h[k]),
    decreases a - w,
{
    if exists|k: int| w < k < a && k < h.len() && #[trigger] spec_pred(p, h[k]) {
        let k = choose|k: int| w < k < a && k < h.len() && #[trigger] spec_pred(p, h[k]);
        lemma_last_match_exists(h, a, p, k);
    } else {
        assert(forall|k: int| w < k < a ==> !spec_pred(p, h[k]));
    }
}

/// What each jump looks for: a user message exactly when the entry's kind
/// is `User` (assistant replies are not user messages), a compaction
/// summary exactly when its kind is `Compaction`, a pinned entry exactly
/// when it has a pin position.
pub proof fn lemma_entry_predicates(e: ChatEntry)
    ensures
        spec_pred(EntryPredicate::UserEntry, e) <==> e.kind is User,
        spec_pred(EntryPredicate::Compaction, e) <==> e.kind is Compaction,
        spec_pred(EntryPredicate::Pinned, e) <==> e.pin_position is Some,
{
}

/// The first user message after index `a`, as the forward jump finds it.
proof fn lemma_first_user_after(h: Seq<ChatEntry>, a: int)
    ensures
        (exists|j: int| #![trigger h[j]] a < j < h.len() && h[j].kind is User) ==> {
            &&& first_match_after(h, a, EntryPredicate::UserEntry) is Some
            &&& ({
                let j = first_match_after(h, a, EntryPredicate::UserEntry)->0;
                &&& a < j < h.len()
                &&& h[j].kind is User
                &&& forall|k: int| #![trigger h[k]] a < k < j ==> !(h[k].kind is User)
            })
        },
        !(exists|j: int| #![trigger h[j]] a < j < h.len() && h[j].kind is User) ==> first_match_after(
            h,
            a,
            EntryPredicate::UserEntry,
        ) is None,
{
    let p = EntryPredicate::UserEntry;
    if exists|j: int| #![trigger h[j]] a < j < h.len() && h[j].kind is User {
        let w = choose|j: int| #![trigger h[j]] a < j < h.len() && h[j].kind is User;
        assert(spec_pred(p, h[w]));
        lemma_first_match_exists(h, a, p, w);
        let j = first_match_after(h, a, p)->0;
        assert forall|k: int| #![trigger h[k]] a < k < j implies !(h[k].kind is User) by {
            assert(!spec_pred(p, h[k]));
        }
    } else {
        assert forall|j: int| a < j < h.len() implies !spec_pred(p, #[trigger] h[j]) by {
            assert(!(h[j].kind is User));
        }
    }
}

/// The last user message before index `a`, as the backward jump finds it.
proof fn lemma_last_user_before(h: Seq<ChatEntry>, a: int)
    requires
        a <= h.len(),
    ensures
        (exists|j: int| #![trigger h[j]] 0 <= j < a && h[j].kind is User) ==> {
            &&& last_match_before(h, a, EntryPredicate::UserEntry) is Some
            &&& ({
                let j = last_match_before(h, a, EntryPredicate::UserEntry)->0;
                &&& 0 <= j < a
                &&& h[j].kind is User
                &&& forall|k: int| #![trigger h[k]] j < k < a ==> !(h[k].kind is User)
            })
        },
        !(exists|j: int| #![trigger h[j]] 0 <= j < a && h[j].kind is User) ==> last_match_before(
            h,
            a,
            EntryPredicate::UserEntry,
        ) is None,
{
    let p = EntryPredicate::UserEntry;
    if exists|j: int| #![trigger h[j]] 0 <= j < a && h[j].kind is User {
        let w = choose|j: int| #![trigger h[j]] 0 <= j < a && h[j].kind is User;
        assert(spec_pred(p, h[w]));
        lemma_last_match_exists(h, a, p, w);
        let j = last_match_before(h, a, p)->0;
        assert forall|k: int| #![trigger h[k]] j < k < a implies !(h[k].kind is User) by {
            assert(!spec_pred(p, h[k]));
        }
    } else {
        assert forall|j: int| 0 <= j < a && j < h.len() implies !spec_pred(p, #[trigger] h[j]) by {
            assert(!(h[j].kind is User));
        }
    }
}

/// A jump to the next user message lands on the first user message after
/// the anchor. The lemma names the landing entry `j`: it has kind `User`,
/// lies after the anchor, no entry strictly between the anchor and it is a
/// user message (assistant replies and other entries are passed over), and
/// the cursor goes to it. With no anchor or no user message after it (`j`
/// is `None`), the session is unchanged.
pub proof fn lemma_jump_next_user_entry(pre: AppState, post: AppState, r: IntentResult) -> (j: Option<int>)
    requires
        jump_next_entry_effect(EntryPredicate::UserEntry, pre, post, r),
    ensures
        ({
            let v = pre.session.active@;
            let h = v.history;
            match j {
                Some(j) => {
                    &&& spec_jump_anchor(v) matches Some(a) && a < j
                    &&& j < h.len()
                    &&& h[j].kind is User
                    &&& forall|k: int| #![trigger h[k]] spec_jump_anchor(v)->0 < k < j ==> !(h[k].kind is User)
                    &&& post.session.active@ == v.select_id(h[j].id)
                },
                None => {
                    &&& post.session.active@ == v
                    &&& spec_jump_anchor(v) matches Some(a) ==> forall|k: int| #![trigger h[k]] a < k < h.len() ==> !(h[k].kind is User)
                },
            }
        }),
{
    let v = pre.session.active@;
    let h = v.history;
    match spec_jump_anchor(v) {
        Some(a) => {
            lemma_first_user_after(h, a);
            match first_match_after(h, a, EntryPredicate::UserEntry) {
                Some(j) => Some(j),
                None => None,
            }
        },
        None => None,
    }
}

/// A jump to the previous user message lands on the last user message
/// before the anchor. The lemma names the landing entry `j`: it has kind
/// `User`, lies before the anchor, no entry strictly between it and the
/// anchor is a user message, and the cursor goes to it. With no anchor or
/// no user message before it (`j` is `None`), the session is unchanged.
pub proof fn lemma_jump_prev_user_entry(pre: AppState, post: AppState, r: IntentResult) -> (j: Option<int>)
    requires
        pre.wf(),
        jump_prev_entry_effect(EntryPredicate::UserEntry, pre, post, r),
    ensures
        ({
            let v = pre.session.active@;
            let h = v.history;
            match j {
                Some(j) => {
                    &&& spec_jump_anchor(v) matches Some(a) && j < a
                    &&& 0 <= j
                    &&& h[j].kind is User
                    &&& forall|k: int| #![trigger h[k]] j < k < spec_jump_anchor(v)->0 ==> !(h[k].kind is User)
                    &&& post.session.active@ == v.select_id(h[j].id)
                },
                None => {
                    &&& post.session.active@ == v
                    &&& spec_jump_anchor(v) matches Some(a) ==> forall|k: int| #![trigger h[k]] 0 <= k < a ==> !(h[k].kind is User)
                },
            }
        }),
{
    let v = pre.session.active@;
    let h = v.history;
    match spec_jump_anchor(v) {
        Some(a) => {
            if let Some(c) = v.cursor {
                if c < v.visual_items.len() {
                    assert(items_valid(v.visual_items, h.len()));
                    let it = v.visual_items[c as int];
                }
            }
            assert(a <= h.len());
            lemma_last_user_before(h, a);
            match last_match_before(h, a, EntryPredicate::UserEntry) {
                Some(j) => Some(j),
                None => None,
            }
        },
        None => None,
    }
}

/// What `handle_jump_next_entry` does: the state it leaves and the result it returns.
pub open spec fn jump_next_entry_effect(cb: EntryPredicate, pre: AppState, post: AppState, r: IntentResult) -> bool {
    &&& (r.is_empty_result())
    &&& (only_active_changed(pre, post))
    &&& (post.session.active@ == spec_jump_next(pre.session.active@, cb))
}

/// Jump the cursor to the next (newer) entry that `cb` looks for, scanning
/// forward from the anchor (exclusive). Clamps: a silent no-op if no such
/// entry exists beyond the anchor.
pub fn handle_jump_next_entry(state: &mut AppState, cb: EntryPredicate) -> (r: IntentResult)
    requires
        old(state).wf(),
    ensures
        final(state).wf(),
        r.wf(),
        jump_next_entry_effect(cb, *old(state), *final(state), r),
{
    let ghost v = state.session.active@;
    let anchor = match jump_anchor(&state.session.active) {
        Some(a) => a,
        None => return IntentResult::empty(),
    };
    let target = match find_next_match(state.session.active.history(), anchor, cb) {
        Some(j) => Some(state.session.active.history()[j].id),
        None => None,
    };
    if let Some(id) = target {
        state.session.active.set_selected_cursor_id(id);
    }
    IntentResult::empty()
}

/// What `handle_jump_prev_entry` does: the state it leaves and the result it returns.
pub open spec fn jump_prev_entry_effect(cb: EntryPredicate, pre: AppState, post: AppState, r: IntentResult) -> bool {
    &&& (r.is_empty_result())
    &&& (only_active_changed(pre, post))
    &&& (post.session.active@ == spec_jump_prev(pre.session.active@, cb))
}

/// Jump the cursor to the previous (older) entry that `cb` looks for,
/// scanning backward from the anchor (exclusive). Clamps: a silent no-op if
/// no such entry exists before the anchor.
pub fn handle_jump_prev_entry(state: &mut AppState, cb: EntryPredicate) -> (r: IntentResult)
    requires
        old(state).wf(),
    ensures
        final(state).wf(),
        r.wf(),
        jump_prev_entry_effect(cb, *old(state), *final(state), r),
{
    let ghost v = state.session.active@;
    let anchor = match jump_anchor(&state.session.active) {
        Some(a) => a,
        None => return IntentResult::empty(),
    };
    let target = match find_prev_match(state.session.active.history(), anchor, cb) {
        Some(j) => Some(state.session.active.history()[j].id),
        None => None,
    };
    if let Some(id) = target {
        state.session.active.set_selected_cursor_id(id);
    }
    IntentResult::empty()
}

/// The message a pin toggle emits for the selected entry of session `v`.
pub open spec fn spec_pin_message(v: SessionView, h: int) -> Message {
    if v.history[h].pin_position is Some {
        Message::UnpinChatEntry { session_id: v.session_id, entry_id: v.history[h].id }
    } else {
        Message::PinChatEntry {
            session_id: v.session_id,
            entry_id: v.history[h].id,
            position: PinPosition::Relative,
        }
    }
}

/// What `handle_pin_selected` does: the state it leaves and the result it returns.
pub open spec fn pin_selected_effect(pre: AppState, post: AppState, r: IntentResult) -> bool {
    &&& (post == pre)
    &&& (r.scope_signal is None)
    &&& (r.messages@ =~= match pre.session.active@.selected_history_index() {
                Some(h) => seq![spec_pin_message(pre.session.active@, h)],
                None => Seq::<Message>::empty(),
            })
}

/// Toggles the pin state of the selected chat entry: a pinned entry gets an
/// `UnpinChatEntry` command, an unpinned one a `PinChatEntry` command with
/// the `Relative` position. No-op without a selected entry.
pub fn handle_pin_selected(state: &mut AppState) -> (r: IntentResult)
    requires
        old(state).wf(),
    ensures
        final(state).wf(),
        r.wf(),
        pin_selected_effect(*old(state), *final(state), r),
{
    let session_id = state.session.active_session_id();
    let selected = match state.session.active.selected_entry() {
        Some(e) => e,
        None => return IntentResult::empty(),
    };
    let entry_id = selected.id;
    if selected.is_pinned() {
        IntentResult::new_message(Message::UnpinChatEntry { session_id, entry_id })
    } else {
        IntentResult::new_message(
            Message::PinChatEntry { session_id, entry_id, position: PinPosition::Relative },
        )
    }
}

/// What `handle_expand_tool_entry` does: the state it leaves and the result it returns.
pub open spec fn expand_tool_entry_effect(pre: AppState, post: AppState, r: IntentResult) -> bool {
    &&& (r.is_empty_result())
    &&& (only_active_changed(pre, post))
    &&& (post.session.active@ == match pre.session.active@.selected_history_index() {
                Some(h) => if spec_expandable(pre.session.active@.history[h].kind) {
                    SessionView {
                        expanded: crate::session::seq_toggle(
                            pre.session.active@.expanded,
                            pre.session.active@.history[h].id,
                        ),
                        ..pre.session.active@
                    }
                } else {
                    pre.session.active@
                },
                None => pre.session.active@,
            })
}

/// Toggles expand/collapse of the selected tool entry (tool call, tool
/// result, or annotation). No-op for other entries or without a selection.
pub fn handle_expand_tool_entry(state: &mut AppState) -> (r: IntentResult)
    requires
        old(state).wf(),
    ensures
        final(state).wf(),
        r.wf(),
        expand_tool_entry_effect(*old(state), *final(state), r),
{
    let entry_id = match state.session.active.selected_entry() {
        Some(e) => {
            if !e.is_expandable() {
                return IntentResult::empty();
            }
            e.id
        },
        None => return IntentResult::empty(),
    };
    state.session.active.toggle_expand_entry(entry_id);
    IntentResult::empty()
}

/// The entry whose ignored block a visibility toggle acts on: the first
/// entry of a selected collapsed block, or a selected out-of-context entry.
pub open spec fn spec_block_toggle_target(v: SessionView) -> Option<EntryId> {
    match v.cursor {
        None => None,
        Some(c) => if c < v.visual_items.len() {
            match v.visual_items[c as int] {
                VisualItem::CollapsedIgnoredBlock { start, .. } => if start < v.history.len() {
                    Some(v.history[start as int].id)
                } else {
                    None
                },
                VisualItem::Entry(h) => if h < v.history.len() && !spec_in_context(
                    v.history[h as int],
                ) {
                    Some(v.history[h as int].id)
                } else {
                    None
                },
            }
        } else {
            None
        },
    }
}

/// What `handle_toggle_ignored_block` does: the state it leaves and the result it returns.
pub open spec fn toggle_ignored_block_effect(pre: AppState, post: AppState, r: IntentResult) -> bool {
    &&& (r.is_empty_result())
    &&& (only_active_changed(pre, post))
    &&& (post.session.active@ == match spec_block_toggle_target(pre.session.active@) {
                Some(id) => pre.session.active@.toggle_block(id),
                None => pre.session.active@,
            })
}

/// Removing the one occurrence of `x` from a sequence without duplicates
/// leaves no `x`.
proof fn lemma_remove_only_occurrence(s: Seq<EntryId>, x: EntryId)
    requires
        no_dups(s),
        s.contains(x),
    ensures
        !s.remove(position_of(s, x)).contains(x),
{
    let p = position_of(s, x);
    let t = s.remove(p);
    assert forall|k: int| 0 <= k < t.len() implies t[k] != x by {
        if k < p {
            assert(t[k] == s[k]);
        } else {
            assert(t[k] == s[k + 1]);
        }
    }
}

/// The toggle key on a collapsed ignored block, laid out at its block's
/// first entry, expands the block when it was not shown.
pub proof fn lemma_collapsed_block_expands(pre: AppState, post: AppState, r: IntentResult, c: usize, start: usize, end: usize)
    requires
        pre.wf(),
        toggle_ignored_block_effect(pre, post, r),
        pre.session.active@.cursor == Some(c),
        c < pre.session.active@.visual_items.len(),
        pre.session.active@.visual_items[c as int] == (VisualItem::CollapsedIgnoredBlock { start, end }),
        start < pre.session.active@.history.len(),
        spec_block_start(pre.session.active@.history, start as int) == start,
        !pre.session.active@.shown_ignored_blocks.contains(pre.session.active@.history[start as int].id),
    ensures
        post.session.active@.shown_ignored_blocks == pre.session.active@.shown_ignored_blocks.push(
            pre.session.active@.history[start as int].id,
        ),
{
    let v = pre.session.active@;
    let id = v.history[start as int].id;
    assert(has_id(v.history, id));
    let i = index_of_id(v.history, id);
    assert(i == start);
}

/// The toggle key on an out-of-context entry of a shown ignored block
/// collapses the block.
pub proof fn lemma_shown_block_collapses(pre: AppState, post: AppState, r: IntentResult, c: usize, h: usize)
    requires
        pre.wf(),
        toggle_ignored_block_effect(pre, post, r),
        pre.session.active@.cursor == Some(c),
        c < pre.session.active@.visual_items.len(),
        pre.session.active@.visual_items[c as int] == VisualItem::Entry(h),
        h < pre.session.active@.history.len(),
        !spec_in_context(pre.session.active@.history[h as int]),
        pre.session.active@.shown_ignored_blocks.contains(
            pre.session.active@.history[spec_block_start(pre.session.active@.history, h as int)].id,
        ),
    ensures
        !post.session.active@.shown_ignored_blocks.contains(
            pre.session.active@.history[spec_block_start(pre.session.active@.history, h as int)].id,
        ),
{
    let v = pre.session.active@;
    let id = v.history[h as int].id;
    assert(has_id(v.history, id));
    let i = index_of_id(v.history, id);
    assert(i == h);
    let b = v.history[spec_block_start(v.history, h as int)].id;
    lemma_remove_only_occurrence(v.shown_ignored_blocks, b);
}

/// Toggles visibility of ignored entries in the selected visual item's
/// block: a collapsed block expands; an ignored entry of an expanded block
/// collapses it; a non-ignored entry, or no selection, is a no-op.
pub fn handle_toggle_ignored_block(state: &mut AppState) -> (r: IntentResult)
    requires
        old(state).wf(),
    ensures
        final(state).wf(),
        r.wf(),
        toggle_ignored_block_effect(*old(state), *final(state), r),
{
    let session = &state.session.active;
    let vi_idx = match session.selected_entry_index() {
        Some(i) => i,
        None => return IntentResult::empty(),
    };
    if vi_idx >= session.visual_items.len() {
        return IntentResult::empty();
    }
    let entry_id = match session.visual_items[vi_idx] {
        VisualItem::CollapsedIgnoredBlock { start, .. } => {
            if start >= session.history().len() {
                return IntentResult::empty();
            }
            session.history()[start].id
        },
        VisualItem::Entry(hist_idx) => {
            if hist_idx >= session.history().len() {
                return IntentResult::empty();
            }
            if session.history()[hist_idx].is_in_context() {
                return IntentResult::empty();
            }
            session.history()[hist_idx].id
        },
    };
    state.session.active.toggle_ignored_block_visibility(entry_id);
    IntentResult::empty()
}

/// What `handle_fork_from_entry` does: the state it leaves and the result it returns.
pub open spec fn fork_from_entry_effect(pre: AppState, post: AppState, r: IntentResult) -> bool {
    &&& (r.scope_signal is None)
    &&& (match pre.session.active@.selected_history_index() {
                Some(h) => {
                    &&& post.session == (SessionStore {
                        loading: Some(pre.session.active@.session_id),
                        ..pre.session
                    })
                    &&& post.frontend == pre.frontend
                    &&& r.messages@ =~= seq![
                        Message::SessionForkRequested {
                            source_session_id: pre.session.active@.session_id,
                            at_ordinal: h as usize,
                        },
                    ]
                },
                None => post == pre && r.messages@.len() == 0,
            })
}

/// Forks the session at the selected chat entry: emits
/// `SessionForkRequested` with `at_ordinal` the selected entry's history
/// index and marks the source session as loading. No-op without a selected
/// entry.
pub fn handle_fork_from_entry(state: &mut AppState) -> (r: IntentResult)
    requires
        old(state).wf(),
    ensures
        final(state).wf(),
        r.wf(),
        fork_from_entry_effect(*old(state), *final(state), r),
{
    let source_session_id = state.session.active_session_id();
    let at_ordinal = match state.session.active.selected_history_index() {
        Some(h) => h,
        None => return IntentResult::empty(),
    };
    state.session.begin_load(source_session_id);
    IntentResult::new_message(Message::SessionForkRequested { source_session_id, at_ordinal })
}

/// A fresh seed entry with the captured text, under id `id`: an assistant
/// message when the source was one, else a user message.
fn build_seed_entry(text: String, is_assistant: bool, id: EntryId) -> (r: ChatEntry)
    ensures
        r.id == id,
        r.pin_position is None,
        r.context_override == ContextOverride::Default,
        is_assistant ==> (r.kind matches ChatEntryKind::Assistant(t) && t@ == text@),
        !is_assistant ==> (r.kind matches ChatEntryKind::User(t) && t@ == text@),
{
    let mut e = if is_assistant {
        ChatEntry::assistant(text.as_str())
    } else {
        ChatEntry::user(text.as_str())
    };
    e.id = id;
    e
}

/// Whether a message pushes a seed copy of entry `e`, under id `id`, into
/// session `sid`.
pub open spec fn is_seed_push(m: Message, sid: SessionId, id: EntryId, e: ChatEntry) -> bool {
    match m {
        Message::PushChatEntry { session_id, entry } => {
            &&& session_id == sid
            &&& entry.id == id
            &&& entry.pin_position is None
            &&& entry.context_override == ContextOverride::Default
            &&& if e.kind is Assistant {
                entry.kind matches ChatEntryKind::Assistant(t) && t@ == spec_text(e.kind)
            } else {
                entry.kind matches ChatEntryKind::User(t) && t@ == spec_text(e.kind)
            }
        },
        _ => false,
    }
}

/// What `handle_new_session_from_entry` does: the state it leaves and the result it returns.
pub open spec fn new_session_from_entry_effect(pre: AppState, post: AppState, r: IntentResult) -> bool {
    &&& (r.scope_signal is None)
    &&& (match pre.session.active@.selected_history_index() {
                Some(h) => if pre.session.active@.history[h].kind is User
                    || pre.session.active@.history[h].kind is Assistant {
                    &&& post.session.inactive@ == pre.session.inactive@.push(
                        pre.session.active,
                    )
                    &&& is_fresh_session(post.session.active@, SessionId { id: pre.session.next_session_id })
                    &&& inherits_setup(post.session.active@, pre.session.active@)
                    &&& post.session.next_session_id == pre.session.next_session_id + 1
                    &&& post.session.loading == pre.session.loading
                    &&& post.frontend == pre.frontend
                    &&& r.messages@.len() == 2
                    &&& r.messages@[0] == (Message::SessionCreated {
                        session_id: post.session.active@.session_id,
                    })
                    &&& is_seed_push(
                        r.messages@[1],
                        post.session.active@.session_id,
                        EntryId { id: post.session.active@.next_entry_id },
                        pre.session.active@.history[h],
                    )
                } else {
                    post == pre && r.messages@.len() == 0
                },
                None => post == pre && r.messages@.len() == 0,
            })
}

/// Creates a new empty session seeded with the selected entry's text.
///
/// Only user and assistant entries qualify. A fresh session, with the
/// working directory, model, persona and reasoning effort of the session it
/// replaces, becomes the active one and is
/// announced with `SessionCreated`; then a `PushChatEntry` command carries the
/// seed (a copy of the entry's text, kind preserved) for the session actor to
/// push and persist; the handler itself does not push it. Nothing is
/// dispatched to the model: the new session stays idle. The seed carries
/// the id the new session hands out next, which none of its entries holds.
pub fn handle_new_session_from_entry(state: &mut AppState) -> (r: IntentResult)
    requires
        old(state).wf(),
        old(state).session.next_session_id < u64::MAX,
    ensures
        final(state).wf(),
        r.wf(),
        new_session_from_entry_effect(*old(state), *final(state), r),
{
    let (text, is_assistant) = match state.session.active.selected_entry() {
        Some(entry) => {
            if !(entry.is_user() || entry.is_assistant()) {
                return IntentResult::empty();
            }
            (entry.text(), entry.is_assistant())
        },
        None => return IntentResult::empty(),
    };
    let ghost old_state = *state;
    let new_session_id = state.session.open_new_session();
    proof {
        assert forall|i: int| 0 <= i < state.session.inactive@.len() implies #[trigger] state.session.inactive@[i].wf() by {
            if i < old_state.session.inactive@.len() {
                assert(state.session.inactive@[i] == old_state.session.inactive@[i]);
            }
        }
    }
    let seed = build_seed_entry(text, is_assistant, EntryId { id: state.session.active.next_entry_id });
    IntentResult::new_message(Message::SessionCreated { session_id: new_session_id }).with_message(
        Message::PushChatEntry { session_id: new_session_id, entry: seed },
    )
}

/// What `handle_yank_selected` does: the state it leaves and the result it returns.
pub open spec fn yank_selected_effect(pre: AppState, post: AppState, r: IntentResult) -> bool {
    &&& (r.is_empty_result())
    &&& (post.session == pre.session)
    &&& (match pre.session.active@.selected_history_index() {
                Some(h) => {
                    &&& post.frontend.tui_signals.yank_text matches Some(t) && t@ == spec_text(
                        pre.session.active@.history[h].kind,
                    )
                    &&& post.frontend == (FrontendState {
                        tui_signals: post.frontend.tui_signals,
                        ..pre.frontend
                    })
                    &&& post.frontend.tui_signals.toggle_whichkey
                        == pre.frontend.tui_signals.toggle_whichkey
                },
                None => post == pre,
            })
}

/// Yanks (copies) the selected chat entry's raw content into the
/// `yank_text` signal for the terminal layer to put on the clipboard.
pub fn handle_yank_selected(state: &mut AppState) -> (r: IntentResult)
    requires
        old(state).wf(),
    ensures
        final(state).wf(),
        r.wf(),
        yank_selected_effect(*old(state), *final(state), r),
{
    let text = match state.session.active.selected_entry() {
        Some(entry) => entry.yank_text(),
        None => return IntentResult::empty(),
    };
    state.frontend.tui_signals.yank_text = Some(text);
    IntentResult::empty()
}

/// The active session and messages of a fresh press of the ignore toggle at
/// time `now`, starting from session `v` (whose sweep state was already
/// taken).
pub open spec fn spec_fresh_toggle(v: SessionView, now: i64) -> (SessionView, Seq<Message>) {
    if v.selected_is_collapsed() {
        (spec_advance(v).0, Seq::empty())
    } else {
        match v.selected_history_index() {
            None => (v, Seq::empty()),
            Some(h) => if v.history[h].pin_position is Some {
                (v, Seq::empty())
            } else {
                let (t, changed) = v.toggle_ignored();
                let captured = t.history[h].context_override;
                let p = t.propagate(v.history[h].id);
                let a = spec_advance(p).0;
                let s = SessionView {
                    ignore_sweep: Some(crate::session::IgnoreSweep { target: captured, at_ms: now }),
                    ..a
                };
                let persist = Message::PersistSession { session_id: v.session_id };
                (
                    s,
                    match changed {
                        Some(id) => seq![
                            persist,
                            Message::ContextOverrideChanged { session_id: v.session_id, entry_id: id },
                        ],
                        None => seq![persist],
                    },
                )
            },
        }
    }
}

/// The active session and messages of one sweep step applying `target` at
/// time `now`, starting from session `v` (whose sweep state was already
/// taken): obstacles (collapsed blocks, pinned entries) are passed over.
pub open spec fn spec_sweep_step(v: SessionView, target: ContextOverride, now: i64) -> (
    SessionView,
    Seq<Message>,
) {
    let keep = crate::session::IgnoreSweep { target, at_ms: now };
    if v.selected_is_collapsed() || (v.selected_history_index() matches Some(h)
        && v.history[h].pin_position is Some) {
        (SessionView { ignore_sweep: Some(keep), ..spec_advance(v).0 }, Seq::empty())
    } else {
        match v.selected_history_index() {
            None => (v, Seq::empty()),
            Some(h) => {
                let (t, changed) = v.set_context_override(target);
                let p = match changed {
                    Some(id) => t.propagate(id),
                    None => t,
                };
                let a = spec_advance(p).0;
                (
                    SessionView { ignore_sweep: Some(keep), ..a },
                    match changed {
                        Some(id) => seq![
                            Message::PersistSession { session_id: v.session_id },
                            Message::ContextOverrideChanged { session_id: v.session_id, entry_id: id },
                        ],
                        None => Seq::empty(),
                    },
                )
            },
        }
    }
}

/// The active session and messages of a press of the ignore toggle at time
/// `now`: a sweep step when a sweep is live, else a fresh toggle.
pub open spec fn spec_ignore_selected(v: SessionView, now: i64) -> (SessionView, Seq<Message>) {
    let cleared = SessionView { ignore_sweep: None, ..v };
    match v.live_sweep(now) {
        Some(target) => spec_sweep_step(cleared, target, now),
        None => spec_fresh_toggle(cleared, now),
    }
}

/// What `handle_ignore_selected` does: the state it leaves and the result it returns.
pub open spec fn ignore_selected_effect(pre: AppState, post: AppState, r: IntentResult) -> bool {
    &&& (r.scope_signal is None)
    &&& (only_active_changed(pre, post))
    &&& ((exists|now: i64|
                (#[trigger] spec_ignore_selected(pre.session.active@, now)) == (
                post.session.active@,
                r.messages@,
            )) || (post.session.active == pre.session.active && r.messages@.len() == 0))
}

/// Toggle the `ignored` flag on the selected chat entry, with sweep support
/// for holding the key; the press happens now, by the system clock. When the
/// system clock reads a time no timestamp can hold, the press does nothing.
pub fn handle_ignore_selected(state: &mut AppState) -> (r: IntentResult)
    requires
        old(state).wf(),
    ensures
        final(state).wf(),
        r.wf(),
        ignore_selected_effect(*old(state), *final(state), r),
{
    match now_millis() {
        Some(now) => handle_ignore_selected_at(state, now),
        None => IntentResult::empty(),
    }
}

/// What `handle_ignore_selected_at` does: the state it leaves and the result it returns.
pub open spec fn ignore_selected_at_effect(now_ms: i64, pre: AppState, post: AppState, r: IntentResult) -> bool {
    &&& (r.scope_signal is None)
    &&& (only_active_changed(pre, post))
    &&& ((post.session.active@, r.messages@) =~~= spec_ignore_selected(
                pre.session.active@,
                now_ms,
            ))
}

/// Toggle the `ignored` flag on the selected chat entry, pressed at `now_ms`.
///
/// A fresh press toggles the entry, captures the resulting override,
/// advances the cursor and starts a sweep. A press within
/// [`crate::session::SWEEP_WINDOW_MS`] of the previous one applies the
/// captured override to the now-selected entry instead, passing over pinned
/// entries and collapsed blocks. Each change is persisted and announced.
pub fn handle_ignore_selected_at(state: &mut AppState, now_ms: i64) -> (r: IntentResult)
    requires
        old(state).wf(),
    ensures
        final(state).wf(),
        r.wf(),
        ignore_selected_at_effect(now_ms, *old(state), *final(state), r),
{
    match state.session.active.take_ignore_sweep(now_ms) {
        Some(target) => run_sweep(&mut state.session.active, target, now_ms),
        None => handle_fresh_toggle(&mut state.session.active, now_ms),
    }
}

/// One sweep step: applies `target` to the selected entry.
fn run_sweep(session: &mut ChatSessionState, target: ContextOverride, now_ms: i64) -> (r: IntentResult)
    requires
        old(session).wf(),
    ensures
        final(session).wf(),
        r.wf(),
        r.scope_signal is None,
        (final(session)@, r.messages@) == spec_sweep_step(old(session)@, target, now_ms),
{
    let on_obstacle = session.is_selected_collapsed_block() || match session.selected_entry() {
        Some(e) => e.is_pinned(),
        None => false,
    };
    if on_obstacle {
        advance_selection_one(session);
        session.set_ignore_sweep(target, now_ms);
        return IntentResult::empty();
    }
    if session.selected_entry().is_none() {
        return IntentResult::empty();
    }
    let session_id = session.session_id();
    let maybe_entry_id = session.set_entry_context_override(target);
    if let Some(id) = maybe_entry_id {
        session.propagate_shown_on_unignore(id);
    }
    advance_selection_one(session);
    session.set_ignore_sweep(target, now_ms);
    match maybe_entry_id {
        Some(id) => IntentResult::empty().with_message(Message::PersistSession { session_id }).with_message(
            Message::ContextOverrideChanged { session_id, entry_id: id },
        ),
        None => IntentResult::empty(),
    }
}

/// Fresh press of the ignore toggle: toggle the entry, capture the sweep
/// state, propagate shown blocks, advance the cursor.
fn handle_fresh_toggle(session: &mut ChatSessionState, now_ms: i64) -> (r: IntentResult)
    requires
        old(session).wf(),
    ensures
        final(session).wf(),
        r.wf(),
        r.scope_signal is None,
        (final(session)@, r.messages@) == spec_fresh_toggle(old(session)@, now_ms),
{
    if session.is_selected_collapsed_block() {
        advance_selection_one(session);
        return IntentResult::empty();
    }
    match session.selected_entry() {
        None => return IntentResult::empty(),
        Some(e) => {
            if e.is_pinned() {
                return IntentResult::empty();
            }
        },
    }
    let ghost v = session@;
    let ghost h = v.selected_history_index().unwrap();
    let maybe_entry_id = session.toggle_entry_ignored();
    let (captured, entry_id) = match session.selected_entry() {
        Some(selected) => (selected.context_override(), selected.id),
        None => return IntentResult::empty(),
    };
    session.propagate_shown_on_unignore(entry_id);
    advance_selection_one(session);
    session.set_ignore_sweep(captured, now_ms);
    let session_id = session.session_id();
    let mut result = IntentResult::empty().with_message(Message::PersistSession { session_id });
    if let Some(id) = maybe_entry_id {
        result = result.with_message(Message::ContextOverrideChanged { session_id, entry_id: id });
    }
    result
}

/// The active session and messages of a reset press: obstacles are passed
/// over; otherwise the selected entry's override returns to `Default`, the
/// cursor advances, and a change is persisted and announced.
pub open spec fn spec_reset_selected(v: SessionView) -> (SessionView, Seq<Message>) {
    if v.selected_is_collapsed() || (v.selected_history_index() matches Some(h)
        && v.history[h].pin_position is Some) {
        (spec_advance(v).0, Seq::empty())
    } else {
        match v.selected_history_index() {
            None => (v, Seq::empty()),
            Some(h) => {
                let (t, changed) = v.set_context_override(ContextOverride::Default);
                let p = match changed {
                    Some(id) => t.propagate(id),
                    None => t,
                };
                (
                    spec_advance(p).0,
                    match changed {
                        Some(id) => seq![
                            Message::PersistSession { session_id: v.session_id },
                            Message::ContextOverrideChanged { session_id: v.session_id, entry_id: id },
                        ],
                        None => Seq::empty(),
                    },
                )
            },
        }
    }
}

/// What `handle_reset_selected` does: the state it leaves and the result it returns.
pub open spec fn reset_selected_effect(pre: AppState, post: AppState, r: IntentResult) -> bool {
    &&& (r.scope_signal is None)
    &&& (only_active_changed(pre, post))
    &&& ((post.session.active@, r.messages@) =~~= spec_reset_selected(
                pre.session.active@,
            ))
}

/// Whether the reset key passes over the selected row: a collapsed block
/// or a pinned entry.
pub open spec fn reset_obstacle(v: SessionView) -> bool {
    v.selected_is_collapsed() || (v.selected_history_index() matches Some(h) && v.history[h].pin_position is Some)
}

/// The reset key's three cases. Over an obstacle, or on an entry already at
/// `Default`, no override changes and nothing is emitted; otherwise the
/// selected entry returns to `Default` and `PersistSession` then
/// `ContextOverrideChanged` are emitted. In every case with a selected row
/// the cursor steps on as one step of the cursor would move it (`h` is the
/// selected entry's history index).
pub proof fn lemma_reset_cases(pre: AppState, post: AppState, r: IntentResult, h: int)
    requires
        reset_selected_effect(pre, post, r),
    ensures
        ({
            let v = pre.session.active@;
            let w = post.session.active@;
            &&& reset_obstacle(v) ==> w.history == v.history && r.messages@.len() == 0
                && w.cursor == spec_advance(v).0.cursor
            &&& (!reset_obstacle(v) && v.selected_history_index() == Some(h)
                && v.history[h].context_override == ContextOverride::Default) ==> w.history == v.history
                && r.messages@.len() == 0 && w.cursor == spec_advance(v).0.cursor
            &&& (!reset_obstacle(v) && v.selected_history_index() == Some(h)
                && v.history[h].context_override != ContextOverride::Default) ==> {
                &&& w.history == v.history.update(h, ChatEntry { context_override: ContextOverride::Default, ..v.history[h] })
                &&& r.messages@ == seq![
                    Message::PersistSession { session_id: v.session_id },
                    Message::ContextOverrideChanged { session_id: v.session_id, entry_id: v.history[h].id },
                ]
                &&& w.cursor == spec_advance(v).0.cursor
            }
        }),
{
    let v = pre.session.active@;
    if !reset_obstacle(v) {
        if v.selected_history_index() == Some(h) {
            if v.history[h].context_override != ContextOverride::Default {
                let (t, changed) = v.set_context_override(ContextOverride::Default);
                let p = t.propagate(v.history[h].id);
                assert(p.rows() == v.rows());
                assert(p.visible_end() == v.visible_end());
                assert(page(p) == page(v));
            }
        }
    }
}

/// Resets the selected entry's context override to `Default` and advances
/// the cursor, so that holding the key sweeps resets. Pinned entries and
/// collapsed blocks are passed over; already-`Default` entries are silent.
pub fn handle_reset_selected(state: &mut AppState) -> (r: IntentResult)
    requires
        old(state).wf(),
    ensures
        final(state).wf(),
        r.wf(),
        reset_selected_effect(*old(state), *final(state), r),
{
    let session = &mut state.session.active;
    let on_obstacle = session.is_selected_collapsed_block() || match session.selected_entry() {
        Some(e) => e.is_pinned(),
        None => false,
    };
    if on_obstacle {
        advance_selection_one(session);
        return IntentResult::empty();
    }
    if session.selected_entry().is_none() {
        return IntentResult::empty();
    }
    let maybe_entry_id = session.set_entry_context_override(ContextOverride::Default);
    if let Some(id) = maybe_entry_id {
        session.propagate_shown_on_unignore(id);
    }
    advance_selection_one(session);
    let id = match maybe_entry_id {
        Some(id) => id,
        None => return IntentResult::empty(),
    };
    let session_id = session.session_id();
    IntentResult::empty().with_message(Message::PersistSession { session_id }).with_message(
        Message::ContextOverrideChanged { session_id, entry_id: id },
    )
}


} // verus!
