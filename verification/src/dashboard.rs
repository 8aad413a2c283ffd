//! The dashboard: one row per actor, each with a lifecycle, an optional
//! description and an optional free-form status message.
//!
//! Rows are kept in insertion order and are keyed by name: no two rows share
//! a name. The selection cursor and the scroll offset of the rendered table
//! live beside the rows.

use vstd::prelude::*;
use vstd::string::*;
use crate::lifecycle::ActorLifecycle;

verus! {

/// A single actor's display data in the dashboard.
#[derive(Debug)]
pub struct DashboardEntry {
    /// The actor's display name (also its unique key).
    pub name: String,
    /// A short description of what the actor does.
    pub description: Option<String>,
    /// The actor's current lifecycle phase.
    pub lifecycle: ActorLifecycle,
    /// Free-form third column (the Notes column).
    pub status_message: Option<String>,
}

/// The mathematical content of a dashboard row.
pub struct EntryView {
    pub name: Seq<char>,
    pub description: Option<Seq<char>>,
    pub lifecycle: ActorLifecycle,
    pub status_message: Option<Seq<char>>,
}

impl View for DashboardEntry {
    type V = EntryView;

    open spec fn view(&self) -> EntryView {
        EntryView {
            name: self.name@,
            description: self.description.deep_view(),
            lifecycle: self.lifecycle,
            status_message: self.status_message.deep_view(),
        }
    }
}

/// Copies an optional string, keeping its content.
pub fn copy_opt_string(s: &Option<String>) -> (r: Option<String>)
    ensures
        r.deep_view() == s.deep_view(),
{
    match s {
        Some(t) => Some(t.clone()),
        None => None,
    }
}

impl DashboardEntry {
    /// A copy of this row with the same content.
    pub fn copy(&self) -> (r: DashboardEntry)
        ensures
            r@ == self@,
    {
        DashboardEntry {
            name: self.name.clone(),
            description: copy_opt_string(&self.description),
            lifecycle: self.lifecycle,
            status_message: copy_opt_string(&self.status_message),
        }
    }
}

/// The abstract dashboard: rows in display order, the selected row index and
/// the vertical scroll offset.
pub struct DashboardModel {
    pub entries: Seq<EntryView>,
    pub selected_index: nat,
    pub scroll_offset: nat,
}

/// No two rows share a name.
pub open spec fn names_unique(s: Seq<EntryView>) -> bool {
    forall|i: int, j: int|
        0 <= i < s.len() && 0 <= j < s.len() && i != j ==> #[trigger] s[i].name != #[trigger] s[j].name
}

/// Some row carries the name `n`.
pub open spec fn has_name(s: Seq<EntryView>, n: Seq<char>) -> bool {
    exists|i: int| 0 <= i < s.len() && #[trigger] s[i].name == n
}

/// The position of the row named `n` (meaningful when `has_name(s, n)`).
pub open spec fn index_of(s: Seq<EntryView>, n: Seq<char>) -> int {
    choose|i: int| 0 <= i < s.len() && #[trigger] s[i].name == n
}

/// The rows after recording lifecycle `lc` (and description `d`, if given)
/// for the actor `n`: a new actor is appended with no status message; an
/// existing one gets the new lifecycle, keeps its status message, and keeps
/// its description unless a new one is supplied.
pub open spec fn spec_upsert(
    s: Seq<EntryView>,
    n: Seq<char>,
    d: Option<Seq<char>>,
    lc: ActorLifecycle,
) -> Seq<EntryView> {
    if has_name(s, n) {
        let i = index_of(s, n);
        s.update(
            i,
            EntryView {
                name: s[i].name,
                description: if d is Some { d } else { s[i].description },
                lifecycle: lc,
                status_message: s[i].status_message,
            },
        )
    } else {
        s.push(EntryView { name: n, description: d, lifecycle: lc, status_message: None })
    }
}

/// The rows after setting the status message of the actor `n` to `m`: an
/// unknown actor is appended as `Starting` with no description; an existing
/// one keeps everything but its status message.
pub open spec fn spec_set_status(
    s: Seq<EntryView>,
    n: Seq<char>,
    m: Option<Seq<char>>,
) -> Seq<EntryView> {
    if has_name(s, n) {
        let i = index_of(s, n);
        s.update(
            i,
            EntryView {
                name: s[i].name,
                description: s[i].description,
                lifecycle: s[i].lifecycle,
                status_message: m,
            },
        )
    } else {
        s.push(
            EntryView {
                name: n,
                description: None,
                lifecycle: ActorLifecycle::Starting,
                status_message: m,
            },
        )
    }
}

/// `a - b`, floored at zero.
pub open spec fn sat_sub(a: int, b: int) -> int {
    if a >= b {
        a - b
    } else {
        0
    }
}

/// `a + b`, capped at `u16::MAX`.
pub open spec fn sat_add_u16(a: int, b: int) -> int {
    if a + b > u16::MAX {
        u16::MAX as int
    } else {
        a + b
    }
}

/// The scroll offset after clamping: the offset `off` is moved just enough
/// for the selected row `sel` to fall inside a window of `vh` rows, then capped
/// so that the window does not run past the last of `count` rows.
pub open spec fn spec_clamp_offset(count: int, sel: int, off: int, vh: int) -> int {
    if vh == 0 {
        off
    } else if count == 0 {
        0
    } else {
        let bottom = sat_sub(sat_add_u16(off, vh), 1);
        let moved = if sel < off {
            sel
        } else if sel > bottom {
            sat_add_u16(sat_sub(sel, vh), 1)
        } else {
            off
        };
        let max_offset = sat_sub(count, vh);
        if moved < max_offset {
            moved
        } else {
            max_offset
        }
    }
}

/// The valid scroll offsets for a selection `sel` among `count` rows with a
/// window of `vh` rows: the selection is inside the window, and the window
/// does not start past the last full page.
pub open spec fn shows_selection(count: int, sel: int, vh: int, o: int) -> bool {
    &&& 0 <= o <= sel < o + vh
    &&& o <= sat_sub(count, vh)
}

/// How far apart `a` and `b` are.
pub open spec fn distance(a: int, b: int) -> int {
    if a >= b {
        a - b
    } else {
        b - a
    }
}

/// Clamping moves the scroll offset as little as it can: the resulting
/// offset keeps the selected row inside the window and the window inside
/// the rows, and no such offset lies closer to the old one. In particular an
/// offset that already shows the selection is left as it is. (Rows and
/// window are counted in `u16`; the old window's end must be countable too.)
pub proof fn lemma_clamp_moves_least(count: int, sel: int, off: int, vh: int)
    requires
        0 < vh,
        0 <= sel < count <= u16::MAX,
        0 <= off,
        off + vh <= u16::MAX,
    ensures
        shows_selection(count, sel, vh, spec_clamp_offset(count, sel, off, vh)),
        forall|o: int|
            #![trigger shows_selection(count, sel, vh, o)]
            shows_selection(count, sel, vh, o) ==> distance(spec_clamp_offset(count, sel, off, vh), off)
                <= distance(o, off),
        shows_selection(count, sel, vh, off) ==> spec_clamp_offset(count, sel, off, vh) == off,
{
}

/// Tracks the status of all actors for dashboard display.
#[derive(Debug)]
pub struct DashboardState {
    /// Rows in insertion order; names are unique.
    entries: Vec<DashboardEntry>,
    /// Index of the currently selected row.
    selected_index: usize,
    /// Vertical scroll offset in visual lines.
    scroll_offset: u16,
}

impl View for DashboardState {
    type V = DashboardModel;

    closed spec fn view(&self) -> DashboardModel {
        DashboardModel {
            entries: self.entries@.map_values(|e: DashboardEntry| e@),
            selected_index: self.selected_index as nat,
            scroll_offset: self.scroll_offset as nat,
        }
    }
}

impl DashboardModel {
    /// The dashboard's invariant: names are unique and the selection is
    /// either at the top or on an existing row.
    pub open spec fn wf(self) -> bool {
        &&& names_unique(self.entries)
        &&& (self.selected_index == 0 || self.selected_index < self.entries.len())
    }
}

impl DashboardState {
    /// The invariant that every operation keeps.
    pub open spec fn wf(&self) -> bool {
        self@.wf()
    }

    proof fn lemma_view_index(&self, i: int)
        requires
            0 <= i < self.entries.len(),
        ensures
            self@.entries[i] == self.entries@[i]@,
            self@.entries.len() == self.entries.len(),
    {
    }

    /// Create an empty dashboard state.
    pub fn new() -> (s: Self)
        ensures
            s.wf(),
            s@.entries == Seq::<EntryView>::empty(),
            s@.selected_index == 0,
            s@.scroll_offset == 0,
    {
        let s = DashboardState { entries: Vec::new(), selected_index: 0, scroll_offset: 0 };
        assert(s@.entries =~= Seq::<EntryView>::empty());
        s
    }

    /// Returns the index of the currently selected actor entry.
    pub fn selected_index(&self) -> (r: usize)
        ensures
            r == self@.selected_index,
    {
        self.selected_index
    }

    /// Returns the current vertical scroll offset in visual lines.
    pub fn scroll_offset(&self) -> (r: u16)
        ensures
            r == self@.scroll_offset,
    {
        self.scroll_offset
    }

    /// Number of rows.
    pub fn len(&self) -> (r: usize)
        ensures
            r == self@.entries.len(),
    {
        self.entries.len()
    }

    /// Looks up the position of the row named `key`.
    fn find(&self, key: &String) -> (r: Option<usize>)
        ensures
            r is None ==> !has_name(self@.entries, key@),
            r matches Some(i) ==> i < self@.entries.len() && self@.entries[i as int].name == key@,
    {
        let mut i: usize = 0;
        while i < self.entries.len()
            invariant
                i <= self.entries.len(),
                self@.entries.len() == self.entries.len(),
                forall|j: int| 0 <= j < i ==> #[trigger] self@.entries[j].name != key@,
            decreases self.entries.len() - i,
        {
            proof {
                self.lemma_view_index(i as int);
            }
            if self.entries[i].name == *key {
                return Some(i);
            }
            i += 1;
        }
        None
    }

    /// Returns all tracked actors in insertion order.
    pub fn actors(&self) -> (r: Vec<&DashboardEntry>)
        ensures
            r@.len() == self@.entries.len(),
            forall|i: int| 0 <= i < r@.len() ==> #[trigger] r@[i]@ == self@.entries[i],
    {
        let mut out: Vec<&DashboardEntry> = Vec::new();
        let mut i: usize = 0;
        while i < self.entries.len()
            invariant
                i <= self.entries.len(),
                self@.entries.len() == self.entries.len(),
                out@.len() == i,
                forall|j: int| 0 <= j < i ==> #[trigger] out@[j]@ == self@.entries[j],
            decreases self.entries.len() - i,
        {
            proof {
                self.lemma_view_index(i as int);
            }
            out.push(&self.entries[i]);
            i += 1;
        }
        out
    }

    /// Returns the row named `name`, if any.
    pub fn entry(&self, name: &str) -> (r: Option<&DashboardEntry>)
        requires
            self.wf(),
        ensures
            r is None <==> !has_name(self@.entries, name@),
            r matches Some(e) ==> e@.name == name@ && has_name(self@.entries, name@)
                && e@ == self@.entries[index_of(self@.entries, name@)],
    {
        let key = String::from_str(name);
        match self.find(&key) {
            Some(i) => {
                proof {
                    self.lemma_view_index(i as int);
                    let k = index_of(self@.entries, name@);
                    assert(self@.entries[i as int].name == name@);
                }
                Some(&self.entries[i])
            },
            None => None,
        }
    }

    /// Clamps `scroll_offset` so the selected entry is always visible within
    /// a viewport of `viewport_height` rows.
    pub fn clamp_scroll(&mut self, viewport_height: u16)
        requires
            old(self).wf(),
        ensures
            final(self).wf(),
            final(self)@.entries == old(self)@.entries,
            final(self)@.selected_index == old(self)@.selected_index,
            final(self)@.scroll_offset == spec_clamp_offset(
                (old(self)@.entries.len() as u16) as int,
                if old(self)@.selected_index > u16::MAX {
                    u16::MAX as int
                } else {
                    old(self)@.selected_index as int
                },
                old(self)@.scroll_offset as int,
                viewport_height as int,
            ),
            // The selected row is inside the window, and the window does not
            // run past the last row.
            viewport_height > 0 && 0 < old(self)@.entries.len() <= u16::MAX ==> {
                &&& final(self)@.scroll_offset <= final(self)@.selected_index
                &&& final(self)@.selected_index < final(self)@.scroll_offset + viewport_height
                &&& final(self)@.scroll_offset <= sat_sub(
                    old(self)@.entries.len() as int,
                    viewport_height as int,
                )
            },
    {
        if viewport_height == 0 {
            return;
        }
        let count = self.entries.len() as u16;
        if count == 0 {
            self.scroll_offset = 0;
            return;
        }
        let sel: u16 = if self.selected_index > 65535 {
            65535
        } else {
            self.selected_index as u16
        };
        let bottom = self.scroll_offset.saturating_add(viewport_height).saturating_sub(1);
        if sel < self.scroll_offset {
            self.scroll_offset = sel;
        } else if sel > bottom {
            self.scroll_offset = sel.saturating_sub(viewport_height).saturating_add(1);
        }
        let max_offset = count.saturating_sub(viewport_height);
        if max_offset < self.scroll_offset {
            self.scroll_offset = max_offset;
        }
    }

    /// Moves the selection to the next actor entry; clamps at the last entry.
    pub fn select_next(&mut self)
        requires
            old(self).wf(),
        ensures
            final(self).wf(),
            final(self)@.entries == old(self)@.entries,
            final(self)@.scroll_offset == old(self)@.scroll_offset,
            final(self)@.selected_index == if old(self)@.entries.len() > 0
                && old(self)@.selected_index + 1 < old(self)@.entries.len() {
                old(self)@.selected_index + 1
            } else {
                old(self)@.selected_index
            },
    {
        let count = self.entries.len();
        if count > 0 && self.selected_index < count - 1 {
            self.selected_index += 1;
        }
    }

    /// Moves the selection to the previous actor entry; clamps at the first.
    pub fn select_prev(&mut self)
        requires
            old(self).wf(),
        ensures
            final(self).wf(),
            final(self)@.entries == old(self)@.entries,
            final(self)@.scroll_offset == old(self)@.scroll_offset,
            final(self)@.selected_index == if old(self)@.selected_index > 0 {
                (old(self)@.selected_index - 1) as nat
            } else {
                0
            },
    {
        if self.selected_index > 0 {
            self.selected_index -= 1;
        }
    }

    /// Moves the selection to the first actor entry; no-op with no actors.
    pub fn select_first(&mut self)
        requires
            old(self).wf(),
        ensures
            final(self).wf(),
            final(self)@.entries == old(self)@.entries,
            final(self)@.scroll_offset == old(self)@.scroll_offset,
            final(self)@.selected_index == if old(self)@.entries.len() > 0 {
                0
            } else {
                old(self)@.selected_index
            },
    {
        if self.entries.len() > 0 {
            self.selected_index = 0;
        }
    }

    /// Moves the selection to the last actor entry; no-op with no actors.
    pub fn select_last(&mut self)
        requires
            old(self).wf(),
        ensures
            final(self).wf(),
            final(self)@.entries == old(self)@.entries,
            final(self)@.scroll_offset == old(self)@.scroll_offset,
            final(self)@.selected_index == if old(self)@.entries.len() > 0 {
                (old(self)@.entries.len() - 1) as nat
            } else {
                old(self)@.selected_index
            },
    {
        if self.entries.len() > 0 {
            self.selected_index = self.entries.len() - 1;
        }
    }

    /// Resets the grid to empty: no actors, selection at top, scroll 0.
    pub fn clear(&mut self)
        ensures
            final(self).wf(),
            final(self)@.entries == Seq::<EntryView>::empty(),
            final(self)@.selected_index == 0,
            final(self)@.scroll_offset == 0,
    {
        self.entries.clear();
        self.selected_index = 0;
        self.scroll_offset = 0;
        assert(self@.entries =~= Seq::<EntryView>::empty());
    }

    /// Record that an actor is in (or has returned to) the startup phase.
    pub fn mark_starting(&mut self, name: &str, description: Option<String>)
        requires
            old(self).wf(),
        ensures
            final(self).wf(),
            final(self)@.entries == spec_upsert(
                old(self)@.entries,
                name@,
                description.deep_view(),
                ActorLifecycle::Starting,
            ),
            final(self)@.selected_index == old(self)@.selected_index,
            final(self)@.scroll_offset == old(self)@.scroll_offset,
    {
        self.upsert(name, description, ActorLifecycle::Starting);
    }

    /// Record that an actor has finished starting and is running.
    pub fn mark_running(&mut self, name: &str, description: Option<String>)
        requires
            old(self).wf(),
        ensures
            final(self).wf(),
            final(self)@.entries == spec_upsert(
                old(self)@.entries,
                name@,
                description.deep_view(),
                ActorLifecycle::Running,
            ),
            final(self)@.selected_index == old(self)@.selected_index,
            final(self)@.scroll_offset == old(self)@.scroll_offset,
    {
        self.upsert(name, description, ActorLifecycle::Running);
    }

    /// Record that an actor has shut down (intentionally or via crash).
    pub fn mark_dead(&mut self, name: &str, description: Option<String>)
        requires
            old(self).wf(),
        ensures
            final(self).wf(),
            final(self)@.entries == spec_upsert(
                old(self)@.entries,
                name@,
                description.deep_view(),
                ActorLifecycle::Dead,
            ),
            final(self)@.selected_index == old(self)@.selected_index,
            final(self)@.scroll_offset == old(self)@.scroll_offset,
    {
        self.upsert(name, description, ActorLifecycle::Dead);
    }

    /// Records lifecycle `lifecycle` for the actor `name`.
    pub fn mark(&mut self, name: &str, description: Option<String>, lifecycle: ActorLifecycle)
        requires
            old(self).wf(),
        ensures
            final(self).wf(),
            final(self)@.entries == spec_upsert(
                old(self)@.entries,
                name@,
                description.deep_view(),
                lifecycle,
            ),
            final(self)@.selected_index == old(self)@.selected_index,
            final(self)@.scroll_offset == old(self)@.scroll_offset,
    {
        match lifecycle {
            ActorLifecycle::Starting => self.mark_starting(name, description),
            ActorLifecycle::Running => self.mark_running(name, description),
            ActorLifecycle::Dead => self.mark_dead(name, description),
        }
    }

    /// Update only the free-form status message for an actor, leaving its
    /// lifecycle untouched; creates the entry (as `Starting`) if missing.
    pub fn set_status_message(&mut self, name: &str, message: Option<String>)
        requires
            old(self).wf(),
        ensures
            final(self).wf(),
            final(self)@.entries == spec_set_status(old(self)@.entries, name@, message.deep_view()),
            final(self)@.selected_index == old(self)@.selected_index,
            final(self)@.scroll_offset == old(self)@.scroll_offset,
    {
        let key = String::from_str(name);
        let ghost old_entries = self@.entries;
        match self.find(&key) {
            None => {
                let e = DashboardEntry {
                    name: key,
                    description: None,
                    lifecycle: ActorLifecycle::Starting,
                    status_message: message,
                };
                self.entries.push(e);
                proof {
                    assert(self@.entries =~= spec_set_status(old_entries, name@, message.deep_view()));
                }
            },
            Some(i) => {
                proof {
                    self.lemma_view_index(i as int);
                }
                let e = DashboardEntry {
                    name: self.entries[i].name.clone(),
                    description: copy_opt_string(&self.entries[i].description),
                    lifecycle: self.entries[i].lifecycle,
                    status_message: message,
                };
                self.entries.set(i, e);
                proof {
                    assert(index_of(old_entries, name@) == i as int);
                    assert(self@.entries =~= spec_set_status(old_entries, name@, message.deep_view()));
                }
            },
        }
    }

    /// Insert-or-update helper applying a new lifecycle and optional
    /// description. Does not touch `status_message` on existing entries.
    pub fn upsert(&mut self, name: &str, description: Option<String>, lifecycle: ActorLifecycle)
        requires
            old(self).wf(),
        ensures
            final(self).wf(),
            final(self)@.entries == spec_upsert(
                old(self)@.entries,
                name@,
                description.deep_view(),
                lifecycle,
            ),
            final(self)@.selected_index == old(self)@.selected_index,
            final(self)@.scroll_offset == old(self)@.scroll_offset,
    {
        let key = String::from_str(name);
        let ghost old_entries = self@.entries;
        let ghost d = description.deep_view();
        match self.find(&key) {
            None => {
                let e = DashboardEntry {
                    name: key,
                    description,
                    lifecycle,
                    status_message: None,
                };
                self.entries.push(e);
                proof {
                    assert(self@.entries =~= spec_upsert(old_entries, name@, d, lifecycle));
                }
            },
            Some(i) => {
                proof {
                    self.lemma_view_index(i as int);
                }
                let new_description = match description {
                    Some(d) => Some(d),
                    None => copy_opt_string(&self.entries[i].description),
                };
                let e = DashboardEntry {
                    name: self.entries[i].name.clone(),
                    description: new_description,
                    lifecycle,
                    status_message: copy_opt_string(&self.entries[i].status_message),
                };
                self.entries.set(i, e);
                proof {
                    assert(index_of(old_entries, name@) == i as int);
                    assert(self@.entries =~= spec_upsert(old_entries, name@, d, lifecycle));
                }
            },
        }
    }
}

} // verus!
