//! Continuing a session in a Discord forum thread: the checks made before
//! the thread is requested.
//!
//! On success the handler emits `CreateThreadForSession`; the Discord side
//! creates the thread and reports back. On a failed check it pushes an error
//! entry into the active session's history and emits nothing.

use vstd::prelude::*;
use vstd::string::*;
use crate::app_state::AppState;
use crate::dashboard::{has_name, index_of};
use crate::intent_result::{IntentResult, Message};
use crate::lifecycle::ActorLifecycle;
use crate::selection::only_active_changed;
use crate::session::{ChatEntry, ChatEntryKind, ContextOverride, SessionView};
use crate::slices::Slices;

verus! {

/// The error shown when the session has no title yet.
pub const NO_TITLE_MESSAGE: &'static str = "Can't continue in Discord: this session has no title yet. Send a message first.";

/// The error shown when the Discord bot is disabled in the configuration.
pub const DISABLED_MESSAGE: &'static str = "Can't continue in Discord: the Discord bot is not enabled (`[discord] enabled = false`).";

/// The error shown when the Discord bot is not connected.
pub const NOT_CONNECTED_MESSAGE: &'static str = "Can't continue in Discord: the bot isn't connected. Check the dashboard and your token.";

/// Whether the dashboard shows the Discord gateway (the row named
/// `discord`) as running.
pub open spec fn spec_discord_connected(slices: Slices) -> bool {
    match slices.dashboard {
        Some(d) => {
            &&& has_name(d@.entries, "discord"@)
            &&& d@.entries[index_of(d@.entries, "discord"@)].lifecycle == ActorLifecycle::Running
        },
        None => false,
    }
}

/// Whether the Discord gateway's dashboard row is `Running`. Without a
/// registered dashboard, or without such a row, it is not connected.
pub fn discord_is_connected(slices: &Slices) -> (r: bool)
    requires
        slices.wf(),
    ensures
        r == spec_discord_connected(*slices),
{
    match &slices.dashboard {
        Some(d) => match d.entry("discord") {
            Some(e) => match e.lifecycle {
                ActorLifecycle::Running => true,
                _ => false,
            },
            None => false,
        },
        None => false,
    }
}

/// The gateway counts as connected exactly when the dashboard's discord row
/// is `Running`: a `Starting` or `Dead` row is not connected, and neither is
/// a dashboard without such a row, nor no dashboard at all. (`i` is the
/// discord row's position, when there is one.)
pub proof fn lemma_connected_iff_running(slices: Slices, i: int)
    requires
        slices.wf(),
    ensures
        slices.dashboard is None ==> !spec_discord_connected(slices),
        slices.dashboard matches Some(d) ==> {
            &&& !has_name(d@.entries, "discord"@) ==> !spec_discord_connected(slices)
            &&& (0 <= i < d@.entries.len() && d@.entries[i].name == "discord"@) ==> (spec_discord_connected(
                slices,
            ) <==> d@.entries[i].lifecycle == ActorLifecycle::Running)
        },
{
    if let Some(d) = slices.dashboard {
        if 0 <= i < d@.entries.len() && d@.entries[i].name == "discord"@ {
            assert(has_name(d@.entries, "discord"@));
            let j = index_of(d@.entries, "discord"@);
            assert(j == i);
        }
    }
}

/// A thread is requested only with the gateway's discord row `Running`:
/// whenever handling the request emits a message, the dashboard holds a row
/// named `discord` whose lifecycle is `Running`, and the message is
/// `CreateThreadForSession` for the active session.
pub proof fn lemma_thread_needs_running_gateway(slices: Slices, pre: AppState, post: AppState, r: IntentResult) -> (i: int)
    requires
        slices.wf(),
        to_discord_thread_effect(slices, pre, post, r),
        r.messages@.len() > 0,
    ensures
        slices.dashboard is Some,
        0 <= i < slices.dashboard->0@.entries.len(),
        slices.dashboard->0@.entries[i].name == "discord"@,
        slices.dashboard->0@.entries[i].lifecycle == ActorLifecycle::Running,
        r.messages@.len() == 1,
        r.messages@[0] matches Message::CreateThreadForSession { session_id, .. } && session_id
            == pre.session.active@.session_id,
{
    let d = slices.dashboard->0;
    index_of(d@.entries, "discord"@)
}

/// Whether the session `post` is `pre` with an error entry reading `msg`
/// appended (and selected). A session whose entry ids or history length are
/// exhausted is left unchanged.
pub open spec fn error_pushed(pre: SessionView, post: SessionView, msg: Seq<char>) -> bool {
    if pre.next_entry_id < u64::MAX && pre.history.len() < usize::MAX && pre.visual_items.len() < usize::MAX {
        &&& post == pre.push(post.history.last())
        &&& post.history.last().kind matches ChatEntryKind::Error(t) && t@ == msg
        &&& post.history.last().pin_position is None
        &&& post.history.last().context_override == ContextOverride::Default
    } else {
        post == pre
    }
}

/// Pushes an error entry into the active session's history.
pub fn push_error(state: &mut AppState, message: &str)
    requires
        old(state).wf(),
    ensures
        final(state).wf(),
        only_active_changed(*old(state), *final(state)),
        error_pushed(old(state).session.active@, final(state).session.active@, message@),
{
    let session = &mut state.session.active;
    if session.next_entry_id < u64::MAX && session.history.len() < usize::MAX
        && session.visual_items.len() < usize::MAX {
        let entry = ChatEntry::error(message);
        session.push_entry(entry);
    }
}

/// What `handle_to_discord_thread` does: the state it leaves and the result
/// it returns. The checks run in order and the first failure wins.
pub open spec fn to_discord_thread_effect(slices: Slices, pre: AppState, post: AppState, r: IntentResult) -> bool {
    let v = pre.session.active@;
    &&& r.scope_signal is None
    &&& match v.title {
        None => {
            &&& r.messages@.len() == 0
            &&& only_active_changed(pre, post)
            &&& error_pushed(v, post.session.active@, NO_TITLE_MESSAGE@)
        },
        Some(title) => if !pre.frontend.preferences.discord.enabled {
            &&& r.messages@.len() == 0
            &&& only_active_changed(pre, post)
            &&& error_pushed(v, post.session.active@, DISABLED_MESSAGE@)
        } else if !spec_discord_connected(slices) {
            &&& r.messages@.len() == 0
            &&& only_active_changed(pre, post)
            &&& error_pushed(v, post.session.active@, NOT_CONNECTED_MESSAGE@)
        } else {
            &&& post == pre
            &&& r.messages@.len() == 1
            &&& r.messages@[0] matches Message::CreateThreadForSession { session_id, title: t }
                && session_id == v.session_id && t@ == title
        },
    }
}

/// Handles the request to continue the active session in a Discord thread.
///
/// The checks, first failure wins: the session has a title (it gets one with
/// its first message); the Discord bot is enabled; the gateway is connected.
/// On success a `CreateThreadForSession` command carries the session id and
/// title; on failure an error entry is pushed and nothing is emitted.
pub fn handle_to_discord_thread(state: &mut AppState, slices: &Slices) -> (r: IntentResult)
    requires
        old(state).wf(),
        slices.wf(),
    ensures
        final(state).wf(),
        r.wf(),
        to_discord_thread_effect(*slices, *old(state), *final(state), r),
{
    let title = match state.active_session().title() {
        Some(t) => t.clone(),
        None => {
            push_error(state, NO_TITLE_MESSAGE);
            return IntentResult::empty();
        },
    };
    if !state.frontend.preferences.discord.enabled {
        push_error(state, DISABLED_MESSAGE);
        return IntentResult::empty();
    }
    if !discord_is_connected(slices) {
        push_error(state, NOT_CONNECTED_MESSAGE);
        return IntentResult::empty();
    }
    let session_id = state.session.active_session_id();
    IntentResult::new_message(Message::CreateThreadForSession { session_id, title })
}

} // verus!
