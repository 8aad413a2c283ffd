//! The folds of the dashboard canvas actor: lifecycle events, the browser
//! backend, Discord connection states and keyboard navigation, each applied
//! to the dashboard it owns.

use vstd::prelude::*;
use vstd::string::*;
use crate::lifecycle::ActorLifecycle;
use crate::dashboard::{DashboardState, EntryView, has_name, index_of, names_unique, spec_set_status, spec_upsert};
use crate::dashboard_actor::spec_apply_service_status;
use crate::dashboard_status::DiscordStatusUpdate;
use crate::discord_status::{
    DiscordStatusKind, discord_actor_name, discord_description, discord_description_text,
    discord_row_name, spec_discord_lifecycle, spec_full_message, spec_to_service_update,
};
use crate::browser::{
    BinaryFamily, BrowserBinaryVerified, spec_family_display, spec_label,
    web_fetch_entry_name, web_fetch_row_name,
};

verus! {

/// The rows after folding a Discord connection state: the discord row gets
/// the state's lifecycle together with the discord description (no lifecycle
/// for `Disconnected`), then the full status text as its status message.
pub open spec fn spec_apply_discord(s: Seq<EntryView>, k: DiscordStatusKind) -> Seq<EntryView> {
    let after_lifecycle = match spec_discord_lifecycle(k) {
        Some(lc) => spec_upsert(s, discord_row_name(), Some(discord_description()), lc),
        None => s,
    };
    spec_set_status(after_lifecycle, discord_row_name(), Some(spec_full_message(k)))
}

/// Apply a discord connection status update to the dashboard state.
pub fn apply_discord_update(dashboard: &mut DashboardState, update: &DiscordStatusUpdate)
    requires
        old(dashboard).wf(),
    ensures
        final(dashboard).wf(),
        final(dashboard)@.entries == spec_apply_discord(old(dashboard)@.entries, update@),
        final(dashboard)@.selected_index == old(dashboard)@.selected_index,
        final(dashboard)@.scroll_offset == old(dashboard)@.scroll_offset,
{
    let message = update.full_message();
    let (lifecycle, with_description) = match update {
        DiscordStatusUpdate::Connecting => (Some(ActorLifecycle::Starting), true),
        DiscordStatusUpdate::Disconnected => (None, false),
        DiscordStatusUpdate::Connected => (Some(ActorLifecycle::Running), true),
        DiscordStatusUpdate::Error { .. } => (Some(ActorLifecycle::Dead), true),
    };
    let name = discord_actor_name();
    if let Some(lifecycle) = lifecycle {
        let description = if with_description {
            Some(discord_description_text())
        } else {
            None
        };
        dashboard.mark(name.as_str(), description, lifecycle);
    }
    dashboard.set_status_message(name.as_str(), Some(message));
}

/// The two routes by which a Discord connection state reaches the dashboard
/// agree: translating it into a generic status update and applying that
/// update gives the same rows as folding the state directly.
pub proof fn lemma_discord_routes_agree(s: Seq<EntryView>, k: DiscordStatusKind)
    ensures
        spec_apply_service_status(s, spec_to_service_update(k)) == spec_apply_discord(s, k),
{
}

/// After a Discord connection state is folded into rows with unique names,
/// the dashboard has a discord row (at the index `i` the lemma names): a
/// connecting gateway leaves it `Starting`, a connected one `Running`, a
/// fatal error `Dead`; the row is `Running` only when the gateway
/// connected, or when it already was and the websocket merely dropped. Its
/// status text is the state's full message.
pub proof fn lemma_discord_row_after_update(s: Seq<EntryView>, k: DiscordStatusKind) -> (i: int)
    requires
        names_unique(s),
    ensures
        0 <= i < spec_apply_discord(s, k).len(),
        spec_apply_discord(s, k)[i].name == "discord"@,
        k is Connecting ==> spec_apply_discord(s, k)[i].lifecycle == ActorLifecycle::Starting,
        k is Connected ==> spec_apply_discord(s, k)[i].lifecycle == ActorLifecycle::Running,
        k is Error ==> spec_apply_discord(s, k)[i].lifecycle == ActorLifecycle::Dead,
        spec_apply_discord(s, k)[i].lifecycle == ActorLifecycle::Running ==> (k is Connected || (k is Disconnected
            && i < s.len() && s[i].name == "discord"@ && s[i].lifecycle == ActorLifecycle::Running)),
        spec_apply_discord(s, k)[i].status_message == Some(spec_full_message(k)),
{
    let n = discord_row_name();
    let i = if has_name(s, n) { index_of(s, n) } else { s.len() as int };
    let mid = match spec_discord_lifecycle(k) {
        Some(lc) => spec_upsert(s, n, Some(discord_description()), lc),
        None => s,
    };
    if spec_discord_lifecycle(k) is Some {
        assert(mid[i].name == n);
    }
    assert(names_unique(mid)) by {
        if !has_name(s, n) && spec_discord_lifecycle(k) is Some {
            assert forall|a: int, b: int| 0 <= a < mid.len() && 0 <= b < mid.len() && a != b implies #[trigger] mid[a].name != #[trigger] mid[b].name by {
                if a < s.len() && b < s.len() {
                    assert(mid[a] == s[a] && mid[b] == s[b]);
                } else if a < s.len() {
                    assert(mid[a] == s[a]);
                } else {
                    assert(mid[b] == s[b]);
                }
            }
        }
    }
    if has_name(mid, n) {
        assert(mid[i].name == n);
        assert(index_of(mid, n) == i);
    }
    i
}

/// Builds the dashboard Notes string for a resolved browser binary.
pub fn backend_label(msg: &BrowserBinaryVerified, chrome_major: &str) -> (r: String)
    ensures
        r@ == spec_label(msg@, chrome_major@),
{
    let label = match msg.family {
        BinaryFamily::Chrome | BinaryFamily::Chromium => {
            let family = family_display(msg.family);
            match &msg.version_major {
                Some(v) => String::from_str(family).concat(" ").concat(v.as_str()),
                None => String::from_str(family).concat(" ").concat(chrome_major).concat(
                    " (version undetected)",
                ),
            }
        },
        BinaryFamily::Bundled => String::from_str("Chromium (bundled, version undetected)"),
    };
    let with_path = match &msg.path {
        Some(p) => label.concat(" — ").concat(p.as_str()),
        None => label,
    };
    match &msg.fallback_note {
        Some(note) => note.clone().concat(": ").concat(with_path.as_str()),
        None => with_path,
    }
}

/// Returns the capitalized family name for display.
pub fn family_display(family: BinaryFamily) -> (r: &'static str)
    ensures
        r@ == spec_family_display(family),
{
    match family {
        BinaryFamily::Chrome => "Chrome",
        BinaryFamily::Chromium => "Chromium",
        BinaryFamily::Bundled => "Bundled",
    }
}

/// Folds a [`BrowserBinaryVerified`]: the `web-fetch` row's Notes column
/// only; the lifecycle is left to the lifecycle events.
pub fn apply_browser(dashboard: &mut DashboardState, msg: &BrowserBinaryVerified, chrome_major: &str)
    requires
        old(dashboard).wf(),
    ensures
        final(dashboard).wf(),
        final(dashboard)@.entries == spec_set_status(
            old(dashboard)@.entries,
            web_fetch_row_name(),
            Some(spec_label(msg@, chrome_major@)),
        ),
        final(dashboard)@.selected_index == old(dashboard)@.selected_index,
        final(dashboard)@.scroll_offset == old(dashboard)@.scroll_offset,
{
    let name = web_fetch_entry_name();
    let label = backend_label(msg, chrome_major);
    dashboard.set_status_message(name.as_str(), Some(label));
}

} // verus!
