//! The Discord status translator: turns the gateway's connection states into
//! the dashboard's generic [`ServiceStatusUpdate`] vocabulary.

use vstd::prelude::*;
use vstd::string::*;
use crate::lifecycle::ActorLifecycle;
use crate::dashboard_actor::{ServiceStatusUpdate, ServiceStatusView};

verus! {

/// The dashboard row name for the discord entry.
pub open spec fn discord_row_name() -> Seq<char> {
    "discord"@
}

/// The description attached to the discord dashboard row.
pub open spec fn discord_description() -> Seq<char> {
    "Discord gateway bot [Task]"@
}

/// The row name, as a string.
pub fn discord_actor_name() -> (r: String)
    ensures
        r@ == discord_row_name(),
{
    String::from_str("discord")
}

/// The row description, as a string.
pub fn discord_description_text() -> (r: String)
    ensures
        r@ == discord_description(),
{
    String::from_str("Discord gateway bot [Task]")
}

/// A gateway connection state, as plain values.
pub enum DiscordStatusKind {
    Connecting,
    Connected,
    Disconnected,
    Error(Seq<char>),
}

/// The short status word of a connection state.
pub open spec fn spec_display_message(k: DiscordStatusKind) -> Seq<char> {
    match k {
        DiscordStatusKind::Connecting => "Connecting"@,
        DiscordStatusKind::Connected => "Connected"@,
        DiscordStatusKind::Disconnected => "Disconnected"@,
        DiscordStatusKind::Error(_) => "Error"@,
    }
}

/// The full status text: `"Error: <reason>"` for an error, else the word.
pub open spec fn spec_full_message(k: DiscordStatusKind) -> Seq<char> {
    match k {
        DiscordStatusKind::Error(m) => "Error: "@ + m,
        _ => spec_display_message(k),
    }
}

/// The lifecycle a connection state drives the discord row to, if any.
pub open spec fn spec_discord_lifecycle(k: DiscordStatusKind) -> Option<ActorLifecycle> {
    match k {
        DiscordStatusKind::Connecting => Some(ActorLifecycle::Starting),
        DiscordStatusKind::Connected => Some(ActorLifecycle::Running),
        DiscordStatusKind::Error(_) => Some(ActorLifecycle::Dead),
        DiscordStatusKind::Disconnected => None,
    }
}

/// The generic status update a connection state translates into.
pub open spec fn spec_to_service_update(k: DiscordStatusKind) -> ServiceStatusView {
    ServiceStatusView {
        name: discord_row_name(),
        description: if k is Disconnected {
            None
        } else {
            Some(discord_description())
        },
        lifecycle: spec_discord_lifecycle(k),
        status_message: Some(spec_full_message(k)),
    }
}

/// Discord bot-specific connection status, reported by the gateway task.
#[derive(Debug)]
pub enum DiscordStatusUpdate {
    /// The gateway is attempting to connect to Discord.
    Connecting,
    /// The gateway received its `ready` event: the bot is online.
    Connected,
    /// The websocket dropped mid-session.
    Disconnected,
    /// The gateway hit a fatal error (auth failure, unresolvable disconnect).
    Error {
        /// Human-readable reason (e.g. "401: invalid bot token").
        message: String,
    },
}

impl View for DiscordStatusUpdate {
    type V = DiscordStatusKind;

    open spec fn view(&self) -> DiscordStatusKind {
        match self {
            DiscordStatusUpdate::Connecting => DiscordStatusKind::Connecting,
            DiscordStatusUpdate::Connected => DiscordStatusKind::Connected,
            DiscordStatusUpdate::Disconnected => DiscordStatusKind::Disconnected,
            DiscordStatusUpdate::Error { message } => DiscordStatusKind::Error(message@),
        }
    }
}

impl DiscordStatusUpdate {
    /// Renders the update into the dashboard `status_message` word.
    pub fn display_message(&self) -> (r: &'static str)
        ensures
            r@ == spec_display_message(self@),
    {
        match self {
            DiscordStatusUpdate::Connecting => "Connecting",
            DiscordStatusUpdate::Connected => "Connected",
            DiscordStatusUpdate::Disconnected => "Disconnected",
            DiscordStatusUpdate::Error { .. } => "Error",
        }
    }

    /// Returns the full human-readable detail (for the `Error` variant).
    pub fn full_message(&self) -> (r: String)
        ensures
            r@ == spec_full_message(self@),
    {
        match self {
            DiscordStatusUpdate::Error { message } => String::from_str("Error: ").concat(
                message.as_str(),
            ),
            other => String::from_str(other.display_message()),
        }
    }

    /// Translates this connection state into the dashboard's generic status
    /// event vocabulary: `Connecting` marks the row `Starting`, `Connected`
    /// marks it `Running`, `Error` marks it `Dead` (each with the discord
    /// description), and `Disconnected` only writes the status message.
    pub fn to_service_update(&self) -> (r: ServiceStatusUpdate)
        ensures
            r@ == spec_to_service_update(self@),
    {
        let (lifecycle, with_description) = match self {
            DiscordStatusUpdate::Connecting => (Some(ActorLifecycle::Starting), true),
            DiscordStatusUpdate::Connected => (Some(ActorLifecycle::Running), true),
            DiscordStatusUpdate::Error { .. } => (Some(ActorLifecycle::Dead), true),
            DiscordStatusUpdate::Disconnected => (None, false),
        };
        let description = if with_description {
            Some(discord_description_text())
        } else {
            None
        };
        ServiceStatusUpdate {
            name: discord_actor_name(),
            description,
            lifecycle,
            status_message: Some(self.full_message()),
        }
    }
}

/// The Discord status actor: a pure translator. The drain loop that reads the
/// gateway channel runs outside the library and publishes what
/// [`DiscordStatusActor::translate`] returns for each update.
pub struct DiscordStatusActor;

impl DiscordStatusActor {
    /// The bus event published for one gateway update.
    pub fn translate(&self, update: &DiscordStatusUpdate) -> (r: ServiceStatusUpdate)
        ensures
            r@ == spec_to_service_update(update@),
    {
        update.to_service_update()
    }
}

/// What each gateway state does to the discord row: a connecting gateway
/// marks it `Starting`, and only a connected one marks it `Running`; a
/// fatal error marks it `Dead`; a dropped websocket leaves the lifecycle
/// alone. Every state writes its status text, and every state but the
/// dropped websocket names the discord description.
pub proof fn lemma_gateway_lifecycles(k: DiscordStatusKind)
    ensures
        spec_to_service_update(k).name == "discord"@,
        k is Connecting ==> spec_to_service_update(k).lifecycle == Some(ActorLifecycle::Starting),
        k is Connected ==> spec_to_service_update(k).lifecycle == Some(ActorLifecycle::Running),
        k is Error ==> spec_to_service_update(k).lifecycle == Some(ActorLifecycle::Dead),
        k is Disconnected ==> spec_to_service_update(k).lifecycle is None,
        spec_to_service_update(k).lifecycle == Some(ActorLifecycle::Running) <==> k is Connected,
        !(k is Disconnected) ==> spec_to_service_update(k).description == Some("Discord gateway bot [Task]"@),
        k is Connecting ==> spec_to_service_update(k).status_message == Some("Connecting"@),
{
}

} // verus!
