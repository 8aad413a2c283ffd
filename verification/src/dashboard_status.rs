//! The dashboard-side Discord status type: the gateway's connection states,
//! republished unchanged on the bus and folded into the dashboard by the
//! canvas actor.

use vstd::prelude::*;
use vstd::string::*;
use crate::discord_status::{DiscordStatusKind, spec_display_message, spec_full_message};

verus! {

/// Discord bot-specific connection status, reported by the gateway task and
/// republished on the bus for the dashboard.
#[derive(Debug)]
pub enum DiscordStatusUpdate {
    /// The gateway is attempting to connect to Discord.
    Connecting,
    /// The gateway received its `ready` event: the bot is online.
    Connected,
    /// The websocket dropped mid-session.
    Disconnected,
    /// The gateway hit a fatal error (auth failure, unresolvable disconnect).
    Error {
        /// Human-readable reason (e.g. "401: invalid bot token").
        message: String,
    },
}

impl View for DiscordStatusUpdate {
    type V = DiscordStatusKind;

    open spec fn view(&self) -> DiscordStatusKind {
        match self {
            DiscordStatusUpdate::Connecting => DiscordStatusKind::Connecting,
            DiscordStatusUpdate::Connected => DiscordStatusKind::Connected,
            DiscordStatusUpdate::Disconnected => DiscordStatusKind::Disconnected,
            DiscordStatusUpdate::Error { message } => DiscordStatusKind::Error(message@),
        }
    }
}

impl DiscordStatusUpdate {
    /// Renders the update into the dashboard `status_message` word.
    pub fn display_message(&self) -> (r: &'static str)
        ensures
            r@ == spec_display_message(self@),
    {
        match self {
            DiscordStatusUpdate::Connecting => "Connecting",
            DiscordStatusUpdate::Connected => "Connected",
            DiscordStatusUpdate::Disconnected => "Disconnected",
            DiscordStatusUpdate::Error { .. } => "Error",
        }
    }

    /// Returns the full human-readable detail (for the `Error` variant).
    pub fn full_message(&self) -> (r: String)
        ensures
            r@ == spec_full_message(self@),
    {
        match self {
            DiscordStatusUpdate::Error { message } => String::from_str("Error: ").concat(
                message.as_str(),
            ),
            other => String::from_str(other.display_message()),
        }
    }
}

/// The Discord status actor: a pure forwarder. The drain loop that reads the
/// gateway channel and republishes each update unchanged runs outside the
/// library.
pub struct DiscordStatusActor;

} // verus!
