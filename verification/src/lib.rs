//! Domain logic of the jinn terminal client, each piece stated as a contract
//! and proved by Verus: the actor dashboard and the events folded into it,
//! the Discord status translation, browser-binary labels, the chat log's
//! selection and context overrides, the text inputs, the keybind route
//! table, and the intent handler with the intents it knows: route rows,
//! confirmation prompts, global keys, the chat input and the chat log.

pub mod lifecycle;
pub mod dashboard;
pub mod dashboard_actor;
pub mod dashboard_nav;
pub mod dashboard_status;
pub mod discord_status;
pub mod browser;
pub mod canvas;
pub mod line_input;
pub mod session;
pub mod intent_result;
pub mod app_state;
pub mod archive_tree;
pub mod clock;
pub mod selection;
pub mod chat_input;
pub mod intent;
pub mod global;
pub mod slices;
pub mod key_routes;
pub mod text_inputs;
pub mod discord_thread;
pub mod navigation;
pub mod handler;
pub mod views;
