use jinn_domain::app_state::AppState;
use jinn_domain::dashboard::DashboardState;
use jinn_domain::discord_thread::{
    discord_is_connected, handle_to_discord_thread, DISABLED_MESSAGE, NOT_CONNECTED_MESSAGE, NO_TITLE_MESSAGE,
};
use jinn_domain::intent_result::Message;
use jinn_domain::session::ChatEntryKind;
use jinn_domain::slices::Slices;

fn happy_state() -> (AppState, Slices) {
    let mut state = AppState::default();
    state.active_session_mut().set_title("My session".to_owned());
    state.frontend.preferences.discord.enabled = true;
    let mut slices = Slices::new();
    let mut dashboard = DashboardState::new();
    dashboard.mark_running("discord", None);
    assert!(slices.register_dashboard(dashboard));
    (state, slices)
}

fn last_error(state: &AppState) -> Option<String> {
    match &state.active_session().history().last()?.kind {
        ChatEntryKind::Error(t) => Some(t.clone()),
        _ => None,
    }
}

#[test]
fn success_emits_create_thread_for_session() {
    let (mut state, slices) = happy_state();
    let result = handle_to_discord_thread(&mut state, &slices);
    assert_eq!(result.message_names.len(), 1);
    assert!(
        result.message_names[0].contains("CreateThreadForSession"),
        "expected CreateThreadForSession; got {:?}",
        result.message_names
    );
    assert!(matches!(&result.messages[0], Message::CreateThreadForSession { title, .. } if title == "My session"));
    assert!(state.active_session().history().is_empty());
}

#[test]
fn regression_title_less_session_gdc_emits_no_request_and_pushes_error() {
    let (mut state, slices) = happy_state();
    state.session.active.title = None;
    let result = handle_to_discord_thread(&mut state, &slices);
    assert!(result.message_names.is_empty());
    assert_eq!(last_error(&state).as_deref(), Some(NO_TITLE_MESSAGE));
}

#[test]
fn discord_disabled_pushes_error_and_emits_nothing() {
    let (mut state, slices) = happy_state();
    state.frontend.preferences.discord.enabled = false;
    let result = handle_to_discord_thread(&mut state, &slices);
    assert!(result.message_names.is_empty());
    assert_eq!(last_error(&state).as_deref(), Some(DISABLED_MESSAGE));
}

#[test]
fn bot_not_connected_pushes_error_and_emits_nothing() {
    let (mut state, mut slices) = happy_state();
    if let Some(d) = slices.dashboard.as_mut() {
        d.mark_dead("discord", None);
    }
    let result = handle_to_discord_thread(&mut state, &slices);
    assert!(result.message_names.is_empty());
    assert_eq!(last_error(&state).as_deref(), Some(NOT_CONNECTED_MESSAGE));
}

#[test]
fn unregistered_dashboard_reads_as_not_connected() {
    assert!(!discord_is_connected(&Slices::new()));
    let (_, slices) = happy_state();
    assert!(discord_is_connected(&slices));
}

#[test]
fn error_messages_read_as_documented() {
    assert_eq!(NO_TITLE_MESSAGE, "Can't continue in Discord: this session has no title yet. Send a message first.");
    assert_eq!(
        DISABLED_MESSAGE,
        "Can't continue in Discord: the Discord bot is not enabled (`[discord] enabled = false`)."
    );
    assert_eq!(
        NOT_CONNECTED_MESSAGE,
        "Can't continue in Discord: the bot isn't connected. Check the dashboard and your token."
    );
}
