use jinn_domain::browser::{BinaryFamily, BrowserBinary, BrowserBinaryScanActor, BrowserBinaryScanActorDeps, BrowserBinaryVerified, ResolvedBrowser};
use jinn_domain::canvas::{apply_browser, apply_discord_update, backend_label};
use jinn_domain::dashboard::DashboardState;
use jinn_domain::dashboard_actor::{
    apply_service_status, ActorShutdownCompleted, ActorStarted, ActorStarting, DashboardActor, DashboardActorDeps,
    ServiceStatusUpdate,
};
use jinn_domain::dashboard_nav::{apply_nav, DashboardNav};
use jinn_domain::dashboard_status::DiscordStatusUpdate;
use jinn_domain::discord_status::DiscordStatusActor;
use jinn_domain::discord_status::DiscordStatusUpdate as GatewayStatus;
use jinn_domain::lifecycle::ActorLifecycle;

fn entry(d: &DashboardState, name: &str) -> Option<(ActorLifecycle, Option<String>, Option<String>)> {
    d.entry(name).map(|e| (e.lifecycle, e.status_message.clone(), e.description.clone()))
}

fn actor() -> DashboardActor {
    DashboardActor::on_start(DashboardActorDeps { dashboard: DashboardState::new() })
}

fn started(name: &str, description: Option<&str>) -> ActorStarted {
    ActorStarted { name: name.to_owned(), description: description.map(str::to_owned) }
}

fn status(name: &str, description: Option<&str>, lifecycle: Option<ActorLifecycle>, message: Option<&str>) -> ServiceStatusUpdate {
    ServiceStatusUpdate {
        name: name.to_owned(),
        description: description.map(str::to_owned),
        lifecycle,
        status_message: message.map(str::to_owned),
    }
}

#[test]
fn dashboard_actor_actor_starting_event_creates_entry_with_starting_lifecycle() {
    let mut a = actor();
    a.handle_starting(ActorStarting { name: "llm".to_owned(), description: None });
    let (lifecycle, _, _) = entry(a.dashboard(), "llm").expect("entry should exist");
    assert_eq!(lifecycle, ActorLifecycle::Starting);
}

#[test]
fn dashboard_actor_actor_started_event_transitions_to_running() {
    let mut a = actor();
    a.handle_started(started("llm", None));
    let (lifecycle, _, _) = entry(a.dashboard(), "llm").expect("entry should exist");
    assert_eq!(lifecycle, ActorLifecycle::Running);
}

#[test]
fn dashboard_actor_actor_shutdown_event_transitions_to_dead() {
    let mut a = actor();
    a.handle_started(started("llm", None));
    a.handle_shutdown(ActorShutdownCompleted { name: "llm".to_owned() });
    let (lifecycle, _, _) = entry(a.dashboard(), "llm").expect("entry should exist");
    assert_eq!(lifecycle, ActorLifecycle::Dead);
}

#[test]
fn service_status_update_with_lifecycle_creates_described_entry() {
    let mut a = actor();
    a.handle_service_status(status(
        "some-service",
        Some("What this service does"),
        Some(ActorLifecycle::Dead),
        Some("Error: bad config"),
    ));
    let (lifecycle, message, description) = entry(a.dashboard(), "some-service").expect("entry should exist");
    assert_eq!(lifecycle, ActorLifecycle::Dead);
    assert_eq!(message.as_deref(), Some("Error: bad config"));
    assert_eq!(description.as_deref(), Some("What this service does"));
}

#[test]
fn service_status_update_without_lifecycle_only_writes_status_message() {
    let mut a = actor();
    a.handle_started(started("some-service", None));
    a.handle_service_status(status("some-service", None, None, Some("Chrome 138")));
    let (lifecycle, message, description) = entry(a.dashboard(), "some-service").expect("entry should exist");
    assert_eq!(message.as_deref(), Some("Chrome 138"));
    assert_eq!(lifecycle, ActorLifecycle::Running);
    assert_eq!(description, None);
}

#[test]
fn service_status_update_status_only_creates_missing_entry_as_starting() {
    let mut a = actor();
    a.handle_service_status(status("some-service", None, None, Some("Connecting")));
    let (lifecycle, message, _) = entry(a.dashboard(), "some-service").expect("entry should exist");
    assert_eq!(lifecycle, ActorLifecycle::Starting);
    assert_eq!(message.as_deref(), Some("Connecting"));
}

#[test]
fn service_status_update_without_status_message_leaves_message_alone() {
    let mut a = actor();
    a.handle_service_status(status("some-service", None, Some(ActorLifecycle::Running), Some("Connected")));
    a.handle_service_status(status("some-service", None, Some(ActorLifecycle::Dead), None));
    let (lifecycle, message, _) = entry(a.dashboard(), "some-service").expect("entry should exist");
    assert_eq!(lifecycle, ActorLifecycle::Dead);
    assert_eq!(message.as_deref(), Some("Connected"));
}

#[test]
fn service_status_update_without_any_fields_is_a_noop_for_existing_row() {
    let mut a = actor();
    a.handle_started(started("some-service", Some("Surfs the web")));
    a.handle_service_status(status("some-service", None, None, Some("Chrome 138")));
    a.handle_service_status(status("some-service", None, None, None));
    let (lifecycle, message, description) = entry(a.dashboard(), "some-service").expect("entry should exist");
    assert_eq!(lifecycle, ActorLifecycle::Running);
    assert_eq!(message.as_deref(), Some("Chrome 138"));
    assert_eq!(description.as_deref(), Some("Surfs the web"));
}

#[test]
fn canvas_actor_actor_starting_event_creates_entry_with_starting_lifecycle() {
    let mut d = DashboardState::new();
    d.mark_starting("llm", None);
    assert!(entry(&d, "llm").is_some_and(|(l, _, _)| l == ActorLifecycle::Starting));
}

#[test]
fn canvas_actor_actor_started_event_transitions_to_running() {
    let mut d = DashboardState::new();
    d.mark_running("llm", None);
    assert!(entry(&d, "llm").is_some_and(|(l, _, _)| l == ActorLifecycle::Running));
}

#[test]
fn canvas_actor_actor_shutdown_event_transitions_to_dead() {
    let mut d = DashboardState::new();
    d.mark_running("llm", None);
    d.mark_dead("llm", None);
    assert!(entry(&d, "llm").is_some_and(|(l, _, _)| l == ActorLifecycle::Dead));
}

#[test]
fn discord_connecting_update_sets_status_message_via_bus() {
    let mut d = DashboardState::new();
    apply_discord_update(&mut d, &DiscordStatusUpdate::Connecting);
    assert!(entry(&d, "discord").is_some_and(|(_, m, _)| m.as_deref() == Some("Connecting")));
}

#[test]
fn discord_connected_update_marks_running_with_message_via_bus() {
    let mut d = DashboardState::new();
    apply_discord_update(&mut d, &DiscordStatusUpdate::Connected);
    assert!(entry(&d, "discord")
        .is_some_and(|(l, m, _)| l == ActorLifecycle::Running && m.as_deref() == Some("Connected")));
}

#[test]
fn discord_error_update_marks_dead_with_error_message_via_bus() {
    let mut d = DashboardState::new();
    apply_discord_update(&mut d, &DiscordStatusUpdate::Error { message: "401: invalid token".to_owned() });
    assert!(entry(&d, "discord").is_some_and(|(l, m, _)| {
        l == ActorLifecycle::Dead && m.as_deref() == Some("Error: 401: invalid token")
    }));
}

#[test]
fn discord_error_update_first_still_sets_description() {
    let mut d = DashboardState::new();
    apply_discord_update(&mut d, &DiscordStatusUpdate::Error { message: "no token configured".to_owned() });
    assert!(entry(&d, "discord").is_some_and(|(_, _, desc)| desc.as_deref() == Some("Discord gateway bot [Task]")));
}

#[test]
fn discord_disconnected_update_only_writes_status_message() {
    let mut d = DashboardState::new();
    apply_discord_update(&mut d, &DiscordStatusUpdate::Connected);
    apply_discord_update(&mut d, &DiscordStatusUpdate::Disconnected);
    assert!(entry(&d, "discord")
        .is_some_and(|(l, m, _)| l == ActorLifecycle::Running && m.as_deref() == Some("Disconnected")));
}

#[test]
fn translated_updates_reach_the_bus_with_discord_description() {
    let update = DiscordStatusActor.translate(&GatewayStatus::Connected);
    assert_eq!(update.name, "discord");
    assert_eq!(update.lifecycle, Some(ActorLifecycle::Running));
    assert_eq!(update.description.as_deref(), Some("Discord gateway bot [Task]"));
    assert_eq!(update.status_message.as_deref(), Some("Connected"));
}

#[test]
fn status_actor_republishes_kanal_update_on_the_bus() {
    let mut a = actor();
    a.handle_service_status(DiscordStatusActor.translate(&GatewayStatus::Connected));
    let discord = a.dashboard().entry("discord").expect("discord entry exists via bus republish");
    assert_eq!(discord.lifecycle, ActorLifecycle::Running);
    assert_eq!(discord.status_message.as_deref(), Some("Connected"));
}

#[test]
fn translated_and_direct_discord_updates_agree() {
    let pairs = [
        (DiscordStatusUpdate::Connecting, GatewayStatus::Connecting),
        (DiscordStatusUpdate::Connected, GatewayStatus::Connected),
        (DiscordStatusUpdate::Disconnected, GatewayStatus::Disconnected),
        (
            DiscordStatusUpdate::Error { message: "boom".to_owned() },
            GatewayStatus::Error { message: "boom".to_owned() },
        ),
    ];
    for (direct_update, gateway_update) in pairs {
        let mut direct = DashboardState::new();
        apply_discord_update(&mut direct, &direct_update);
        let mut via_bus = DashboardState::new();
        apply_service_status(&mut via_bus, gateway_update.to_service_update());
        assert_eq!(entry(&direct, "discord"), entry(&via_bus, "discord"));
    }
}

fn verified(family: BinaryFamily, path: Option<&str>, version: Option<&str>, note: Option<&str>) -> BrowserBinaryVerified {
    BrowserBinaryVerified {
        family,
        path: path.map(str::to_owned),
        version_major: version.map(str::to_owned),
        fallback_note: note.map(str::to_owned),
    }
}

#[test]
fn browser_binary_verified_writes_chrome_label_to_web_fetch_notes() {
    let mut d = DashboardState::new();
    apply_browser(&mut d, &verified(BinaryFamily::Chrome, Some("/usr/bin/google-chrome"), Some("138"), None), "141");
    assert!(entry(&d, "web-fetch").is_some_and(|(_, m, _)| m.as_deref() == Some("Chrome 138 — /usr/bin/google-chrome")));
}

#[test]
fn browser_binary_verified_writes_bundled_label_to_web_fetch_notes() {
    let mut d = DashboardState::new();
    apply_browser(
        &mut d,
        &verified(BinaryFamily::Bundled, None, None, Some("No system Chrome/Chromium — using bundled")),
        "141",
    );
    assert!(entry(&d, "web-fetch").is_some_and(|(_, m, _)| {
        m.as_deref() == Some("No system Chrome/Chromium — using bundled: Chromium (bundled, version undetected)")
    }));
}

#[test]
fn browser_binary_verified_shows_fallback_version_when_undetected() {
    let mut d = DashboardState::new();
    apply_browser(&mut d, &verified(BinaryFamily::Chromium, Some("/usr/bin/chromium"), None, None), "141");
    let expected = format!("Chromium {} (version undetected) — /usr/bin/chromium", "141");
    assert!(entry(&d, "web-fetch").is_some_and(|(_, m, _)| m.as_deref() == Some(expected.as_str())));
}

#[test]
fn browser_binary_verified_does_not_create_phantom_entry() {
    let mut d = DashboardState::new();
    apply_browser(&mut d, &verified(BinaryFamily::Bundled, None, None, None), "141");
    assert!(entry(&d, "web-fetch-browser").is_none());
}

#[test]
fn dashboard_nav_command_moves_selection() {
    let mut d = DashboardState::new();
    for name in ["a", "b", "c"] {
        d.mark_running(name, None);
    }
    apply_nav(&mut d, DashboardNav::Down);
    assert_eq!(d.selected_index(), 1);
}

#[test]
fn events_published_after_wiring_are_not_missed() {
    let mut a = actor();
    a.handle_started(started("late", None));
    assert!(entry(a.dashboard(), "late").is_some());
}

#[test]
fn display_label_formats_family_version_path_and_note() {
    let cases = [
        (verified(BinaryFamily::Chrome, Some("/usr/bin/google-chrome"), Some("138"), None), "Chrome 138 — /usr/bin/google-chrome".to_owned()),
        (
            verified(BinaryFamily::Bundled, None, None, Some("No system Chrome/Chromium — using bundled")),
            "No system Chrome/Chromium — using bundled: Chromium (bundled, version undetected)".to_owned(),
        ),
        (
            verified(BinaryFamily::Chromium, Some("/usr/bin/chromium"), None, None),
            format!("Chromium {} (version undetected) — /usr/bin/chromium", "141"),
        ),
    ];
    for (v, expected) in cases {
        assert_eq!(v.display_label("141"), expected);
        assert_eq!(backend_label(&v, "141"), expected);
    }
}

#[test]
fn display_label_with_no_path_omits_path_suffix() {
    let v = verified(BinaryFamily::Chrome, None, Some("139"), None);
    assert_eq!(v.display_label("141"), "Chrome 139");
}

#[test]
fn environment_loaded_publishes_service_status_update_for_web_fetch() {
    let scan = BrowserBinaryScanActor::on_start(BrowserBinaryScanActorDeps::new(BrowserBinary::Auto));
    let resolved = ResolvedBrowser {
        family: BinaryFamily::Chrome,
        path: Some("/usr/bin/google-chrome".to_owned()),
        version_major: None,
        fallback_note: None,
    };
    let (verified, update) = scan.on_resolved(resolved, "141");
    assert_eq!(verified.family, BinaryFamily::Chrome);
    assert_eq!(verified.path.as_deref(), Some("/usr/bin/google-chrome"));
    assert_eq!(update.name, "web-fetch");
    let expected = format!("Chrome {} (version undetected) — /usr/bin/google-chrome", "141");
    assert_eq!(update.status_message.as_deref(), Some(expected.as_str()));
    assert!(update.lifecycle.is_none());
    assert!(update.description.is_none());
}

#[test]
fn clamp_scroll_follows_selection_both_ways() {
    let mut d = DashboardState::new();
    for i in 0..20 {
        d.mark_running(&format!("actor-{i}"), None);
    }
    for _ in 0..15 {
        d.select_next();
    }
    d.clamp_scroll(5);
    let visible_start = usize::from(d.scroll_offset());
    let visible_end = visible_start + 5;
    assert!(
        (visible_start..visible_end).contains(&d.selected_index()),
        "selected index should be within visible window {visible_start}..{visible_end}"
    );
    d.select_first();
    d.clamp_scroll(5);
    assert_eq!(d.scroll_offset(), 0);
}

#[test]
fn nav_clamps_at_both_ends() {
    let mut d = DashboardState::new();
    apply_nav(&mut d, DashboardNav::Down);
    assert_eq!(d.selected_index(), 0);
    for name in ["a", "b"] {
        d.mark_running(name, None);
    }
    apply_nav(&mut d, DashboardNav::Up);
    assert_eq!(d.selected_index(), 0);
    apply_nav(&mut d, DashboardNav::Last);
    assert_eq!(d.selected_index(), 1);
    apply_nav(&mut d, DashboardNav::Down);
    assert_eq!(d.selected_index(), 1);
    apply_nav(&mut d, DashboardNav::First);
    assert_eq!(d.selected_index(), 0);
}

#[test]
fn clamp_scroll_keeps_selected_visible() {
    let mut state = DashboardState::new();
    for name in ["a", "b", "c", "d", "e"] {
        state.mark_running(name, None);
    }
    state.select_last();
    assert_eq!(state.selected_index(), 4);
    state.clamp_scroll(3);
    let visible_start = state.scroll_offset() as usize;
    let visible_end = visible_start + 3;
    assert!(
        (visible_start..visible_end).contains(&4),
        "selected index should be within visible window {visible_start}..{visible_end}"
    );
}
