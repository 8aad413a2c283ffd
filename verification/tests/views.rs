use jinn_domain::dashboard::DashboardState;
use jinn_domain::line_input::LineInput;
use jinn_domain::lifecycle::ActorLifecycle;
use jinn_domain::session::{ChatSessionState, SessionId};
use jinn_domain::views::{
    age_at, age_label, count_enabled, cursor_column, dashboard_rows, endpoint_footer_spans, input_cursor_x, lifecycle_label,
    pinned_endpoint_name, skill_picker_footer_tail, streaming_indicator_label, tool_picker_footer, validation_footer,
    CwdResolution, EndpointEntry, FooterTone, SpanTone,
};

#[test]
fn lifecycle_labels() {
    assert_eq!(lifecycle_label(ActorLifecycle::Starting), "Starting");
    assert_eq!(lifecycle_label(ActorLifecycle::Running), "Running");
    assert_eq!(lifecycle_label(ActorLifecycle::Dead), "Dead");
}

#[test]
fn dashboard_view_rows_carry_entry_cells() {
    let mut d = DashboardState::new();
    d.mark_running("alpha", Some("first".to_owned()));
    d.mark_starting("beta", None);
    d.set_status_message("beta", Some("second".to_owned()));
    let rows = dashboard_rows(&d);
    assert_eq!(rows.len(), 2);
    assert_eq!(rows[0].name, "alpha");
    assert_eq!(rows[0].description, "first");
    assert_eq!(rows[0].state, "Running");
    assert_eq!(rows[0].notes, "");
    assert_eq!(rows[1].name, "beta");
    assert_eq!(rows[1].description, "");
    assert_eq!(rows[1].state, "Starting");
    assert_eq!(rows[1].notes, "second");
}

#[test]
fn dashboard_view_rows_empty_without_actors() {
    assert!(dashboard_rows(&DashboardState::new()).is_empty());
}

#[test]
fn cursor_column_counts_prompt_and_clamps() {
    assert_eq!(cursor_column(3, 80), 5);
    assert_eq!(cursor_column(0, 80), 2);
    assert_eq!(cursor_column(100, 10), 9);
    assert_eq!(cursor_column(7, 10), 9);
    assert_eq!(cursor_column(6, 10), 8);
    assert_eq!(cursor_column(5, 0), 0);
}

#[test]
fn input_cursor_x_counts_graphemes_before_cursor() {
    let plain = LineInput { input: "hello".to_owned(), cursor_pos: 3 };
    assert_eq!(input_cursor_x(&plain, 80), 5);
    let combining = LineInput { input: "e\u{301}x".to_owned(), cursor_pos: 2 };
    assert_eq!(input_cursor_x(&combining, 80), 3);
    let flags = LineInput { input: "🇷🇺🇸🇹".to_owned(), cursor_pos: 4 };
    assert_eq!(input_cursor_x(&flags, 80), 4);
    let narrow = LineInput { input: "hello".to_owned(), cursor_pos: 5 };
    assert_eq!(input_cursor_x(&narrow, 4), 3);
}

#[test]
fn input_cursor_x_past_the_text_counts_nothing() {
    let past = LineInput { input: "hi".to_owned(), cursor_pos: 9 };
    assert_eq!(input_cursor_x(&past, 80), 2);
    assert_eq!(input_cursor_x(&past, 0), 0);
}

#[test]
fn validation_footer_texts_and_tones() {
    let ok = validation_footer(&CwdResolution::Valid("/home/me/project".to_owned()));
    assert_eq!(ok.tone, FooterTone::Success);
    assert_eq!(ok.text, "\u{2713} /home/me/project");
    let bad = validation_footer(&CwdResolution::NotADir("/etc/hosts".to_owned()));
    assert_eq!(bad.tone, FooterTone::Error);
    assert_eq!(bad.text, "\u{2717} not a directory: /etc/hosts");
    let empty = validation_footer(&CwdResolution::Empty);
    assert_eq!(empty.tone, FooterTone::Muted);
    assert_eq!(empty.text, "type a path (use ~ or a relative path)");
}

#[test]
fn streaming_indicator_labels() {
    let mut session = ChatSessionState::new(SessionId { id: 1 });
    assert_eq!(streaming_indicator_label(&session), None);
    session.streaming = true;
    assert_eq!(streaming_indicator_label(&session), Some(" Streaming..."));
    session.busy = true;
    assert_eq!(streaming_indicator_label(&session), Some(" Working..."));
}

#[test]
fn age_labels_by_unit() {
    assert_eq!(age_label(0), "0s ago");
    assert_eq!(age_label(59), "59s ago");
    assert_eq!(age_label(60), "1m ago");
    assert_eq!(age_label(3599), "59m ago");
    assert_eq!(age_label(3600), "1h ago");
    assert_eq!(age_label(7 * 3600 + 5), "7h ago");
    assert_eq!(age_label(600), "10m ago");
    assert_eq!(age_label(u64::MAX), "5124095576030431h ago");
}

#[test]
fn age_at_uses_whole_seconds_and_clamps_future() {
    assert_eq!(age_at(10_999_999_999, 1_000_000_000), "9s ago");
    assert_eq!(age_at(11_000_000_000, 1_000_000_000), "10s ago");
    assert_eq!(age_at(1_000_000_000, 5_000_000_000), "0s ago");
    let min_ns = jiff::Timestamp::MIN.as_nanosecond();
    let max_ns = jiff::Timestamp::MAX.as_nanosecond();
    assert_eq!(age_at(max_ns, min_ns), "175307564h ago");
}

fn footer_texts(spans: Vec<jinn_domain::views::FooterSpan>) -> Vec<(SpanTone, String)> {
    spans.into_iter().map(|s| (s.tone, s.text)).collect()
}

#[test]
fn endpoint_footer_status_texts() {
    let items = vec![EndpointEntry { provider_name: "beta".to_owned(), is_active: true }];
    let base = vec![
        (SpanTone::Muted, "Routing: ".to_owned()),
        (SpanTone::Primary, "beta".to_owned()),
        (SpanTone::Muted, "  ".to_owned()),
        (SpanTone::Action, "Enter ".to_owned()),
        (SpanTone::Muted, "pin \u{b7} ".to_owned()),
        (SpanTone::Action, "ESC ".to_owned()),
        (SpanTone::Muted, "cancel".to_owned()),
    ];
    let mut fetching = base.clone();
    fetching.push((SpanTone::Muted, "  ".to_owned()));
    fetching.push((SpanTone::Action, "fetching\u{2026}".to_owned()));
    assert_eq!(footer_texts(endpoint_footer_spans(&items, true, Some(0), 10_000_000_000)), fetching);
    let mut fetched = base.clone();
    fetched.push((SpanTone::Muted, "  ".to_owned()));
    fetched.push((SpanTone::Muted, "fetched 2m ago".to_owned()));
    assert_eq!(footer_texts(endpoint_footer_spans(&items, false, Some(0), 125_000_000_000)), fetched);
    let last = footer_texts(endpoint_footer_spans(&items, false, Some(0), 119_999_999_999));
    assert_eq!(last.last().map(|p| p.1.as_str()), Some("fetched 1m ago"));
    assert_eq!(footer_texts(endpoint_footer_spans(&items, false, None, 125_000_000_000)), base);
    let auto = footer_texts(endpoint_footer_spans(&Vec::new(), false, None, 0));
    assert_eq!(auto[1], (SpanTone::Primary, "auto-route".to_owned()));
}

#[test]
fn pinned_endpoint_is_first_active_or_auto_route() {
    let items = vec![
        EndpointEntry { provider_name: "alpha".to_owned(), is_active: false },
        EndpointEntry { provider_name: "beta".to_owned(), is_active: true },
        EndpointEntry { provider_name: "gamma".to_owned(), is_active: true },
    ];
    assert_eq!(pinned_endpoint_name(&items), "beta");
    assert_eq!(pinned_endpoint_name(&Vec::new()), "auto-route");
}

#[test]
fn picker_footers_count_enabled_entries() {
    let flags = vec![true, false, true];
    assert_eq!(count_enabled(&flags), 2);
    assert_eq!(tool_picker_footer(&flags), " TAB toggle \u{00b7} 2/3 enabled \u{00b7} Enter confirm \u{00b7} ESC cancel ");
    assert_eq!(skill_picker_footer_tail(&flags), "refresh · 2/3 enabled · Enter confirm · ESC cancel");
    assert_eq!(count_enabled(&Vec::new()), 0);
}
