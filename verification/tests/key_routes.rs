use jinn_domain::dashboard_nav::DashboardNav;
use jinn_domain::intent::{DynamicIntent, Intent};
use jinn_domain::intent_result::{Message, SliceScopeId};
use jinn_domain::key_routes::{attach_dashboard_rows, dashboard_scope, route_ids, KeyRoutes, RouteAction, RouteId, RouteOutcome};

fn dashboard_routes() -> KeyRoutes {
    let mut routes = KeyRoutes::new();
    attach_dashboard_rows(&mut routes);
    routes
}

fn dynamic(action: &str) -> Intent {
    Intent::Dynamic(DynamicIntent {
        scope: dashboard_scope(),
        action: action.to_owned(),
        display: "dashboard nav".to_owned(),
    })
}

#[test]
fn shared_chrome_rows_resolve_to_static_intent_ids() {
    let routes = dashboard_routes();
    let rows = routes.rows();
    let quit = rows.iter().find(|row| row.key == "q").expect("quit row attached");
    assert!(matches!(quit.outcome, RouteOutcome::StaticIntent(route_ids::QUIT)));
}

#[test]
fn dynamic_intent_produces_nav_message_for_registered_action() {
    let routes = dashboard_routes();
    for (action, nav) in [
        ("nav-up", DashboardNav::Up),
        ("nav-down", DashboardNav::Down),
        ("nav-first", DashboardNav::First),
        ("nav-last", DashboardNav::Last),
    ] {
        let result = routes.action_for(&dynamic(action)).expect("row is attached");
        assert_eq!(
            result.message_names,
            vec!["jinn_domain::dashboard_nav::DashboardNav".to_owned()],
            "dashboard nav message name"
        );
        assert!(matches!(result.messages.as_slice(), [Message::Dashboard(n)] if *n == nav));
        assert!(result.scope_signal.is_none());
    }
}

#[test]
fn unbound_dynamic_intent_yields_no_route() {
    let routes = dashboard_routes();
    let intent = Intent::Dynamic(DynamicIntent {
        scope: dashboard_scope(),
        action: "nonexistent".to_owned(),
        display: "nothing".to_owned(),
    });
    assert!(routes.action_for(&intent).is_none());
}

#[test]
fn dynamic_intent_for_another_scope_yields_no_route() {
    let routes = dashboard_routes();
    let intent = Intent::Dynamic(DynamicIntent {
        scope: SliceScopeId::new("chat", "tab"),
        action: "nav-up".to_owned(),
        display: "nothing".to_owned(),
    });
    assert!(routes.action_for(&intent).is_none());
}

#[test]
fn static_intent_rows_never_serve_dynamic_intents() {
    let routes = dashboard_routes();
    assert!(routes.action_for(&dynamic("quit")).is_none());
    assert!(routes.action_for(&Intent::Quit).is_none());
}

#[test]
fn dashboard_rows_are_attached_in_order() {
    let routes = dashboard_routes();
    let keys: Vec<&str> = routes.rows().iter().map(|row| row.key.as_str()).collect();
    assert_eq!(keys, vec!["k", "j", "g", "G", "<Tab>", "<esc>", "q", "?"]);
    let ids: Vec<RouteId> = routes.rows().iter().map(|row| row.route_id).collect();
    assert_eq!(
        ids,
        vec![
            RouteId::NavUp,
            RouteId::NavDown,
            RouteId::NavFirst,
            RouteId::NavLast,
            RouteId::SwitchTab,
            RouteId::SwitchTab,
            RouteId::Quit,
            RouteId::ToggleWhichkey,
        ]
    );
    for row in routes.rows() {
        assert_eq!(row.scope.namespace, "dashboard");
        assert_eq!(row.scope.name, "tab");
        assert_eq!(row.feature, "dashboard");
    }
    assert!(matches!(
        &routes.rows()[0].outcome,
        RouteOutcome::Action { action, display, run: RouteAction::Nav(DashboardNav::Up) }
            if action == "nav-up" && display == "move up"
    ));
}

#[test]
fn route_ids_have_dashboard_names() {
    assert_eq!(route_ids::NAV_UP.name(), "dashboard:nav-up");
    assert_eq!(route_ids::NAV_DOWN.name(), "dashboard:nav-down");
    assert_eq!(route_ids::NAV_FIRST.name(), "dashboard:nav-first");
    assert_eq!(route_ids::NAV_LAST.name(), "dashboard:nav-last");
    assert_eq!(route_ids::SWITCH_TAB.name(), "dashboard:switch-tab");
    assert_eq!(route_ids::QUIT.name(), "dashboard:quit");
    assert_eq!(route_ids::TOGGLE_WHICHKEY.name(), "dashboard:toggle-whichkey");
}

#[test]
fn dashboard_scope_is_the_dashboard_tab() {
    let scope = dashboard_scope();
    assert_eq!(scope.namespace, "dashboard");
    assert_eq!(scope.name, "tab");
}
