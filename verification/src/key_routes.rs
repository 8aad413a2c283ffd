//! The keybind route table and the dashboard's contribution to it.
//!
//! A feature registers route rows that map a key in one of its scopes either
//! to one of its own actions (a message for its actor) or to a static intent
//! resolved by composition. The intent handler consults the table first: a
//! dynamic intent whose scope and action match a row's action produces that
//! action's message and never reaches the built-in arms.
//!
//! The dashboard's four navigation keys are served this way: each maps the
//! dashboard scope to a [`DashboardNav`] message for the dashboard actor.

pub mod route_ids;

use vstd::prelude::*;
use vstd::string::*;
use crate::dashboard_nav::DashboardNav;
use crate::intent::Intent;
use crate::intent_result::{IntentResult, Message, SliceScopeId};

verus! {

/// The id of a route row.
#[derive(Debug, Clone, Copy, PartialEq, Eq, Structural)]
pub enum RouteId {
    NavUp,
    NavDown,
    NavFirst,
    NavLast,
    SwitchTab,
    Quit,
    ToggleWhichkey,
}

/// The name a route id is reported under.
pub open spec fn spec_route_name(id: RouteId) -> Seq<char> {
    match id {
        RouteId::NavUp => "dashboard:nav-up"@,
        RouteId::NavDown => "dashboard:nav-down"@,
        RouteId::NavFirst => "dashboard:nav-first"@,
        RouteId::NavLast => "dashboard:nav-last"@,
        RouteId::SwitchTab => "dashboard:switch-tab"@,
        RouteId::Quit => "dashboard:quit"@,
        RouteId::ToggleWhichkey => "dashboard:toggle-whichkey"@,
    }
}

impl RouteId {
    /// The name this id is reported under.
    pub fn name(&self) -> (r: &'static str)
        ensures
            r@ == spec_route_name(*self),
    {
        match self {
            RouteId::NavUp => "dashboard:nav-up",
            RouteId::NavDown => "dashboard:nav-down",
            RouteId::NavFirst => "dashboard:nav-first",
            RouteId::NavLast => "dashboard:nav-last",
            RouteId::SwitchTab => "dashboard:switch-tab",
            RouteId::Quit => "dashboard:quit",
            RouteId::ToggleWhichkey => "dashboard:toggle-whichkey",
        }
    }
}

/// Where a row's key is bound.
#[derive(Debug, Clone, Copy, PartialEq, Eq, Structural)]
pub enum BindSite {
    /// In the row's own scope.
    OwnScope,
}

/// What a row's action does when it runs.
#[derive(Debug, Clone, Copy, PartialEq, Eq, Structural)]
pub enum RouteAction {
    /// Send a navigation message to the dashboard actor.
    Nav(DashboardNav),
}

/// The message an action produces.
pub open spec fn spec_action_message(a: RouteAction) -> Message {
    match a {
        RouteAction::Nav(nav) => Message::Dashboard(nav),
    }
}

impl RouteAction {
    /// Runs the action: its message, with no scope transition.
    pub fn run(&self) -> (r: IntentResult)
        ensures
            r.wf(),
            r.messages@ == seq![spec_action_message(*self)],
            r.scope_signal is None,
    {
        match self {
            RouteAction::Nav(nav) => IntentResult::new_message(Message::Dashboard(*nav)),
        }
    }
}

/// What a row resolves to.
#[derive(Debug)]
pub enum RouteOutcome {
    /// One of the feature's own actions, addressed by name.
    Action { action: String, display: String, run: RouteAction },
    /// A static intent, resolved by composition from the route id.
    StaticIntent(RouteId),
}

/// A route row.
#[derive(Debug)]
pub struct RouteRow {
    pub route_id: RouteId,
    pub scope: SliceScopeId,
    pub key: String,
    pub category: String,
    pub site: BindSite,
    pub feature: String,
    pub outcome: RouteOutcome,
}

/// A route row's outcome with its strings as character sequences.
pub enum OutcomeView {
    Action { action: Seq<char>, display: Seq<char>, run: RouteAction },
    StaticIntent(RouteId),
}

/// A route row with its strings as character sequences.
pub struct RouteRowView {
    pub route_id: RouteId,
    pub scope: (Seq<char>, Seq<char>),
    pub key: Seq<char>,
    pub category: Seq<char>,
    pub site: BindSite,
    pub feature: Seq<char>,
    pub outcome: OutcomeView,
}

impl View for RouteRow {
    type V = RouteRowView;

    open spec fn view(&self) -> RouteRowView {
        RouteRowView {
            route_id: self.route_id,
            scope: (self.scope.namespace@, self.scope.name@),
            key: self.key@,
            category: self.category@,
            site: self.site,
            feature: self.feature@,
            outcome: match self.outcome {
                RouteOutcome::Action { action, display, run } => OutcomeView::Action {
                    action: action@,
                    display: display@,
                    run,
                },
                RouteOutcome::StaticIntent(id) => OutcomeView::StaticIntent(id),
            },
        }
    }
}

/// Whether `row` serves the action named `action` in `scope`.
pub open spec fn spec_serves(row: RouteRowView, scope: (Seq<char>, Seq<char>), action: Seq<char>) -> bool {
    &&& row.scope == scope
    &&& row.outcome matches OutcomeView::Action { action: a, .. } && a == action
}

/// The action of the first row in `rows` that serves `action` in `scope`.
pub open spec fn spec_route(rows: Seq<RouteRowView>, scope: (Seq<char>, Seq<char>), action: Seq<char>) -> Option<RouteAction>
    decreases rows.len(),
{
    if rows.len() == 0 {
        None
    } else if spec_serves(rows[0], scope, action) {
        match rows[0].outcome {
            OutcomeView::Action { run, .. } => Some(run),
            OutcomeView::StaticIntent(_) => None,
        }
    } else {
        spec_route(rows.drop_first(), scope, action)
    }
}

/// The action a route table runs for `intent`: only a dynamic intent can be
/// served, by the first row matching its scope and action.
pub open spec fn spec_intent_route(rows: Seq<RouteRowView>, intent: Intent) -> Option<RouteAction> {
    match intent {
        Intent::Dynamic(d) => spec_route(rows, (d.scope.namespace@, d.scope.name@), d.action@),
        _ => None,
    }
}

/// The shared keybind route table.
#[derive(Debug)]
pub struct KeyRoutes {
    rows: Vec<RouteRow>,
}

impl View for KeyRoutes {
    type V = Seq<RouteRowView>;

    closed spec fn view(&self) -> Seq<RouteRowView> {
        self.rows@.map_values(|row: RouteRow| row@)
    }
}

impl KeyRoutes {
    /// An empty table.
    pub fn new() -> (r: KeyRoutes)
        ensures
            r@ == Seq::<RouteRowView>::empty(),
    {
        let r = KeyRoutes { rows: Vec::new() };
        assert(r@ =~= Seq::<RouteRowView>::empty());
        r
    }

    /// Appends a row.
    pub fn attach(&mut self, row: RouteRow)
        ensures
            final(self)@ == old(self)@.push(row@),
    {
        self.rows.push(row);
        assert(self@ =~= old(self)@.push(row@));
    }

    /// The rows, in the order they were attached.
    pub fn rows(&self) -> (r: &Vec<RouteRow>)
        ensures
            r@.len() == self@.len(),
            forall|i: int| 0 <= i < r@.len() ==> #[trigger] r@[i]@ == self@[i],
    {
        &self.rows
    }

    /// Runs the action that serves `intent`, if a row serves it: its message,
    /// with no scope transition.
    pub fn action_for(&self, intent: &Intent) -> (r: Option<IntentResult>)
        ensures
            match spec_intent_route(self@, *intent) {
                Some(a) => r matches Some(res) && {
                    &&& res.wf()
                    &&& res.messages@ =~= seq![spec_action_message(a)]
                    &&& res.scope_signal is None
                },
                None => r is None,
            },
    {
        let d = match intent {
            Intent::Dynamic(d) => d,
            _ => return None,
        };
        let ghost scope = (d.scope.namespace@, d.scope.name@);
        let ghost rows = self@;
        let mut i: usize = 0;
        assert(rows.subrange(0, rows.len() as int) =~= rows);
        while i < self.rows.len()
            invariant
                i <= self.rows@.len(),
                rows == self@,
                rows.len() == self.rows@.len(),
                *intent == Intent::Dynamic(*d),
                scope == (d.scope.namespace@, d.scope.name@),
                spec_route(rows, scope, d.action@) == spec_route(rows.subrange(i as int, rows.len() as int), scope, d.action@),
            decreases self.rows.len() - i,
        {
            let row = &self.rows[i];
            let ghost rest = rows.subrange(i as int, rows.len() as int);
            assert(rows[i as int] == row@);
            assert(rest[0] == row@);
            assert(rest.drop_first() =~= rows.subrange(i + 1, rows.len() as int));
            if row.scope.same(&d.scope) {
                if let RouteOutcome::Action { action, run, .. } = &row.outcome {
                    if *action == d.action {
                        assert(spec_serves(rest[0], scope, d.action@));
                        assert(spec_route(rest, scope, d.action@) == Some(*run));
                        let res = run.run();
                        assert(spec_intent_route(self@, *intent) == Some(*run));
                        assert(res.messages@ =~= seq![spec_action_message(*run)]);
                        return Some(res);
                    }
                }
            }
            i += 1;
        }
        assert(rows.subrange(i as int, rows.len() as int).len() == 0);
        assert(spec_route(rows, scope, d.action@) is None);
        None
    }
}

/// The dashboard tab's dynamic scope: its identity in the focus stack and
/// the route table.
pub fn dashboard_scope() -> (r: SliceScopeId)
    ensures
        r.namespace@ == "dashboard"@,
        r.name@ == "tab"@,
{
    SliceScopeId::new("dashboard", "tab")
}

/// The dashboard scope as character sequences.
pub open spec fn spec_dashboard_scope() -> (Seq<char>, Seq<char>) {
    ("dashboard"@, "tab"@)
}

/// A navigation row of the dashboard.
pub open spec fn nav_row(id: RouteId, key: Seq<char>, action: Seq<char>, display: Seq<char>, nav: DashboardNav) -> RouteRowView {
    RouteRowView {
        route_id: id,
        scope: spec_dashboard_scope(),
        key,
        category: "navigation"@,
        site: BindSite::OwnScope,
        feature: "dashboard"@,
        outcome: OutcomeView::Action { action, display, run: RouteAction::Nav(nav) },
    }
}

/// A shared-chrome row of the dashboard, resolved to a static intent.
pub open spec fn chrome_row(id: RouteId, key: Seq<char>) -> RouteRowView {
    RouteRowView {
        route_id: id,
        scope: spec_dashboard_scope(),
        key,
        category: "general"@,
        site: BindSite::OwnScope,
        feature: "dashboard"@,
        outcome: OutcomeView::StaticIntent(id),
    }
}

/// The dashboard's rows, in the order they are attached.
pub open spec fn dashboard_rows() -> Seq<RouteRowView> {
    seq![
        nav_row(RouteId::NavUp, "k"@, "nav-up"@, "move up"@, DashboardNav::Up),
        nav_row(RouteId::NavDown, "j"@, "nav-down"@, "move down"@, DashboardNav::Down),
        nav_row(RouteId::NavFirst, "g"@, "nav-first"@, "move to first"@, DashboardNav::First),
        nav_row(RouteId::NavLast, "G"@, "nav-last"@, "move to last"@, DashboardNav::Last),
        chrome_row(RouteId::SwitchTab, "<Tab>"@),
        chrome_row(RouteId::SwitchTab, "<esc>"@),
        chrome_row(RouteId::Quit, "q"@),
        chrome_row(RouteId::ToggleWhichkey, "?"@),
    ]
}

/// A navigation row of the dashboard.
fn attach_nav_row(routes: &mut KeyRoutes, id: RouteId, key: &str, action: &str, display: &str, nav: DashboardNav)
    ensures
        final(routes)@ == old(routes)@.push(nav_row(id, key@, action@, display@, nav)),
{
    let scope = dashboard_scope();
    routes.attach(RouteRow {
        route_id: id,
        scope,
        key: String::from_str(key),
        category: String::from_str("navigation"),
        site: BindSite::OwnScope,
        feature: String::from_str("dashboard"),
        outcome: RouteOutcome::Action {
            action: String::from_str(action),
            display: String::from_str(display),
            run: RouteAction::Nav(nav),
        },
    });
}

/// A shared-chrome row of the dashboard.
fn attach_chrome_row(routes: &mut KeyRoutes, id: RouteId, key: &str)
    ensures
        final(routes)@ == old(routes)@.push(chrome_row(id, key@)),
{
    let scope = dashboard_scope();
    routes.attach(RouteRow {
        route_id: id,
        scope,
        key: String::from_str(key),
        category: String::from_str("general"),
        site: BindSite::OwnScope,
        feature: String::from_str("dashboard"),
        outcome: RouteOutcome::StaticIntent(id),
    });
}

/// Registers the dashboard feature's keybind rows onto the shared route
/// table: the four navigation keys as actions producing [`DashboardNav`]
/// messages, and the shared-chrome keys (`<Tab>`, `<esc>`, `q`, `?`) as
/// static intents.
pub fn attach_dashboard_rows(routes: &mut KeyRoutes)
    ensures
        final(routes)@ == old(routes)@ + dashboard_rows(),
{
    let ghost before = routes@;
    attach_nav_row(routes, route_ids::NAV_UP, "k", "nav-up", "move up", DashboardNav::Up);
    attach_nav_row(routes, route_ids::NAV_DOWN, "j", "nav-down", "move down", DashboardNav::Down);
    attach_nav_row(routes, route_ids::NAV_FIRST, "g", "nav-first", "move to first", DashboardNav::First);
    attach_nav_row(routes, route_ids::NAV_LAST, "G", "nav-last", "move to last", DashboardNav::Last);
    attach_chrome_row(routes, route_ids::SWITCH_TAB, "<Tab>");
    attach_chrome_row(routes, route_ids::SWITCH_TAB, "<esc>");
    attach_chrome_row(routes, route_ids::QUIT, "q");
    attach_chrome_row(routes, route_ids::TOGGLE_WHICHKEY, "?");
    assert(routes@ =~= before + dashboard_rows());
}


/// The action the dashboard registers under the name `action`.
pub open spec fn dashboard_action(action: Seq<char>) -> Option<RouteAction> {
    if action == "nav-up"@ {
        Some(RouteAction::Nav(DashboardNav::Up))
    } else if action == "nav-down"@ {
        Some(RouteAction::Nav(DashboardNav::Down))
    } else if action == "nav-first"@ {
        Some(RouteAction::Nav(DashboardNav::First))
    } else if action == "nav-last"@ {
        Some(RouteAction::Nav(DashboardNav::Last))
    } else {
        None
    }
}

/// Rows that serve nothing pass a lookup on to the rows after them.
pub proof fn lemma_route_skips(prior: Seq<RouteRowView>, rest: Seq<RouteRowView>, scope: (Seq<char>, Seq<char>), action: Seq<char>)
    requires
        forall|i: int| 0 <= i < prior.len() ==> !spec_serves(#[trigger] prior[i], scope, action),
    ensures
        spec_route(prior + rest, scope, action) == spec_route(rest, scope, action),
    decreases prior.len(),
{
    if prior.len() > 0 {
        assert((prior + rest)[0] == prior[0]);
        assert((prior + rest).drop_first() =~= prior.drop_first() + rest);
        assert forall|i: int| 0 <= i < prior.drop_first().len() implies !spec_serves(#[trigger] prior.drop_first()[i], scope, action) by {
            assert(prior.drop_first()[i] == prior[i + 1]);
        }
        lemma_route_skips(prior.drop_first(), rest, scope, action);
    } else {
        assert(prior + rest =~= rest);
    }
}

/// Once the dashboard's rows are attached to a table none of whose rows
/// serves the action, a dynamic intent is served exactly when it is
/// addressed to the dashboard scope and names one of the four navigation
/// actions (`nav-up`, `nav-down`, `nav-first`, `nav-last`), each by its
/// own navigation message; the shared-chrome rows never serve a dynamic
/// intent.
pub proof fn lemma_dashboard_routes(prior: Seq<RouteRowView>, scope: (Seq<char>, Seq<char>), action: Seq<char>)
    requires
        forall|i: int| 0 <= i < prior.len() ==> !spec_serves(#[trigger] prior[i], scope, action),
    ensures
        spec_route(prior + dashboard_rows(), scope, action) == if scope == spec_dashboard_scope() {
            dashboard_action(action)
        } else {
            None
        },
{
    lemma_route_skips(prior, dashboard_rows(), scope, action);
    reveal_strlit("nav-up");
    reveal_strlit("nav-down");
    reveal_strlit("nav-first");
    reveal_strlit("nav-last");
    let rows = dashboard_rows();
    assert(rows.drop_first() =~= rows.subrange(1, 8));
    assert(rows.subrange(1, 8).drop_first() =~= rows.subrange(2, 8));
    assert(rows.subrange(2, 8).drop_first() =~= rows.subrange(3, 8));
    assert(rows.subrange(3, 8).drop_first() =~= rows.subrange(4, 8));
    assert(rows.subrange(4, 8).drop_first() =~= rows.subrange(5, 8));
    assert(rows.subrange(5, 8).drop_first() =~= rows.subrange(6, 8));
    assert(rows.subrange(6, 8).drop_first() =~= rows.subrange(7, 8));
    assert(rows.subrange(7, 8).drop_first() =~= Seq::<RouteRowView>::empty());
    reveal_with_fuel(spec_route, 9);
}

} // verus!
