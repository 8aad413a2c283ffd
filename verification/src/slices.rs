//! The slice registry as the intent handler sees it: the dashboard's slice
//! cell (when registered) and the registered tab scopes, plus the dashboard
//! view over its slot.

use vstd::prelude::*;
use vstd::string::*;
use crate::dashboard::DashboardState;
use crate::intent_result::SliceScopeId;

verus! {

/// A slice cell's key: a namespace and a name.
#[derive(Debug)]
pub struct SlotKey {
    pub namespace: String,
    pub name: String,
}

impl SlotKey {
    /// A built-in slot.
    pub fn builtin(namespace: &str, name: &str) -> (r: SlotKey)
        ensures
            r.namespace@ == namespace@,
            r.name@ == name@,
    {
        SlotKey { namespace: String::from_str(namespace), name: String::from_str(name) }
    }
}

/// The dashboard slice's slot, `dashboard:status`.
pub fn dashboard_slot() -> (r: SlotKey)
    ensures
        r.namespace@ == "dashboard"@,
        r.name@ == "status"@,
{
    SlotKey::builtin("dashboard", "status")
}

/// The slice registry.
#[derive(Debug)]
pub struct Slices {
    /// The dashboard's cell, when registered.
    pub dashboard: Option<DashboardState>,
    /// The registered tab scopes, in tab order.
    pub tabs: Vec<SliceScopeId>,
}

impl Slices {
    /// An empty registry.
    pub fn new() -> (r: Slices)
        ensures
            r.dashboard is None,
            r.tabs@.len() == 0,
    {
        Slices { dashboard: None, tabs: Vec::new() }
    }

    /// The registry's invariant: a registered dashboard is well formed.
    pub open spec fn wf(&self) -> bool {
        self.dashboard matches Some(d) ==> d.wf()
    }

    /// Registers the dashboard cell; `false` (and no change) when one is
    /// already registered.
    pub fn register_dashboard(&mut self, dashboard: DashboardState) -> (r: bool)
        ensures
            r == old(self).dashboard is None,
            r ==> final(self).dashboard == Some(dashboard),
            !r ==> *final(self) == *old(self),
            final(self).tabs == old(self).tabs,
    {
        if self.dashboard.is_some() {
            return false;
        }
        self.dashboard = Some(dashboard);
        true
    }

    /// The registered tab scopes, in tab order.
    pub fn tab_scopes(&self) -> (r: &Vec<SliceScopeId>)
        ensures
            *r == self.tabs,
    {
        &self.tabs
    }
}

/// The UI element registry that features register their elements with.
#[derive(Debug)]
pub struct AppUiRegistry {
    pub elements: Vec<String>,
}

/// Register the dashboard UI element: a no-op placeholder until the
/// dashboard element renderer exists.
pub fn register(registry: &mut AppUiRegistry)
    ensures
        *final(registry) == *old(registry),
{
}

/// The dashboard's view over its canonical slot.
#[derive(Debug)]
pub struct DashboardView {
    slot: SlotKey,
}

impl DashboardView {
    /// The slot the view reads.
    pub closed spec fn spec_slot(&self) -> SlotKey {
        self.slot
    }

    /// A view over the dashboard's canonical slice slot.
    pub fn new() -> (r: DashboardView)
        ensures
            r.spec_slot().namespace@ == "dashboard"@,
            r.spec_slot().name@ == "status"@,
    {
        DashboardView { slot: dashboard_slot() }
    }

    /// The slot the view reads.
    pub fn slot(&self) -> (r: &SlotKey)
        ensures
            *r == self.spec_slot(),
    {
        &self.slot
    }
}

} // verus!
