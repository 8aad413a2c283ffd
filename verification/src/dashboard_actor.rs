//! The dashboard actor: the single writer of the dashboard state.
//!
//! It folds the generic lifecycle events (`ActorStarting`, `ActorStarted`,
//! `ActorShutdownCompleted`) and the generic [`ServiceStatusUpdate`] into the
//! dashboard. The message loop that delivers those events runs outside the
//! library; each delivery is one call of a fold below.

use vstd::prelude::*;
use crate::lifecycle::ActorLifecycle;
use crate::dashboard::{DashboardModel, DashboardState, EntryView, spec_set_status, spec_upsert};

verus! {

/// An actor announced that it is starting.
pub struct ActorStarting {
    pub name: String,
    pub description: Option<String>,
}

/// An actor finished starting.
pub struct ActorStarted {
    pub name: String,
    pub description: Option<String>,
}

/// An actor shut down.
pub struct ActorShutdownCompleted {
    pub name: String,
}

/// A generic status report for one dashboard row, published by whichever
/// feature owns the service.
#[derive(Debug)]
pub struct ServiceStatusUpdate {
    /// The row name.
    pub name: String,
    /// A description to attach, if any.
    pub description: Option<String>,
    /// A lifecycle to record, if any.
    pub lifecycle: Option<ActorLifecycle>,
    /// A status message to write, if any.
    pub status_message: Option<String>,
}

/// The content of a [`ServiceStatusUpdate`].
pub struct ServiceStatusView {
    pub name: Seq<char>,
    pub description: Option<Seq<char>>,
    pub lifecycle: Option<ActorLifecycle>,
    pub status_message: Option<Seq<char>>,
}

impl View for ServiceStatusUpdate {
    type V = ServiceStatusView;

    open spec fn view(&self) -> ServiceStatusView {
        ServiceStatusView {
            name: self.name@,
            description: self.description.deep_view(),
            lifecycle: self.lifecycle,
            status_message: self.status_message.deep_view(),
        }
    }
}

/// The rows after applying a status update: the lifecycle (with the
/// description) when one is given, then the status message when one is given.
pub open spec fn spec_apply_service_status(s: Seq<EntryView>, u: ServiceStatusView) -> Seq<
    EntryView,
> {
    let after_lifecycle = match u.lifecycle {
        Some(lc) => spec_upsert(s, u.name, u.description, lc),
        None => s,
    };
    match u.status_message {
        Some(_) => spec_set_status(after_lifecycle, u.name, u.status_message),
        None => after_lifecycle,
    }
}

/// Applies a [`ServiceStatusUpdate`] to the dashboard.
pub fn apply_service_status(dashboard: &mut DashboardState, msg: ServiceStatusUpdate)
    requires
        old(dashboard).wf(),
    ensures
        final(dashboard).wf(),
        final(dashboard)@.entries == spec_apply_service_status(old(dashboard)@.entries, msg@),
        final(dashboard)@.selected_index == old(dashboard)@.selected_index,
        final(dashboard)@.scroll_offset == old(dashboard)@.scroll_offset,
{
    let ghost v = msg@;
    let ServiceStatusUpdate { name, description, lifecycle, status_message } = msg;
    match lifecycle {
        Some(lc) => dashboard.mark(name.as_str(), description, lc),
        None => {},
    }
    if status_message.is_some() {
        dashboard.set_status_message(name.as_str(), status_message);
    }
}

/// Dependencies for [`DashboardActor`]: the dashboard it will own.
pub struct DashboardActorDeps {
    pub dashboard: DashboardState,
}

/// The dashboard actor; owns the dashboard exclusively.
pub struct DashboardActor {
    dashboard: DashboardState,
}

impl DashboardActor {
    /// The dashboard this actor owns.
    pub closed spec fn spec_dashboard(&self) -> DashboardModel {
        self.dashboard@
    }

    /// The actor's invariant.
    pub open spec fn wf(&self) -> bool {
        self.spec_dashboard().wf()
    }

    /// Starts the actor over the given dashboard.
    pub fn on_start(args: DashboardActorDeps) -> (r: Self)
        requires
            args.dashboard.wf(),
        ensures
            r.wf(),
            r.spec_dashboard() == args.dashboard@,
    {
        DashboardActor { dashboard: args.dashboard }
    }

    /// Read access to the owned dashboard.
    pub fn dashboard(&self) -> (r: &DashboardState)
        ensures
            r@ == self.spec_dashboard(),
    {
        &self.dashboard
    }

    /// Folds an [`ActorStarting`]: the row becomes `Starting`.
    pub fn handle_starting(&mut self, msg: ActorStarting)
        requires
            old(self).wf(),
        ensures
            final(self).wf(),
            final(self).spec_dashboard().entries == spec_upsert(
                old(self).spec_dashboard().entries,
                msg.name@,
                msg.description.deep_view(),
                ActorLifecycle::Starting,
            ),
            final(self).spec_dashboard().selected_index == old(self).spec_dashboard().selected_index,
            final(self).spec_dashboard().scroll_offset == old(self).spec_dashboard().scroll_offset,
    {
        self.dashboard.mark_starting(msg.name.as_str(), msg.description);
    }

    /// Folds an [`ActorStarted`]: the row becomes `Running`.
    pub fn handle_started(&mut self, msg: ActorStarted)
        requires
            old(self).wf(),
        ensures
            final(self).wf(),
            final(self).spec_dashboard().entries == spec_upsert(
                old(self).spec_dashboard().entries,
                msg.name@,
                msg.description.deep_view(),
                ActorLifecycle::Running,
            ),
            final(self).spec_dashboard().selected_index == old(self).spec_dashboard().selected_index,
            final(self).spec_dashboard().scroll_offset == old(self).spec_dashboard().scroll_offset,
    {
        self.dashboard.mark_running(msg.name.as_str(), msg.description);
    }

    /// Folds an [`ActorShutdownCompleted`]: the row becomes `Dead`, keeping
    /// its description.
    pub fn handle_shutdown(&mut self, msg: ActorShutdownCompleted)
        requires
            old(self).wf(),
        ensures
            final(self).wf(),
            final(self).spec_dashboard().entries == spec_upsert(
                old(self).spec_dashboard().entries,
                msg.name@,
                None,
                ActorLifecycle::Dead,
            ),
            final(self).spec_dashboard().selected_index == old(self).spec_dashboard().selected_index,
            final(self).spec_dashboard().scroll_offset == old(self).spec_dashboard().scroll_offset,
    {
        self.dashboard.mark_dead(msg.name.as_str(), None);
    }

    /// Folds a [`ServiceStatusUpdate`].
    pub fn handle_service_status(&mut self, msg: ServiceStatusUpdate)
        requires
            old(self).wf(),
        ensures
            final(self).wf(),
            final(self).spec_dashboard().entries == spec_apply_service_status(
                old(self).spec_dashboard().entries,
                msg@,
            ),
            final(self).spec_dashboard().selected_index == old(self).spec_dashboard().selected_index,
            final(self).spec_dashboard().scroll_offset == old(self).spec_dashboard().scroll_offset,
    {
        apply_service_status(&mut self.dashboard, msg);
    }
}

} // verus!
