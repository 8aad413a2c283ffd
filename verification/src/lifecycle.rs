//! Generic actor lifecycle shared by every dashboard row.

use vstd::prelude::*;

verus! {

/// Generic actor lifecycle, applicable to every actor in the system.
#[derive(Debug, Clone, Copy, PartialEq, Eq, Structural)]
pub enum ActorLifecycle {
    /// The actor is starting up.
    Starting,
    /// The actor finished starting and is running.
    Running,
    /// The actor has shut down (intentionally or by crashing).
    Dead,
}

} // verus!
