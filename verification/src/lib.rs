//! Supervision and broadcast core for an actor runtime.
//!
//! Two independent components:
//! - a supervision registry that tracks which actors supervise which, and
//!   drives cascading termination and upward lifecycle notification;
//! - a broadcast port that fans one produced value out to many
//!   independently typed subscribers.

use vstd::prelude::*;

pub mod channel;
pub mod event;
pub mod handle;
pub mod laws;
pub mod port;
pub mod registry;

pub use event::{ControlSignal, DeliveryError, LifecycleChange, RespecializeError, SupervisionEvent};
pub use handle::ActorHandle;
pub use port::OutputPort;
pub use registry::SupervisionTree;

verus! {

/// Identity of an actor: assigned once at creation, never reused while the
/// actor is alive.
#[derive(Clone, Copy, PartialEq, Eq, Structural, PartialOrd, Ord, Hash, Debug)]
pub struct ActorId(pub u64);

impl ActorId {
    /// The raw token value.
    pub fn raw(&self) -> (r: u64)
        ensures
            r == self.0,
    {
        self.0
    }
}

} // verus!
