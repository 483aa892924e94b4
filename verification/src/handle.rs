//! Actor handles: cheap-to-copy capabilities referring to a running (or
//! recently running) actor.

use vstd::prelude::*;
use crate::ActorId;
use crate::channel::channel_send;
use crate::event::{ControlSignal, DeliveryError, SupervisionEvent};

verus! {

/// A capability referring to an actor's control block.
///
/// A handle can ask the actor to terminate and can attempt delivery of a
/// supervision event; both are fire-and-forget and never block. Once the
/// actor is gone, both degrade to a no-op: nothing panics and nothing waits.
pub struct ActorHandle {
    /// The actor's identity.
    pub id: ActorId,
    /// Tag of the state type this actor expects supervision events to be
    /// specialized to.
    pub state_tag: u64,
    /// Channel on which the actor receives termination requests.
    pub signal: tokio::sync::mpsc::UnboundedSender<ControlSignal>,
    /// Channel on which the actor receives supervision events.
    pub events: tokio::sync::mpsc::UnboundedSender<SupervisionEvent>,
}

impl Clone for ActorHandle {
    /// The clone refers to the same actor: same identity, same expected
    /// state type, and delivery into the same channels.
    fn clone(&self) -> (r: Self)
        ensures
            r.id == self.id,
            r.state_tag == self.state_tag,
    {
        ActorHandle {
            id: self.id,
            state_tag: self.state_tag,
            signal: self.signal.clone(),
            events: self.events.clone(),
        }
    }
}

impl ActorHandle {
    /// Build a handle for the actor `id`, which expects supervision events
    /// specialized to the state type tagged `state_tag`, receives
    /// termination requests on `signal` and supervision events on `events`.
    pub fn new(
        id: ActorId,
        state_tag: u64,
        signal: tokio::sync::mpsc::UnboundedSender<ControlSignal>,
        events: tokio::sync::mpsc::UnboundedSender<SupervisionEvent>,
    ) -> (r: ActorHandle)
        ensures
            r.id == id,
            r.state_tag == state_tag,
    {
        ActorHandle { id, state_tag, signal, events }
    }

    /// The identity of the actor this handle refers to.
    pub fn identity(&self) -> (r: ActorId)
        ensures
            r == self.id,
    {
        self.id
    }

    /// Request termination of the actor: enqueue a terminate signal and
    /// return at once. If the actor is already gone, this is a no-op.
    pub fn terminate(&self) {
        let _ = channel_send(&self.signal, ControlSignal::Terminate);
    }

    /// Attempt non-blocking delivery of a supervision event.
    ///
    /// Whether the target is still reachable depends on the far end of the
    /// channel, so nothing pins which way this goes; the only possible
    /// failure is a dead target.
    pub fn deliver_supervision_event(&self, event: SupervisionEvent) -> (r: Result<(), DeliveryError>)
        ensures
            r is Err ==> r == Result::<(), DeliveryError>::Err(DeliveryError::TargetUnreachable),
    {
        if channel_send(&self.events, event) {
            Ok(())
        } else {
            Err(DeliveryError::TargetUnreachable)
        }
    }
}

} // verus!
