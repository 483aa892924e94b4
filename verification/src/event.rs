//! Lifecycle events and the errors of the supervision core.

use vstd::prelude::*;
use crate::ActorId;

verus! {

/// The lifecycle transition that a supervision event describes.
#[derive(Clone, Copy, PartialEq, Eq, Structural, Debug)]
pub enum LifecycleChange {
    /// The child actor started.
    Started,
    /// The child actor stopped normally.
    StoppedNormally,
    /// The child actor stopped because of a failure.
    StoppedWithFailure,
}

/// Error returned when an event cannot be re-specialized for a recipient
/// whose expected state type differs from the one the event carries.
#[derive(Clone, Copy, PartialEq, Eq, Structural, Debug)]
pub enum RespecializeError {
    /// The recipient expects a different state type than the event carries.
    StateTypeMismatch,
}

/// Error returned when a delivery attempt cannot reach its target.
#[derive(Clone, Copy, PartialEq, Eq, Structural, Debug)]
pub enum DeliveryError {
    /// The target actor is no longer reachable.
    TargetUnreachable,
}

/// Control signal accepted by every actor: a fire-and-forget termination
/// request.
#[derive(Clone, Copy, PartialEq, Eq, Structural, Debug)]
pub enum ControlSignal {
    /// Ask the actor to stop.
    Terminate,
}

/// A notification describing a child's lifecycle transition, sent upward to
/// supervisors.
///
/// The event's payload is specialized to the child's internal state type;
/// `state_tag` records which one. Before delivery to a parent the event is
/// re-specialized for the state type that parent expects, which succeeds
/// exactly when the tags agree.
#[derive(Clone, Copy, PartialEq, Eq, Structural, Debug)]
pub struct SupervisionEvent {
    /// The child whose transition the event describes.
    pub child: ActorId,
    /// The transition itself.
    pub change: LifecycleChange,
    /// Tag of the state type the event's payload is specialized to.
    pub state_tag: u64,
}

impl SupervisionEvent {
    /// Build an event describing `change` of the child `child`, specialized
    /// to the state type tagged `state_tag`.
    pub fn new(child: ActorId, change: LifecycleChange, state_tag: u64) -> (r: SupervisionEvent)
        ensures
            r == (SupervisionEvent { child, change, state_tag }),
    {
        SupervisionEvent { child, change, state_tag }
    }

    /// Re-specialize the event for a recipient that expects the state type
    /// tagged `expected_tag`.
    ///
    /// Succeeds, with an identical event, exactly when the recipient expects
    /// the state type the event already carries; otherwise reports the
    /// mismatch instead of aborting, so that a notification fan-out can skip
    /// the one recipient and go on.
    pub fn respecialize_for(&self, expected_tag: u64) -> (r: Result<SupervisionEvent, RespecializeError>)
        ensures
            expected_tag == self.state_tag ==> r == Result::<SupervisionEvent, RespecializeError>::Ok(*self),
            expected_tag != self.state_tag ==> r == Result::<SupervisionEvent, RespecializeError>::Err(
                RespecializeError::StateTypeMismatch,
            ),
    {
        if expected_tag == self.state_tag {
            Ok(*self)
        } else {
            Err(RespecializeError::StateTypeMismatch)
        }
    }
}

} // verus!
