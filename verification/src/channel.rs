//! Trusted boundary to tokio's unbounded mpsc channel.
//!
//! The core delivers terminations, supervision events and broadcast values
//! by enqueueing into per-actor unbounded channels: enqueueing never blocks,
//! and it fails exactly when the receiving half is gone. Whether a given
//! send succeeds depends on the state of the far end, so the wrappers here
//! promise nothing about the outcome; the verified callers state what holds
//! whichever way it went.

use vstd::prelude::*;

verus! {

/// Sending half of a tokio unbounded mpsc channel, declared so that it can
/// stand in fields and signatures of the library.
#[verifier::external_type_specification]
#[verifier::external_body]
#[verifier::reject_recursive_types(T)]
pub struct ExUnboundedSender<T>(tokio::sync::mpsc::UnboundedSender<T>);

/// Receiving half of a tokio unbounded mpsc channel.
#[verifier::external_type_specification]
#[verifier::external_body]
#[verifier::reject_recursive_types(T)]
pub struct ExUnboundedReceiver<T>(tokio::sync::mpsc::UnboundedReceiver<T>);

/// Relies on tokio::sync::mpsc::UnboundedSender::clone: the clone sends into
/// the same channel as the original.
pub assume_specification<T>[ <tokio::sync::mpsc::UnboundedSender<T> as Clone>::clone ](
    s: &tokio::sync::mpsc::UnboundedSender<T>,
) -> tokio::sync::mpsc::UnboundedSender<T>;

/// Relies on tokio::sync::mpsc::unbounded_channel: creates a connected
/// sender/receiver pair.
#[verifier::external_body]
pub fn channel_pair<T>() -> (tokio::sync::mpsc::UnboundedSender<T>, tokio::sync::mpsc::UnboundedReceiver<T>) {
    tokio::sync::mpsc::unbounded_channel()
}

/// Relies on tokio::sync::mpsc::UnboundedSender::send: enqueues without
/// blocking; fails exactly when the receiving half of the channel is closed,
/// in which case the value is dropped here. Returns whether the value was
/// accepted.
#[verifier::external_body]
pub fn channel_send<T>(tx: &tokio::sync::mpsc::UnboundedSender<T>, value: T) -> bool {
    tx.send(value).is_ok()
}

} // verus!
