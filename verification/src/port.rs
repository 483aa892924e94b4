//! The broadcast port: a one-to-many channel where each subscriber supplies
//! its own conversion from the broadcast payload to its private message
//! type.
//!
//! A subscription is a dedicated unbounded feed channel: `send` enqueues the
//! payload into every live feed without blocking, so fan-out never waits on
//! a slow subscriber and a feed keeps its enqueue order. The subscriber side
//! drains its feed in order and runs `convert_and_forward` on each value,
//! which applies that subscriber's conversion and, when a message comes out,
//! attempts non-blocking delivery into the subscriber's own mailbox.

use vstd::prelude::*;
use crate::channel::{channel_pair, channel_send};

verus! {

/// One subscription's feed: the port's sending half of the subscription's
/// dedicated channel, under the key the subscription was registered with.
#[verifier::reject_recursive_types(T)]
pub struct PortFeed<T> {
    /// Key of the subscription, unique within its port.
    pub key: u64,
    /// Sending half of the subscription's feed channel.
    pub tx: tokio::sync::mpsc::UnboundedSender<T>,
}

/// A one-to-many broadcast channel for payloads of type `T`.
///
/// Any number of subscriptions may be added; each gets every value sent
/// after it subscribed, in send order. A subscription persists until it is
/// explicitly removed; delivery failures do not prune it.
#[verifier::reject_recursive_types(T)]
pub struct OutputPort<T> {
    feeds: Vec<PortFeed<T>>,
    next_key: u64,
}

impl<T> OutputPort<T> {
    /// The keys of the current subscriptions, in subscription order.
    pub closed spec fn keys(self) -> Seq<u64> {
        self.feeds@.map_values(|f: PortFeed<T>| f.key)
    }

    /// The key the next subscription will get.
    pub closed spec fn next_key(self) -> u64 {
        self.next_key
    }

    /// Well-formedness: subscription keys are distinct, and all stay below
    /// the next one to be handed out.
    pub open spec fn wf(self) -> bool {
        &&& forall|i: int, j: int|
            0 <= i < j < self.keys().len() ==> #[trigger] self.keys()[i] != #[trigger] self.keys()[j]
        &&& forall|i: int| 0 <= i < self.keys().len() ==> #[trigger] self.keys()[i] < self.next_key()
    }

    /// A port with no subscriptions.
    pub fn new() -> (r: OutputPort<T>)
        ensures
            r.wf(),
            r.keys() == Seq::<u64>::empty(),
            r.next_key() == 0,
    {
        let r = OutputPort { feeds: Vec::new(), next_key: 0 };
        proof {
            assert(r.keys() =~= Seq::<u64>::empty());
        }
        r
    }

    /// Register a new subscription and hand back its key together with the
    /// receiving half of its feed channel. The subscriber drains the feed,
    /// in order, through its own conversion.
    pub fn subscribe(&mut self) -> (r: (u64, tokio::sync::mpsc::UnboundedReceiver<T>))
        requires
            old(self).wf(),
            old(self).next_key() < u64::MAX,
        ensures
            final(self).wf(),
            r.0 == old(self).next_key(),
            final(self).next_key() == old(self).next_key() + 1,
            !old(self).keys().contains(r.0),
            final(self).keys() == old(self).keys().push(r.0),
    {
        let (tx, rx) = channel_pair();
        let key = self.next_key;
        self.feeds.push(PortFeed { key, tx });
        self.next_key = self.next_key + 1;
        proof {
            assert(final(self).keys() =~= old(self).keys().push(key));
            assert forall|i: int| 0 <= i < old(self).keys().len() implies old(self).keys()[i]
                != key by {
                assert(old(self).keys()[i] < key);
            }
            if old(self).keys().contains(key) {
                let i = choose|i: int|
                    0 <= i < old(self).keys().len() && old(self).keys()[i] == key;
                assert(old(self).keys()[i] < key);
            }
        }
        (key, rx)
    }

    /// Drop the subscription registered under `key`; a no-op if no
    /// subscription has that key.
    pub fn unsubscribe(&mut self, key: u64)
        requires
            old(self).wf(),
        ensures
            final(self).wf(),
            final(self).next_key() == old(self).next_key(),
            old(self).keys().contains(key) ==> final(self).keys() == old(self).keys().remove(
                old(self).keys().index_of(key),
            ),
            !old(self).keys().contains(key) ==> final(self).keys() == old(self).keys(),
    {
        let mut i: usize = 0;
        while i < self.feeds.len()
            invariant
                i <= self.feeds.len(),
                *self == *old(self),
                old(self).wf(),
                forall|j: int| 0 <= j < i ==> old(self).keys()[j] != key,
            decreases self.feeds.len() - i,
        {
            if self.feeds[i].key == key {
                let ghost keys0 = old(self).keys();
                let ghost idx = i as int;
                proof {
                    assert(keys0[idx] == key);
                    assert(keys0.contains(key));
                }
                self.feeds.remove(i);
                proof {
                    assert(keys0.index_of(key) == idx) by {
                        let j = keys0.index_of(key);
                        assert(0 <= j < keys0.len() && keys0[j] == key);
                        if j < idx {
                            assert(keys0[j] != key);
                        }
                        if idx < j {
                            assert(old(self).keys()[idx] != old(self).keys()[j]);
                        }
                    }
                    assert(final(self).keys() =~= keys0.remove(idx));
                    assert forall|a: int, b: int|
                        0 <= a < b < final(self).keys().len() implies final(self).keys()[a]
                        != final(self).keys()[b] by {
                        let ka: int = if a < idx { a } else { a + 1 };
                        let kb: int = if b < idx { b } else { b + 1 };
                        assert(final(self).keys()[a] == keys0[ka]);
                        assert(final(self).keys()[b] == keys0[kb]);
                        assert(old(self).keys()[ka] != old(self).keys()[kb]);
                    }
                    assert forall|a: int|
                        0 <= a < final(self).keys().len() implies #[trigger] final(self).keys()[a]
                        < final(self).next_key() by {
                        let ka: int = if a < idx { a } else { a + 1 };
                        assert(final(self).keys()[a] == keys0[ka]);
                        assert(old(self).keys()[ka] < old(self).next_key());
                    }
                }
                return ;
            }
            i = i + 1;
        }
        proof {
            if old(self).keys().contains(key) {
                let j = choose|j: int|
                    0 <= j < old(self).keys().len() && old(self).keys()[j] == key;
                assert(old(self).keys()[j] != key);
            }
        }
    }

    /// The key the next subscription will be registered under. `subscribe`
    /// asks its caller to rule out key exhaustion; this is how a caller
    /// checks.
    pub fn next_subscription_key(&self) -> (r: u64)
        ensures
            r == self.next_key(),
    {
        self.next_key
    }

    /// The number of current subscriptions.
    pub fn num_subscriptions(&self) -> (r: usize)
        ensures
            r == self.keys().len(),
    {
        self.feeds.len()
    }
}

impl<T: Clone> OutputPort<T> {
    /// Broadcast `value`: enqueue one copy into every subscription's feed,
    /// in subscription order, without blocking. A feed whose subscriber is
    /// gone is skipped silently; no failure is reported and no subscription
    /// is pruned.
    ///
    /// Returns the keys of the subscriptions fed, one entry per enqueue
    /// attempt: exactly the current subscriptions, in subscription order.
    pub fn send(&self, value: T) -> (fed: Vec<u64>)
        ensures
            fed@ == self.keys(),
    {
        let mut fed: Vec<u64> = Vec::new();
        let mut i: usize = 0;
        while i < self.feeds.len()
            invariant
                i <= self.feeds@.len(),
                fed@.len() == i,
                forall|j: int| 0 <= j < i ==> (#[trigger] fed@[j]) == self.keys()[j],
            decreases self.feeds@.len() - i,
        {
            let _ = channel_send(&self.feeds[i].tx, value.clone());
            fed.push(self.feeds[i].key);
            i = i + 1;
        }
        proof {
            assert(fed@ =~= self.keys());
        }
        fed
    }
}

impl<T> Default for OutputPort<T> {
    /// Same as `OutputPort::new`: a port with no subscriptions.
    fn default() -> (r: Self)
        ensures
            r.wf(),
            r.keys() == Seq::<u64>::empty(),
            r.next_key() == 0,
    {
        OutputPort::new()
    }
}

/// One step of a subscription's drain loop: apply the subscription's
/// conversion to a broadcast value and, when it yields a message, attempt
/// non-blocking delivery into the subscriber's mailbox. A declined value
/// (the conversion yields nothing) and a failed delivery (subscriber gone)
/// are both silent.
///
/// Returns whether a message was enqueued; when it was, the conversion
/// yielded one.
pub fn convert_and_forward<T, M, F: Fn(T) -> Option<M>>(
    target: &tokio::sync::mpsc::UnboundedSender<M>,
    convert: &F,
    value: T,
) -> (delivered: bool)
    requires
        call_requires(*convert, (value,)),
    ensures
        exists|converted: Option<M>|
            #[trigger] call_ensures(*convert, (value,), converted) && (delivered
                ==> converted is Some),
{
    let converted = (convert)(value);
    match converted {
        Some(message) => channel_send(target, message),
        None => false,
    }
}

} // verus!
