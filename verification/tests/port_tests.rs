//! Tests of the broadcast port: heterogeneous fan-out, per-subscriber
//! ordering, and the end-to-end stop-check scenario.

use std::time::Duration;

use actor_core::port::{convert_and_forward, OutputPort};
use tokio::sync::mpsc::{unbounded_channel, UnboundedReceiver, UnboundedSender};
use tokio::task::JoinHandle;
use tokio::time::{sleep, timeout};

/// Drain one subscription's feed in order, applying its conversion to each
/// broadcast value; the port side stays free of any await.
fn spawn_pump<T, M, F>(
    feed: UnboundedReceiver<T>,
    target: UnboundedSender<M>,
    convert: F,
) -> JoinHandle<()>
where
    T: Send + 'static,
    M: Send + 'static,
    F: Fn(T) -> Option<M> + Send + 'static,
{
    tokio::spawn(async move {
        let mut feed = feed;
        while let Some(value) = feed.recv().await {
            let _ = convert_and_forward(&target, &convert, value);
        }
    })
}

#[test]
fn each_subscriber_gets_declined_free_prefix_in_order() {
    let runtime = tokio::runtime::Runtime::new().unwrap();
    runtime.block_on(async {
        let mut port: OutputPort<u64> = OutputPort::new();
        let total_sends: u64 = 5;
        let accepted_sends: u64 = 2;

        let mut inboxes = Vec::new();
        for _ in 0..3 {
            let (target_tx, target_rx) = unbounded_channel::<u64>();
            let (_key, feed_rx) = port.subscribe();
            // Accept only the first `accepted_sends` values, decline the rest.
            spawn_pump(feed_rx, target_tx, move |v: u64| {
                if v < accepted_sends {
                    Some(v)
                } else {
                    None
                }
            });
            inboxes.push(target_rx);
        }
        assert_eq!(port.num_subscriptions(), 3);

        for v in 0..total_sends {
            // Every send makes one enqueue attempt per subscription.
            assert_eq!(port.send(v).len(), 3);
        }
        sleep(Duration::from_millis(200)).await;

        for inbox in inboxes.iter_mut() {
            // Exactly the accepted prefix arrived, in send order.
            for expected in 0..accepted_sends {
                assert_eq!(inbox.try_recv().unwrap(), expected);
            }
            assert!(inbox.try_recv().is_err());
        }
    });
}

#[test]
fn heterogeneous_subscribers_each_convert_their_own_way() {
    let runtime = tokio::runtime::Runtime::new().unwrap();
    runtime.block_on(async {
        let mut port: OutputPort<u64> = OutputPort::new();

        let (text_tx, mut text_rx) = unbounded_channel::<String>();
        let (_key_a, feed_a) = port.subscribe();
        spawn_pump(feed_a, text_tx, |v: u64| Some(format!("value {}", v)));

        let (double_tx, mut double_rx) = unbounded_channel::<u64>();
        let (_key_b, feed_b) = port.subscribe();
        spawn_pump(feed_b, double_tx, |v: u64| Some(v * 2));

        assert_eq!(port.send(21), vec![0, 1]);
        sleep(Duration::from_millis(200)).await;

        assert_eq!(text_rx.try_recv().unwrap(), "value 21");
        assert_eq!(double_rx.try_recv().unwrap(), 42);
    });
}

#[test]
fn unsubscribed_feed_gets_nothing_more() {
    let runtime = tokio::runtime::Runtime::new().unwrap();
    runtime.block_on(async {
        let mut port: OutputPort<u64> = OutputPort::new();
        let (kept_tx, mut kept_rx) = unbounded_channel::<u64>();
        let (_kept_key, kept_feed) = port.subscribe();
        spawn_pump(kept_feed, kept_tx, Some);

        let (gone_tx, mut gone_rx) = unbounded_channel::<u64>();
        let (gone_key, gone_feed) = port.subscribe();
        spawn_pump(gone_feed, gone_tx, Some);

        assert_eq!(port.send(1), vec![0, 1]);
        port.unsubscribe(gone_key);
        assert_eq!(port.send(2), vec![0]);
        // Dropping a key that is no longer there is a no-op.
        port.unsubscribe(gone_key);
        sleep(Duration::from_millis(200)).await;

        assert_eq!(kept_rx.try_recv().unwrap(), 1);
        assert_eq!(kept_rx.try_recv().unwrap(), 2);
        assert!(kept_rx.try_recv().is_err());
        assert_eq!(gone_rx.try_recv().unwrap(), 1);
        assert!(gone_rx.try_recv().is_err());
        assert_eq!(port.num_subscriptions(), 1);
    });
}

#[test]
fn send_survives_dead_subscriber_and_keeps_subscription() {
    let runtime = tokio::runtime::Runtime::new().unwrap();
    runtime.block_on(async {
        let mut port: OutputPort<u64> = OutputPort::new();
        let (_key, feed_rx) = port.subscribe();
        // The subscriber is gone before anything is sent.
        drop(feed_rx);
        // The enqueue attempt is still made, silently.
        assert_eq!(port.send(7), vec![0]);
        // The failed delivery is silent and does not prune the subscription.
        assert_eq!(port.num_subscriptions(), 1);
    });
}

#[test]
fn convert_and_forward_declines_and_delivers() {
    let (tx, mut rx) = unbounded_channel::<u64>();
    // A declined value is never delivered.
    assert!(!convert_and_forward(&tx, &|_v: u64| None::<u64>, 5));
    assert!(rx.try_recv().is_err());
    // A yielded message lands in the mailbox, converted.
    assert!(convert_and_forward(&tx, &|v: u64| Some(v + 1), 5));
    assert_eq!(rx.try_recv().unwrap(), 6);
    // Once the mailbox is gone, delivery fails silently.
    drop(rx);
    assert!(!convert_and_forward(&tx, &|v: u64| Some(v), 5));
}

#[test]
fn subscription_keys_are_fresh() {
    let mut port = OutputPort::<u64>::new();
    assert_eq!(port.next_subscription_key(), 0);
    let (k0, _feed0) = port.subscribe();
    let (k1, _feed1) = port.subscribe();
    assert_eq!((k0, k1), (0, 1));
    assert_eq!(port.num_subscriptions(), 2);
    port.unsubscribe(k0);
    assert_eq!(port.num_subscriptions(), 1);
    // Keys are never reused.
    assert_eq!(port.next_subscription_key(), 2);
}

enum TestActorMessage {
    Stop,
}

/// A minimal actor: drains its mailbox strictly in order, counts messages,
/// and once the counter exceeds 3 stops itself on the next stop-check.
fn spawn_counter_actor(mut mailbox: UnboundedReceiver<TestActorMessage>) -> JoinHandle<()> {
    tokio::spawn(async move {
        let mut state: u8 = 0;
        while let Some(message) = mailbox.recv().await {
            println!("Test actor received a message");
            match message {
                TestActorMessage::Stop => {
                    if state > 3 {
                        break;
                    }
                }
            }
            state += 1;
        }
    })
}

#[test]
fn test_single_forward() {
    let runtime = tokio::runtime::Runtime::new().unwrap();
    runtime.block_on(async {
        let (mailbox_tx, mailbox_rx) = unbounded_channel();
        let handle = spawn_counter_actor(mailbox_rx);

        let mut output = OutputPort::<()>::default();
        let (_key, feed_rx) = output.subscribe();
        spawn_pump(feed_rx, mailbox_tx, |_| Some(TestActorMessage::Stop));

        // Four sends: the actor must still be running.
        for _ in 0..4 {
            output.send(());
        }
        sleep(Duration::from_millis(50)).await;
        assert!(!handle.is_finished());

        // The fifth send triggers the exit condition.
        output.send(());
        timeout(Duration::from_millis(1000), handle)
            .await
            .expect("Test actor failed in exit")
            .unwrap();
    });
}

#[test]
fn test_50_receivers() {
    let runtime = tokio::runtime::Runtime::new().unwrap();
    runtime.block_on(async {
        let mut output = OutputPort::<()>::default();
        let mut actor_handles = Vec::new();
        for _ in 0..50 {
            let (mailbox_tx, mailbox_rx) = unbounded_channel();
            actor_handles.push(spawn_counter_actor(mailbox_rx));
            let (_key, feed_rx) = output.subscribe();
            spawn_pump(feed_rx, mailbox_tx, |_| Some(TestActorMessage::Stop));
        }

        // Four sends: every actor must still be running.
        for _ in 0..4 {
            output.send(());
        }
        sleep(Duration::from_millis(50)).await;
        for handle in actor_handles.iter() {
            assert!(!handle.is_finished());
        }

        // The fifth send terminates all of them, independently.
        output.send(());
        for handle in actor_handles {
            timeout(Duration::from_millis(1000), handle)
                .await
                .expect("Test actor failed in exit")
                .unwrap();
        }
    });
}
