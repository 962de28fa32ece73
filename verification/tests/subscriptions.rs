use subscription_counter::broadcast::BroadcastReport;
use subscription_counter::broadcast::SendOutcome;
use subscription_counter::drop_stream::DropStream;
use subscription_counter::registry::SubscribeUpdate;
use subscription_counter::registry::SubscriptionId;
use subscription_counter::subscription::DropSignal;
use subscription_counter::subscription::MySubscriptionCounter;

/// The counts waiting in a subscriber's stream, oldest first.
fn drain(stream: &mut DropStream<SubscribeUpdate>) -> Vec<u32> {
    let mut counts = Vec::new();
    while let Ok(notification) = stream.delegate_mut().as_mut().try_recv() {
        match notification {
            Ok(update) => counts.push(update.count),
            Err(status) => panic!("the service never sends a failure: {:?}", status),
        }
    }
    counts
}

/// The identities that a broadcast was offered to, in increasing order.
fn offered(report: &BroadcastReport) -> Vec<u64> {
    let mut ids: Vec<u64> = report.deliveries.iter().map(|delivery| delivery.id.0).collect();
    ids.sort();
    ids
}

fn outcome_for(report: &BroadcastReport, id: SubscriptionId) -> SendOutcome {
    let found: Vec<SendOutcome> = report
        .deliveries
        .iter()
        .filter(|delivery| delivery.id == id)
        .map(|delivery| delivery.outcome)
        .collect();
    assert_eq!(found.len(), 1);
    found[0]
}

#[test]
fn new_service_has_no_subscribers() {
    let counter = MySubscriptionCounter::new();
    assert_eq!(counter.get_subscription_count(), 0);
    let counter = MySubscriptionCounter::default();
    assert_eq!(counter.get_subscription_count(), 0);
}

#[test]
fn three_subscribers_see_the_count_grow() {
    let mut counter = MySubscriptionCounter::new();
    let mut first = counter.subscribe();
    assert_eq!(drain(&mut first.stream), vec![1]);
    let mut second = counter.subscribe();
    assert_eq!(drain(&mut second.stream), vec![2]);
    let mut third = counter.subscribe();
    assert_eq!(drain(&mut third.stream), vec![3]);
    assert_eq!(drain(&mut first.stream), vec![2, 3]);
    assert_eq!(drain(&mut second.stream), vec![3]);
    assert_eq!(counter.get_subscription_count(), 3);
}

#[test]
fn undrained_streams_keep_every_count_in_order() {
    let mut counter = MySubscriptionCounter::new();
    let mut first = counter.subscribe();
    let mut second = counter.subscribe();
    let mut third = counter.subscribe();
    assert_eq!(drain(&mut first.stream), vec![1, 2, 3]);
    assert_eq!(drain(&mut second.stream), vec![2, 3]);
    assert_eq!(drain(&mut third.stream), vec![3]);
}

#[test]
fn identities_are_minted_in_order_and_never_repeat() {
    let mut counter = MySubscriptionCounter::new();
    let mut minted = Vec::new();
    let mut kept = Vec::new();
    for round in 0..20u64 {
        let subscription = counter.subscribe();
        assert_eq!(subscription.id, SubscriptionId(round));
        minted.push(subscription.id.0);
        if round % 3 == 0 {
            assert!(counter.disconnect(subscription.id).is_some());
        } else {
            kept.push(subscription);
        }
    }
    for (i, a) in minted.iter().enumerate() {
        for b in minted.iter().skip(i + 1) {
            assert_ne!(a, b);
        }
    }
}

#[test]
fn count_is_subscribes_less_disconnects() {
    let mut counter = MySubscriptionCounter::new();
    let mut subscriptions = Vec::new();
    for _ in 0..7 {
        subscriptions.push(counter.subscribe());
    }
    assert_eq!(counter.get_subscription_count(), 7);
    for subscription in subscriptions.iter().take(3) {
        assert!(counter.disconnect(subscription.id).is_some());
    }
    assert_eq!(counter.get_subscription_count(), 4);
    subscriptions.push(counter.subscribe());
    assert_eq!(counter.get_subscription_count(), 5);
    for subscription in subscriptions.iter().skip(3) {
        assert!(counter.disconnect(subscription.id).is_some());
    }
    assert_eq!(counter.get_subscription_count(), 0);
}

#[test]
fn join_is_announced_to_the_joiner_first() {
    let mut counter = MySubscriptionCounter::new();
    let _earlier = counter.subscribe();
    let _other = counter.subscribe();
    let mut joiner = counter.subscribe();
    assert_eq!(joiner.report.count, 3);
    assert_eq!(joiner.report.count, counter.get_subscription_count());
    assert_eq!(offered(&joiner.report), vec![0, 1, 2]);
    assert_eq!(outcome_for(&joiner.report, joiner.id), SendOutcome::Delivered);
    let received = drain(&mut joiner.stream);
    assert_eq!(received[0], 3);
    assert!(received[0] >= 1);
}

#[test]
fn first_join_announces_one() {
    let mut counter = MySubscriptionCounter::new();
    let mut only = counter.subscribe();
    assert_eq!(only.id, SubscriptionId(0));
    assert_eq!(only.report.count, 1);
    assert_eq!(offered(&only.report), vec![0]);
    assert!(only.stream.release());
    assert_eq!(drain(&mut only.stream), vec![1]);
}

#[test]
fn leave_is_announced_to_those_who_remain() {
    let mut counter = MySubscriptionCounter::new();
    let mut a = counter.subscribe();
    let mut b = counter.subscribe();
    let mut c = counter.subscribe();
    drain(&mut a.stream);
    drain(&mut b.stream);
    drain(&mut c.stream);
    let report = counter.disconnect(a.id).expect("a was subscribed");
    assert_eq!(report.count, 2);
    assert_eq!(offered(&report), vec![1, 2]);
    assert_eq!(outcome_for(&report, b.id), SendOutcome::Delivered);
    assert_eq!(outcome_for(&report, c.id), SendOutcome::Delivered);
    assert_eq!(drain(&mut b.stream), vec![2]);
    assert_eq!(drain(&mut c.stream), vec![2]);
    assert_eq!(drain(&mut a.stream), Vec::<u32>::new());
    assert_eq!(counter.get_subscription_count(), 2);
}

#[test]
fn second_disconnect_changes_and_announces_nothing() {
    let mut counter = MySubscriptionCounter::new();
    let a = counter.subscribe();
    let mut b = counter.subscribe();
    drain(&mut b.stream);
    assert!(counter.disconnect(a.id).is_some());
    assert_eq!(counter.get_subscription_count(), 1);
    assert_eq!(drain(&mut b.stream), vec![1]);
    assert!(counter.disconnect(a.id).is_none());
    assert_eq!(counter.get_subscription_count(), 1);
    assert_eq!(drain(&mut b.stream), Vec::<u32>::new());
}

#[test]
fn disconnect_of_unknown_identity_is_idle() {
    let mut counter = MySubscriptionCounter::new();
    let mut a = counter.subscribe();
    drain(&mut a.stream);
    assert!(counter.disconnect(SubscriptionId(41)).is_none());
    assert_eq!(counter.get_subscription_count(), 1);
    assert_eq!(drain(&mut a.stream), Vec::<u32>::new());
}

#[test]
fn resubscribing_mints_a_new_identity() {
    let mut counter = MySubscriptionCounter::new();
    let first = counter.subscribe();
    assert!(counter.disconnect(first.id).is_some());
    let again = counter.subscribe();
    assert_ne!(again.id, first.id);
    assert_eq!(again.id, SubscriptionId(1));
    assert_eq!(counter.get_subscription_count(), 1);
}

#[test]
fn channel_buffers_four_counts_and_drops_the_fifth() {
    let mut counter = MySubscriptionCounter::new();
    let mut slow = counter.subscribe();
    let mut kept = Vec::new();
    for round in 2..=4u32 {
        let joiner = counter.subscribe();
        assert_eq!(joiner.report.count, round);
        assert_eq!(outcome_for(&joiner.report, slow.id), SendOutcome::Delivered);
        kept.push(joiner);
    }
    let fifth = counter.subscribe();
    assert_eq!(fifth.report.count, 5);
    assert_eq!(outcome_for(&fifth.report, slow.id), SendOutcome::Full);
    assert_eq!(drain(&mut slow.stream), vec![1, 2, 3, 4]);
    let sixth = counter.subscribe();
    assert_eq!(outcome_for(&sixth.report, slow.id), SendOutcome::Delivered);
    assert_eq!(drain(&mut slow.stream), vec![6]);
}

#[test]
fn slow_consumer_holds_nobody_up() {
    let mut counter = MySubscriptionCounter::new();
    let mut slow = counter.subscribe();
    let mut quick = counter.subscribe();
    let _third = counter.subscribe();
    let _fourth = counter.subscribe();
    assert_eq!(drain(&mut quick.stream), vec![2, 3, 4]);
    let mut fifth = counter.subscribe();
    assert_eq!(offered(&fifth.report), vec![0, 1, 2, 3, 4]);
    assert_eq!(outcome_for(&fifth.report, slow.id), SendOutcome::Full);
    assert_eq!(outcome_for(&fifth.report, quick.id), SendOutcome::Delivered);
    assert_eq!(outcome_for(&fifth.report, fifth.id), SendOutcome::Delivered);
    assert_eq!(drain(&mut quick.stream), vec![5]);
    assert_eq!(drain(&mut fifth.stream), vec![5]);
    assert_eq!(drain(&mut slow.stream), vec![1, 2, 3, 4]);
}

#[test]
fn closed_channel_stays_registered_until_disconnect() {
    let mut counter = MySubscriptionCounter::new();
    let gone = counter.subscribe();
    let gone_id = gone.id;
    drop(gone);
    let mut joiner = counter.subscribe();
    assert_eq!(joiner.report.count, 2);
    assert_eq!(offered(&joiner.report), vec![0, 1]);
    assert_eq!(outcome_for(&joiner.report, gone_id), SendOutcome::Closed);
    assert_eq!(outcome_for(&joiner.report, joiner.id), SendOutcome::Delivered);
    assert_eq!(counter.get_subscription_count(), 2);
    let report = counter.disconnect(gone_id).expect("the stale entry was still there");
    assert_eq!(report.count, 1);
    assert_eq!(offered(&report), vec![1]);
    assert_eq!(drain(&mut joiner.stream), vec![2, 1]);
}

#[test]
fn fired_signal_disconnects() {
    let mut counter = MySubscriptionCounter::new();
    let mut a = counter.subscribe();
    let mut b = counter.subscribe();
    drain(&mut b.stream);
    assert!(a.stream.release());
    let signal = DropSignal::of(&a.dropped.blocking_recv());
    assert_eq!(signal, DropSignal::Fired);
    let report = counter.on_drop_signal(a.id, signal).expect("a was subscribed");
    assert_eq!(report.count, 1);
    assert_eq!(offered(&report), vec![1]);
    assert_eq!(drain(&mut b.stream), vec![1]);
    assert_eq!(counter.get_subscription_count(), 1);
}

#[test]
fn fired_signal_for_departed_subscriber_is_idle() {
    let mut counter = MySubscriptionCounter::new();
    let a = counter.subscribe();
    assert!(counter.on_drop_signal(a.id, DropSignal::Fired).is_some());
    assert!(counter.on_drop_signal(a.id, DropSignal::Fired).is_none());
    assert_eq!(counter.get_subscription_count(), 0);
}

#[test]
fn orphaned_signal_owes_no_cleanup() {
    let mut counter = MySubscriptionCounter::new();
    let a = counter.subscribe();
    let id = a.id;
    let dropped = a.dropped;
    drop(a.stream);
    let signal = DropSignal::of(&dropped.blocking_recv());
    assert_eq!(signal, DropSignal::Orphaned);
    assert!(counter.on_drop_signal(id, signal).is_none());
    assert_eq!(counter.get_subscription_count(), 1);
}
