//! The life of a subscription: joining, and leaving when the stream is let go.

use crate::broadcast::announce;
use crate::broadcast::broadcast_counts;
use crate::broadcast::BroadcastReport;
use crate::channel::open_channel;
use crate::drop_stream::DropStream;
use crate::membership::lemma_join_counts_the_joiner;
use crate::membership::lemma_leave_lowers_the_count;
use crate::membership::Event;
use crate::membership::Membership;
use crate::registry::SubscribeUpdate;
use crate::registry::SubscriberRegistry;
use crate::registry::SubscriptionContext;
use crate::registry::SubscriptionId;
use crate::registry::CHANNEL_CAPACITY;
use tokio::sync::oneshot;
use tokio::sync::oneshot::error::RecvError;
use vstd::prelude::*;

verus! {

/// What a new subscriber gets.
pub struct Subscription {
    /// The identity under which the subscriber is registered.
    pub id: SubscriptionId,
    /// The stream to hand to the transport.
    pub stream: DropStream<SubscribeUpdate>,
    /// Completes when `stream` is released.
    pub dropped: oneshot::Receiver<()>,
    /// The broadcast that announced the join.
    pub report: BroadcastReport,
}

/// How the wait for a stream's release ended.
#[derive(Clone, Copy, Debug, PartialEq, Eq, Structural)]
pub enum DropSignal {
    /// The stream was released and said so.
    Fired,
    /// The signal's sending half went away without signalling: there is
    /// nothing to clean up.
    Orphaned,
}

/// The signal that the result of awaiting [`Subscription::dropped`] stands for.
pub open spec fn signal_of(awaited: Result<(), RecvError>) -> DropSignal {
    match awaited {
        Ok(_) => DropSignal::Fired,
        Err(_) => DropSignal::Orphaned,
    }
}

impl DropSignal {
    /// Reads the signal off the result of awaiting [`Subscription::dropped`].
    pub fn of(awaited: &Result<(), RecvError>) -> (signal: DropSignal)
        ensures
            signal == signal_of(*awaited),
    {
        match awaited {
            Ok(_) => DropSignal::Fired,
            Err(_) => DropSignal::Orphaned,
        }
    }
}

/// The subscription counting service: the registry of live subscriptions and
/// the counter that identities are minted from.
///
/// Joining and leaving take `&mut self`: each is one indivisible step, and
/// the count it announces is the count of the registry as that step leaves
/// it.
#[derive(Debug)]
pub struct MySubscriptionCounter {
    next_id: u64,
    contexts_by_id: SubscriberRegistry,
}

impl View for MySubscriptionCounter {
    type V = Membership;

    /// The membership that the service stands at.
    open spec fn view(&self) -> Membership {
        Membership { next_id: self.next_id(), live: self.registry().dom() }
    }
}

impl Default for MySubscriptionCounter {
    /// A service with no subscribers.
    fn default() -> (counter: Self)
        ensures
            counter@ == Membership::initial(),
    {
        MySubscriptionCounter::new()
    }
}

impl MySubscriptionCounter {
    /// The number that the next identity will have.
    pub closed spec fn next_id(&self) -> u64 {
        self.next_id
    }

    /// The live subscriptions.
    pub closed spec fn registry(&self) -> Map<u64, SubscriptionContext> {
        self.contexts_by_id@
    }

    /// There are always finitely many subscribers.
    pub proof fn lemma_finite(&self)
        ensures
            self@.live.finite(),
    {
        self.contexts_by_id.lemma_finite();
    }

    /// A service with no subscribers.
    pub fn new() -> (counter: Self)
        ensures
            counter@ == Membership::initial(),
    {
        let counter = MySubscriptionCounter { next_id: 0, contexts_by_id: SubscriberRegistry::new() };
        assert(counter@ =~= Membership::initial());
        counter
    }

    /// The current number of subscribers, as it is announced.
    pub fn get_subscription_count(&self) -> (count: u32)
        ensures
            count == self@.announced(),
    {
        announce(self.contexts_by_id.count())
    }

    /// Admits a new subscriber: mints its identity, opens its channel,
    /// registers it, and announces the new count to every subscriber, the new
    /// one included, so that the first notification the new subscriber can
    /// receive counts it.
    pub fn subscribe(&mut self) -> (subscription: Subscription)
        ensures
            subscription.id.0 == old(self)@.next_id,
            final(self)@ == old(self)@.subscribed(),
            final(self)@.live.contains(subscription.id.0),
            final(self)@.count() >= 1,
            final(self).registry().remove(subscription.id.0) == old(self).registry().remove(
                subscription.id.0,
            ),
            final(self).registry()[subscription.id.0].bound() == CHANNEL_CAPACITY,
            subscription.stream.armed(),
            subscription.report.count == final(self)@.announced(),
            subscription.report.covers(final(self)@.live),
    {
        let id = SubscriptionId(self.next_id);
        self.next_id = if self.next_id == u64::MAX {
            0
        } else {
            self.next_id + 1
        };
        let (update_sender, update_receiver) = open_channel(CHANNEL_CAPACITY);
        self.contexts_by_id.insert(id, SubscriptionContext::new(update_sender));
        let report = broadcast_counts(&self.contexts_by_id);
        let (drop_sender, drop_receiver) = oneshot::channel();
        proof {
            assert(self@ =~= old(self)@.subscribed());
            assert(self.registry().remove(id.0) =~= old(self).registry().remove(id.0));
            old(self).lemma_finite();
            lemma_join_counts_the_joiner(old(self)@);
        }
        Subscription {
            id,
            stream: DropStream::new(update_receiver, drop_sender),
            dropped: drop_receiver,
            report,
        }
    }

    /// Takes the subscriber under `id` off the registry and, if there was
    /// one, announces the new count to those who remain. A second disconnect
    /// of the same identity finds nothing, changes nothing and announces
    /// nothing.
    pub fn disconnect(&mut self, id: SubscriptionId) -> (report: Option<BroadcastReport>)
        ensures
            final(self)@ == old(self)@.disconnected(id.0),
            final(self).registry() == old(self).registry().remove(id.0),
            !final(self)@.announces(Event::Disconnect(id.0)),
            report is Some <==> old(self)@.announces(Event::Disconnect(id.0)),
            report matches Some(announced) ==> {
                &&& final(self)@.count() == old(self)@.count() - 1
                &&& announced.count == final(self)@.announced()
                &&& announced.covers(final(self)@.live)
            },
    {
        let removed = self.contexts_by_id.remove(id);
        proof {
            assert(self@ =~= old(self)@.disconnected(id.0));
            if removed {
                old(self).lemma_finite();
                lemma_leave_lowers_the_count(old(self)@, id.0);
            }
        }
        if removed {
            Some(broadcast_counts(&self.contexts_by_id))
        } else {
            None
        }
    }

    /// Acts on the end of the wait for the release of the stream of `id`:
    /// disconnects the subscriber if the stream signalled its release, and does
    /// nothing if the signal was orphaned.
    pub fn on_drop_signal(&mut self, id: SubscriptionId, signal: DropSignal) -> (report: Option<
        BroadcastReport,
    >)
        ensures
            signal == DropSignal::Orphaned ==> {
                &&& report is None
                &&& final(self)@ == old(self)@
                &&& final(self).registry() == old(self).registry()
            },
            signal == DropSignal::Fired ==> {
                &&& final(self)@ == old(self)@.disconnected(id.0)
                &&& final(self).registry() == old(self).registry().remove(id.0)
                &&& report is Some <==> old(self)@.announces(Event::Disconnect(id.0))
                &&& report matches Some(announced) ==> {
                    &&& final(self)@.count() == old(self)@.count() - 1
                    &&& announced.count == final(self)@.announced()
                    &&& announced.covers(final(self)@.live)
                }
            },
    {
        match signal {
            DropSignal::Fired => self.disconnect(id),
            DropSignal::Orphaned => None,
        }
    }
}

} // verus!
