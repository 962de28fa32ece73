//! Offering the current subscriber count to every live subscriber.

use crate::membership::announced_count;
use crate::registry::Notification;
use crate::registry::SubscribeUpdate;
use crate::registry::SubscriberRegistry;
use crate::registry::SubscriptionId;
use tokio::sync::mpsc::error::TrySendError;
use vstd::prelude::*;
use vstd::std_specs::hash::*;
use vstd::std_specs::iter::IteratorSpec;

verus! {

/// What became of one notification offered to one subscriber.
#[derive(Clone, Copy, Debug, PartialEq, Eq, Structural)]
pub enum SendOutcome {
    /// The channel took the notification.
    Delivered,
    /// The subscriber's buffer was full: this notification is lost to it.
    Full,
    /// The subscriber's end of the channel is gone.
    Closed,
}

/// The outcome that a `try_send` result stands for.
pub open spec fn outcome_of<T>(sent: Result<(), TrySendError<T>>) -> SendOutcome {
    match sent {
        Ok(_) => SendOutcome::Delivered,
        Err(TrySendError::Full(_)) => SendOutcome::Full,
        Err(TrySendError::Closed(_)) => SendOutcome::Closed,
    }
}

impl SendOutcome {
    /// Reads the outcome off what `try_send` returned.
    pub fn of<T>(sent: &Result<(), TrySendError<T>>) -> (outcome: SendOutcome)
        ensures
            outcome == outcome_of(*sent),
    {
        match sent {
            Ok(_) => SendOutcome::Delivered,
            Err(TrySendError::Full(_)) => SendOutcome::Full,
            Err(TrySendError::Closed(_)) => SendOutcome::Closed,
        }
    }
}

/// One subscriber's part in a broadcast.
#[derive(Clone, Copy, Debug, PartialEq, Eq, Structural)]
pub struct Delivery {
    pub id: SubscriptionId,
    pub outcome: SendOutcome,
}

/// The record of one broadcast: the count that was announced, and for each
/// subscriber it was offered to, what became of it.
#[derive(Debug)]
pub struct BroadcastReport {
    pub count: u32,
    pub deliveries: Vec<Delivery>,
}

impl BroadcastReport {
    /// The identities that the count was offered to, in the order of offering.
    pub open spec fn offered(&self) -> Seq<u64> {
        Seq::new(self.deliveries@.len(), |i: int| self.deliveries@[i].id.0)
    }

    /// The count was offered to each identity in `ids` once, and to no other.
    pub open spec fn covers(&self, ids: Set<u64>) -> bool {
        &&& self.offered().no_duplicates()
        &&& self.offered().to_set() == ids
        &&& self.offered().len() == ids.len()
    }

    /// In a broadcast over `ids`, every one of them has its delivery, whatever
    /// became of the deliveries to the others: a subscriber with a full buffer
    /// or a closed channel holds nobody else up.
    pub proof fn lemma_nobody_is_held_up(&self, ids: Set<u64>, id: u64)
        requires
            self.covers(ids),
            ids.contains(id),
        ensures
            exists|i: int|
                0 <= i < self.deliveries@.len() && (#[trigger] self.deliveries@[i]).id.0 == id,
    {
        assert(self.offered().to_set().contains(id));
        let i = choose|i: int| 0 <= i < self.offered().len() && self.offered()[i] == id;
        assert(self.deliveries@[i].id.0 == id);
    }
}

/// Computes the count to announce for `subscribers` registered subscribers.
pub fn announce(subscribers: usize) -> (count: u32)
    ensures
        count == announced_count(subscribers as nat),
{
    let wide: u64 = subscribers as u64;
    assert((wide as u32) == wide % 0x1_0000_0000) by (bit_vector);
    wide as u32
}

/// Computes the current subscriber count once and offers it to every
/// registered subscriber without waiting for any of them. A subscriber whose
/// buffer is full misses this count; one whose channel is closed is left in
/// the registry for the disconnect path to remove.
pub fn broadcast_counts(registry: &SubscriberRegistry) -> (report: BroadcastReport)
    ensures
        report.count == announced_count(registry@.len()),
        report.covers(registry@.dom()),
{
    broadcast use group_hash_axioms;

    let count = announce(registry.count());
    let mut deliveries: Vec<Delivery> = Vec::new();
    for (id, context) in it: registry.contexts_by_id.iter()
        invariant
            it.seq() == spec_hash_map_iter(&registry.contexts_by_id).remaining(),
            deliveries@.len() == it.index(),
            forall|j: int| 0 <= j < it.index() ==> deliveries@[j].id.0 == *(#[trigger] it.seq()[j]).0,
    {
        let update: Notification = Ok(SubscribeUpdate { count });
        let outcome = SendOutcome::of(&context.sender.try_send(update));
        deliveries.push(Delivery { id: SubscriptionId(*id), outcome });
    }
    let report = BroadcastReport { count, deliveries };
    proof {
        let entries = spec_hash_map_iter(&registry.contexts_by_id).remaining();
        let offered = report.offered();
        assert(offered.len() == entries.len());
        assert forall|i: int, j: int|
            0 <= i < offered.len() && 0 <= j < offered.len() && i != j implies offered[i]
            != offered[j] by {
            if offered[i] == offered[j] {
                assert(*entries[i].0 == *entries[j].0);
                assert(*entries[i].1 == registry.contexts_by_id@[*entries[i].0]);
                assert(*entries[j].1 == registry.contexts_by_id@[*entries[j].0]);
                assert(entries[i] == entries[j]);
            }
        }
        assert forall|k: u64| offered.to_set().contains(k) <==> registry@.dom().contains(k) by {
            if offered.to_set().contains(k) {
                let i = choose|i: int| 0 <= i < offered.len() && offered[i] == k;
                assert(registry.contexts_by_id@.contains_key(*entries[i].0));
            }
            if registry@.dom().contains(k) {
                let pair = (&k, &registry.contexts_by_id@[k]);
                assert(entries.contains(pair));
                let i = choose|i: int| 0 <= i < entries.len() && entries[i] == pair;
                assert(offered[i] == k);
            }
        }
        assert(offered.to_set() =~= registry@.dom());
    }
    report
}

} // verus!
