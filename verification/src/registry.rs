//! The registry of live subscriptions.

use crate::channel::channel_bound;
use std::collections::HashMap;
use tokio::sync::mpsc;
use tonic::Status;
use vstd::prelude::*;
use vstd::std_specs::hash::*;

verus! {

/// How many notifications a subscriber's channel buffers before further ones
/// are dropped.
pub const CHANNEL_CAPACITY: usize = 4;

/// The identity of one subscription. Identities are handed out in increasing
/// order and mean nothing outside the process that minted them.
#[derive(Clone, Copy, Debug, PartialEq, Eq, Hash, Structural)]
pub struct SubscriptionId(pub u64);

/// What a subscriber is told: how many subscribers there were when the
/// notification was computed.
#[derive(Clone, Copy, Debug, PartialEq, Eq, Structural)]
pub struct SubscribeUpdate {
    pub count: u32,
}

/// What travels over a subscriber's channel: a notification or the failure
/// that ends the stream.
pub type Notification = Result<SubscribeUpdate, Status>;

/// The registry's half of one subscription: the sending end of the
/// subscriber's channel.
#[derive(Debug)]
pub struct SubscriptionContext {
    pub(crate) sender: mpsc::Sender<Notification>,
}

impl SubscriptionContext {
    /// The sending end of the subscriber's channel.
    pub closed spec fn sender(&self) -> mpsc::Sender<Notification> {
        self.sender
    }

    /// The most notifications that can wait in this subscriber's channel.
    pub open spec fn bound(&self) -> usize {
        channel_bound(self.sender())
    }

    /// Wraps the sending end of a subscriber's channel.
    pub fn new(sender: mpsc::Sender<Notification>) -> (context: Self)
        ensures
            context.sender() == sender,
    {
        SubscriptionContext { sender }
    }
}

/// The live subscriptions, each under its identity.
#[derive(Debug)]
pub struct SubscriberRegistry {
    pub(crate) contexts_by_id: HashMap<u64, SubscriptionContext>,
}

impl View for SubscriberRegistry {
    type V = Map<u64, SubscriptionContext>;

    /// The registry as a map from the number of each live identity to its
    /// context.
    open(crate) spec fn view(&self) -> Map<u64, SubscriptionContext> {
        self.contexts_by_id@
    }
}

impl SubscriberRegistry {
    /// A registry always holds finitely many subscriptions.
    pub proof fn lemma_finite(&self)
        ensures
            self@.dom().finite(),
    {
        broadcast use group_hash_axioms;

    }

    /// An empty registry.
    pub fn new() -> (registry: Self)
        ensures
            registry@ == Map::<u64, SubscriptionContext>::empty(),
    {
        SubscriberRegistry { contexts_by_id: HashMap::new() }
    }

    /// Registers `context` under `id`. An entry already under `id` is replaced.
    pub fn insert(&mut self, id: SubscriptionId, context: SubscriptionContext)
        ensures
            final(self)@ == old(self)@.insert(id.0, context),
    {
        broadcast use group_hash_axioms;

        self.contexts_by_id.insert(id.0, context);
    }

    /// Removes the entry under `id` and says whether there was one. Removing
    /// an identity that is not registered changes nothing.
    pub fn remove(&mut self, id: SubscriptionId) -> (removed: bool)
        ensures
            removed == old(self)@.contains_key(id.0),
            final(self)@ == old(self)@.remove(id.0),
    {
        broadcast use group_hash_axioms;

        self.contexts_by_id.remove(&id.0).is_some()
    }

    /// The number of live subscriptions.
    pub fn count(&self) -> (count: usize)
        ensures
            count == self@.len(),
    {
        broadcast use group_hash_axioms;

        self.contexts_by_id.len()
    }
}

} // verus!
