//! The membership of the service as a state machine, and the laws it obeys.
//!
//! The executable service states each of its operations as one step of this
//! machine, so whatever is proved here of sequences of steps holds of the
//! service.

use vstd::prelude::*;

verus! {

/// The membership at one moment: who is subscribed, and the number that the
/// next subscriber's identity will have.
#[verifier::ext_equal]
pub struct Membership {
    pub next_id: u64,
    pub live: Set<u64>,
}

/// What can happen to the membership.
pub enum Event {
    /// A new subscriber joins.
    Subscribe,
    /// The stream of the subscriber with this number was let go.
    Disconnect(u64),
}

/// The count that is announced when there are `subscribers` of them: the
/// count itself as long as it fits the 32 bits of the message field, and its
/// low 32 bits beyond.
pub open spec fn announced_count(subscribers: nat) -> u32 {
    (subscribers % 0x1_0000_0000) as u32
}

/// The number minted after `id`. The counter wraps after `u64::MAX`.
pub open spec fn successor(id: u64) -> u64 {
    if id == u64::MAX {
        0
    } else {
        (id + 1) as u64
    }
}

impl Membership {
    /// Nobody subscribed, and the first identity still to be minted.
    pub open spec fn initial() -> Membership {
        Membership { next_id: 0, live: Set::empty() }
    }

    /// How many subscribers there are.
    pub open spec fn count(self) -> nat {
        self.live.len()
    }

    /// The count as a notification carries it.
    pub open spec fn announced(self) -> u32 {
        announced_count(self.count())
    }

    /// The membership after a subscriber has joined under the next identity.
    pub open spec fn subscribed(self) -> Membership {
        Membership { next_id: successor(self.next_id), live: self.live.insert(self.next_id) }
    }

    /// The membership after the subscriber numbered `id`, if there is one, has
    /// left.
    pub open spec fn disconnected(self, id: u64) -> Membership {
        Membership { next_id: self.next_id, live: self.live.remove(id) }
    }

    /// The membership after `event`.
    pub open spec fn after(self, event: Event) -> Membership {
        match event {
            Event::Subscribe => self.subscribed(),
            Event::Disconnect(id) => self.disconnected(id),
        }
    }

    /// Whether `event` changes the membership, and so makes the service
    /// announce the new count.
    pub open spec fn announces(self, event: Event) -> bool {
        match event {
            Event::Subscribe => true,
            Event::Disconnect(id) => self.live.contains(id),
        }
    }

    /// The membership after all of `events`, first to last.
    pub open spec fn after_all(self, events: Seq<Event>) -> Membership
        decreases events.len(),
    {
        if events.len() == 0 {
            self
        } else {
            self.after_all(events.drop_last()).after(events.last())
        }
    }

    /// The identities minted in the course of `events`, in the order of
    /// minting.
    pub open spec fn minted(self, events: Seq<Event>) -> Seq<u64>
        decreases events.len(),
    {
        if events.len() == 0 {
            Seq::empty()
        } else {
            let before = self.minted(events.drop_last());
            match events.last() {
                Event::Subscribe => before.push(self.after_all(events.drop_last()).next_id),
                Event::Disconnect(_) => before,
            }
        }
    }

    /// Every disconnect among `events` is that of a subscriber who is there
    /// when it happens.
    pub open spec fn orderly(self, events: Seq<Event>) -> bool
        decreases events.len(),
    {
        events.len() > 0 ==> {
            &&& self.orderly(events.drop_last())
            &&& events.last() matches Event::Disconnect(id) ==> self.after_all(
                events.drop_last(),
            ).live.contains(id)
        }
    }

    /// Finitely many subscribers, each with an identity below the next one to
    /// be minted: the counter has not come round to a live identity.
    pub open spec fn ahead(self) -> bool {
        &&& self.live.finite()
        &&& forall|id: u64| self.live.contains(id) ==> id < self.next_id
    }
}

/// How many of `events` are subscribes.
pub open spec fn subscribes(events: Seq<Event>) -> nat
    decreases events.len(),
{
    if events.len() == 0 {
        0
    } else {
        subscribes(events.drop_last()) + if events.last() is Subscribe {
            1nat
        } else {
            0nat
        }
    }
}

/// How many of `events` are disconnects.
pub open spec fn disconnects(events: Seq<Event>) -> nat
    decreases events.len(),
{
    if events.len() == 0 {
        0
    } else {
        disconnects(events.drop_last()) + if events.last() is Disconnect {
            1nat
        } else {
            0nat
        }
    }
}

/// Where the counter stands after `events`, and which identities it has
/// minted on the way, as long as it has not wrapped.
proof fn lemma_counter_counts(start: Membership, events: Seq<Event>)
    requires
        start.next_id + subscribes(events) <= u64::MAX + 1,
    ensures
        start.minted(events).len() == subscribes(events),
        forall|k: int|
            0 <= k < subscribes(events) ==> #[trigger] start.minted(events)[k] == start.next_id + k,
        start.next_id + subscribes(events) <= u64::MAX ==> start.after_all(events).next_id
            == start.next_id + subscribes(events),
    decreases events.len(),
{
    if events.len() > 0 {
        lemma_counter_counts(start, events.drop_last());
    }
}

/// Uniqueness: the identities minted in the course of any sequence of events
/// are pairwise distinct, for as long as the 64-bit counter has not wrapped.
/// They are minted in increasing order, one after the other.
pub proof fn lemma_minted_identities_are_distinct(start: Membership, events: Seq<Event>)
    requires
        start.next_id + subscribes(events) <= u64::MAX + 1,
    ensures
        start.minted(events).no_duplicates(),
        start.minted(events).len() == subscribes(events),
        forall|k: int|
            0 <= k < subscribes(events) ==> #[trigger] start.minted(events)[k] == start.next_id + k,
{
    lemma_counter_counts(start, events);
}

/// A membership that is ahead stays ahead over a disconnect, and over a
/// subscribe that does not wrap the counter.
pub proof fn lemma_ahead_is_kept(before: Membership, event: Event)
    requires
        before.ahead(),
        event is Subscribe ==> before.next_id < u64::MAX,
    ensures
        before.after(event).ahead(),
{
}

/// Over any orderly sequence of events that does not exhaust the counter, the
/// membership stays ahead and its size moves by one with each event: up with
/// a subscribe, down with a disconnect.
pub proof fn lemma_count_follows_events(start: Membership, events: Seq<Event>)
    requires
        start.ahead(),
        start.orderly(events),
        start.next_id + subscribes(events) <= u64::MAX,
    ensures
        start.after_all(events).ahead(),
        start.after_all(events).next_id == start.next_id + subscribes(events),
        start.after_all(events).count() + disconnects(events) == start.count() + subscribes(
            events,
        ),
    decreases events.len(),
{
    if events.len() > 0 {
        let earlier = events.drop_last();
        lemma_count_follows_events(start, earlier);
        let before = start.after_all(earlier);
        match events.last() {
            Event::Subscribe => {
                assert(!before.live.contains(before.next_id));
            },
            Event::Disconnect(id) => {
                assert(before.live.contains(id));
            },
        }
    }
}

/// Count accuracy: after any sequence of subscribes and of disconnects of
/// subscribers who were there, starting with nobody subscribed, the number of
/// subscribers is the number of subscribes less the number of disconnects,
/// and that is the count announced as long as it fits 32 bits.
pub proof fn lemma_count_is_subscribes_less_disconnects(events: Seq<Event>)
    requires
        Membership::initial().orderly(events),
        subscribes(events) <= u64::MAX,
    ensures
        subscribes(events) >= disconnects(events),
        Membership::initial().after_all(events).count() == subscribes(events) - disconnects(
            events,
        ),
        subscribes(events) - disconnects(events) <= u32::MAX ==> Membership::initial().after_all(
            events,
        ).announced() == subscribes(events) - disconnects(events),
{
    lemma_count_follows_events(Membership::initial(), events);
}

/// Join: whoever joins is among the subscribers that the join is announced
/// to, so the count announced on joining counts the joiner and is at least 1.
pub proof fn lemma_join_counts_the_joiner(before: Membership)
    requires
        before.live.finite(),
    ensures
        before.subscribed().live.contains(before.next_id),
        before.subscribed().count() >= 1,
        before.subscribed().count() <= u32::MAX ==> before.subscribed().announced() >= 1,
        !before.live.contains(before.next_id) ==> before.subscribed().count() == before.count()
            + 1,
{
}

/// Leave: when a subscriber leaves, the count goes down by exactly 1, and
/// those it is announced to are all the others and not the leaver.
pub proof fn lemma_leave_lowers_the_count(before: Membership, id: u64)
    requires
        before.live.finite(),
        before.live.contains(id),
    ensures
        before.announces(Event::Disconnect(id)),
        before.disconnected(id).count() == before.count() - 1,
        !before.disconnected(id).live.contains(id),
        forall|other: u64|
            other != id ==> (before.disconnected(id).live.contains(other)
                <==> before.live.contains(other)),
{
}

/// No double removal: a second disconnect of the same identity changes
/// nothing and announces nothing. So of two disconnects of one subscriber
/// exactly the first is announced, and the count goes down once.
pub proof fn lemma_second_disconnect_is_idle(before: Membership, id: u64)
    requires
        before.live.finite(),
    ensures
        before.announces(Event::Disconnect(id)) <==> before.live.contains(id),
        !before.disconnected(id).announces(Event::Disconnect(id)),
        before.disconnected(id).disconnected(id) == before.disconnected(id),
        before.live.contains(id) ==> before.disconnected(id).disconnected(id).count()
            == before.count() - 1,
{
    assert(before.disconnected(id).disconnected(id) =~= before.disconnected(id));
}

} // verus!
