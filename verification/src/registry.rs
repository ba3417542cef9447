//! The registry of live subscribers and the fan-out of one message to each of
//! them.

use vstd::prelude::*;

verus! {

/// One subscriber: the identity under which it is registered, which stays the
/// same for as long as its connection lives, and the handle through which it
/// is reached.
struct Subscriber<H> {
    id: u64,
    handle: H,
}

/// One message on its way to one subscriber.
pub struct Delivery<'a, H> {
    /// The identity of the subscriber.
    pub subscriber: u64,
    /// The handle through which the subscriber is reached.
    pub handle: &'a H,
    /// The message.
    pub text: String,
}

/// The identities of `entries`, in order.
spec fn ids_of<H>(entries: Seq<Subscriber<H>>) -> Seq<u64> {
    entries.map_values(|s: Subscriber<H>| s.id)
}

/// The subscribers of `entries` by their identity.
spec fn by_id<H>(entries: Seq<Subscriber<H>>) -> Map<u64, H> {
    Map::new(
        |id: u64| ids_of(entries).contains(id),
        |id: u64| entries[ids_of(entries).index_of(id)].handle,
    )
}

/// Where no identity occurs twice, the entry at `at` is the one that its
/// identity leads to.
proof fn lemma_by_id_at<H>(entries: Seq<Subscriber<H>>, at: int)
    requires
        ids_of(entries).no_duplicates(),
        0 <= at < entries.len(),
    ensures
        by_id(entries).contains_key(entries[at].id),
        by_id(entries)[entries[at].id] == entries[at].handle,
{
    let ids = ids_of(entries);
    assert(ids[at] == entries[at].id);
    assert(ids.contains(entries[at].id));
    let found = ids.index_of(entries[at].id);
    assert(0 <= found < ids.len() && ids[found] == entries[at].id);
}

/// An identity of the registry stands at some place of its entries.
proof fn lemma_by_id_place<H>(entries: Seq<Subscriber<H>>, id: u64) -> (at: int)
    requires
        by_id(entries).contains_key(id),
    ensures
        0 <= at < entries.len(),
        entries[at].id == id,
{
    let ids = ids_of(entries);
    let at = choose|i: int| 0 <= i < ids.len() && ids[i] == id;
    at
}

/// Adding an entry under a new identity inserts it into the registry.
proof fn lemma_by_id_push<H>(entries: Seq<Subscriber<H>>, subscriber: Subscriber<H>)
    requires
        ids_of(entries).no_duplicates(),
        !by_id(entries).contains_key(subscriber.id),
    ensures
        ids_of(entries.push(subscriber)).no_duplicates(),
        by_id(entries.push(subscriber)) == by_id(entries).insert(
            subscriber.id,
            subscriber.handle,
        ),
{
    let after = entries.push(subscriber);
    assert(ids_of(after) =~= ids_of(entries).push(subscriber.id));
    assert forall|i: int, j: int|
        0 <= i < after.len() && 0 <= j < after.len() && i != j implies ids_of(after)[i] != ids_of(
        after,
    )[j] by {
        if i < entries.len() {
            assert(ids_of(entries).contains(ids_of(entries)[i]));
        }
        if j < entries.len() {
            assert(ids_of(entries).contains(ids_of(entries)[j]));
        }
    }
    let expected = by_id(entries).insert(subscriber.id, subscriber.handle);
    assert forall|id: u64| by_id(after).contains_key(id) <==> expected.contains_key(id) by {
        if by_id(after).contains_key(id) {
            let at = lemma_by_id_place(after, id);
            if at < entries.len() {
                lemma_by_id_at(entries, at);
            }
        }
        if expected.contains_key(id) {
            if id == subscriber.id {
                lemma_by_id_at(after, entries.len() as int);
            } else {
                let at = lemma_by_id_place(entries, id);
                lemma_by_id_at(after, at);
            }
        }
    }
    assert forall|id: u64| by_id(after).contains_key(id) implies by_id(after)[id] == expected[id] by {
        let at = lemma_by_id_place(after, id);
        lemma_by_id_at(after, at);
        if at < entries.len() {
            lemma_by_id_at(entries, at);
        }
    }
    assert(by_id(after) =~= expected);
}

/// Taking the entry at `at` away removes its identity from the registry and
/// leaves the others as they were.
proof fn lemma_by_id_remove<H>(entries: Seq<Subscriber<H>>, at: int)
    requires
        ids_of(entries).no_duplicates(),
        0 <= at < entries.len(),
    ensures
        ids_of(entries.remove(at)).no_duplicates(),
        by_id(entries.remove(at)) == by_id(entries).remove(entries[at].id),
{
    let after = entries.remove(at);
    let expected = by_id(entries).remove(entries[at].id);
    entries.remove_ensures(at);
    assert forall|i: int, j: int|
        0 <= i < after.len() && 0 <= j < after.len() && i != j implies ids_of(after)[i] != ids_of(
        after,
    )[j] by {
        let oi = if i < at { i } else { i + 1 };
        let oj = if j < at { j } else { j + 1 };
        assert(ids_of(entries)[oi] != ids_of(entries)[oj]);
    }
    assert forall|id: u64| by_id(after).contains_key(id) <==> expected.contains_key(id) by {
        if by_id(after).contains_key(id) {
            let k = lemma_by_id_place(after, id);
            let ok = if k < at { k } else { k + 1 };
            lemma_by_id_at(entries, ok);
            assert(ids_of(entries)[ok] != ids_of(entries)[at]);
        }
        if expected.contains_key(id) {
            let ok = lemma_by_id_place(entries, id);
            let k = if ok < at { ok } else { ok - 1 };
            lemma_by_id_at(after, k);
        }
    }
    assert forall|id: u64| by_id(after).contains_key(id) implies by_id(after)[id] == expected[id] by {
        let k = lemma_by_id_place(after, id);
        let ok = if k < at { k } else { k + 1 };
        lemma_by_id_at(after, k);
        lemma_by_id_at(entries, ok);
        assert(ids_of(entries)[ok] != ids_of(entries)[at]);
    }
    assert(by_id(after) =~= expected);
}

/// A registry has as many subscribers as entries.
proof fn lemma_by_id_len<H>(entries: Seq<Subscriber<H>>)
    requires
        ids_of(entries).no_duplicates(),
    ensures
        by_id(entries).dom().finite(),
        by_id(entries).len() == entries.len(),
{
    let ids = ids_of(entries);
    ids.unique_seq_to_set();
    assert(by_id(entries).dom() =~= ids.to_set());
}

/// The subscribers once `handle` has been registered under `id`: a subscriber
/// that is registered under `id` already stays, and nothing changes.
pub open spec fn registered<H>(subscribers: Map<u64, H>, id: u64, handle: H) -> Map<u64, H> {
    if subscribers.contains_key(id) {
        subscribers
    } else {
        subscribers.insert(id, handle)
    }
}

/// The subscribers once `id` has been unregistered.
pub open spec fn unregistered<H>(subscribers: Map<u64, H>, id: u64) -> Map<u64, H> {
    subscribers.remove(id)
}

/// Registering under one identity a second time changes nothing, whichever
/// handle comes with it.
pub proof fn lemma_register_is_idempotent<H>(
    subscribers: Map<u64, H>,
    id: u64,
    handle: H,
    again: H,
)
    ensures
        registered(subscribers, id, handle).contains_key(id),
        registered(registered(subscribers, id, handle), id, again) == registered(
            subscribers,
            id,
            handle,
        ),
{
}

/// Unregistering leaves the registry without the identity, whether it was
/// registered before or not and however often it is done; the other
/// subscribers stay as they are.
pub proof fn lemma_unregister_is_idempotent<H>(subscribers: Map<u64, H>, id: u64)
    ensures
        !unregistered(subscribers, id).contains_key(id),
        unregistered(unregistered(subscribers, id), id) == unregistered(subscribers, id),
        !subscribers.contains_key(id) ==> unregistered(subscribers, id) == subscribers,
        unregistered(Map::<u64, H>::empty(), id) == Map::<u64, H>::empty(),
        forall|other: u64|
            other != id ==> (unregistered(subscribers, id).contains_key(other)
                <==> subscribers.contains_key(other)),
        forall|other: u64|
            other != id && subscribers.contains_key(other) ==> unregistered(subscribers, id)[other]
                == subscribers[other],
{
    if !subscribers.contains_key(id) {
        assert(unregistered(subscribers, id) =~= subscribers);
    }
}

/// `deliveries` brings `message` to each subscriber of `subscribers` exactly
/// once, through that subscriber's handle, and to nobody else.
pub open spec fn delivers_once_to_each<H>(
    deliveries: Seq<Delivery<'_, H>>,
    subscribers: Map<u64, H>,
    message: Seq<char>,
) -> bool {
    &&& subscribers.dom().finite()
    &&& deliveries.len() == subscribers.len()
    &&& forall|i: int|
        0 <= i < deliveries.len() ==> {
            &&& subscribers.contains_key(#[trigger] deliveries[i].subscriber)
            &&& subscribers[deliveries[i].subscriber] == *deliveries[i].handle
            &&& deliveries[i].text@ == message
        }
    &&& forall|i: int, j: int|
        0 <= i < j < deliveries.len() ==> deliveries[i].subscriber != deliveries[j].subscriber
    &&& forall|id: u64|
        subscribers.contains_key(id) ==> exists|i: int|
            0 <= i < deliveries.len() && #[trigger] deliveries[i].subscriber == id
}

/// The subscribers that are connected at the moment, each under its identity.
pub struct SubscriberRegistry<H> {
    entries: Vec<Subscriber<H>>,
}

impl<H> View for SubscriberRegistry<H> {
    type V = Map<u64, H>;

    closed spec fn view(&self) -> Map<u64, H> {
        by_id(self.entries@)
    }
}

impl<H> SubscriberRegistry<H> {
    /// No identity is registered twice. Every registry that this module hands
    /// out is such, and every operation keeps it so.
    pub closed spec fn wf(&self) -> bool {
        ids_of(self.entries@).no_duplicates()
    }

    /// A registry without subscribers.
    pub fn new() -> (registry: SubscriberRegistry<H>)
        ensures
            registry.wf(),
            registry@ == Map::<u64, H>::empty(),
    {
        SubscriberRegistry { entries: Vec::new() }
    }

    /// The place of the entry registered under `id`, if there is one.
    fn position(&self, id: u64) -> (place: Option<usize>)
        requires
            self.wf(),
        ensures
            match place {
                Some(at) => at < self.entries@.len() && self.entries@[at as int].id == id,
                None => !self@.contains_key(id),
            },
            place is Some <==> self@.contains_key(id),
    {
        let mut at: usize = 0;
        while at < self.entries.len()
            invariant
                at <= self.entries@.len(),
                self.wf(),
                forall|j: int| 0 <= j < at ==> self.entries@[j].id != id,
            decreases self.entries@.len() - at,
        {
            if self.entries[at].id == id {
                proof {
                    lemma_by_id_at(self.entries@, at as int);
                }
                return Some(at);
            }
            at += 1;
        }
        proof {
            if self@.contains_key(id) {
                let k = lemma_by_id_place(self.entries@, id);
            }
        }
        None
    }

    /// The number of subscribers.
    pub fn len(&self) -> (n: usize)
        requires
            self.wf(),
        ensures
            self@.dom().finite(),
            n == self@.len(),
    {
        proof {
            lemma_by_id_len(self.entries@);
        }
        self.entries.len()
    }

    /// Whether a subscriber is registered under `id`.
    pub fn is_registered(&self, id: u64) -> (registered: bool)
        requires
            self.wf(),
        ensures
            registered == self@.contains_key(id),
    {
        self.position(id).is_some()
    }

    /// Registers `handle` under `id`. Where `id` is registered already, nothing
    /// changes, and the result is `false`.
    pub fn register(&mut self, id: u64, handle: H) -> (added: bool)
        requires
            old(self).wf(),
        ensures
            final(self).wf(),
            added == !old(self)@.contains_key(id),
            final(self)@ == registered(old(self)@, id, handle),
    {
        match self.position(id) {
            Some(_) => false,
            None => {
                let subscriber = Subscriber { id, handle };
                proof {
                    lemma_by_id_push(self.entries@, subscriber);
                }
                self.entries.push(subscriber);
                true
            },
        }
    }

    /// Takes the subscriber registered under `id` out of the registry. Where
    /// there is none, nothing changes, and the result is `false`.
    pub fn unregister(&mut self, id: u64) -> (removed: bool)
        requires
            old(self).wf(),
        ensures
            final(self).wf(),
            removed == old(self)@.contains_key(id),
            final(self)@ == unregistered(old(self)@, id),
    {
        match self.position(id) {
            Some(at) => {
                proof {
                    lemma_by_id_remove(self.entries@, at as int);
                }
                self.entries.remove(at);
                true
            },
            None => {
                assert(self@.remove(id) =~= self@);
                false
            },
        }
    }

    /// The fan-out: one delivery of `message` for each subscriber that is
    /// registered at this moment. Nothing is sent here; who performs the
    /// deliveries decides what to do where one of them fails.
    pub fn broadcast<'a>(&'a self, message: &str) -> (deliveries: Vec<Delivery<'a, H>>)
        requires
            self.wf(),
        ensures
            delivers_once_to_each(deliveries@, self@, message@),
    {
        let mut deliveries: Vec<Delivery<'a, H>> = Vec::new();
        let mut at: usize = 0;
        while at < self.entries.len()
            invariant
                at <= self.entries@.len(),
                self.wf(),
                deliveries@.len() == at,
                forall|i: int|
                    0 <= i < at ==> {
                        &&& #[trigger] deliveries@[i].subscriber == self.entries@[i].id
                        &&& *deliveries@[i].handle == self.entries@[i].handle
                        &&& deliveries@[i].text@ == message@
                    },
            decreases self.entries@.len() - at,
        {
            let entry = &self.entries[at];
            deliveries.push(
                Delivery { subscriber: entry.id, handle: &entry.handle, text: String::from_str(message) },
            );
            at += 1;
        }
        proof {
            let entries = self.entries@;
            lemma_by_id_len(entries);
            assert forall|i: int| 0 <= i < deliveries@.len() implies {
                &&& self@.contains_key(#[trigger] deliveries@[i].subscriber)
                &&& self@[deliveries@[i].subscriber] == *deliveries@[i].handle
            } by {
                lemma_by_id_at(entries, i);
            }
            assert forall|i: int, j: int| 0 <= i < j < deliveries@.len() implies deliveries@[i].subscriber
                != deliveries@[j].subscriber by {
                assert(ids_of(entries)[i] != ids_of(entries)[j]);
            }
            assert forall|id: u64| self@.contains_key(id) implies exists|i: int|
                0 <= i < deliveries@.len() && #[trigger] deliveries@[i].subscriber == id by {
                let k = lemma_by_id_place(entries, id);
                assert(deliveries@[k].subscriber == id);
            }
        }
        deliveries
    }
}

} // verus!
