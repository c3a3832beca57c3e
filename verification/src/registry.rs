//! The subscriber registry: pending reply waiters, keyed by tag, and event
//! listener lists, keyed by event code.
//!
//! The registry is generic in the sink type `S`, so the asynchronous shell
//! can store whatever it delivers replies and events through (one-shot
//! channels, queues, callbacks). At most one waiter ever waits per tag, a
//! subscriber id is never issued twice, and listeners of one code are kept
//! in subscription order.

use vstd::prelude::*;

use crate::error::Error;
use crate::proto::{EventCode, Tag};

verus! {

broadcast use {
    vstd::seq_lib::group_seq_properties,
    vstd::seq_lib::group_seq_lib_default,
    vstd::seq::Seq::lemma_filter_push,
    vstd::seq::Seq::lemma_filter_len_push,
};

/// A process-locally unique identifier of one event listener.
#[derive(Clone, Copy, Debug, PartialEq, Eq, Structural)]
pub struct SubscriberId(pub u64);

impl SubscriberId {
    /// Wrap a raw 64-bit id.
    pub fn new(inner: u64) -> (r: Self)
        ensures
            r.0 == inner,
    {
        SubscriberId(inner)
    }

    /// The raw 64-bit id.
    pub fn inner(&self) -> (r: u64)
        ensures
            r == self.0,
    {
        self.0
    }
}

/// Allocates subscriber ids: strictly increasing, never reused.
pub struct SubscriberIdGenerator {
    /// The id the next call hands out.
    pub counter: u64,
}

impl SubscriberIdGenerator {
    /// A generator whose first id is zero.
    pub fn new() -> (r: Self)
        ensures
            r.counter == 0,
    {
        SubscriberIdGenerator { counter: 0 }
    }

    /// Hand out the next id.
    pub fn generate(&mut self) -> (r: SubscriberId)
        requires
            old(self).counter < u64::MAX,
        ensures
            r.0 == old(self).counter,
            final(self).counter == old(self).counter + 1,
    {
        let id = SubscriberId::new(self.counter);
        self.counter = self.counter + 1;
        id
    }
}

/// The tuple kept per event listener: its code, its id, and its sink.
pub type Listener<S> = (EventCode, SubscriberId, S);

/// Keeps the listeners of `code`, in subscription order.
pub open spec fn code_pred<S>(code: EventCode) -> spec_fn(Listener<S>) -> bool {
    |e: Listener<S>| e.0 == code
}

/// The pending reply waiters and the event listeners of one connection.
pub struct Subscribers<S> {
    reply_waiters: Vec<(Tag, S)>,
    event_listeners: Vec<Listener<S>>,
    id_generator: SubscriberIdGenerator,
}

impl<S> Subscribers<S> {
    /// The pending reply waiters, in registration order.
    pub closed spec fn replies(self) -> Seq<(Tag, S)> {
        self.reply_waiters@
    }

    /// All event listeners, in subscription order.
    pub closed spec fn listeners(self) -> Seq<Listener<S>> {
        self.event_listeners@
    }

    /// The id the next event subscription receives.
    pub closed spec fn next_id(self) -> u64 {
        self.id_generator.counter
    }

    /// The listeners subscribed to `code`, in subscription order.
    pub open spec fn listeners_for(self, code: EventCode) -> Seq<Listener<S>> {
        self.listeners().filter(code_pred(code))
    }

    /// Whether some waiter waits for the reply tagged `tag`.
    pub open spec fn has_reply(self, tag: Tag) -> bool {
        exists|k: int|
            0 <= k < self.replies().len() && (#[trigger] self.replies()[k]).0 == tag
    }

    /// The position of the waiter for `tag`; meaningful when `has_reply`.
    pub open spec fn reply_index(self, tag: Tag) -> int {
        choose|k: int| 0 <= k < self.replies().len() && (#[trigger] self.replies()[k]).0 == tag
    }

    /// The sink of the waiter for `tag`; meaningful when `has_reply`.
    pub open spec fn reply_sink(self, tag: Tag) -> S {
        self.replies()[self.reply_index(tag)].1
    }

    /// Whether a listener with id `id` is subscribed to `code`.
    pub open spec fn has_listener(self, code: EventCode, id: SubscriberId) -> bool {
        exists|k: int|
            0 <= k < self.listeners().len() && (#[trigger] self.listeners()[k]).0 == code
                && self.listeners()[k].1 == id
    }

    /// The position of that listener; meaningful when `has_listener`.
    pub open spec fn listener_index(self, code: EventCode, id: SubscriberId) -> int {
        choose|k: int|
            0 <= k < self.listeners().len() && (#[trigger] self.listeners()[k]).0 == code
                && self.listeners()[k].1 == id
    }

    /// The registry's invariant: waiter tags are pairwise distinct,
    /// listener ids are pairwise distinct, and every issued id is below the
    /// generator's counter, so fresh ids never collide.
    pub open spec fn wf(self) -> bool {
        &&& forall|i: int, j: int|
            0 <= i < j < self.replies().len() ==> (#[trigger] self.replies()[i]).0 != (
            #[trigger] self.replies()[j]).0
        &&& forall|i: int, j: int|
            0 <= i < j < self.listeners().len() ==> (#[trigger] self.listeners()[i]).1 != (
            #[trigger] self.listeners()[j]).1
        &&& forall|i: int|
            0 <= i < self.listeners().len() ==> (#[trigger] self.listeners()[i]).1.0
                < self.next_id()
    }

    /// The id the next event subscription will receive.
    pub fn next_subscriber_id(&self) -> (r: u64)
        ensures
            r == self.next_id(),
    {
        self.id_generator.counter
    }

    /// An empty registry.
    pub fn new() -> (r: Self)
        ensures
            r.wf(),
            r.replies() == Seq::<(Tag, S)>::empty(),
            r.listeners() == Seq::<Listener<S>>::empty(),
            r.next_id() == 0,
    {
        Subscribers {
            reply_waiters: Vec::new(),
            event_listeners: Vec::new(),
            id_generator: SubscriberIdGenerator::new(),
        }
    }

    /// Register `sink` to receive the reply tagged `tag`. Fails, changing
    /// nothing, exactly when a waiter for `tag` is already registered.
    pub fn subscribe_to_reply(&mut self, tag: Tag, sink: S) -> (r: Result<(), Error>)
        requires
            old(self).wf(),
        ensures
            final(self).wf(),
            final(self).listeners() == old(self).listeners(),
            final(self).next_id() == old(self).next_id(),
            match r {
                Ok(()) => !old(self).has_reply(tag) && final(self).replies() == old(self).replies().push((tag, sink)),
                Err(e) => e == Error::DuplicateTag && old(self).has_reply(tag) && final(self).replies() == old(self).replies(),
            },
    {
        let mut i: usize = 0;
        while i < self.reply_waiters.len()
            invariant
                old(self).wf(),
                *self == *old(self),
                i <= old(self).replies().len(),
                forall|k: int| 0 <= k < i ==> (#[trigger] old(self).replies()[k]).0 != tag,
            decreases old(self).replies().len() - i,
        {
            if self.reply_waiters[i].0 == tag {
                proof {
                    assert(old(self).replies()[i as int].0 == tag);
                }
                return Err(Error::DuplicateTag);
            }
            proof {
                assert(old(self).replies()[i as int].0 != tag);
            }
            i = i + 1;
        }
        self.reply_waiters.push((tag, sink));
        proof {
            assert(self.replies() =~= old(self).replies().push((tag, sink)));
            assert(self.listeners() =~= old(self).listeners());
            assert forall|a: int, b: int| 0 <= a < b < self.replies().len() implies (
            #[trigger] self.replies()[a]).0 != (#[trigger] self.replies()[b]).0 by {
                if b == self.replies().len() - 1 {
                    assert(old(self).replies()[a].0 != tag);
                } else {
                    assert(old(self).replies()[a].0 != old(self).replies()[b].0);
                }
            }
        }
        Ok(())
    }

    /// Remove and return the waiter for `tag`, if one is registered; every
    /// other waiter stays, in order.
    pub fn take_reply_subscriber_with_tag(&mut self, tag: Tag) -> (r: Option<S>)
        requires
            old(self).wf(),
        ensures
            final(self).wf(),
            final(self).listeners() == old(self).listeners(),
            final(self).next_id() == old(self).next_id(),
            match r {
                Some(sink) => old(self).has_reply(tag) && sink == old(self).reply_sink(tag)
                    && final(self).replies() == old(self).replies().remove(old(self).reply_index(tag)),
                None => !old(self).has_reply(tag) && final(self).replies() == old(self).replies(),
            },
    {
        let mut i: usize = 0;
        while i < self.reply_waiters.len()
            invariant
                old(self).wf(),
                *self == *old(self),
                i <= old(self).replies().len(),
                forall|k: int| 0 <= k < i ==> (#[trigger] old(self).replies()[k]).0 != tag,
            decreases old(self).replies().len() - i,
        {
            if self.reply_waiters[i].0 == tag {
                proof {
                    assert(old(self).replies()[i as int].0 == tag);
                    assert(old(self).has_reply(tag));
                    let j = old(self).reply_index(tag);
                    assert(0 <= j < old(self).replies().len() && old(self).replies()[j].0 == tag);
                    assert(j == i);
                }
                let (_, sink) = self.reply_waiters.remove(i);
                proof {
                    old(self).replies().remove_ensures(i as int);
                    assert(self.replies() =~= old(self).replies().remove(i as int));
                    assert(self.listeners() =~= old(self).listeners());
                    assert forall|a: int, b: int| 0 <= a < b < self.replies().len() implies (
                    #[trigger] self.replies()[a]).0 != (#[trigger] self.replies()[b]).0 by {
                        let aa = if a < i { a } else { a + 1 };
                        let bb = if b < i { b } else { b + 1 };
                        assert(self.replies()[a] == old(self).replies()[aa]);
                        assert(self.replies()[b] == old(self).replies()[bb]);
                        assert(old(self).replies()[aa].0 != old(self).replies()[bb].0);
                    }
                }
                return Some(sink);
            }
            proof {
                assert(old(self).replies()[i as int].0 != tag);
            }
            i = i + 1;
        }
        None
    }

    /// Remove the waiter for `tag` without delivering anything: the issuer
    /// has cancelled. Succeeds exactly when the waiter was present.
    pub fn unsubscribe_from_reply(&mut self, tag: Tag) -> (r: Result<(), Error>)
        requires
            old(self).wf(),
        ensures
            final(self).wf(),
            final(self).listeners() == old(self).listeners(),
            final(self).next_id() == old(self).next_id(),
            match r {
                Ok(()) => old(self).has_reply(tag) && final(self).replies() == old(self).replies().remove(old(self).reply_index(tag)),
                Err(e) => e == Error::NotFound && !old(self).has_reply(tag) && final(self).replies() == old(self).replies(),
            },
    {
        match self.take_reply_subscriber_with_tag(tag) {
            Some(_) => Ok(()),
            None => Err(Error::NotFound),
        }
    }

    /// Append `sink` as a listener of `code` and hand it a fresh id.
    pub fn subscribe_to_event(&mut self, event: EventCode, subscriber: S) -> (r: Result<
        SubscriberId,
        Error,
    >)
        requires
            old(self).wf(),
            old(self).next_id() < u64::MAX,
        ensures
            final(self).wf(),
            final(self).replies() == old(self).replies(),
            final(self).next_id() == old(self).next_id() + 1,
            match r {
                Ok(id) => id.0 == old(self).next_id() && final(self).listeners() == old(self).listeners().push((event, id, subscriber)),
                Err(_) => false,
            },
    {
        let id = self.id_generator.generate();
        self.event_listeners.push((event, id, subscriber));
        proof {
            assert(self.listeners() =~= old(self).listeners().push((event, id, subscriber)));
            assert(self.replies() =~= old(self).replies());
            assert forall|a: int, b: int| 0 <= a < b < self.listeners().len() implies (
            #[trigger] self.listeners()[a]).1 != (#[trigger] self.listeners()[b]).1 by {
                if b == self.listeners().len() - 1 {
                    assert(old(self).listeners()[a].1.0 < old(self).next_id());
                } else {
                    assert(old(self).listeners()[a].1 != old(self).listeners()[b].1);
                }
            }
            assert forall|a: int| 0 <= a < self.listeners().len() implies (
            #[trigger] self.listeners()[a]).1.0 < self.next_id() by {
                if a < self.listeners().len() - 1 {
                    assert(old(self).listeners()[a].1.0 < old(self).next_id());
                }
            }
        }
        Ok(id)
    }

    /// Remove the listener of `code` with id `id`. Succeeds exactly when it
    /// is subscribed; the other listeners stay, in order.
    pub fn unsubscribe_from_event(&mut self, event: EventCode, subscriber_id: SubscriberId) -> (r:
        Result<(), Error>)
        requires
            old(self).wf(),
        ensures
            final(self).wf(),
            final(self).replies() == old(self).replies(),
            final(self).next_id() == old(self).next_id(),
            match r {
                Ok(()) => old(self).has_listener(event, subscriber_id) && final(self).listeners()
                    == old(self).listeners().remove(old(self).listener_index(event, subscriber_id)),
                Err(e) => e == Error::NotFound && !old(self).has_listener(event, subscriber_id)
                    && final(self).listeners() == old(self).listeners(),
            },
    {
        let mut i: usize = 0;
        while i < self.event_listeners.len()
            invariant
                old(self).wf(),
                *self == *old(self),
                i <= old(self).listeners().len(),
                forall|k: int|
                    0 <= k < i ==> !((#[trigger] old(self).listeners()[k]).0 == event && old(
                        self,
                    ).listeners()[k].1 == subscriber_id),
            decreases old(self).listeners().len() - i,
        {
            let hit = self.event_listeners[i].0 == event && self.event_listeners[i].1
                == subscriber_id;
            if hit {
                proof {
                    assert(old(self).listeners()[i as int].0 == event && old(
                        self,
                    ).listeners()[i as int].1 == subscriber_id);
                    assert(old(self).has_listener(event, subscriber_id));
                    let j = old(self).listener_index(event, subscriber_id);
                    assert(0 <= j < old(self).listeners().len() && old(self).listeners()[j].0
                        == event && old(self).listeners()[j].1 == subscriber_id);
                    assert(j == i);
                }
                let _ = self.event_listeners.remove(i);
                proof {
                    old(self).listeners().remove_ensures(i as int);
                    assert(self.listeners() =~= old(self).listeners().remove(i as int));
                    assert(self.replies() =~= old(self).replies());
                    assert forall|a: int, b: int| 0 <= a < b < self.listeners().len() implies (
                    #[trigger] self.listeners()[a]).1 != (#[trigger] self.listeners()[b]).1 by {
                        let aa = if a < i { a } else { a + 1 };
                        let bb = if b < i { b } else { b + 1 };
                        assert(self.listeners()[a] == old(self).listeners()[aa]);
                        assert(self.listeners()[b] == old(self).listeners()[bb]);
                        assert(old(self).listeners()[aa].1 != old(self).listeners()[bb].1);
                    }
                    assert forall|a: int| 0 <= a < self.listeners().len() implies (
                    #[trigger] self.listeners()[a]).1.0 < self.next_id() by {
                        let aa = if a < i { a } else { a + 1 };
                        assert(self.listeners()[a] == old(self).listeners()[aa]);
                    }
                }
                return Ok(());
            }
            proof {
                assert(!((old(self).listeners()[i as int]).0 == event && old(
                    self,
                ).listeners()[i as int].1 == subscriber_id));
            }
            i = i + 1;
        }
        Err(Error::NotFound)
    }

    /// How many listeners are subscribed to `code`.
    pub fn event_listener_count(&self, event: EventCode) -> (r: usize)
        ensures
            r == self.listeners_for(event).len(),
    {
        let mut count: usize = 0;
        let mut i: usize = 0;
        while i < self.event_listeners.len()
            invariant
                i <= self.event_listeners@.len(),
                count == self.listeners().take(i as int).filter(
                    code_pred::<S>(event),
                ).len(),
                count <= i,
            decreases self.event_listeners@.len() - i,
        {
            proof {
                assert(self.listeners().take(i + 1) =~= self.listeners().take(i as int).push(
                    self.listeners()[i as int],
                ));
            }
            if self.event_listeners[i].0 == event {
                count = count + 1;
            }
            i = i + 1;
        }
        proof {
            assert(self.listeners().take(self.listeners().len() as int) =~= self.listeners());
        }
        count
    }
}

/// Reply correlation: when waiters wait under two different tags and the
/// reply for the second arrives first, taking the second waiter leaves the
/// first registered, with its sink untouched — each awaiter receives
/// exactly its own reply, in whatever order replies arrive.
pub proof fn lemma_reply_correlation<S>(
    pre: Subscribers<S>,
    post: Subscribers<S>,
    t1: Tag,
    t2: Tag,
)
    requires
        pre.wf(),
        t1 != t2,
        pre.has_reply(t1),
        pre.has_reply(t2),
        post.replies() == pre.replies().remove(pre.reply_index(t2)),
    ensures
        post.has_reply(t1),
        post.reply_sink(t1) == pre.reply_sink(t1),
{
    let i1 = pre.reply_index(t1);
    let i2 = pre.reply_index(t2);
    assert(0 <= i1 < pre.replies().len() && pre.replies()[i1].0 == t1);
    assert(0 <= i2 < pre.replies().len() && pre.replies()[i2].0 == t2);
    pre.replies().remove_ensures(i2);
    let j = if i1 < i2 {
        i1
    } else {
        i1 - 1
    };
    assert(post.replies()[j] == pre.replies()[i1]);
    assert(post.has_reply(t1));
    let k = post.reply_index(t1);
    assert(0 <= k < post.replies().len() && post.replies()[k].0 == t1);
    let kk = if k < i2 {
        k
    } else {
        k + 1
    };
    assert(post.replies()[k] == pre.replies()[kk]);
    assert(kk == i1);
    assert(k == j);
}

/// Event fan-out order: a new subscription appends the listener to exactly
/// the list of its own code, so every earlier listener of that code stays
/// before it, and the list of every other code is untouched. A dispatch
/// snapshot taken before the subscription is a plain value, so the listener
/// added afterwards sees nothing of the frame being dispatched.
pub proof fn lemma_fan_out_order<S>(
    pre: Subscribers<S>,
    post: Subscribers<S>,
    entry: Listener<S>,
    other: EventCode,
)
    requires
        post.listeners() == pre.listeners().push(entry),
    ensures
        post.listeners_for(entry.0) == pre.listeners_for(entry.0).push(entry),
        other != entry.0 ==> post.listeners_for(other) == pre.listeners_for(other),
{
    assert(code_pred::<S>(entry.0)(entry));
    assert(!code_pred::<S>(other)(entry) || other == entry.0);
}

impl<S: Clone> Subscribers<S> {
    /// A snapshot of the listeners of `code`: their ids in subscription
    /// order, each beside a clone of its own sink — every subscribed sink
    /// appears exactly once, at its position. Dispatch walks the snapshot
    /// so that user code called through a sink can re-enter the registry.
    pub fn get_event_subscribers_with_tag(&self, event: EventCode) -> (r: Vec<(SubscriberId, S)>)
        ensures
            r@.len() == self.listeners_for(event).len(),
            forall|k: int|
                0 <= k < r@.len() ==> (#[trigger] r@[k]).0 == self.listeners_for(event)[k].1,
            forall|k: int|
                0 <= k < r@.len() ==> vstd::pervasive::cloned::<S>(
                    self.listeners_for(event)[k].2,
                    (#[trigger] r@[k]).1,
                ),
    {
        let ghost pred = code_pred::<S>(event);
        let mut out: Vec<(SubscriberId, S)> = Vec::new();
        let mut i: usize = 0;
        while i < self.event_listeners.len()
            invariant
                pred == code_pred::<S>(event),
                i <= self.event_listeners@.len(),
                out@.len() == self.listeners().take(i as int).filter(pred).len(),
                forall|k: int|
                    0 <= k < out@.len() ==> (#[trigger] out@[k]).0 == self.listeners().take(
                        i as int,
                    ).filter(pred)[k].1,
                forall|k: int|
                    0 <= k < out@.len() ==> vstd::pervasive::cloned::<S>(
                        self.listeners().take(i as int).filter(pred)[k].2,
                        (#[trigger] out@[k]).1,
                    ),
            decreases self.event_listeners@.len() - i,
        {
            proof {
                assert(self.listeners().take(i + 1) =~= self.listeners().take(i as int).push(
                    self.listeners()[i as int],
                ));
            }
            let entry = &self.event_listeners[i];
            if entry.0 == event {
                out.push((entry.1, entry.2.clone()));
            }
            i = i + 1;
        }
        proof {
            assert(self.listeners().take(self.listeners().len() as int) =~= self.listeners());
        }
        out
    }
}

} // verus!
