//! The client-side heart of the transport: tag allocation, command packet
//! preparation, and the routing of inbound frames to reply waiters and
//! event listeners.
//!
//! The asynchronous shell owns the socket halves and the queues; it calls
//! in here for every decision. `prepare_command` allocates the tag,
//! registers the waiter and builds the frame to enqueue; `handle_inbound`
//! says, for each decoded frame, who gets its payload.

use vstd::prelude::*;

use crate::error::Error;
use crate::proto::{CommandCode, EventCode, Packet, PacketModel, Tag};
use crate::registry::{SubscriberId, Subscribers};

verus! {

/// A typed request: it knows the command code to attach to its packets.
pub trait Command {
    /// The code, for use in contracts.
    spec fn spec_code(&self) -> CommandCode;

    /// The command code attached to every packet carrying this command.
    fn code(&self) -> (r: CommandCode)
        ensures
            r == self.spec_code(),
    ;
}

/// A typed answer to a `Command`; its payload layout is the shell's
/// business.
pub trait Reply {

}

/// A typed broadcast: it knows the event code it is published under.
pub trait Event {
    /// The code, for use in contracts.
    spec fn spec_code(&self) -> EventCode;

    /// The event code this event is published under.
    fn code(&self) -> (r: EventCode)
        ensures
            r == self.spec_code(),
    ;
}

/// Allocates correlation tags: strictly increasing, gap-free, never
/// reused within a process.
pub struct TagGenerator {
    /// The tag the next call hands out.
    pub counter: u64,
}

impl TagGenerator {
    /// A generator whose first tag is zero.
    pub fn new() -> (r: Self)
        ensures
            r.counter == 0,
    {
        TagGenerator { counter: 0 }
    }

    /// Hand out the next tag.
    pub fn generate(&mut self) -> (r: Tag)
        requires
            old(self).counter < u64::MAX,
        ensures
            r.0 == old(self).counter,
            final(self).counter == old(self).counter + 1,
    {
        let tag = Tag::new(self.counter);
        self.counter = self.counter + 1;
        tag
    }
}

/// The tags a generator starting at `k0` hands out over `n` calls, in
/// order: each call appends the counter's value and increments it.
pub open spec fn tags_from(k0: int, n: nat) -> Seq<int>
    decreases n,
{
    if n == 0 {
        Seq::empty()
    } else {
        tags_from(k0, (n - 1) as nat).push(k0 + n - 1)
    }
}

/// Tag allocation over any run of `n` calls from counter `k0`: the i-th
/// call hands out `k0 + i`, so the tags are exactly the gap-free range
/// starting at `k0` and uniqueness is absolute.
pub proof fn lemma_tag_allocation(k0: int, n: nat)
    ensures
        tags_from(k0, n).len() == n,
        forall|i: int| 0 <= i < n ==> tags_from(k0, n)[i] == k0 + i,
        forall|i: int, j: int| 0 <= i < j < n ==> tags_from(k0, n)[i] != tags_from(k0, n)[j],
        forall|t: int| tags_from(k0, n).contains(t) <==> k0 <= t < k0 + n,
    decreases n,
{
    if n > 0 {
        lemma_tag_allocation(k0, (n - 1) as nat);
        let prev = tags_from(k0, (n - 1) as nat);
        let cur = tags_from(k0, n);
        assert forall|t: int| cur.contains(t) implies k0 <= t < k0 + n by {
            let w = choose|w: int| 0 <= w < cur.len() && cur[w] == t;
            assert(cur[w] == k0 + w);
        }
        assert forall|t: int| k0 <= t < k0 + n implies cur.contains(t) by {
            assert(cur[t - k0] == t);
        }
    }
}

/// What the receiver must do with one inbound frame.
pub enum InboundAction<S> {
    /// A reply for a live waiter: hand the payload to this sink.
    Deliver(S, Vec<u8>),
    /// A reply nobody waits for: its issuer has cancelled; drop it.
    Discard,
    /// An event: hand the payload to each of these listeners, in order.
    Broadcast(Vec<(SubscriberId, S)>, Vec<u8>),
}

/// The per-connection client state the shell shares between its halves:
/// the tag generator and the subscriber registry.
pub struct ClientCore<S> {
    /// Allocates the tag of each outbound command.
    pub tag_generator: TagGenerator,
    /// The reply waiters and event listeners.
    pub subscribers: Subscribers<S>,
}

impl<S> ClientCore<S> {
    /// The client's invariant: the registry is well-formed and every
    /// waiting tag was issued by the generator, so the next tag is free.
    pub open spec fn wf(self) -> bool {
        &&& self.subscribers.wf()
        &&& forall|k: int|
            0 <= k < self.subscribers.replies().len() ==> (
            #[trigger] self.subscribers.replies()[k]).0.0 < self.tag_generator.counter
    }

    /// A fresh client with no waiters, no listeners, and tag zero next.
    pub fn new() -> (r: Self)
        ensures
            r.wf(),
            r.tag_generator.counter == 0,
            r.subscribers.replies() == Seq::<(Tag, S)>::empty(),
            r.subscribers.listeners().len() == 0,
            r.subscribers.next_id() == 0,
    {
        ClientCore { tag_generator: TagGenerator::new(), subscribers: Subscribers::new() }
    }

    /// Allocate a fresh tag, register `sink` to receive the reply, and
    /// build the command frame for the transmitter to write. The fresh tag
    /// can never collide with a waiting one, so this always succeeds.
    pub fn prepare_command(&mut self, code: CommandCode, value: Vec<u8>, sink: S) -> (r: (
        Packet,
        Tag,
    ))
        requires
            old(self).wf(),
            old(self).tag_generator.counter < u64::MAX,
        ensures
            final(self).wf(),
            final(self).tag_generator.counter == old(self).tag_generator.counter + 1,
            r.1.0 == old(self).tag_generator.counter,
            r.0@ == PacketModel::Command(code.0, r.1.0, value@),
            final(self).subscribers.replies() == old(self).subscribers.replies().push(
                (r.1, sink),
            ),
            final(self).subscribers.listeners() == old(self).subscribers.listeners(),
            final(self).subscribers.next_id() == old(self).subscribers.next_id(),
    {
        let tag = self.tag_generator.generate();
        let ghost pre = self.subscribers;
        proof {
            assert forall|k: int|
                0 <= k < pre.replies().len() implies (#[trigger] pre.replies()[k]).0
                != tag by {}
        }
        let subscribed = self.subscribers.subscribe_to_reply(tag, sink);
        proof {
            assert(subscribed is Ok);
        }
        let payload_copy = value;
        let packet = Packet::Command(code, tag, payload_copy);
        (packet, tag)
    }
}

impl<S: Clone> ClientCore<S> {

    /// Decide what one decoded inbound frame means, as the receiver loop
    /// does for each frame it reads:
    ///
    /// - a reply goes to its waiter, which is removed first — a reply
    ///   whose waiter is gone (the issuer cancelled) is dropped silently;
    /// - an event goes to a snapshot of its code's listeners, in
    ///   subscription order, each paired with a clone of its own sink;
    /// - a command is a protocol violation on the client side and aborts
    ///   the connection.
    pub fn handle_inbound(&mut self, packet: Packet) -> (r: Result<InboundAction<S>, Error>)
        requires
            old(self).wf(),
        ensures
            final(self).wf(),
            final(self).tag_generator == old(self).tag_generator,
            final(self).subscribers.listeners() == old(self).subscribers.listeners(),
            final(self).subscribers.next_id() == old(self).subscribers.next_id(),
            match packet@ {
                PacketModel::Command(_, _, _) => r == Err::<InboundAction<S>, Error>(
                    Error::ProtocolError,
                ) && final(self).subscribers.replies() == old(self).subscribers.replies(),
                PacketModel::Reply(t, v) => if old(self).subscribers.has_reply(Tag(t)) {
                    r matches Ok(InboundAction::Deliver(sink, payload)) && sink == old(self).subscribers.reply_sink(Tag(t)) && payload@ == v && final(self).subscribers.replies() == old(self).subscribers.replies().remove(
                        old(self).subscribers.reply_index(Tag(t)),
                    )
                } else {
                    r matches Ok(InboundAction::Discard) && final(self).subscribers.replies()
                        == old(self).subscribers.replies()
                },
                PacketModel::Event(c, v) => r matches Ok(InboundAction::Broadcast(snap, payload))
                    && payload@ == v && snap@.len() == old(self).subscribers.listeners_for(
                    EventCode(c),
                ).len() && (forall|k: int|
                    0 <= k < snap@.len() ==> (#[trigger] snap@[k]).0 == old(self).subscribers.listeners_for(EventCode(c))[k].1) && (forall|k: int|
                    0 <= k < snap@.len() ==> vstd::pervasive::cloned::<S>(
                        old(self).subscribers.listeners_for(EventCode(c))[k].2,
                        (#[trigger] snap@[k]).1,
                    )) && final(self).subscribers.replies() == old(self).subscribers.replies(),
            },
    {
        match packet {
            Packet::Reply(tag, value) => {
                match self.subscribers.take_reply_subscriber_with_tag(tag) {
                    Some(sink) => {
                        proof {
                            let i = old(self).subscribers.reply_index(tag);
                            old(self).subscribers.replies().remove_ensures(i);
                            assert forall|k: int|
                                0 <= k < self.subscribers.replies().len() implies (
                            #[trigger] self.subscribers.replies()[k]).0.0 < self.tag_generator.counter by {
                                let kk = if k < i {
                                    k
                                } else {
                                    k + 1
                                };
                                assert(self.subscribers.replies()[k] == old(self).subscribers.replies()[kk]);
                            }
                        }
                        Ok(InboundAction::Deliver(sink, value))
                    }
                    None => Ok(InboundAction::Discard),
                }
            }
            Packet::Event(code, value) => {
                let snapshot = self.subscribers.get_event_subscribers_with_tag(code);
                Ok(InboundAction::Broadcast(snapshot, value))
            }
            Packet::Command(_, _, _) => Err(Error::ProtocolError),
        }
    }
}

} // verus!
