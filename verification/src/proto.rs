//! The packet vocabulary of the servo protocol: correlation tags, command
//! and event codes, and the three packet variants that travel on the wire.

use vstd::prelude::*;

verus! {

/// A 32-bit identifier naming a broadcast event.
#[derive(Clone, Copy, Debug, PartialEq, Eq, Structural)]
pub struct EventCode(pub u32);

impl EventCode {
    /// Wrap a raw 32-bit code.
    pub fn new(inner: u32) -> (r: Self)
        ensures
            r.0 == inner,
    {
        EventCode(inner)
    }

    /// The raw 32-bit code.
    pub fn inner(&self) -> (r: u32)
        ensures
            r == self.0,
    {
        self.0
    }

}

/// A 32-bit identifier naming a command operation.
#[derive(Clone, Copy, Debug, PartialEq, Eq, Structural)]
pub struct CommandCode(pub u32);

impl CommandCode {
    /// Wrap a raw 32-bit code.
    pub fn new(inner: u32) -> (r: Self)
        ensures
            r.0 == inner,
    {
        CommandCode(inner)
    }

    /// The raw 32-bit code.
    pub fn inner(&self) -> (r: u32)
        ensures
            r == self.0,
    {
        self.0
    }

}

/// A 64-bit correlation tag attached to every outbound command so that its
/// reply can be matched; allocation is strictly monotonic per process.
#[derive(Clone, Copy, Debug, PartialEq, Eq, Structural)]
pub struct Tag(pub u64);

impl Tag {
    /// Wrap a raw 64-bit tag.
    pub fn new(inner: u64) -> (r: Self)
        ensures
            r.0 == inner,
    {
        Tag(inner)
    }

    /// The raw 64-bit tag.
    pub fn inner(&self) -> (r: u64)
        ensures
            r == self.0,
    {
        self.0
    }

}

/// One frame of the wire protocol. Payloads are opaque bytes; by convention
/// they carry a MessagePack-serialized value, but the transport never looks
/// inside them.
#[derive(Debug, PartialEq, Eq)]
pub enum Packet {
    /// A broadcast event from the servo controller.
    Event(EventCode, Vec<u8>),
    /// A tagged request; the client only ever sends these.
    Command(CommandCode, Tag, Vec<u8>),
    /// The tagged answer to a command.
    Reply(Tag, Vec<u8>),
}

/// The mathematical shape of a packet: the same three variants, with the
/// payload as a byte sequence. Contracts speak of this model.
pub enum PacketModel {
    /// A broadcast event: code and payload bytes.
    Event(u32, Seq<u8>),
    /// A tagged request: code, tag and payload bytes.
    Command(u32, u64, Seq<u8>),
    /// A tagged answer: tag and payload bytes.
    Reply(u64, Seq<u8>),
}

impl PacketModel {
    /// The payload bytes of the packet.
    pub open spec fn payload(self) -> Seq<u8> {
        match self {
            PacketModel::Event(_, payload) => payload,
            PacketModel::Command(_, _, payload) => payload,
            PacketModel::Reply(_, payload) => payload,
        }
    }
}

impl View for Packet {
    type V = PacketModel;

    open spec fn view(&self) -> PacketModel {
        match self {
            Packet::Event(code, payload) => PacketModel::Event(code.0, payload@),
            Packet::Command(code, tag, payload) => PacketModel::Command(code.0, tag.0, payload@),
            Packet::Reply(tag, payload) => PacketModel::Reply(tag.0, payload@),
        }
    }
}

/// Wire identifier of an event frame.
pub const EVENT_IDENTIFIER: u8 = 0x00;

/// Wire identifier of a command frame.
pub const COMMAND_IDENTIFIER: u8 = 0x01;

/// Wire identifier of a reply frame.
pub const REPLY_IDENTIFIER: u8 = 0x02;

} // verus!
