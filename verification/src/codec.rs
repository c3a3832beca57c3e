//! The wire codec: each packet is framed as an identifier byte followed by
//! its fields, all multi-byte integers big-endian, the payload prefixed by
//! its 32-bit length.
//!
//! ```text
//! Event   : 0x00 | code:u32 | len:u32 | payload[len]
//! Command : 0x01 | code:u32 | tag:u64 | len:u32 | payload[len]
//! Reply   : 0x02 |            tag:u64 | len:u32 | payload[len]
//! ```
//!
//! Encoding and decoding are pure functions on bytes; the socket shell only
//! moves the bytes. Decoding reads exactly one frame from the front of the
//! buffer and reports how many bytes it consumed.

use vstd::prelude::*;

use crate::proto::{CommandCode, EventCode, Packet, PacketModel, Tag};
use crate::proto::{COMMAND_IDENTIFIER, EVENT_IDENTIFIER, REPLY_IDENTIFIER};

verus! {

/// Why a buffer does not decode to a packet.
#[derive(Clone, Copy, Debug, PartialEq, Eq, Structural)]
pub enum DecodeError {
    /// The buffer holds a prefix of a frame; more bytes are needed.
    Incomplete,
    /// The first byte is not one of the three packet identifiers; the
    /// connection is broken beyond recovery.
    UnknownIdentifier(u8),
}

/// The value of four big-endian bytes.
pub open spec fn be32(b0: u8, b1: u8, b2: u8, b3: u8) -> u32 {
    ((b0 as u32) << 24) | ((b1 as u32) << 16) | ((b2 as u32) << 8) | (b3 as u32)
}

/// The value of eight big-endian bytes.
pub open spec fn be64(b0: u8, b1: u8, b2: u8, b3: u8, b4: u8, b5: u8, b6: u8, b7: u8) -> u64 {
    ((b0 as u64) << 56) | ((b1 as u64) << 48) | ((b2 as u64) << 40) | ((b3 as u64) << 32)
        | ((b4 as u64) << 24) | ((b5 as u64) << 16) | ((b6 as u64) << 8) | (b7 as u64)
}

/// The big-endian bytes of a 32-bit value.
pub open spec fn spec_u32_bytes(x: u32) -> Seq<u8> {
    seq![(x >> 24) as u8, (x >> 16) as u8, (x >> 8) as u8, x as u8]
}

/// The big-endian bytes of a 64-bit value.
pub open spec fn spec_u64_bytes(x: u64) -> Seq<u8> {
    seq![
        (x >> 56) as u8,
        (x >> 48) as u8,
        (x >> 40) as u8,
        (x >> 32) as u8,
        (x >> 24) as u8,
        (x >> 16) as u8,
        (x >> 8) as u8,
        x as u8,
    ]
}

/// The four big-endian bytes of `b` starting at `i`, as a 32-bit value.
pub open spec fn spec_be32_at(b: Seq<u8>, i: int) -> u32 {
    be32(b[i], b[i + 1], b[i + 2], b[i + 3])
}

/// The eight big-endian bytes of `b` starting at `i`, as a 64-bit value.
pub open spec fn spec_be64_at(b: Seq<u8>, i: int) -> u64 {
    be64(b[i], b[i + 1], b[i + 2], b[i + 3], b[i + 4], b[i + 5], b[i + 6], b[i + 7])
}

/// The exact bytes of one frame.
pub open spec fn spec_encode(p: PacketModel) -> Seq<u8> {
    match p {
        PacketModel::Event(code, payload) => seq![EVENT_IDENTIFIER] + spec_u32_bytes(code)
            + spec_u32_bytes(payload.len() as u32) + payload,
        PacketModel::Command(code, tag, payload) => seq![COMMAND_IDENTIFIER]
            + spec_u32_bytes(code) + spec_u64_bytes(tag) + spec_u32_bytes(payload.len() as u32)
            + payload,
        PacketModel::Reply(tag, payload) => seq![REPLY_IDENTIFIER] + spec_u64_bytes(tag)
            + spec_u32_bytes(payload.len() as u32) + payload,
    }
}

/// What the front of a byte buffer holds.
pub enum SpecDecoded {
    /// One whole frame: the packet and how many bytes it occupies.
    Decoded(PacketModel, int),
    /// A proper prefix of a frame.
    Incomplete,
    /// A first byte that names no packet variant.
    Unknown(u8),
}

/// Reading one frame from the front of `b`: the total function the decoder
/// is proved against.
pub open spec fn spec_decode(b: Seq<u8>) -> SpecDecoded {
    if b.len() < 1 {
        SpecDecoded::Incomplete
    } else if b[0] == EVENT_IDENTIFIER {
        if b.len() < 9 {
            SpecDecoded::Incomplete
        } else {
            let len = spec_be32_at(b, 5) as int;
            if b.len() < 9 + len {
                SpecDecoded::Incomplete
            } else {
                SpecDecoded::Decoded(
                    PacketModel::Event(spec_be32_at(b, 1), b.subrange(9, 9 + len)),
                    9 + len,
                )
            }
        }
    } else if b[0] == COMMAND_IDENTIFIER {
        if b.len() < 17 {
            SpecDecoded::Incomplete
        } else {
            let len = spec_be32_at(b, 13) as int;
            if b.len() < 17 + len {
                SpecDecoded::Incomplete
            } else {
                SpecDecoded::Decoded(
                    PacketModel::Command(
                        spec_be32_at(b, 1),
                        spec_be64_at(b, 5),
                        b.subrange(17, 17 + len),
                    ),
                    17 + len,
                )
            }
        }
    } else if b[0] == REPLY_IDENTIFIER {
        if b.len() < 13 {
            SpecDecoded::Incomplete
        } else {
            let len = spec_be32_at(b, 9) as int;
            if b.len() < 13 + len {
                SpecDecoded::Incomplete
            } else {
                SpecDecoded::Decoded(
                    PacketModel::Reply(spec_be64_at(b, 1), b.subrange(13, 13 + len)),
                    13 + len,
                )
            }
        }
    } else {
        SpecDecoded::Unknown(b[0])
    }
}

/// Splitting a 32-bit value into big-endian bytes and reassembling them
/// gives the value back.
pub proof fn lemma_be32_split(x: u32)
    by (bit_vector)
    ensures
        be32((x >> 24) as u8, (x >> 16) as u8, (x >> 8) as u8, x as u8) == x,
{
}

/// Splitting a 64-bit value into big-endian bytes and reassembling them
/// gives the value back.
pub proof fn lemma_be64_split(x: u64)
    by (bit_vector)
    ensures
        be64(
            (x >> 56) as u8,
            (x >> 48) as u8,
            (x >> 40) as u8,
            (x >> 32) as u8,
            (x >> 24) as u8,
            (x >> 16) as u8,
            (x >> 8) as u8,
            x as u8,
        ) == x,
{
}

/// Decoding an encoded frame gives the packet back, consuming exactly the
/// frame: the codec round-trip law, for every packet whose payload fits the
/// 32-bit length field.
pub proof fn lemma_codec_round_trip(p: PacketModel)
    requires
        p.payload().len() <= u32::MAX,
    ensures
        spec_decode(spec_encode(p)) == SpecDecoded::Decoded(p, spec_encode(p).len() as int),
{
    let e = spec_encode(p);
    match p {
        PacketModel::Event(code, payload) => {
            let lf = payload.len() as u32;
            lemma_be32_split(code);
            lemma_be32_split(lf);
            assert(e[0] == EVENT_IDENTIFIER);
            assert(spec_be32_at(e, 1) == code);
            assert(spec_be32_at(e, 5) == lf);
            assert(lf as int == payload.len());
            assert(e.subrange(9, 9 + payload.len() as int) =~= payload);
            assert(spec_decode(e) =~~= SpecDecoded::Decoded(p, e.len() as int));
        }
        PacketModel::Command(code, tag, payload) => {
            let lf = payload.len() as u32;
            lemma_be32_split(code);
            lemma_be64_split(tag);
            lemma_be32_split(lf);
            assert(e[0] == COMMAND_IDENTIFIER);
            assert(spec_be32_at(e, 1) == code);
            assert(e[5] == (tag >> 56) as u8);
            assert(e[6] == (tag >> 48) as u8);
            assert(e[7] == (tag >> 40) as u8);
            assert(e[8] == (tag >> 32) as u8);
            assert(e[9] == (tag >> 24) as u8);
            assert(e[10] == (tag >> 16) as u8);
            assert(e[11] == (tag >> 8) as u8);
            assert(e[12] == tag as u8);
            assert(spec_be64_at(e, 5) == tag);
            assert(spec_be32_at(e, 13) == lf);
            assert(lf as int == payload.len());
            assert(e.subrange(17, 17 + payload.len() as int) =~= payload);
            assert(spec_decode(e) =~~= SpecDecoded::Decoded(p, e.len() as int));
        }
        PacketModel::Reply(tag, payload) => {
            let lf = payload.len() as u32;
            lemma_be64_split(tag);
            lemma_be32_split(lf);
            assert(e[0] == REPLY_IDENTIFIER);
            assert(e[1] == (tag >> 56) as u8);
            assert(e[2] == (tag >> 48) as u8);
            assert(e[3] == (tag >> 40) as u8);
            assert(e[4] == (tag >> 32) as u8);
            assert(e[5] == (tag >> 24) as u8);
            assert(e[6] == (tag >> 16) as u8);
            assert(e[7] == (tag >> 8) as u8);
            assert(e[8] == tag as u8);
            assert(spec_be64_at(e, 1) == tag);
            assert(spec_be32_at(e, 9) == lf);
            assert(lf as int == payload.len());
            assert(e.subrange(13, 13 + payload.len() as int) =~= payload);
            assert(spec_decode(e) =~~= SpecDecoded::Decoded(p, e.len() as int));
        }
    }
}

/// Any proper prefix of an encoded frame decodes to `Incomplete`: truncated
/// input asks for more bytes, it never yields a packet or an error.
pub proof fn lemma_truncated_is_incomplete(p: PacketModel, n: int)
    requires
        p.payload().len() <= u32::MAX,
        0 <= n < spec_encode(p).len(),
    ensures
        spec_decode(spec_encode(p).take(n)) is Incomplete,
{
    let e = spec_encode(p);
    let t = e.take(n);
    if n == 0 {
        return ;
    }
    assert(t[0] == e[0]);
    match p {
        PacketModel::Event(code, payload) => {
            let lf = payload.len() as u32;
            lemma_be32_split(lf);
            assert(e[0] == EVENT_IDENTIFIER);
            if n >= 9 {
                assert(spec_be32_at(t, 5) == spec_be32_at(e, 5));
                assert(spec_be32_at(e, 5) == lf);
                assert(lf as int == payload.len());
                assert(t.len() < 9 + payload.len());
            }
        }
        PacketModel::Command(code, tag, payload) => {
            let lf = payload.len() as u32;
            lemma_be32_split(lf);
            assert(e[0] == COMMAND_IDENTIFIER);
            if n >= 17 {
                assert(spec_be32_at(t, 13) == spec_be32_at(e, 13));
                assert(spec_be32_at(e, 13) == lf);
                assert(lf as int == payload.len());
                assert(t.len() < 17 + payload.len());
            }
        }
        PacketModel::Reply(tag, payload) => {
            let lf = payload.len() as u32;
            lemma_be32_split(lf);
            assert(e[0] == REPLY_IDENTIFIER);
            if n >= 13 {
                assert(spec_be32_at(t, 9) == spec_be32_at(e, 9));
                assert(spec_be32_at(e, 9) == lf);
                assert(lf as int == payload.len());
                assert(t.len() < 13 + payload.len());
            }
        }
    }
}

/// Append the big-endian bytes of a 32-bit value.
fn push_u32_be(out: &mut Vec<u8>, x: u32)
    ensures
        final(out)@ == old(out)@ + spec_u32_bytes(x),
{
    out.push((x >> 24) as u8);
    out.push((x >> 16) as u8);
    out.push((x >> 8) as u8);
    out.push(x as u8);
    assert(final(out)@ =~= old(out)@ + spec_u32_bytes(x));
}

/// Append the big-endian bytes of a 64-bit value.
fn push_u64_be(out: &mut Vec<u8>, x: u64)
    ensures
        final(out)@ == old(out)@ + spec_u64_bytes(x),
{
    out.push((x >> 56) as u8);
    out.push((x >> 48) as u8);
    out.push((x >> 40) as u8);
    out.push((x >> 32) as u8);
    out.push((x >> 24) as u8);
    out.push((x >> 16) as u8);
    out.push((x >> 8) as u8);
    out.push(x as u8);
    assert(final(out)@ =~= old(out)@ + spec_u64_bytes(x));
}

/// Append a copy of all the bytes of `src`.
fn push_bytes(out: &mut Vec<u8>, src: &Vec<u8>)
    requires
        old(out)@.len() + src@.len() <= usize::MAX,
    ensures
        final(out)@ == old(out)@ + src@,
{
    let mut i: usize = 0;
    while i < src.len()
        invariant
            i <= src.len(),
            old(out)@.len() + src@.len() <= usize::MAX,
            out@ == old(out)@ + src@.subrange(0, i as int),
        decreases src.len() - i,
    {
        out.push(src[i]);
        i = i + 1;
        assert(out@ =~= old(out)@ + src@.subrange(0, i as int));
    }
    assert(final(out)@ =~= old(out)@ + src@);
}

/// Encode one packet into the exact frame bytes of the protocol.
pub fn encode_packet(packet: &Packet) -> (r: Vec<u8>)
    requires
        packet@.payload().len() <= u32::MAX,
        packet@.payload().len() + 17 <= usize::MAX,
    ensures
        r@ == spec_encode(packet@),
{
    let mut out: Vec<u8> = Vec::new();
    match packet {
        Packet::Event(code, payload) => {
            out.push(EVENT_IDENTIFIER);
            push_u32_be(&mut out, code.inner());
            push_u32_be(&mut out, payload.len() as u32);
            push_bytes(&mut out, payload);
            assert(out@ =~= spec_encode(packet@));
        }
        Packet::Command(code, tag, payload) => {
            out.push(COMMAND_IDENTIFIER);
            push_u32_be(&mut out, code.inner());
            push_u64_be(&mut out, tag.inner());
            push_u32_be(&mut out, payload.len() as u32);
            push_bytes(&mut out, payload);
            assert(out@ =~= spec_encode(packet@));
        }
        Packet::Reply(tag, payload) => {
            out.push(REPLY_IDENTIFIER);
            push_u64_be(&mut out, tag.inner());
            push_u32_be(&mut out, payload.len() as u32);
            push_bytes(&mut out, payload);
            assert(out@ =~= spec_encode(packet@));
        }
    }
    out
}

/// Read the four big-endian bytes at `i` as a 32-bit value.
fn read_u32_at(b: &Vec<u8>, i: usize) -> (r: u32)
    requires
        i + 4 <= b@.len() <= usize::MAX,
    ensures
        r == spec_be32_at(b@, i as int),
{
    ((b[i] as u32) << 24) | ((b[i + 1] as u32) << 16) | ((b[i + 2] as u32) << 8) | (b[i + 3]
        as u32)
}

/// Read the eight big-endian bytes at `i` as a 64-bit value.
fn read_u64_at(b: &Vec<u8>, i: usize) -> (r: u64)
    requires
        i + 8 <= b@.len() <= usize::MAX,
    ensures
        r == spec_be64_at(b@, i as int),
{
    ((b[i] as u64) << 56) | ((b[i + 1] as u64) << 48) | ((b[i + 2] as u64) << 40) | ((b[i + 3]
        as u64) << 32) | ((b[i + 4] as u64) << 24) | ((b[i + 5] as u64) << 16) | ((b[i + 6]
        as u64) << 8) | (b[i + 7] as u64)
}

/// Copy `len` bytes of `b` starting at `start`.
fn copy_range(b: &Vec<u8>, start: usize, len: usize) -> (r: Vec<u8>)
    requires
        start + len <= b@.len() <= usize::MAX,
    ensures
        r@ == b@.subrange(start as int, start as int + len as int),
{
    let mut out: Vec<u8> = Vec::new();
    let mut i: usize = 0;
    while i < len
        invariant
            i <= len,
            start + len <= b@.len() <= usize::MAX,
            out@ == b@.subrange(start as int, start as int + i as int),
        decreases len - i,
    {
        out.push(b[start + i]);
        i = i + 1;
        assert(out@ =~= b@.subrange(start as int, start as int + i as int));
    }
    out
}

/// Decode one frame from the front of `bytes`.
///
/// Succeeds exactly when the buffer begins with a whole frame, returning the
/// packet and the frame's size; a shorter buffer is `Incomplete` (read more
/// and retry), and a first byte that names no variant is
/// `UnknownIdentifier`. No input panics.
pub fn decode_packet(bytes: &Vec<u8>) -> (r: Result<(Packet, usize), DecodeError>)
    ensures
        match r {
            Ok((packet, consumed)) => spec_decode(bytes@) == SpecDecoded::Decoded(
                packet@,
                consumed as int,
            ) && consumed <= bytes@.len(),
            Err(DecodeError::Incomplete) => spec_decode(bytes@) is Incomplete,
            Err(DecodeError::UnknownIdentifier(id)) => spec_decode(bytes@)
                == SpecDecoded::Unknown(id),
        },
{
    if bytes.len() < 1 {
        return Err(DecodeError::Incomplete);
    }
    let id = bytes[0];
    if id == EVENT_IDENTIFIER {
        if bytes.len() < 9 {
            return Err(DecodeError::Incomplete);
        }
        let code = read_u32_at(bytes, 1);
        let len = read_u32_at(bytes, 5) as usize;
        if bytes.len() - 9 < len {
            return Err(DecodeError::Incomplete);
        }
        let payload = copy_range(bytes, 9, len);
        Ok((Packet::Event(EventCode::new(code), payload), 9 + len))
    } else if id == COMMAND_IDENTIFIER {
        if bytes.len() < 17 {
            return Err(DecodeError::Incomplete);
        }
        let code = read_u32_at(bytes, 1);
        let tag = read_u64_at(bytes, 5);
        let len = read_u32_at(bytes, 13) as usize;
        if bytes.len() - 17 < len {
            return Err(DecodeError::Incomplete);
        }
        let payload = copy_range(bytes, 17, len);
        Ok((Packet::Command(CommandCode::new(code), Tag::new(tag), payload), 17 + len))
    } else if id == REPLY_IDENTIFIER {
        if bytes.len() < 13 {
            return Err(DecodeError::Incomplete);
        }
        let tag = read_u64_at(bytes, 1);
        let len = read_u32_at(bytes, 9) as usize;
        if bytes.len() - 13 < len {
            return Err(DecodeError::Incomplete);
        }
        let payload = copy_range(bytes, 13, len);
        Ok((Packet::Reply(Tag::new(tag), payload), 13 + len))
    } else {
        Err(DecodeError::UnknownIdentifier(id))
    }
}

} // verus!
