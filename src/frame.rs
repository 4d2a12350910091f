//! Splitting a byte stream into length-delimited frames, and writing frames back.
use vstd::prelude::*;

use bytes::BytesMut;

use crate::buffer::{
    buf_advance, buf_contents, buf_get_u16, buf_get_u32, buf_len, buf_put_slice, buf_put_u16,
    buf_put_u32, buf_split_to, buf_to_vec,
};
use crate::error::CodecError;
use crate::wire::{
    be_encode, be_value, lemma_be_encode_len, lemma_be_round_trip, lemma_pow256_values,
};

verus! {

/// Bytes in a frame header: a 16-bit packet id and a 32-bit payload length, big-endian.
pub const HEADER_LEN: usize = 6;

/// The largest payload length a frame may declare.
pub const MAX_PAYLOAD_LEN: usize = 0x7f_ffff;

/// Raw, not yet parsed control packet.
#[derive(Clone, Debug, PartialEq)]
pub struct RawControlPacket {
    /// Packet id; see [crate::registry::PacketKind].
    pub id: u16,
    /// Raw message bytes.
    pub bytes: Vec<u8>,
}

/// The packet id that a buffer's header holds.
pub open spec fn header_id(s: Seq<u8>) -> nat {
    be_value(s.subrange(0, 2))
}

/// The payload length that a buffer's header declares.
pub open spec fn header_len(s: Seq<u8>) -> nat {
    be_value(s.subrange(2, 6))
}

/// What decoding the front of a buffer yields.
pub enum FrameStep {
    /// More bytes are needed; nothing is consumed.
    Incomplete,
    /// The header declares a payload over the limit.
    TooLong,
    /// A whole frame, and what follows it in the buffer.
    Complete { id: u16, payload: Seq<u8>, rest: Seq<u8> },
}

/// Decoding the front of the buffer `s`.
pub open spec fn frame_step(s: Seq<u8>) -> FrameStep {
    if s.len() < HEADER_LEN {
        FrameStep::Incomplete
    } else if header_len(s) > MAX_PAYLOAD_LEN {
        FrameStep::TooLong
    } else if s.len() < HEADER_LEN + header_len(s) {
        FrameStep::Incomplete
    } else {
        let end = HEADER_LEN + header_len(s);
        FrameStep::Complete {
            id: header_id(s) as u16,
            payload: s.subrange(HEADER_LEN as int, end as int),
            rest: s.subrange(end as int, s.len() as int),
        }
    }
}

/// The header of a frame with packet id `id` and a payload of `len` bytes.
pub open spec fn header_bytes(id: u16, len: nat) -> Seq<u8> {
    be_encode(id as nat, 2) + be_encode(len, 4)
}

/// The bytes of a frame with packet id `id` and payload `payload`.
pub open spec fn frame_bytes(id: u16, payload: Seq<u8>) -> Seq<u8> {
    header_bytes(id, payload.len()) + payload
}

/// A codec that splits a stream of data into [RawControlPacket]s.
#[derive(Debug)]
pub struct RawControlCodec;

impl RawControlCodec {
    /// Creates a new RawControlCodec.
    pub fn new() -> (r: Self)
        ensures
            r == RawControlCodec,
    {
        RawControlCodec
    }

    /// Takes the first frame off the front of `buf`, if a whole one is there.
    ///
    /// Returns `Ok(None)` and leaves `buf` alone while the frame is incomplete, and fails
    /// with [CodecError::FrameTooLong], leaving `buf` alone, when the header declares a
    /// payload over [MAX_PAYLOAD_LEN].
    pub fn decode(&mut self, buf: &mut BytesMut) -> (r: Result<
        Option<RawControlPacket>,
        CodecError,
    >)
        ensures
            match frame_step(buf_contents(*old(buf))) {
                FrameStep::Incomplete => r == Ok::<Option<RawControlPacket>, CodecError>(None)
                    && buf_contents(*final(buf)) == buf_contents(*old(buf)),
                FrameStep::TooLong => r == Err::<Option<RawControlPacket>, CodecError>(
                    CodecError::FrameTooLong,
                ) && buf_contents(*final(buf)) == buf_contents(*old(buf)),
                FrameStep::Complete { id, payload, rest } => match r {
                    Ok(Some(p)) => p.id == id && p.bytes@ == payload && buf_contents(*final(buf))
                        == rest,
                    _ => false,
                },
            },
    {
        let buf_len = buf_len(buf);
        if buf_len < HEADER_LEN {
            return Ok(None);
        }
        let id = buf_get_u16(buf, 0);
        let len = buf_get_u32(buf, 2) as usize;
        if len > MAX_PAYLOAD_LEN {
            Err(CodecError::FrameTooLong)
        } else if buf_len < HEADER_LEN + len {
            Ok(None)
        } else {
            let ghost whole = buf_contents(*buf);
            let mut frame = buf_split_to(buf, HEADER_LEN + len);
            buf_advance(&mut frame, HEADER_LEN);
            let bytes = buf_to_vec(&frame);
            assert(bytes@ =~= whole.subrange(HEADER_LEN as int, HEADER_LEN + len));
            Ok(Some(RawControlPacket { id, bytes }))
        }
    }

    /// Appends the frame of `item` to `dst`.
    pub fn encode(&mut self, item: RawControlPacket, dst: &mut BytesMut)
        requires
            item.bytes@.len() <= u32::MAX,
            buf_contents(*old(dst)).len() + HEADER_LEN + item.bytes@.len() <= isize::MAX,
        ensures
            buf_contents(*final(dst)) == buf_contents(*old(dst)) + frame_bytes(
                item.id,
                item.bytes@,
            ),
    {
        let bytes = &item.bytes;
        let len = bytes.len();
        proof {
            lemma_be_encode_len(item.id as nat, 2);
            lemma_be_encode_len(len as nat, 4);
        }
        buf_put_u16(dst, item.id);
        buf_put_u32(dst, len as u32);
        buf_put_slice(dst, bytes.as_slice());
        assert(buf_contents(*final(dst)) =~= buf_contents(*old(dst)) + frame_bytes(
            item.id,
            item.bytes@,
        ));
    }
}

/// Whatever follows a header in the buffer, the header reads back as the id and length
/// it was written from.
pub proof fn lemma_header_reads_back(id: u16, len: nat, tail: Seq<u8>)
    requires
        len <= u32::MAX,
    ensures
        (header_bytes(id, len) + tail).len() == HEADER_LEN + tail.len(),
        header_id(header_bytes(id, len) + tail) == id,
        header_len(header_bytes(id, len) + tail) == len,
{
    lemma_pow256_values();
    lemma_be_round_trip(id as nat, 2);
    lemma_be_round_trip(len, 4);
    let s = header_bytes(id, len) + tail;
    assert(s.subrange(0, 2) =~= be_encode(id as nat, 2));
    assert(s.subrange(2, 6) =~= be_encode(len, 4));
}

/// A whole frame at the front of a buffer decodes to its id and payload, and leaves
/// exactly the bytes that follow it.
pub proof fn lemma_frame_then_rest(id: u16, payload: Seq<u8>, rest: Seq<u8>)
    requires
        payload.len() <= MAX_PAYLOAD_LEN,
    ensures
        frame_step(frame_bytes(id, payload) + rest) == (FrameStep::Complete {
            id,
            payload,
            rest,
        }),
{
    let s = frame_bytes(id, payload) + rest;
    assert(s =~= header_bytes(id, payload.len()) + (payload + rest));
    lemma_header_reads_back(id, payload.len(), payload + rest);
    let end = HEADER_LEN + payload.len();
    assert(s.subrange(HEADER_LEN as int, end as int) =~= payload);
    assert(s.subrange(end as int, s.len() as int) =~= rest);
}

/// Fed the bytes of one frame a byte at a time, the decoder reports an incomplete frame
/// for every proper prefix, and the whole frame, with nothing left over, once the last
/// byte is there.
pub proof fn lemma_partial_buffering(id: u16, payload: Seq<u8>)
    requires
        payload.len() <= MAX_PAYLOAD_LEN,
    ensures
        forall|k: int|
            0 <= k < frame_bytes(id, payload).len() ==> #[trigger] frame_step(
                frame_bytes(id, payload).take(k),
            ) == FrameStep::Incomplete,
        frame_step(frame_bytes(id, payload)) == (FrameStep::Complete {
            id,
            payload,
            rest: Seq::<u8>::empty(),
        }),
{
    let f = frame_bytes(id, payload);
    assert(f =~= f + Seq::<u8>::empty());
    lemma_frame_then_rest(id, payload, Seq::<u8>::empty());
    assert forall|k: int| 0 <= k < f.len() implies #[trigger] frame_step(f.take(k))
        == FrameStep::Incomplete by {
        lemma_header_reads_back(id, payload.len(), payload);
        if k >= HEADER_LEN {
            let t = f.take(k);
            let tail = payload.take(k - HEADER_LEN);
            assert(t =~= header_bytes(id, payload.len()) + tail);
            lemma_header_reads_back(id, payload.len(), tail);
        }
    }
}

/// A frame with the largest payload length decodes; a header declaring one byte more is
/// refused before any of its payload has arrived.
pub proof fn lemma_length_boundary(id: u16, payload: Seq<u8>, tail: Seq<u8>)
    requires
        payload.len() == 0x7f_ffff,
    ensures
        frame_step(frame_bytes(id, payload)) == (FrameStep::Complete {
            id,
            payload,
            rest: Seq::<u8>::empty(),
        }),
        frame_step(header_bytes(id, 0x80_0000) + tail) == FrameStep::TooLong,
{
    lemma_partial_buffering(id, payload);
    lemma_header_reads_back(id, 0x80_0000, tail);
}

/// Two frames back to back decode in order: the first comes out and leaves exactly the
/// bytes of the second, which then decodes with nothing left over.
pub proof fn lemma_two_frames(id1: u16, payload1: Seq<u8>, id2: u16, payload2: Seq<u8>)
    requires
        payload1.len() <= MAX_PAYLOAD_LEN,
        payload2.len() <= MAX_PAYLOAD_LEN,
    ensures
        frame_step(frame_bytes(id1, payload1) + frame_bytes(id2, payload2)) == (
        FrameStep::Complete { id: id1, payload: payload1, rest: frame_bytes(id2, payload2) }),
        frame_step(frame_bytes(id2, payload2)) == (FrameStep::Complete {
            id: id2,
            payload: payload2,
            rest: Seq::<u8>::empty(),
        }),
{
    lemma_frame_then_rest(id1, payload1, frame_bytes(id2, payload2));
    lemma_partial_buffering(id2, payload2);
}

impl Default for RawControlCodec {
    fn default() -> (r: Self)
        ensures
            r == RawControlCodec,
    {
        RawControlCodec
    }
}

} // verus!
