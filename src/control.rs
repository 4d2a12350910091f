//! The control channel codec: frames on the wire, typed packets to the application.
use vstd::prelude::*;

use std::marker::PhantomData;

use bytes::BytesMut;

use crate::buffer::buf_contents;
use crate::error::CodecError;
use crate::frame::{
    frame_bytes, frame_step, lemma_frame_then_rest, FrameStep, RawControlCodec, HEADER_LEN,
    MAX_PAYLOAD_LEN,
};
use crate::packet::{
    lemma_packet_round_trip, packet_id, packet_parse, packet_payload, packet_wf, ControlPacket,
    PacketModel,
};
use crate::packet::lemma_unknown_passthrough;
use crate::registry::{message_tag, tag_kind, MessageKind, UDP_TUNNEL};
use crate::wire::be_encode;
use crate::voice::{
    lemma_voice_round_trip, voice_bytes, Clientbound, Serverbound, VoiceModel, VoicePacketDst,
};

verus! {

/// A codec that turns a stream of data into [ControlPacket]s and back.
///
/// Voice packets can be tunnelled through the control channel, and how they are written
/// and read depends on the side they are addressed to: `EncodeDst` is the side that the
/// packets this codec writes go to, `DecodeDst` the side that the packets it reads are
/// addressed to. See [ServerControlCodec] and [ClientControlCodec].
#[derive(Debug)]
pub struct ControlCodec<EncodeDst: VoicePacketDst, DecodeDst: VoicePacketDst> {
    inner: RawControlCodec,
    _encode_dst: PhantomData<EncodeDst>,
    _decode_dst: PhantomData<DecodeDst>,
}

/// The [ControlCodec] used on the server side.
pub type ServerControlCodec = ControlCodec<Clientbound, Serverbound>;

/// The [ControlCodec] used on the client side.
pub type ClientControlCodec = ControlCodec<Serverbound, Clientbound>;

/// The outcome of a decode, seen through the packet's view.
pub open spec fn decoded_view<Dst: VoicePacketDst>(
    r: Result<Option<ControlPacket<Dst>>, CodecError>,
) -> Result<Option<PacketModel>, CodecError> {
    match r {
        Ok(Some(p)) => Ok(Some(p@)),
        Ok(None) => Ok(None),
        Err(e) => Err(e),
    }
}

/// What decoding the front of the buffer `s` yields, as a typed packet, where tunnelled
/// voice packets are expected to carry the marker `marker`.
pub open spec fn control_decode(marker: u8, s: Seq<u8>) -> Result<Option<PacketModel>, CodecError> {
    match frame_step(s) {
        FrameStep::Incomplete => Ok(None),
        FrameStep::TooLong => Err(CodecError::FrameTooLong),
        FrameStep::Complete { id, payload, .. } => match packet_parse(marker, id, payload) {
            Ok(m) => Ok(Some(m)),
            Err(e) => Err(e),
        },
    }
}

/// What remains of the buffer `s` after a decode.
pub open spec fn control_rest(s: Seq<u8>) -> Seq<u8> {
    match frame_step(s) {
        FrameStep::Complete { rest, .. } => rest,
        _ => s,
    }
}

impl<EncodeDst: VoicePacketDst, DecodeDst: VoicePacketDst> ControlCodec<EncodeDst, DecodeDst> {
    /// Creates a new control codec.
    pub fn new() -> (r: Self) {
        ControlCodec { inner: RawControlCodec::new(), _encode_dst: PhantomData, _decode_dst: PhantomData }
    }

    /// Takes the first packet off the front of `src`, if a whole frame is there.
    ///
    /// An incomplete frame gives `Ok(None)` and a frame over the limit
    /// [CodecError::FrameTooLong], both leaving `src` alone. A whole frame is consumed even
    /// where its packet then fails to parse, so that the next frame stays readable.
    pub fn decode(&mut self, src: &mut BytesMut) -> (r: Result<
        Option<ControlPacket<DecodeDst>>,
        CodecError,
    >)
        ensures
            decoded_view(r) == control_decode(DecodeDst::spec_marker(), buf_contents(*old(src))),
            buf_contents(*final(src)) == control_rest(buf_contents(*old(src))),
            r matches Ok(Some(p)) ==> packet_wf(p@),
    {
        match self.inner.decode(src) {
            Err(e) => Err(e),
            Ok(None) => Ok(None),
            Ok(Some(raw)) => match ControlPacket::try_from_raw(raw) {
                Ok(p) => Ok(Some(p)),
                Err(e) => Err(e),
            },
        }
    }

    /// Appends the frame of `item` to `dst`, writing a voice packet as addressed to
    /// `EncodeDst`.
    pub fn encode(&mut self, item: ControlPacket<EncodeDst>, dst: &mut BytesMut)
        requires
            packet_payload(EncodeDst::spec_marker(), item@).len() <= u32::MAX,
            buf_contents(*old(dst)).len() + HEADER_LEN + packet_payload(
                EncodeDst::spec_marker(),
                item@,
            ).len() <= isize::MAX,
        ensures
            buf_contents(*final(dst)) == buf_contents(*old(dst)) + frame_bytes(
                packet_id(item@),
                packet_payload(EncodeDst::spec_marker(), item@),
            ),
    {
        let raw = item.into_raw();
        self.inner.encode(raw, dst);
    }
}

impl<EncodeDst: VoicePacketDst, DecodeDst: VoicePacketDst> Default for ControlCodec<
    EncodeDst,
    DecodeDst,
> {
    fn default() -> (r: Self) {
        Self::new()
    }
}

/// A packet that parsing can produce, written by a codec whose voice packets go to the
/// side that the reading codec expects, reads back as the same packet, and the bytes
/// that followed it stay in the buffer.
pub proof fn lemma_codec_round_trip(marker: u8, m: PacketModel, rest: Seq<u8>)
    requires
        packet_wf(m),
        packet_payload(marker, m).len() <= MAX_PAYLOAD_LEN,
    ensures
        control_decode(marker, frame_bytes(packet_id(m), packet_payload(marker, m)) + rest)
            == Ok::<Option<PacketModel>, CodecError>(Some(m)),
        control_rest(frame_bytes(packet_id(m), packet_payload(marker, m)) + rest) == rest,
{
    lemma_frame_then_rest(packet_id(m), packet_payload(marker, m), rest);
    lemma_packet_round_trip(marker, m);
}

/// A message of any kind, written as a frame and decoded on either side, comes back as
/// the same message, and the bytes that followed it stay in the buffer.
pub proof fn lemma_message_round_trip(
    marker: u8,
    kind: MessageKind,
    body: Seq<u8>,
    rest: Seq<u8>,
)
    requires
        body.len() <= MAX_PAYLOAD_LEN,
    ensures
        control_decode(marker, frame_bytes(message_tag(kind), body) + rest) == Ok::<
            Option<PacketModel>,
            CodecError,
        >(Some(PacketModel::Message { kind, body })),
        control_rest(frame_bytes(message_tag(kind), body) + rest) == rest,
{
    lemma_codec_round_trip(marker, PacketModel::Message { kind, body }, rest);
}

/// A voice packet written by a codec of the server side, as it writes it, reads back as
/// the same packet on a codec of the client side, which consumes the whole frame; a codec
/// of the server side refuses the same bytes as addressed elsewhere.
pub proof fn lemma_tunnel_directions(v: VoiceModel)
    requires
        packet_payload(Clientbound::spec_marker(), PacketModel::UDPTunnel(v)).len()
            <= MAX_PAYLOAD_LEN,
    ensures
        ({
            let sent = frame_bytes(
                packet_id(PacketModel::UDPTunnel(v)),
                packet_payload(Clientbound::spec_marker(), PacketModel::UDPTunnel(v)),
            );
            &&& control_decode(Clientbound::spec_marker(), sent) == Ok::<
                Option<PacketModel>,
                CodecError,
            >(Some(PacketModel::UDPTunnel(v)))
            &&& control_rest(sent) == Seq::<u8>::empty()
            &&& control_decode(Serverbound::spec_marker(), sent) == Err::<
                Option<PacketModel>,
                CodecError,
            >(CodecError::WrongVoiceDirection)
        }),
{
    let payload = voice_bytes(Clientbound::spec_marker(), v);
    let f = frame_bytes(UDP_TUNNEL, payload);
    assert(f =~= f + Seq::<u8>::empty());
    lemma_frame_then_rest(UDP_TUNNEL, payload, Seq::<u8>::empty());
    lemma_voice_round_trip(Clientbound::spec_marker(), Serverbound::spec_marker(), v);
}

/// A packet of an id that no kind has, with any payload within the frame limit, is
/// written as exactly its id, its payload's length and its payload, and decodes on either
/// side to the same unknown packet, consuming the whole frame.
pub proof fn lemma_unknown_stream_passthrough(marker: u8, id: u16, bytes: Seq<u8>)
    requires
        tag_kind(id) is None,
        bytes.len() <= MAX_PAYLOAD_LEN,
    ensures
        ({
            let m = PacketModel::Other { id, bytes };
            let sent = frame_bytes(packet_id(m), packet_payload(marker, m));
            &&& sent == be_encode(id as nat, 2) + be_encode(bytes.len(), 4) + bytes
            &&& control_decode(marker, sent) == Ok::<Option<PacketModel>, CodecError>(Some(m))
            &&& control_rest(sent) == Seq::<u8>::empty()
        }),
{
    let m = PacketModel::Other { id, bytes };
    lemma_unknown_passthrough(marker, id, bytes);
    lemma_codec_round_trip(marker, m, Seq::<u8>::empty());
    let sent = frame_bytes(packet_id(m), packet_payload(marker, m));
    assert(sent + Seq::<u8>::empty() =~= sent);
}

} // verus!
