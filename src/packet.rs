//! Typed control packets: dispatching raw frames on their packet id, and the voice tunnel.
use vstd::prelude::*;

use crate::error::CodecError;
use crate::frame::{frame_bytes, RawControlPacket};
use crate::wire::be_encode;
use crate::registry::{
    kind_tag, lemma_message_kinds, message_tag, tag_kind, tag_message, MessageKind, PacketKind,
    UDP_TUNNEL,
};
use crate::voice::{
    lemma_voice_round_trip, voice_bytes, voice_parse, VoiceModel, VoicePacket, VoicePacketDst,
};

verus! {

/// A parsed control packet, on a connection side that receives voice packets addressed
/// to `Dst`.
#[derive(Clone, Debug, PartialEq)]
pub enum ControlPacket<Dst: VoicePacketDst> {
    /// A message of a known kind other than the voice tunnel.
    ///
    /// The body stays in the encoding that the message schema defines: this library
    /// frames and routes messages, and decoding a body into its fields (with the parse
    /// errors that may bring) belongs to the schema's own codec. So parsing a message
    /// never fails here.
    Message { kind: MessageKind, body: Vec<u8> },
    /// A voice packet tunnelled through the control channel.
    UDPTunnel(Box<VoicePacket<Dst>>),
    /// A packet of unknown type, kept as it came.
    Other(RawControlPacket),
}

/// What a control packet holds.
pub enum PacketModel {
    Message { kind: MessageKind, body: Seq<u8> },
    UDPTunnel(VoiceModel),
    Other { id: u16, bytes: Seq<u8> },
}

impl<Dst: VoicePacketDst> View for ControlPacket<Dst> {
    type V = PacketModel;

    open spec fn view(&self) -> PacketModel {
        match self {
            ControlPacket::Message { kind, body } => PacketModel::Message {
                kind: *kind,
                body: body@,
            },
            ControlPacket::UDPTunnel(v) => PacketModel::UDPTunnel(v@),
            ControlPacket::Other(raw) => PacketModel::Other { id: raw.id, bytes: raw.bytes@ },
        }
    }
}

/// A packet as parsing can produce it. Every message and every tunnelled voice packet
/// is; an unknown packet is where its id is no kind's.
pub open spec fn packet_wf(m: PacketModel) -> bool {
    match m {
        PacketModel::Message { .. } => true,
        PacketModel::UDPTunnel(_) => true,
        PacketModel::Other { id, .. } => tag_kind(id) is None,
    }
}

/// Parsing a frame with id `id` and payload `bytes`, where tunnelled voice packets are
/// expected to carry the marker `marker`.
pub open spec fn packet_parse(marker: u8, id: u16, bytes: Seq<u8>) -> Result<
    PacketModel,
    CodecError,
> {
    if id == UDP_TUNNEL {
        match voice_parse(marker, bytes) {
            Ok(v) => Ok(PacketModel::UDPTunnel(v)),
            Err(e) => Err(e),
        }
    } else {
        match tag_message(id) {
            Some(kind) => Ok(PacketModel::Message { kind, body: bytes }),
            None => Ok(PacketModel::Other { id, bytes }),
        }
    }
}

/// The packet id that `m` is written with.
pub open spec fn packet_id(m: PacketModel) -> u16 {
    match m {
        PacketModel::Message { kind, .. } => message_tag(kind),
        PacketModel::UDPTunnel(_) => UDP_TUNNEL,
        PacketModel::Other { id, .. } => id,
    }
}

/// The payload that `m` is written with, where tunnelled voice packets carry the marker
/// `marker`.
pub open spec fn packet_payload(marker: u8, m: PacketModel) -> Seq<u8> {
    match m {
        PacketModel::Message { body, .. } => body,
        PacketModel::UDPTunnel(v) => voice_bytes(marker, v),
        PacketModel::Other { bytes, .. } => bytes,
    }
}

/// The outcome of a parse, seen through the packet's view.
pub open spec fn packet_result_view<Dst: VoicePacketDst>(
    r: Result<ControlPacket<Dst>, CodecError>,
) -> Result<PacketModel, CodecError> {
    match r {
        Ok(p) => Ok(p@),
        Err(e) => Err(e),
    }
}

impl<Dst: VoicePacketDst> ControlPacket<Dst> {
    /// Parses a raw packet: a known id gives its kind, the voice tunnel's id a voice
    /// packet addressed to `Dst`, and any other id the packet unchanged as
    /// [ControlPacket::Other].
    pub fn try_from_raw(raw: RawControlPacket) -> (r: Result<Self, CodecError>)
        ensures
            packet_result_view(r) == packet_parse(Dst::spec_marker(), raw.id, raw.bytes@),
            r matches Ok(p) ==> packet_wf(p@),
    {
        proof {
            lemma_message_kinds(MessageKind::Version, raw.id);
        }
        if raw.id == UDP_TUNNEL {
            match VoicePacket::<Dst>::from_bytes(raw.bytes) {
                Ok(v) => Ok(ControlPacket::UDPTunnel(Box::new(v))),
                Err(e) => Err(e),
            }
        } else {
            match MessageKind::from_tag(raw.id) {
                Some(kind) => Ok(ControlPacket::Message { kind, body: raw.bytes }),
                None => Ok(ControlPacket::Other(raw)),
            }
        }
    }

    /// Turns this packet back into its raw form, writing a voice packet as addressed to
    /// `Dst`.
    pub fn into_raw(self) -> (r: RawControlPacket)
        ensures
            r.id == packet_id(self@),
            r.bytes@ == packet_payload(Dst::spec_marker(), self@),
    {
        match self {
            ControlPacket::Message { kind, body } => RawControlPacket { id: kind.tag(), bytes: body },
            ControlPacket::UDPTunnel(v) => (*v).into_raw(),
            ControlPacket::Other(raw) => raw,
        }
    }

    /// The name of this packet's kind, for diagnostics; `"unknown"` for [ControlPacket::Other].
    pub fn name(&self) -> (r: &'static str)
        ensures
            match self@ {
                PacketModel::Message { kind, .. } => r@ == crate::registry::message_name(kind),
                PacketModel::UDPTunnel(_) => r@ == crate::registry::kind_name(
                    PacketKind::UDPTunnel,
                ),
                PacketModel::Other { .. } => r@ == "unknown"@,
            },
    {
        match self {
            ControlPacket::Message { kind, .. } => kind.name(),
            ControlPacket::UDPTunnel(_) => PacketKind::UDPTunnel.name(),
            ControlPacket::Other(_) => "unknown",
        }
    }
}

impl<Dst: VoicePacketDst> VoicePacket<Dst> {
    /// Wraps this voice packet in a raw packet of the tunnel kind.
    pub fn into_raw(self) -> (r: RawControlPacket)
        ensures
            r.id == UDP_TUNNEL,
            r.bytes@ == voice_bytes(Dst::spec_marker(), self@),
    {
        RawControlPacket { id: UDP_TUNNEL, bytes: self.to_bytes() }
    }

    /// Reads a raw packet as a voice packet addressed to `Dst`.
    ///
    /// A packet of another kind fails with [CodecError::UnexpectedPacketType].
    pub fn try_from_raw(raw: RawControlPacket) -> (r: Result<Self, CodecError>)
        ensures
            raw.id != UDP_TUNNEL ==> r == Err::<Self, CodecError>(
                CodecError::UnexpectedPacketType { expected: UDP_TUNNEL, found: raw.id },
            ),
            raw.id == UDP_TUNNEL ==> crate::voice::voice_result_view(r) == voice_parse(
                Dst::spec_marker(),
                raw.bytes@,
            ),
    {
        if raw.id == UDP_TUNNEL {
            VoicePacket::from_bytes(raw.bytes)
        } else {
            Err(CodecError::UnexpectedPacketType { expected: UDP_TUNNEL, found: raw.id })
        }
    }
}

impl RawControlPacket {
    /// The body of this packet, where it is a message of kind `kind`.
    ///
    /// A packet of another kind fails with [CodecError::UnexpectedPacketType].
    pub fn into_body_of(self, kind: PacketKind) -> (r: Result<Vec<u8>, CodecError>)
        ensures
            self.id == kind_tag(kind) ==> (r matches Ok(b) && b@ == self.bytes@),
            self.id != kind_tag(kind) ==> r == Err::<Vec<u8>, CodecError>(
                CodecError::UnexpectedPacketType { expected: kind_tag(kind), found: self.id },
            ),
    {
        let expected = kind.tag();
        if self.id == expected {
            Ok(self.bytes)
        } else {
            Err(CodecError::UnexpectedPacketType { expected, found: self.id })
        }
    }
}

/// Writing a packet and parsing it back, on the same side of the connection, gives the
/// packet again. This holds of every message and every tunnelled voice packet; of an
/// unknown packet where its id is no kind's.
pub proof fn lemma_packet_round_trip(marker: u8, m: PacketModel)
    requires
        packet_wf(m),
    ensures
        packet_parse(marker, packet_id(m), packet_payload(marker, m)) == Ok::<
            PacketModel,
            CodecError,
        >(m),
{
    match m {
        PacketModel::Message { kind, .. } => {
            lemma_message_kinds(kind, 0);
        },
        PacketModel::UDPTunnel(v) => {
            lemma_voice_round_trip(marker, (if marker == 0 { 1u8 } else { 0u8 }), v);
        },
        PacketModel::Other { id, .. } => {
            lemma_message_kinds(MessageKind::Version, id);
            crate::registry::lemma_registry_bijective(PacketKind::UDPTunnel, id);
        },
    }
}

/// A frame whose id no kind has parses to [ControlPacket::Other] holding the id and the
/// payload exactly, which is written back as the same bytes: the id, the payload's
/// length, the payload.
pub proof fn lemma_unknown_passthrough(marker: u8, id: u16, bytes: Seq<u8>)
    requires
        tag_kind(id) is None,
    ensures
        packet_parse(marker, id, bytes) == Ok::<PacketModel, CodecError>(
            PacketModel::Other { id, bytes },
        ),
        packet_wf(PacketModel::Other { id, bytes }),
        packet_id(PacketModel::Other { id, bytes }) == id,
        packet_payload(marker, PacketModel::Other { id, bytes }) == bytes,
        frame_bytes(
            packet_id(PacketModel::Other { id, bytes }),
            packet_payload(marker, PacketModel::Other { id, bytes }),
        ) == be_encode(id as nat, 2) + be_encode(bytes.len(), 4) + bytes,
{
    lemma_message_kinds(MessageKind::Version, id);
    crate::registry::lemma_registry_bijective(PacketKind::UDPTunnel, id);
}

} // verus!
