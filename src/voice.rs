//! Voice packets as they travel through the control channel's tunnel, for one direction
//! of the connection.
//!
//! The byte layout here is this library's own stand-in for a media codec, not Mumble's
//! UDP voice format: a direction marker byte (0 towards the server, 1 towards a client),
//! a kind byte, then fixed-width big-endian fields. The marker lets a packet addressed to
//! one side be refused by the other.
use vstd::prelude::*;

use std::marker::PhantomData;

use crate::error::CodecError;
use crate::wire::{
    be_encode, be_value, lemma_be_encode_len, lemma_be_round_trip, lemma_pow256_values, push_be,
    read_be,
};

verus! {

/// The side of the connection that a voice packet is addressed to.
///
/// The two implementations are zero-sized markers: they exist only in types.
pub trait VoicePacketDst: Sized {
    /// The byte that opens every voice packet addressed to this side.
    spec fn spec_marker() -> u8;

    /// The byte that opens every voice packet addressed to this side.
    fn marker() -> (r: u8)
        ensures
            r == Self::spec_marker(),
    ;
}

/// Voice packets addressed to the server, sent by clients.
#[derive(Clone, Copy, Debug, PartialEq, Eq)]
pub struct Serverbound;

/// Voice packets addressed to a client, sent by the server.
#[derive(Clone, Copy, Debug, PartialEq, Eq)]
pub struct Clientbound;

impl VoicePacketDst for Serverbound {
    open spec fn spec_marker() -> u8 {
        0
    }

    fn marker() -> (r: u8) {
        0
    }
}

impl VoicePacketDst for Clientbound {
    open spec fn spec_marker() -> u8 {
        1
    }

    fn marker() -> (r: u8) {
        1
    }
}

/// Relies on `Clone` of `PhantomData`, which the derived `Clone` of [VoicePacket] calls:
/// it returns and promises nothing beyond another marker of the same type.
pub assume_specification<T: core::marker::PointeeSized>[ <PhantomData<T> as Clone>::clone ](
    _0: &PhantomData<T>,
) -> PhantomData<T>;

/// Kind byte of a ping packet.
pub const KIND_PING: u8 = 0;

/// Kind byte of an audio packet.
pub const KIND_AUDIO: u8 = 1;

/// Bytes of a ping packet: marker, kind and an 8-byte timestamp.
pub const PING_LEN: usize = 10;

/// Bytes before an audio packet's payload: marker, kind, target, a 4-byte session id and
/// an 8-byte sequence number.
pub const AUDIO_HEADER_LEN: usize = 15;

/// A voice packet addressed to the `Dst` side of the connection.
#[derive(Clone, Debug, PartialEq)]
pub enum VoicePacket<Dst: VoicePacketDst> {
    /// A ping, echoed by the other side.
    Ping { timestamp: u64 },
    /// A frame of encoded audio.
    Audio {
        _dst: PhantomData<Dst>,
        target: u8,
        session_id: u32,
        seq_num: u64,
        payload: Vec<u8>,
    },
}

/// What a voice packet holds, whichever side it is addressed to.
pub enum VoiceModel {
    Ping { timestamp: u64 },
    Audio { target: u8, session_id: u32, seq_num: u64, payload: Seq<u8> },
}

impl<Dst: VoicePacketDst> View for VoicePacket<Dst> {
    type V = VoiceModel;

    open spec fn view(&self) -> VoiceModel {
        match self {
            VoicePacket::Ping { timestamp } => VoiceModel::Ping { timestamp: *timestamp },
            VoicePacket::Audio { target, session_id, seq_num, payload, .. } => VoiceModel::Audio {
                target: *target,
                session_id: *session_id,
                seq_num: *seq_num,
                payload: payload@,
            },
        }
    }
}

/// The bytes of the voice packet `m` addressed to the side with marker `marker`.
pub open spec fn voice_bytes(marker: u8, m: VoiceModel) -> Seq<u8> {
    match m {
        VoiceModel::Ping { timestamp } => seq![marker, KIND_PING] + be_encode(timestamp as nat, 8),
        VoiceModel::Audio { target, session_id, seq_num, payload } => seq![
            marker,
            KIND_AUDIO,
            target,
        ] + be_encode(session_id as nat, 4) + be_encode(seq_num as nat, 8) + payload,
    }
}

/// Reading the bytes `s` as a voice packet addressed to the side with marker `marker`.
pub open spec fn voice_parse(marker: u8, s: Seq<u8>) -> Result<VoiceModel, CodecError> {
    if s.len() < 2 {
        Err(CodecError::MalformedVoicePacket)
    } else if s[0] != marker {
        Err(CodecError::WrongVoiceDirection)
    } else if s[1] == KIND_PING && s.len() == PING_LEN {
        Ok(VoiceModel::Ping { timestamp: be_value(s.subrange(2, 10)) as u64 })
    } else if s[1] == KIND_AUDIO && s.len() >= AUDIO_HEADER_LEN {
        Ok(
            VoiceModel::Audio {
                target: s[2],
                session_id: be_value(s.subrange(3, 7)) as u32,
                seq_num: be_value(s.subrange(7, 15)) as u64,
                payload: s.subrange(AUDIO_HEADER_LEN as int, s.len() as int),
            },
        )
    } else {
        Err(CodecError::MalformedVoicePacket)
    }
}

/// The outcome of a decode, seen through the packet's view.
pub open spec fn voice_result_view<Dst: VoicePacketDst>(
    r: Result<VoicePacket<Dst>, CodecError>,
) -> Result<VoiceModel, CodecError> {
    match r {
        Ok(p) => Ok(p@),
        Err(e) => Err(e),
    }
}

impl<Dst: VoicePacketDst> VoicePacket<Dst> {
    /// Writes this packet as bytes; this cannot fail.
    pub fn to_bytes(self) -> (r: Vec<u8>)
        ensures
            r@ == voice_bytes(Dst::spec_marker(), self@),
    {
        let ghost m = self@;
        let mut out: Vec<u8> = Vec::new();
        out.push(Dst::marker());
        proof {
            lemma_pow256_values();
        }
        match self {
            VoicePacket::Ping { timestamp } => {
                out.push(KIND_PING);
                push_be(&mut out, timestamp, 8);
            },
            VoicePacket::Audio { target, session_id, seq_num, payload, .. } => {
                let mut payload = payload;
                out.push(KIND_AUDIO);
                out.push(target);
                push_be(&mut out, session_id as u64, 4);
                push_be(&mut out, seq_num, 8);
                out.append(&mut payload);
            },
        }
        assert(out@ =~= voice_bytes(Dst::spec_marker(), m));
        out
    }

    /// Reads `bytes` as a voice packet addressed to the `Dst` side.
    ///
    /// Fails with [CodecError::WrongVoiceDirection] where the packet is addressed to the
    /// other side, and with [CodecError::MalformedVoicePacket] where it is truncated or of
    /// an unknown kind.
    pub fn from_bytes(bytes: Vec<u8>) -> (r: Result<Self, CodecError>)
        ensures
            voice_result_view(r) == voice_parse(Dst::spec_marker(), bytes@),
    {
        let len = bytes.len();
        if len < 2 {
            return Err(CodecError::MalformedVoicePacket);
        }
        if bytes[0] != Dst::marker() {
            return Err(CodecError::WrongVoiceDirection);
        }
        proof {
            crate::wire::lemma_be_value_bound(bytes@.subrange(3, 7));
            lemma_pow256_values();
        }
        if bytes[1] == KIND_PING && len == PING_LEN {
            let timestamp = read_be(&bytes, 2, 8);
            Ok(VoicePacket::Ping { timestamp })
        } else if bytes[1] == KIND_AUDIO && len >= AUDIO_HEADER_LEN {
            let target = bytes[2];
            let session_id = read_be(&bytes, 3, 4) as u32;
            let seq_num = read_be(&bytes, 7, 8);
            let mut bytes = bytes;
            let payload = bytes.split_off(AUDIO_HEADER_LEN);
            Ok(VoicePacket::Audio { _dst: PhantomData, target, session_id, seq_num, payload })
        } else {
            Err(CodecError::MalformedVoicePacket)
        }
    }
}

/// A voice packet written for one side reads back as the same packet on that side, and
/// is refused as addressed elsewhere on any side with another marker.
pub proof fn lemma_voice_round_trip(marker: u8, other: u8, m: VoiceModel)
    requires
        other != marker,
    ensures
        voice_parse(marker, voice_bytes(marker, m)) == Ok::<VoiceModel, CodecError>(m),
        voice_parse(other, voice_bytes(marker, m)) == Err::<VoiceModel, CodecError>(
            CodecError::WrongVoiceDirection,
        ),
{
    lemma_pow256_values();
    let s = voice_bytes(marker, m);
    match m {
        VoiceModel::Ping { timestamp } => {
            lemma_be_round_trip(timestamp as nat, 8);
            assert(s.subrange(2, 10) =~= be_encode(timestamp as nat, 8));
        },
        VoiceModel::Audio { target, session_id, seq_num, payload } => {
            lemma_be_round_trip(session_id as nat, 4);
            lemma_be_round_trip(seq_num as nat, 8);
            assert(s.subrange(3, 7) =~= be_encode(session_id as nat, 4));
            assert(s.subrange(7, 15) =~= be_encode(seq_num as nat, 8));
            assert(s.subrange(AUDIO_HEADER_LEN as int, s.len() as int) =~= payload);
        },
    }
}

} // verus!
