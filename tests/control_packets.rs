use std::marker::PhantomData;

use bytes::BytesMut;

use mumble_protocol::control::{ClientControlCodec, ControlCodec, ServerControlCodec};
use mumble_protocol::error::CodecError;
use mumble_protocol::frame::RawControlPacket;
use mumble_protocol::packet::ControlPacket;
use mumble_protocol::buffer::buffer_len;
use mumble_protocol::registry::{MessageKind, PacketKind};
use mumble_protocol::voice::{Clientbound, Serverbound, VoicePacket};

fn audio<D: mumble_protocol::voice::VoicePacketDst>(payload: Vec<u8>) -> VoicePacket<D> {
    VoicePacket::Audio {
        _dst: PhantomData,
        target: 3,
        session_id: 0x0102_0304,
        seq_num: 0x1122_3344_5566_7788,
        payload,
    }
}

#[test]
fn voice_audio_bytes_exact() {
    let bytes = audio::<Clientbound>(vec![0xee, 0xff]).to_bytes();
    assert_eq!(
        bytes,
        vec![1, 1, 3, 1, 2, 3, 4, 0x11, 0x22, 0x33, 0x44, 0x55, 0x66, 0x77, 0x88, 0xee, 0xff]
    );
}

#[test]
fn voice_ping_bytes_exact() {
    let bytes = VoicePacket::<Serverbound>::Ping { timestamp: 0x0a0b }.to_bytes();
    assert_eq!(bytes, vec![0, 0, 0, 0, 0, 0, 0, 0, 0x0a, 0x0b]);
}

#[test]
fn voice_ping_reads_back() {
    let bytes = VoicePacket::<Serverbound>::Ping { timestamp: 99 }.to_bytes();
    match VoicePacket::<Serverbound>::from_bytes(bytes) {
        Ok(VoicePacket::Ping { timestamp }) => assert_eq!(timestamp, 99),
        _ => panic!("expected a ping"),
    }
}

#[test]
fn voice_malformed_packets() {
    assert!(matches!(
        VoicePacket::<Serverbound>::from_bytes(vec![0]),
        Err(CodecError::MalformedVoicePacket)
    ));
    assert!(matches!(
        VoicePacket::<Serverbound>::from_bytes(vec![0, 0, 1]),
        Err(CodecError::MalformedVoicePacket)
    ));
    assert!(matches!(
        VoicePacket::<Serverbound>::from_bytes(vec![0, 7, 0, 0, 0, 0, 0, 0, 0, 0]),
        Err(CodecError::MalformedVoicePacket)
    ));
}

#[test]
fn voice_wrong_direction() {
    let bytes = VoicePacket::<Clientbound>::Ping { timestamp: 1 }.to_bytes();
    assert!(matches!(
        VoicePacket::<Serverbound>::from_bytes(bytes),
        Err(CodecError::WrongVoiceDirection)
    ));
}

#[test]
fn known_message_round_trip() {
    let mut server = ServerControlCodec::new();
    let mut buf = BytesMut::new();
    let msg = ControlPacket::<Clientbound>::Message { kind: MessageKind::TextMessage, body: vec![1, 2, 3] };
    server.encode(msg, &mut buf);
    assert_eq!(&buf[..], &[0, 11, 0, 0, 0, 3, 1, 2, 3]);
    let mut client = ClientControlCodec::new();
    match client.decode(&mut buf) {
        Ok(Some(ControlPacket::Message { kind, body })) => {
            assert_eq!(kind, MessageKind::TextMessage);
            assert_eq!(body, vec![1, 2, 3]);
        }
        _ => panic!("expected a text message"),
    }
    assert!(buf.is_empty());
}

#[test]
fn unknown_passthrough() {
    let raw = RawControlPacket { id: 500, bytes: vec![4, 5, 6, 7] };
    let p = ControlPacket::<Serverbound>::try_from_raw(raw).unwrap();
    assert_eq!(p.name(), "unknown");
    let back = p.into_raw();
    assert_eq!(back.id, 500);
    assert_eq!(back.bytes, vec![4, 5, 6, 7]);
    let mut out = BytesMut::new();
    let mut client = ClientControlCodec::new();
    client.encode(ControlPacket::Other(back), &mut out);
    assert_eq!(&out[..], &[0x01, 0xf4, 0, 0, 0, 4, 4, 5, 6, 7]);
    match ServerControlCodec::new().decode(&mut out) {
        Ok(Some(ControlPacket::Other(r))) => {
            assert_eq!(r.id, 500);
            assert_eq!(r.bytes, vec![4, 5, 6, 7]);
        }
        _ => panic!("expected an unknown packet"),
    }
}

#[test]
fn tunnel_round_trip_server_to_client() {
    let mut server = ServerControlCodec::new();
    let mut buf = BytesMut::new();
    server.encode(ControlPacket::UDPTunnel(Box::new(audio(vec![9, 9, 9]))), &mut buf);
    let mut wrong = buf.clone();
    assert_eq!(&buf[0..2], &[0, 1]);
    let mut client = ClientControlCodec::new();
    match client.decode(&mut buf) {
        Ok(Some(ControlPacket::UDPTunnel(v))) => match *v {
            VoicePacket::Audio { target, session_id, seq_num, payload, .. } => {
                assert_eq!(target, 3);
                assert_eq!(session_id, 0x0102_0304);
                assert_eq!(seq_num, 0x1122_3344_5566_7788);
                assert_eq!(payload, vec![9, 9, 9]);
            }
            _ => panic!("expected audio"),
        },
        _ => panic!("expected a tunnelled packet"),
    }
    assert!(buf.is_empty());
    let mut other_server = ServerControlCodec::new();
    assert!(matches!(
        other_server.decode(&mut wrong),
        Err(CodecError::WrongVoiceDirection)
    ));
    assert!(wrong.is_empty());
}

#[test]
fn parse_error_still_consumes_frame() {
    let mut buf = BytesMut::from(&[0u8, 1, 0, 0, 0, 1, 0, 0, 0, 0, 0, 0, 0][..]);
    let mut codec: ControlCodec<Serverbound, Serverbound> = ControlCodec::new();
    assert!(matches!(codec.decode(&mut buf), Err(CodecError::MalformedVoicePacket)));
    let p = codec.decode(&mut buf).unwrap().unwrap();
    assert_eq!(p.name(), "Version");
    assert!(buf.is_empty());
}

#[test]
fn control_codec_frame_too_long() {
    let mut buf = BytesMut::from(&[0u8, 5, 0xff, 0xff, 0xff, 0xff][..]);
    let mut codec = ClientControlCodec::default();
    assert!(matches!(codec.decode(&mut buf), Err(CodecError::FrameTooLong)));
    assert_eq!(buf.len(), 6);
}

#[test]
fn control_codec_incomplete() {
    let mut buf = BytesMut::from(&[0u8, 5, 0, 0, 0, 4, 1][..]);
    let mut codec = ClientControlCodec::new();
    assert!(matches!(codec.decode(&mut buf), Ok(None)));
    assert_eq!(buf.len(), 7);
}

#[test]
fn tunnel_accessor_rejects_other_kinds() {
    let raw = RawControlPacket { id: 3, bytes: vec![] };
    assert!(matches!(
        VoicePacket::<Clientbound>::try_from_raw(raw),
        Err(CodecError::UnexpectedPacketType { expected: 1, found: 3 })
    ));
}

#[test]
fn tunnel_accessor_reads_voice() {
    let raw = VoicePacket::<Clientbound>::Ping { timestamp: 5 }.into_raw();
    assert_eq!(raw.id, 1);
    match VoicePacket::<Clientbound>::try_from_raw(raw) {
        Ok(VoicePacket::Ping { timestamp }) => assert_eq!(timestamp, 5),
        _ => panic!("expected a ping"),
    }
}

#[test]
fn body_accessor() {
    let raw = RawControlPacket { id: 3, bytes: vec![8] };
    assert_eq!(raw.clone().into_body_of(PacketKind::Ping).unwrap(), vec![8]);
    assert!(matches!(
        raw.into_body_of(PacketKind::Reject),
        Err(CodecError::UnexpectedPacketType { expected: 4, found: 3 })
    ));
}

#[test]
fn packet_names() {
    let p = ControlPacket::<Clientbound>::UDPTunnel(Box::new(VoicePacket::Ping { timestamp: 0 }));
    assert_eq!(p.name(), "UDPTunnel");
    let m = ControlPacket::<Clientbound>::Message { kind: MessageKind::UserState, body: vec![] };
    assert_eq!(m.name(), "UserState");
}

#[test]
fn message_kinds_skip_the_tunnel_id() {
    assert_eq!(MessageKind::Version.tag(), 0);
    assert_eq!(MessageKind::Authenticate.tag(), 2);
    assert_eq!(MessageKind::TalkingState.tag(), 28);
    assert_eq!(MessageKind::from_tag(1), None);
    assert_eq!(MessageKind::from_tag(29), None);
    for t in 0..29u16 {
        if t != 1 {
            assert_eq!(MessageKind::from_tag(t).unwrap().tag(), t);
            assert_eq!(MessageKind::from_tag(t).unwrap().name(), PacketKind::from_tag(t).unwrap().name());
        }
    }
}

#[test]
fn every_message_kind_round_trips() {
    for t in 0..29u16 {
        let kind = match MessageKind::from_tag(t) {
            Some(k) => k,
            None => continue,
        };
        let msg = ControlPacket::<Serverbound>::Message { kind, body: vec![t as u8, 0x42] };
        let mut buf = BytesMut::new();
        let mut client: ControlCodec<Serverbound, Serverbound> = ControlCodec::new();
        client.encode(msg.clone(), &mut buf);
        assert_eq!(client.decode(&mut buf).unwrap().unwrap(), msg);
        assert_eq!(buffer_len(&buf), 0);
    }
}

#[test]
fn ping_voice_body_in_tunnel_frame_round_trips() {
    let ping = ControlPacket::<Clientbound>::UDPTunnel(Box::new(VoicePacket::Ping { timestamp: 77 }));
    let mut buf = BytesMut::new();
    ServerControlCodec::new().encode(ping.clone(), &mut buf);
    assert_eq!(ClientControlCodec::new().decode(&mut buf).unwrap().unwrap(), ping);
}

#[test]
fn buffer_len_counts_bytes() {
    let b = BytesMut::from(&[1u8, 2, 3][..]);
    assert_eq!(buffer_len(&b), 3);
    assert_eq!(buffer_len(&BytesMut::new()), 0);
}
