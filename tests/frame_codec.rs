use bytes::BytesMut;
use mumble_protocol::error::CodecError;
use mumble_protocol::frame::{RawControlCodec, RawControlPacket, MAX_PAYLOAD_LEN};

fn buf(b: &[u8]) -> BytesMut {
    BytesMut::from(b)
}

fn encoded(id: u16, bytes: Vec<u8>) -> BytesMut {
    let mut out = BytesMut::new();
    RawControlCodec::new().encode(RawControlPacket { id, bytes }, &mut out);
    out
}

#[test]
fn encode_writes_big_endian_header() {
    let out = encoded(0x0102, vec![9, 8, 7]);
    assert_eq!(&out[..], &[0x01, 0x02, 0, 0, 0, 3, 9, 8, 7]);
}

#[test]
fn encode_appends_to_existing_bytes() {
    let mut out = buf(&[0xaa]);
    RawControlCodec::new().encode(RawControlPacket { id: 3, bytes: vec![] }, &mut out);
    assert_eq!(&out[..], &[0xaa, 0, 3, 0, 0, 0, 0]);
}

#[test]
fn decode_short_header_is_incomplete() {
    let mut b = buf(&[0, 1, 0, 0, 0]);
    let r = RawControlCodec::new().decode(&mut b);
    assert!(matches!(r, Ok(None)));
    assert_eq!(&b[..], &[0, 1, 0, 0, 0]);
}

#[test]
fn decode_empty_buffer_is_incomplete() {
    let mut b = BytesMut::new();
    assert!(matches!(RawControlCodec::new().decode(&mut b), Ok(None)));
}

#[test]
fn decode_whole_frame() {
    let mut b = buf(&[0x12, 0x34, 0, 0, 0, 2, 5, 6, 7]);
    let p = RawControlCodec::new().decode(&mut b).unwrap().unwrap();
    assert_eq!(p.id, 0x1234);
    assert_eq!(p.bytes, vec![5, 6]);
    assert_eq!(&b[..], &[7]);
}

#[test]
fn partial_buffering_byte_by_byte() {
    let frame = encoded(7, vec![1, 2, 3, 4]);
    let mut codec = RawControlCodec::new();
    let mut buf = BytesMut::new();
    for (i, b) in frame.iter().enumerate() {
        buf.extend_from_slice(&[*b]);
        let r = codec.decode(&mut buf);
        if i + 1 < frame.len() {
            assert!(matches!(r, Ok(None)));
            assert_eq!(buf.len(), i + 1);
        } else {
            let p = r.unwrap().unwrap();
            assert_eq!(p.id, 7);
            assert_eq!(p.bytes, vec![1, 2, 3, 4]);
            assert!(buf.is_empty());
        }
    }
}

#[test]
fn largest_length_decodes() {
    let payload = vec![0x5a; MAX_PAYLOAD_LEN];
    let mut buf = encoded(2, payload);
    assert_eq!(&buf[2..6], &[0x00, 0x7f, 0xff, 0xff]);
    let p = RawControlCodec::new().decode(&mut buf).unwrap().unwrap();
    assert_eq!(p.id, 2);
    assert_eq!(p.bytes.len(), 0x7f_ffff);
    assert!(buf.is_empty());
}

#[test]
fn largest_length_needs_its_payload() {
    let mut buf = buf(&[0, 2, 0x00, 0x7f, 0xff, 0xff, 1, 2, 3]);
    assert!(matches!(RawControlCodec::new().decode(&mut buf), Ok(None)));
    assert_eq!(buf.len(), 9);
}

#[test]
fn length_over_limit_is_rejected_without_payload() {
    let mut b = buf(&[0, 2, 0x00, 0x80, 0x00, 0x00]);
    let r = RawControlCodec::new().decode(&mut b);
    assert!(matches!(r, Err(CodecError::FrameTooLong)));
    assert_eq!(&b[..], &[0, 2, 0x00, 0x80, 0x00, 0x00]);
}

#[test]
fn two_frames_decode_in_order() {
    let mut buf = encoded(1, vec![10, 11]);
    let second = encoded(300, vec![20]);
    buf.extend_from_slice(&second);
    let mut codec = RawControlCodec::new();
    let first = codec.decode(&mut buf).unwrap().unwrap();
    assert_eq!(first.id, 1);
    assert_eq!(first.bytes, vec![10, 11]);
    assert_eq!(buf, second);
    let next = codec.decode(&mut buf).unwrap().unwrap();
    assert_eq!(next.id, 300);
    assert_eq!(next.bytes, vec![20]);
    assert!(buf.is_empty());
    assert!(matches!(codec.decode(&mut buf), Ok(None)));
}

#[test]
fn default_codec_decodes() {
    let mut buf = buf(&[0, 0, 0, 0, 0, 0]);
    let p = RawControlCodec::default().decode(&mut buf).unwrap().unwrap();
    assert_eq!(p.id, 0);
    assert!(p.bytes.is_empty());
}
