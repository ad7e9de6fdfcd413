use bytes::BytesMut;
use libwhisper::crypto::{gen_nonce, KeyPair};
use libwhisper::errors::WhisperError;
use libwhisper::frame::{Frame, FrameKind, HEADER_SIZE};

fn make_frame() -> Frame {
    let keypair = KeyPair::new();
    let payload = vec![0, 0, 0];
    let nonce = gen_nonce();

    Frame {
        id: keypair.public_key,
        nonce,
        kind: FrameKind::Hello,
        payload,
    }
}

#[test]
fn pack_and_unpack() {
    let frame = make_frame();
    let packed_frame = frame.pack();
    assert_eq!(packed_frame.len(), 60);

    let parsed_frame = Frame::from_slice(&packed_frame);

    assert_eq!(frame, parsed_frame.unwrap());
}

#[test]
fn frame_kind_from_slice() {
    let hello = FrameKind::from_slice(&[1]).unwrap();
    let welcome = FrameKind::from_slice(&[2]).unwrap();
    let initiate = FrameKind::from_slice(&[3]).unwrap();
    let ready = FrameKind::from_slice(&[4]).unwrap();
    let request = FrameKind::from_slice(&[5]).unwrap();
    let response = FrameKind::from_slice(&[6]).unwrap();
    let notification = FrameKind::from_slice(&[7]).unwrap();
    let termination = FrameKind::from_slice(&[255]).unwrap();
    let bad = FrameKind::from_slice(&[100]);
    let none = FrameKind::from_slice(&[]);

    assert_eq!(hello, FrameKind::Hello);
    assert_eq!(welcome, FrameKind::Welcome);
    assert_eq!(initiate, FrameKind::Initiate);
    assert_eq!(ready, FrameKind::Ready);
    assert_eq!(request, FrameKind::Request);
    assert_eq!(response, FrameKind::Response);
    assert_eq!(notification, FrameKind::Notification);
    assert_eq!(termination, FrameKind::Termination);
    assert!(bad.is_none());
    assert!(none.is_none());
}

#[test]
fn malformed_frame() {
    let packed_frame = vec![1 as u8, 2, 3];

    let parsed_frame = Frame::from_slice(&packed_frame);

    assert_eq!(parsed_frame.is_err(), true);
    let err = parsed_frame.err().unwrap();

    let mut is_incomplete = false;
    if let WhisperError::IncompleteFrame = err {
        is_incomplete = true;
    }
    assert!(is_incomplete);
}

#[test]
fn bad_frame() {
    // Frames created by this library will never be invalid, but oh well.
    // A malformed frame: one whose kind byte is 13.
    let bad_frame = b"\x85\x0f\xc2?\xce\x80f\x16\xec8\x04\xc7{5\x98\xa7u<\xa5y\xda\x12\xfe\xad\xdc^%[\x8ap\xfa7q.-)\xe4V\xec\x94\xb2\x7f\r\x9a\x91\xc7\xcd\x08\xa4\xee\xbfbpH\x07%\r\0\0\0";
    let result = Frame::from_slice(&bad_frame[0..59]);
    assert!(result.is_err());
    let err = result.err().unwrap();
    let mut is_bad = false;
    if let WhisperError::BadFrame = err {
        is_bad = true;
    }
    assert!(is_bad);
}

#[test]
fn pack_to_buf_appends_to_existing_bytes() {
    let frame = make_frame();
    let mut buf = BytesMut::new();
    buf.extend_from_slice(b"xy");
    frame.pack_to_buf(&mut buf);

    let packed = frame.pack();
    assert_eq!(&buf[..2], b"xy");
    assert_eq!(&buf[2..], &packed[..]);
    assert_eq!(frame.length(), packed.len());
}

#[test]
fn termination_kind_byte_on_wire() {
    let mut frame = make_frame();
    frame.kind = FrameKind::Termination;
    frame.payload = vec![];

    let packed = frame.pack();
    assert_eq!(packed.len(), HEADER_SIZE);
    assert_eq!(packed[56], 255);

    let parsed = Frame::from_slice(&packed).unwrap();
    assert_eq!(parsed.kind, FrameKind::Termination);
    assert!(parsed.payload.is_empty());
}

#[test]
fn exactly_header_sized_input_decodes() {
    let frame = make_frame();
    let mut bytes = frame.pack().to_vec();
    bytes.truncate(HEADER_SIZE);

    let parsed = Frame::from_slice(&bytes).unwrap();
    assert_eq!(parsed.id, frame.id);
    assert_eq!(parsed.nonce, frame.nonce);
    assert_eq!(parsed.kind, FrameKind::Hello);
    assert!(parsed.payload.is_empty());

    let short = Frame::from_slice(&bytes[0..HEADER_SIZE - 1]);
    assert_eq!(short.err().unwrap(), WhisperError::IncompleteFrame);
}
