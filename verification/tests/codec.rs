use arm_interface::codec::{decode_packet, encode_packet, DecodeError};
use arm_interface::proto::{CommandCode, EventCode, Packet, Tag};

#[test]
fn command_frame_bytes_are_exact() {
    let packet = Packet::Command(CommandCode::new(0x102), Tag::new(7), vec![]);
    let bytes = encode_packet(&packet);
    assert_eq!(
        bytes,
        vec![
            0x01, 0x00, 0x00, 0x01, 0x02, 0x00, 0x00, 0x00, 0x00, 0x00, 0x00, 0x00, 0x07, 0x00,
            0x00, 0x00, 0x00
        ]
    );
}

#[test]
fn reply_frame_bytes_are_exact() {
    let packet = Packet::Reply(Tag::new(7), vec![0xAA]);
    let bytes = encode_packet(&packet);
    assert_eq!(
        bytes,
        vec![0x02, 0x00, 0x00, 0x00, 0x00, 0x00, 0x00, 0x00, 0x07, 0x00, 0x00, 0x00, 0x01, 0xAA]
    );
}

#[test]
fn event_frame_bytes_are_exact() {
    let packet = Packet::Event(EventCode::new(0x1), vec![]);
    let bytes = encode_packet(&packet);
    assert_eq!(bytes, vec![0x00, 0x00, 0x00, 0x00, 0x01, 0x00, 0x00, 0x00, 0x00]);
}

#[test]
fn event_round_trip() {
    let packet = Packet::Event(EventCode::new(0xDEADBEEF), vec![1, 2, 3, 4, 5]);
    let bytes = encode_packet(&packet);
    let (decoded, consumed) = decode_packet(&bytes).expect("whole frame");
    assert_eq!(consumed, bytes.len());
    match decoded {
        Packet::Event(code, payload) => {
            assert_eq!(code.inner(), 0xDEADBEEF);
            assert_eq!(payload, vec![1, 2, 3, 4, 5]);
        }
        other => panic!("wrong variant: {:?}", other),
    }
}

#[test]
fn command_round_trip() {
    let packet = Packet::Command(
        CommandCode::new(0x100),
        Tag::new(0x0123_4567_89AB_CDEF),
        vec![9, 8, 7],
    );
    let bytes = encode_packet(&packet);
    let (decoded, consumed) = decode_packet(&bytes).expect("whole frame");
    assert_eq!(consumed, bytes.len());
    match decoded {
        Packet::Command(code, tag, payload) => {
            assert_eq!(code.inner(), 0x100);
            assert_eq!(tag.inner(), 0x0123_4567_89AB_CDEF);
            assert_eq!(payload, vec![9, 8, 7]);
        }
        other => panic!("wrong variant: {:?}", other),
    }
}

#[test]
fn reply_round_trip() {
    let packet = Packet::Reply(Tag::new(42), vec![0xFF, 0x00, 0xFF]);
    let bytes = encode_packet(&packet);
    let (decoded, consumed) = decode_packet(&bytes).expect("whole frame");
    assert_eq!(consumed, bytes.len());
    match decoded {
        Packet::Reply(tag, payload) => {
            assert_eq!(tag.inner(), 42);
            assert_eq!(payload, vec![0xFF, 0x00, 0xFF]);
        }
        other => panic!("wrong variant: {:?}", other),
    }
}

#[test]
fn truncated_frames_ask_for_more() {
    let packet = Packet::Command(CommandCode::new(0x102), Tag::new(7), vec![1, 2, 3]);
    let bytes = encode_packet(&packet);
    for n in 0..bytes.len() {
        let prefix: Vec<u8> = bytes[..n].to_vec();
        assert_eq!(decode_packet(&prefix), Err(DecodeError::Incomplete));
    }
}

#[test]
fn unknown_identifier_is_rejected() {
    let bytes = vec![0x09, 0x00, 0x00, 0x00, 0x01];
    assert_eq!(decode_packet(&bytes), Err(DecodeError::UnknownIdentifier(0x09)));
}

#[test]
fn decode_consumes_one_frame_from_the_front() {
    let first = encode_packet(&Packet::Event(EventCode::new(1), vec![0xAB]));
    let second = encode_packet(&Packet::Reply(Tag::new(3), vec![]));
    let mut stream = first.clone();
    stream.extend_from_slice(&second);
    let (decoded, consumed) = decode_packet(&stream).expect("first frame");
    assert_eq!(consumed, first.len());
    assert!(matches!(decoded, Packet::Event(_, _)));
}

#[test]
fn length_prefix_spans_multiple_bytes() {
    let payload: Vec<u8> = (0..300).map(|i| (i % 251) as u8).collect();
    let packet = Packet::Event(EventCode::new(2), payload.clone());
    let bytes = encode_packet(&packet);
    // identifier + code + the 32-bit length 0x0000012C + the payload
    assert_eq!(bytes.len(), 9 + 300);
    assert_eq!(&bytes[5..9], &[0x00, 0x00, 0x01, 0x2C]);
    let (decoded, consumed) = decode_packet(&bytes).expect("whole frame");
    assert_eq!(consumed, bytes.len());
    assert_eq!(decoded, Packet::Event(EventCode::new(2), payload));
}
