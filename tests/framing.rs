use padlink::framing::{decode_frame, encode_frame, FrameDecoder, FrameError};

#[test]
fn frame_has_little_endian_length_prefix() {
    let f = encode_frame(&[7, 8, 9]).unwrap();
    assert_eq!(f, vec![3, 0, 0, 0, 7, 8, 9]);
    let big = vec![1u8; 300];
    let f = encode_frame(&big).unwrap();
    assert_eq!(&f[..4], &[44, 1, 0, 0]);
    assert_eq!(f.len(), 304);
}

#[test]
fn empty_payload_frames_to_four_zero_bytes() {
    assert_eq!(encode_frame(&[]).unwrap(), vec![0, 0, 0, 0]);
    let (p, used) = decode_frame(&[0, 0, 0, 0]).unwrap();
    assert!(p.is_empty());
    assert_eq!(used, 4);
}

#[test]
fn frame_round_trip_leaves_trailing_bytes() {
    let payload = br#"{"timestamp":5}"#.to_vec();
    let mut bytes = encode_frame(&payload).unwrap();
    bytes.extend_from_slice(&[1, 2]);
    let (p, used) = decode_frame(&bytes).unwrap();
    assert_eq!(p, payload);
    assert_eq!(used, payload.len() + 4);
}

#[test]
fn short_prefix_is_rejected() {
    assert_eq!(decode_frame(&[1, 0]), Err(FrameError::IncompleteLength { available: 2 }));
    assert_eq!(decode_frame(&[]), Err(FrameError::IncompleteLength { available: 0 }));
}

#[test]
fn truncated_payload_is_rejected() {
    assert_eq!(
        decode_frame(&[10, 0, 0, 0, 1, 2, 3]),
        Err(FrameError::Truncated { declared: 10, available: 3 })
    );
}

#[test]
fn stream_closing_inside_a_payload_is_malformed() {
    let mut d = FrameDecoder::new();
    d.push(&[10, 0, 0, 0]);
    d.push(&[1, 2, 3]);
    assert_eq!(d.next_frame(), None);
    assert_eq!(d.finish(), Err(FrameError::Truncated { declared: 10, available: 3 }));
}

#[test]
fn decoder_splits_frames_arriving_in_pieces() {
    let mut stream = encode_frame(b"ab").unwrap();
    stream.extend(encode_frame(b"xyz").unwrap());
    let mut d = FrameDecoder::new();
    d.push(&stream[..3]);
    assert_eq!(d.next_frame(), None);
    d.push(&stream[3..8]);
    assert_eq!(d.next_frame(), Some(b"ab".to_vec()));
    assert_eq!(d.next_frame(), None);
    d.push(&stream[8..]);
    assert_eq!(d.next_frame(), Some(b"xyz".to_vec()));
    assert_eq!(d.next_frame(), None);
    assert_eq!(d.finish(), Ok(()));
}

#[test]
fn stream_closing_inside_a_prefix_is_malformed() {
    let mut d = FrameDecoder::new();
    d.push(&[5, 0]);
    assert_eq!(d.finish(), Err(FrameError::IncompleteLength { available: 2 }));
}
