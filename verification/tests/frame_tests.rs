use aery::frame::{decode_frame, encode_frame, FrameError};

#[test]
fn frame_starts_with_the_length() {
    let frame = encode_frame(b"hello hello hello");
    assert_eq!(&frame[..4], &[17, 0, 0, 0]);
}

#[test]
fn frame_round_trip() {
    let payloads: Vec<Vec<u8>> = vec![Vec::new(), b"a".to_vec(), vec![7; 1000], (0..=255).collect()];
    for payload in payloads {
        assert_eq!(decode_frame(&encode_frame(&payload)), Ok(payload.clone()));
    }
}

#[test]
fn frame_too_short_is_truncated() {
    assert_eq!(decode_frame(&[1, 2]), Err(FrameError::Truncated));
    assert_eq!(decode_frame(&[]), Err(FrameError::Truncated));
}

#[test]
fn frame_with_bad_block_is_refused() {
    let mut frame = encode_frame(&vec![3; 500]);
    frame.truncate(frame.len() - 1);
    assert!(decode_frame(&frame).is_err());
    let bogus = [1, 0, 0, 0, 0x10, b'a', 0x05, 0x00];
    assert_eq!(decode_frame(&bogus), Err(FrameError::Corrupt));
}
