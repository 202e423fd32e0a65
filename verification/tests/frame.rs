use epp_client::frame::{
    decode_length, encode_length, payload_length, read_frame, write_frame, FrameError,
    DEFAULT_MAX_FRAME,
};

#[test]
fn prefix_is_big_endian_total_length() {
    let frame = write_frame(b"<epp/>", DEFAULT_MAX_FRAME).unwrap();
    assert_eq!(&frame[..4], &[0u8, 0, 0, 10]);
    assert_eq!(&frame[4..], b"<epp/>");
}

#[test]
fn frame_round_trip() {
    let payload: Vec<u8> = (0..700u32).map(|i| (i % 251) as u8).collect();
    let frame = write_frame(&payload, DEFAULT_MAX_FRAME).unwrap();
    assert_eq!(frame.len(), 704);
    assert_eq!(&frame[..4], &[0u8, 0, 2, 0xc0]);
    assert_eq!(read_frame(&frame, DEFAULT_MAX_FRAME).unwrap(), payload);
}

#[test]
fn read_frame_ignores_what_follows_the_frame() {
    let mut stream = write_frame(b"first", 64).unwrap();
    stream.extend_from_slice(&write_frame(b"second", 64).unwrap());
    assert_eq!(read_frame(&stream, 64).unwrap(), b"first".to_vec());
}

#[test]
fn write_frame_rejects_a_payload_over_the_cap() {
    assert_eq!(write_frame(b"12345678", 12).unwrap().len(), 12);
    assert_eq!(write_frame(b"123456789", 12), Err(FrameError::Framing));
    assert_eq!(write_frame(b"x", 3), Err(FrameError::Framing));
}

#[test]
fn read_frame_rejects_a_total_below_five() {
    assert_eq!(read_frame(&[0, 0, 0, 4], 64), Err(FrameError::Framing));
    assert_eq!(read_frame(&[0, 0, 0, 0, 1, 2], 64), Err(FrameError::Framing));
}

#[test]
fn read_frame_rejects_a_total_over_the_cap() {
    assert_eq!(read_frame(&[0, 0, 0, 65, 1], 64), Err(FrameError::Framing));
    assert_eq!(read_frame(&[1, 0, 0, 0, 1], DEFAULT_MAX_FRAME), Err(FrameError::Framing));
}

#[test]
fn read_frame_reports_a_stream_that_ends_early() {
    assert_eq!(read_frame(&[], 64), Err(FrameError::Truncated));
    assert_eq!(read_frame(&[0, 0, 0], 64), Err(FrameError::Truncated));
    assert_eq!(read_frame(&[0, 0, 0, 8, 1, 2, 3], 64), Err(FrameError::Truncated));
    assert_eq!(read_frame(&[0, 0, 0, 8, 1, 2, 3, 4], 64), Ok(vec![1, 2, 3, 4]));
}

#[test]
fn length_prefix_codec() {
    assert_eq!(encode_length(0x0102_0304), [1, 2, 3, 4]);
    assert_eq!(decode_length(&[1, 2, 3, 4]), 0x0102_0304);
    assert_eq!(decode_length(&encode_length(1_048_576)), 1_048_576);
    assert_eq!(payload_length(&[0, 0, 0, 5], 64), Ok(1));
    assert_eq!(payload_length(&[0, 0, 0, 64], 64), Ok(60));
    assert_eq!(payload_length(&[0, 0, 0, 4], 64), Err(FrameError::Framing));
    assert_eq!(payload_length(&[0, 0, 0, 65], 64), Err(FrameError::Framing));
}
