use jelly::frame::{read_varint, split_frame, FrameError, VarintReader, VarintStep};

#[test]
fn varint_single_byte() {
    assert_eq!(read_varint(&[0x05, 0xff]), Ok((5, 1)));
    assert_eq!(read_varint(&[0x00]), Ok((0, 1)));
}

#[test]
fn varint_two_bytes() {
    assert_eq!(read_varint(&[0xac, 0x02]), Ok((300, 2)));
}

#[test]
fn varint_ten_bytes_max_value() {
    let b = [0xff, 0xff, 0xff, 0xff, 0xff, 0xff, 0xff, 0xff, 0xff, 0x01];
    assert_eq!(read_varint(&b), Ok((u64::MAX, 10)));
}

#[test]
fn varint_tenth_byte_high_bits_dropped() {
    let b = [0x80, 0x80, 0x80, 0x80, 0x80, 0x80, 0x80, 0x80, 0x80, 0x7f];
    assert_eq!(read_varint(&b), Ok((1u64 << 63, 10)));
}

#[test]
fn varint_too_long() {
    let b = [0x80u8; 11];
    assert_eq!(read_varint(&b), Err(FrameError::VarintTooLong));
}

#[test]
fn varint_truncated() {
    assert_eq!(read_varint(&[0x80, 0x80]), Err(FrameError::Truncated));
    assert_eq!(read_varint(&[]), Err(FrameError::Truncated));
}

#[test]
fn varint_reader_incremental() {
    let mut r = VarintReader::new();
    assert_eq!(r.push(0xac), VarintStep::NeedMore);
    assert_eq!(r.push(0x02), VarintStep::Done(300));
    assert_eq!(r.push(0x07), VarintStep::Done(7));
    for _ in 0..9 {
        assert_eq!(r.push(0x80), VarintStep::NeedMore);
    }
    assert_eq!(r.push(0x80), VarintStep::TooLong);
    assert_eq!(r.push(0x01), VarintStep::Done(1));
}

#[test]
fn split_frame_end_of_stream() {
    assert_eq!(split_frame(&[]), Ok(None));
}

#[test]
fn split_frame_payload_bounds() {
    let b = [0x03, 1, 2, 3, 0x01, 9];
    assert_eq!(split_frame(&b), Ok(Some((1, 4))));
    assert_eq!(split_frame(&b[4..]), Ok(Some((1, 2))));
    assert_eq!(split_frame(&[0x00]), Ok(Some((1, 1))));
}

#[test]
fn split_frame_truncated_payload() {
    assert_eq!(split_frame(&[0x05, 1, 2]), Err(FrameError::Truncated));
    assert_eq!(split_frame(&[0x85]), Err(FrameError::Truncated));
}
