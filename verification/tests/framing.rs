use waydraw::framing::{frame_message, LengthPrefixReader, PrefixStep};

fn read_length(bytes: &[u8]) -> Option<u32> {
    let mut reader = LengthPrefixReader::new();
    for b in bytes {
        match reader.step(Some(*b)) {
            PrefixStep::Pending(next) => reader = next,
            PrefixStep::Ended => return None,
            PrefixStep::Complete(n) => return Some(n),
        }
    }
    match reader.step(None) {
        PrefixStep::Ended => None,
        _ => panic!("a finished stream must end the reading"),
    }
}

#[test]
fn frame_of_one_byte_message() {
    assert_eq!(frame_message(&[0x01]), vec![0x00, 0x00, 0x00, 0x01, 0x01]);
}

#[test]
fn frame_of_empty_message() {
    assert_eq!(frame_message(&[]), vec![0, 0, 0, 0]);
}

#[test]
fn frame_of_longer_message() {
    let message = vec![7u8; 300];
    let frame = frame_message(&message);
    assert_eq!(&frame[..4], &[0, 0, 0x01, 0x2c]);
    assert_eq!(&frame[4..], &message[..]);
}

#[test]
fn reader_decodes_length_of_written_frame() {
    for len in [0usize, 1, 9, 255, 256, 70_000] {
        let message = vec![3u8; len];
        let frame = frame_message(&message);
        assert_eq!(read_length(&frame), Some(len as u32));
    }
}

#[test]
fn reader_ends_when_stream_ends_early() {
    assert_eq!(read_length(&[]), None);
    assert_eq!(read_length(&[0, 0, 1]), None);
}

#[test]
fn reader_takes_big_endian_bytes() {
    assert_eq!(read_length(&[0x12, 0x34, 0x56, 0x78]), Some(0x1234_5678));
    assert_eq!(read_length(&[0xff, 0xff, 0xff, 0xff, 0x00]), Some(u32::MAX));
}
