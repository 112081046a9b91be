use h2frame::error::FrameError;
use h2frame::frame::{
    FrameFlags, FrameReader, FrameType, FrameWriter, END_HEADERS, END_STREAM, HEADER_LEN,
    KNOWN_FLAGS, MAX_PAYLOAD_LEN, PADDED, PRIORITY,
};
use h2frame::utils::extract_length;

const ALL_TYPES: [FrameType; 10] = [
    FrameType::DATA,
    FrameType::HEADERS,
    FrameType::PRIORITY,
    FrameType::RSTSTREAM,
    FrameType::SETTINGS,
    FrameType::PUSHPROMISE,
    FrameType::PING,
    FrameType::GOAWAY,
    FrameType::WINDOWUPDATE,
    FrameType::CONTINUATION,
];

fn encode(frame_type: FrameType, flags: FrameFlags, stream_id: u32, payload: Vec<u8>) -> Vec<u8> {
    FrameWriter::new(frame_type, flags, stream_id, payload).serialize().unwrap()
}

#[test]
fn frame_type_codes_are_zero_to_nine_in_order() {
    for (code, frame_type) in ALL_TYPES.iter().enumerate() {
        assert_eq!(frame_type.to_byte(), code as u8);
        assert_eq!(FrameType::from_byte(code as u8), Ok(*frame_type));
    }
}

#[test]
fn frame_type_rejects_every_code_above_nine() {
    for code in 0x0au8..=0xff {
        assert_eq!(FrameType::from_byte(code), Err(FrameError::InvalidFrameType));
    }
}

#[test]
fn frame_type_converts_through_std_traits() {
    assert_eq!(FrameType::try_from(0x04u8), Ok(FrameType::SETTINGS));
    assert_eq!(FrameType::try_from(0x0au8), Err(FrameError::InvalidFrameType));
    let code: Result<u8, FrameError> = FrameType::GOAWAY.try_into();
    assert_eq!(code, Ok(0x07));
}

#[test]
fn frame_type_names() {
    let names = [
        "DATA",
        "HEADERS",
        "PRIORITY",
        "RSTSTREAM",
        "SETTINGS",
        "PUSHPROMISE",
        "PING",
        "GOAWAY",
        "WINDOWUPDATE",
        "CONTINUATION",
    ];
    for (frame_type, name) in ALL_TYPES.iter().zip(names.iter()) {
        assert_eq!(frame_type.to_string(), *name);
    }
}

#[test]
fn flag_constants() {
    assert_eq!(FrameFlags::none().to_byte(), 0x00);
    assert_eq!(FrameFlags::end_stream().to_byte(), 0x01);
    assert_eq!(FrameFlags::end_headers().to_byte(), 0x04);
    assert_eq!(FrameFlags::padded().to_byte(), 0x08);
    assert_eq!(FrameFlags::priority().to_byte(), 0x20);
    assert_eq!(END_STREAM | END_HEADERS | PADDED | PRIORITY, KNOWN_FLAGS);
}

#[test]
fn flags_from_byte_drops_undefined_bits() {
    assert_eq!(FrameFlags::from_byte(0xff).to_byte(), 0x2d);
    assert_eq!(FrameFlags::from_byte(0xd2).to_byte(), 0x00);
    assert_eq!(FrameFlags::from_byte(0x05).to_byte(), 0x05);
    assert_eq!(FrameFlags::from_byte(0x03), FrameFlags::end_stream());
    for b in 0u8..=0xff {
        assert_eq!(FrameFlags::from_byte(b).to_byte(), b & 0x2d);
    }
}

#[test]
fn flags_union_and_contains() {
    let both = FrameFlags::end_headers() | FrameFlags::end_stream();
    assert_eq!(both.to_byte(), 0x05);
    assert!(both.contains(FrameFlags::end_stream()));
    assert!(both.contains(FrameFlags::end_headers()));
    assert!(both.contains(FrameFlags::none()));
    assert!(!both.contains(FrameFlags::padded()));
    assert!(!FrameFlags::end_stream().contains(both));
}

#[test]
fn new_stores_the_payload_length() {
    let frame = FrameWriter::new(FrameType::DATA, FrameFlags::padded(), 77, vec![1, 2, 3, 4, 5]);
    assert_eq!(frame.frame_type, FrameType::DATA);
    assert_eq!(frame.flags, FrameFlags::padded());
    assert_eq!(frame.stream_id, 77);
    assert_eq!(frame.payload_len, 5);
    assert_eq!(frame.payload, vec![1, 2, 3, 4, 5]);
}

#[test]
fn encode_lays_out_header_then_payload() {
    let bytes = encode(FrameType::DATA, FrameFlags::end_stream(), 1, vec![0xaa, 0xbb]);
    assert_eq!(bytes, vec![0, 0, 2, 0x00, 0x01, 0, 0, 0, 1, 0xaa, 0xbb]);

    let bytes = encode(
        FrameType::HEADERS,
        FrameFlags::end_headers() | FrameFlags::priority(),
        0x0102_0304,
        vec![9],
    );
    assert_eq!(bytes, vec![0, 0, 1, 0x01, 0x24, 0x01, 0x02, 0x03, 0x04, 9]);
}

#[test]
fn encode_writes_big_endian_length_for_each_size() {
    for len in [0usize, 1, 16384, (1 << 24) - 1] {
        let bytes = encode(FrameType::DATA, FrameFlags::none(), 3, vec![0x5a; len]);
        assert_eq!(bytes.len(), HEADER_LEN + len);
        assert_eq!(bytes[0], (len >> 16) as u8);
        assert_eq!(bytes[1], (len >> 8) as u8);
        assert_eq!(bytes[2], len as u8);
        assert_eq!(extract_length(&bytes) as usize, len);
        assert!(bytes[HEADER_LEN..].iter().all(|b| *b == 0x5a));
    }
}

#[test]
fn encode_length_field_exact_bytes() {
    assert_eq!(
        encode(FrameType::DATA, FrameFlags::none(), 0, vec![0; 16384])[..3],
        [0x00, 0x40, 0x00]
    );
    assert_eq!(
        encode(FrameType::DATA, FrameFlags::none(), 0, vec![0; 0xff_ffff])[..3],
        [0xff, 0xff, 0xff]
    );
    assert_eq!(MAX_PAYLOAD_LEN, 0xff_ffff);
}

#[test]
fn encode_clears_the_reserved_bit() {
    let bytes = encode(FrameType::PING, FrameFlags::none(), 0x8000_0001, vec![]);
    assert_eq!(bytes, vec![0, 0, 0, 0x06, 0, 0x00, 0, 0, 1]);
    let bytes = encode(FrameType::PING, FrameFlags::none(), 0xffff_ffff, vec![]);
    assert_eq!(bytes[5..9], [0x7f, 0xff, 0xff, 0xff]);
}

#[test]
fn decode_reads_every_field() {
    let frame =
        FrameReader::read_frame(&[0, 0, 3, 0x08, 0x09, 0x00, 0x00, 0x01, 0x00, 7, 8, 9]).unwrap();
    assert_eq!(frame.frame_type, FrameType::WINDOWUPDATE);
    assert_eq!(frame.flags, FrameFlags::padded() | FrameFlags::end_stream());
    assert_eq!(frame.stream_id, 256);
    assert_eq!(frame.payload_len, 3);
    assert_eq!(frame.payload, vec![7, 8, 9]);
}

#[test]
fn decode_after_encode_gives_the_frame_back() {
    let payloads: [Vec<u8>; 4] = [vec![], vec![0], vec![1, 2, 3, 4, 5, 6, 7], vec![0xee; 70000]];
    let flag_sets = [0x00u8, 0x01, 0x04, 0x08, 0x20, 0x05, 0x2d];
    let ids = [0u32, 1, 0x7fff_ffff, 0x1234_5678];
    for frame_type in ALL_TYPES {
        for payload in payloads.iter() {
            for bits in flag_sets {
                for id in ids {
                    let flags = FrameFlags::from_byte(bits);
                    let bytes = encode(frame_type, flags, id, payload.clone());
                    let back = FrameReader::read_frame(&bytes).unwrap();
                    assert_eq!(back.frame_type, frame_type);
                    assert_eq!(back.flags, flags);
                    assert_eq!(back.stream_id, id);
                    assert_eq!(back.payload_len as usize, payload.len());
                    assert_eq!(&back.payload, payload);
                }
            }
        }
    }
}

#[test]
fn round_trip_clears_reserved_bit_of_any_stream_id() {
    for id in [0x8000_0000u32, 0x8000_0001, 0xffff_ffff, 0xdead_beef, 5, 0] {
        let bytes = encode(FrameType::RSTSTREAM, FrameFlags::none(), id, vec![1, 2, 3, 4]);
        let back = FrameReader::read_frame(&bytes).unwrap();
        assert_eq!(back.stream_id, id & 0x7fff_ffff);
    }
}

#[test]
fn decode_clears_reserved_bit_and_drops_undefined_flags() {
    let frame = FrameReader::read_frame(&[0, 0, 0, 0x00, 0xff, 0x80, 0, 0, 5]).unwrap();
    assert_eq!(frame.stream_id, 5);
    assert_eq!(frame.flags.to_byte(), 0x2d);
    let frame = FrameReader::read_frame(&[0, 0, 0, 0x00, 0x12, 0xff, 0xff, 0xff, 0xff]).unwrap();
    assert_eq!(frame.stream_id, 0x7fff_ffff);
    assert_eq!(frame.flags, FrameFlags::none());
}

#[test]
fn decode_rejects_short_buffers() {
    for len in 0..HEADER_LEN {
        let buf = vec![0u8; len];
        assert_eq!(FrameReader::read_frame(&buf), Err(FrameError::BufferTooSmall));
    }
}

#[test]
fn decode_rejects_type_byte_0x0a() {
    let buf = [0, 0, 0, 0x0a, 0, 0, 0, 0, 0];
    assert_eq!(FrameReader::read_frame(&buf), Err(FrameError::InvalidFrameType));
    let buf = [0, 0, 0, 0xff, 0, 0, 0, 0, 0];
    assert_eq!(FrameReader::read_frame(&buf), Err(FrameError::InvalidFrameType));
}

#[test]
fn decode_rejects_truncated_payload() {
    let buf = [0, 0, 5, 0x00, 0, 0, 0, 0, 1, 0xaa, 0xbb];
    assert_eq!(FrameReader::read_frame(&buf), Err(FrameError::TruncatedFrame));
    let buf = [0, 0, 1, 0x04, 0, 0, 0, 0, 0];
    assert_eq!(FrameReader::read_frame(&buf), Err(FrameError::TruncatedFrame));
    let buf = [0xff, 0xff, 0xff, 0x00, 0, 0, 0, 0, 0, 1, 2, 3];
    assert_eq!(FrameReader::read_frame(&buf), Err(FrameError::TruncatedFrame));
}

#[test]
fn decode_reports_errors_in_order() {
    // Short and of unknown type: the length is checked first.
    assert_eq!(
        FrameReader::read_frame(&[0, 0, 9, 0x0a, 0]),
        Err(FrameError::BufferTooSmall)
    );
    // Unknown type and truncated: the type is checked first.
    assert_eq!(
        FrameReader::read_frame(&[0, 0, 9, 0x0a, 0, 0, 0, 0, 0]),
        Err(FrameError::InvalidFrameType)
    );
}

#[test]
fn decode_ignores_bytes_behind_the_payload() {
    let frame = FrameReader::read_frame(&[0, 0, 2, 0x06, 0, 0, 0, 0, 9, 1, 2, 3, 4, 5]).unwrap();
    assert_eq!(frame.payload_len, 2);
    assert_eq!(frame.payload, vec![1, 2]);
}

#[test]
fn extract_length_reads_first_three_bytes() {
    assert_eq!(extract_length(&[0, 0, 0]), 0);
    assert_eq!(extract_length(&[0x01, 0x02, 0x03, 0xff]), 0x01_0203);
    assert_eq!(extract_length(&[0xff, 0xff, 0xff]), 0xff_ffff);
    assert_eq!(extract_length(&[0x00, 0x40, 0x00, 0, 0, 0, 0, 0, 0]), 16384);
}

#[test]
fn error_messages() {
    assert_eq!(FrameError::InvalidFrameType.message(), "Invalid frame type");
    assert_eq!(FrameError::BufferTooSmall.message(), "Buffer too small");
    assert_eq!(FrameError::TruncatedFrame.message(), "Truncated frame");
    assert_eq!(FrameError::ConnectionClosed.message(), "Connection closed");
    assert_eq!(FrameError::HeaderEncodingFailure.message(), "Header encoding failed");
}

#[test]
fn wire_fields_are_big_endian() {
    let buf = [0xff, 0x01, 0x02, 0x03, 0x04, 0xff];
    assert_eq!(h2frame::wire::read_u16(&buf, 1), 0x0102);
    assert_eq!(h2frame::wire::read_u24(&buf, 1), 0x01_0203);
    assert_eq!(h2frame::wire::read_u32(&buf, 1), 0x0102_0304);
    assert_eq!(h2frame::wire::read_u32(&buf, 2), 0x0203_04ff);

    let mut out = vec![0xee];
    h2frame::wire::push_u16(&mut out, 0xabcd);
    h2frame::wire::push_u24(&mut out, 0x1234_5678);
    h2frame::wire::push_u32(&mut out, 0x9abc_def0);
    assert_eq!(out, vec![0xee, 0xab, 0xcd, 0x34, 0x56, 0x78, 0x9a, 0xbc, 0xde, 0xf0]);
}
