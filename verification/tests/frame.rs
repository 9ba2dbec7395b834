use swim_core::frame::{
    apply_mask, CodecFlags, FrameHeader, HeaderFlags, HeaderRead, OpCode, ProtocolError, FIN,
    ROLE, RSV_1,
};

const SERVER: CodecFlags = CodecFlags { bits: ROLE };
const CLIENT: CodecFlags = CodecFlags { bits: 0 };

#[test]
fn opcodes() {
    assert_eq!(OpCode::try_from_u8(0), Ok(OpCode::Continuation));
    assert_eq!(OpCode::try_from_u8(1), Ok(OpCode::Text));
    assert_eq!(OpCode::try_from_u8(2), Ok(OpCode::Binary));
    assert_eq!(OpCode::try_from_u8(8), Ok(OpCode::Close));
    assert_eq!(OpCode::try_from_u8(9), Ok(OpCode::Ping));
    assert_eq!(OpCode::try_from_u8(10), Ok(OpCode::Pong));
    assert_eq!(OpCode::try_from_u8(3), Err(ProtocolError::OpCode(3)));
    assert_eq!(OpCode::try_from_u8(15), Err(ProtocolError::OpCode(15)));
    assert!(OpCode::Ping.is_control());
    assert!(!OpCode::Text.is_control());
}

#[test]
fn header_flags() {
    assert_eq!(HeaderFlags::from_bits_truncate(0x81).bits, 0x80);
    assert!(HeaderFlags::from_bits_truncate(0x81).is_fin());
    assert!(!HeaderFlags::from_bits_truncate(0x01).is_fin());
    assert!(SERVER.is_server());
    assert!(!CLIENT.is_server());
}

#[test]
fn incomplete_headers_say_how_much_is_missing() {
    assert_eq!(FrameHeader::read_from(&[], &SERVER, 1024), Ok(HeaderRead::Incomplete(2)));
    assert_eq!(FrameHeader::read_from(&[0x81], &SERVER, 1024), Ok(HeaderRead::Incomplete(1)));
    assert_eq!(FrameHeader::read_from(&[0x81, 0x85, 1], &SERVER, 1024), Ok(HeaderRead::Incomplete(3)));
    assert_eq!(FrameHeader::read_from(&[0x82, 0x7E, 1], &CLIENT, 1024), Ok(HeaderRead::Incomplete(1)));
    assert_eq!(FrameHeader::read_from(&[0x82, 0x7F, 0, 0, 0], &CLIENT, 1024), Ok(HeaderRead::Incomplete(5)));
}

#[test]
fn masked_text_frame_to_server() {
    let bytes = [0x81, 0x85, 0x37, 0xfa, 0x21, 0x3d, 0x7f, 0x9f, 0x4d, 0x51, 0x58];
    let expected = HeaderRead::Complete(
        FrameHeader { opcode: OpCode::Text, flags: HeaderFlags { bits: FIN }, mask: Some(0x37fa213d) },
        6,
        5,
    );
    assert_eq!(FrameHeader::read_from(&bytes, &SERVER, 1024), Ok(expected));
    // Unmasking the payload gives "Hello" (RFC 6455, 5.7).
    let mut payload = bytes[6..].to_vec();
    apply_mask(0x37fa213d, &mut payload);
    assert_eq!(payload, b"Hello".to_vec());
}

#[test]
fn extended_lengths_to_client() {
    let expected = HeaderRead::Complete(
        FrameHeader { opcode: OpCode::Binary, flags: HeaderFlags { bits: FIN }, mask: None },
        4,
        256,
    );
    assert_eq!(FrameHeader::read_from(&[0x82, 0x7E, 0x01, 0x00], &CLIENT, 1024), Ok(expected));
    let expected = HeaderRead::Complete(
        FrameHeader { opcode: OpCode::Binary, flags: HeaderFlags { bits: FIN }, mask: None },
        10,
        65536,
    );
    let bytes = [0x82, 0x7F, 0, 0, 0, 0, 0, 1, 0, 0];
    assert_eq!(FrameHeader::read_from(&bytes, &CLIENT, 1 << 20), Ok(expected));
    assert_eq!(FrameHeader::read_from(&bytes, &CLIENT, 65535), Err(ProtocolError::FrameOverflow));
}

#[test]
fn protocol_errors() {
    assert_eq!(FrameHeader::read_from(&[0x83, 0x80], &SERVER, 1024), Err(ProtocolError::OpCode(3)));
    assert_eq!(FrameHeader::read_from(&[0x09, 0x80], &SERVER, 1024), Err(ProtocolError::FragmentedControl));
    assert_eq!(FrameHeader::read_from(&[0xC1, 0x80], &SERVER, 1024), Err(ProtocolError::UnknownExtension));
    // The extension bit is accepted once negotiated.
    let negotiated = CodecFlags { bits: ROLE | RSV_1 };
    assert!(matches!(
        FrameHeader::read_from(&[0xC1, 0x80, 0, 0, 0, 0], &negotiated, 1024),
        Ok(HeaderRead::Complete(_, 6, 0))
    ));
    assert_eq!(FrameHeader::read_from(&[0x81, 0x05], &SERVER, 1024), Err(ProtocolError::UnmaskedFrame));
    assert_eq!(FrameHeader::read_from(&[0x81, 0x85], &CLIENT, 1024), Err(ProtocolError::MaskedFrame));
    assert_eq!(FrameHeader::read_from(&[0x81, 0x05], &CLIENT, 4), Err(ProtocolError::FrameOverflow));
}

#[test]
fn header_read_ignores_following_bytes() {
    let header = [0x82, 0x7E, 0x01, 0x00];
    let mut longer = header.to_vec();
    longer.extend_from_slice(&[9, 9, 9]);
    assert_eq!(
        FrameHeader::read_from(&header, &CLIENT, 1024),
        FrameHeader::read_from(&longer, &CLIENT, 1024)
    );
}

#[test]
fn masking_twice_restores() {
    let payload = b"some payload bytes".to_vec();
    let mut data = payload.clone();
    apply_mask(0xdeadbeef, &mut data);
    assert_ne!(data, payload);
    assert_eq!(data[0], payload[0] ^ 0xde);
    assert_eq!(data[5], payload[5] ^ 0xad);
    apply_mask(0xdeadbeef, &mut data);
    assert_eq!(data, payload);
}
