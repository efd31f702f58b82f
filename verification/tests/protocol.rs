use kbvu::protocol::{Command, CommandParseError, Protocol, PAGE_SIZE};

fn frame_of(command: &Command) -> [u8; PAGE_SIZE] {
    Protocol::new().prepare_command(command)
}

#[test]
fn header_bytes() {
    let p = Protocol::new();
    assert_eq!(p.header(), [0x00, b'k', b'b', b'm']);
}

#[test]
fn to_data_handshake() {
    let c = Command::Handshake { status: 0x7F };
    assert_eq!(c.to_data(), vec![0x01, 0x7F]);
}

#[test]
fn to_data_rms() {
    let c = Command::RMS { left: 10, right: 200 };
    assert_eq!(c.to_data(), vec![0x02, 10, 200]);
}

#[test]
fn encode_handshake_layout() {
    let frame = frame_of(&Command::Handshake { status: 0x7F });
    let mut expected = [0u8; PAGE_SIZE];
    expected[0] = 0x00;
    expected[1] = b'k';
    expected[2] = b'b';
    expected[3] = b'm';
    expected[4] = 0x01;
    expected[5] = 0x7F;
    assert_eq!(frame, expected);
}

#[test]
fn encode_rms_layout() {
    let frame = frame_of(&Command::RMS { left: 3, right: 4 });
    let mut expected = [0u8; PAGE_SIZE];
    expected[1] = b'k';
    expected[2] = b'b';
    expected[3] = b'm';
    expected[4] = 0x02;
    expected[5] = 3;
    expected[6] = 4;
    assert_eq!(frame, expected);
}

#[test]
fn round_trip_handshake_every_status() {
    let p = Protocol::new();
    for s in 0..=255u8 {
        let c = Command::Handshake { status: s };
        let frame = p.prepare_command(&c);
        assert_eq!(p.to_command(&frame), Ok(c));
    }
}

#[test]
fn round_trip_rms_every_pair() {
    let p = Protocol::new();
    for left in 0..=255u8 {
        for right in 0..=255u8 {
            let c = Command::RMS { left, right };
            let frame = p.prepare_command(&c);
            assert_eq!(p.to_command(&frame), Ok(c));
        }
    }
}

#[test]
fn decode_ignores_leading_byte() {
    let p = Protocol::new();
    let c = Command::RMS { left: 9, right: 8 };
    let mut frame = p.prepare_command(&c);
    frame[0] = 0xAB;
    assert_eq!(p.to_command(&frame), Ok(c));
}

#[test]
fn decode_corrupted_header_byte_1() {
    let p = Protocol::new();
    let mut frame = frame_of(&Command::Handshake { status: 0x80 });
    frame[1] = b'x';
    assert_eq!(p.to_command(&frame), Err(CommandParseError::CorruptedHeader));
}

#[test]
fn decode_corrupted_header_byte_2() {
    let p = Protocol::new();
    let mut frame = frame_of(&Command::Handshake { status: 0x80 });
    frame[2] = 0x00;
    assert_eq!(p.to_command(&frame), Err(CommandParseError::CorruptedHeader));
}

#[test]
fn decode_corrupted_header_byte_3() {
    let p = Protocol::new();
    let mut frame = frame_of(&Command::RMS { left: 1, right: 2 });
    frame[3] = 0xFF;
    assert_eq!(p.to_command(&frame), Err(CommandParseError::CorruptedHeader));
}

#[test]
fn decode_truncated_frames() {
    let p = Protocol::new();
    let frame = frame_of(&Command::Handshake { status: 0x80 });
    for n in 0..4usize {
        assert_eq!(p.to_command(&frame[..n]), Err(CommandParseError::CorruptedHeader));
    }
    assert_eq!(p.to_command(&frame[..4]), Err(CommandParseError::CommandByteError));
}

#[test]
fn decode_truncated_handshake_status() {
    let p = Protocol::new();
    let frame = frame_of(&Command::Handshake { status: 0x80 });
    assert_eq!(p.to_command(&frame[..5]), Err(CommandParseError::HandshakeStatusError));
}

#[test]
fn decode_truncated_rms_values() {
    let p = Protocol::new();
    let frame = frame_of(&Command::RMS { left: 7, right: 9 });
    assert_eq!(p.to_command(&frame[..5]), Err(CommandParseError::RMSValueError(0)));
    assert_eq!(p.to_command(&frame[..6]), Err(CommandParseError::RMSValueError(1)));
}

#[test]
fn decode_undefined_command() {
    let p = Protocol::new();
    let mut frame = frame_of(&Command::Handshake { status: 0x00 });
    frame[4] = 0x33;
    assert_eq!(p.to_command(&frame), Err(CommandParseError::UndefinedCommand(0x33)));
}

#[test]
fn try_from_empty_section() {
    assert_eq!(Command::try_from(&[]), Err(CommandParseError::CommandByteError));
}

#[test]
fn message_texts() {
    assert_eq!(CommandParseError::CommandByteError.message(), "Cannot get command byte");
    assert_eq!(CommandParseError::HandshakeStatusError.message(), "Cannot get handshake status");
    assert_eq!(CommandParseError::CorruptedHeader.message(), "Corrupted header");
    assert_eq!(
        CommandParseError::RMSValueError(0).message(),
        "Cannot get rms value byte for 0 channel"
    );
    assert_eq!(
        CommandParseError::RMSValueError(1).message(),
        "Cannot get rms value byte for 1 channel"
    );
    assert_eq!(
        CommandParseError::UndefinedCommand(42).message(),
        "Undefined command with byte 42"
    );
    assert_eq!(
        CommandParseError::UndefinedCommand(255).message(),
        "Undefined command with byte 255"
    );
    assert_eq!(
        CommandParseError::UndefinedCommand(107).message(),
        "Undefined command with byte 107"
    );
}
