use yubihsm::codec::CodecError;
use yubihsm::command::{CommandCode, CommandMessage, MAX_MSG_SIZE};
use yubihsm::response::{HsmErrorKind, ResponseCode, ResponseMessage};

#[test]
fn command_frame_has_code_length_and_payload() {
    let message = CommandMessage::new(CommandCode::Echo, b"hello".to_vec()).unwrap();
    assert_eq!(message.serialize(), vec![0x01, 0x00, 0x05, b'h', b'e', b'l', b'l', b'o']);
}

#[test]
fn command_frame_round_trip() {
    let message = CommandMessage::new(CommandCode::GetOpaqueObject, vec![0x12, 0x34]).unwrap();
    let parsed = CommandMessage::parse(&message.serialize()).unwrap();
    assert_eq!(parsed.command_type, CommandCode::GetOpaqueObject);
    assert_eq!(parsed.session_id, None);
    assert_eq!(parsed.data, vec![0x12, 0x34]);
    assert_eq!(parsed.mac, None);
}

#[test]
fn session_frame_carries_session_number_and_tag() {
    let message: CommandMessage = CommandMessage {
        command_type: CommandCode::SessionMessage,
        session_id: Some(3),
        data: vec![0xaa; 16],
        mac: Some(vec![1, 2, 3, 4, 5, 6, 7, 8]),
    };
    let bytes = message.serialize();
    assert_eq!(bytes.len(), 3 + 1 + 16 + 8);
    assert_eq!(&bytes[..4], &[0x05, 0x00, 25, 3]);
    assert_eq!(&bytes[20..], &[1, 2, 3, 4, 5, 6, 7, 8]);
    let parsed = CommandMessage::parse(&bytes).unwrap();
    assert_eq!(parsed.session_id, Some(3));
    assert_eq!(parsed.data, vec![0xaa; 16]);
    assert_eq!(parsed.mac, Some(vec![1, 2, 3, 4, 5, 6, 7, 8]));
}

#[test]
fn command_frame_errors() {
    assert_eq!(CommandMessage::parse(&[]).err(), Some(CodecError::UnexpectedEof));
    assert_eq!(CommandMessage::parse(&[0x01, 0x00]).err(), Some(CodecError::UnexpectedEof));
    assert_eq!(CommandMessage::parse(&[0x02, 0x00, 0x00]).err(), Some(CodecError::InvalidTag));
    assert_eq!(CommandMessage::parse(&[0x01, 0x00, 0x02, 0xaa]).err(), Some(CodecError::UnexpectedEof));
    assert_eq!(
        CommandMessage::parse(&[0x01, 0x00, 0x01, 0xaa, 0xbb]).err(),
        Some(CodecError::TrailingBytes)
    );
    assert_eq!(
        CommandMessage::parse(&[0x05, 0x00, 0x08, 0, 1, 2, 3, 4, 5, 6, 7]).err(),
        Some(CodecError::UnexpectedEof)
    );
}

#[test]
fn command_frame_must_fit_the_device_buffer() {
    assert!(CommandMessage::new(CommandCode::Echo, vec![0; MAX_MSG_SIZE - 4]).is_some());
    assert!(CommandMessage::new(CommandCode::Echo, vec![0; MAX_MSG_SIZE - 3]).is_none());
    assert!(CommandMessage::new(CommandCode::Echo, vec![0; MAX_MSG_SIZE]).is_none());
}

#[test]
fn every_command_code_round_trips_and_leaves_the_high_bit_free() {
    let mut known = 0;
    for byte in 0..=255u8 {
        if let Some(code) = CommandCode::from_u8(byte) {
            known += 1;
            assert_eq!(code.to_u8(), byte);
            assert!(byte < 0x80);
        }
    }
    assert_eq!(known, 53);
    assert_eq!(CommandCode::Echo.to_u8(), 0x01);
    assert_eq!(CommandCode::CreateSession.to_u8(), 0x03);
    assert_eq!(CommandCode::AuthenticateSession.to_u8(), 0x04);
    assert_eq!(CommandCode::SessionMessage.to_u8(), 0x05);
    assert_eq!(CommandCode::CloseSession.to_u8(), 0x40);
    assert_eq!(CommandCode::SignEddsa.to_u8(), 0x6a);
    assert_eq!(CommandCode::Error.to_u8(), 0x7f);
}

#[test]
fn response_code_sets_the_high_bit() {
    assert_eq!(ResponseCode::Success(CommandCode::Echo).to_u8(), 0x81);
    assert_eq!(ResponseCode::Success(CommandCode::SessionMessage).to_u8(), 0x85);
    assert_eq!(ResponseCode::DeviceError.to_u8(), 0x7f);
    assert_eq!(ResponseCode::from_u8(0x81), Some(ResponseCode::Success(CommandCode::Echo)));
    assert_eq!(ResponseCode::from_u8(0x01), None);
    assert_eq!(ResponseCode::from_u8(0x82), None);
}

#[test]
fn response_is_an_error_exactly_if_low_seven_bits_are_7f() {
    for byte in 0..=255u8 {
        let is_error = matches!(ResponseCode::from_u8(byte), Some(ResponseCode::DeviceError));
        assert_eq!(is_error, byte & 0x7f == 0x7f);
    }
}

#[test]
fn error_response_names_the_kind_of_failure() {
    let message = ResponseMessage::error(HsmErrorKind::ObjectNotFound);
    assert!(message.is_err());
    assert_eq!(message.serialize(), vec![0x7f, 0x00, 0x01, 0x0b]);
    let parsed = ResponseMessage::parse(&[0x7f, 0x00, 0x01, 0x0b]).unwrap();
    assert!(parsed.is_err());
    assert_eq!(parsed.command(), None);
    assert_eq!(parsed.hsm_error(), Some(HsmErrorKind::ObjectNotFound));
    let unknown = ResponseMessage::parse(&[0x7f, 0x00, 0x01, 0x0d]).unwrap();
    assert_eq!(unknown.hsm_error(), None);
}

#[test]
fn every_error_kind_round_trips() {
    let kinds = [
        (HsmErrorKind::InvalidCommand, 0x01),
        (HsmErrorKind::InvalidData, 0x02),
        (HsmErrorKind::InvalidSession, 0x03),
        (HsmErrorKind::AuthFail, 0x04),
        (HsmErrorKind::SessionsFull, 0x05),
        (HsmErrorKind::SessionFailed, 0x06),
        (HsmErrorKind::StorageFailed, 0x07),
        (HsmErrorKind::WrongLength, 0x08),
        (HsmErrorKind::InsufficientPermissions, 0x09),
        (HsmErrorKind::LogFull, 0x0a),
        (HsmErrorKind::ObjectNotFound, 0x0b),
        (HsmErrorKind::InvalidId, 0x0c),
        (HsmErrorKind::SshCaConstraintViolation, 0x0e),
        (HsmErrorKind::InvalidOtp, 0x0f),
        (HsmErrorKind::DemoMode, 0x10),
        (HsmErrorKind::CommandUnexecuted, 0xff),
    ];
    for (kind, byte) in kinds {
        assert_eq!(kind.to_u8(), byte);
        assert_eq!(HsmErrorKind::from_u8(byte), Some(kind));
    }
    let known = (0..=255u8).filter(|b| HsmErrorKind::from_u8(*b).is_some()).count();
    assert_eq!(known, 16);
}

#[test]
fn response_frame_round_trip() {
    let message = ResponseMessage::success(CommandCode::Echo, b"hello".to_vec());
    assert!(message.is_well_formed());
    let bytes = message.serialize();
    assert_eq!(bytes, vec![0x81, 0x00, 0x05, b'h', b'e', b'l', b'l', b'o']);
    let parsed = ResponseMessage::parse(&bytes).unwrap();
    assert_eq!(parsed.command(), Some(CommandCode::Echo));
    assert_eq!(parsed.data, b"hello".to_vec());
    assert_eq!(parsed.session_id, None);
    assert_eq!(parsed.mac, None);
}

#[test]
fn response_frame_errors() {
    assert_eq!(ResponseMessage::parse(&[0x81]).err(), Some(CodecError::UnexpectedEof));
    assert_eq!(ResponseMessage::parse(&[0x00, 0x00, 0x00]).err(), Some(CodecError::InvalidTag));
    assert_eq!(ResponseMessage::parse(&[0x81, 0x00, 0x01]).err(), Some(CodecError::UnexpectedEof));
    assert_eq!(
        ResponseMessage::parse(&[0x81, 0x00, 0x00, 0x01]).err(),
        Some(CodecError::TrailingBytes)
    );
    assert_eq!(ResponseMessage::parse(&[0x83, 0x00, 0x00]).err(), Some(CodecError::UnexpectedEof));
    assert_eq!(
        ResponseMessage::parse(&[0x85, 0x00, 0x03, 0x00, 0x01, 0x02]).err(),
        Some(CodecError::UnexpectedEof)
    );
}

#[test]
fn session_response_carries_session_number_and_tag() {
    let mut bytes = vec![0x85, 0x00, 25, 7];
    bytes.extend_from_slice(&[0x55; 16]);
    bytes.extend_from_slice(&[9, 8, 7, 6, 5, 4, 3, 2]);
    let parsed = ResponseMessage::parse(&bytes).unwrap();
    assert_eq!(parsed.command(), Some(CommandCode::SessionMessage));
    assert_eq!(parsed.session_id, Some(7));
    assert_eq!(parsed.data, vec![0x55; 16]);
    assert_eq!(parsed.mac, Some(vec![9, 8, 7, 6, 5, 4, 3, 2]));
    assert!(parsed.is_well_formed());
    assert_eq!(parsed.serialize(), bytes);
}
