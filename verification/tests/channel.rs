use aes::cipher::generic_array::GenericArray;
use aes::cipher::{BlockEncrypt, KeyInit};
use cmac::Mac;
use yubihsm::command::{CommandCode, CommandMessage};
use yubihsm::error::{ErrorCause, SessionErrorKind};
use yubihsm::response::{HsmErrorKind, ResponseMessage};
use yubihsm::scp03::{add_padding, compute_iv, derive_key, remove_padding, zero_bytes,
    AuthenticationKey, Credentials};
use yubihsm::securechannel::{Channel, SecurityLevel};

fn key() -> AuthenticationKey {
    AuthenticationKey::from_slice(&(0u8..32).collect::<Vec<u8>>()).unwrap()
}

fn pair() -> (Channel, Channel) {
    let host = Channel::new(3, &key(), &[1; 8], &[2; 8]);
    let device = Channel::new(3, &key(), &[1; 8], &[2; 8]);
    (host, device)
}

fn open_pair() -> (Channel, Channel) {
    let (mut host, mut device) = pair();
    let command = host.authenticate_session().unwrap();
    let response = device.verify_authenticate_session(&command).unwrap();
    host.finish_authenticate_session(&response).unwrap();
    (host, device)
}

fn cmac(key: &[u8], data: &[u8]) -> Vec<u8> {
    let mut mac = <cmac::Cmac<aes::Aes128> as Mac>::new_from_slice(key).unwrap();
    mac.update(data);
    mac.finalize().into_bytes().to_vec()
}

#[test]
fn padding_appends_0x80_and_zeros_to_the_block_boundary() {
    let mut expected = vec![0x80];
    expected.extend_from_slice(&[0; 15]);
    assert_eq!(add_padding(b""), expected);
    let mut expected = b"hello".to_vec();
    expected.push(0x80);
    expected.extend_from_slice(&[0; 10]);
    assert_eq!(add_padding(b"hello"), expected);
    let mut expected = vec![7; 15];
    expected.push(0x80);
    assert_eq!(add_padding(&[7; 15]), expected);
    let padded = add_padding(&[7; 16]);
    assert_eq!(padded.len(), 32);
    assert_eq!(padded[16], 0x80);
    assert!(padded[17..].iter().all(|b| *b == 0));
}

#[test]
fn padding_comes_off_again() {
    for len in 0..50usize {
        let message: Vec<u8> = (0..len).map(|i| (i % 3) as u8 * 0x40).collect();
        let padded = add_padding(&message);
        assert_eq!(padded.len() % 16, 0);
        assert_eq!(padded.len(), (len / 16 + 1) * 16);
        assert_eq!(remove_padding(&padded), Some(message));
    }
    assert_eq!(remove_padding(&[]), None);
    assert_eq!(remove_padding(&[0; 16]), None);
    assert_eq!(remove_padding(&[1, 2, 3, 0]), None);
    assert_eq!(remove_padding(&[1, 0x80, 0x80, 0]), Some(vec![1, 0x80]));
}

#[test]
fn static_key_must_have_thirty_two_bytes() {
    assert!(AuthenticationKey::from_slice(&[0; 31]).is_none());
    assert!(AuthenticationKey::from_slice(&[0; 33]).is_none());
    let key = AuthenticationKey::from_slice(&[5; 32]).unwrap();
    assert_eq!(key.bytes, vec![5; 32]);
    assert_eq!(key.duplicate().bytes, vec![5; 32]);
    let credentials = Credentials::new(9, key);
    assert_eq!(credentials.authentication_key_id, 9);
    assert_eq!(credentials.duplicate().authentication_key.bytes, vec![5; 32]);
    assert_eq!(zero_bytes(3), vec![0, 0, 0]);
}

#[test]
fn key_derivation_is_a_cmac_over_the_labelled_context() {
    let key = [0x2b, 0x7e, 0x15, 0x16, 0x28, 0xae, 0xd2, 0xa6, 0xab, 0xf7, 0x15, 0x88, 0x09, 0xcf,
        0x4f, 0x3c];
    let context = [0x11; 16];
    let mut data = vec![0; 11];
    data.push(0x04);
    data.push(0x00);
    data.extend_from_slice(&[0x00, 0x80]);
    data.push(0x01);
    data.extend_from_slice(&context);
    assert_eq!(derive_key(&key, 0x04, &context, 16), cmac(&key, &data));
    let mut data = vec![0; 11];
    data.push(0x00);
    data.push(0x00);
    data.extend_from_slice(&[0x00, 0x40]);
    data.push(0x01);
    data.extend_from_slice(&context);
    assert_eq!(derive_key(&key, 0x00, &context, 8), cmac(&key, &data)[..8].to_vec());
    assert_eq!(cmac(&key, b""), vec![0xbb, 0x1d, 0x69, 0x29, 0xe9, 0x59, 0x37, 0x28, 0x7f, 0xa3,
        0x7d, 0x12, 0x9b, 0x75, 0x67, 0x46]);
}

#[test]
fn session_keys_come_from_the_halves_of_the_static_key() {
    let (host, _) = pair();
    let static_key: Vec<u8> = (0u8..32).collect();
    let context = [1, 1, 1, 1, 1, 1, 1, 1, 2, 2, 2, 2, 2, 2, 2, 2];
    assert_eq!(host.context, context.to_vec());
    assert_eq!(host.enc_key, derive_key(&static_key[..16], 0x04, &context, 16));
    assert_eq!(host.mac_key, derive_key(&static_key[16..], 0x06, &context, 16));
    assert_eq!(host.rmac_key, derive_key(&static_key[16..], 0x07, &context, 16));
    assert_eq!(host.card_cryptogram(), derive_key(&host.mac_key, 0x00, &context, 8));
    assert_eq!(host.host_cryptogram(), derive_key(&host.mac_key, 0x01, &context, 8));
    assert_ne!(host.card_cryptogram(), host.host_cryptogram());
    assert_eq!(host.counter, 1);
    assert_eq!(host.mac_chaining_value, vec![0; 16]);
    assert_eq!(host.security_level, SecurityLevel::Unauthenticated);
    assert_eq!(host.id(), 3);
}

#[test]
fn iv_is_the_encrypted_counter_block() {
    let key = [0x42; 16];
    let cipher = aes::Aes128::new_from_slice(&key).unwrap();
    for counter in [1u32, 2, 0x0102_0304, u32::MAX] {
        let mut block = [0u8; 16];
        block[12..].copy_from_slice(&counter.to_be_bytes());
        let mut expected = GenericArray::clone_from_slice(&block);
        cipher.encrypt_block(&mut expected);
        assert_eq!(compute_iv(&key, counter), expected.to_vec());
    }
    assert_ne!(compute_iv(&key, 1), compute_iv(&key, 2));
}

#[test]
fn handshake_authenticates_both_ends() {
    let (mut host, mut device) = pair();
    let command = host.authenticate_session().unwrap();
    assert_eq!(command.command_type, CommandCode::AuthenticateSession);
    assert_eq!(command.session_id, Some(3));
    assert_eq!(command.data, host.host_cryptogram());
    let mut input = vec![0; 16];
    input.extend_from_slice(&[0x04, 0x00, 17, 3]);
    input.extend_from_slice(&command.data);
    let full = cmac(&host.mac_key, &input);
    assert_eq!(command.mac, Some(full[..8].to_vec()));
    assert_eq!(host.mac_chaining_value, full);
    let response = device.verify_authenticate_session(&command).unwrap();
    assert_eq!(response.command(), Some(CommandCode::AuthenticateSession));
    assert!(response.data.is_empty());
    assert_eq!(device.security_level, SecurityLevel::Authenticated);
    host.finish_authenticate_session(&response).unwrap();
    assert_eq!(host.security_level, SecurityLevel::Authenticated);
    assert_eq!(host.mac_chaining_value, device.mac_chaining_value);
    assert_eq!(host.counter, 1);
}

#[test]
fn wrong_host_cryptogram_fails_to_verify_and_ends_the_channel() {
    let (mut host, mut device) = pair();
    let mut command = host.authenticate_session().unwrap();
    command.data[0] ^= 1;
    let error = device.verify_authenticate_session(&command).unwrap_err();
    assert_eq!(error.kind, SessionErrorKind::VerifyFailed);
    assert_eq!(device.security_level, SecurityLevel::Terminated);
    assert_eq!(device.enc_key, vec![0; 16]);
    assert_eq!(device.mac_key, vec![0; 16]);
    assert_eq!(device.rmac_key, vec![0; 16]);
}

#[test]
fn wrong_confirmation_fails_authentication() {
    let (mut host, mut device) = pair();
    let command = host.authenticate_session().unwrap();
    let mut response = device.verify_authenticate_session(&command).unwrap();
    response.mac.as_mut().unwrap()[7] ^= 0x80;
    let error = host.finish_authenticate_session(&response).unwrap_err();
    assert_eq!(error.kind, SessionErrorKind::AuthFailed);
    assert_eq!(host.security_level, SecurityLevel::Terminated);
    assert_eq!(host.mac_chaining_value, vec![0; 16]);

    let (mut host, _) = pair();
    host.authenticate_session().unwrap();
    let refusal = ResponseMessage::error(HsmErrorKind::AuthFail);
    let error = host.finish_authenticate_session(&refusal).unwrap_err();
    assert_eq!(error.kind, SessionErrorKind::ResponseError);
    assert_eq!(error.cause, ErrorCause::Device(HsmErrorKind::AuthFail));
}

#[test]
fn handshake_cannot_be_repeated() {
    let (mut host, _) = open_pair();
    let error = host.authenticate_session().unwrap_err();
    assert_eq!(error.kind, SessionErrorKind::ProtocolError);
    assert_eq!(host.security_level, SecurityLevel::Authenticated);
}

#[test]
fn commands_and_responses_travel_sealed() {
    let (mut host, mut device) = open_pair();
    let chain0 = host.mac_chaining_value.clone();
    let inner = CommandMessage::new(CommandCode::Echo, b"hello".to_vec()).unwrap();
    let sealed = host.encrypt_command(inner).unwrap();
    assert_eq!(sealed.command_type, CommandCode::SessionMessage);
    assert_eq!(sealed.session_id, Some(3));
    assert_eq!(sealed.data.len(), 16);
    assert_ne!(&sealed.data[..8], &[0x01, 0x00, 0x05, b'h', b'e', b'l', b'l', b'o']);
    assert_eq!(host.counter, 2);
    assert_eq!(host.pending, Some(CommandCode::Echo));
    let mut input = chain0.clone();
    input.extend_from_slice(&[0x05, 0x00, 25, 3]);
    input.extend_from_slice(&sealed.data);
    let full = cmac(&host.mac_key, &input);
    assert_eq!(sealed.mac, Some(full[..8].to_vec()));
    assert_eq!(host.mac_chaining_value, full);

    let opened = device.decrypt_command(sealed).unwrap();
    assert_eq!(opened.command_type, CommandCode::Echo);
    assert_eq!(opened.data, b"hello".to_vec());
    assert_eq!(device.counter, 1);
    assert_eq!(device.mac_chaining_value, host.mac_chaining_value);

    let answer = ResponseMessage::success(CommandCode::Echo, b"hello".to_vec());
    let sealed = device.encrypt_response(answer).unwrap();
    assert_eq!(device.counter, 2);
    let mut input = full.clone();
    input.extend_from_slice(&[0x85, 0x00, 25, 3]);
    input.extend_from_slice(&sealed.data);
    let full = cmac(&host.rmac_key, &input);
    assert_eq!(sealed.mac, Some(full[..8].to_vec()));

    let opened = host.decrypt_response(sealed).unwrap();
    assert_eq!(opened.command(), Some(CommandCode::Echo));
    assert_eq!(opened.data, b"hello".to_vec());
    assert_eq!(host.mac_chaining_value, full);
    assert_eq!(host.mac_chaining_value, device.mac_chaining_value);
    assert_eq!(host.counter, 2);
    assert_eq!(host.pending, None);
}

#[test]
fn counters_count_up_from_one() {
    let (mut host, mut device) = open_pair();
    let mut ivs = Vec::new();
    for n in 1..=5u32 {
        assert_eq!(host.counter, n);
        ivs.push(compute_iv(&host.enc_key, host.counter));
        let inner = CommandMessage::new(CommandCode::Echo, vec![n as u8]).unwrap();
        let sealed = host.encrypt_command(inner).unwrap();
        let opened = device.decrypt_command(sealed).unwrap();
        let answer = ResponseMessage::success(CommandCode::Echo, opened.data);
        let sealed = device.encrypt_response(answer).unwrap();
        let opened = host.decrypt_response(sealed).unwrap();
        assert_eq!(opened.data, vec![n as u8]);
    }
    assert_eq!(host.counter, 6);
    assert_eq!(device.counter, 6);
    for i in 0..ivs.len() {
        for j in 0..i {
            assert_ne!(ivs[i], ivs[j]);
        }
    }
}

#[test]
fn any_flipped_bit_of_a_response_is_a_response_error() {
    let (mut host, mut device) = open_pair();
    let inner = CommandMessage::new(CommandCode::Echo, b"hello".to_vec()).unwrap();
    let sealed = host.encrypt_command(inner).unwrap();
    let opened = device.decrypt_command(sealed).unwrap();
    let answer = ResponseMessage::success(CommandCode::Echo, opened.data);
    let sealed = device.encrypt_response(answer).unwrap();
    let data_len = sealed.data.len();
    for position in 0..(data_len + 8) * 8 {
        let mut host = Channel {
            id: host.id,
            security_level: host.security_level,
            counter: host.counter,
            pending: host.pending,
            enc_key: host.enc_key.clone(),
            mac_key: host.mac_key.clone(),
            rmac_key: host.rmac_key.clone(),
            mac_chaining_value: host.mac_chaining_value.clone(),
            context: host.context.clone(),
        };
        let mut tampered: ResponseMessage = ResponseMessage {
            code: sealed.code,
            session_id: sealed.session_id,
            data: sealed.data.clone(),
            mac: sealed.mac.clone(),
        };
        let (byte, bit) = (position / 8, position % 8);
        if byte < data_len {
            tampered.data[byte] ^= 1 << bit;
        } else {
            tampered.mac.as_mut().unwrap()[byte - data_len] ^= 1 << bit;
        }
        let error = host.decrypt_response(tampered).unwrap_err();
        assert_eq!(error.kind, SessionErrorKind::ResponseError);
        assert_eq!(host.security_level, SecurityLevel::Terminated);
        assert_eq!(host.enc_key, vec![0; 16]);
    }
    let wrong_session: ResponseMessage = ResponseMessage {
        code: sealed.code,
        session_id: Some(4),
        data: sealed.data.clone(),
        mac: sealed.mac.clone(),
    };
    let error = host.decrypt_response(wrong_session).unwrap_err();
    assert_eq!(error.kind, SessionErrorKind::ResponseError);
}

#[test]
fn tampered_command_fails_to_verify() {
    let (mut host, mut device) = open_pair();
    let inner = CommandMessage::new(CommandCode::Echo, b"hello".to_vec()).unwrap();
    let mut sealed = host.encrypt_command(inner).unwrap();
    sealed.data[3] ^= 0x10;
    let error = device.decrypt_command(sealed).unwrap_err();
    assert_eq!(error.kind, SessionErrorKind::VerifyFailed);
    assert_eq!(device.security_level, SecurityLevel::Terminated);
}

#[test]
fn an_answer_to_another_command_is_a_protocol_error() {
    let (mut host, mut device) = open_pair();
    let inner = CommandMessage::new(CommandCode::Echo, b"hello".to_vec()).unwrap();
    let sealed = host.encrypt_command(inner).unwrap();
    device.decrypt_command(sealed).unwrap();
    let answer = ResponseMessage::success(CommandCode::GetOpaqueObject, b"hello".to_vec());
    let sealed = device.encrypt_response(answer).unwrap();
    let error = host.decrypt_response(sealed).unwrap_err();
    assert_eq!(error.kind, SessionErrorKind::ProtocolError);
    assert_eq!(host.security_level, SecurityLevel::Terminated);
}

#[test]
fn a_failure_of_the_device_travels_sealed_and_leaves_the_channel_open() {
    let (mut host, mut device) = open_pair();
    let inner = CommandMessage::new(CommandCode::GetOpaqueObject, vec![0, 9]).unwrap();
    let sealed = host.encrypt_command(inner).unwrap();
    device.decrypt_command(sealed).unwrap();
    let sealed = device.encrypt_response(ResponseMessage::error(HsmErrorKind::ObjectNotFound)).unwrap();
    let opened = host.decrypt_response(sealed).unwrap();
    assert!(opened.is_err());
    assert_eq!(opened.hsm_error(), Some(HsmErrorKind::ObjectNotFound));
    assert_eq!(host.security_level, SecurityLevel::Authenticated);
}

#[test]
fn one_command_at_a_time() {
    let (mut host, mut device) = open_pair();
    let first = CommandMessage::new(CommandCode::Echo, vec![1]).unwrap();
    let second = CommandMessage::new(CommandCode::Echo, vec![2]).unwrap();
    host.encrypt_command(first).unwrap();
    let error = host.encrypt_command(second).unwrap_err();
    assert_eq!(error.kind, SessionErrorKind::ProtocolError);
    assert_eq!(host.counter, 2);
    let stray = ResponseMessage::success(CommandCode::Echo, vec![1]);
    let error = device.encrypt_response(stray).unwrap_err();
    assert_eq!(error.kind, SessionErrorKind::ProtocolError);
    assert_eq!(device.counter, 1);
}

#[test]
fn unauthenticated_channel_seals_nothing() {
    let (mut host, _) = pair();
    let inner = CommandMessage::new(CommandCode::Echo, vec![1]).unwrap();
    let error = host.encrypt_command(inner).unwrap_err();
    assert_eq!(error.kind, SessionErrorKind::ProtocolError);
    assert_eq!(host.counter, 1);
}

#[test]
fn exhausted_counter_seals_nothing() {
    let (mut host, _) = open_pair();
    host.counter = u32::MAX;
    let inner = CommandMessage::new(CommandCode::Echo, vec![1]).unwrap();
    let error = host.encrypt_command(inner).unwrap_err();
    assert_eq!(error.kind, SessionErrorKind::ProtocolError);
    assert_eq!(host.counter, u32::MAX);
}

#[test]
fn sealed_command_must_fit_the_device_buffer() {
    let (mut host, _) = open_pair();
    let fits = CommandMessage::new(CommandCode::Echo, vec![0; 2016]).unwrap();
    assert!(host.encrypt_command(fits).is_ok());
    let (mut host, _) = open_pair();
    let too_long = CommandMessage::new(CommandCode::Echo, vec![0; 2029]).unwrap();
    let error = host.encrypt_command(too_long).unwrap_err();
    assert_eq!(error.kind, SessionErrorKind::ProtocolError);
    assert_eq!(host.counter, 1);
}

#[test]
fn terminate_wipes_the_keys() {
    let (mut host, _) = open_pair();
    host.terminate();
    assert_eq!(host.security_level, SecurityLevel::Terminated);
    assert_eq!(host.enc_key, vec![0; 16]);
    assert_eq!(host.mac_key, vec![0; 16]);
    assert_eq!(host.rmac_key, vec![0; 16]);
    assert_eq!(host.mac_chaining_value, vec![0; 16]);
    assert_eq!(host.pending, None);
}
