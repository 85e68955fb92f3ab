use yubihsm::algorithm::{Algorithm, AsymmetricAlg, HmacAlg, MgfAlg};
use yubihsm::audit::AuditTag;
use yubihsm::codec::CodecError;
use yubihsm::command::CommandCode;
use yubihsm::commands::{Command, KeyParams};
use yubihsm::filter::{matches_all, parse_filters, serialize_filters, Filter};
use yubihsm::object::{Capability, Domain, Label, ObjectInfo, ObjectOrigin, ObjectType,
    CAPABILITY_SIGN_EDDSA};
use yubihsm::responses::Response;

fn params() -> KeyParams {
    KeyParams {
        key_id: 100,
        label: Label::new(b"test").unwrap().bytes,
        domains: Domain::all(),
        capabilities: Capability::from_bits(CAPABILITY_SIGN_EDDSA),
        algorithm: Algorithm::Asymmetric(AsymmetricAlg::Ed25519),
    }
}

fn params_bytes() -> Vec<u8> {
    let mut bytes = vec![0x00, 0x64];
    bytes.extend_from_slice(b"test");
    bytes.extend_from_slice(&[0; 36]);
    bytes.extend_from_slice(&[0xff, 0xff]);
    bytes.extend_from_slice(&[0, 0, 0, 0, 0, 0, 0x01, 0x00]);
    bytes.push(46);
    bytes
}

#[test]
fn fields_are_concatenated_in_order() {
    let delete: Command = Command::DeleteObject { object_id: 0x1234, object_type: ObjectType::AsymmetricKey };
    assert_eq!(delete.serialize(), vec![0x12, 0x34, 0x03]);
    assert_eq!(delete.command_code(), CommandCode::DeleteObject);
    let export: Command = Command::ExportWrapped {
        wrap_key_id: 1,
        object_type: ObjectType::HmacKey,
        object_id: 0x0203,
    };
    assert_eq!(export.serialize(), vec![0, 1, 5, 2, 3]);
    let echo: Command = Command::Echo { message: b"hi".to_vec() };
    assert_eq!(echo.serialize(), b"hi".to_vec());
    let empty: Command = Command::DeviceInfo;
    assert_eq!(empty.serialize(), Vec::<u8>::new());
    let random: Command = Command::GetPseudoRandom { bytes: 0x0800 };
    assert_eq!(random.serialize(), vec![0x08, 0x00]);
}

#[test]
fn generate_key_parameters_take_fifty_three_bytes() {
    let command: Command = Command::GenerateAsymmetricKey { params: params() };
    let bytes = command.serialize();
    assert_eq!(bytes.len(), 53);
    assert_eq!(bytes, params_bytes());
    match Command::deserialize(CommandCode::GenerateAsymmetricKey, &bytes).unwrap() {
        Command::GenerateAsymmetricKey { params: parsed } => {
            assert_eq!(parsed.key_id, 100);
            assert_eq!(parsed.label, params().label);
            assert_eq!(parsed.domains, Domain::all());
            assert_eq!(parsed.capabilities, Capability::from_bits(CAPABILITY_SIGN_EDDSA));
            assert_eq!(parsed.algorithm, Algorithm::Asymmetric(AsymmetricAlg::Ed25519));
        }
        _ => panic!("another command"),
    }
}

#[test]
fn put_wrap_key_has_parameters_delegated_capabilities_and_key() {
    let command: Command = Command::PutWrapKey {
        params: params(),
        delegated_capabilities: Capability::from_bits(0x0102),
        data: vec![0xaa; 16],
    };
    let bytes = command.serialize();
    let mut expected = params_bytes();
    expected.extend_from_slice(&[0, 0, 0, 0, 0, 0, 1, 2]);
    expected.extend_from_slice(&[0xaa; 16]);
    assert_eq!(bytes, expected);
    match Command::deserialize(CommandCode::PutWrapKey, &bytes).unwrap() {
        Command::PutWrapKey { params: _, delegated_capabilities, data } => {
            assert_eq!(delegated_capabilities.bits, 0x0102);
            assert_eq!(data, vec![0xaa; 16]);
        }
        _ => panic!("another command"),
    }
}

#[test]
fn set_option_carries_the_length_of_its_value() {
    let command: Command = Command::SetOption { tag: AuditTag::Command, value: vec![0x6a, 0x01] };
    assert_eq!(command.serialize(), vec![0x03, 0x00, 0x02, 0x6a, 0x01]);
    assert!(matches!(
        Command::deserialize(CommandCode::SetOption, &[0x03, 0x00, 0x02, 0x6a, 0x01]),
        Ok(Command::SetOption { tag: AuditTag::Command, .. })
    ));
    assert_eq!(
        Command::deserialize(CommandCode::SetOption, &[0x03, 0x00, 0x03, 0x6a, 0x01]).err(),
        Some(CodecError::UnexpectedEof)
    );
    assert_eq!(
        Command::deserialize(CommandCode::SetOption, &[0x03, 0x00, 0x01, 0x6a, 0x01]).err(),
        Some(CodecError::TrailingBytes)
    );
    assert_eq!(
        Command::deserialize(CommandCode::SetOption, &[0x02, 0x00, 0x00]).err(),
        Some(CodecError::InvalidTag)
    );
}

#[test]
fn sign_pss_names_its_mask_generation_function() {
    let command: Command = Command::SignPss {
        key_id: 7,
        mgf1_hash_alg: Algorithm::Mgf(MgfAlg::SHA256),
        salt_len: 32,
        digest: vec![0x11; 32],
    };
    let bytes = command.serialize();
    assert_eq!(&bytes[..5], &[0, 7, 33, 0, 32]);
    assert_eq!(bytes.len(), 37);
    assert!(matches!(
        Command::deserialize(CommandCode::SignPss, &bytes),
        Ok(Command::SignPss { key_id: 7, salt_len: 32, .. })
    ));
}

#[test]
fn decoding_errors() {
    assert_eq!(
        Command::deserialize(CommandCode::DeleteObject, &[0x12, 0x34]).err(),
        Some(CodecError::UnexpectedEof)
    );
    assert_eq!(
        Command::deserialize(CommandCode::DeleteObject, &[0x12, 0x34, 0x03, 0x00]).err(),
        Some(CodecError::TrailingBytes)
    );
    assert_eq!(
        Command::deserialize(CommandCode::DeleteObject, &[0x12, 0x34, 0x09]).err(),
        Some(CodecError::InvalidTag)
    );
    assert_eq!(
        Command::deserialize(CommandCode::DeviceInfo, &[0x00]).err(),
        Some(CodecError::TrailingBytes)
    );
    assert_eq!(
        Command::deserialize(CommandCode::Bsl, &[]).err(),
        Some(CodecError::InvalidTag)
    );
    let mut bad = params_bytes();
    bad[52] = 0;
    assert_eq!(
        Command::deserialize(CommandCode::GenerateAsymmetricKey, &bad).err(),
        Some(CodecError::InvalidTag)
    );
    assert_eq!(
        Command::deserialize(CommandCode::GenerateAsymmetricKey, &bad[..52]).err(),
        Some(CodecError::UnexpectedEof)
    );
}

#[test]
fn every_command_round_trips() {
    let commands: Vec<Command> = vec![
        Command::BlinkDevice { num_seconds: 3 },
        Command::CloseSession,
        Command::CreateSession { authentication_key_id: 1, host_challenge: vec![9; 8] },
        Command::DeleteObject { object_id: 2, object_type: ObjectType::Opaque },
        Command::DeviceInfo,
        Command::Echo { message: vec![1, 2, 3] },
        Command::ExportWrapped { wrap_key_id: 1, object_type: ObjectType::WrapKey, object_id: 2 },
        Command::GenerateAsymmetricKey { params: params() },
        Command::GenerateHmacKey { params: params() },
        Command::GenerateWrapKey { params: params(), delegated_capabilities: Capability::all() },
        Command::GetLogEntries,
        Command::GetObjectInfo { object_id: 5, object_type: ObjectType::HmacKey },
        Command::GetOpaqueObject { object_id: 5 },
        Command::GetOption { tag: AuditTag::Force },
        Command::GetPseudoRandom { bytes: 16 },
        Command::GetPublicKey { key_id: 100 },
        Command::GetStorageInfo,
        Command::ImportWrapped { wrap_key_id: 1, nonce: vec![7; 13], ciphertext: vec![8; 90] },
        Command::ListObjects { filters: vec![1, 0, 100] },
        Command::PutAsymmetricKey { params: params(), data: vec![3; 32] },
        Command::PutAuthenticationKey {
            params: params(),
            delegated_capabilities: Capability::all(),
            authentication_key: vec![4; 32],
        },
        Command::PutHmacKey { params: params(), hmac_key: vec![5; 20] },
        Command::PutOpaqueObject { params: params(), data: vec![] },
        Command::PutOtpAeadKey { params: params(), data: vec![6; 16] },
        Command::PutWrapKey {
            params: params(),
            delegated_capabilities: Capability::none(),
            data: vec![7; 16],
        },
        Command::ResetDevice,
        Command::SetLogIndex { log_index: 0xabcd },
        Command::SetOption { tag: AuditTag::Force, value: vec![1] },
        Command::SignAttestationCertificate { key_id: 1, attestation_key_id: 0 },
        Command::SignEcdsa { key_id: 1, digest: vec![1; 32] },
        Command::SignEddsa { key_id: 1, data: b"msg".to_vec() },
        Command::SignHmac { key_id: 1, data: b"msg".to_vec() },
        Command::SignPkcs1 { key_id: 1, digest: vec![2; 32] },
        Command::SignPss {
            key_id: 1,
            mgf1_hash_alg: Algorithm::Mgf(MgfAlg::SHA1),
            salt_len: 20,
            digest: vec![3; 20],
        },
        Command::UnwrapData { wrap_key_id: 1, nonce: vec![1; 13], ciphertext: vec![2; 20] },
        Command::VerifyHmac { key_id: 1, tag_and_data: vec![9; 40] },
        Command::WrapData { wrap_key_id: 1, plaintext: b"secret".to_vec() },
    ];
    assert_eq!(commands.len(), 37);
    for command in commands {
        let code = command.command_code();
        let bytes = command.serialize();
        let parsed = Command::deserialize(code, &bytes).expect("decodes");
        assert_eq!(parsed.command_code(), code);
        assert_eq!(parsed.serialize(), bytes);
        assert_eq!(command.duplicate().serialize(), bytes);
    }
}

#[test]
fn every_response_round_trips() {
    let info: ObjectInfo = ObjectInfo {
        capabilities: Capability::all(),
        object_id: 9,
        length: 3,
        domains: Domain::all(),
        object_type: ObjectType::Opaque,
        algorithm: Algorithm::Hmac(HmacAlg::SHA256),
        sequence: 0,
        origin: ObjectOrigin::Imported,
        label: vec![0x41; 40],
        delegated_capabilities: Capability::none(),
    };
    let responses: Vec<Response> = vec![
        Response::BlinkDevice,
        Response::CloseSession,
        Response::CreateSession { card_challenge: vec![1; 8], card_cryptogram: vec![2; 8] },
        Response::DeleteObject,
        Response::DeviceInfo {
            major_version: 2,
            minor_version: 1,
            build_version: 0,
            serial_number: 0x0102_0304,
            log_store_capacity: 62,
            log_store_used: 1,
            algorithms: vec![1, 2, 46],
        },
        Response::Echo { message: b"x".to_vec() },
        Response::ExportWrapped { nonce: vec![3; 13], ciphertext: vec![4; 99] },
        Response::GenerateAsymmetricKey { key_id: 1 },
        Response::GenerateHmacKey { key_id: 2 },
        Response::GenerateWrapKey { key_id: 3 },
        Response::GetLogEntries {
            unlogged_boot_events: 1,
            unlogged_auth_events: 2,
            num_entries: 1,
            entries: vec![5; 32],
        },
        Response::GetObjectInfo { info },
        Response::GetOpaqueObject { data: vec![6; 3] },
        Response::GetOption { value: vec![1] },
        Response::GetPseudoRandom { bytes: vec![7; 10] },
        Response::GetPublicKey {
            algorithm: Algorithm::Asymmetric(AsymmetricAlg::Ed25519),
            bytes: vec![8; 32],
        },
        Response::GetStorageInfo {
            total_records: 256,
            free_records: 255,
            total_pages: 1024,
            free_pages: 1000,
            page_size: 126,
        },
        Response::ImportWrapped { object_type: ObjectType::HmacKey, object_id: 7 },
        Response::ListObjects { entries: vec![0, 1, 2, 0] },
        Response::PutAsymmetricKey { key_id: 1 },
        Response::PutAuthenticationKey { key_id: 2 },
        Response::PutHmacKey { key_id: 3 },
        Response::PutOpaqueObject { object_id: 4 },
        Response::PutOtpAeadKey { key_id: 5 },
        Response::PutWrapKey { key_id: 6 },
        Response::ResetDevice { status: 1 },
        Response::SetLogIndex,
        Response::SetOption,
        Response::SignAttestationCertificate { certificate: vec![0x30, 0x82] },
        Response::SignEcdsa { signature: vec![0x30, 0x44] },
        Response::SignEddsa { signature: vec![9; 64] },
        Response::SignHmac { tag: vec![1; 32] },
        Response::SignPkcs1 { signature: vec![2; 256] },
        Response::SignPss { signature: vec![3; 256] },
        Response::UnwrapData { data: b"secret".to_vec() },
        Response::VerifyHmac { result: 1 },
        Response::WrapData { nonce: vec![4; 13], ciphertext: vec![5; 22] },
    ];
    assert_eq!(responses.len(), 37);
    for response in responses {
        let code = response.command_code();
        let bytes = response.serialize();
        let parsed = Response::deserialize(code, &bytes).expect("decodes");
        assert_eq!(parsed.command_code(), code);
        assert_eq!(parsed.serialize(), bytes);
    }
}

#[test]
fn response_payloads_are_laid_out_as_documented() {
    let info: Response = Response::DeviceInfo {
        major_version: 2,
        minor_version: 0,
        build_version: 0,
        serial_number: 2_000_000,
        log_store_capacity: 62,
        log_store_used: 62,
        algorithms: vec![1, 2],
    };
    assert_eq!(info.serialize(), vec![2, 0, 0, 0x00, 0x1e, 0x84, 0x80, 62, 62, 1, 2]);
    let storage: Response = Response::GetStorageInfo {
        total_records: 256,
        free_records: 256,
        total_pages: 1024,
        free_pages: 1024,
        page_size: 126,
    };
    assert_eq!(storage.serialize(), vec![1, 0, 1, 0, 4, 0, 4, 0, 0, 126]);
    assert_eq!(
        Response::deserialize(CommandCode::SignEddsa, &[0; 63]).err(),
        Some(CodecError::UnexpectedEof)
    );
    assert_eq!(
        Response::deserialize(CommandCode::SignEddsa, &[0; 65]).err(),
        Some(CodecError::TrailingBytes)
    );
    assert_eq!(
        Response::deserialize(CommandCode::ImportWrapped, &[0, 0, 1]).err(),
        Some(CodecError::InvalidTag)
    );
}

#[test]
fn filters_round_trip() {
    let filters: Vec<Filter> = vec![
        Filter::Id(0x0102),
        Filter::Type(ObjectType::AsymmetricKey),
        Filter::Domains(Domain::from_bits(0x0003)),
        Filter::Capabilities(Capability::from_bits(0x0100)),
        Filter::Algorithm(Algorithm::Asymmetric(AsymmetricAlg::Ed25519)),
        Filter::Label(vec![b'l'; 40]),
    ];
    let bytes = serialize_filters(&filters);
    let mut expected = vec![1, 1, 2, 2, 3, 3, 0, 3, 4, 0, 0, 0, 0, 0, 0, 1, 0, 5, 46, 6];
    expected.extend_from_slice(&[b'l'; 40]);
    assert_eq!(bytes, expected);
    let parsed = parse_filters(&bytes).unwrap();
    assert_eq!(parsed.len(), 6);
    assert_eq!(serialize_filters(&parsed), bytes);
    assert_eq!(parse_filters(&[]).unwrap().len(), 0);
    assert_eq!(parse_filters(&[7, 0]).err(), Some(CodecError::InvalidTag));
    assert_eq!(parse_filters(&[1, 0]).err(), Some(CodecError::UnexpectedEof));
    assert_eq!(parse_filters(&[2, 9]).err(), Some(CodecError::InvalidTag));
    assert_eq!(parse_filters(&[5, 0]).err(), Some(CodecError::InvalidTag));
    assert_eq!(parse_filters(&[1, 0, 1, 6, 1, 2]).err(), Some(CodecError::UnexpectedEof));
}

#[test]
fn filters_select_objects() {
    let info: ObjectInfo = ObjectInfo {
        capabilities: Capability::from_bits(0x0300),
        object_id: 7,
        length: 32,
        domains: Domain::from_bits(0x0003),
        object_type: ObjectType::AsymmetricKey,
        algorithm: Algorithm::Asymmetric(AsymmetricAlg::Ed25519),
        sequence: 0,
        origin: ObjectOrigin::Generated,
        label: Label::new(b"mine").unwrap().bytes,
        delegated_capabilities: Capability::none(),
    };
    let id: Filter = Filter::Id(7);
    let other_id: Filter = Filter::Id(8);
    let ty: Filter = Filter::Type(ObjectType::AsymmetricKey);
    let caps: Filter = Filter::Capabilities(Capability::from_bits(0x0100));
    let more_caps: Filter = Filter::Capabilities(Capability::from_bits(0x0500));
    let doms: Filter = Filter::Domains(Domain::from_bits(0x0001));
    let label: Filter = Filter::Label(Label::new(b"mine").unwrap().bytes);
    let alg: Filter = Filter::Algorithm(Algorithm::Hmac(HmacAlg::SHA256));
    assert!(id.matches(&info));
    assert!(!other_id.matches(&info));
    assert!(ty.matches(&info));
    assert!(caps.matches(&info));
    assert!(!more_caps.matches(&info));
    assert!(doms.matches(&info));
    assert!(label.matches(&info));
    assert!(!alg.matches(&info));
    assert!(matches_all(&[], &info));
    assert!(matches_all(&[id, ty, caps], &info));
    assert!(!matches_all(&[doms, other_id], &info));
}
