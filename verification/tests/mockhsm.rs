use yubihsm::algorithm::{Algorithm, AsymmetricAlg, AuthenticationAlg, EcdsaAlg, HmacAlg, KexAlg,
    MgfAlg, OpaqueAlg, RsaAlg, TemplateAlg, WrapAlg, YubicoOtpAlg};
use yubihsm::audit::{AuditOption, AuditTag};
use yubihsm::command::{CommandCode, CommandMessage};
use yubihsm::commands::{Command, KeyParams};
use yubihsm::connector::{Connector, Link};
use yubihsm::filter::{serialize_filters, Filter};
use yubihsm::mockhsm::command::{blink_device, delete_object, device_info, dispatch, echo,
    export_wrapped, export_wrapped_with, fit_answer, gen_asymmetric_key, gen_hmac_key,
    gen_wrap_key, get_log_entries, get_object_info, get_opaque, get_option, get_pseudo_random,
    get_public_key, get_storage_info, import_wrapped, list_objects, put_asymmetric_key,
    put_authentication_key, put_hmac_key, put_opaque, put_option, put_wrap_key, set_log_index,
    sign_eddsa, sign_hmac, supported_algorithms, verify_hmac};
use yubihsm::mockhsm::objects::Objects;
use yubihsm::mockhsm::state::State;
use yubihsm::mockhsm::MockHsm;
use yubihsm::object::{Capability, Domain, Label, ObjectOrigin, ObjectType, CAPABILITY_ALL,
    CAPABILITY_EXPORT_WRAPPED, CAPABILITY_SIGN_EDDSA, CAPABILITY_SIGN_HMAC};
use yubihsm::response::{HsmErrorKind, ResponseMessage};
use yubihsm::responses::Response;
use yubihsm::scp03::AuthenticationKey;
use yubihsm::session::Session;

fn params(key_id: u16, label: &[u8], capabilities: u64, algorithm: Algorithm) -> KeyParams {
    KeyParams {
        key_id,
        label: Label::new(label).unwrap().bytes,
        domains: Domain::all(),
        capabilities: Capability::from_bits(capabilities),
        algorithm,
    }
}

fn reply(response: &ResponseMessage) -> Response {
    assert!(!response.is_err(), "the device reports {:?}", response.hsm_error());
    Response::deserialize(response.command().unwrap(), &response.data).unwrap()
}

fn failure(response: &ResponseMessage) -> HsmErrorKind {
    assert!(response.is_err());
    response.hsm_error().unwrap()
}

fn put_hmac(state: &mut State, id: u16, capabilities: u64, key: &[u8]) -> ResponseMessage {
    let command: Command = Command::PutHmacKey {
        params: params(id, b"hmac", capabilities, Algorithm::Hmac(HmacAlg::SHA256)),
        hmac_key: key.to_vec(),
    };
    put_hmac_key(state, &command.serialize())
}

fn put_wrap(state: &mut State, id: u16, delegated: u64, algorithm: WrapAlg, key: &[u8]) -> ResponseMessage {
    let command: Command = Command::PutWrapKey {
        params: params(id, b"wrap", CAPABILITY_EXPORT_WRAPPED, Algorithm::Wrap(algorithm)),
        delegated_capabilities: Capability::from_bits(delegated),
        data: key.to_vec(),
    };
    put_wrap_key(state, &command.serialize())
}

#[test]
fn fresh_device_holds_the_default_authentication_key() {
    let state = State::new();
    assert_eq!(state.objects.len(), 1);
    assert_eq!(state.sessions.len(), 0);
    assert_eq!(state.force_audit, AuditOption::Off);
    assert_eq!(state.authority.bits, CAPABILITY_ALL);
    let key = state.objects.get(1, ObjectType::AuthenticationKey).unwrap();
    assert_eq!(key.info.object_id, 1);
    assert_eq!(key.info.algorithm, Algorithm::Auth(AuthenticationAlg::YUBICO_AES));
    assert_eq!(key.info.capabilities.bits, CAPABILITY_ALL);
    assert_eq!(key.info.delegated_capabilities.bits, CAPABILITY_ALL);
    assert_eq!(key.info.domains.bits, 0xffff);
    assert_eq!(key.info.length, 32);
    assert_eq!(key.info.label, Label::new(b"DEFAULT AUTHKEY").unwrap().bytes);
    assert_eq!(key.payload, AuthenticationKey::derive_from_password(b"password").bytes);
}

#[test]
fn device_reports_every_algorithm_in_order() {
    let expected = vec![
        Algorithm::Rsa(RsaAlg::PKCS1_SHA1),
        Algorithm::Rsa(RsaAlg::PKCS1_SHA256),
        Algorithm::Rsa(RsaAlg::PKCS1_SHA384),
        Algorithm::Rsa(RsaAlg::PKCS1_SHA512),
        Algorithm::Rsa(RsaAlg::PSS_SHA1),
        Algorithm::Rsa(RsaAlg::PSS_SHA256),
        Algorithm::Rsa(RsaAlg::PSS_SHA384),
        Algorithm::Rsa(RsaAlg::PSS_SHA512),
        Algorithm::Asymmetric(AsymmetricAlg::RSA_2048),
        Algorithm::Asymmetric(AsymmetricAlg::RSA_3072),
        Algorithm::Asymmetric(AsymmetricAlg::RSA_4096),
        Algorithm::Asymmetric(AsymmetricAlg::EC_P256),
        Algorithm::Asymmetric(AsymmetricAlg::EC_P384),
        Algorithm::Asymmetric(AsymmetricAlg::EC_P521),
        Algorithm::Asymmetric(AsymmetricAlg::EC_K256),
        Algorithm::Asymmetric(AsymmetricAlg::EC_BP256),
        Algorithm::Asymmetric(AsymmetricAlg::EC_BP384),
        Algorithm::Asymmetric(AsymmetricAlg::EC_BP512),
        Algorithm::Hmac(HmacAlg::SHA1),
        Algorithm::Hmac(HmacAlg::SHA256),
        Algorithm::Hmac(HmacAlg::SHA384),
        Algorithm::Hmac(HmacAlg::SHA512),
        Algorithm::Ecdsa(EcdsaAlg::SHA1),
        Algorithm::Kex(KexAlg::ECDH),
        Algorithm::Rsa(RsaAlg::OAEP_SHA1),
        Algorithm::Rsa(RsaAlg::OAEP_SHA256),
        Algorithm::Rsa(RsaAlg::OAEP_SHA384),
        Algorithm::Rsa(RsaAlg::OAEP_SHA512),
        Algorithm::Wrap(WrapAlg::AES128_CCM),
        Algorithm::Opaque(OpaqueAlg::DATA),
        Algorithm::Opaque(OpaqueAlg::X509_CERTIFICATE),
        Algorithm::Mgf(MgfAlg::SHA1),
        Algorithm::Mgf(MgfAlg::SHA256),
        Algorithm::Mgf(MgfAlg::SHA384),
        Algorithm::Mgf(MgfAlg::SHA512),
        Algorithm::Template(TemplateAlg::SSH),
        Algorithm::YubicoOtp(YubicoOtpAlg::AES128),
        Algorithm::Auth(AuthenticationAlg::YUBICO_AES),
        Algorithm::YubicoOtp(YubicoOtpAlg::AES192),
        Algorithm::YubicoOtp(YubicoOtpAlg::AES256),
        Algorithm::Wrap(WrapAlg::AES192_CCM),
        Algorithm::Wrap(WrapAlg::AES256_CCM),
        Algorithm::Ecdsa(EcdsaAlg::SHA256),
        Algorithm::Ecdsa(EcdsaAlg::SHA384),
        Algorithm::Ecdsa(EcdsaAlg::SHA512),
        Algorithm::Asymmetric(AsymmetricAlg::Ed25519),
        Algorithm::Asymmetric(AsymmetricAlg::EC_P224),
    ];
    assert_eq!(supported_algorithms(), expected);
    match reply(&device_info()) {
        Response::DeviceInfo {
            major_version,
            minor_version,
            build_version,
            serial_number,
            log_store_capacity,
            log_store_used,
            algorithms,
        } => {
            assert_eq!((major_version, minor_version, build_version), (2, 0, 0));
            assert_eq!(serial_number, 2_000_000);
            assert_eq!(log_store_capacity, 62);
            assert_eq!(log_store_used, 62);
            assert_eq!(algorithms, (1..=47).collect::<Vec<u8>>());
        }
        other => panic!("{:?}", other),
    }
}

#[test]
fn simple_answers() {
    assert!(matches!(reply(&echo(b"hello")), Response::Echo { ref message } if message == b"hello"));
    assert!(matches!(reply(&echo(b"")), Response::Echo { ref message } if message.is_empty()));
    assert!(matches!(
        reply(&get_storage_info()),
        Response::GetStorageInfo {
            total_records: 256,
            free_records: 256,
            total_pages: 1024,
            free_pages: 1024,
            page_size: 126
        }
    ));
    assert!(matches!(
        reply(&get_log_entries()),
        Response::GetLogEntries { unlogged_boot_events: 0, unlogged_auth_events: 0, num_entries: 0, ref entries }
            if entries.is_empty()
    ));
    assert!(matches!(reply(&blink_device(&[5])), Response::BlinkDevice));
    assert_eq!(failure(&blink_device(&[])), HsmErrorKind::InvalidCommand);
    assert!(matches!(reply(&set_log_index(&[0, 9])), Response::SetLogIndex));
    assert_eq!(failure(&set_log_index(&[9])), HsmErrorKind::InvalidCommand);
}

#[test]
fn stored_object_can_be_described_and_deleted() {
    let mut state = State::new();
    let response = put_hmac(&mut state, 200, CAPABILITY_SIGN_HMAC, &[0x0b; 20]);
    assert!(matches!(reply(&response), Response::PutHmacKey { key_id: 200 }));
    assert_eq!(state.objects.len(), 2);
    let query: Command = Command::GetObjectInfo { object_id: 200, object_type: ObjectType::HmacKey };
    match reply(&get_object_info(&state, &query.serialize())) {
        Response::GetObjectInfo { info } => {
            assert_eq!(info.object_id, 200);
            assert_eq!(info.object_type, ObjectType::HmacKey);
            assert_eq!(info.algorithm, Algorithm::Hmac(HmacAlg::SHA256));
            assert_eq!(info.capabilities.bits, CAPABILITY_SIGN_HMAC);
            assert_eq!(info.delegated_capabilities.bits, 0);
            assert_eq!(info.length, 20);
            assert_eq!(info.sequence, 0);
            assert_eq!(info.origin, ObjectOrigin::Imported);
            assert_eq!(info.label, Label::new(b"hmac").unwrap().bytes);
        }
        other => panic!("{:?}", other),
    }
    let other_type: Command = Command::GetObjectInfo { object_id: 200, object_type: ObjectType::Opaque };
    assert_eq!(failure(&get_object_info(&state, &other_type.serialize())), HsmErrorKind::ObjectNotFound);
    let delete: Command = Command::DeleteObject { object_id: 200, object_type: ObjectType::HmacKey };
    assert!(matches!(reply(&delete_object(&mut state, &delete.serialize())), Response::DeleteObject));
    assert_eq!(state.objects.len(), 1);
    assert_eq!(failure(&delete_object(&mut state, &delete.serialize())), HsmErrorKind::ObjectNotFound);
    assert_eq!(failure(&delete_object(&mut state, &[0, 200])), HsmErrorKind::InvalidCommand);
    assert_eq!(failure(&get_object_info(&state, &[0, 200, 9])), HsmErrorKind::InvalidCommand);
}

#[test]
fn collisions_are_invalid_data() {
    let mut state = State::new();
    assert!(matches!(reply(&put_hmac(&mut state, 7, 0, &[1; 20])), Response::PutHmacKey { key_id: 7 }));
    assert_eq!(failure(&put_hmac(&mut state, 7, 0, &[2; 20])), HsmErrorKind::InvalidData);
    assert_eq!(state.objects.len(), 2);
    assert_eq!(state.objects.get(7, ObjectType::HmacKey).unwrap().payload, vec![1; 20]);
    let opaque: Command = Command::PutOpaqueObject {
        params: params(7, b"same number", 0, Algorithm::Opaque(OpaqueAlg::DATA)),
        data: b"certificate".to_vec(),
    };
    assert!(matches!(
        reply(&put_opaque(&mut state, &opaque.serialize())),
        Response::PutOpaqueObject { object_id: 7 }
    ));
    let read: Command = Command::GetOpaqueObject { object_id: 7 };
    assert!(matches!(
        reply(&get_opaque(&state, &read.serialize())),
        Response::GetOpaqueObject { ref data } if data == b"certificate"
    ));
    let missing: Command = Command::GetOpaqueObject { object_id: 8 };
    assert_eq!(failure(&get_opaque(&state, &missing.serialize())), HsmErrorKind::ObjectNotFound);
}

#[test]
fn device_chooses_the_smallest_free_number_for_zero() {
    let mut state = State::new();
    assert!(matches!(reply(&put_hmac(&mut state, 0, 0, &[1; 20])), Response::PutHmacKey { key_id: 1 }));
    assert!(matches!(reply(&put_hmac(&mut state, 0, 0, &[1; 20])), Response::PutHmacKey { key_id: 2 }));
    assert!(matches!(reply(&put_hmac(&mut state, 4, 0, &[1; 20])), Response::PutHmacKey { key_id: 4 }));
    assert!(matches!(reply(&put_hmac(&mut state, 0, 0, &[1; 20])), Response::PutHmacKey { key_id: 3 }));
    assert!(matches!(reply(&put_hmac(&mut state, 0, 0, &[1; 20])), Response::PutHmacKey { key_id: 5 }));
    let delete: Command = Command::DeleteObject { object_id: 2, object_type: ObjectType::HmacKey };
    delete_object(&mut state, &delete.serialize());
    assert!(matches!(reply(&put_hmac(&mut state, 0, 0, &[1; 20])), Response::PutHmacKey { key_id: 2 }));
    let auth: Command = Command::PutAuthenticationKey {
        params: params(0, b"auth", 0, Algorithm::Auth(AuthenticationAlg::YUBICO_AES)),
        delegated_capabilities: Capability::none(),
        authentication_key: vec![9; 32],
    };
    assert!(matches!(
        reply(&put_authentication_key(&mut state, &auth.serialize())),
        Response::PutAuthenticationKey { key_id: 2 }
    ));
}

#[test]
fn generated_keys_have_the_length_of_their_algorithm() {
    let mut state = State::new();
    let asymmetric: Command = Command::GenerateAsymmetricKey {
        params: params(100, b"test", CAPABILITY_SIGN_EDDSA, Algorithm::Asymmetric(AsymmetricAlg::Ed25519)),
    };
    assert!(matches!(
        reply(&gen_asymmetric_key(&mut state, &asymmetric.serialize())),
        Response::GenerateAsymmetricKey { key_id: 100 }
    ));
    let key = state.objects.get(100, ObjectType::AsymmetricKey).unwrap();
    assert_eq!(key.payload.len(), 32);
    assert_eq!(key.info.length, 32);
    assert_eq!(key.info.origin, ObjectOrigin::Generated);
    let first = key.payload.clone();
    let hmac: Command = Command::GenerateHmacKey {
        params: params(100, b"test", 0, Algorithm::Hmac(HmacAlg::SHA512)),
    };
    assert!(matches!(
        reply(&gen_hmac_key(&mut state, &hmac.serialize())),
        Response::GenerateHmacKey { key_id: 100 }
    ));
    assert_eq!(state.objects.get(100, ObjectType::HmacKey).unwrap().payload.len(), 64);
    let wrap: Command = Command::GenerateWrapKey {
        params: params(0, b"test", 0, Algorithm::Wrap(WrapAlg::AES192_CCM)),
        delegated_capabilities: Capability::from_bits(CAPABILITY_SIGN_HMAC),
    };
    assert!(matches!(
        reply(&gen_wrap_key(&mut state, &wrap.serialize())),
        Response::GenerateWrapKey { key_id: 1 }
    ));
    let key = state.objects.get(1, ObjectType::WrapKey).unwrap();
    assert_eq!(key.payload.len(), 24);
    assert_eq!(key.info.delegated_capabilities.bits, CAPABILITY_SIGN_HMAC);
    assert_eq!(failure(&gen_asymmetric_key(&mut state, &asymmetric.serialize())), HsmErrorKind::InvalidData);
    let another: Command = Command::GenerateAsymmetricKey {
        params: params(101, b"test", 0, Algorithm::Asymmetric(AsymmetricAlg::Ed25519)),
    };
    gen_asymmetric_key(&mut state, &another.serialize());
    assert_ne!(state.objects.get(101, ObjectType::AsymmetricKey).unwrap().payload, first);
    let keyless: Command = Command::GenerateAsymmetricKey {
        params: params(102, b"test", 0, Algorithm::Mgf(MgfAlg::SHA1)),
    };
    assert_eq!(failure(&gen_asymmetric_key(&mut state, &keyless.serialize())), HsmErrorKind::InvalidData);
    assert_eq!(failure(&gen_hmac_key(&mut state, &[1, 2, 3])), HsmErrorKind::InvalidCommand);
}

#[test]
fn a_session_cannot_bestow_more_than_its_key_delegates() {
    let mut state = State::new();
    state.authority = Capability::from_bits(CAPABILITY_SIGN_HMAC);
    assert!(matches!(
        reply(&put_hmac(&mut state, 1, CAPABILITY_SIGN_HMAC, &[1; 20])),
        Response::PutHmacKey { key_id: 1 }
    ));
    assert!(matches!(reply(&put_hmac(&mut state, 2, 0, &[1; 20])), Response::PutHmacKey { key_id: 2 }));
    assert_eq!(
        failure(&put_hmac(&mut state, 3, CAPABILITY_SIGN_HMAC | CAPABILITY_SIGN_EDDSA, &[1; 20])),
        HsmErrorKind::InsufficientPermissions
    );
    let generate: Command = Command::GenerateAsymmetricKey {
        params: params(4, b"test", CAPABILITY_SIGN_EDDSA, Algorithm::Asymmetric(AsymmetricAlg::Ed25519)),
    };
    assert_eq!(
        failure(&gen_asymmetric_key(&mut state, &generate.serialize())),
        HsmErrorKind::InsufficientPermissions
    );
    assert_eq!(state.objects.len(), 3);
}

#[test]
fn objects_are_listed_in_the_order_of_the_store() {
    let mut state = State::new();
    put_hmac(&mut state, 5, CAPABILITY_SIGN_HMAC, &[1; 20]);
    put_hmac(&mut state, 3, 0, &[1; 20]);
    let asymmetric: Command = Command::PutAsymmetricKey {
        params: params(5, b"ed", CAPABILITY_SIGN_EDDSA, Algorithm::Asymmetric(AsymmetricAlg::Ed25519)),
        data: vec![7; 32],
    };
    put_asymmetric_key(&mut state, &asymmetric.serialize());
    let all: Command = Command::ListObjects { filters: vec![] };
    assert!(matches!(
        reply(&list_objects(&state, &all.serialize())),
        Response::ListObjects { ref entries } if entries == &[0, 1, 2, 0, 0, 5, 5, 0, 0, 3, 5, 0, 0, 5, 3, 0]
    ));
    let filters: Vec<Filter> = vec![Filter::Id(5)];
    let by_id: Command = Command::ListObjects { filters: serialize_filters(&filters) };
    assert!(matches!(
        reply(&list_objects(&state, &by_id.serialize())),
        Response::ListObjects { ref entries } if entries == &[0, 5, 5, 0, 0, 5, 3, 0]
    ));
    let filters: Vec<Filter> = vec![Filter::Id(5), Filter::Type(ObjectType::AsymmetricKey)];
    let by_both: Command = Command::ListObjects { filters: serialize_filters(&filters) };
    assert!(matches!(
        reply(&list_objects(&state, &by_both.serialize())),
        Response::ListObjects { ref entries } if entries == &[0, 5, 3, 0]
    ));
    let filters: Vec<Filter> = vec![Filter::Capabilities(Capability::from_bits(CAPABILITY_SIGN_HMAC))];
    let by_caps: Command = Command::ListObjects { filters: serialize_filters(&filters) };
    assert!(matches!(
        reply(&list_objects(&state, &by_caps.serialize())),
        Response::ListObjects { ref entries } if entries == &[0, 1, 2, 0, 0, 5, 5, 0]
    ));
    let filters: Vec<Filter> = vec![Filter::Label(Label::new(b"nobody").unwrap().bytes)];
    let by_label: Command = Command::ListObjects { filters: serialize_filters(&filters) };
    assert!(matches!(
        reply(&list_objects(&state, &by_label.serialize())),
        Response::ListObjects { ref entries } if entries.is_empty()
    ));
    assert_eq!(failure(&list_objects(&state, &[9, 9])), HsmErrorKind::InvalidCommand);
    assert_eq!(failure(&list_objects(&state, &[1, 0])), HsmErrorKind::InvalidCommand);
}

#[test]
fn audit_settings_are_kept() {
    let mut state = State::new();
    let force: Command = Command::GetOption { tag: AuditTag::Force };
    let single: Command = Command::GetOption { tag: AuditTag::Command };
    assert!(matches!(
        reply(&get_option(&state, &force.serialize())),
        Response::GetOption { ref value } if value == &[0]
    ));
    assert!(matches!(
        reply(&get_option(&state, &single.serialize())),
        Response::GetOption { ref value } if value.is_empty()
    ));
    let set: Command = Command::SetOption { tag: AuditTag::Force, value: vec![2] };
    assert!(matches!(reply(&put_option(&mut state, &set.serialize())), Response::SetOption));
    assert_eq!(state.force_audit, AuditOption::Fix);
    let bad: Command = Command::SetOption { tag: AuditTag::Force, value: vec![3] };
    assert_eq!(failure(&put_option(&mut state, &bad.serialize())), HsmErrorKind::InvalidCommand);
    let long: Command = Command::SetOption { tag: AuditTag::Force, value: vec![1, 1] };
    assert_eq!(failure(&put_option(&mut state, &long.serialize())), HsmErrorKind::InvalidCommand);
    assert_eq!(state.force_audit, AuditOption::Fix);
    let first: Command = Command::SetOption { tag: AuditTag::Command, value: vec![0x6a, 1] };
    let second: Command = Command::SetOption { tag: AuditTag::Command, value: vec![0x01, 2] };
    let again: Command = Command::SetOption { tag: AuditTag::Command, value: vec![0x6a, 0] };
    put_option(&mut state, &first.serialize());
    put_option(&mut state, &second.serialize());
    assert!(matches!(
        reply(&get_option(&state, &single.serialize())),
        Response::GetOption { ref value } if value == &[0x6a, 1, 0x01, 2]
    ));
    put_option(&mut state, &again.serialize());
    assert!(matches!(
        reply(&get_option(&state, &single.serialize())),
        Response::GetOption { ref value } if value == &[0x01, 2, 0x6a, 0]
    ));
    let unknown: Command = Command::SetOption { tag: AuditTag::Command, value: vec![0x02, 1] };
    assert_eq!(failure(&put_option(&mut state, &unknown.serialize())), HsmErrorKind::InvalidCommand);
    assert_eq!(failure(&get_option(&state, &[2])), HsmErrorKind::InvalidCommand);
}

#[test]
fn random_bytes_come_in_the_number_asked_for() {
    let state = State::new();
    for n in [0u16, 1, 16, 2048] {
        let command: Command = Command::GetPseudoRandom { bytes: n };
        match reply(&get_pseudo_random(&state, &command.serialize())) {
            Response::GetPseudoRandom { bytes } => assert_eq!(bytes.len(), n as usize),
            other => panic!("{:?}", other),
        }
    }
    let command: Command = Command::GetPseudoRandom { bytes: 32 };
    let first = get_pseudo_random(&state, &command.serialize()).data;
    let second = get_pseudo_random(&state, &command.serialize()).data;
    assert_ne!(first, second);
    assert_eq!(failure(&get_pseudo_random(&state, &[1])), HsmErrorKind::InvalidCommand);
}

#[test]
fn ed25519_keys_sign() {
    let mut state = State::new();
    let seed: Vec<u8> = (0u8..32).collect();
    let put: Command = Command::PutAsymmetricKey {
        params: params(10, b"ed", CAPABILITY_SIGN_EDDSA, Algorithm::Asymmetric(AsymmetricAlg::Ed25519)),
        data: seed.clone(),
    };
    put_asymmetric_key(&mut state, &put.serialize());
    let pair = ring::signature::Ed25519KeyPair::from_seed_unchecked(&seed).unwrap();
    let query: Command = Command::GetPublicKey { key_id: 10 };
    match reply(&get_public_key(&state, &query.serialize())) {
        Response::GetPublicKey { algorithm, bytes } => {
            assert_eq!(algorithm, Algorithm::Asymmetric(AsymmetricAlg::Ed25519));
            assert_eq!(bytes, ring::signature::KeyPair::public_key(&pair).as_ref().to_vec());
        }
        other => panic!("{:?}", other),
    }
    let sign: Command = Command::SignEddsa { key_id: 10, data: b"msg".to_vec() };
    match reply(&sign_eddsa(&state, &sign.serialize())) {
        Response::SignEddsa { signature } => {
            assert_eq!(signature, pair.sign(b"msg").as_ref().to_vec());
        }
        other => panic!("{:?}", other),
    }
    let missing: Command = Command::SignEddsa { key_id: 11, data: b"msg".to_vec() };
    assert_eq!(failure(&sign_eddsa(&state, &missing.serialize())), HsmErrorKind::ObjectNotFound);
    let other: Command = Command::PutAsymmetricKey {
        params: params(12, b"ec", 0, Algorithm::Asymmetric(AsymmetricAlg::EC_P256)),
        data: vec![1; 32],
    };
    put_asymmetric_key(&mut state, &other.serialize());
    let sign: Command = Command::SignEddsa { key_id: 12, data: b"msg".to_vec() };
    assert_eq!(failure(&sign_eddsa(&state, &sign.serialize())), HsmErrorKind::InvalidCommand);
    let query: Command = Command::GetPublicKey { key_id: 12 };
    assert_eq!(failure(&get_public_key(&state, &query.serialize())), HsmErrorKind::InvalidCommand);
    let query: Command = Command::GetPublicKey { key_id: 13 };
    assert_eq!(failure(&get_public_key(&state, &query.serialize())), HsmErrorKind::ObjectNotFound);
}

#[test]
fn hmac_tags_are_computed_and_verified() {
    let mut state = State::new();
    put_hmac(&mut state, 200, CAPABILITY_SIGN_HMAC, &[0x0b; 20]);
    let sign: Command = Command::SignHmac { key_id: 200, data: b"Hi There".to_vec() };
    let tag = match reply(&sign_hmac(&state, &sign.serialize())) {
        Response::SignHmac { tag } => tag,
        other => panic!("{:?}", other),
    };
    assert_eq!(tag.len(), 32);
    assert_eq!(&tag[..4], &[0xb0, 0x34, 0x4c, 0x61]);
    let mut tag_and_data = tag.clone();
    tag_and_data.extend_from_slice(b"Hi There");
    let verify: Command = Command::VerifyHmac { key_id: 200, tag_and_data: tag_and_data.clone() };
    assert!(matches!(reply(&verify_hmac(&state, &verify.serialize())), Response::VerifyHmac { result: 1 }));
    tag_and_data[39] ^= 1;
    let verify: Command = Command::VerifyHmac { key_id: 200, tag_and_data };
    assert!(matches!(reply(&verify_hmac(&state, &verify.serialize())), Response::VerifyHmac { result: 0 }));
    let short: Command = Command::VerifyHmac { key_id: 200, tag_and_data: vec![0; 31] };
    assert_eq!(failure(&verify_hmac(&state, &short.serialize())), HsmErrorKind::InvalidCommand);
    let empty: Command = Command::VerifyHmac { key_id: 200, tag_and_data: tag.clone() };
    assert!(matches!(reply(&verify_hmac(&state, &empty.serialize())), Response::VerifyHmac { result: 0 }));
    let missing: Command = Command::SignHmac { key_id: 201, data: vec![] };
    assert_eq!(failure(&sign_hmac(&state, &missing.serialize())), HsmErrorKind::ObjectNotFound);
    let sha1: Command = Command::PutHmacKey {
        params: params(202, b"sha1", 0, Algorithm::Hmac(HmacAlg::SHA1)),
        hmac_key: vec![1; 20],
    };
    put_hmac_key(&mut state, &sha1.serialize());
    let sign: Command = Command::SignHmac { key_id: 202, data: vec![] };
    assert_eq!(failure(&sign_hmac(&state, &sign.serialize())), HsmErrorKind::InvalidCommand);
}

fn export(state: &State, wrap_key_id: u16, object_type: ObjectType, object_id: u16) -> (Vec<u8>, Vec<u8>) {
    let command: Command = Command::ExportWrapped { wrap_key_id, object_type, object_id };
    match reply(&export_wrapped(state, &command.serialize())) {
        Response::ExportWrapped { nonce, ciphertext } => (nonce, ciphertext),
        other => panic!("{:?}", other),
    }
}

#[test]
fn exported_object_can_be_imported_again() {
    for (algorithm, len) in [(WrapAlg::AES128_CCM, 16), (WrapAlg::AES192_CCM, 24), (WrapAlg::AES256_CCM, 32)] {
        let mut state = State::new();
        put_wrap(&mut state, 50, CAPABILITY_ALL, algorithm, &vec![0x33; len]);
        put_hmac(&mut state, 60, CAPABILITY_SIGN_HMAC, &[0x0b; 20]);
        let (nonce, ciphertext) = export(&state, 50, ObjectType::HmacKey, 60);
        assert_eq!(nonce.len(), 13);
        assert_eq!(ciphertext.len(), 1 + 66 + 20 + 16);
        assert!(!ciphertext.windows(20).any(|w| w == [0x0b; 20]));
        let import: Command = Command::ImportWrapped { wrap_key_id: 50, nonce, ciphertext };
        assert_eq!(failure(&import_wrapped(&mut state, &import.serialize())), HsmErrorKind::InvalidCommand);
        let delete: Command = Command::DeleteObject { object_id: 60, object_type: ObjectType::HmacKey };
        delete_object(&mut state, &delete.serialize());
        assert!(matches!(
            reply(&import_wrapped(&mut state, &import.serialize())),
            Response::ImportWrapped { object_type: ObjectType::HmacKey, object_id: 60 }
        ));
        let restored = state.objects.get(60, ObjectType::HmacKey).unwrap();
        assert_eq!(restored.payload, vec![0x0b; 20]);
        assert_eq!(restored.info.capabilities.bits, CAPABILITY_SIGN_HMAC);
        assert_eq!(restored.info.origin, ObjectOrigin::WrappedImported);
        assert_eq!(restored.info.label, Label::new(b"hmac").unwrap().bytes);
    }
}

#[test]
fn import_accepts_exactly_the_capabilities_that_the_wrap_key_delegates() {
    let cases = [
        (CAPABILITY_SIGN_HMAC, CAPABILITY_SIGN_HMAC, true),
        (CAPABILITY_SIGN_HMAC | CAPABILITY_SIGN_EDDSA, CAPABILITY_SIGN_HMAC, true),
        (CAPABILITY_ALL, CAPABILITY_SIGN_HMAC | CAPABILITY_SIGN_EDDSA, true),
        (CAPABILITY_ALL, 0, true),
        (0, 0, true),
        (0, CAPABILITY_SIGN_HMAC, false),
        (CAPABILITY_SIGN_EDDSA, CAPABILITY_SIGN_HMAC, false),
        (CAPABILITY_SIGN_HMAC, CAPABILITY_SIGN_HMAC | CAPABILITY_SIGN_EDDSA, false),
    ];
    for (delegated, capabilities, accepted) in cases {
        let mut state = State::new();
        put_wrap(&mut state, 50, delegated, WrapAlg::AES128_CCM, &[0x33; 16]);
        put_hmac(&mut state, 60, capabilities, &[0x0b; 20]);
        let (nonce, ciphertext) = export(&state, 50, ObjectType::HmacKey, 60);
        let delete: Command = Command::DeleteObject { object_id: 60, object_type: ObjectType::HmacKey };
        delete_object(&mut state, &delete.serialize());
        let import: Command = Command::ImportWrapped { wrap_key_id: 50, nonce, ciphertext };
        let response = import_wrapped(&mut state, &import.serialize());
        assert_eq!(!response.is_err(), accepted);
        assert_eq!(state.objects.get(60, ObjectType::HmacKey).is_some(), accepted);
        if !accepted {
            assert_eq!(failure(&response), HsmErrorKind::InvalidCommand);
        }
    }
}

#[test]
fn import_rule_names_its_reason() {
    let mut donor = Objects::new();
    let mut store = Objects::new();
    donor
        .put(
            50,
            ObjectType::WrapKey,
            Algorithm::Wrap(WrapAlg::AES128_CCM),
            vec![0; 40],
            Capability::none(),
            Capability::from_bits(CAPABILITY_SIGN_EDDSA),
            Domain::all(),
            vec![0x33; 16],
        )
        .unwrap();
    donor
        .put(
            60,
            ObjectType::HmacKey,
            Algorithm::Hmac(HmacAlg::SHA256),
            vec![0; 40],
            Capability::from_bits(CAPABILITY_SIGN_HMAC),
            Capability::none(),
            Domain::all(),
            vec![0x0b; 20],
        )
        .unwrap();
    let sealed = donor.wrap(50, 60, ObjectType::HmacKey, &[1; 13]).unwrap();
    assert_eq!(donor.wrap(50, 60, ObjectType::HmacKey, &[1; 12]).err(), Some(HsmErrorKind::InvalidData));
    assert_eq!(donor.wrap(51, 60, ObjectType::HmacKey, &[1; 13]).err(), Some(HsmErrorKind::ObjectNotFound));
    assert_eq!(donor.wrap(50, 61, ObjectType::HmacKey, &[1; 13]).err(), Some(HsmErrorKind::ObjectNotFound));
    assert_eq!(store.unwrap(50, &[1; 13], &sealed).err(), Some(HsmErrorKind::ObjectNotFound));
    store
        .put(
            50,
            ObjectType::WrapKey,
            Algorithm::Wrap(WrapAlg::AES128_CCM),
            vec![0; 40],
            Capability::none(),
            Capability::from_bits(CAPABILITY_SIGN_EDDSA),
            Domain::all(),
            vec![0x33; 16],
        )
        .unwrap();
    assert_eq!(store.unwrap(50, &[1; 13], &sealed).err(), Some(HsmErrorKind::InsufficientPermissions));
    assert_eq!(store.unwrap(50, &[2; 13], &sealed).err(), Some(HsmErrorKind::InvalidData));
    let mut spoiled = sealed.clone();
    spoiled[5] ^= 1;
    assert_eq!(store.unwrap(50, &[1; 13], &spoiled).err(), Some(HsmErrorKind::InvalidData));
    assert_eq!(store.import(Capability::all(), &[29; 10]).err(), Some(HsmErrorKind::InvalidData));
    assert_eq!(store.len(), 1);
}

#[test]
fn export_under_a_given_nonce_is_determined() {
    let mut state = State::new();
    put_wrap(&mut state, 50, CAPABILITY_ALL, WrapAlg::AES128_CCM, &[0x33; 16]);
    put_hmac(&mut state, 60, CAPABILITY_SIGN_HMAC, &[0x0b; 20]);
    let command: Command = Command::ExportWrapped {
        wrap_key_id: 50,
        object_type: ObjectType::HmacKey,
        object_id: 60,
    };
    let first = export_wrapped_with(&state, &command.serialize(), vec![7; 13]).serialize();
    let second = export_wrapped_with(&state, &command.serialize(), vec![7; 13]).serialize();
    let third = export_wrapped_with(&state, &command.serialize(), vec![8; 13]).serialize();
    assert_eq!(first, second);
    assert_ne!(first, third);
    assert_eq!(
        failure(&export_wrapped_with(&state, &command.serialize(), vec![7; 12])),
        HsmErrorKind::InvalidCommand
    );
    let missing: Command = Command::ExportWrapped {
        wrap_key_id: 50,
        object_type: ObjectType::HmacKey,
        object_id: 61,
    };
    assert_eq!(failure(&export_wrapped(&state, &missing.serialize())), HsmErrorKind::InvalidCommand);
    let (nonce_a, _) = export(&state, 50, ObjectType::HmacKey, 60);
    let (nonce_b, _) = export(&state, 50, ObjectType::HmacKey, 60);
    assert_ne!(nonce_a, nonce_b);
}

#[test]
fn unknown_commands_are_invalid() {
    let mut state = State::new();
    let command = CommandMessage::new(CommandCode::DecryptOaep, vec![1, 2, 3]).unwrap();
    assert_eq!(failure(&dispatch(&mut state, &command)), HsmErrorKind::InvalidCommand);
    let command = CommandMessage::new(CommandCode::Echo, vec![1, 2, 3]).unwrap();
    assert!(matches!(reply(&dispatch(&mut state, &command)), Response::Echo { .. }));
}

#[test]
fn too_long_an_answer_is_replaced() {
    let fitting = fit_answer(ResponseMessage::success(CommandCode::Echo, vec![0; 65000]));
    assert!(!fitting.is_err());
    let replaced = fit_answer(ResponseMessage::success(CommandCode::Echo, vec![0; 65520]));
    assert_eq!(failure(&replaced), HsmErrorKind::WrongLength);
}

#[test]
fn only_the_handshake_is_valid_outside_a_session() {
    let mut hsm = MockHsm::new();
    let echo = CommandMessage::new(CommandCode::Echo, b"hello".to_vec()).unwrap();
    assert_eq!(hsm.handle(&echo.serialize()), vec![0x7f, 0x00, 0x01, 0x03]);
    assert_eq!(hsm.handle(&[0x05, 0x00, 0x09, 0, 1, 2, 3, 4, 5, 6, 7, 8]), vec![0x7f, 0x00, 0x01, 0x03]);
    assert_eq!(hsm.handle(&[0x04, 0x00, 0x09, 0, 1, 2, 3, 4, 5, 6, 7, 8]), vec![0x7f, 0x00, 0x01, 0x03]);
    assert_eq!(hsm.handle(&[0x01]), vec![0x7f, 0x00, 0x01, 0x01]);
    assert_eq!(hsm.handle(&[0x03, 0x00, 0x01, 0x00]), vec![0x7f, 0x00, 0x01, 0x01]);
    let mut request = vec![0x03, 0x00, 0x0a, 0x00, 0x09];
    request.extend_from_slice(&[1; 8]);
    assert_eq!(hsm.handle(&request), vec![0x7f, 0x00, 0x01, 0x0b]);
    assert_eq!(hsm.state.sessions.len(), 0);
    assert_eq!(hsm.status().unwrap().message, "OK");
    let mut long = vec![0x01, 0x07, 0xfc];
    long.extend_from_slice(&[0; 2044]);
    assert_eq!(long.len(), 2047);
    assert_eq!(hsm.handle(&long), vec![0x7f, 0x00, 0x01, 0x03]);
    let mut too_long = vec![0x01, 0x07, 0xfd];
    too_long.extend_from_slice(&[0; 2045]);
    assert_eq!(too_long.len(), 2048);
    assert_eq!(hsm.handle(&too_long), vec![0x7f, 0x00, 0x01, 0x08]);
}

#[test]
fn sessions_take_the_smallest_free_number_and_sixteen_at_most() {
    let mut hsm = MockHsm::new();
    let mut request = vec![0x03, 0x00, 0x0a, 0x00, 0x01];
    request.extend_from_slice(&[1; 8]);
    for expected in 0..16u8 {
        let response = hsm.handle(&request);
        assert_eq!(&response[..4], &[0x83, 0x00, 17, expected]);
    }
    assert_eq!(hsm.handle(&request), vec![0x7f, 0x00, 0x01, 0x05]);
    hsm.state.close_session(5);
    hsm.state.close_session(9);
    assert_eq!(hsm.handle(&request)[3], 5);
    assert_eq!(hsm.handle(&request)[3], 9);
    assert_eq!(hsm.handle(&request), vec![0x7f, 0x00, 0x01, 0x05]);
}

#[test]
fn half_open_session_is_discarded_on_a_wrong_tag() {
    let mut hsm = MockHsm::new();
    let mut request = vec![0x03, 0x00, 0x0a, 0x00, 0x01];
    request.extend_from_slice(&[1; 8]);
    let response = hsm.handle(&request);
    assert_eq!(response[3], 0);
    assert_eq!(hsm.state.sessions.len(), 1);
    let mut message = vec![0x05, 0x00, 25, 0];
    message.extend_from_slice(&[0; 24]);
    assert_eq!(hsm.handle(&message), vec![0x7f, 0x00, 0x01, 0x03]);
    assert_eq!(hsm.state.sessions.len(), 1);
    let mut completion = vec![0x04, 0x00, 17, 0];
    completion.extend_from_slice(&[0; 16]);
    assert_eq!(hsm.handle(&completion), vec![0x7f, 0x00, 0x01, 0x04]);
    assert_eq!(hsm.state.sessions.len(), 0);
    assert_eq!(hsm.handle(&completion), vec![0x7f, 0x00, 0x01, 0x03]);
}

#[test]
fn open_session_takes_session_messages_only() {
    let mut link = Link::new(MockHsm::new());
    let key = AuthenticationKey::derive_from_password(b"password");
    let mut session = Session::new(&mut link, 1, key, false).unwrap();
    let id = session.id();
    let mut completion = vec![0x04, 0x00, 17, id];
    completion.extend_from_slice(&[0; 16]);
    assert_eq!(link.connector.handle(&completion), vec![0x7f, 0x00, 0x01, 0x03]);
    assert_eq!(link.connector.state.sessions.len(), 1);
    assert!(session.send_encrypted_command(&mut link, Command::Echo { message: vec![1] }).is_ok());
    let mut message = vec![0x05, 0x00, 25, id];
    message.extend_from_slice(&[0; 24]);
    assert_eq!(link.connector.handle(&message), vec![0x7f, 0x00, 0x01, 0x03]);
    assert_eq!(link.connector.state.sessions.len(), 0);
    let error = session.send_encrypted_command(&mut link, Command::Echo { message: vec![1] }).unwrap_err();
    assert_eq!(error.cause, yubihsm::error::ErrorCause::Device(HsmErrorKind::InvalidSession));
    assert!(error.is_transient());
}

#[test]
fn session_works_with_the_authority_of_its_key() {
    let mut link = Link::new(MockHsm::new());
    let key = AuthenticationKey::derive_from_password(b"password");
    let mut admin = Session::new(&mut link, 1, key, false).unwrap();
    let put: Command = Command::PutAuthenticationKey {
        params: params(2, b"signer", CAPABILITY_ALL, Algorithm::Auth(AuthenticationAlg::YUBICO_AES)),
        delegated_capabilities: Capability::from_bits(CAPABILITY_SIGN_HMAC),
        authentication_key: vec![0x44; 32],
    };
    assert!(admin.send_encrypted_command(&mut link, put).is_ok());
    let key = AuthenticationKey::from_slice(&[0x44; 32]).unwrap();
    let mut limited = Session::new(&mut link, 2, key, false).unwrap();
    let allowed: Command = Command::PutHmacKey {
        params: params(7, b"ok", CAPABILITY_SIGN_HMAC, Algorithm::Hmac(HmacAlg::SHA256)),
        hmac_key: vec![1; 20],
    };
    assert!(limited.send_encrypted_command(&mut link, allowed).is_ok());
    let refused: Command = Command::PutHmacKey {
        params: params(8, b"too much", CAPABILITY_SIGN_EDDSA, Algorithm::Hmac(HmacAlg::SHA256)),
        hmac_key: vec![1; 20],
    };
    let error = limited.send_encrypted_command(&mut link, refused).unwrap_err();
    assert_eq!(error.cause, yubihsm::error::ErrorCause::Device(HsmErrorKind::InsufficientPermissions));
    let again: Command = Command::PutHmacKey {
        params: params(8, b"admin may", CAPABILITY_SIGN_EDDSA, Algorithm::Hmac(HmacAlg::SHA256)),
        hmac_key: vec![1; 20],
    };
    assert!(admin.send_encrypted_command(&mut link, again).is_ok());
}

#[test]
fn reset_wipes_objects_and_sessions() {
    let mut link = Link::new(MockHsm::new());
    let key = AuthenticationKey::derive_from_password(b"password");
    let mut session = Session::new(&mut link, 1, key, false).unwrap();
    let put: Command = Command::PutHmacKey {
        params: params(7, b"gone soon", 0, Algorithm::Hmac(HmacAlg::SHA256)),
        hmac_key: vec![1; 20],
    };
    session.send_encrypted_command(&mut link, put).unwrap();
    let set: Command = Command::SetOption { tag: AuditTag::Force, value: vec![1] };
    session.send_encrypted_command(&mut link, set).unwrap();
    assert_eq!(link.connector.state.objects.len(), 2);
    let response = session.send_encrypted_command(&mut link, Command::ResetDevice).unwrap();
    assert!(matches!(response, Response::ResetDevice { status: 1 }));
    assert_eq!(link.connector.state.objects.len(), 1);
    assert_eq!(link.connector.state.sessions.len(), 0);
    assert_eq!(link.connector.state.force_audit, AuditOption::Off);
    assert!(link.connector.state.objects.get(1, ObjectType::AuthenticationKey).is_some());
}

#[test]
fn export_request_that_cannot_be_read_is_invalid() {
    let state = State::new();
    assert_eq!(failure(&export_wrapped(&state, &[1, 2, 3])), HsmErrorKind::InvalidCommand);
    assert_eq!(failure(&export_wrapped(&state, &[])), HsmErrorKind::InvalidCommand);
}

#[test]
fn public_keys_have_32_bytes_and_signatures_64() {
    let mut state = State::new();
    let command = Command::PutAsymmetricKey {
        params: params(100, b"ed", CAPABILITY_ALL, Algorithm::Asymmetric(AsymmetricAlg::Ed25519)),
        data: vec![7; 32],
    };
    put_asymmetric_key(&mut state, &command.serialize());
    match reply(&get_public_key(&state, &Command::GetPublicKey { key_id: 100 }.serialize())) {
        Response::GetPublicKey { algorithm, bytes } => {
            assert_eq!(algorithm, Algorithm::Asymmetric(AsymmetricAlg::Ed25519));
            assert_eq!(bytes.len(), 32);
        }
        _ => panic!("not a public key"),
    }
    let sign = Command::SignEddsa { key_id: 100, data: b"msg".to_vec() };
    match reply(&sign_eddsa(&state, &sign.serialize())) {
        Response::SignEddsa { signature } => assert_eq!(signature.len(), 64),
        _ => panic!("not a signature"),
    }
    assert_eq!(
        failure(&get_public_key(&state, &Command::GetPublicKey { key_id: 101 }.serialize())),
        HsmErrorKind::ObjectNotFound
    );
}
