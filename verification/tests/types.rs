use yubihsm::algorithm::{Algorithm, AsymmetricAlg, AuthenticationAlg, EcdsaAlg, HmacAlg, KexAlg,
    MgfAlg, OpaqueAlg, RsaAlg, TemplateAlg, WrapAlg, YubicoOtpAlg};
use yubihsm::audit::{AuditCommand, AuditOption, AuditTag};
use yubihsm::codec::CodecError;
use yubihsm::command::CommandCode;
use yubihsm::object::{Capability, Domain, Label, ObjectInfo, ObjectOrigin, ObjectType,
    CAPABILITY_ALL, CAPABILITY_GET_OPAQUE, CAPABILITY_SIGN_EDDSA, CAPABILITY_SIGN_HMAC};

#[test]
fn every_algorithm_is_one_byte_and_round_trips() {
    let mut known = 0;
    for byte in 0..=255u8 {
        match Algorithm::from_u8(byte) {
            Some(algorithm) => {
                known += 1;
                assert_eq!(algorithm.to_u8(), byte);
                assert!((1..=47).contains(&byte));
            }
            None => assert!(byte == 0 || byte > 47),
        }
    }
    assert_eq!(known, 47);
}

#[test]
fn algorithm_identifiers_match_the_table() {
    assert_eq!(Algorithm::Rsa(RsaAlg::PKCS1_SHA1).to_u8(), 1);
    assert_eq!(Algorithm::Rsa(RsaAlg::PSS_SHA256).to_u8(), 6);
    assert_eq!(Algorithm::Asymmetric(AsymmetricAlg::RSA_2048).to_u8(), 9);
    assert_eq!(Algorithm::Asymmetric(AsymmetricAlg::EC_P256).to_u8(), 12);
    assert_eq!(Algorithm::Hmac(HmacAlg::SHA256).to_u8(), 20);
    assert_eq!(Algorithm::Ecdsa(EcdsaAlg::SHA1).to_u8(), 23);
    assert_eq!(Algorithm::Kex(KexAlg::ECDH).to_u8(), 24);
    assert_eq!(Algorithm::Rsa(RsaAlg::OAEP_SHA1).to_u8(), 25);
    assert_eq!(Algorithm::Wrap(WrapAlg::AES128_CCM).to_u8(), 29);
    assert_eq!(Algorithm::Opaque(OpaqueAlg::DATA).to_u8(), 30);
    assert_eq!(Algorithm::Opaque(OpaqueAlg::X509_CERTIFICATE).to_u8(), 31);
    assert_eq!(Algorithm::Mgf(MgfAlg::SHA256).to_u8(), 33);
    assert_eq!(Algorithm::Template(TemplateAlg::SSH).to_u8(), 36);
    assert_eq!(Algorithm::YubicoOtp(YubicoOtpAlg::AES128).to_u8(), 37);
    assert_eq!(Algorithm::Auth(AuthenticationAlg::YUBICO_AES).to_u8(), 38);
    assert_eq!(Algorithm::Wrap(WrapAlg::AES256_CCM).to_u8(), 42);
    assert_eq!(Algorithm::Ecdsa(EcdsaAlg::SHA512).to_u8(), 45);
    assert_eq!(Algorithm::Asymmetric(AsymmetricAlg::Ed25519).to_u8(), 46);
    assert_eq!(Algorithm::Asymmetric(AsymmetricAlg::EC_P224).to_u8(), 47);
}

#[test]
fn algorithm_groups() {
    let ed = Algorithm::Asymmetric(AsymmetricAlg::Ed25519);
    assert_eq!(ed.asymmetric(), Some(AsymmetricAlg::Ed25519));
    assert_eq!(ed.hmac(), None);
    assert_eq!(Algorithm::Hmac(HmacAlg::SHA1).hmac(), Some(HmacAlg::SHA1));
    assert_eq!(Algorithm::Wrap(WrapAlg::AES192_CCM).wrap(), Some(WrapAlg::AES192_CCM));
    assert_eq!(Algorithm::Wrap(WrapAlg::AES192_CCM).opaque(), None);
}

#[test]
fn key_lengths_follow_the_algorithm() {
    assert_eq!(AsymmetricAlg::Ed25519.key_len(), 32);
    assert_eq!(AsymmetricAlg::RSA_2048.key_len(), 256);
    assert_eq!(AsymmetricAlg::RSA_3072.key_len(), 384);
    assert_eq!(AsymmetricAlg::RSA_4096.key_len(), 512);
    assert_eq!(AsymmetricAlg::EC_P224.key_len(), 28);
    assert_eq!(AsymmetricAlg::EC_P256.key_len(), 32);
    assert_eq!(AsymmetricAlg::EC_P384.key_len(), 48);
    assert_eq!(AsymmetricAlg::EC_P521.key_len(), 66);
    assert_eq!(AsymmetricAlg::EC_BP512.key_len(), 64);
    assert_eq!(WrapAlg::AES128_CCM.key_len(), 16);
    assert_eq!(WrapAlg::AES192_CCM.key_len(), 24);
    assert_eq!(WrapAlg::AES256_CCM.key_len(), 32);
    assert_eq!(YubicoOtpAlg::AES128.key_len(), 16);
    assert_eq!(YubicoOtpAlg::AES256.key_len(), 32);
    assert_eq!(HmacAlg::SHA1.key_len(), 20);
    assert_eq!(HmacAlg::SHA256.key_len(), 32);
    assert_eq!(HmacAlg::SHA256.max_key_len(), 64);
    assert_eq!(HmacAlg::SHA512.max_key_len(), 128);
}

#[test]
fn object_types_and_origins_round_trip() {
    let types = [
        (ObjectType::Opaque, 1),
        (ObjectType::AuthenticationKey, 2),
        (ObjectType::AsymmetricKey, 3),
        (ObjectType::WrapKey, 4),
        (ObjectType::HmacKey, 5),
        (ObjectType::Template, 6),
        (ObjectType::OtpAeadKey, 7),
    ];
    for (ty, byte) in types {
        assert_eq!(ty.to_u8(), byte);
        assert_eq!(ObjectType::from_u8(byte), Some(ty));
    }
    assert_eq!(ObjectType::from_u8(0), None);
    assert_eq!(ObjectType::from_u8(8), None);
    assert_eq!(ObjectOrigin::Generated.to_u8(), 0x01);
    assert_eq!(ObjectOrigin::Imported.to_u8(), 0x02);
    assert_eq!(ObjectOrigin::from_u8(0x11), Some(ObjectOrigin::WrappedGenerated));
    assert_eq!(ObjectOrigin::from_u8(0x12), Some(ObjectOrigin::WrappedImported));
    assert_eq!(ObjectOrigin::from_u8(0x03), None);
    assert_eq!(ObjectOrigin::Generated.wrapped(), ObjectOrigin::WrappedGenerated);
    assert_eq!(ObjectOrigin::Imported.wrapped(), ObjectOrigin::WrappedImported);
    assert_eq!(ObjectOrigin::WrappedImported.wrapped(), ObjectOrigin::WrappedImported);
}

#[test]
fn capabilities_are_sets() {
    let none = Capability::none();
    let all = Capability::all();
    let sign = Capability::from_bits(CAPABILITY_SIGN_EDDSA);
    let both = Capability::from_bits(CAPABILITY_SIGN_EDDSA | CAPABILITY_SIGN_HMAC);
    assert_eq!(all.bits, CAPABILITY_ALL);
    assert!(none.is_subset_of(sign));
    assert!(sign.is_subset_of(both));
    assert!(!both.is_subset_of(sign));
    assert!(both.contains(sign));
    assert!(!sign.contains(both));
    assert!(all.contains(both));
    assert!(sign.is_subset_of(sign));
    assert!(!Capability::from_bits(CAPABILITY_GET_OPAQUE).is_subset_of(both));
    assert_eq!(CAPABILITY_SIGN_EDDSA, 1 << 8);
    assert_eq!(CAPABILITY_GET_OPAQUE, 1);
}

#[test]
fn domains_are_sets_of_sixteen() {
    assert_eq!(Domain::all().bits, 0xffff);
    assert_eq!(Domain::at(1).unwrap().bits, 0x0001);
    assert_eq!(Domain::at(2).unwrap().bits, 0x0002);
    assert_eq!(Domain::at(16).unwrap().bits, 0x8000);
    assert!(Domain::at(0).is_none());
    assert!(Domain::at(17).is_none());
    let one = Domain::at(1).unwrap();
    let two = Domain::at(2).unwrap();
    assert!(Domain::all().contains(one));
    assert!(!one.contains(two));
    assert!(one.intersects(Domain::from_bits(0x0003)));
    assert!(!one.intersects(two));
}

#[test]
fn labels_are_padded_to_forty_bytes() {
    let label = Label::new(b"test").unwrap();
    assert_eq!(label.bytes.len(), 40);
    assert_eq!(&label.bytes[..4], b"test");
    assert!(label.bytes[4..].iter().all(|b| *b == 0));
    assert_eq!(Label::new(b"").unwrap().bytes, vec![0; 40]);
    assert_eq!(Label::new(&[b'x'; 40]).unwrap().bytes, vec![b'x'; 40]);
    assert!(Label::new(&[b'x'; 41]).is_none());
    assert_eq!(label.duplicate().bytes, label.bytes);
}

#[test]
fn object_info_is_sixty_six_bytes() {
    let info: ObjectInfo = ObjectInfo {
        capabilities: Capability::from_bits(0x0102_0304_0506_0708),
        object_id: 0x1234,
        length: 32,
        domains: Domain::from_bits(0x8001),
        object_type: ObjectType::AsymmetricKey,
        algorithm: Algorithm::Asymmetric(AsymmetricAlg::Ed25519),
        sequence: 5,
        origin: ObjectOrigin::Generated,
        label: Label::new(b"key").unwrap().bytes,
        delegated_capabilities: Capability::from_bits(0xff),
    };
    let mut bytes = vec![0xee];
    info.write(&mut bytes);
    assert_eq!(bytes.len(), 67);
    assert_eq!(
        &bytes[1..19],
        &[1, 2, 3, 4, 5, 6, 7, 8, 0x12, 0x34, 0, 32, 0x80, 0x01, 3, 46, 5, 1]
    );
    assert_eq!(&bytes[19..22], b"key");
    assert_eq!(&bytes[59..], &[0, 0, 0, 0, 0, 0, 0, 0xff]);
    let parsed = ObjectInfo::read(&bytes, 1).unwrap();
    assert_eq!(parsed.capabilities, info.capabilities);
    assert_eq!(parsed.object_id, 0x1234);
    assert_eq!(parsed.length, 32);
    assert_eq!(parsed.domains, info.domains);
    assert_eq!(parsed.object_type, ObjectType::AsymmetricKey);
    assert_eq!(parsed.algorithm, info.algorithm);
    assert_eq!(parsed.sequence, 5);
    assert_eq!(parsed.origin, ObjectOrigin::Generated);
    assert_eq!(parsed.label, info.label);
    assert_eq!(parsed.delegated_capabilities, info.delegated_capabilities);
    bytes[15] = 0;
    assert!(ObjectInfo::read(&bytes, 1).is_none());
}

#[test]
fn audit_settings_round_trip() {
    assert_eq!(AuditOption::Off.to_u8(), 0);
    assert_eq!(AuditOption::On.to_u8(), 1);
    assert_eq!(AuditOption::Fix.to_u8(), 2);
    assert_eq!(AuditOption::from_u8(3), None);
    assert_eq!(AuditTag::Force.to_u8(), 1);
    assert_eq!(AuditTag::Command.to_u8(), 3);
    assert_eq!(AuditTag::from_u8(2), None);
    let setting = AuditCommand { command: CommandCode::SignEddsa, option: AuditOption::Fix };
    assert_eq!(setting.serialize(), vec![0x6a, 0x02]);
    assert_eq!(AuditCommand::deserialize(&[0x6a, 0x02]), Ok(setting));
    assert_eq!(AuditCommand::deserialize(&[0x6a]), Err(CodecError::UnexpectedEof));
    assert_eq!(AuditCommand::deserialize(&[0x6a, 0x02, 0]), Err(CodecError::TrailingBytes));
    assert_eq!(AuditCommand::deserialize(&[0x6a, 0x09]), Err(CodecError::InvalidTag));
    assert_eq!(AuditCommand::deserialize(&[0x02, 0x01]), Err(CodecError::InvalidTag));
}
