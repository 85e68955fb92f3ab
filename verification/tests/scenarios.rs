use yubihsm::algorithm::{AsymmetricAlg, HmacAlg};
use yubihsm::client::Client;
use yubihsm::error::ClientErrorKind;
use yubihsm::mockhsm::MockHsm;
use yubihsm::object::{Capability, Domain, Label, CAPABILITY_SIGN_EDDSA, CAPABILITY_SIGN_HMAC,
    CAPABILITY_VERIFY_HMAC};
use yubihsm::scp03::Credentials;

fn default_client(reconnect: bool) -> Client<MockHsm> {
    let credentials = Credentials::from_password(1, b"password");
    Client::open(MockHsm::new(), credentials, reconnect).expect("session with the default key")
}

#[test]
fn authenticate_default_session() {
    let client = default_client(true);
    assert!(client.is_connected());
    let id = client.session_id().expect("a session");
    assert!(id <= 15);
}

#[test]
fn default_key_is_the_well_known_one() {
    let credentials = Credentials::from_password(1, b"password");
    assert_eq!(
        credentials.authentication_key.bytes,
        vec![
            0x09, 0x0b, 0x47, 0xdb, 0xed, 0x59, 0x56, 0x54, 0x90, 0x1d, 0xee, 0x1c, 0xc6, 0x55,
            0xe4, 0x20, 0x59, 0x2f, 0xd4, 0x83, 0xf7, 0x59, 0xe2, 0x99, 0x09, 0xa0, 0x4c, 0x45,
            0x05, 0xd2, 0xce, 0x0a,
        ]
    );
}

#[test]
fn echo_round_trip() {
    let mut client = default_client(true);
    let before = client.session.as_ref().unwrap().channel.mac_chaining_value.clone();
    let response = client.echo(b"hello").expect("echo");
    assert_eq!(response, b"hello".to_vec());
    let session = client.session.as_ref().unwrap();
    assert_eq!(session.channel.counter, 2);
    assert_ne!(session.channel.mac_chaining_value, before);
    assert!(session.channel.pending.is_none());
}

#[test]
fn ed25519_sign_and_verify() {
    let mut client = default_client(true);
    let id = client
        .generate_asymmetric_key(
            100,
            Label::new(b"test").unwrap(),
            Domain::all(),
            Capability::from_bits(CAPABILITY_SIGN_EDDSA),
            AsymmetricAlg::Ed25519,
        )
        .expect("generated key");
    assert_eq!(id, 100);
    let public = client.get_public_key(100).expect("public key");
    assert_eq!(public.bytes.len(), 32);
    let signature = client.sign_ed25519(100, b"msg".to_vec()).expect("signature");
    assert_eq!(signature.len(), 64);
    let key = ring::signature::UnparsedPublicKey::new(&ring::signature::ED25519, &public.bytes);
    assert!(key.verify(b"msg", &signature).is_ok());
    assert!(key.verify(b"other", &signature).is_err());
}

#[test]
fn hmac_verify_positive_and_negative() {
    let mut client = default_client(true);
    let id = client
        .put_hmac_key(
            200,
            Label::new(b"hmac").unwrap(),
            Domain::all(),
            Capability::from_bits(CAPABILITY_SIGN_HMAC | CAPABILITY_VERIFY_HMAC),
            HmacAlg::SHA256,
            vec![0x0b; 20],
        )
        .expect("stored key");
    assert_eq!(id, 200);
    let tag = client.sign_hmac(200, b"Hi There".to_vec()).expect("tag");
    assert_eq!(
        tag,
        vec![
            0xb0, 0x34, 0x4c, 0x61, 0xd8, 0xdb, 0x38, 0x53, 0x5c, 0xa8, 0xaf, 0xce, 0xaf, 0x0b,
            0xf1, 0x2b, 0x88, 0x1d, 0xc2, 0x00, 0xc9, 0x83, 0x3d, 0xa7, 0x26, 0xe9, 0x37, 0x6c,
            0x2e, 0x32, 0xcf, 0xf7,
        ]
    );
    assert!(client.verify_hmac(200, b"Hi There", &tag).is_ok());
    for byte in 0..tag.len() {
        for bit in 0..8 {
            let mut flipped = tag.clone();
            flipped[byte] ^= 1 << bit;
            let error = client.verify_hmac(200, b"Hi There", &flipped).unwrap_err();
            assert_eq!(error.kind, ClientErrorKind::ResponseError);
        }
    }
    assert!(client.is_connected());
}

#[test]
fn reset_invalidates_the_session() {
    let mut client = default_client(true);
    assert!(client.reset_device().is_ok());
    assert!(!client.is_connected());
    assert!(client.session_id().is_none());
    let response = client.echo(b"again").expect("a new session");
    assert_eq!(response, b"again".to_vec());
    assert!(client.is_connected());
}
