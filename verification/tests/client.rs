use sha2::Digest;
use yubihsm::algorithm::{Algorithm, AsymmetricAlg, AuthenticationAlg, HmacAlg, MgfAlg, OpaqueAlg,
    WrapAlg, YubicoOtpAlg};
use yubihsm::audit::{AuditCommand, AuditOption};
use yubihsm::client::{check_hmac_verified, check_ping, find_audit_option, get_pseudo_random_command,
    list_objects_command, put_asymmetric_key_command, put_force_audit_option_command,
    put_hmac_key_command, put_otp_aead_key_command, put_wrap_key_command, read_audit_options,
    read_force_audit_option, read_list_entries, set_audit_option_command,
    sign_rsa_pkcs1v15_sha256_command, sign_rsa_pss_sha256_command, verify_hmac_command, Client,
    ListObjectsEntry, WrapMessage, HMAC_MIN_KEY_SIZE, MAX_RAND_BYTES, RSA_PSS_MAX_MESSAGE_SIZE};
use yubihsm::command::CommandCode;
use yubihsm::commands::Command;
use yubihsm::connector::{Connector, Status};
use yubihsm::error::{ClientError, ClientErrorKind, ConnectionError, ConnectionErrorKind, ErrorCause,
    SessionError, SessionErrorKind};
use yubihsm::filter::Filter;
use yubihsm::mockhsm::MockHsm;
use yubihsm::object::{Capability, Domain, Label, ObjectOrigin, ObjectType, CAPABILITY_ALL,
    CAPABILITY_SIGN_HMAC};
use yubihsm::response::HsmErrorKind;
use yubihsm::responses::Response;
use yubihsm::scp03::{AuthenticationKey, Credentials};

/// A device behind a connector that can be made to fail.
struct Flaky {
    device: MockHsm,
    requests: usize,
    fail: Option<ConnectionErrorKind>,
    fail_once: bool,
}

impl Flaky {
    fn new() -> Flaky {
        Flaky { device: MockHsm::new(), requests: 0, fail: None, fail_once: false }
    }
}

impl Connector for Flaky {
    fn status(&mut self) -> Result<Status, ConnectionError> {
        self.device.status()
    }

    fn send_command(&mut self, uuid: &[u8], request: Vec<u8>) -> Result<Vec<u8>, ConnectionError> {
        self.requests += 1;
        if let Some(kind) = self.fail {
            if self.fail_once {
                self.fail = None;
            }
            return Err(ConnectionError { kind });
        }
        self.device.send_command(uuid, request)
    }
}

/// A connector whose service is not ready.
struct Unready;

impl Connector for Unready {
    fn status(&mut self) -> Result<Status, ConnectionError> {
        Ok(Status { message: "NO_DEVICE".to_string(), serial: None, version: "test".to_string() })
    }

    fn send_command(&mut self, _uuid: &[u8], _request: Vec<u8>) -> Result<Vec<u8>, ConnectionError> {
        panic!("nothing may be sent to a connector that is not ready");
    }
}

/// A connector that cannot tell its status.
struct Silent;

impl Connector for Silent {
    fn status(&mut self) -> Result<Status, ConnectionError> {
        Err(ConnectionError { kind: ConnectionErrorKind::UsbError })
    }

    fn send_command(&mut self, _uuid: &[u8], _request: Vec<u8>) -> Result<Vec<u8>, ConnectionError> {
        panic!("nothing may be sent to a connector that cannot tell its status");
    }
}

#[test]
fn no_session_without_a_ready_connector() {
    let error = Client::open(Unready, credentials(), true).err().unwrap();
    assert_eq!(error.kind, ClientErrorKind::CreateFailed);
    assert_eq!(error.cause, ErrorCause::Local);
    let error = Client::open(Silent, credentials(), true).err().unwrap();
    assert_eq!(error.kind, ClientErrorKind::ConnectorError);
    assert_eq!(error.cause, ErrorCause::Connection(ConnectionErrorKind::UsbError));
    let mut client = Client::create(Unready, credentials()).unwrap();
    assert_eq!(client.echo(b"x").unwrap_err().kind, ClientErrorKind::CreateFailed);
    assert!(!client.is_connected());
}

fn credentials() -> Credentials {
    Credentials::from_password(1, b"password")
}

fn client(reconnect: bool) -> Client<Flaky> {
    Client::open(Flaky::new(), credentials(), reconnect).unwrap()
}

fn label(text: &[u8]) -> Label {
    Label::new(text).unwrap()
}

fn is_protocol_error(result: Result<Command, ClientError>) -> bool {
    matches!(result, Err(ClientError { kind: ClientErrorKind::ProtocolError, cause: ErrorCause::Local, .. }))
}

#[test]
fn limits() {
    assert_eq!(MAX_RAND_BYTES, 2048);
    assert_eq!(HMAC_MIN_KEY_SIZE, 1);
    assert_eq!(RSA_PSS_MAX_MESSAGE_SIZE, 0xffff);
}

#[test]
fn random_bytes_are_limited() {
    assert!(matches!(get_pseudo_random_command(0), Ok(Command::GetPseudoRandom { bytes: 0 })));
    assert!(matches!(get_pseudo_random_command(2048), Ok(Command::GetPseudoRandom { bytes: 2048 })));
    assert!(is_protocol_error(get_pseudo_random_command(2049)));
    assert!(is_protocol_error(get_pseudo_random_command(usize::MAX)));
}

#[test]
fn keys_must_have_the_length_of_their_algorithm() {
    let put = |algorithm, len: usize| {
        put_asymmetric_key_command(1, label(b"k"), Domain::all(), Capability::none(), algorithm, vec![0; len])
    };
    assert!(put(AsymmetricAlg::Ed25519, 32).is_ok());
    assert!(is_protocol_error(put(AsymmetricAlg::Ed25519, 31)));
    assert!(is_protocol_error(put(AsymmetricAlg::Ed25519, 33)));
    assert!(is_protocol_error(put(AsymmetricAlg::Ed25519, 0)));
    assert!(put(AsymmetricAlg::EC_P521, 66).is_ok());
    assert!(is_protocol_error(put(AsymmetricAlg::EC_P521, 64)));
    assert!(put(AsymmetricAlg::RSA_2048, 256).is_ok());
    let otp = |algorithm, len: usize| {
        put_otp_aead_key_command(1, label(b"k"), Domain::all(), Capability::none(), algorithm, vec![0; len])
    };
    assert!(otp(YubicoOtpAlg::AES128, 16).is_ok());
    assert!(is_protocol_error(otp(YubicoOtpAlg::AES128, 24)));
    assert!(otp(YubicoOtpAlg::AES192, 24).is_ok());
    assert!(otp(YubicoOtpAlg::AES256, 32).is_ok());
    assert!(is_protocol_error(otp(YubicoOtpAlg::AES256, 16)));
    let wrap = |algorithm, len: usize| {
        put_wrap_key_command(
            1,
            label(b"k"),
            Domain::all(),
            Capability::none(),
            Capability::all(),
            algorithm,
            vec![0; len],
        )
    };
    assert!(wrap(WrapAlg::AES128_CCM, 16).is_ok());
    assert!(is_protocol_error(wrap(WrapAlg::AES128_CCM, 15)));
    assert!(wrap(WrapAlg::AES192_CCM, 24).is_ok());
    assert!(wrap(WrapAlg::AES256_CCM, 32).is_ok());
    assert!(is_protocol_error(wrap(WrapAlg::AES256_CCM, 33)));
}

#[test]
fn hmac_keys_have_a_shortest_and_a_longest_length() {
    let put = |algorithm, len: usize| {
        put_hmac_key_command(1, label(b"k"), Domain::all(), Capability::none(), algorithm, vec![0; len])
    };
    assert!(is_protocol_error(put(HmacAlg::SHA256, 0)));
    assert!(put(HmacAlg::SHA256, 1).is_ok());
    assert!(put(HmacAlg::SHA256, 20).is_ok());
    assert!(put(HmacAlg::SHA256, 64).is_ok());
    assert!(is_protocol_error(put(HmacAlg::SHA256, 65)));
    assert!(put(HmacAlg::SHA1, 64).is_ok());
    assert!(is_protocol_error(put(HmacAlg::SHA1, 65)));
    assert!(put(HmacAlg::SHA384, 128).is_ok());
    assert!(put(HmacAlg::SHA512, 128).is_ok());
    assert!(is_protocol_error(put(HmacAlg::SHA512, 129)));
}

#[test]
fn put_commands_carry_what_they_were_given() {
    let command = put_hmac_key_command(
        200,
        label(b"mac"),
        Domain::from_bits(3),
        Capability::from_bits(CAPABILITY_SIGN_HMAC),
        HmacAlg::SHA256,
        vec![0x0b; 20],
    )
    .unwrap();
    match command {
        Command::PutHmacKey { params, hmac_key } => {
            assert_eq!(params.key_id, 200);
            assert_eq!(params.label, label(b"mac").bytes);
            assert_eq!(params.domains.bits, 3);
            assert_eq!(params.capabilities.bits, CAPABILITY_SIGN_HMAC);
            assert_eq!(params.algorithm, Algorithm::Hmac(HmacAlg::SHA256));
            assert_eq!(hmac_key, vec![0x0b; 20]);
        }
        other => panic!("{:?}", other),
    }
    let command = put_wrap_key_command(
        9,
        label(b"w"),
        Domain::all(),
        Capability::none(),
        Capability::from_bits(5),
        WrapAlg::AES256_CCM,
        vec![1; 32],
    )
    .unwrap();
    assert!(matches!(
        command,
        Command::PutWrapKey { ref params, delegated_capabilities, ref data }
            if params.algorithm == Algorithm::Wrap(WrapAlg::AES256_CCM)
                && delegated_capabilities.bits == 5 && data == &vec![1; 32]
    ));
}

#[test]
fn rsa_commands_carry_digests() {
    match sign_rsa_pkcs1v15_sha256_command(5, b"abc") {
        Command::SignPkcs1 { key_id, digest } => {
            assert_eq!(key_id, 5);
            assert_eq!(
                digest,
                vec![
                    0xba, 0x78, 0x16, 0xbf, 0x8f, 0x01, 0xcf, 0xea, 0x41, 0x41, 0x40, 0xde, 0x5d,
                    0xae, 0x22, 0x23, 0xb0, 0x03, 0x61, 0xa3, 0x96, 0x17, 0x7a, 0x9c, 0xb4, 0x10,
                    0xff, 0x61, 0xf2, 0x00, 0x15, 0xad,
                ]
            );
        }
        other => panic!("{:?}", other),
    }
    let data = vec![0x5a; 300];
    let mut hasher = sha2::Sha256::default();
    hasher.input(&[0x01, 0x2c]);
    hasher.input(&data);
    let expected = hasher.result().to_vec();
    match sign_rsa_pss_sha256_command(6, &data).unwrap() {
        Command::SignPss { key_id, mgf1_hash_alg, salt_len, digest } => {
            assert_eq!(key_id, 6);
            assert_eq!(mgf1_hash_alg, Algorithm::Mgf(MgfAlg::SHA256));
            assert_eq!(salt_len, 32);
            assert_eq!(digest, expected);
        }
        other => panic!("{:?}", other),
    }
    assert!(sign_rsa_pss_sha256_command(6, b"").is_ok());
    assert!(sign_rsa_pss_sha256_command(6, &vec![0; 0xffff]).is_ok());
    assert!(is_protocol_error(sign_rsa_pss_sha256_command(6, &vec![0; 0x1_0000])));
}

#[test]
fn other_commands_are_built_as_documented() {
    assert!(matches!(
        verify_hmac_command(3, b"msg", &[9; 32]),
        Command::VerifyHmac { key_id: 3, ref tag_and_data }
            if tag_and_data[..32] == [9; 32] && &tag_and_data[32..] == b"msg"
    ));
    assert_eq!(set_audit_option_command(CommandCode::SignEddsa, AuditOption::On).serialize(), vec![3, 0, 2, 0x6a, 1]);
    assert_eq!(put_force_audit_option_command(AuditOption::Fix).serialize(), vec![1, 0, 1, 2]);
    let filters: Vec<Filter> = vec![Filter::Id(7), Filter::Type(ObjectType::Opaque)];
    assert_eq!(list_objects_command(&filters).serialize(), vec![1, 0, 7, 2, 1]);
    assert_eq!(list_objects_command(&[]).serialize(), Vec::<u8>::new());
}

#[test]
fn answers_are_read_as_documented() {
    assert!(check_ping(b"same", b"same").is_ok());
    assert_eq!(check_ping(b"same", b"other").unwrap_err().kind, ClientErrorKind::ResponseError);
    assert!(check_hmac_verified(1).is_ok());
    let error = check_hmac_verified(0).unwrap_err();
    assert_eq!(error.kind, ClientErrorKind::ResponseError);
    assert_eq!(error.description, "HMAC verification failure");
    assert_eq!(error.message(), "HMAC verification failure");
    assert_eq!(check_hmac_verified(2).unwrap_err().kind, ClientErrorKind::ResponseError);
    assert_eq!(read_force_audit_option(&[0]).unwrap(), AuditOption::Off);
    assert_eq!(read_force_audit_option(&[2]).unwrap(), AuditOption::Fix);
    assert_eq!(read_force_audit_option(&[3]).unwrap_err().kind, ClientErrorKind::ProtocolError);
    assert_eq!(read_force_audit_option(&[]).unwrap_err().kind, ClientErrorKind::ProtocolError);
    assert_eq!(read_force_audit_option(&[1, 1]).unwrap_err().kind, ClientErrorKind::ProtocolError);
    let options = read_audit_options(&[0x6a, 1, 0x01, 2, 0x6a, 0]).unwrap();
    assert_eq!(
        options,
        vec![
            AuditCommand { command: CommandCode::SignEddsa, option: AuditOption::On },
            AuditCommand { command: CommandCode::Echo, option: AuditOption::Fix },
            AuditCommand { command: CommandCode::SignEddsa, option: AuditOption::Off },
        ]
    );
    assert_eq!(find_audit_option(&options, CommandCode::SignEddsa), AuditOption::On);
    assert_eq!(find_audit_option(&options, CommandCode::Echo), AuditOption::Fix);
    assert_eq!(find_audit_option(&options, CommandCode::DeviceInfo), AuditOption::Off);
    assert_eq!(read_audit_options(&[]).unwrap(), vec![]);
    assert_eq!(read_audit_options(&[0x6a]).unwrap_err().kind, ClientErrorKind::ProtocolError);
    assert_eq!(read_audit_options(&[0x6a, 1, 0x02, 1]).unwrap_err().kind, ClientErrorKind::ProtocolError);
    assert_eq!(read_audit_options(&[0x6a, 3]).unwrap_err().kind, ClientErrorKind::ProtocolError);
    assert_eq!(
        read_list_entries(&[0, 1, 2, 0, 0x12, 0x34, 5, 9]).unwrap(),
        vec![
            ListObjectsEntry { object_id: 1, object_type: ObjectType::AuthenticationKey, sequence: 0 },
            ListObjectsEntry { object_id: 0x1234, object_type: ObjectType::HmacKey, sequence: 9 },
        ]
    );
    assert_eq!(read_list_entries(&[]).unwrap(), vec![]);
    assert_eq!(read_list_entries(&[0, 1, 2]).unwrap_err().kind, ClientErrorKind::ProtocolError);
    assert_eq!(read_list_entries(&[0, 1, 9, 0]).unwrap_err().kind, ClientErrorKind::ProtocolError);
}

#[test]
fn session_errors_become_client_errors() {
    let wrap = |kind, cause| ClientError::session(SessionError { kind, cause }).kind;
    assert_eq!(wrap(SessionErrorKind::AuthFailed, ErrorCause::Local), ClientErrorKind::AuthFail);
    assert_eq!(wrap(SessionErrorKind::CreateFailed, ErrorCause::Local), ClientErrorKind::CreateFailed);
    assert_eq!(wrap(SessionErrorKind::ProtocolError, ErrorCause::Local), ClientErrorKind::ProtocolError);
    assert_eq!(wrap(SessionErrorKind::ResponseError, ErrorCause::Local), ClientErrorKind::ResponseError);
    assert_eq!(wrap(SessionErrorKind::TimeoutError, ErrorCause::Local), ClientErrorKind::ProtocolError);
    assert_eq!(wrap(SessionErrorKind::VerifyFailed, ErrorCause::Local), ClientErrorKind::ProtocolError);
    assert_eq!(
        wrap(SessionErrorKind::ProtocolError, ErrorCause::Connection(ConnectionErrorKind::UsbError)),
        ClientErrorKind::ConnectorError
    );
    assert_eq!(
        wrap(SessionErrorKind::ResponseError, ErrorCause::Device(HsmErrorKind::ObjectNotFound)),
        ClientErrorKind::ResponseError
    );
    let transient = |kind, cause| SessionError { kind, cause }.is_transient();
    assert!(transient(SessionErrorKind::TimeoutError, ErrorCause::Local));
    assert!(transient(SessionErrorKind::ProtocolError, ErrorCause::Connection(ConnectionErrorKind::IoError)));
    assert!(transient(SessionErrorKind::ResponseError, ErrorCause::Device(HsmErrorKind::InvalidSession)));
    assert!(!transient(SessionErrorKind::ProtocolError, ErrorCause::Connection(ConnectionErrorKind::DeviceBusy)));
    assert!(!transient(SessionErrorKind::ResponseError, ErrorCause::Device(HsmErrorKind::ObjectNotFound)));
    assert!(!transient(SessionErrorKind::AuthFailed, ErrorCause::Local));
    assert!(!transient(SessionErrorKind::ResponseError, ErrorCause::Local));
}

#[test]
fn invalid_arguments_send_nothing() {
    let mut client = client(true);
    let sent = client.connector.connector.requests;
    assert_eq!(client.get_pseudo_random(2049).unwrap_err().kind, ClientErrorKind::ProtocolError);
    assert_eq!(
        client
            .put_asymmetric_key(1, label(b"k"), Domain::all(), Capability::none(), AsymmetricAlg::Ed25519, vec![0; 31])
            .unwrap_err()
            .kind,
        ClientErrorKind::ProtocolError
    );
    assert_eq!(
        client
            .put_hmac_key(1, label(b"k"), Domain::all(), Capability::none(), HmacAlg::SHA256, vec![])
            .unwrap_err()
            .kind,
        ClientErrorKind::ProtocolError
    );
    assert_eq!(
        client
            .put_otp_aead_key(1, label(b"k"), Domain::all(), Capability::none(), YubicoOtpAlg::AES128, vec![0; 5])
            .unwrap_err()
            .kind,
        ClientErrorKind::ProtocolError
    );
    assert_eq!(
        client
            .put_wrap_key(
                1,
                label(b"k"),
                Domain::all(),
                Capability::none(),
                Capability::none(),
                WrapAlg::AES128_CCM,
                vec![0; 17]
            )
            .unwrap_err()
            .kind,
        ClientErrorKind::ProtocolError
    );
    assert_eq!(
        client.sign_rsa_pss_sha256(1, &vec![0; 0x1_0000]).unwrap_err().kind,
        ClientErrorKind::ProtocolError
    );
    assert_eq!(client.connector.connector.requests, sent);
    assert_eq!(client.session.as_ref().unwrap().channel.counter, 1);
    assert!(client.is_connected());
}

#[test]
fn create_defers_the_session() {
    let mut client = Client::create(Flaky::new(), credentials()).unwrap();
    assert!(!client.is_connected());
    assert_eq!(client.session_id(), None);
    assert_eq!(client.connector.connector.requests, 0);
    client.connect().unwrap();
    assert!(client.is_connected());
    assert_eq!(client.connector.connector.requests, 2);
    client.connect().unwrap();
    assert_eq!(client.connector.connector.requests, 2);
    assert_eq!(client.session().unwrap(), client.session_id().unwrap());
    assert_eq!(client.connector.connector.requests, 2);
}

#[test]
fn open_fails_with_wrong_credentials() {
    let wrong = Credentials::from_password(1, b"wrong");
    let error = Client::open(Flaky::new(), wrong, true).err().unwrap();
    assert_eq!(error.kind, ClientErrorKind::AuthFail);
    let unknown = Credentials::from_password(9, b"password");
    let error = Client::open(Flaky::new(), unknown, true).err().unwrap();
    assert_eq!(error.kind, ClientErrorKind::ResponseError);
    assert_eq!(error.cause, ErrorCause::Device(HsmErrorKind::ObjectNotFound));
    let mut flaky = Flaky::new();
    flaky.fail = Some(ConnectionErrorKind::NotFound);
    let error = Client::open(flaky, credentials(), true).err().unwrap();
    assert_eq!(error.kind, ClientErrorKind::ConnectorError);
}

#[test]
fn timed_out_session_is_replaced_where_credentials_are_kept() {
    let mut client = client(true);
    let first = client.session_id().unwrap();
    let error = client
        .session
        .as_mut()
        .unwrap()
        .send_encrypted_command_after(&mut client.connector, Command::Echo { message: vec![1] }, 30_000_000_000)
        .unwrap_err();
    assert_eq!(error.kind, SessionErrorKind::TimeoutError);
    assert!(!client.is_connected());
    assert_eq!(client.echo(b"back again").unwrap(), b"back again".to_vec());
    assert!(client.is_connected());
    assert_ne!(client.session_id().unwrap(), first);
    assert_eq!(client.session.as_ref().unwrap().channel.counter, 2);
}

#[test]
fn timed_out_session_stays_closed_where_credentials_are_dropped() {
    let mut client = client(false);
    assert!(client.credentials.is_none());
    assert!(client.echo(b"works").is_ok());
    let error = client
        .session
        .as_mut()
        .unwrap()
        .send_encrypted_command_after(&mut client.connector, Command::Echo { message: vec![1] }, 30_000_000_000)
        .unwrap_err();
    assert_eq!(error.kind, SessionErrorKind::TimeoutError);
    assert!(!client.is_connected());
    let sent = client.connector.connector.requests;
    let error = client.echo(b"no way").unwrap_err();
    assert_eq!(error.kind, ClientErrorKind::AuthFail);
    assert_eq!(error.description, "session reconnection disabled");
    assert_eq!(error.message(), "session reconnection disabled");
    assert_eq!(client.connector.connector.requests, sent);
    assert_eq!(client.connect().unwrap_err().kind, ClientErrorKind::AuthFail);
}

#[test]
fn transient_failure_is_retried_once() {
    let mut client = client(true);
    client.connector.connector.fail = Some(ConnectionErrorKind::IoError);
    client.connector.connector.fail_once = true;
    let sent = client.connector.connector.requests;
    assert_eq!(client.echo(b"second try").unwrap(), b"second try".to_vec());
    assert_eq!(client.connector.connector.requests, sent + 1 + 2 + 1);
    assert!(client.is_connected());
    client.connector.connector.fail = Some(ConnectionErrorKind::IoError);
    client.connector.connector.fail_once = false;
    let error = client.echo(b"never").unwrap_err();
    assert_eq!(error.kind, ClientErrorKind::ConnectorError);
    assert!(!client.is_connected());
}

#[test]
fn failure_that_is_not_transient_is_not_retried() {
    let mut client = client(true);
    client.connector.connector.fail = Some(ConnectionErrorKind::DeviceBusy);
    client.connector.connector.fail_once = true;
    let sent = client.connector.connector.requests;
    let error = client.echo(b"busy").unwrap_err();
    assert_eq!(error.kind, ClientErrorKind::ConnectorError);
    assert_eq!(error.cause, ErrorCause::Connection(ConnectionErrorKind::DeviceBusy));
    assert_eq!(client.connector.connector.requests, sent + 1);
    let mut client = self::client(true);
    let sent = client.connector.connector.requests;
    let error = client.get_opaque(77).unwrap_err();
    assert_eq!(error.kind, ClientErrorKind::ResponseError);
    assert_eq!(error.cause, ErrorCause::Device(HsmErrorKind::ObjectNotFound));
    assert_eq!(client.connector.connector.requests, sent + 1);
    assert!(client.is_connected());
}

#[test]
fn transient_failure_is_final_without_credentials() {
    let mut client = client(false);
    client.connector.connector.fail = Some(ConnectionErrorKind::IoError);
    client.connector.connector.fail_once = true;
    let error = client.echo(b"lost").unwrap_err();
    assert_eq!(error.kind, ClientErrorKind::ConnectorError);
    assert!(!client.is_connected());
}

#[test]
fn reset_is_ok_even_where_the_connector_fails() {
    let mut client = client(true);
    client.connector.connector.fail = Some(ConnectionErrorKind::IoError);
    assert!(client.reset_device().is_ok());
    assert!(!client.is_connected());
    assert!(client.session.is_none());
    client.connector.connector.fail = None;
    assert_eq!(client.echo(b"new session").unwrap(), b"new session".to_vec());
}

#[test]
fn ping_measures_an_echo() {
    let mut client = client(true);
    let latency = client.ping().unwrap();
    assert!(latency.as_secs() < 20);
    assert_eq!(client.session.as_ref().unwrap().channel.counter, 2);
}

#[test]
fn objects_through_the_client() {
    let mut client = client(true);
    assert_eq!(
        client
            .put_opaque(0, label(b"cert"), Domain::all(), Capability::none(), OpaqueAlg::X509_CERTIFICATE, vec![0x30, 0x82])
            .unwrap(),
        1
    );
    assert_eq!(client.get_opaque(1).unwrap(), vec![0x30, 0x82]);
    let info = client.get_object_info(1, ObjectType::Opaque).unwrap();
    assert_eq!(info.algorithm, Algorithm::Opaque(OpaqueAlg::X509_CERTIFICATE));
    assert_eq!(info.length, 2);
    assert_eq!(info.origin, ObjectOrigin::Imported);
    assert_eq!(
        client
            .put_authentication_key(
                2,
                label(b"second"),
                Domain::all(),
                Capability::all(),
                Capability::all(),
                AuthenticationAlg::YUBICO_AES,
                AuthenticationKey::derive_from_password(b"other password"),
            )
            .unwrap(),
        2
    );
    assert_eq!(
        client
            .generate_hmac_key(3, label(b"mac"), Domain::all(), Capability::from_bits(CAPABILITY_SIGN_HMAC), HmacAlg::SHA256)
            .unwrap(),
        3
    );
    assert_eq!(
        client
            .generate_wrap_key(4, label(b"wrap"), Domain::all(), Capability::none(), Capability::all(), WrapAlg::AES128_CCM)
            .unwrap(),
        4
    );
    let all = client.list_objects(&[]).unwrap();
    assert_eq!(
        all,
        vec![
            ListObjectsEntry { object_id: 1, object_type: ObjectType::AuthenticationKey, sequence: 0 },
            ListObjectsEntry { object_id: 1, object_type: ObjectType::Opaque, sequence: 0 },
            ListObjectsEntry { object_id: 2, object_type: ObjectType::AuthenticationKey, sequence: 0 },
            ListObjectsEntry { object_id: 3, object_type: ObjectType::HmacKey, sequence: 0 },
            ListObjectsEntry { object_id: 4, object_type: ObjectType::WrapKey, sequence: 0 },
        ]
    );
    let keys = client.list_objects(&[Filter::Type(ObjectType::AuthenticationKey)]).unwrap();
    assert_eq!(keys.len(), 2);
    let wrapped = client.export_wrapped(4, ObjectType::HmacKey, 3).unwrap();
    assert_eq!(wrapped.nonce.len(), 13);
    client.delete_object(3, ObjectType::HmacKey).unwrap();
    assert_eq!(
        client.delete_object(3, ObjectType::HmacKey).unwrap_err().cause,
        ErrorCause::Device(HsmErrorKind::ObjectNotFound)
    );
    assert_eq!(client.import_wrapped(4, wrapped).unwrap(), (ObjectType::HmacKey, 3));
    assert_eq!(client.get_object_info(3, ObjectType::HmacKey).unwrap().origin, ObjectOrigin::WrappedGenerated);
    let second = Client::open(
        MockHsm::new(),
        Credentials::new(1, AuthenticationKey::derive_from_password(b"password")),
        false,
    );
    assert!(second.is_ok());
}

#[test]
fn device_reports_through_the_client() {
    let mut client = client(true);
    assert!(matches!(
        client.device_info().unwrap(),
        Response::DeviceInfo { major_version: 2, serial_number: 2_000_000, ref algorithms, .. }
            if algorithms.len() == 47
    ));
    assert!(matches!(client.get_storage_info().unwrap(), Response::GetStorageInfo { page_size: 126, .. }));
    assert!(matches!(client.get_log_entries().unwrap(), Response::GetLogEntries { num_entries: 0, .. }));
    assert!(client.blink_device(3).is_ok());
    assert!(client.set_log_index(7).is_ok());
    assert_eq!(client.get_pseudo_random(0).unwrap().len(), 0);
    assert_eq!(client.get_pseudo_random(2048).unwrap().len(), 2048);
    assert_eq!(client.get_pseudo_random(17).unwrap().len(), 17);
    assert_eq!(client.get_force_audit_option().unwrap(), AuditOption::Off);
    client.put_force_audit_option(AuditOption::On).unwrap();
    assert_eq!(client.get_force_audit_option().unwrap(), AuditOption::On);
    assert_eq!(client.get_command_audit_option(CommandCode::SignEddsa).unwrap(), AuditOption::Off);
    client.set_audit_option(CommandCode::SignEddsa, AuditOption::Fix).unwrap();
    client.set_audit_option(CommandCode::Echo, AuditOption::On).unwrap();
    assert_eq!(client.get_command_audit_option(CommandCode::SignEddsa).unwrap(), AuditOption::Fix);
    assert_eq!(client.get_command_audit_option(CommandCode::DeviceInfo).unwrap(), AuditOption::Off);
    assert_eq!(client.get_commands_audit_options().unwrap().len(), 2);
}

#[test]
fn commands_that_the_simulator_lacks_are_invalid() {
    let mut client = client(true);
    let invalid = ErrorCause::Device(HsmErrorKind::InvalidCommand);
    assert_eq!(client.sign_ecdsa(1, vec![0; 32]).unwrap_err().cause, invalid);
    assert_eq!(client.sign_rsa_pkcs1v15_sha256(1, b"data").unwrap_err().cause, invalid);
    assert_eq!(client.sign_rsa_pss_sha256(1, b"data").unwrap_err().cause, invalid);
    assert_eq!(client.sign_attestation_certificate(1, None).unwrap_err().cause, invalid);
    assert_eq!(client.wrap_data(1, b"data".to_vec()).unwrap_err().cause, invalid);
    let message = WrapMessage { nonce: vec![0; 13], ciphertext: vec![0; 32] };
    assert_eq!(client.unwrap_data(1, message).unwrap_err().cause, invalid);
    assert_eq!(
        client
            .put_otp_aead_key(1, label(b"otp"), Domain::all(), Capability::none(), YubicoOtpAlg::AES128, vec![0; 16])
            .unwrap_err()
            .cause,
        invalid
    );
    assert!(client.is_connected());
    assert_eq!(client.session.as_ref().unwrap().channel.counter, 8);
    assert_eq!(CAPABILITY_ALL, 0x7fff_ffff_ffff);
}

#[test]
fn wrapped_session_errors_keep_their_cause_and_say_so() {
    let error = ClientError::session(SessionError {
        kind: SessionErrorKind::ResponseError,
        cause: ErrorCause::Device(HsmErrorKind::InvalidSession),
    });
    assert_eq!(error.kind, ClientErrorKind::ResponseError);
    assert_eq!(error.cause, ErrorCause::Device(HsmErrorKind::InvalidSession));
    assert_eq!(error.message(), "session error");
}

#[test]
fn session_keeps_the_key_exactly_where_the_client_keeps_the_credentials() {
    let kept = client(true);
    assert!(kept.credentials.is_some());
    assert!(kept.session.as_ref().unwrap().auth_key.is_some());
    let dropped = client(false);
    assert!(dropped.credentials.is_none());
    assert!(dropped.session.as_ref().unwrap().auth_key.is_none());
}

#[test]
fn session_without_credentials_fails_and_sends_nothing() {
    let mut client = client(false);
    let before = client.connector.connector.requests;
    client.session = None;
    let error = client.session().unwrap_err();
    assert_eq!(error.kind, ClientErrorKind::AuthFail);
    assert_eq!(error.message(), "session reconnection disabled");
    assert_eq!(client.connector.connector.requests, before);
    assert!(client.session.is_none());
}

#[test]
fn session_after_a_reset_takes_one_handshake() {
    let mut client = client(true);
    client.reset_device().unwrap();
    let before = client.connector.connector.requests;
    let id = client.session().unwrap();
    assert_eq!(client.connector.connector.requests, before + 2);
    assert!(client.is_connected());
    assert_eq!(client.session_id(), Some(id));
    assert!(id < 16);
}

#[test]
fn reset_hands_a_request_to_the_connector() {
    let mut client = client(true);
    let before = client.connector.connector.requests;
    client.reset_device().unwrap();
    assert_eq!(client.connector.connector.requests, before + 1);
}

#[test]
fn closing_a_client_tells_the_device_and_gives_up_the_session() {
    let mut client = client(true);
    let before = client.connector.connector.requests;
    client.close();
    assert_eq!(client.connector.connector.requests, before + 1);
    assert!(client.session.is_none());
    assert!(!client.is_connected());
    client.close();
    assert_eq!(client.connector.connector.requests, before + 1);
    assert_eq!(client.echo(b"again").unwrap(), b"again".to_vec());
    assert_eq!(client.connector.connector.requests, before + 4);
}

#[test]
fn valid_hmac_key_is_stored_under_its_number() {
    let mut client = client(true);
    let id = client
        .put_hmac_key(
            200,
            label(b"hmac"),
            Domain::all(),
            Capability { bits: CAPABILITY_ALL },
            HmacAlg::SHA256,
            vec![0x0b; 20],
        )
        .unwrap();
    assert_eq!(id, 200);
}
