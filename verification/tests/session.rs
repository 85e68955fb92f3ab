use yubihsm::commands::Command;
use yubihsm::connector::{status_is_ok, Connector, Link, Status};
use yubihsm::error::{ConnectionError, ConnectionErrorKind, ErrorCause, SessionErrorKind};
use yubihsm::mockhsm::MockHsm;
use yubihsm::response::HsmErrorKind;
use yubihsm::responses::Response;
use yubihsm::scp03::{compute_iv, AuthenticationKey};
use yubihsm::securechannel::Channel;
use yubihsm::session::{is_timed_out, Session, SESSION_INACTIVITY_TIMEOUT, TIMEOUT_SKEW_INTERVAL};

/// A connector that records what it carries and can spoil what comes back.
struct Wire {
    device: MockHsm,
    requests: Vec<Vec<u8>>,
    responses: Vec<Vec<u8>>,
    flip: Option<usize>,
    fail: Option<ConnectionErrorKind>,
    status: String,
}

impl Wire {
    fn new() -> Wire {
        Wire {
            device: MockHsm::new(),
            requests: Vec::new(),
            responses: Vec::new(),
            flip: None,
            fail: None,
            status: "OK".to_string(),
        }
    }
}

impl Connector for Wire {
    fn status(&mut self) -> Result<Status, ConnectionError> {
        Ok(Status { message: self.status.clone(), serial: None, version: "test".to_string() })
    }

    fn send_command(&mut self, uuid: &[u8], request: Vec<u8>) -> Result<Vec<u8>, ConnectionError> {
        assert_eq!(uuid.len(), 36);
        self.requests.push(request.clone());
        if let Some(kind) = self.fail {
            return Err(ConnectionError { kind });
        }
        let mut response = self.device.send_command(uuid, request)?;
        if let Some(bit) = self.flip {
            response[bit / 8] ^= 1 << (bit % 8);
        }
        self.responses.push(response.clone());
        Ok(response)
    }
}

fn default_key() -> AuthenticationKey {
    AuthenticationKey::derive_from_password(b"password")
}

fn open(wire: &mut Link<Wire>) -> Session {
    Session::new(wire, 1, default_key(), false).expect("a session")
}

#[test]
fn timeout_is_thirty_seconds_less_one() {
    assert_eq!(SESSION_INACTIVITY_TIMEOUT, 30);
    assert_eq!(TIMEOUT_SKEW_INTERVAL, 1);
    assert!(!is_timed_out(0));
    assert!(!is_timed_out(28_999_999_999));
    assert!(!is_timed_out(29_000_000_000));
    assert!(is_timed_out(29_000_000_001));
    assert!(is_timed_out(30_000_000_000));
    assert!(is_timed_out(u128::MAX));
}

#[test]
fn handshake_takes_two_commands() {
    let mut wire = Link::new(Wire::new());
    let session = open(&mut wire);
    assert!(session.is_open());
    assert!(session.id() <= 15);
    assert_eq!(session.channel.counter, 1);
    assert!(session.auth_key.is_none());
    assert_eq!(wire.connector.requests.len(), 2);
    assert_eq!(wire.connector.requests[0][0], 0x03);
    assert_eq!(&wire.connector.requests[0][1..5], &[0x00, 0x0a, 0x00, 0x01]);
    assert_eq!(wire.connector.requests[0].len(), 13);
    assert_eq!(wire.connector.requests[1][0], 0x04);
    assert_eq!(wire.connector.requests[1].len(), 3 + 1 + 8 + 8);
    assert_eq!(wire.connector.responses[0][0], 0x83);
    assert_eq!(wire.connector.responses[0].len(), 3 + 1 + 8 + 8);
    assert_eq!(wire.connector.responses[1][0], 0x84);
    assert_eq!(wire.connector.responses[1].len(), 3 + 1 + 8);
    assert_eq!(&session.channel.context[..8], &wire.connector.requests[0][5..13]);
    assert_eq!(&session.channel.context[8..], &wire.connector.responses[0][4..12]);
}

#[test]
fn handshake_keeps_the_key_where_asked() {
    let mut wire = Link::new(Wire::new());
    let session = Session::new(&mut wire, 1, default_key(), true).unwrap();
    assert_eq!(session.auth_key.unwrap().bytes, default_key().bytes);
}

#[test]
fn host_challenges_differ_from_session_to_session() {
    let mut wire = Link::new(Wire::new());
    let first = open(&mut wire);
    let second = open(&mut wire);
    assert_ne!(first.id(), second.id());
    assert_ne!(wire.connector.requests[0][5..13], wire.connector.requests[2][5..13]);
    assert_ne!(wire.connector.responses[0][4..12], wire.connector.responses[2][4..12]);
}

#[test]
fn wrong_key_fails_authentication() {
    let mut wire = Link::new(Wire::new());
    let key = AuthenticationKey::derive_from_password(b"not the password");
    let error = Session::new(&mut wire, 1, key, false).err().unwrap();
    assert_eq!(error.kind, SessionErrorKind::AuthFailed);
    assert_eq!(wire.connector.requests.len(), 1);
}

#[test]
fn unknown_key_is_a_response_error() {
    let mut wire = Link::new(Wire::new());
    let error = Session::new(&mut wire, 77, default_key(), false).err().unwrap();
    assert_eq!(error.kind, SessionErrorKind::ResponseError);
    assert_eq!(error.cause, ErrorCause::Device(HsmErrorKind::ObjectNotFound));
}

#[test]
fn connector_must_report_ok() {
    let mut wire = Link::new(Wire::new());
    assert!(Session::create(&mut wire, 1, default_key(), false).is_ok());
    assert!(Session::create_from_password(&mut wire, 1, b"password", false).is_ok());
    wire.connector.status = "NO_DEVICE".to_string();
    let before = wire.connector.requests.len();
    let error = Session::create(&mut wire, 1, default_key(), false).err().unwrap();
    assert_eq!(error.kind, SessionErrorKind::CreateFailed);
    assert_eq!(wire.connector.requests.len(), before);
    assert!(!status_is_ok(&Status { message: "ok".to_string(), serial: None, version: String::new() }));
    assert!(status_is_ok(&Status { message: "OK".to_string(), serial: None, version: String::new() }));
}

#[test]
fn failing_connector_is_a_protocol_error_that_names_the_failure() {
    let mut wire = Link::new(Wire::new());
    wire.connector.fail = Some(ConnectionErrorKind::IoError);
    let error = Session::new(&mut wire, 1, default_key(), false).err().unwrap();
    assert_eq!(error.kind, SessionErrorKind::ProtocolError);
    assert_eq!(error.cause, ErrorCause::Connection(ConnectionErrorKind::IoError));
    assert!(error.is_transient());
}

#[test]
fn echo_through_a_session() {
    let mut wire = Link::new(Wire::new());
    let mut session = open(&mut wire);
    let chain = session.channel.mac_chaining_value.clone();
    let response = session
        .send_encrypted_command(&mut wire, Command::Echo { message: b"hello".to_vec() })
        .unwrap();
    assert!(matches!(response, Response::Echo { ref message } if message == b"hello"));
    assert_eq!(session.channel.counter, 2);
    assert_ne!(session.channel.mac_chaining_value, chain);
    assert_eq!(wire.connector.requests.len(), 3);
    assert_eq!(wire.connector.requests[2][0], 0x05);
    assert_eq!(wire.connector.requests[2].len(), 3 + 1 + 16 + 8);
    assert_eq!(wire.connector.responses[2][0], 0x85);
}

#[test]
fn idle_session_times_out_and_sends_nothing() {
    let mut wire = Link::new(Wire::new());
    let mut session = open(&mut wire);
    let sent = wire.connector.requests.len();
    let response = session.send_encrypted_command_after(
        &mut wire,
        Command::Echo { message: b"in time".to_vec() },
        29_000_000_000,
    );
    assert!(response.is_ok());
    assert_eq!(wire.connector.requests.len(), sent + 1);
    let error = session
        .send_encrypted_command_after(
            &mut wire,
            Command::Echo { message: b"late".to_vec() },
            30_000_000_000,
        )
        .unwrap_err();
    assert_eq!(error.kind, SessionErrorKind::TimeoutError);
    assert!(error.is_transient());
    assert!(!session.is_open());
    assert_eq!(session.channel.enc_key, vec![0; 16]);
    assert_eq!(wire.connector.requests.len(), sent + 1);
    let error = session
        .send_encrypted_command_after(&mut wire, Command::Echo { message: vec![] }, 0)
        .unwrap_err();
    assert_eq!(error.kind, SessionErrorKind::ProtocolError);
    assert_eq!(wire.connector.requests.len(), sent + 1);
}

fn copy_of(session: &Session) -> Session {
    Session {
        id: session.id,
        channel: Channel {
            id: session.channel.id,
            security_level: session.channel.security_level,
            counter: session.channel.counter,
            pending: session.channel.pending,
            enc_key: session.channel.enc_key.clone(),
            mac_key: session.channel.mac_key.clone(),
            rmac_key: session.channel.rmac_key.clone(),
            mac_chaining_value: session.channel.mac_chaining_value.clone(),
            context: session.channel.context.clone(),
        },
        last_command_timestamp: session.last_command_timestamp,
        auth_key: None,
    }
}

#[test]
fn any_flipped_bit_of_an_answer_is_a_response_error() {
    let mut wire = Link::new(Wire::new());
    let mut session = open(&mut wire);
    let sealed = session.seal_command(&Command::Echo { message: b"hello".to_vec() }).unwrap();
    let answer = wire.send_command(&[b'0'; 36], sealed.serialize()).unwrap();
    assert_eq!(answer.len(), 3 + 1 + 16 + 8);
    let mut intact = copy_of(&session);
    assert!(matches!(intact.receive(&answer), Ok(Response::Echo { ref message }) if message == b"hello"));
    assert!(intact.is_open());
    for bit in 0..answer.len() * 8 {
        let mut spoiled = answer.clone();
        spoiled[bit / 8] ^= 1 << (bit % 8);
        let mut session = copy_of(&session);
        let error = session.receive(&spoiled).unwrap_err();
        assert_eq!(error.kind, SessionErrorKind::ResponseError);
        assert!(!session.is_open());
        assert_eq!(session.channel.mac_key, vec![0; 16]);
        assert_eq!(session.channel.enc_key, vec![0; 16]);
    }
}

#[test]
fn flipped_bit_on_the_way_back_ends_the_session() {
    let mut wire = Link::new(Wire::new());
    let mut session = open(&mut wire);
    wire.connector.flip = Some(40);
    let error = session
        .send_encrypted_command(&mut wire, Command::Echo { message: b"hello".to_vec() })
        .unwrap_err();
    assert_eq!(error.kind, SessionErrorKind::ResponseError);
    assert!(!session.is_open());
}

#[test]
fn an_answer_that_nobody_awaits_is_a_protocol_error() {
    let mut wire = Link::new(Wire::new());
    let mut session = open(&mut wire);
    let error = session.receive(&[0x85, 0x00, 0x00]).unwrap_err();
    assert_eq!(error.kind, SessionErrorKind::ProtocolError);
    assert!(session.is_open());
}

#[test]
fn failure_of_one_command_leaves_the_session_open() {
    let mut wire = Link::new(Wire::new());
    let mut session = open(&mut wire);
    let error = session
        .send_encrypted_command(&mut wire, Command::GetOpaqueObject { object_id: 9 })
        .unwrap_err();
    assert_eq!(error.kind, SessionErrorKind::ResponseError);
    assert_eq!(error.cause, ErrorCause::Device(HsmErrorKind::ObjectNotFound));
    assert!(!error.is_transient());
    assert!(session.is_open());
    assert_eq!(session.channel.counter, 2);
    assert!(session
        .send_encrypted_command(&mut wire, Command::Echo { message: b"still here".to_vec() })
        .is_ok());
}

#[test]
fn failing_connector_ends_the_session() {
    let mut wire = Link::new(Wire::new());
    let mut session = open(&mut wire);
    wire.connector.fail = Some(ConnectionErrorKind::IoError);
    let error = session
        .send_encrypted_command(&mut wire, Command::Echo { message: vec![1] })
        .unwrap_err();
    assert_eq!(error.cause, ErrorCause::Connection(ConnectionErrorKind::IoError));
    assert!(!session.is_open());
}

#[test]
fn counters_of_a_session_are_one_to_n() {
    let mut wire = Link::new(Wire::new());
    let mut session = open(&mut wire);
    let mut ivs = Vec::new();
    for n in 1..=8u32 {
        assert_eq!(session.channel.counter, n);
        ivs.push(compute_iv(&session.channel.enc_key, session.channel.counter));
        session.send_encrypted_command(&mut wire, Command::Echo { message: vec![n as u8] }).unwrap();
    }
    assert_eq!(session.channel.counter, 9);
    ivs.sort();
    ivs.dedup();
    assert_eq!(ivs.len(), 8);
}

#[test]
fn too_long_a_command_is_a_protocol_error_and_changes_nothing() {
    let mut wire = Link::new(Wire::new());
    let mut session = open(&mut wire);
    let sent = wire.connector.requests.len();
    let error = session
        .send_encrypted_command(&mut wire, Command::Echo { message: vec![0; 2040] })
        .unwrap_err();
    assert_eq!(error.kind, SessionErrorKind::ProtocolError);
    assert!(session.is_open());
    assert_eq!(session.channel.counter, 1);
    assert_eq!(wire.connector.requests.len(), sent);
}

#[test]
fn closing_tells_the_device_and_wipes_the_keys() {
    let mut wire = Link::new(Wire::new());
    let mut session = open(&mut wire);
    assert_eq!(wire.connector.device.state.sessions.len(), 1);
    session.close(&mut wire);
    assert!(!session.is_open());
    assert_eq!(session.channel.enc_key, vec![0; 16]);
    assert_eq!(session.channel.mac_key, vec![0; 16]);
    assert_eq!(session.channel.rmac_key, vec![0; 16]);
    assert_eq!(session.channel.mac_chaining_value, vec![0; 16]);
    assert_eq!(wire.connector.device.state.sessions.len(), 0);
    let sent = wire.connector.requests.len();
    session.close(&mut wire);
    assert_eq!(wire.connector.requests.len(), sent);
}

#[test]
fn closing_a_timed_out_session_sends_nothing() {
    let mut wire = Link::new(Wire::new());
    let mut session = open(&mut wire);
    let sent = wire.connector.requests.len();
    session.close_after(&mut wire, 29_000_000_001);
    assert!(!session.is_open());
    assert_eq!(session.channel.enc_key, vec![0; 16]);
    assert_eq!(wire.connector.requests.len(), sent);
    assert_eq!(wire.connector.device.state.sessions.len(), 1);
    let mut session = open(&mut wire);
    let sent = wire.connector.requests.len();
    session.close_after(&mut wire, 29_000_000_000);
    assert!(!session.is_open());
    assert_eq!(wire.connector.requests.len(), sent + 1);
    assert_eq!(wire.connector.requests[sent][0], 0x05);
    assert_eq!(wire.connector.device.state.sessions.len(), 1);
}

#[test]
fn closing_never_fails() {
    let mut wire = Link::new(Wire::new());
    let mut session = open(&mut wire);
    wire.connector.fail = Some(ConnectionErrorKind::UsbError);
    session.close(&mut wire);
    assert!(!session.is_open());
}

#[test]
fn connector_status_passes_through() {
    let mut wire = Link::new(Wire::new());
    let mut session = open(&mut wire);
    let status = session.connector_status(&mut wire).unwrap();
    assert_eq!(status.message, "OK");
}

/// A connector that cannot tell its status.
struct Mute;

impl Connector for Mute {
    fn status(&mut self) -> Result<Status, ConnectionError> {
        Err(ConnectionError { kind: ConnectionErrorKind::UsbError })
    }

    fn send_command(&mut self, _uuid: &[u8], _request: Vec<u8>) -> Result<Vec<u8>, ConnectionError> {
        Err(ConnectionError { kind: ConnectionErrorKind::UsbError })
    }
}

#[test]
fn connector_status_failure_is_a_protocol_error() {
    let mut wire = Link::new(Wire::new());
    let mut session = open(&mut wire);
    let mut mute = Link::new(Mute);
    let error = session.connector_status(&mut mute).unwrap_err();
    assert_eq!(error.kind, SessionErrorKind::ProtocolError);
    assert_eq!(error.cause, ErrorCause::Connection(ConnectionErrorKind::UsbError));
    assert!(session.is_open());
}
