//! Sessions: the host's end of a secure channel, with its lifetime.
//!
//! A session is opened by a handshake of two commands, carries one command at
//! a time, and ends when it is closed, when it has been idle for too long, or
//! when anything fails that is not the device's answer to a single command.

use crate::codec::{copy_bytes, CodecError};
use crate::command::{CommandCode, CommandMessage};
use crate::commands::Command;
use crate::connector::{ready, status_is_ok, Connector, Link, Status};
use crate::crypto::{clock_elapsed, clock_now, ct_eq, duration_nanos, random_bytes, random_uuid,
    UUID_SIZE};
use crate::error::{ConnectionError, ErrorCause, SessionError, SessionErrorKind};
use crate::response::{HsmErrorKind, ResponseCode, ResponseMessage};
use crate::responses::Response;
use crate::scp03::{zeros, AuthenticationKey, CHALLENGE_SIZE, CRYPTOGRAM_SIZE};
use crate::securechannel::{authentication_failure, Channel, SecurityLevel};
use std::time::Instant;
use vstd::prelude::*;

verus! {

/// Seconds of idleness after which the device ends a session.
pub const SESSION_INACTIVITY_TIMEOUT: u64 = 30;

/// Seconds by which the host ends a session earlier than the device would,
/// so that the host is always first.
pub const TIMEOUT_SKEW_INTERVAL: u64 = 1;

/// Nanoseconds in a second.
pub const NANOS_PER_SECOND: u128 = 1_000_000_000;

/// Whether a session that has been idle for `elapsed` nanoseconds has timed
/// out: it has been idle for more than the timeout less the skew.
pub open spec fn timed_out(elapsed: u128) -> bool {
    elapsed > (SESSION_INACTIVITY_TIMEOUT - TIMEOUT_SKEW_INTERVAL) * NANOS_PER_SECOND
}

/// Whether a session that has been idle for `elapsed` nanoseconds has timed
/// out.
pub fn is_timed_out(elapsed: u128) -> (r: bool)
    ensures
        r == timed_out(elapsed),
{
    elapsed > ((SESSION_INACTIVITY_TIMEOUT - TIMEOUT_SKEW_INTERVAL) as u128) * NANOS_PER_SECOND
}

/// The command that begins a handshake.
pub open spec fn create_session_request(
    authentication_key_id: u16,
    host_challenge: Seq<u8>,
) -> CommandMessage<
    Seq<u8>,
> {
    CommandMessage {
        command_type: CommandCode::CreateSession,
        session_id: None,
        data: (Command::CreateSession { authentication_key_id, host_challenge }).payload(),
        mac: None,
    }
}

/// What the bytes that came back for a command of type `command_type` stand
/// for: a response that reports the success of that command, or the reason
/// why they do not. Bytes that are no frame are a protocol error; a failure
/// of the device is a response error; the success of another command is a
/// protocol error.
pub open spec fn checked(command_type: CommandCode, bytes: Seq<u8>) -> Result<
    ResponseMessage<Seq<u8>>,
    SessionError,
> {
    match ResponseMessage::from_wire(bytes) {
        Err(e) => Err(
            SessionError { kind: SessionErrorKind::ProtocolError, cause: ErrorCause::Codec(e) },
        ),
        Ok(response) => if response.code.spec_is_err() {
            match response.error_kind() {
                Some(kind) => Err(
                    SessionError {
                        kind: SessionErrorKind::ResponseError,
                        cause: ErrorCause::Device(kind),
                    },
                ),
                None => Err(
                    SessionError {
                        kind: SessionErrorKind::ResponseError,
                        cause: ErrorCause::Local,
                    },
                ),
            }
        } else if response.code != ResponseCode::Success(command_type) {
            Err(SessionError { kind: SessionErrorKind::ProtocolError, cause: ErrorCause::Local })
        } else {
            Ok(response)
        },
    }
}

/// Parses the bytes that came back for a command and checks that they report
/// the success of that command.
pub fn check_response(command_type: CommandCode, bytes: &[u8]) -> (r: Result<
    ResponseMessage,
    SessionError,
>)
    ensures
        match r {
            Ok(response) => response@.wf() && checked(command_type, bytes@) == Ok::<
                ResponseMessage<Seq<u8>>,
                SessionError,
            >(response@),
            Err(e) => checked(command_type, bytes@) == Err::<
                ResponseMessage<Seq<u8>>,
                SessionError,
            >(e),
        },
{
    let response = match ResponseMessage::parse(bytes) {
        Ok(response) => response,
        Err(e) => {
            return Err(SessionError::codec(e));
        },
    };
    if response.is_err() {
        return match response.hsm_error() {
            Some(kind) => Err(SessionError::device(kind)),
            None => Err(SessionError::new(SessionErrorKind::ResponseError)),
        };
    }
    match response.code {
        ResponseCode::Success(code) => if code == command_type {
            Ok(response)
        } else {
            Err(SessionError::new(SessionErrorKind::ProtocolError))
        },
        ResponseCode::DeviceError => Err(SessionError::new(SessionErrorKind::ProtocolError)),
    }
}

/// The channel that the device's answer to a request for a session gives.
/// The answer must carry the number of the session and, as its payload, the
/// card challenge and the card cryptogram; the cryptogram must be the one
/// that the keys derived from the two challenges give, else authentication
/// has failed.
pub open spec fn accepted_channel(
    key: Seq<u8>,
    host_challenge: Seq<u8>,
    response: ResponseMessage<Seq<u8>>,
) -> Result<Channel<Seq<u8>>, SessionError> {
    match (response.session_id, Response::from_payload(CommandCode::CreateSession, response.data)) {
        (Some(id), Ok(Response::CreateSession { card_challenge, card_cryptogram })) => {
            let channel = Channel::established(id, key, host_challenge, card_challenge);
            if channel.card_cryptogram() == card_cryptogram {
                Ok(channel)
            } else {
                Err(SessionError { kind: SessionErrorKind::AuthFailed, cause: ErrorCause::Local })
            }
        },
        (Some(_), Err(e)) => Err(
            SessionError { kind: SessionErrorKind::ProtocolError, cause: ErrorCause::Codec(e) },
        ),
        _ => Err(SessionError { kind: SessionErrorKind::ProtocolError, cause: ErrorCause::Local }),
    }
}

/// Derives the channel from the device's answer to a request for a session,
/// and compares the card cryptogram in constant time.
pub fn accept_session(
    authentication_key: &AuthenticationKey,
    host_challenge: &[u8],
    response: &ResponseMessage,
) -> (r: Result<Channel, SessionError>)
    requires
        authentication_key.wf(),
        host_challenge@.len() == CHALLENGE_SIZE,
    ensures
        match r {
            Ok(channel) => channel@.wf() && accepted_channel(
                authentication_key@,
                host_challenge@,
                response@,
            ) == Ok::<Channel<Seq<u8>>, SessionError>(channel@),
            Err(e) => accepted_channel(authentication_key@, host_challenge@, response@) == Err::<
                Channel<Seq<u8>>,
                SessionError,
            >(e),
        },
{
    let id = match response.session_id {
        Some(id) => id,
        None => {
            return Err(SessionError::new(SessionErrorKind::ProtocolError));
        },
    };
    match Response::deserialize(CommandCode::CreateSession, response.data.as_slice()) {
        Ok(Response::CreateSession { card_challenge, card_cryptogram }) => {
            let channel = Channel::new(
                id,
                authentication_key,
                host_challenge,
                card_challenge.as_slice(),
            );
            let expected = channel.card_cryptogram();
            if ct_eq(expected.as_slice(), card_cryptogram.as_slice()) {
                Ok(channel)
            } else {
                let mut discarded = channel;
                discarded.terminate();
                Err(SessionError::new(SessionErrorKind::AuthFailed))
            }
        },
        Ok(_) => Err(SessionError::new(SessionErrorKind::ProtocolError)),
        Err(e) => Err(SessionError::codec(e)),
    }
}

/// Hands a command to the connector, once, under a fresh UUID of 36
/// characters, and brings back the bytes of the answer. A failure of the
/// connector is a protocol error that names the failure.
pub fn exchange<C: Connector>(connector: &mut Link<C>, command: &CommandMessage) -> (r: Result<
    Vec<u8>,
    SessionError,
>)
    requires
        old(connector).inv(),
        command@.wf(),
    ensures
        final(connector).inv(),
        final(connector).sent@ == old(connector).sent@.push(command@.wire()),
        final(connector).names@.len() == old(connector).names@.len() + 1,
        final(connector).names@.drop_last() == old(connector).names@,
        final(connector).names@.last().len() == UUID_SIZE,
        final(connector).statuses@ == old(connector).statuses@,
        match r {
            Ok(answer) => final(connector).answers@ == old(connector).answers@.push(answer@),
            Err(e) => final(connector).answers@ == old(connector).answers@ && e.kind
                == SessionErrorKind::ProtocolError && e.cause is Connection,
        },
{
    let uuid = random_uuid();
    let request = command.serialize();
    let ghost before = connector.names@;
    let r = connector.send_command(uuid.as_slice(), request);
    proof {
        assert(connector.names@.drop_last() =~= before);
    }
    match r {
        Ok(bytes) => Ok(bytes),
        Err(e) => Err(SessionError::connection(e)),
    }
}

/// What a session hands on of what the connector has told of itself: a
/// status as it is, a failure as a protocol error that names the failure.
pub open spec fn status_outcome(answer: Result<Status, ConnectionError>) -> Result<
    Status,
    SessionError,
> {
    match answer {
        Ok(status) => Ok(status),
        Err(e) => Err(
            SessionError {
                kind: SessionErrorKind::ProtocolError,
                cause: ErrorCause::Connection(e.kind),
            },
        ),
    }
}

/// The host's end of a session.
pub struct Session {
    /// Number of the session, given by the device.
    pub id: u8,
    /// The secure channel.
    pub channel: Channel,
    /// When the last command went to the device.
    pub last_command_timestamp: Instant,
    /// The authentication key, kept where the session may be opened again.
    pub auth_key: Option<AuthenticationKey>,
}

/// What a handshake under the given host challenge does, told by what the
/// link had on record before and has on record afterwards: the requests
/// that it has handed over, and the answers that have come back.
///
/// The request for a session is handed over first. Where nothing comes back,
/// the connector has failed. What comes back must report the success of the
/// request, as `checked` says, and give a channel, as `accepted_channel`
/// says; else the handshake ends there with that failure. Then the
/// completion of the handshake is handed over. Where nothing comes back, the
/// connector has failed; bytes that are no frame are a protocol error; a
/// frame that is not the device's confirmation fails as
/// `authentication_failure` says. The confirmation gives an open session on
/// the authenticated channel, which keeps the key exactly if `reconnect` is
/// set.
pub open spec fn handshake_effect(
    old_sent: Seq<Seq<u8>>,
    old_answers: Seq<Seq<u8>>,
    new_sent: Seq<Seq<u8>>,
    new_answers: Seq<Seq<u8>>,
    auth_key_id: u16,
    key: Seq<u8>,
    reconnect: bool,
    host_challenge: Seq<u8>,
    r: Result<Session, SessionError>,
) -> bool {
    let sent = new_sent.subrange(old_sent.len() as int, new_sent.len() as int);
    let answers = new_answers.subrange(old_answers.len() as int, new_answers.len() as int);
    &&& old_sent.len() <= new_sent.len()
    &&& old_answers.len() <= new_answers.len()
    &&& new_sent.subrange(0, old_sent.len() as int) == old_sent
    &&& new_answers.subrange(0, old_answers.len() as int) == old_answers
    &&& sent.len() >= 1
    &&& sent[0] == create_session_request(auth_key_id, host_challenge).wire()
    &&& if answers.len() == 0 {
        sent.len() == 1 && (r matches Err(e) && e.kind == SessionErrorKind::ProtocolError
            && e.cause is Connection)
    } else {
        match checked(CommandCode::CreateSession, answers[0]) {
            Err(e) => sent.len() == 1 && answers.len() == 1 && r == Err::<Session, SessionError>(e),
            Ok(response) => match accepted_channel(key, host_challenge, response) {
                Err(e) => sent.len() == 1
                    && answers.len() == 1
                    && r == Err::<Session, SessionError>(e),
                Ok(channel) => {
                    let pending = channel.after_authentication_command();
                    &&& channel.authentication_command().wf()
                    &&& channel.host_cryptogram().len() == CRYPTOGRAM_SIZE
                    &&& sent.len() == 2
                    &&& sent[1] == channel.authentication_command().wire()
                    &&& if answers.len() == 1 {
                        r matches Err(e) && e.kind == SessionErrorKind::ProtocolError && e.cause
                            is Connection
                    } else {
                        &&& answers.len() == 2
                        &&& match ResponseMessage::from_wire(answers[1]) {
                            Err(e) => r == Err::<Session, SessionError>(
                                SessionError {
                                    kind: SessionErrorKind::ProtocolError,
                                    cause: ErrorCause::Codec(e),
                                },
                            ),
                            Ok(confirmation) => if pending.accepts_authentication(confirmation) {
                                &&& r matches Ok(session)
                                &&& session.id == channel.id
                                &&& session.channel@ == pending.authenticated()
                                &&& reconnect ==> (session.auth_key matches Some(kept) && kept@
                                    == key)
                                &&& !reconnect ==> session.auth_key is None
                            } else {
                                r == Err::<Session, SessionError>(
                                    authentication_failure(confirmation),
                                )
                            },
                        }
                    }
                },
            },
        }
    }
}

/// What opening a session does: no session can be created and nothing is
/// sent, or a handshake takes place under some host challenge of eight
/// bytes.
pub open spec fn opening_effect(
    old_sent: Seq<Seq<u8>>,
    old_answers: Seq<Seq<u8>>,
    new_sent: Seq<Seq<u8>>,
    new_answers: Seq<Seq<u8>>,
    auth_key_id: u16,
    key: Seq<u8>,
    reconnect: bool,
    r: Result<Session, SessionError>,
) -> bool {
    ||| (r matches Err(e) && e.kind == SessionErrorKind::CreateFailed && new_sent == old_sent
        && new_answers == old_answers)
    ||| exists|host_challenge: Seq<u8>|
        host_challenge.len() == CHALLENGE_SIZE && #[trigger] handshake_effect(
            old_sent,
            old_answers,
            new_sent,
            new_answers,
            auth_key_id,
            key,
            reconnect,
            host_challenge,
            r,
        )
}

impl Session {
    /// The channel is well formed and carries the session's number, and a
    /// key that is kept is well formed.
    pub open spec fn wf(&self) -> bool {
        &&& self.channel@.wf()
        &&& self.channel@.id == self.id
        &&& self.auth_key matches Some(key) ==> key.wf()
    }

    /// Whether the session is open: its channel is authenticated.
    pub open spec fn spec_is_open(&self) -> bool {
        self.channel@.security_level == SecurityLevel::Authenticated
    }

    /// Number of the session.
    pub fn id(&self) -> (id: u8)
        ensures
            id == self.id,
    {
        self.id
    }

    /// Whether the session is open.
    pub fn is_open(&self) -> (r: bool)
        ensures
            r == self.spec_is_open(),
    {
        self.channel.security_level == SecurityLevel::Authenticated
    }

    /// Asks the connector whether it is ready, and hands on what it tells:
    /// its status as it is, its failure as a protocol error that names the
    /// failure. Nothing is handed to the device, and the session stays as it
    /// is.
    pub fn connector_status<C: Connector>(&mut self, connector: &mut Link<C>) -> (r: Result<
        Status,
        SessionError,
    >)
        requires
            old(connector).inv(),
        ensures
            final(connector).inv(),
            final(connector).sent@ == old(connector).sent@,
            final(connector).answers@ == old(connector).answers@,
            final(connector).statuses@.len() == old(connector).statuses@.len() + 1,
            final(connector).statuses@.drop_last() == old(connector).statuses@,
            r == status_outcome(final(connector).statuses@.last()),
            *final(self) == *old(self),
            r matches Err(e) ==> e.kind == SessionErrorKind::ProtocolError && e.cause
                is Connection,
    {
        let ghost before = connector.statuses@;
        let answer = connector.status();
        proof {
            assert(connector.statuses@.drop_last() =~= before);
        }
        match answer {
            Ok(status) => Ok(status),
            Err(e) => Err(SessionError::connection(e)),
        }
    }

    /// Opens a session with the given host challenge: requests a session,
    /// derives the channel from the answer and checks the card cryptogram,
    /// then completes the handshake and takes the device's confirmation. A
    /// session that comes back is open, with the counter at 1 and nothing
    /// pending; it keeps the key exactly if `reconnect` is set.
    pub fn handshake<C: Connector>(
        connector: &mut Link<C>,
        auth_key_id: u16,
        auth_key: AuthenticationKey,
        reconnect: bool,
        host_challenge: Vec<u8>,
    ) -> (r: Result<Session, SessionError>)
        requires
            old(connector).inv(),
            auth_key.wf(),
            host_challenge@.len() == CHALLENGE_SIZE,
        ensures
            final(connector).inv(),
            final(connector).statuses@ == old(connector).statuses@,
            handshake_effect(
                old(connector).sent@,
                old(connector).answers@,
                final(connector).sent@,
                final(connector).answers@,
                auth_key_id,
                auth_key@,
                reconnect,
                host_challenge@,
                r,
            ),
            final(connector).sent@.len() <= old(connector).sent@.len() + 2,
            r matches Ok(session) ==> {
                &&& session.wf()
                &&& session.spec_is_open()
                &&& session.channel@.counter == 1
                &&& session.channel@.pending is None
                &&& session.channel@.context.subrange(0, 8) == host_challenge@
                &&& reconnect ==> (session.auth_key matches Some(key) && key@ == auth_key@)
                &&& !reconnect ==> session.auth_key is None
            },
    {
        let payload = (Command::CreateSession {
            authentication_key_id: auth_key_id,
            host_challenge: copy_bytes(host_challenge.as_slice()),
        }).serialize();
        let request = CommandMessage {
            command_type: CommandCode::CreateSession,
            session_id: None,
            data: payload,
            mac: None,
        };
        assert(request@.body() =~= request@.data);
        let ghost before = connector.sent@;
        let ghost had = connector.answers@;
        let outcome = exchange(connector, &request);
        proof {
            assert(connector.sent@.subrange(0, before.len() as int) =~= before);
            assert(connector.answers@.subrange(0, had.len() as int) =~= had);
            assert(connector.sent@.subrange(before.len() as int, connector.sent@.len() as int)
                =~= seq![request@.wire()]);
            if outcome is Ok {
                assert(connector.answers@.subrange(
                    had.len() as int,
                    connector.answers@.len() as int,
                ) =~= seq![outcome->Ok_0@]);
            } else {
                assert(connector.answers@.subrange(
                    had.len() as int,
                    connector.answers@.len() as int,
                ) =~= Seq::<Seq<u8>>::empty());
            }
        }
        let ghost first = connector.answers@.last();
        let bytes = match outcome {
            Ok(bytes) => bytes,
            Err(e) => {
                return Err(e);
            },
        };
        let response = match check_response(CommandCode::CreateSession, bytes.as_slice()) {
            Ok(response) => response,
            Err(e) => {
                return Err(e);
            },
        };
        let mut channel = match accept_session(&auth_key, host_challenge.as_slice(), &response) {
            Ok(channel) => channel,
            Err(e) => {
                return Err(e);
            },
        };
        assert(channel@.context.subrange(0, 8) =~= host_challenge@);
        let completion = match channel.authenticate_session() {
            Ok(completion) => completion,
            Err(e) => {
                return Err(e);
            },
        };
        let ghost asked = completion@.wire();
        let outcome = exchange(connector, &completion);
        proof {
            assert(connector.sent@.subrange(0, before.len() as int) =~= before);
            assert(connector.answers@.subrange(0, had.len() as int) =~= had);
            assert(connector.sent@.subrange(before.len() as int, connector.sent@.len() as int)
                =~= seq![request@.wire(), asked]);
            if outcome is Ok {
                assert(connector.answers@.subrange(
                    had.len() as int,
                    connector.answers@.len() as int,
                ) =~= seq![first, outcome->Ok_0@]);
            } else {
                assert(connector.answers@.subrange(
                    had.len() as int,
                    connector.answers@.len() as int,
                ) =~= seq![first]);
            }
        }
        let bytes = match outcome {
            Ok(bytes) => bytes,
            Err(e) => {
                return Err(e);
            },
        };
        let confirmation = match ResponseMessage::parse(bytes.as_slice()) {
            Ok(confirmation) => confirmation,
            Err(e) => {
                return Err(SessionError::codec(e));
            },
        };
        match channel.finish_authenticate_session(&confirmation) {
            Ok(()) => {},
            Err(e) => {
                return Err(e);
            },
        }
        let id = channel.id();
        Ok(
            Session {
                id,
                channel,
                last_command_timestamp: clock_now(),
                auth_key: if reconnect {
                    Some(auth_key)
                } else {
                    None
                },
            },
        )
    }

    /// Opens a session under a host challenge of eight fresh random bytes.
    /// Where the random generator fails, the session cannot be created.
    pub fn new<C: Connector>(
        connector: &mut Link<C>,
        auth_key_id: u16,
        auth_key: AuthenticationKey,
        reconnect: bool,
    ) -> (r: Result<Session, SessionError>)
        requires
            old(connector).inv(),
            auth_key.wf(),
        ensures
            final(connector).inv(),
            final(connector).statuses@ == old(connector).statuses@,
            opening_effect(
                old(connector).sent@,
                old(connector).answers@,
                final(connector).sent@,
                final(connector).answers@,
                auth_key_id,
                auth_key@,
                reconnect,
                r,
            ),
            final(connector).sent@.len() <= old(connector).sent@.len() + 2,
            r matches Ok(session) ==> {
                &&& session.wf()
                &&& session.spec_is_open()
                &&& session.channel@.counter == 1
                &&& session.channel@.pending is None
                &&& reconnect ==> (session.auth_key matches Some(key) && key@ == auth_key@)
                &&& !reconnect ==> session.auth_key is None
            },
    {
        match random_bytes(CHALLENGE_SIZE) {
            Some(host_challenge) => Session::handshake(
                connector,
                auth_key_id,
                auth_key,
                reconnect,
                host_challenge,
            ),
            None => Err(SessionError::new(SessionErrorKind::CreateFailed)),
        }
    }

    /// Opens a session after asking the connector whether it is ready: a
    /// connector that fails to answer, or whose status is not `OK`, creates
    /// no session, and nothing is handed to the device.
    pub fn create<C: Connector>(
        connector: &mut Link<C>,
        auth_key_id: u16,
        auth_key: AuthenticationKey,
        reconnect: bool,
    ) -> (r: Result<Session, SessionError>)
        requires
            old(connector).inv(),
            auth_key.wf(),
        ensures
            final(connector).inv(),
            final(connector).statuses@.len() == old(connector).statuses@.len() + 1,
            final(connector).statuses@.drop_last() == old(connector).statuses@,
            !ready(final(connector).statuses@.last()) ==> (r matches Err(e) && e.kind
                == SessionErrorKind::CreateFailed && final(connector).sent@ == old(
                connector,
            ).sent@ && final(connector).answers@ == old(connector).answers@),
            opening_effect(
                old(connector).sent@,
                old(connector).answers@,
                final(connector).sent@,
                final(connector).answers@,
                auth_key_id,
                auth_key@,
                reconnect,
                r,
            ),
            final(connector).sent@.len() <= old(connector).sent@.len() + 2,
            r matches Ok(session) ==> {
                &&& session.wf()
                &&& session.spec_is_open()
                &&& session.channel@.counter == 1
                &&& session.channel@.pending is None
                &&& reconnect ==> (session.auth_key matches Some(key) && key@ == auth_key@)
                &&& !reconnect ==> session.auth_key is None
            },
    {
        let ghost before = connector.statuses@;
        let answer = connector.status();
        proof {
            assert(connector.statuses@.drop_last() =~= before);
        }
        let status = match answer {
            Ok(status) => status,
            Err(e) => {
                return Err(
                    SessionError {
                        kind: SessionErrorKind::CreateFailed,
                        cause: ErrorCause::Connection(e.kind),
                    },
                );
            },
        };
        if !status_is_ok(&status) {
            return Err(SessionError::new(SessionErrorKind::CreateFailed));
        }
        Session::new(connector, auth_key_id, auth_key, reconnect)
    }

    /// Opens a session with the key that a password stands for.
    pub fn create_from_password<C: Connector>(
        connector: &mut Link<C>,
        auth_key_id: u16,
        password: &[u8],
        reconnect: bool,
    ) -> (r: Result<Session, SessionError>)
        requires
            old(connector).inv(),
        ensures
            final(connector).inv(),
            opening_effect(
                old(connector).sent@,
                old(connector).answers@,
                final(connector).sent@,
                final(connector).answers@,
                auth_key_id,
                crate::crypto::pbkdf2_hmac_sha256(
                    password@,
                    crate::scp03::password_salt(),
                    crate::scp03::PBKDF2_ITERATIONS,
                    crate::scp03::AUTHENTICATION_KEY_SIZE,
                ),
                reconnect,
                r,
            ),
            final(connector).sent@.len() <= old(connector).sent@.len() + 2,
            r matches Ok(session) ==> {
                &&& session.wf()
                &&& session.spec_is_open()
                &&& session.channel@.counter == 1
                &&& session.channel@.pending is None
            },
    {
        Session::create(
            connector,
            auth_key_id,
            AuthenticationKey::derive_from_password(password),
            reconnect,
        )
    }
}

/// The frame that carries a typed command inside a session.
pub open spec fn inner_frame(command: Command<Seq<u8>>) -> CommandMessage<Seq<u8>> {
    CommandMessage {
        command_type: command.code(),
        session_id: None,
        data: command.payload(),
        mac: None,
    }
}

/// What the response inside an opened response stands for: the typed
/// response to the command, or the reason why there is none. A failure of
/// the device is a response error that names the failure; a payload that
/// does not parse is a protocol error.
pub open spec fn typed_response(inner: ResponseMessage<Seq<u8>>) -> Result<
    Response<Seq<u8>>,
    SessionError,
> {
    match inner.code {
        ResponseCode::DeviceError => match inner.error_kind() {
            Some(kind) => Err(
                SessionError {
                    kind: SessionErrorKind::ResponseError,
                    cause: ErrorCause::Device(kind),
                },
            ),
            None => Err(
                SessionError { kind: SessionErrorKind::ResponseError, cause: ErrorCause::Local },
            ),
        },
        ResponseCode::Success(code) => match Response::from_payload(code, inner.data) {
            Ok(response) => Ok(response),
            Err(e) => Err(
                SessionError { kind: SessionErrorKind::ProtocolError, cause: ErrorCause::Codec(e) },
            ),
        },
    }
}

/// Reads the typed response out of an opened response.
pub fn read_response(inner: &ResponseMessage) -> (r: Result<Response, SessionError>)
    ensures
        match r {
            Ok(response) => response@.wf() && typed_response(inner@) == Ok::<
                Response<Seq<u8>>,
                SessionError,
            >(response@),
            Err(e) => typed_response(inner@) == Err::<Response<Seq<u8>>, SessionError>(e),
        },
{
    match inner.code {
        ResponseCode::DeviceError => match inner.hsm_error() {
            Some(kind) => Err(SessionError::device(kind)),
            None => Err(SessionError::new(SessionErrorKind::ResponseError)),
        },
        ResponseCode::Success(code) => match Response::deserialize(code, inner.data.as_slice()) {
            Ok(response) => Ok(response),
            Err(e) => Err(SessionError::codec(e)),
        },
    }
}

/// What the bytes that came back for the pending command stand for, and
/// what becomes of the channel.
///
/// Inside a session every answer must be an authentic session message of
/// this session: bytes that are no frame, a failure that the device reports
/// outside the channel, a frame of another kind or session, and a tag that
/// is not the CMAC of what the frame carries are all response errors, and end
/// the channel. An authentic answer must decrypt to an answer to the pending
/// command, else this is a protocol error that ends the channel; what it
/// carries is then read as `typed_response` says. With no command pending,
/// this is a protocol error and changes nothing.
pub open spec fn taken(channel: Channel<Seq<u8>>, bytes: Seq<u8>) -> (
    Result<Response<Seq<u8>>, SessionError>,
    Channel<Seq<u8>>,
) {
    if channel.pending is None {
        (
            Err(SessionError { kind: SessionErrorKind::ProtocolError, cause: ErrorCause::Local }),
            channel,
        )
    } else {
        match ResponseMessage::from_wire(bytes) {
            Err(e) => (
                Err(
                    SessionError {
                        kind: SessionErrorKind::ResponseError,
                        cause: ErrorCause::Codec(e),
                    },
                ),
                channel.terminated(),
            ),
            Ok(response) => if !channel.response_authentic(response) {
                (
                    Err(
                        SessionError {
                            kind: SessionErrorKind::ResponseError,
                            cause: match response.error_kind() {
                                Some(kind) => ErrorCause::Device(kind),
                                None => ErrorCause::Local,
                            },
                        },
                    ),
                    channel.terminated(),
                )
            } else {
                match channel.opened_response(response) {
                    Some(inner) => (typed_response(inner), channel.after_response(response)),
                    None => (
                        Err(
                            SessionError {
                                kind: SessionErrorKind::ProtocolError,
                                cause: ErrorCause::Local,
                            },
                        ),
                        channel.terminated(),
                    ),
                }
            },
        }
    }
}

/// Whether `response` is what a session has brought back for `command`,
/// told by the requests that its link has handed over and the answers that
/// have come back: the last request is the sealed form of the command, under
/// a channel that could seal it, and the response is what the last answer
/// stands for on that channel.
pub open spec fn answered(
    sent: Seq<Seq<u8>>,
    answers: Seq<Seq<u8>>,
    command: Command<Seq<u8>>,
    response: Response<Seq<u8>>,
) -> bool {
    &&& sent.len() > 0
    &&& answers.len() > 0
    &&& exists|channel: Channel<Seq<u8>>|
        {
            &&& channel.can_seal(inner_frame(command))
            &&& sent.last() == channel.sealed_command(inner_frame(command)).wire()
            &&& (#[trigger] taken(channel.after_command(inner_frame(command)), answers.last())).0
                == Ok::<Response<Seq<u8>>, SessionError>(response)
        }
}

/// A result as contracts see it: a response by its view, an error as it is.
pub open spec fn response_outcome<E>(r: Result<Response, E>) -> Result<Response<Seq<u8>>, E> {
    match r {
        Ok(response) => Ok(response@),
        Err(e) => Err(e),
    }
}

/// What sending a typed command through a session does, given the time in
/// nanoseconds for which the session has been idle, told by the channel and
/// by what the link had on record before and has on record afterwards.
///
/// An open session that has been idle for too long times out: its channel
/// is terminated and nothing is handed over. A command that the channel
/// cannot seal is a protocol error, and nothing changes. Otherwise the
/// sealed command is handed over. Where nothing comes back, the connector
/// has failed and the channel is terminated; what comes back is taken as
/// `taken` says.
pub open spec fn sending_effect(
    channel: Channel<Seq<u8>>,
    old_sent: Seq<Seq<u8>>,
    old_answers: Seq<Seq<u8>>,
    command: Command<Seq<u8>>,
    elapsed: u128,
    r: Result<Response<Seq<u8>>, SessionError>,
    new_channel: Channel<Seq<u8>>,
    new_sent: Seq<Seq<u8>>,
    new_answers: Seq<Seq<u8>>,
) -> bool {
    let inner = inner_frame(command);
    let sent = channel.after_command(inner);
    if channel.security_level == SecurityLevel::Authenticated && timed_out(elapsed) {
        &&& r == Err::<Response<Seq<u8>>, SessionError>(
            SessionError { kind: SessionErrorKind::TimeoutError, cause: ErrorCause::Local },
        )
        &&& new_channel == channel.terminated()
        &&& new_sent == old_sent
        &&& new_answers == old_answers
    } else if !channel.can_seal(inner) {
        &&& r == Err::<Response<Seq<u8>>, SessionError>(
            SessionError { kind: SessionErrorKind::ProtocolError, cause: ErrorCause::Local },
        )
        &&& new_channel == channel
        &&& new_sent == old_sent
        &&& new_answers == old_answers
    } else {
        &&& new_sent == old_sent.push(channel.sealed_command(inner).wire())
        &&& if new_answers == old_answers {
            &&& r matches Err(e)
            &&& e.kind == SessionErrorKind::ProtocolError
            &&& e.cause is Connection
            &&& new_channel == sent.terminated()
        } else {
            &&& new_answers.len() == old_answers.len() + 1
            &&& new_answers.drop_last() == old_answers
            &&& r == taken(sent, new_answers.last()).0
            &&& new_channel == taken(sent, new_answers.last()).1
        }
    }
}

/// What closing a session hands to the connector, given the time in
/// nanoseconds for which the session has been idle: the sealed request to
/// close, where the session is open, has not timed out and can seal it;
/// else nothing.
pub open spec fn closing_effect(
    channel: Channel<Seq<u8>>,
    old_sent: Seq<Seq<u8>>,
    elapsed: u128,
    new_sent: Seq<Seq<u8>>,
) -> bool {
    let request = inner_frame(Command::CloseSession);
    if channel.security_level == SecurityLevel::Authenticated && !timed_out(elapsed)
        && channel.can_seal(request) {
        new_sent == old_sent.push(channel.sealed_command(request).wire())
    } else {
        new_sent == old_sent
    }
}

/// Whether a result is the given outcome, as contracts see it.
pub open spec fn is_outcome(
    r: Result<Response, SessionError>,
    outcome: Result<Response<Seq<u8>>, SessionError>,
) -> bool {
    match r {
        Ok(response) => outcome == Ok::<Response<Seq<u8>>, SessionError>(response@),
        Err(e) => outcome == Err::<Response<Seq<u8>>, SessionError>(e),
    }
}

impl Session {
    /// Seals a typed command for the device. Where the command is too long
    /// for a frame, or the channel cannot seal it, this is a protocol error
    /// and the session stays as it is; otherwise the channel advances as
    /// `Channel::after_command` says.
    pub fn seal_command(&mut self, command: &Command) -> (r: Result<CommandMessage, SessionError>)
        requires
            old(self).wf(),
            command@.wf(),
        ensures
            final(self).wf(),
            final(self).id == old(self).id,
            final(self).auth_key == old(self).auth_key,
            final(self).last_command_timestamp == old(self).last_command_timestamp,
            old(self).channel@.can_seal(inner_frame(command@)) ==> (r matches Ok(sealed)
                && sealed@.wf() && sealed@ == old(self).channel@.sealed_command(
                inner_frame(command@),
            ) && final(self).channel@ == old(self).channel@.after_command(inner_frame(command@))),
            !old(self).channel@.can_seal(inner_frame(command@)) ==> r == Err::<
                CommandMessage,
                SessionError,
            >(SessionError { kind: SessionErrorKind::ProtocolError, cause: ErrorCause::Local })
                && final(self).channel@ == old(self).channel@,
    {
        let payload = command.serialize();
        proof {
            crate::scp03::lemma_pad_round_trip(inner_frame(command@).wire());
            assert(inner_frame(command@).body() =~= command@.payload());
        }
        match CommandMessage::new(command.command_code(), payload) {
            Some(inner) => self.channel.encrypt_command(inner),
            None => Err(SessionError::new(SessionErrorKind::ProtocolError)),
        }
    }

    /// Opens the device's sealed answer and reads the typed response out of
    /// it. The channel goes on as `Channel::decrypt_response` says: it ends
    /// where the answer does not authenticate or does not decrypt to an
    /// answer to the pending command. A failure that the device reports
    /// inside the answer, and a payload that does not parse, leave the
    /// session open.
    pub fn open_response(&mut self, response: ResponseMessage) -> (r: Result<
        Response,
        SessionError,
    >)
        requires
            old(self).wf(),
            response@.wf(),
        ensures
            final(self).wf(),
            final(self).id == old(self).id,
            final(self).auth_key == old(self).auth_key,
            final(self).last_command_timestamp == old(self).last_command_timestamp,
            old(self).channel@.pending is None ==> r == Err::<Response, SessionError>(
                SessionError { kind: SessionErrorKind::ProtocolError, cause: ErrorCause::Local },
            ) && final(self).channel@ == old(self).channel@,
            old(self).channel@.pending is Some && !old(self).channel@.response_authentic(
                response@,
            ) ==> r == Err::<Response, SessionError>(
                SessionError { kind: SessionErrorKind::ResponseError, cause: ErrorCause::Local },
            ) && final(self).channel@ == old(self).channel@.terminated(),
            old(self).channel@.pending is Some && old(self).channel@.response_authentic(
                response@,
            ) ==> match old(self).channel@.opened_response(response@) {
                Some(inner) => final(self).channel@ == old(self).channel@.after_response(
                    response@,
                ) && match r {
                    Ok(typed) => typed@.wf() && typed_response(inner) == Ok::<
                        Response<Seq<u8>>,
                        SessionError,
                    >(typed@) && typed@.code() == old(self).channel@.pending->0,
                    Err(e) => typed_response(inner) == Err::<Response<Seq<u8>>, SessionError>(e),
                },
                None => r == Err::<Response, SessionError>(
                    SessionError {
                        kind: SessionErrorKind::ProtocolError,
                        cause: ErrorCause::Local,
                    },
                ) && final(self).channel@ == old(self).channel@.terminated(),
            },
    {
        match self.channel.decrypt_response(response) {
            Ok(inner) => {
                let typed = read_response(&inner);
                proof {
                    crate::responses::lemma_response_code_of_payload(
                        old(self).channel@.pending->0,
                        inner@.data,
                    );
                }
                typed
            },
            Err(e) => Err(e),
        }
    }

    /// Takes the bytes that came back for the pending command: result and
    /// channel are as `taken` says.
    pub fn receive(&mut self, bytes: &[u8]) -> (r: Result<Response, SessionError>)
        requires
            old(self).wf(),
        ensures
            final(self).wf(),
            final(self).id == old(self).id,
            final(self).auth_key == old(self).auth_key,
            final(self).last_command_timestamp == old(self).last_command_timestamp,
            is_outcome(r, taken(old(self).channel@, bytes@).0),
            final(self).channel@ == taken(old(self).channel@, bytes@).1,
            r matches Ok(typed) ==> typed@.wf() && typed@.code() == old(self).channel@.pending->0,
    {
        if self.channel.pending.is_none() {
            return Err(SessionError::new(SessionErrorKind::ProtocolError));
        }
        let response = match ResponseMessage::parse(bytes) {
            Ok(response) => response,
            Err(e) => {
                self.terminate();
                return Err(
                    SessionError {
                        kind: SessionErrorKind::ResponseError,
                        cause: ErrorCause::Codec(e),
                    },
                );
            },
        };
        if response.is_err() {
            let error = match response.hsm_error() {
                Some(kind) => SessionError::device(kind),
                None => SessionError::new(SessionErrorKind::ResponseError),
            };
            self.terminate();
            return Err(error);
        }
        self.open_response(response)
    }

    /// Ends the session on the host's side and wipes its keys.
    pub fn terminate(&mut self)
        requires
            old(self).wf(),
        ensures
            final(self).wf(),
            !final(self).spec_is_open(),
            final(self).channel@ == old(self).channel@.terminated(),
            final(self).id == old(self).id,
            final(self).auth_key == old(self).auth_key,
            final(self).last_command_timestamp == old(self).last_command_timestamp,
    {
        self.channel.terminate();
    }

    /// Sends a typed command and brings back the typed response, given the
    /// time in nanoseconds for which the session has been idle.
    ///
    /// A session that has been idle for too long times out and ends, and
    /// nothing is sent. A command that cannot be sealed is a protocol error
    /// and changes nothing. Otherwise the sealed command goes to the
    /// connector, and what comes back is taken as `receive` says. Every
    /// failure but that of the device's answer to the command itself ends
    /// the session. On success the response answers the command, the counter
    /// has advanced by one and nothing is pending. The time of the last
    /// command is read from the clock when an answer has come back, and
    /// stays as it is where none has.
    pub fn send_encrypted_command_after<C: Connector>(
        &mut self,
        connector: &mut Link<C>,
        command: Command,
        elapsed: u128,
    ) -> (r: Result<Response, SessionError>)
        requires
            old(self).wf(),
            old(connector).inv(),
            command@.wf(),
        ensures
            final(self).wf(),
            final(connector).inv(),
            final(self).id == old(self).id,
            final(self).auth_key == old(self).auth_key,
            final(connector).answers@ == old(connector).answers@
                ==> final(self).last_command_timestamp == old(self).last_command_timestamp,
            sending_effect(
                old(self).channel@,
                old(connector).sent@,
                old(connector).answers@,
                command@,
                elapsed,
                response_outcome(r),
                final(self).channel@,
                final(connector).sent@,
                final(connector).answers@,
            ),
            r matches Ok(response) ==> {
                &&& response@.wf()
                &&& response@.code() == command@.code()
                &&& final(self).spec_is_open()
                &&& final(self).channel@.counter == old(self).channel@.counter + 1
                &&& final(self).channel@.pending is None
            },
    {
        if self.is_open() && is_timed_out(elapsed) {
            self.terminate();
            return Err(SessionError::new(SessionErrorKind::TimeoutError));
        }
        let sealed = match self.seal_command(&command) {
            Ok(sealed) => sealed,
            Err(e) => {
                return Err(e);
            },
        };
        let ghost before = connector.answers@;
        let bytes = match exchange(connector, &sealed) {
            Ok(bytes) => bytes,
            Err(e) => {
                self.terminate();
                return Err(e);
            },
        };
        proof {
            assert(connector.answers@.drop_last() =~= before);
            assert(connector.answers@.len() != before.len());
        }
        self.last_command_timestamp = clock_now();
        self.receive(bytes.as_slice())
    }

    /// Sends a typed command and brings back the typed response. The time
    /// for which the session has been idle is read from the clock; for that
    /// time, whatever it is, the call does what `sending_effect` says.
    pub fn send_encrypted_command<C: Connector>(&mut self, connector: &mut Link<C>, command: Command) -> (r:
        Result<Response, SessionError>)
        requires
            old(self).wf(),
            old(connector).inv(),
            command@.wf(),
        ensures
            final(self).wf(),
            final(connector).inv(),
            final(self).id == old(self).id,
            final(self).auth_key == old(self).auth_key,
            final(connector).answers@ == old(connector).answers@
                ==> final(self).last_command_timestamp == old(self).last_command_timestamp,
            !old(self).channel@.can_seal(inner_frame(command@)) ==> r is Err
                && final(connector).sent@
                == old(connector).sent@ && final(connector).answers@ == old(connector).answers@,
            final(connector).sent@ == old(connector).sent@ || final(connector).sent@ == old(
                connector,
            ).sent@.push(old(self).channel@.sealed_command(inner_frame(command@)).wire()),
            exists|elapsed: u128| #[trigger]
                sending_effect(
                    old(self).channel@,
                    old(connector).sent@,
                    old(connector).answers@,
                    command@,
                    elapsed,
                    response_outcome(r),
                    final(self).channel@,
                    final(connector).sent@,
                    final(connector).answers@,
                ),
            r matches Ok(response) ==> {
                let sent = old(self).channel@.after_command(inner_frame(command@));
                &&& old(self).channel@.can_seal(inner_frame(command@))
                &&& final(connector).sent@ == old(connector).sent@.push(
                    old(self).channel@.sealed_command(inner_frame(command@)).wire(),
                )
                &&& final(connector).answers@.len() == old(connector).answers@.len() + 1
                &&& taken(sent, final(connector).answers@.last()) == (
                    Ok::<Response<Seq<u8>>, SessionError>(response@),
                    final(self).channel@,
                )
                &&& answered(
                    final(connector).sent@,
                    final(connector).answers@,
                    command@,
                    response@,
                )
                &&& response@.wf()
                &&& response@.code() == command@.code()
                &&& final(self).spec_is_open()
                &&& final(self).channel@.counter == old(self).channel@.counter + 1
                &&& final(self).channel@.pending is None
            },
    {
        let idle = clock_elapsed(&self.last_command_timestamp);
        let elapsed = duration_nanos(&idle);
        let r = self.send_encrypted_command_after(connector, command, elapsed);
        proof {
            let sent = old(self).channel@.after_command(inner_frame(command@));
            let outcome = taken(sent, connector.answers@.last());
            assert(outcome == (outcome.0, outcome.1));
        }
        r
    }

    /// Closes the session, given the time in nanoseconds for which it has
    /// been idle. An open session that has not timed out tells the device:
    /// the sealed request to close is handed to the connector. Whatever comes
    /// back, and whether or not anything was sent, the session is closed
    /// afterwards and its keys are wiped.
    pub fn close_after<C: Connector>(&mut self, connector: &mut Link<C>, elapsed: u128)
        requires
            old(self).wf(),
            old(connector).inv(),
        ensures
            final(self).wf(),
            final(connector).inv(),
            !final(self).spec_is_open(),
            final(self).channel@.enc_key == zeros(16),
            final(self).channel@.mac_key == zeros(16),
            final(self).channel@.rmac_key == zeros(16),
            final(self).channel@.mac_chaining_value == zeros(16),
            closing_effect(
                old(self).channel@,
                old(connector).sent@,
                elapsed,
                final(connector).sent@,
            ),
    {
        if self.is_open() {
            let _ = self.send_encrypted_command_after(connector, Command::CloseSession, elapsed);
        }
        self.terminate();
    }

    /// Closes the session: tells the device, if the session is open, and
    /// whatever the device answers, ends the session and wipes its keys. The
    /// time for which the session has been idle is read from the clock; for
    /// that time, whatever it is, the call does what `closing_effect` says.
    pub fn close<C: Connector>(&mut self, connector: &mut Link<C>)
        requires
            old(self).wf(),
            old(connector).inv(),
        ensures
            final(self).wf(),
            final(connector).inv(),
            !final(self).spec_is_open(),
            exists|elapsed: u128| #[trigger]
                closing_effect(
                    old(self).channel@,
                    old(connector).sent@,
                    elapsed,
                    final(connector).sent@,
                ),
            !old(self).spec_is_open() ==> final(connector).sent@ == old(connector).sent@,
            final(connector).sent@ == old(connector).sent@ || final(connector).sent@ == old(
                connector,
            ).sent@.push(
                old(self).channel@.sealed_command(inner_frame(Command::CloseSession)).wire(),
            ),
            final(self).channel@.enc_key == zeros(16),
            final(self).channel@.mac_key == zeros(16),
            final(self).channel@.rmac_key == zeros(16),
            final(self).channel@.mac_chaining_value == zeros(16),
    {
        let idle = clock_elapsed(&self.last_command_timestamp);
        let elapsed = duration_nanos(&idle);
        self.close_after(connector, elapsed);
    }
}

/// The two ends agree on commands: the frame that carries a well-formed
/// command inside a session is read by the device as that command.
pub proof fn lemma_device_reads_command(command: Command<Seq<u8>>)
    requires
        command.wf(),
    ensures
        Command::from_payload(inner_frame(command).command_type, inner_frame(command).data) == Ok::<
            Command<Seq<u8>>,
            CodecError,
        >(command),
{
    crate::commands::lemma_command_round_trip(command);
}

/// A session that has been idle for too long sends nothing: whatever the
/// command, an open session that has been idle for more than the timeout
/// less the skew fails with a timeout, its channel is terminated, and
/// neither a request nor an answer is added to the record.
pub proof fn lemma_idle_session_sends_nothing(
    channel: Channel<Seq<u8>>,
    old_sent: Seq<Seq<u8>>,
    old_answers: Seq<Seq<u8>>,
    command: Command<Seq<u8>>,
    elapsed: u128,
    r: Result<Response<Seq<u8>>, SessionError>,
    new_channel: Channel<Seq<u8>>,
    new_sent: Seq<Seq<u8>>,
    new_answers: Seq<Seq<u8>>,
)
    requires
        channel.security_level == SecurityLevel::Authenticated,
        elapsed > 29 * NANOS_PER_SECOND,
        sending_effect(
            channel,
            old_sent,
            old_answers,
            command,
            elapsed,
            r,
            new_channel,
            new_sent,
            new_answers,
        ),
    ensures
        r matches Err(e) && e.kind == SessionErrorKind::TimeoutError,
        new_sent == old_sent,
        new_answers == old_answers,
        new_channel.security_level == SecurityLevel::Terminated,
        forall|next: Command<Seq<u8>>| !new_channel.can_seal(#[trigger] inner_frame(next)),
{
}

/// Whether `after` is the channel of a session that, with the channel
/// `before`, has sent the command, has taken the bytes of the answer, and
/// is still open.
pub open spec fn round_trip(
    before: Channel<Seq<u8>>,
    command: Command<Seq<u8>>,
    answer: Seq<u8>,
    after: Channel<Seq<u8>>,
) -> bool {
    let inner = inner_frame(command);
    &&& before.can_seal(inner)
    &&& after == taken(before.after_command(inner), answer).1
    &&& after.security_level == SecurityLevel::Authenticated
}

/// The encryption counter is never used twice: in a session that begins
/// with the counter at 1 and sends its commands one after the other, the
/// command at index `k` is sealed under the counter `k + 1`, and after all
/// of them the counter stands one above their number.
pub proof fn lemma_session_counters_count_up(
    channels: Seq<Channel<Seq<u8>>>,
    commands: Seq<Command<Seq<u8>>>,
    answers: Seq<Seq<u8>>,
)
    requires
        channels.len() == commands.len() + 1,
        answers.len() == commands.len(),
        channels[0].counter == 1,
        forall|k: int|
            0 <= k < commands.len() ==> round_trip(
                channels[k],
                #[trigger] commands[k],
                answers[k],
                channels[k + 1],
            ),
    ensures
        forall|k: int| 0 <= k < channels.len() ==> (#[trigger] channels[k]).counter == k + 1,
        forall|j: int, k: int|
            0 <= j < k < channels.len() ==> (#[trigger] channels[j]).counter < (
            #[trigger] channels[k]).counter,
    decreases commands.len(),
{
    if commands.len() > 0 {
        let n = commands.len() as int;
        let front = channels.drop_last();
        assert forall|k: int| 0 <= k < n - 1 implies round_trip(
            front[k],
            #[trigger] commands.drop_last()[k],
            answers.drop_last()[k],
            front[k + 1],
        ) by {
            assert(round_trip(channels[k], commands[k], answers[k], channels[k + 1]));
        }
        lemma_session_counters_count_up(front, commands.drop_last(), answers.drop_last());
        assert(round_trip(channels[n - 1], commands[n - 1], answers[n - 1], channels[n]));
        let sent = channels[n - 1].after_command(inner_frame(commands[n - 1]));
        assert(front[n - 1] == channels[n - 1]);
        assert(front[n - 1].counter == n);
        assert(sent.counter == n + 1);
        assert(taken(sent, answers[n - 1]).1.counter == sent.counter);
        assert(channels[n].counter == n + 1);
        assert forall|k: int| 0 <= k < channels.len() implies (#[trigger] channels[k]).counter == k
            + 1 by {
            if k < n {
                assert(front[k] == channels[k]);
            }
        }
    }
}

/// The two ends agree on answers: the message by which the device reports
/// the success of a command with a well-formed response is read by the host
/// as that response, and the message by which it reports a failure is read
/// as a response error that names the failure.
pub proof fn lemma_host_reads_answer(response: Response<Seq<u8>>, kind: HsmErrorKind)
    requires
        response.wf(),
    ensures
        typed_response(crate::mockhsm::command::reply(response)) == Ok::<
            Response<Seq<u8>>,
            SessionError,
        >(response),
        typed_response(crate::mockhsm::command::failure(kind)) == Err::<
            Response<Seq<u8>>,
            SessionError,
        >(SessionError { kind: SessionErrorKind::ResponseError, cause: ErrorCause::Device(kind) }),
{
    crate::responses::lemma_response_round_trip(response);
    crate::response::lemma_error_kind_round_trip(kind);
}

} // verus!
