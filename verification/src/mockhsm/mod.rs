//! A simulator of the device that speaks the device's protocol end to end,
//! in process and without hardware.
//!
//! A session goes through these states: a request to create it leaves it
//! half open; the completion of the handshake, with a valid tag, opens it,
//! and with an invalid tag discards it; an open session takes session
//! messages only, until it is closed, the device is reset, or a message
//! fails to authenticate.

pub mod command;
pub mod objects;
pub mod state;

use crate::command::{CommandCode, CommandMessage, MAX_MSG_SIZE};
use crate::connector::{Connector, Status};
use crate::error::ConnectionError;
use crate::mockhsm::command::{authenticate_session, authenticate_session_effect, create_session,
    create_session_effect, failure, failure_bytes, session_message, session_message_effect};
use crate::mockhsm::state::State;
use crate::command::lemma_command_frame_round_trip;
use crate::commands::{lemma_command_round_trip, Command};
use crate::error::SessionError;
use crate::mockhsm::objects::lookup;
use crate::mockhsm::state::{session_at, MAX_SESSIONS};
use crate::object::ObjectType;
use crate::response::{lemma_response_frame_round_trip, HsmErrorKind, ResponseCode,
    ResponseMessage};
use crate::responses::{lemma_response_round_trip, Response};
use crate::scp03::{AUTHENTICATION_KEY_SIZE, CHALLENGE_SIZE};
use crate::securechannel::Channel;
use crate::session::{create_session_request, handshake_effect, Session};
use vstd::prelude::*;

verus! {

/// The simulated device, which is its own connector.
pub struct MockHsm {
    /// The state of the device.
    pub state: State,
}

/// What a request does to the device, and the bytes that come back. A
/// request that does not fit the device's buffer has a wrong length, and a
/// request that is no frame is an invalid command. Outside a session only
/// the two commands of the handshake mean anything: any other command is an
/// invalid session.
pub open spec fn served(old: State, request: Seq<u8>, bytes: Seq<u8>, new: State) -> bool {
    if request.len() >= MAX_MSG_SIZE {
        bytes == failure(HsmErrorKind::WrongLength).wire() && new == old
    } else {
        served_frame(old, request, bytes, new)
    }
}

/// What a request that fits the device's buffer does to the device.
pub open spec fn served_frame(old: State, request: Seq<u8>, bytes: Seq<u8>, new: State) -> bool {
    match CommandMessage::from_wire(request) {
        Err(_) => bytes == failure(HsmErrorKind::InvalidCommand).wire() && new == old,
        Ok(command) => match command.command_type {
            CommandCode::CreateSession => create_session_effect(old, command, bytes, new),
            CommandCode::AuthenticateSession => authenticate_session_effect(
                old,
                command,
                bytes,
                new,
            ),
            CommandCode::SessionMessage => session_message_effect(old, command, bytes, new),
            _ => bytes == failure(HsmErrorKind::InvalidSession).wire() && new == old,
        },
    }
}

impl MockHsm {
    /// A simulated device as it leaves the factory.
    pub fn new() -> (hsm: MockHsm)
        ensures
            hsm.state.wf(),
            hsm.state.is_fresh(),
    {
        MockHsm { state: State::new() }
    }

    /// Serves one request.
    pub fn handle(&mut self, request: &[u8]) -> (bytes: Vec<u8>)
        requires
            old(self).state.wf(),
        ensures
            final(self).state.wf(),
            served(old(self).state, request@, bytes@, final(self).state),
    {
        if request.len() >= MAX_MSG_SIZE {
            return failure_bytes(HsmErrorKind::WrongLength);
        }
        let command = match CommandMessage::parse(request) {
            Ok(command) => command,
            Err(_) => {
                return failure_bytes(HsmErrorKind::InvalidCommand);
            },
        };
        let served = match command.command_type {
            CommandCode::CreateSession => create_session(&mut self.state, &command),
            CommandCode::AuthenticateSession => authenticate_session(&mut self.state, &command),
            CommandCode::SessionMessage => session_message(&mut self.state, command),
            _ => Ok(failure_bytes(HsmErrorKind::InvalidSession)),
        };
        match served {
            Ok(bytes) => bytes,
            Err(_) => failure_bytes(HsmErrorKind::InvalidCommand),
        }
    }
}

impl Connector for MockHsm {
    open spec fn inv(&self) -> bool {
        self.state.wf()
    }

    /// The simulator is always ready.
    fn status(&mut self) -> (r: Result<Status, ConnectionError>)
        ensures
            r matches Ok(status) && status.message@ == "OK"@ && status.serial is None,
            final(self).state == old(self).state,
    {
        Ok(Status { message: "OK".to_owned(), serial: None, version: "mockhsm".to_owned() })
    }

    /// Serves the request at once.
    fn send_command(&mut self, uuid: &[u8], request: Vec<u8>) -> (r: Result<
        Vec<u8>,
        ConnectionError,
    >)
        ensures
            r matches Ok(bytes) && served(old(self).state, request@, bytes@, final(self).state),
    {
        Ok(self.handle(request.as_slice()))
    }
}

/// A host and a device that hold the same key agree on a session.
///
/// The host makes a handshake, as `handshake_effect` says, with a device
/// that holds the key under the number that the host names; the device
/// serves the host's requests one after the other, as `served` says, and
/// what it answers is what the host is handed. Where the device could draw
/// its challenge and has a session number left, the handshake succeeds: the
/// host has an open session whose number, below sixteen, is that of the
/// device's newest session, and both ends hold the same channel.
pub proof fn lemma_handshake_with_device_opens_session(
    before: State,
    between: State,
    after: State,
    authentication_key_id: u16,
    key: Seq<u8>,
    host_challenge: Seq<u8>,
    sent: Seq<Seq<u8>>,
    first: Seq<u8>,
    second: Seq<u8>,
    reconnect: bool,
    r: Result<Session, SessionError>,
)
    requires
        before.wf(),
        between.wf(),
        after.wf(),
        host_challenge.len() == CHALLENGE_SIZE,
        key.len() == AUTHENTICATION_KEY_SIZE,
        lookup(before.objects@, authentication_key_id, ObjectType::AuthenticationKey) matches Some(
            object,
        ) && object.payload == key,
        before.open_result(authentication_key_id, host_challenge) is Ok,
        handshake_effect(
            Seq::<Seq<u8>>::empty(),
            Seq::<Seq<u8>>::empty(),
            sent,
            seq![first, second],
            authentication_key_id,
            key,
            reconnect,
            host_challenge,
            r,
        ),
        served(before, sent[0], first, between),
        first != failure(HsmErrorKind::SessionFailed).wire(),
        sent.len() == 2 ==> served(between, sent[1], second, after),
    ensures
        r matches Ok(session) && session.id < MAX_SESSIONS && after.sessions@.len() > 0
            && after.sessions@.last().id == session.id && after.sessions@.last().channel@
            == session.channel@,
{
    let request = create_session_request(authentication_key_id, host_challenge);
    let asked = Command::CreateSession { authentication_key_id, host_challenge };
    assert(sent.subrange(0, sent.len() as int) =~= sent);
    assert(seq![first, second].subrange(0, 2) =~= seq![first, second]);
    assert(sent[0] == request.wire());
    lemma_command_round_trip(asked);
    assert(request.body() =~= request.data);
    lemma_command_frame_round_trip(request);
    assert(create_session_effect(before, request, first, between));
    let id = before.open_result(authentication_key_id, host_challenge)->Ok_0;
    let session = between.sessions@.last();
    let answer = ResponseMessage::<Seq<u8>> {
        code: ResponseCode::Success(CommandCode::CreateSession),
        session_id: Some(id),
        data: (Response::CreateSession {
            card_challenge: session.card_challenge@,
            card_cryptogram: session.channel@.card_cryptogram(),
        }).payload(),
        mac: None,
    };
    assert(first == answer.wire());
    assert(session.wf());
    lemma_response_round_trip(
        Response::CreateSession {
            card_challenge: session.card_challenge@,
            card_cryptogram: session.channel@.card_cryptogram(),
        },
    );
    assert(answer.body() =~= seq![id] + answer.data);
    lemma_response_frame_round_trip(answer);
    let channel = Channel::established(id, key, host_challenge, session.card_challenge@);
    assert(session.channel@ == channel);
    let command = channel.authentication_command();
    assert(sent.len() == 2);
    assert(sent[1] == command.wire());
    lemma_command_frame_round_trip(command);
    assert(session_at(between.sessions@, between.sessions@.len() - 1, id));
    assert(authenticate_session_effect(between, command, second, after));
    let confirmation = channel.after_authentication_command().authentication_response();
    lemma_response_frame_round_trip(confirmation);
}

} // verus!
