//! The secure channel between a host and the device.
//!
//! Both ends hold a `Channel`. The host seals commands and opens responses;
//! the device opens commands and seals responses. Every message is padded,
//! encrypted with AES-CBC under an IV made from the encryption counter, and
//! authenticated with a CMAC that also covers the tag of the message before
//! it, so that messages can neither be altered nor reordered.

use crate::codec::{be16, put_bytes, put_u16, put_u8, read_bytes};
use crate::command::{CommandCode, CommandMessage, MAC_SIZE, MAX_MSG_SIZE};
use crate::crypto::{aes128_cbc_decrypt, aes128_cbc_encrypt, aes128_cmac, cbc_decrypt, cbc_encrypt,
    cmac_aes128, ct_eq, AES_BLOCK_SIZE};
use crate::error::{ErrorCause, SessionError, SessionErrorKind};
use crate::response::{ResponseCode, ResponseMessage};
use crate::scp03::{add_padding, compute_iv, derive_key, kdf, message_iv, pad, remove_padding, unpad,
    zero_bytes, zeros, AuthenticationKey, CHALLENGE_SIZE, CRYPTOGRAM_SIZE, DERIVE_CARD_CRYPTOGRAM,
    DERIVE_ENC_KEY, DERIVE_HOST_CRYPTOGRAM, DERIVE_MAC_KEY, DERIVE_RMAC_KEY};
use vstd::prelude::*;

verus! {

/// How far a channel has come.
#[derive(Clone, Copy, Debug, PartialEq, Eq, Structural)]
pub enum SecurityLevel {
    /// Keys are derived, the peer is not yet authenticated.
    Unauthenticated,
    /// The handshake is complete.
    Authenticated,
    /// The channel has ended; its keys are wiped.
    Terminated,
}

/// One end of a secure channel. `B` is the type of a byte string: `Vec<u8>`
/// in running code, `Seq<u8>` in contracts.
pub struct Channel<B = Vec<u8>> {
    /// Number of the session, given by the device.
    pub id: u8,
    /// How far the channel has come.
    pub security_level: SecurityLevel,
    /// The encryption counter: the number of the next command.
    pub counter: u32,
    /// The command that has been sent and not yet been answered.
    pub pending: Option<CommandCode>,
    /// The session encryption key.
    pub enc_key: B,
    /// The session key that authenticates commands.
    pub mac_key: B,
    /// The session key that authenticates responses.
    pub rmac_key: B,
    /// The full CMAC of the last authenticated message.
    pub mac_chaining_value: B,
    /// Host challenge and card challenge, in this order.
    pub context: B,
}

impl View for Channel<Vec<u8>> {
    type V = Channel<Seq<u8>>;

    open spec fn view(&self) -> Channel<Seq<u8>> {
        Channel {
            id: self.id,
            security_level: self.security_level,
            counter: self.counter,
            pending: self.pending,
            enc_key: self.enc_key@,
            mac_key: self.mac_key@,
            rmac_key: self.rmac_key@,
            mac_chaining_value: self.mac_chaining_value@,
            context: self.context@,
        }
    }
}

/// What a CMAC over a frame covers: the chaining value, the frame's first
/// byte, its length, the session's number and the frame's data.
pub open spec fn mac_input(chain: Seq<u8>, first: u8, id: u8, data: Seq<u8>) -> Seq<u8> {
    chain + seq![first] + be16((1 + data.len() + MAC_SIZE) as u16) + seq![id] + data
}

/// The failure that a response stands for when it does not complete the
/// handshake.
pub open spec fn authentication_failure(response: ResponseMessage<Seq<u8>>) -> SessionError {
    if response.code.spec_is_err() {
        match response.error_kind() {
            Some(kind) => SessionError {
                kind: SessionErrorKind::ResponseError,
                cause: ErrorCause::Device(kind),
            },
            None => SessionError {
                kind: SessionErrorKind::ResponseError,
                cause: ErrorCause::Local,
            },
        }
    } else {
        SessionError { kind: SessionErrorKind::AuthFailed, cause: ErrorCause::Local }
    }
}

impl Channel<Seq<u8>> {
    /// Keys, chaining value and context have 16 bytes each, the counter has
    /// left zero behind, and a command is pending only on an authenticated
    /// channel that has sent one.
    pub open spec fn wf(self) -> bool {
        &&& self.enc_key.len() == AES_BLOCK_SIZE
        &&& self.mac_key.len() == AES_BLOCK_SIZE
        &&& self.rmac_key.len() == AES_BLOCK_SIZE
        &&& self.mac_chaining_value.len() == AES_BLOCK_SIZE
        &&& self.context.len() == 2 * CHALLENGE_SIZE
        &&& self.counter >= 1
        &&& self.pending is Some ==> self.security_level == SecurityLevel::Authenticated
    }

    /// The channel that the two challenges and the static key give: session
    /// keys derived from the halves of the key, a chaining value of zeros and
    /// the counter at 1.
    pub open spec fn established(
        id: u8,
        key: Seq<u8>,
        host_challenge: Seq<u8>,
        card_challenge: Seq<u8>,
    ) -> Channel<Seq<u8>> {
        let context = host_challenge + card_challenge;
        Channel {
            id,
            security_level: SecurityLevel::Unauthenticated,
            counter: 1,
            pending: None,
            enc_key: kdf(key.subrange(0, 16), DERIVE_ENC_KEY, context, 16),
            mac_key: kdf(key.subrange(16, 32), DERIVE_MAC_KEY, context, 16),
            rmac_key: kdf(key.subrange(16, 32), DERIVE_RMAC_KEY, context, 16),
            mac_chaining_value: zeros(16),
            context,
        }
    }

    /// The cryptogram by which the device proves that it holds the key.
    pub open spec fn card_cryptogram(self) -> Seq<u8> {
        kdf(self.mac_key, DERIVE_CARD_CRYPTOGRAM, self.context, CRYPTOGRAM_SIZE as nat)
    }

    /// The cryptogram by which the host proves that it holds the key.
    pub open spec fn host_cryptogram(self) -> Seq<u8> {
        kdf(self.mac_key, DERIVE_HOST_CRYPTOGRAM, self.context, CRYPTOGRAM_SIZE as nat)
    }

    /// The full CMAC of a command frame with the given data.
    pub open spec fn command_mac(self, code: CommandCode, data: Seq<u8>) -> Seq<u8> {
        aes128_cmac(self.mac_key, mac_input(self.mac_chaining_value, code.code(), self.id, data))
    }

    /// The full CMAC of a response frame with the given data.
    pub open spec fn response_mac(self, code: CommandCode, data: Seq<u8>) -> Seq<u8> {
        aes128_cmac(
            self.rmac_key,
            mac_input(
                self.mac_chaining_value,
                ResponseCode::Success(code).code(),
                self.id,
                data,
            ),
        )
    }

    /// This channel with another chaining value.
    pub open spec fn chained(self, chain: Seq<u8>) -> Channel<Seq<u8>> {
        Channel { mac_chaining_value: chain, ..self }
    }

    /// This channel after its end: keys and chaining value are zeros.
    pub open spec fn terminated(self) -> Channel<Seq<u8>> {
        Channel {
            security_level: SecurityLevel::Terminated,
            pending: None,
            enc_key: zeros(16),
            mac_key: zeros(16),
            rmac_key: zeros(16),
            mac_chaining_value: zeros(16),
            ..self
        }
    }

    /// The encryption of a frame under the given counter.
    pub open spec fn ciphertext(self, wire: Seq<u8>, counter: u32) -> Seq<u8> {
        aes128_cbc_encrypt(self.enc_key, message_iv(self.enc_key, counter), pad(wire))
    }

    /// The frame that a ciphertext holds under the given counter; `None` where
    /// it is no whole number of blocks or its padding is broken.
    pub open spec fn plaintext(self, data: Seq<u8>, counter: u32) -> Option<Seq<u8>> {
        if data.len() % 16 == 0 {
            unpad(aes128_cbc_decrypt(self.enc_key, message_iv(self.enc_key, counter), data))
        } else {
            None
        }
    }

    /// The command that completes the handshake: the host cryptogram, with a
    /// tag computed over a chaining value of zeros.
    pub open spec fn authentication_command(self) -> CommandMessage<Seq<u8>> {
        CommandMessage {
            command_type: CommandCode::AuthenticateSession,
            session_id: Some(self.id),
            data: self.host_cryptogram(),
            mac: Some(
                self.chained(zeros(16)).command_mac(
                    CommandCode::AuthenticateSession,
                    self.host_cryptogram(),
                ).subrange(0, MAC_SIZE as int),
            ),
        }
    }

    /// This channel once the command that completes the handshake is made.
    pub open spec fn after_authentication_command(self) -> Channel<Seq<u8>> {
        self.chained(
            self.chained(zeros(16)).command_mac(
                CommandCode::AuthenticateSession,
                self.host_cryptogram(),
            ),
        )
    }

    /// The response by which the device confirms the handshake: empty, with a
    /// tag.
    pub open spec fn authentication_response(self) -> ResponseMessage<Seq<u8>> {
        ResponseMessage {
            code: ResponseCode::Success(CommandCode::AuthenticateSession),
            session_id: Some(self.id),
            data: Seq::<u8>::empty(),
            mac: Some(
                self.response_mac(CommandCode::AuthenticateSession, Seq::<u8>::empty()).subrange(
                    0,
                    MAC_SIZE as int,
                ),
            ),
        }
    }

    /// This channel once the handshake is confirmed.
    pub open spec fn authenticated(self) -> Channel<Seq<u8>> {
        Channel {
            security_level: SecurityLevel::Authenticated,
            mac_chaining_value: self.response_mac(
                CommandCode::AuthenticateSession,
                Seq::<u8>::empty(),
            ),
            ..self
        }
    }

    /// Whether the host end takes `response` for the confirmation of the
    /// handshake.
    pub open spec fn accepts_authentication(self, response: ResponseMessage<Seq<u8>>) -> bool {
        &&& self.security_level == SecurityLevel::Unauthenticated
        &&& response == self.authentication_response()
    }

    /// Whether the device end takes `command` for the completion of the
    /// handshake.
    pub open spec fn accepts_host(self, command: CommandMessage<Seq<u8>>) -> bool {
        &&& self.security_level == SecurityLevel::Unauthenticated
        &&& command == self.authentication_command()
    }

    /// Whether the host end can seal `inner`: the channel is authenticated and
    /// awaits no response, the counter is not used up, the command is one that
    /// travels inside a session, and the sealed frame fits the device's buffer.
    pub open spec fn can_seal(self, inner: CommandMessage<Seq<u8>>) -> bool {
        &&& self.security_level == SecurityLevel::Authenticated
        &&& self.pending is None
        &&& self.counter < u32::MAX
        &&& inner.session_id is None
        &&& inner.mac is None
        &&& !inner.command_type.spec_in_session()
        &&& inner.data.len() <= 0xffff
        &&& 3 + 1 + pad(inner.wire()).len() + MAC_SIZE < MAX_MSG_SIZE
    }

    /// The sealed form of `inner`.
    pub open spec fn sealed_command(self, inner: CommandMessage<Seq<u8>>) -> CommandMessage<
        Seq<u8>,
    > {
        let data = self.ciphertext(inner.wire(), self.counter);
        CommandMessage {
            command_type: CommandCode::SessionMessage,
            session_id: Some(self.id),
            data,
            mac: Some(
                self.command_mac(CommandCode::SessionMessage, data).subrange(0, MAC_SIZE as int),
            ),
        }
    }

    /// The host end after it has sealed `inner`: the counter has advanced by
    /// one, the chaining value is the command's full CMAC, and the command
    /// awaits its response.
    pub open spec fn after_command(self, inner: CommandMessage<Seq<u8>>) -> Channel<Seq<u8>> {
        Channel {
            counter: (self.counter + 1) as u32,
            pending: Some(inner.command_type),
            mac_chaining_value: self.command_mac(
                CommandCode::SessionMessage,
                self.ciphertext(inner.wire(), self.counter),
            ),
            ..self
        }
    }

    /// Whether a response is one that this end, which awaits one, has to look
    /// at: a session message of this session.
    pub open spec fn response_authentic(self, response: ResponseMessage<Seq<u8>>) -> bool {
        &&& response.code == ResponseCode::Success(CommandCode::SessionMessage)
        &&& response.session_id == Some(self.id)
        &&& response.mac == Some(
            self.response_mac(CommandCode::SessionMessage, response.data).subrange(
                0,
                MAC_SIZE as int,
            ),
        )
    }

    /// The response inside a sealed response: decrypted under the counter of
    /// the command that it answers, unpadded and parsed. It must report the
    /// success of that command, or a failure of the device.
    pub open spec fn opened_response(self, response: ResponseMessage<Seq<u8>>) -> Option<
        ResponseMessage<Seq<u8>>,
    > {
        match self.plaintext(response.data, (self.counter - 1) as u32) {
            None => None,
            Some(wire) => match ResponseMessage::from_wire(wire) {
                Err(_) => None,
                Ok(inner) => if self.pending matches Some(code) && (inner.code
                    == ResponseCode::Success(code) || inner.code == ResponseCode::DeviceError) {
                    Some(inner)
                } else {
                    None
                },
            },
        }
    }

    /// The host end after it has opened a response: the chaining value is the
    /// response's full CMAC and nothing is pending.
    pub open spec fn after_response(self, response: ResponseMessage<Seq<u8>>) -> Channel<
        Seq<u8>,
    > {
        Channel {
            pending: None,
            mac_chaining_value: self.response_mac(CommandCode::SessionMessage, response.data),
            ..self
        }
    }

    /// Whether the device end is ready for a command: the channel is
    /// authenticated and owes no answer.
    pub open spec fn awaits_command(self) -> bool {
        &&& self.security_level == SecurityLevel::Authenticated
        &&& self.pending is None
    }

    /// Whether a command is a session message of this session with the right
    /// tag.
    pub open spec fn command_authentic(self, command: CommandMessage<Seq<u8>>) -> bool {
        &&& command.command_type == CommandCode::SessionMessage
        &&& command.session_id == Some(self.id)
        &&& command.mac == Some(
            self.command_mac(CommandCode::SessionMessage, command.data).subrange(
                0,
                MAC_SIZE as int,
            ),
        )
    }

    /// The command inside a sealed command: decrypted under the counter,
    /// unpadded and parsed. It must be one that travels inside a session.
    pub open spec fn opened_command(self, command: CommandMessage<Seq<u8>>) -> Option<
        CommandMessage<Seq<u8>>,
    > {
        match self.plaintext(command.data, self.counter) {
            None => None,
            Some(wire) => match CommandMessage::from_wire(wire) {
                Err(_) => None,
                Ok(inner) => if inner.command_type.spec_in_session() {
                    None
                } else {
                    Some(inner)
                },
            },
        }
    }

    /// The device end after it has opened a command.
    pub open spec fn after_opened_command(
        self,
        command: CommandMessage<Seq<u8>>,
        inner: CommandMessage<Seq<u8>>,
    ) -> Channel<Seq<u8>> {
        Channel {
            pending: Some(inner.command_type),
            mac_chaining_value: self.command_mac(CommandCode::SessionMessage, command.data),
            ..self
        }
    }

    /// Whether the device end can seal `inner`: it has opened a command that
    /// is not yet answered, the counter is not used up, and the response
    /// travels without a session number of its own.
    pub open spec fn can_answer(self, inner: ResponseMessage<Seq<u8>>) -> bool {
        &&& self.security_level == SecurityLevel::Authenticated
        &&& self.pending is Some
        &&& self.counter < u32::MAX
        &&& inner.wf()
        &&& inner.session_id is None
        &&& inner.mac is None
        &&& 1 + pad(inner.wire()).len() + MAC_SIZE <= 0xffff
    }

    /// The sealed form of the response `inner`.
    pub open spec fn sealed_response(self, inner: ResponseMessage<Seq<u8>>) -> ResponseMessage<
        Seq<u8>,
    > {
        let data = self.ciphertext(inner.wire(), self.counter);
        ResponseMessage {
            code: ResponseCode::Success(CommandCode::SessionMessage),
            session_id: Some(self.id),
            data,
            mac: Some(
                self.response_mac(CommandCode::SessionMessage, data).subrange(0, MAC_SIZE as int),
            ),
        }
    }

    /// The device end after it has sealed a response: the counter has advanced
    /// by one, the chaining value is the response's full CMAC, and nothing is
    /// pending.
    pub open spec fn after_answer(self, inner: ResponseMessage<Seq<u8>>) -> Channel<Seq<u8>> {
        Channel {
            counter: (self.counter + 1) as u32,
            pending: None,
            mac_chaining_value: self.response_mac(
                CommandCode::SessionMessage,
                self.ciphertext(inner.wire(), self.counter),
            ),
            ..self
        }
    }
}

/// Computes the full CMAC of a frame.
fn frame_mac(key: &[u8], chain: &[u8], first: u8, id: u8, data: &[u8]) -> (full: Vec<u8>)
    requires
        key@.len() == AES_BLOCK_SIZE,
        1 + data@.len() + MAC_SIZE <= 0xffff,
    ensures
        full@ == aes128_cmac(key@, mac_input(chain@, first, id, data@)),
        full@.len() == AES_BLOCK_SIZE,
{
    let mut input: Vec<u8> = Vec::new();
    put_bytes(&mut input, chain);
    put_u8(&mut input, first);
    put_u16(&mut input, (1 + data.len() + MAC_SIZE) as u16);
    put_u8(&mut input, id);
    put_bytes(&mut input, data);
    assert(input@ =~= mac_input(chain@, first, id, data@));
    cmac_aes128(key, input.as_slice())
}

/// Whether `mac` holds the first eight bytes of `full`, compared in constant
/// time.
fn tag_matches(full: &Vec<u8>, mac: &Option<Vec<u8>>) -> (r: bool)
    requires
        full@.len() == AES_BLOCK_SIZE,
    ensures
        r == (mac matches Some(m) && m@ == full@.subrange(0, MAC_SIZE as int)),
{
    match mac {
        Some(m) => {
            let tag = read_bytes(full.as_slice(), 0, MAC_SIZE);
            ct_eq(m.as_slice(), tag.as_slice())
        },
        None => false,
    }
}

impl Channel<Vec<u8>> {
    /// Derives the session keys from the static key and the two challenges.
    pub fn new(
        id: u8,
        authentication_key: &AuthenticationKey,
        host_challenge: &[u8],
        card_challenge: &[u8],
    ) -> (channel: Channel)
        requires
            authentication_key.wf(),
            host_challenge@.len() == CHALLENGE_SIZE,
            card_challenge@.len() == CHALLENGE_SIZE,
        ensures
            channel@ == Channel::established(
                id,
                authentication_key@,
                host_challenge@,
                card_challenge@,
            ),
            channel@.wf(),
    {
        let mut context: Vec<u8> = Vec::new();
        put_bytes(&mut context, host_challenge);
        put_bytes(&mut context, card_challenge);
        assert(context@ =~= host_challenge@ + card_challenge@);
        let static_enc = read_bytes(authentication_key.bytes.as_slice(), 0, 16);
        let static_mac = read_bytes(authentication_key.bytes.as_slice(), 16, 32);
        let enc_key = derive_key(static_enc.as_slice(), DERIVE_ENC_KEY, context.as_slice(), 16);
        let mac_key = derive_key(static_mac.as_slice(), DERIVE_MAC_KEY, context.as_slice(), 16);
        let rmac_key = derive_key(static_mac.as_slice(), DERIVE_RMAC_KEY, context.as_slice(), 16);
        Channel {
            id,
            security_level: SecurityLevel::Unauthenticated,
            counter: 1,
            pending: None,
            enc_key,
            mac_key,
            rmac_key,
            mac_chaining_value: zero_bytes(16),
            context,
        }
    }

    /// Number of the session.
    pub fn id(&self) -> (id: u8)
        ensures
            id == self@.id,
    {
        self.id
    }

    /// The cryptogram by which the device proves that it holds the key.
    pub fn card_cryptogram(&self) -> (cryptogram: Vec<u8>)
        requires
            self@.wf(),
        ensures
            cryptogram@ == self@.card_cryptogram(),
            cryptogram@.len() == CRYPTOGRAM_SIZE,
    {
        derive_key(
            self.mac_key.as_slice(),
            DERIVE_CARD_CRYPTOGRAM,
            self.context.as_slice(),
            CRYPTOGRAM_SIZE,
        )
    }

    /// The cryptogram by which the host proves that it holds the key.
    pub fn host_cryptogram(&self) -> (cryptogram: Vec<u8>)
        requires
            self@.wf(),
        ensures
            cryptogram@ == self@.host_cryptogram(),
            cryptogram@.len() == CRYPTOGRAM_SIZE,
    {
        derive_key(
            self.mac_key.as_slice(),
            DERIVE_HOST_CRYPTOGRAM,
            self.context.as_slice(),
            CRYPTOGRAM_SIZE,
        )
    }

    /// Ends the channel and overwrites its keys and chaining value with zeros.
    pub fn terminate(&mut self)
        ensures
            final(self)@ == old(self)@.terminated(),
            old(self)@.wf() ==> final(self)@.wf(),
    {
        self.security_level = SecurityLevel::Terminated;
        self.pending = None;
        self.enc_key = zero_bytes(16);
        self.mac_key = zero_bytes(16);
        self.rmac_key = zero_bytes(16);
        self.mac_chaining_value = zero_bytes(16);
    }

    /// Host end: makes the command that completes the handshake. Its tag is
    /// computed over a chaining value of zeros, and the full CMAC becomes the
    /// chaining value. On a channel that is past the handshake this is a
    /// protocol error and changes nothing.
    pub fn authenticate_session(&mut self) -> (r: Result<CommandMessage, SessionError>)
        requires
            old(self)@.wf(),
        ensures
            final(self)@.wf(),
            old(self)@.security_level == SecurityLevel::Unauthenticated ==> (r matches Ok(command)
                && command@ == old(self)@.authentication_command() && command@.wf()
                && command@.data.len() == CRYPTOGRAM_SIZE
                && final(self)@ == old(self)@.after_authentication_command()),
            old(self)@.security_level != SecurityLevel::Unauthenticated ==> r == Err::<
                CommandMessage,
                SessionError,
            >(SessionError { kind: SessionErrorKind::ProtocolError, cause: ErrorCause::Local })
                && final(self)@ == old(self)@,
    {
        if self.security_level != SecurityLevel::Unauthenticated {
            return Err(SessionError::new(SessionErrorKind::ProtocolError));
        }
        let cryptogram = self.host_cryptogram();
        let chain = zero_bytes(16);
        let full = frame_mac(
            self.mac_key.as_slice(),
            chain.as_slice(),
            CommandCode::AuthenticateSession.to_u8(),
            self.id,
            cryptogram.as_slice(),
        );
        let tag = read_bytes(full.as_slice(), 0, MAC_SIZE);
        self.mac_chaining_value = full;
        Ok(
            CommandMessage {
                command_type: CommandCode::AuthenticateSession,
                session_id: Some(self.id),
                data: cryptogram,
                mac: Some(tag),
            },
        )
    }

    /// Host end: takes the device's confirmation of the handshake. The
    /// response must be the empty success of this session with the right tag,
    /// compared in constant time; the channel is then authenticated. Anything
    /// else ends the channel.
    pub fn finish_authenticate_session(&mut self, response: &ResponseMessage) -> (r: Result<
        (),
        SessionError,
    >)
        requires
            old(self)@.wf(),
        ensures
            final(self)@.wf(),
            old(self)@.accepts_authentication(response@) ==> r is Ok && final(self)@ == old(
                self,
            )@.authenticated(),
            !old(self)@.accepts_authentication(response@) ==> r == Err::<(), SessionError>(
                authentication_failure(response@),
            ) && final(self)@ == old(self)@.terminated(),
    {
        let full = frame_mac(
            self.rmac_key.as_slice(),
            self.mac_chaining_value.as_slice(),
            ResponseCode::Success(CommandCode::AuthenticateSession).to_u8(),
            self.id,
            zero_bytes(0).as_slice(),
        );
        assert(zeros(0) =~= Seq::<u8>::empty());
        let confirmed = match response.code {
            ResponseCode::Success(CommandCode::AuthenticateSession) => true,
            _ => false,
        };
        let same_session = match response.session_id {
            Some(id) => id == self.id,
            None => false,
        };
        let accepted = self.security_level == SecurityLevel::Unauthenticated && confirmed
            && same_session && response.data.len() == 0 && tag_matches(&full, &response.mac);
        if accepted {
            assert(response@.data =~= Seq::<u8>::empty());
            assert(response@ == old(self)@.authentication_response());
            self.security_level = SecurityLevel::Authenticated;
            self.mac_chaining_value = full;
            Ok(())
        } else {
            let error = if response.is_err() {
                match response.hsm_error() {
                    Some(kind) => SessionError::device(kind),
                    None => SessionError::new(SessionErrorKind::ResponseError),
                }
            } else {
                SessionError::new(SessionErrorKind::AuthFailed)
            };
            self.terminate();
            Err(error)
        }
    }

    /// Host end: seals a command. The command is padded, encrypted under the
    /// IV of the current counter and authenticated over the chaining value;
    /// then the counter advances. Where the channel cannot seal the command,
    /// this is a protocol error and changes nothing.
    pub fn encrypt_command(&mut self, command: CommandMessage) -> (r: Result<
        CommandMessage,
        SessionError,
    >)
        requires
            old(self)@.wf(),
        ensures
            final(self)@.wf(),
            old(self)@.can_seal(command@) ==> (r matches Ok(sealed) && sealed@ == old(
                self,
            )@.sealed_command(command@) && sealed@.wf() && final(self)@ == old(
                self,
            )@.after_command(command@)),
            !old(self)@.can_seal(command@) ==> r == Err::<CommandMessage, SessionError>(
                SessionError { kind: SessionErrorKind::ProtocolError, cause: ErrorCause::Local },
            ) && final(self)@ == old(self)@,
    {
        if self.security_level != SecurityLevel::Authenticated || self.pending.is_some()
            || self.counter == u32::MAX || command.session_id.is_some() || command.mac.is_some()
            || command.command_type.in_session() || command.data.len() >= MAX_MSG_SIZE {
            proof {
                crate::scp03::lemma_pad_round_trip(command@.wire());
            }
            return Err(SessionError::new(SessionErrorKind::ProtocolError));
        }
        assert(command@.body() =~= command@.data);
        let wire = command.serialize();
        let padded = add_padding(wire.as_slice());
        if padded.len() + 12 >= MAX_MSG_SIZE {
            return Err(SessionError::new(SessionErrorKind::ProtocolError));
        }
        let iv = compute_iv(self.enc_key.as_slice(), self.counter);
        let data = cbc_encrypt(self.enc_key.as_slice(), iv.as_slice(), padded.as_slice());
        let full = frame_mac(
            self.mac_key.as_slice(),
            self.mac_chaining_value.as_slice(),
            CommandCode::SessionMessage.to_u8(),
            self.id,
            data.as_slice(),
        );
        let tag = read_bytes(full.as_slice(), 0, MAC_SIZE);
        self.counter = self.counter + 1;
        self.pending = Some(command.command_type);
        self.mac_chaining_value = full;
        let sealed = CommandMessage {
            command_type: CommandCode::SessionMessage,
            session_id: Some(self.id),
            data,
            mac: Some(tag),
        };
        assert(sealed@.body() =~= seq![self.id] + sealed@.data + sealed@.mac->0);
        Ok(sealed)
    }

    /// Host end: opens a response. A channel that awaits no response reports
    /// a protocol error and stays as it is. Otherwise the response must be a
    /// session message of this session whose tag, compared in constant time,
    /// is right: if not, this is a response error. It must then decrypt to the
    /// success of the pending command or to a failure of the device: if not,
    /// this is a protocol error. Either failure ends the channel.
    pub fn decrypt_response(&mut self, response: ResponseMessage) -> (r: Result<
        ResponseMessage,
        SessionError,
    >)
        requires
            old(self)@.wf(),
            response@.wf(),
        ensures
            final(self)@.wf(),
            old(self)@.pending is None ==> r == Err::<ResponseMessage, SessionError>(
                SessionError { kind: SessionErrorKind::ProtocolError, cause: ErrorCause::Local },
            ) && final(self)@ == old(self)@,
            old(self)@.pending is Some && !old(self)@.response_authentic(response@) ==> r == Err::<
                ResponseMessage,
                SessionError,
            >(SessionError { kind: SessionErrorKind::ResponseError, cause: ErrorCause::Local })
                && final(self)@ == old(self)@.terminated(),
            old(self)@.pending is Some && old(self)@.response_authentic(response@) ==> match old(
                self,
            )@.opened_response(response@) {
                Some(inner) => r matches Ok(opened) && opened@ == inner && opened@.wf()
                    && final(self)@ == old(self)@.after_response(response@),
                None => r == Err::<ResponseMessage, SessionError>(
                    SessionError {
                        kind: SessionErrorKind::ProtocolError,
                        cause: ErrorCause::Local,
                    },
                ) && final(self)@ == old(self)@.terminated(),
            },
    {
        let expected = match self.pending {
            Some(code) => code,
            None => {
                return Err(SessionError::new(SessionErrorKind::ProtocolError));
            },
        };
        let is_session_message = match response.code {
            ResponseCode::Success(CommandCode::SessionMessage) => true,
            _ => false,
        };
        let same_session = match response.session_id {
            Some(id) => id == self.id,
            None => false,
        };
        if !is_session_message || !same_session {
            self.terminate();
            return Err(SessionError::new(SessionErrorKind::ResponseError));
        }
        assert(response@.body() =~= seq![response@.session_id->0] + response@.data
            + response@.mac->0);
        let full = frame_mac(
            self.rmac_key.as_slice(),
            self.mac_chaining_value.as_slice(),
            ResponseCode::Success(CommandCode::SessionMessage).to_u8(),
            self.id,
            response.data.as_slice(),
        );
        if !tag_matches(&full, &response.mac) {
            self.terminate();
            return Err(SessionError::new(SessionErrorKind::ResponseError));
        }
        if response.data.len() % 16 != 0 {
            self.terminate();
            return Err(SessionError::new(SessionErrorKind::ProtocolError));
        }
        let iv = compute_iv(self.enc_key.as_slice(), self.counter - 1);
        let padded = cbc_decrypt(self.enc_key.as_slice(), iv.as_slice(), response.data.as_slice());
        let wire = match remove_padding(padded.as_slice()) {
            Some(wire) => wire,
            None => {
                self.terminate();
                return Err(SessionError::new(SessionErrorKind::ProtocolError));
            },
        };
        let inner = match ResponseMessage::parse(wire.as_slice()) {
            Ok(inner) => inner,
            Err(_) => {
                self.terminate();
                return Err(SessionError::new(SessionErrorKind::ProtocolError));
            },
        };
        let answers = match inner.code {
            ResponseCode::Success(code) => code == expected,
            ResponseCode::DeviceError => true,
        };
        if !answers {
            self.terminate();
            return Err(SessionError::new(SessionErrorKind::ProtocolError));
        }
        self.pending = None;
        self.mac_chaining_value = full;
        Ok(inner)
    }
}

impl Channel<Vec<u8>> {
    /// Device end: takes the command that completes the handshake. It must
    /// carry the host cryptogram and a tag computed over a chaining value of
    /// zeros, both compared in constant time; the channel is then
    /// authenticated and the answer is the tagged, empty confirmation.
    /// Anything else fails to verify and ends the channel.
    pub fn verify_authenticate_session(&mut self, command: &CommandMessage) -> (r: Result<
        ResponseMessage,
        SessionError,
    >)
        requires
            old(self)@.wf(),
        ensures
            final(self)@.wf(),
            old(self)@.accepts_host(command@) ==> (r matches Ok(response) && response@ == old(
                self,
            )@.after_authentication_command().authentication_response() && response@.wf()
                && final(self)@ == old(self)@.after_authentication_command().authenticated()),
            !old(self)@.accepts_host(command@) ==> r == Err::<ResponseMessage, SessionError>(
                SessionError { kind: SessionErrorKind::VerifyFailed, cause: ErrorCause::Local },
            ) && final(self)@ == old(self)@.terminated(),
    {
        let cryptogram = self.host_cryptogram();
        let chain = zero_bytes(16);
        let full = frame_mac(
            self.mac_key.as_slice(),
            chain.as_slice(),
            CommandCode::AuthenticateSession.to_u8(),
            self.id,
            cryptogram.as_slice(),
        );
        let completes = match command.command_type {
            CommandCode::AuthenticateSession => true,
            _ => false,
        };
        let same_session = match command.session_id {
            Some(id) => id == self.id,
            None => false,
        };
        let accepted = self.security_level == SecurityLevel::Unauthenticated && completes
            && same_session && ct_eq(command.data.as_slice(), cryptogram.as_slice())
            && tag_matches(&full, &command.mac);
        if !accepted {
            self.terminate();
            return Err(SessionError::new(SessionErrorKind::VerifyFailed));
        }
        assert(command@ == old(self)@.authentication_command());
        self.mac_chaining_value = full;
        let empty = zero_bytes(0);
        assert(empty@ =~= Seq::<u8>::empty());
        let confirmation = frame_mac(
            self.rmac_key.as_slice(),
            self.mac_chaining_value.as_slice(),
            ResponseCode::Success(CommandCode::AuthenticateSession).to_u8(),
            self.id,
            empty.as_slice(),
        );
        let tag = read_bytes(confirmation.as_slice(), 0, MAC_SIZE);
        self.security_level = SecurityLevel::Authenticated;
        self.mac_chaining_value = confirmation;
        let response = ResponseMessage {
            code: ResponseCode::Success(CommandCode::AuthenticateSession),
            session_id: Some(self.id),
            data: empty,
            mac: Some(tag),
        };
        assert(response@.body() =~= seq![self.id] + response@.data + response@.mac->0);
        Ok(response)
    }

    /// Device end: opens a command. A channel that is not authenticated, or
    /// that still owes an answer, reports a protocol error and stays as it
    /// is. Otherwise the command must be a session message of this session
    /// whose tag, compared in constant time, is right: if not, it fails to
    /// verify. It must then decrypt to a command that travels inside a
    /// session: if not, this is a protocol error. Either failure ends the
    /// channel.
    pub fn decrypt_command(&mut self, command: CommandMessage) -> (r: Result<
        CommandMessage,
        SessionError,
    >)
        requires
            old(self)@.wf(),
            command@.wf(),
        ensures
            final(self)@.wf(),
            !old(self)@.awaits_command() ==> r == Err::<CommandMessage, SessionError>(
                SessionError { kind: SessionErrorKind::ProtocolError, cause: ErrorCause::Local },
            ) && final(self)@ == old(self)@,
            old(self)@.awaits_command() && !old(self)@.command_authentic(command@) ==> r == Err::<
                CommandMessage,
                SessionError,
            >(SessionError { kind: SessionErrorKind::VerifyFailed, cause: ErrorCause::Local })
                && final(self)@ == old(self)@.terminated(),
            old(self)@.awaits_command() && old(self)@.command_authentic(command@) ==> match old(
                self,
            )@.opened_command(command@) {
                Some(inner) => r matches Ok(opened) && opened@ == inner && opened@.wf()
                    && final(self)@ == old(self)@.after_opened_command(command@, inner),
                None => r == Err::<CommandMessage, SessionError>(
                    SessionError {
                        kind: SessionErrorKind::ProtocolError,
                        cause: ErrorCause::Local,
                    },
                ) && final(self)@ == old(self)@.terminated(),
            },
    {
        if self.security_level != SecurityLevel::Authenticated || self.pending.is_some() {
            return Err(SessionError::new(SessionErrorKind::ProtocolError));
        }
        let is_session_message = match command.command_type {
            CommandCode::SessionMessage => true,
            _ => false,
        };
        let same_session = match command.session_id {
            Some(id) => id == self.id,
            None => false,
        };
        if !is_session_message || !same_session {
            self.terminate();
            return Err(SessionError::new(SessionErrorKind::VerifyFailed));
        }
        assert(command@.body() =~= seq![command@.session_id->0] + command@.data
            + command@.mac->0);
        let full = frame_mac(
            self.mac_key.as_slice(),
            self.mac_chaining_value.as_slice(),
            CommandCode::SessionMessage.to_u8(),
            self.id,
            command.data.as_slice(),
        );
        if !tag_matches(&full, &command.mac) {
            self.terminate();
            return Err(SessionError::new(SessionErrorKind::VerifyFailed));
        }
        if command.data.len() % 16 != 0 {
            self.terminate();
            return Err(SessionError::new(SessionErrorKind::ProtocolError));
        }
        let iv = compute_iv(self.enc_key.as_slice(), self.counter);
        let padded = cbc_decrypt(self.enc_key.as_slice(), iv.as_slice(), command.data.as_slice());
        let wire = match remove_padding(padded.as_slice()) {
            Some(wire) => wire,
            None => {
                self.terminate();
                return Err(SessionError::new(SessionErrorKind::ProtocolError));
            },
        };
        let inner = match CommandMessage::parse(wire.as_slice()) {
            Ok(inner) => inner,
            Err(_) => {
                self.terminate();
                return Err(SessionError::new(SessionErrorKind::ProtocolError));
            },
        };
        if inner.command_type.in_session() {
            self.terminate();
            return Err(SessionError::new(SessionErrorKind::ProtocolError));
        }
        self.pending = Some(inner.command_type);
        self.mac_chaining_value = full;
        Ok(inner)
    }

    /// Device end: seals a response. The response is padded, encrypted under
    /// the IV of the counter that the command came under, and authenticated
    /// over the chaining value; then the counter advances. Where the channel
    /// cannot seal the response, this is a protocol error and changes nothing.
    pub fn encrypt_response(&mut self, response: ResponseMessage) -> (r: Result<
        ResponseMessage,
        SessionError,
    >)
        requires
            old(self)@.wf(),
            response@.wf(),
        ensures
            final(self)@.wf(),
            old(self)@.can_answer(response@) ==> (r matches Ok(sealed) && sealed@ == old(
                self,
            )@.sealed_response(response@) && sealed@.wf() && final(self)@ == old(
                self,
            )@.after_answer(response@)),
            !old(self)@.can_answer(response@) ==> r == Err::<ResponseMessage, SessionError>(
                SessionError { kind: SessionErrorKind::ProtocolError, cause: ErrorCause::Local },
            ) && final(self)@ == old(self)@,
    {
        if self.security_level != SecurityLevel::Authenticated || self.pending.is_none()
            || self.counter == u32::MAX || response.session_id.is_some()
            || response.mac.is_some() {
            return Err(SessionError::new(SessionErrorKind::ProtocolError));
        }
        let wire = response.serialize();
        let padded = add_padding(wire.as_slice());
        if padded.len() + 9 > 0xffff {
            return Err(SessionError::new(SessionErrorKind::ProtocolError));
        }
        let iv = compute_iv(self.enc_key.as_slice(), self.counter);
        let data = cbc_encrypt(self.enc_key.as_slice(), iv.as_slice(), padded.as_slice());
        let full = frame_mac(
            self.rmac_key.as_slice(),
            self.mac_chaining_value.as_slice(),
            ResponseCode::Success(CommandCode::SessionMessage).to_u8(),
            self.id,
            data.as_slice(),
        );
        let tag = read_bytes(full.as_slice(), 0, MAC_SIZE);
        self.counter = self.counter + 1;
        self.pending = None;
        self.mac_chaining_value = full;
        let sealed = ResponseMessage {
            code: ResponseCode::Success(CommandCode::SessionMessage),
            session_id: Some(self.id),
            data,
            mac: Some(tag),
        };
        assert(sealed@.body() =~= seq![self.id] + sealed@.data + sealed@.mac->0);
        Ok(sealed)
    }
}

/// The MAC chain advances once with every command and once with every
/// response: the chaining value after a command is the full CMAC of the
/// sealed command, computed over the chaining value before it; the chaining
/// value after the response is the full CMAC of the response, computed over
/// the chaining value after the command; and the tag that travels is the
/// first half of the new chaining value.
pub proof fn lemma_mac_chain_advances(
    channel: Channel<Seq<u8>>,
    inner: CommandMessage<Seq<u8>>,
    response: ResponseMessage<Seq<u8>>,
)
    requires
        channel.wf(),
    ensures
        ({
            let sealed = channel.sealed_command(inner);
            let sent = channel.after_command(inner);
            let answered = sent.after_response(response);
            &&& sent.mac_chaining_value == aes128_cmac(
                channel.mac_key,
                mac_input(
                    channel.mac_chaining_value,
                    CommandCode::SessionMessage.code(),
                    channel.id,
                    sealed.data,
                ),
            )
            &&& sealed.mac == Some(sent.mac_chaining_value.subrange(0, MAC_SIZE as int))
            &&& answered.mac_chaining_value == aes128_cmac(
                channel.rmac_key,
                mac_input(
                    sent.mac_chaining_value,
                    ResponseCode::Success(CommandCode::SessionMessage).code(),
                    channel.id,
                    response.data,
                ),
            )
            &&& sent.response_authentic(response) ==> response.mac == Some(
                answered.mac_chaining_value.subrange(0, MAC_SIZE as int),
            )
            &&& mac_input(
                channel.mac_chaining_value,
                CommandCode::SessionMessage.code(),
                channel.id,
                sealed.data,
            ).subrange(0, 16) == channel.mac_chaining_value
        }),
{
    let sealed = channel.sealed_command(inner);
    assert(mac_input(
        channel.mac_chaining_value,
        CommandCode::SessionMessage.code(),
        channel.id,
        sealed.data,
    ).subrange(0, 16) =~= channel.mac_chaining_value);
}

/// The channel after a number of commands have been sealed and their answers
/// opened, one after the other.
pub open spec fn after_round_trips(
    channel: Channel<Seq<u8>>,
    commands: Seq<CommandMessage<Seq<u8>>>,
    responses: Seq<ResponseMessage<Seq<u8>>>,
) -> Channel<Seq<u8>>
    decreases commands.len(),
{
    if commands.len() == 0 {
        channel
    } else {
        after_round_trips(
            channel,
            commands.drop_last(),
            responses.drop_last(),
        ).after_command(commands.last()).after_response(responses.last())
    }
}

/// The encryption counter under which the command at index `k` is sealed.
pub open spec fn counter_at(
    channel: Channel<Seq<u8>>,
    commands: Seq<CommandMessage<Seq<u8>>>,
    responses: Seq<ResponseMessage<Seq<u8>>>,
    k: int,
) -> u32 {
    after_round_trips(channel, commands.subrange(0, k), responses.subrange(0, k)).counter
}

/// The encryption counter is never used twice: on a channel whose counter
/// stands at 1, the `n` commands of a session are sealed under the counters
/// 1, 2, ..., `n`, in this order, and the counter then stands at `n + 1`.
pub proof fn lemma_counters_count_up(
    channel: Channel<Seq<u8>>,
    commands: Seq<CommandMessage<Seq<u8>>>,
    responses: Seq<ResponseMessage<Seq<u8>>>,
)
    requires
        channel.counter == 1,
        commands.len() == responses.len(),
        commands.len() < u32::MAX,
    ensures
        after_round_trips(channel, commands, responses).counter == commands.len() + 1,
        forall|k: int|
            0 <= k < commands.len() ==> #[trigger] counter_at(channel, commands, responses, k) == k
                + 1,
    decreases commands.len(),
{
    if commands.len() > 0 {
        lemma_counters_count_up(channel, commands.drop_last(), responses.drop_last());
        assert forall|k: int| 0 <= k < commands.len() implies #[trigger] counter_at(
            channel,
            commands,
            responses,
            k,
        ) == k + 1 by {
            lemma_counters_count_up(channel, commands.subrange(0, k), responses.subrange(0, k));
        }
    }
}

} // verus!
