//! The client: one typed method for each command of the device.
//!
//! A client owns a connector, at most one session and, where it may open
//! sessions again, the credentials. Every method checks what can be checked
//! without the device, builds the command, sends it through the session and
//! reads the answer.

use crate::algorithm::{Algorithm, AsymmetricAlg, AuthenticationAlg, HmacAlg, MgfAlg, OpaqueAlg,
    WrapAlg, YubicoOtpAlg};
use crate::audit::{AuditCommand, AuditOption, AuditTag};
use crate::codec::{be16, bytes_eq, copy_bytes, put_bytes, read_u16, u16_at};
use crate::command::CommandCode;
use crate::commands::{Command, KeyParams};
use crate::connector::{Connector, Link};
use crate::crypto::{clock_elapsed, clock_now, random_uuid, sha256, sha256_digest, write_u16_be,
    SHA256_SIZE, UUID_SIZE, WRAP_NONCE_SIZE};
use crate::error::{ClientError, ClientErrorKind, ErrorCause, SessionError, SessionErrorKind};
use crate::filter::{filter_views, filters_wf, filters_wire, serialize_filters, Filter};
use crate::object::{Capability, Domain, Label, ObjectInfo, ObjectType};
use crate::responses::Response;
use crate::scp03::{AuthenticationKey, Credentials};
use crate::session::{answered, closing_effect, opening_effect, response_outcome, sending_effect,
    Session};
use vstd::prelude::*;

verus! {

/// Most random bytes that one command may ask for.
pub const MAX_RAND_BYTES: usize = 2048;

/// Shortest HMAC key in bytes.
pub const HMAC_MIN_KEY_SIZE: usize = 1;

/// Longest message in bytes that can be signed with RSASSA-PSS.
pub const RSA_PSS_MAX_MESSAGE_SIZE: usize = 0xFFFF;

/// The outcome of a command as the client hands it on: an answer as it is, a
/// failure of the session as the failure of the client that wraps it.
pub open spec fn surfaced(outcome: Result<Response<Seq<u8>>, SessionError>) -> Result<
    Response<Seq<u8>>,
    ClientError,
> {
    match outcome {
        Ok(response) => Ok(response),
        Err(e) => Err(ClientError::of_session(e)),
    }
}

/// The client of a device.
pub struct Client<C: Connector> {
    /// The transport to the device, with the record of what it was handed.
    pub connector: Link<C>,
    /// The session, once one has been opened.
    pub session: Option<Session>,
    /// The credentials, kept where sessions may be opened again.
    pub credentials: Option<Credentials>,
}

impl<C: Connector> Client<C> {
    /// The connector's invariant holds, and session and credentials are well
    /// formed where they are there.
    pub open spec fn wf(&self) -> bool {
        &&& self.connector.inv()
        &&& self.session matches Some(session) ==> session.wf()
        &&& self.credentials matches Some(credentials) ==> credentials.wf()
    }

    /// Whether the client has an open session.
    pub open spec fn spec_is_connected(&self) -> bool {
        self.session matches Some(session) && session.spec_is_open()
    }

    /// What making sure of an open session does. A client that has one stays
    /// as it is. A client that has none and keeps no credentials fails and
    /// stays as it is. Otherwise a session is opened with the credentials, as
    /// `opening_effect` says: a session that opens becomes the client's, and
    /// a failure to open is the client's failure.
    pub open spec fn connection(before: Self, r: Result<(), ClientError>, after: Self) -> bool {
        &&& after.credentials == before.credentials
        &&& if before.spec_is_connected() {
            r is Ok && after == before
        } else if before.credentials is None {
            &&& r matches Err(e)
            &&& e.kind == ClientErrorKind::AuthFail
            &&& e.cause == ErrorCause::Local
            &&& e.description@ == "session reconnection disabled"@
            &&& after == before
        } else {
            exists|outcome: Result<Session, SessionError>|
                {
                    &&& #[trigger] opening_effect(
                        before.connector.sent@,
                        before.connector.answers@,
                        after.connector.sent@,
                        after.connector.answers@,
                        before.credentials->0.authentication_key_id,
                        before.credentials->0.authentication_key@,
                        true,
                        outcome,
                    )
                    &&& match outcome {
                        Ok(session) => r is Ok && after.session == Some(session),
                        Err(e) => r == Err::<(), ClientError>(ClientError::of_session(e))
                            && after.session == before.session,
                    }
                }
        }
    }

    /// What one attempt to send a command through the client's session does:
    /// for some time for which the session has been idle, what
    /// `sending_effect` says.
    pub open spec fn attempt(
        before: Self,
        command: Command<Seq<u8>>,
        r: Result<Response<Seq<u8>>, SessionError>,
        after: Self,
    ) -> bool {
        &&& before.session is Some
        &&& after.session is Some
        &&& after.credentials == before.credentials
        &&& after.session->0.id == before.session->0.id
        &&& after.session->0.auth_key == before.session->0.auth_key
        &&& exists|elapsed: u128| #[trigger]
            sending_effect(
                before.session->0.channel@,
                before.connector.sent@,
                before.connector.answers@,
                command,
                elapsed,
                r,
                after.session->0.channel@,
                after.connector.sent@,
                after.connector.answers@,
            )
    }

    /// What becomes of a first attempt that has failed with `error`. Where
    /// the client keeps no credentials, or a new session cannot make up for
    /// the failure, the failure is final. Otherwise the client gives up its
    /// session and opens a new one; where that fails, this failure is final;
    /// where it succeeds, the command is attempted once more, and the outcome
    /// of that attempt is final.
    pub open spec fn retried(
        before: Self,
        command: Command<Seq<u8>>,
        error: SessionError,
        r: Result<Response<Seq<u8>>, ClientError>,
        after: Self,
    ) -> bool {
        if before.credentials is None || !error.spec_is_transient() {
            r == Err::<Response<Seq<u8>>, ClientError>(ClientError::of_session(error)) && after
                == before
        } else {
            exists|opened: Result<(), ClientError>, between: Self|
                {
                    &&& #[trigger] Self::connection(
                        Client {
                            connector: before.connector,
                            session: None,
                            credentials: before.credentials,
                        },
                        opened,
                        between,
                    )
                    &&& match opened {
                        Err(e) => r == Err::<Response<Seq<u8>>, ClientError>(e) && after
                            == between,
                        Ok(_) => exists|second: Result<Response<Seq<u8>>, SessionError>|
                            {
                                &&& #[trigger] Self::attempt(between, command, second, after)
                                &&& r == surfaced(second)
                            },
                    }
                }
        }
    }

    /// What sending a command does. The client first makes sure of an open
    /// session, as `connection` says; where it has none, that failure is
    /// final. Then the command is attempted, as `attempt` says. An answer is
    /// final; a failure is followed as `retried` says.
    #[verifier::opaque]
    pub open spec fn commanded(
        before: Self,
        command: Command<Seq<u8>>,
        r: Result<Response<Seq<u8>>, ClientError>,
        after: Self,
    ) -> bool {
        exists|opened: Result<(), ClientError>, ready: Self|
            {
                &&& #[trigger] Self::connection(before, opened, ready)
                &&& match opened {
                    Err(e) => r == Err::<Response<Seq<u8>>, ClientError>(e) && after == ready,
                    Ok(_) => exists|first: Result<Response<Seq<u8>>, SessionError>, tried: Self|
                        {
                            &&& #[trigger] Self::attempt(ready, command, first, tried)
                            &&& match first {
                                Ok(response) => r == Ok::<Response<Seq<u8>>, ClientError>(
                                    response,
                                ) && after == tried,
                                Err(error) => Self::retried(tried, command, error, r, after),
                            }
                        },
                }
            }
    }

    /// A client that has not yet opened a session.
    pub fn create(connector: C, credentials: Credentials) -> (r: Result<Client<C>, ClientError>)
        requires
            connector.inv(),
            credentials.wf(),
        ensures
            r matches Ok(client) && client.wf() && client.session is None
                && client.credentials == Some(credentials) && client.connector.connector
                == connector && client.connector.sent@.len() == 0,
    {
        Ok(
            Client {
                connector: Link::new(connector),
                session: None,
                credentials: Some(credentials),
            }
        )
    }

    /// A client with an open session. A session is opened on a link that has
    /// nothing on record yet, as `opening_effect` says: the session that
    /// opens is the client's, and a failure to open is the failure of this
    /// call. Client and session keep the credentials exactly if `reconnect`
    /// is set.
    pub fn open(connector: C, credentials: Credentials, reconnect: bool) -> (r: Result<
        Client<C>,
        ClientError,
    >)
        requires
            connector.inv(),
            credentials.wf(),
        ensures
            exists|
                sent: Seq<Seq<u8>>,
                answers: Seq<Seq<u8>>,
                outcome: Result<Session, SessionError>,
            |
                {
                    &&& #[trigger] opening_effect(
                        Seq::<Seq<u8>>::empty(),
                        Seq::<Seq<u8>>::empty(),
                        sent,
                        answers,
                        credentials.authentication_key_id,
                        credentials.authentication_key@,
                        reconnect,
                        outcome,
                    )
                    &&& match outcome {
                        Ok(session) => r matches Ok(client) && client.session == Some(session)
                            && client.connector.sent@ == sent && client.connector.answers@
                            == answers,
                        Err(e) => r == Err::<Client<C>, ClientError>(ClientError::of_session(e)),
                    }
                },
            r matches Ok(client) ==> {
                &&& client.wf()
                &&& client.spec_is_connected()
                &&& client.session->0.channel@.counter == 1
                &&& client.session->0.channel@.pending is None
                &&& reconnect ==> client.credentials == Some(credentials)
                &&& reconnect ==> (client.session->0.auth_key matches Some(key) && key@
                    == credentials.authentication_key@)
                &&& !reconnect ==> client.credentials is None
                &&& !reconnect ==> client.session->0.auth_key is None
            },
    {
        let mut link = Link::new(connector);
        let outcome = Session::create(
            &mut link,
            credentials.authentication_key_id,
            credentials.authentication_key.duplicate(),
            reconnect,
        );
        proof {
            assert(opening_effect(
                Seq::<Seq<u8>>::empty(),
                Seq::<Seq<u8>>::empty(),
                link.sent@,
                link.answers@,
                credentials.authentication_key_id,
                credentials.authentication_key@,
                reconnect,
                outcome,
            ));
        }
        match outcome {
            Ok(session) => Ok(
                Client {
                    connector: link,
                    session: Some(session),
                    credentials: if reconnect {
                        Some(credentials)
                    } else {
                        None
                    },
                },
            ),
            Err(e) => Err(ClientError::session(e)),
        }
    }

    /// Whether the client has an open session.
    pub fn is_connected(&self) -> (r: bool)
        ensures
            r == self.spec_is_connected(),
    {
        match &self.session {
            Some(session) => session.is_open(),
            None => false,
        }
    }

    /// Number of the session, where the client has one.
    pub fn session_id(&self) -> (r: Option<u8>)
        ensures
            r == (match self.session {
                Some(session) => Some(session.id),
                None => None,
            }),
    {
        match &self.session {
            Some(session) => Some(session.id()),
            None => None,
        }
    }

    /// Makes sure that the client has an open session. A client that has one
    /// keeps it, and nothing is sent. A client that has none opens one with
    /// its credentials; without credentials this fails, since sessions may
    /// not be opened again.
    pub fn connect(&mut self) -> (r: Result<(), ClientError>)
        requires
            old(self).wf(),
        ensures
            final(self).wf(),
            Self::connection(*old(self), r, *final(self)),
            final(self).credentials == old(self).credentials,
            final(self).connector.sent@.len() <= old(self).connector.sent@.len() + 2,
            r is Ok ==> final(self).spec_is_connected(),
            old(self).spec_is_connected() ==> r is Ok && final(self).session == old(self).session
                && final(self).connector == old(self).connector,
            !old(self).spec_is_connected() && old(self).credentials is None ==> (r matches Err(e)
                && e.kind == ClientErrorKind::AuthFail && e.description@
                == "session reconnection disabled"@ && final(self).session == old(self).session
                && final(self).connector == old(self).connector),
            !old(self).spec_is_connected() && r is Ok ==> final(self).session->0.channel@.counter
                == 1 && final(self).session->0.channel@.pending is None,
            !old(self).spec_is_connected() && old(self).credentials is Some ==> exists|
                outcome: Result<Session, SessionError>,
            |
                {
                    &&& #[trigger] opening_effect(
                        old(self).connector.sent@,
                        old(self).connector.answers@,
                        final(self).connector.sent@,
                        final(self).connector.answers@,
                        old(self).credentials->0.authentication_key_id,
                        old(self).credentials->0.authentication_key@,
                        true,
                        outcome,
                    )
                    &&& match outcome {
                        Ok(session) => r is Ok && final(self).session == Some(session),
                        Err(e) => r matches Err(f) && f.kind == ClientError::kind_of(e) && f.cause
                            == e.cause && final(self).session == old(self).session,
                    }
                },
    {
        if self.is_connected() {
            return Ok(());
        }
        let credentials = match &self.credentials {
            Some(credentials) => credentials.duplicate(),
            None => {
                return Err(
                    ClientError::new(ClientErrorKind::AuthFail, "session reconnection disabled"),
                );
            },
        };
        let outcome = Session::create(
            &mut self.connector,
            credentials.authentication_key_id,
            credentials.authentication_key,
            true,
        );
        proof {
            assert(opening_effect(
                old(self).connector.sent@,
                old(self).connector.answers@,
                self.connector.sent@,
                self.connector.answers@,
                old(self).credentials->0.authentication_key_id,
                old(self).credentials->0.authentication_key@,
                true,
                outcome,
            ));
        }
        match outcome {
            Ok(session) => {
                self.session = Some(session);
                Ok(())
            },
            Err(e) => Err(ClientError::session(e)),
        }
    }

    /// The number of the client's open session. Where the client has none,
    /// one is opened first, as `connection` says: without credentials this
    /// fails and nothing is sent, and with them one handshake takes place.
    pub fn session(&mut self) -> (r: Result<u8, ClientError>)
        requires
            old(self).wf(),
        ensures
            final(self).wf(),
            Self::connection(
                *old(self),
                (match r {
                    Ok(_) => Ok(()),
                    Err(e) => Err(e),
                }),
                *final(self),
            ),
            final(self).credentials == old(self).credentials,
            final(self).connector.sent@.len() <= old(self).connector.sent@.len() + 2,
            r matches Ok(id) ==> final(self).spec_is_connected() && final(self).session->0.id
                == id,
            old(self).spec_is_connected() ==> r is Ok && final(self).session == old(self).session
                && final(self).connector == old(self).connector,
            !old(self).spec_is_connected() && old(self).credentials is None ==> (r matches Err(e)
                && e.kind == ClientErrorKind::AuthFail && e.description@
                == "session reconnection disabled"@ && final(self).session == old(self).session
                && final(self).connector == old(self).connector),
            !old(self).spec_is_connected() && r is Ok ==> final(self).session->0.channel@.counter
                == 1 && final(self).session->0.channel@.pending is None,
            !old(self).spec_is_connected() && old(self).credentials is Some ==> exists|
                outcome: Result<Session, SessionError>,
            |
                {
                    &&& #[trigger] opening_effect(
                        old(self).connector.sent@,
                        old(self).connector.answers@,
                        final(self).connector.sent@,
                        final(self).connector.answers@,
                        old(self).credentials->0.authentication_key_id,
                        old(self).credentials->0.authentication_key@,
                        true,
                        outcome,
                    )
                    &&& match outcome {
                        Ok(session) => r == Ok::<u8, ClientError>(session.id)
                            && final(self).session == Some(session),
                        Err(e) => r == Err::<u8, ClientError>(ClientError::of_session(e))
                            && final(self).session == old(self).session,
                    }
                },
    {
        match self.connect() {
            Ok(()) => {},
            Err(e) => {
                return Err(e);
            },
        }
        match &self.session {
            Some(session) => Ok(session.id()),
            None => Err(ClientError::new(ClientErrorKind::CreateFailed, "no session")),
        }
    }

    /// Closes the client's session, if it has one: an open session tells the
    /// device, as `Session::close` says, and whatever comes back the session
    /// is ended, its keys are wiped and the client gives it up. The client
    /// keeps its credentials, so that a later command opens a new session.
    pub fn close(&mut self)
        requires
            old(self).wf(),
        ensures
            final(self).wf(),
            final(self).session is None,
            final(self).credentials == old(self).credentials,
            !old(self).spec_is_connected() ==> final(self).connector.sent@ == old(
                self,
            ).connector.sent@,
            old(self).session is None ==> final(self).connector == old(self).connector,
            old(self).session matches Some(session) ==> exists|elapsed: u128| #[trigger]
                closing_effect(
                    session.channel@,
                    old(self).connector.sent@,
                    elapsed,
                    final(self).connector.sent@,
                ),
    {
        match self.session.take() {
            Some(mut session) => {
                session.close(&mut self.connector);
            },
            None => {},
        }
    }

    /// Sends a command through the session that the client has, once.
    fn attempt_command(&mut self, command: Command) -> (r: Result<Response, SessionError>)
        requires
            old(self).wf(),
            old(self).session is Some,
            command@.wf(),
        ensures
            final(self).wf(),
            Self::attempt(*old(self), command@, response_outcome(r), *final(self)),
            final(self).credentials == old(self).credentials,
            final(self).connector.sent@.len() <= old(self).connector.sent@.len() + 1,
            r matches Ok(response) ==> {
                &&& answered(
                    final(self).connector.sent@,
                    final(self).connector.answers@,
                    command@,
                    response@,
                )
                &&& response@.wf()
                &&& response@.code() == command@.code()
                &&& final(self).spec_is_connected()
            },
    {
        let mut session = match self.session.take() {
            Some(session) => session,
            None => {
                return Err(SessionError::new(SessionErrorKind::CreateFailed));
            },
        };
        let ghost asked = command@;
        let r = session.send_encrypted_command(&mut self.connector, command);
        let ghost elapsed = choose|elapsed: u128| #[trigger]
            sending_effect(
                old(self).session->0.channel@,
                old(self).connector.sent@,
                old(self).connector.answers@,
                asked,
                elapsed,
                response_outcome(r),
                session.channel@,
                self.connector.sent@,
                self.connector.answers@,
            );
        self.session = Some(session);
        proof {
            assert(sending_effect(
                old(self).session->0.channel@,
                old(self).connector.sent@,
                old(self).connector.answers@,
                asked,
                elapsed,
                response_outcome(r),
                self.session->0.channel@,
                self.connector.sent@,
                self.connector.answers@,
            ));
            assert(Self::attempt(*old(self), asked, response_outcome(r), *self));
        }
        r
    }

    /// Follows a first attempt that has failed, as `retried` says.
    fn retry(&mut self, command: Command, error: SessionError) -> (r: Result<
        Response,
        ClientError,
    >)
        requires
            old(self).wf(),
            command@.wf(),
        ensures
            final(self).wf(),
            Self::retried(*old(self), command@, error, response_outcome(r), *final(self)),
            final(self).credentials == old(self).credentials,
            final(self).connector.sent@.len() <= old(self).connector.sent@.len() + 3,
            old(self).credentials is None ==> final(self).connector.sent@ == old(
                self,
            ).connector.sent@,
            r matches Ok(response) ==> {
                &&& answered(
                    final(self).connector.sent@,
                    final(self).connector.answers@,
                    command@,
                    response@,
                )
                &&& response@.wf()
                &&& response@.code() == command@.code()
                &&& final(self).spec_is_connected()
            },
    {
        if self.credentials.is_none() || !error.is_transient() {
            return Err(ClientError::session(error));
        }
        self.session = None;
        let ghost lost = *self;
        let opened = self.connect();
        let ghost between = *self;
        proof {
            assert(Self::connection(lost, opened, between));
        }
        match opened {
            Ok(()) => {},
            Err(e) => {
                return Err(e);
            },
        }
        let second = self.attempt_command(command);
        let r = match second {
            Ok(response) => Ok(response),
            Err(error) => Err(ClientError::session(error)),
        };
        proof {
            assert(Self::attempt(between, command@, response_outcome(second), *self));
            assert(response_outcome(r) == surfaced(response_outcome(second)));
        }
        r
    }

    /// Sends a command through the session and reads the answer.
    ///
    /// Where the client has no open session, one is opened first. Where the
    /// session fails in a way that a new session may make up for, and the
    /// client has kept its credentials, a new session is opened and the
    /// command is sent once more; the answer to that second attempt is
    /// final. So at most two handshakes and two sealed commands are handed to
    /// the connector, and without credentials at most one of each. An answer
    /// that comes back answers the command, and the client is then connected.
    pub fn send_command(&mut self, command: Command) -> (r: Result<Response, ClientError>)
        requires
            old(self).wf(),
            command@.wf(),
        ensures
            final(self).wf(),
            Self::commanded(*old(self), command@, response_outcome(r), *final(self)),
            final(self).credentials == old(self).credentials,
            final(self).connector.sent@.len() <= old(self).connector.sent@.len() + 6,
            old(self).credentials is None ==> final(self).connector.sent@.len() <= old(
                self,
            ).connector.sent@.len() + 1,
            old(self).spec_is_connected() ==> final(self).connector.sent@.len() <= old(
                self,
            ).connector.sent@.len() + 4,
            r matches Ok(response) ==> {
                &&& answered(
                    final(self).connector.sent@,
                    final(self).connector.answers@,
                    command@,
                    response@,
                )
                &&& response@.wf()
                &&& response@.code() == command@.code()
                &&& final(self).spec_is_connected()
            },
            !old(self).spec_is_connected() && old(self).credentials is None ==> (r matches Err(e)
                && e.kind == ClientErrorKind::AuthFail && e.description@
                == "session reconnection disabled"@ && final(self).session == old(self).session
                && final(self).connector == old(self).connector),
    {
        proof {
            reveal(Client::commanded);
        }
        let opened = self.connect();
        let ghost ready = *self;
        proof {
            assert(Self::connection(*old(self), opened, ready));
        }
        match opened {
            Ok(()) => {},
            Err(e) => {
                return Err(e);
            },
        }
        let again = command.duplicate();
        let first = self.attempt_command(command);
        let ghost tried = *self;
        proof {
            assert(Self::attempt(ready, again@, response_outcome(first), tried));
        }
        match first {
            Ok(response) => Ok(response),
            Err(error) => self.retry(again, error),
        }
    }
}

// ---- commands ----

/// The public half of an asymmetric key.
#[derive(Debug)]
pub struct PublicKey {
    /// Algorithm of the key.
    pub algorithm: Algorithm,
    /// The bytes of the public key.
    pub bytes: Vec<u8>,
}

/// A message sealed under a wrap key.
#[derive(Debug)]
pub struct WrapMessage {
    /// The nonce: 13 bytes.
    pub nonce: Vec<u8>,
    /// The ciphertext and its tag.
    pub ciphertext: Vec<u8>,
}

impl WrapMessage {
    /// The nonce has 13 bytes.
    pub open spec fn wf(&self) -> bool {
        self.nonce@.len() == WRAP_NONCE_SIZE
    }
}

/// An object in a list of objects.
#[derive(Clone, Copy, Debug, PartialEq, Eq, Structural)]
pub struct ListObjectsEntry {
    /// Number of the object.
    pub object_id: u16,
    /// Type of the object.
    pub object_type: ObjectType,
    /// How often the object's slot has been filled.
    pub sequence: u8,
}

/// The failure of an argument or of an answer to meet the protocol.
pub open spec fn is_protocol_error(e: ClientError) -> bool {
    e.kind == ClientErrorKind::ProtocolError && e.cause == ErrorCause::Local
}

/// The parameters of a new object.
pub open spec fn key_params(
    key_id: u16,
    label: Seq<u8>,
    domains: Domain,
    capabilities: Capability,
    algorithm: Algorithm,
) -> KeyParams<Seq<u8>> {
    KeyParams { key_id, label, domains, capabilities, algorithm }
}

/// Makes the parameters of a new object.
pub fn make_params(
    key_id: u16,
    label: Label,
    domains: Domain,
    capabilities: Capability,
    algorithm: Algorithm,
) -> (params: KeyParams)
    requires
        label.wf(),
    ensures
        params@ == key_params(key_id, label@, domains, capabilities, algorithm),
        params@.wf(),
{
    KeyParams { key_id, label: label.bytes, domains, capabilities, algorithm }
}

/// The command that asks for random bytes. One command may ask for at most
/// `MAX_RAND_BYTES`.
pub fn get_pseudo_random_command(bytes: usize) -> (r: Result<Command, ClientError>)
    ensures
        match r {
            Ok(c) => bytes <= MAX_RAND_BYTES && c@ == (Command::<Seq<u8>>::GetPseudoRandom {
                bytes: bytes as u16,
            }) && c@.wf(),
            Err(e) => bytes > MAX_RAND_BYTES && is_protocol_error(e),
        },
{
    if bytes > MAX_RAND_BYTES {
        Err(
            ClientError::new(
                ClientErrorKind::ProtocolError,
                "requested number of bytes too large",
            ),
        )
    } else {
        Ok(Command::GetPseudoRandom { bytes: bytes as u16 })
    }
}

/// The command that stores an asymmetric key. The key must be as long as its
/// algorithm asks.
pub fn put_asymmetric_key_command(
    key_id: u16,
    label: Label,
    domains: Domain,
    capabilities: Capability,
    algorithm: AsymmetricAlg,
    key_bytes: Vec<u8>,
) -> (r: Result<Command, ClientError>)
    requires
        label.wf(),
    ensures
        match r {
            Ok(c) => key_bytes@.len() == algorithm.spec_key_len() && c@ == (Command::<
                Seq<u8>,
            >::PutAsymmetricKey {
                params: key_params(
                    key_id,
                    label@,
                    domains,
                    capabilities,
                    Algorithm::Asymmetric(algorithm),
                ),
                data: key_bytes@,
            }) && c@.wf(),
            Err(e) => key_bytes@.len() != algorithm.spec_key_len() && is_protocol_error(e),
        },
{
    if key_bytes.len() != algorithm.key_len() {
        return Err(ClientError::new(ClientErrorKind::ProtocolError, "invalid key length"));
    }
    Ok(
        Command::PutAsymmetricKey {
            params: make_params(
                key_id,
                label,
                domains,
                capabilities,
                Algorithm::Asymmetric(algorithm),
            ),
            data: key_bytes,
        },
    )
}

/// The command that stores an HMAC key. The key must have at least
/// `HMAC_MIN_KEY_SIZE` bytes and at most as many as its algorithm allows.
pub fn put_hmac_key_command(
    key_id: u16,
    label: Label,
    domains: Domain,
    capabilities: Capability,
    algorithm: HmacAlg,
    key_bytes: Vec<u8>,
) -> (r: Result<Command, ClientError>)
    requires
        label.wf(),
    ensures
        match r {
            Ok(c) => HMAC_MIN_KEY_SIZE <= key_bytes@.len() <= algorithm.spec_max_key_len() && c@
                == (Command::<Seq<u8>>::PutHmacKey {
                params: key_params(
                    key_id,
                    label@,
                    domains,
                    capabilities,
                    Algorithm::Hmac(algorithm),
                ),
                hmac_key: key_bytes@,
            }) && c@.wf(),
            Err(e) => !(HMAC_MIN_KEY_SIZE <= key_bytes@.len() <= algorithm.spec_max_key_len())
                && is_protocol_error(e),
        },
{
    if key_bytes.len() < HMAC_MIN_KEY_SIZE || key_bytes.len() > algorithm.max_key_len() {
        return Err(ClientError::new(ClientErrorKind::ProtocolError, "invalid key length"));
    }
    Ok(
        Command::PutHmacKey {
            params: make_params(key_id, label, domains, capabilities, Algorithm::Hmac(algorithm)),
            hmac_key: key_bytes,
        },
    )
}

/// The command that stores a Yubico OTP key. The key must be as long as its
/// algorithm asks.
pub fn put_otp_aead_key_command(
    key_id: u16,
    label: Label,
    domains: Domain,
    capabilities: Capability,
    algorithm: YubicoOtpAlg,
    key_bytes: Vec<u8>,
) -> (r: Result<Command, ClientError>)
    requires
        label.wf(),
    ensures
        match r {
            Ok(c) => key_bytes@.len() == algorithm.spec_key_len() && c@ == (Command::<
                Seq<u8>,
            >::PutOtpAeadKey {
                params: key_params(
                    key_id,
                    label@,
                    domains,
                    capabilities,
                    Algorithm::YubicoOtp(algorithm),
                ),
                data: key_bytes@,
            }) && c@.wf(),
            Err(e) => key_bytes@.len() != algorithm.spec_key_len() && is_protocol_error(e),
        },
{
    if key_bytes.len() != algorithm.key_len() {
        return Err(ClientError::new(ClientErrorKind::ProtocolError, "invalid key length"));
    }
    Ok(
        Command::PutOtpAeadKey {
            params: make_params(
                key_id,
                label,
                domains,
                capabilities,
                Algorithm::YubicoOtp(algorithm),
            ),
            data: key_bytes,
        },
    )
}

/// The command that stores a wrap key. The key must be as long as its
/// algorithm asks.
pub fn put_wrap_key_command(
    key_id: u16,
    label: Label,
    domains: Domain,
    capabilities: Capability,
    delegated_capabilities: Capability,
    algorithm: WrapAlg,
    key_bytes: Vec<u8>,
) -> (r: Result<Command, ClientError>)
    requires
        label.wf(),
    ensures
        match r {
            Ok(c) => key_bytes@.len() == algorithm.spec_key_len() && c@ == (Command::<
                Seq<u8>,
            >::PutWrapKey {
                params: key_params(
                    key_id,
                    label@,
                    domains,
                    capabilities,
                    Algorithm::Wrap(algorithm),
                ),
                delegated_capabilities,
                data: key_bytes@,
            }) && c@.wf(),
            Err(e) => key_bytes@.len() != algorithm.spec_key_len() && is_protocol_error(e),
        },
{
    if key_bytes.len() != algorithm.key_len() {
        return Err(ClientError::new(ClientErrorKind::ProtocolError, "invalid key length"));
    }
    Ok(
        Command::PutWrapKey {
            params: make_params(key_id, label, domains, capabilities, Algorithm::Wrap(algorithm)),
            delegated_capabilities,
            data: key_bytes,
        },
    )
}

/// The command that signs the SHA-256 digest of `data` with RSASSA-PKCS#1
/// v1.5.
pub fn sign_rsa_pkcs1v15_sha256_command(key_id: u16, data: &[u8]) -> (c: Command)
    ensures
        c@ == (Command::<Seq<u8>>::SignPkcs1 { key_id, digest: sha256(data@) }),
        c@.wf(),
{
    Command::SignPkcs1 { key_id, digest: sha256_digest(data) }
}

/// What is hashed for an RSASSA-PSS signature: the length of the message in
/// two bytes, then the message.
pub open spec fn pss_input(data: Seq<u8>) -> Seq<u8> {
    be16(data.len() as u16) + data
}

/// The command that signs a message with RSASSA-PSS, with MGF1 over SHA-256
/// and a salt as long as the digest. A message of more than
/// `RSA_PSS_MAX_MESSAGE_SIZE` bytes is too large to be signed.
pub fn sign_rsa_pss_sha256_command(key_id: u16, data: &[u8]) -> (r: Result<Command, ClientError>)
    ensures
        match r {
            Ok(c) => data@.len() <= RSA_PSS_MAX_MESSAGE_SIZE && c@ == (Command::<
                Seq<u8>,
            >::SignPss {
                key_id,
                mgf1_hash_alg: Algorithm::Mgf(MgfAlg::SHA256),
                salt_len: SHA256_SIZE as u16,
                digest: sha256(pss_input(data@)),
            }) && c@.wf(),
            Err(e) => data@.len() > RSA_PSS_MAX_MESSAGE_SIZE && is_protocol_error(e),
        },
{
    if data.len() > RSA_PSS_MAX_MESSAGE_SIZE {
        return Err(
            ClientError::new(ClientErrorKind::ProtocolError, "message too large to be signed"),
        );
    }
    let mut input = write_u16_be(data.len() as u16);
    put_bytes(&mut input, data);
    let digest = sha256_digest(input.as_slice());
    Ok(
        Command::SignPss {
            key_id,
            mgf1_hash_alg: Algorithm::Mgf(MgfAlg::SHA256),
            salt_len: SHA256_SIZE as u16,
            digest,
        },
    )
}

/// The command that verifies an HMAC tag: the tag travels before the
/// message.
pub fn verify_hmac_command(key_id: u16, msg: &[u8], tag: &[u8]) -> (c: Command)
    ensures
        c@ == (Command::<Seq<u8>>::VerifyHmac { key_id, tag_and_data: tag@ + msg@ }),
        c@.wf(),
{
    let mut tag_and_data = copy_bytes(tag);
    put_bytes(&mut tag_and_data, msg);
    Command::VerifyHmac { key_id, tag_and_data }
}

/// The command that lists the objects that meet every one of the filters.
pub fn list_objects_command(filters: &[Filter]) -> (c: Command)
    requires
        filters_wf(filter_views(filters@)),
    ensures
        c@ == (Command::<Seq<u8>>::ListObjects {
            filters: filters_wire(filter_views(filters@)),
        }),
        c@.wf(),
{
    Command::ListObjects { filters: serialize_filters(filters) }
}

/// The command that sets whether a command is logged.
pub fn set_audit_option_command(command: CommandCode, audit_option: AuditOption) -> (c: Command)
    ensures
        c@ == (Command::<Seq<u8>>::SetOption {
            tag: AuditTag::Command,
            value: (AuditCommand { command, option: audit_option }).wire(),
        }),
        c@.wf(),
{
    Command::SetOption {
        tag: AuditTag::Command,
        value: (AuditCommand { command, option: audit_option }).serialize(),
    }
}

/// The command that sets whether the device refuses commands once the audit
/// log is full.
pub fn put_force_audit_option_command(option: AuditOption) -> (c: Command)
    ensures
        c@ == (Command::<Seq<u8>>::SetOption { tag: AuditTag::Force, value: seq![option.code()] }),
        c@.wf(),
{
    let mut value: Vec<u8> = Vec::new();
    value.push(option.to_u8());
    assert(value@ =~= seq![option.code()]);
    Command::SetOption { tag: AuditTag::Force, value }
}

/// How the answer to a ping is read: the echo of what was sent is a
/// success, anything else a response error.
pub open spec fn ping_read<T>(sent: Seq<u8>, received: Seq<u8>, r: Result<T, ClientError>) -> bool {
    match r {
        Ok(_) => received == sent,
        Err(e) => received != sent && e.kind == ClientErrorKind::ResponseError,
    }
}

/// How the device's verdict on an HMAC tag is read: 1 is a success, anything
/// else a response error.
pub open spec fn verdict_read(result: u8, r: Result<(), ClientError>) -> bool {
    match r {
        Ok(_) => result == 1,
        Err(e) => result != 1 && e.kind == ClientErrorKind::ResponseError,
    }
}

/// How the value of the option that forces auditing is read: one byte that
/// names an option, else a protocol error.
pub open spec fn force_option_read(value: Seq<u8>, r: Result<AuditOption, ClientError>) -> bool {
    match r {
        Ok(option) => value.len() == 1 && AuditOption::of_code(value[0]) == Some(option),
        Err(e) => (value.len() != 1 || AuditOption::of_code(value[0]) is None)
            && is_protocol_error(e),
    }
}

/// How the value of the option that audits commands is read: pairs of a
/// command and an option, else a protocol error.
pub open spec fn audit_options_read(
    value: Seq<u8>,
    r: Result<Vec<AuditCommand>, ClientError>,
) -> bool {
    match r {
        Ok(options) => value.len() % 2 == 0 && audit_options_in(value, value.len() as int / 2)
            == Some(options@),
        Err(e) => (value.len() % 2 != 0 || audit_options_in(value, value.len() as int / 2)
            is None) && is_protocol_error(e),
    }
}

/// How the option of one command is read from the value of the option that
/// audits commands: the option that the pairs give the command, or a protocol
/// error where the value holds no pairs.
pub open spec fn command_option_read(
    value: Seq<u8>,
    command: CommandCode,
    r: Result<AuditOption, ClientError>,
) -> bool {
    match r {
        Ok(option) => value.len() % 2 == 0 && audit_options_in(value, value.len() as int / 2)
            is Some && option == audit_option_of(
            audit_options_in(value, value.len() as int / 2)->0,
            command,
        ),
        Err(e) => (value.len() % 2 != 0 || audit_options_in(value, value.len() as int / 2)
            is None) && is_protocol_error(e),
    }
}

/// How a list of objects is read: entries of four bytes each, else a
/// protocol error.
pub open spec fn list_read(
    entries: Seq<u8>,
    r: Result<Vec<ListObjectsEntry>, ClientError>,
) -> bool {
    match r {
        Ok(list) => entries.len() % 4 == 0 && entries_in(entries, entries.len() as int / 4)
            == Some(list@),
        Err(e) => (entries.len() % 4 != 0 || entries_in(entries, entries.len() as int / 4)
            is None) && is_protocol_error(e),
    }
}

/// Whether the echo of a ping is the message that was sent.
pub fn check_ping(sent: &[u8], received: &[u8]) -> (r: Result<(), ClientError>)
    ensures
        match r {
            Ok(()) => received@ == sent@,
            Err(e) => received@ != sent@ && e.kind == ClientErrorKind::ResponseError,
        },
{
    if bytes_eq(sent, received) {
        Ok(())
    } else {
        Err(ClientError::new(ClientErrorKind::ResponseError, "echo does not match"))
    }
}

/// Whether the device has found an HMAC tag to be right: it answers 1.
pub fn check_hmac_verified(result: u8) -> (r: Result<(), ClientError>)
    ensures
        match r {
            Ok(()) => result == 1,
            Err(e) => result != 1 && e.kind == ClientErrorKind::ResponseError,
        },
{
    if result == 1 {
        Ok(())
    } else {
        Err(ClientError::new(ClientErrorKind::ResponseError, "HMAC verification failure"))
    }
}

/// The forced audit setting that the value of an option holds: one byte that
/// names a setting.
pub fn read_force_audit_option(value: &[u8]) -> (r: Result<AuditOption, ClientError>)
    ensures
        match r {
            Ok(option) => value@.len() == 1 && AuditOption::of_code(value@[0]) == Some(option),
            Err(e) => (value@.len() != 1 || AuditOption::of_code(value@[0]) is None)
                && is_protocol_error(e),
        },
{
    if value.len() != 1 {
        return Err(ClientError::new(ClientErrorKind::ProtocolError, "expected 1-byte response"));
    }
    match AuditOption::from_u8(value[0]) {
        Some(option) => Ok(option),
        None => Err(ClientError::new(ClientErrorKind::ProtocolError, "invalid audit option")),
    }
}

/// The audit settings that the first `n` pairs of bytes of a buffer hold;
/// `None` where a pair names no command or no setting.
pub open spec fn audit_options_in(s: Seq<u8>, n: int) -> Option<Seq<AuditCommand>>
    decreases n,
{
    if n <= 0 {
        Some(Seq::<AuditCommand>::empty())
    } else {
        match (audit_options_in(s, n - 1), AuditCommand::at(s, 2 * (n - 1))) {
            (Some(options), Ok(option)) => Some(options.push(option)),
            _ => None,
        }
    }
}

/// The audit settings that the value of an option holds: two bytes each.
pub fn read_audit_options(value: &[u8]) -> (r: Result<Vec<AuditCommand>, ClientError>)
    ensures
        match r {
            Ok(options) => value@.len() % 2 == 0 && audit_options_in(
                value@,
                value@.len() as int / 2,
            ) == Some(options@),
            Err(e) => (value@.len() % 2 != 0 || audit_options_in(
                value@,
                value@.len() as int / 2,
            ) is None) && is_protocol_error(e),
        },
{
    if value.len() % 2 != 0 {
        return Err(ClientError::new(ClientErrorKind::ProtocolError, "odd number of bytes"));
    }
    let count: usize = value.len() / 2;
    let mut options: Vec<AuditCommand> = Vec::new();
    let mut i: usize = 0;
    while i < count
        invariant
            i <= count,
            2 * count == value@.len(),
            value@.len() <= usize::MAX,
            audit_options_in(value@, i as int) == Some(options@),
        decreases count - i,
    {
        match AuditCommand::read(value, 2 * i) {
            Ok(option) => {
                options.push(option);
            },
            Err(_) => {
                proof {
                    lemma_audit_options_fail(value@, i as int + 1, count as int);
                }
                return Err(
                    ClientError::new(ClientErrorKind::ProtocolError, "invalid audit setting"),
                );
            },
        }
        i += 1;
    }
    Ok(options)
}

/// Once a pair fails to parse, so does every longer list.
pub proof fn lemma_audit_options_fail(s: Seq<u8>, m: int, n: int)
    requires
        0 <= m <= n,
        audit_options_in(s, m) is None,
    ensures
        audit_options_in(s, n) is None,
    decreases n - m,
{
    if m < n {
        lemma_audit_options_fail(s, m, n - 1);
    }
}

/// The setting of a command among a list of settings: that of the first
/// entry for the command, and `Off` where there is none.
pub open spec fn audit_option_of(options: Seq<AuditCommand>, command: CommandCode) -> AuditOption
    decreases options.len(),
{
    if options.len() == 0 {
        AuditOption::Off
    } else if options.first().command == command {
        options.first().option
    } else {
        audit_option_of(options.drop_first(), command)
    }
}

/// Looks up the setting of a command among a list of settings.
pub fn find_audit_option(options: &Vec<AuditCommand>, command: CommandCode) -> (option: AuditOption)
    ensures
        option == audit_option_of(options@, command),
{
    let mut i: usize = 0;
    assert(options@.subrange(0, options@.len() as int) =~= options@);
    while i < options.len()
        invariant
            i <= options@.len(),
            audit_option_of(options@, command) == audit_option_of(
                options@.subrange(i as int, options@.len() as int),
                command,
            ),
        decreases options@.len() - i,
    {
        let ghost rest = options@.subrange(i as int, options@.len() as int);
        assert(rest.first() == options@[i as int]);
        assert(rest.drop_first() =~= options@.subrange(i as int + 1, options@.len() as int));
        if options[i].command == command {
            return options[i].option;
        }
        i += 1;
    }
    AuditOption::Off
}

/// The entries that the first `n` groups of four bytes of a buffer hold;
/// `None` where a group names no type.
pub open spec fn entries_in(s: Seq<u8>, n: int) -> Option<Seq<ListObjectsEntry>>
    decreases n,
{
    if n <= 0 {
        Some(Seq::<ListObjectsEntry>::empty())
    } else {
        match (entries_in(s, n - 1), ObjectType::of_code(s[4 * (n - 1) + 2])) {
            (Some(entries), Some(object_type)) => Some(
                entries.push(
                    ListObjectsEntry {
                        object_id: u16_at(s, 4 * (n - 1)),
                        object_type,
                        sequence: s[4 * (n - 1) + 3],
                    },
                ),
            ),
            _ => None,
        }
    }
}

/// Once a group fails to parse, so does every longer list.
pub proof fn lemma_entries_fail(s: Seq<u8>, m: int, n: int)
    requires
        0 <= m <= n,
        entries_in(s, m) is None,
    ensures
        entries_in(s, n) is None,
    decreases n - m,
{
    if m < n {
        lemma_entries_fail(s, m, n - 1);
    }
}

/// The entries that a list of objects holds: four bytes each.
pub fn read_list_entries(entries: &[u8]) -> (r: Result<Vec<ListObjectsEntry>, ClientError>)
    ensures
        match r {
            Ok(list) => entries@.len() % 4 == 0 && entries_in(entries@, entries@.len() as int / 4)
                == Some(list@),
            Err(e) => (entries@.len() % 4 != 0 || entries_in(
                entries@,
                entries@.len() as int / 4,
            ) is None) && is_protocol_error(e),
        },
{
    if entries.len() % 4 != 0 {
        return Err(ClientError::new(ClientErrorKind::ProtocolError, "broken list of objects"));
    }
    let count: usize = entries.len() / 4;
    let mut list: Vec<ListObjectsEntry> = Vec::new();
    let mut i: usize = 0;
    while i < count
        invariant
            i <= count,
            4 * count == entries@.len(),
            entries@.len() <= usize::MAX,
            entries_in(entries@, i as int) == Some(list@),
        decreases count - i,
    {
        match ObjectType::from_u8(entries[4 * i + 2]) {
            Some(object_type) => {
                list.push(
                    ListObjectsEntry {
                        object_id: read_u16(entries, 4 * i),
                        object_type,
                        sequence: entries[4 * i + 3],
                    },
                );
            },
            None => {
                proof {
                    lemma_entries_fail(entries@, i as int + 1, count as int);
                }
                return Err(
                    ClientError::new(ClientErrorKind::ProtocolError, "invalid object type"),
                );
            },
        }
        i += 1;
    }
    Ok(list)
}

impl<C: Connector> Client<C> {
    /// Blinks the device's light for the given number of seconds.
    pub fn blink_device(&mut self, num_seconds: u8) -> (r: Result<(), ClientError>)
        requires
            old(self).wf(),
        ensures
            final(self).wf(),
            final(self).credentials == old(self).credentials,
            r is Ok ==> final(self).spec_is_connected(),
            r matches Ok(v) ==> answered(
                final(self).connector.sent@,
                final(self).connector.answers@,
                (Command::BlinkDevice { num_seconds }),
                (Response::BlinkDevice),
            ),
            Self::commanded(
                *old(self),
                (Command::BlinkDevice { num_seconds }),
                (match r {
                    Ok(v) => Ok((Response::BlinkDevice)),
                    Err(e) => Err(e),
                }),
                *final(self),
            ),
    {
        let command = Command::BlinkDevice { num_seconds };
        match self.send_command(command) {
            Ok(Response::BlinkDevice) => Ok(()),
            Ok(_) => Err(ClientError::new(ClientErrorKind::ProtocolError, "unexpected response")),
            Err(e) => Err(e),
        }
    }

    /// Deletes the object of the given number and type.
    pub fn delete_object(
        &mut self,
        object_id: u16,
        object_type: ObjectType,
    ) -> (r: Result<(), ClientError>)
        requires
            old(self).wf(),
        ensures
            final(self).wf(),
            final(self).credentials == old(self).credentials,
            r is Ok ==> final(self).spec_is_connected(),
            r matches Ok(v) ==> answered(
                final(self).connector.sent@,
                final(self).connector.answers@,
                (Command::DeleteObject { object_id, object_type }),
                (Response::DeleteObject),
            ),
            Self::commanded(
                *old(self),
                (Command::DeleteObject { object_id, object_type }),
                (match r {
                    Ok(v) => Ok((Response::DeleteObject)),
                    Err(e) => Err(e),
                }),
                *final(self),
            ),
    {
        let command = Command::DeleteObject { object_id, object_type };
        match self.send_command(command) {
            Ok(Response::DeleteObject) => Ok(()),
            Ok(_) => Err(ClientError::new(ClientErrorKind::ProtocolError, "unexpected response")),
            Err(e) => Err(e),
        }
    }

    /// Asks for the device's version, serial number and algorithms.
    pub fn device_info(&mut self) -> (r: Result<Response, ClientError>)
        requires
            old(self).wf(),
        ensures
            final(self).wf(),
            final(self).credentials == old(self).credentials,
            r is Ok ==> final(self).spec_is_connected(),
            r matches Ok(info) ==> info is DeviceInfo,
            r matches Ok(v) ==> answered(
                final(self).connector.sent@,
                final(self).connector.answers@,
                (Command::DeviceInfo),
                v@,
            ),
            Self::commanded(
                *old(self),
                (Command::DeviceInfo),
                (match r {
                    Ok(v) => Ok(v@),
                    Err(e) => Err(e),
                }),
                *final(self),
            ),
    {
        let command = Command::DeviceInfo;
        match self.send_command(command) {
            Ok(
                Response::DeviceInfo {
                    major_version,
                    minor_version,
                    build_version,
                    serial_number,
                    log_store_capacity,
                    log_store_used,
                    algorithms,
                }
            ) => Ok(
                Response::DeviceInfo {
                    major_version,
                    minor_version,
                    build_version,
                    serial_number,
                    log_store_capacity,
                    log_store_used,
                    algorithms,
                }
            ),
            Ok(_) => Err(ClientError::new(ClientErrorKind::ProtocolError, "unexpected response")),
            Err(e) => Err(e),
        }
    }

    /// Sends a message to the device and has it sent back.
    pub fn echo(&mut self, msg: &[u8]) -> (r: Result<Vec<u8>, ClientError>)
        requires
            old(self).wf(),
        ensures
            final(self).wf(),
            final(self).credentials == old(self).credentials,
            r is Ok ==> final(self).spec_is_connected(),
            r matches Ok(v) ==> answered(
                final(self).connector.sent@,
                final(self).connector.answers@,
                (Command::Echo { message: msg@ }),
                (Response::Echo { message: v@ }),
            ),
            Self::commanded(
                *old(self),
                (Command::Echo { message: msg@ }),
                (match r {
                    Ok(v) => Ok((Response::Echo { message: v@ })),
                    Err(e) => Err(e),
                }),
                *final(self),
            ),
    {
        let command = Command::Echo { message: copy_bytes(msg) };
        match self.send_command(command) {
            Ok(Response::Echo { message }) => Ok(message),
            Ok(_) => Err(ClientError::new(ClientErrorKind::ProtocolError, "unexpected response")),
            Err(e) => Err(e),
        }
    }

    /// Exports an object, encrypted under a wrap key.
    pub fn export_wrapped(
        &mut self,
        wrap_key_id: u16,
        object_type: ObjectType,
        object_id: u16,
    ) -> (r: Result<WrapMessage, ClientError>)
        requires
            old(self).wf(),
        ensures
            final(self).wf(),
            final(self).credentials == old(self).credentials,
            r is Ok ==> final(self).spec_is_connected(),
            r matches Ok(message) ==> message.wf(),
            r matches Ok(v) ==> answered(
                final(self).connector.sent@,
                final(self).connector.answers@,
                (Command::ExportWrapped { wrap_key_id, object_type, object_id }),
                (Response::ExportWrapped { nonce: v.nonce@, ciphertext: v.ciphertext@ }),
            ),
            Self::commanded(
                *old(self),
                (Command::ExportWrapped { wrap_key_id, object_type, object_id }),
                (match r {
                    Ok(v) => Ok(
                        (Response::ExportWrapped { nonce: v.nonce@, ciphertext: v.ciphertext@ }),
                    ),
                    Err(e) => Err(e),
                }),
                *final(self),
            ),
    {
        let command = Command::ExportWrapped { wrap_key_id, object_type, object_id };
        match self.send_command(command) {
            Ok(Response::ExportWrapped { nonce, ciphertext }) => Ok(
                WrapMessage { nonce, ciphertext },
            ),
            Ok(_) => Err(ClientError::new(ClientErrorKind::ProtocolError, "unexpected response")),
            Err(e) => Err(e),
        }
    }

    /// Generates an asymmetric key on the device and gives its number.
    pub fn generate_asymmetric_key(
        &mut self,
        key_id: u16,
        label: Label,
        domains: Domain,
        capabilities: Capability,
        algorithm: AsymmetricAlg,
    ) -> (r: Result<u16, ClientError>)
        requires
            old(self).wf(),
            label.wf(),
        ensures
            final(self).wf(),
            final(self).credentials == old(self).credentials,
            r is Ok ==> final(self).spec_is_connected(),
            r matches Ok(v) ==> answered(
                final(self).connector.sent@,
                final(self).connector.answers@,
                (
                    Command::GenerateAsymmetricKey {
                        params: key_params(
                            key_id,
                            label@,
                            domains,
                            capabilities,
                            Algorithm::Asymmetric(algorithm),
                        )
                    }
                ),
                (Response::GenerateAsymmetricKey { key_id: v }),
            ),
            Self::commanded(
                *old(self),
                (
                    Command::GenerateAsymmetricKey {
                        params: key_params(
                            key_id,
                            label@,
                            domains,
                            capabilities,
                            Algorithm::Asymmetric(algorithm),
                        )
                    }
                ),
                (match r {
                    Ok(v) => Ok((Response::GenerateAsymmetricKey { key_id: v })),
                    Err(e) => Err(e),
                }),
                *final(self),
            ),
    {
        let command = Command::GenerateAsymmetricKey {
            params: make_params(
                key_id,
                label,
                domains,
                capabilities,
                Algorithm::Asymmetric(algorithm),
            )
        };
        match self.send_command(command) {
            Ok(Response::GenerateAsymmetricKey { key_id }) => Ok(key_id),
            Ok(_) => Err(ClientError::new(ClientErrorKind::ProtocolError, "unexpected response")),
            Err(e) => Err(e),
        }
    }

    /// Generates an HMAC key on the device and gives its number.
    pub fn generate_hmac_key(
        &mut self,
        key_id: u16,
        label: Label,
        domains: Domain,
        capabilities: Capability,
        algorithm: HmacAlg,
    ) -> (r: Result<u16, ClientError>)
        requires
            old(self).wf(),
            label.wf(),
        ensures
            final(self).wf(),
            final(self).credentials == old(self).credentials,
            r is Ok ==> final(self).spec_is_connected(),
            r matches Ok(v) ==> answered(
                final(self).connector.sent@,
                final(self).connector.answers@,
                (
                    Command::GenerateHmacKey {
                        params: key_params(
                            key_id,
                            label@,
                            domains,
                            capabilities,
                            Algorithm::Hmac(algorithm),
                        )
                    }
                ),
                (Response::GenerateHmacKey { key_id: v }),
            ),
            Self::commanded(
                *old(self),
                (
                    Command::GenerateHmacKey {
                        params: key_params(
                            key_id,
                            label@,
                            domains,
                            capabilities,
                            Algorithm::Hmac(algorithm),
                        )
                    }
                ),
                (match r {
                    Ok(v) => Ok((Response::GenerateHmacKey { key_id: v })),
                    Err(e) => Err(e),
                }),
                *final(self),
            ),
    {
        let command = Command::GenerateHmacKey {
            params: make_params(key_id, label, domains, capabilities, Algorithm::Hmac(algorithm))
        };
        match self.send_command(command) {
            Ok(Response::GenerateHmacKey { key_id }) => Ok(key_id),
            Ok(_) => Err(ClientError::new(ClientErrorKind::ProtocolError, "unexpected response")),
            Err(e) => Err(e),
        }
    }

    /// Generates a wrap key on the device and gives its number. The delegated
    /// capabilities are those that an object may have when it is imported or
    /// exported under the key.
    pub fn generate_wrap_key(
        &mut self,
        key_id: u16,
        label: Label,
        domains: Domain,
        capabilities: Capability,
        delegated_capabilities: Capability,
        algorithm: WrapAlg,
    ) -> (r: Result<u16, ClientError>)
        requires
            old(self).wf(),
            label.wf(),
        ensures
            final(self).wf(),
            final(self).credentials == old(self).credentials,
            r is Ok ==> final(self).spec_is_connected(),
            r matches Ok(v) ==> answered(
                final(self).connector.sent@,
                final(self).connector.answers@,
                (
                    Command::GenerateWrapKey {
                        params: key_params(
                            key_id,
                            label@,
                            domains,
                            capabilities,
                            Algorithm::Wrap(algorithm),
                        ),
                        delegated_capabilities,
                    }
                ),
                (Response::GenerateWrapKey { key_id: v }),
            ),
            Self::commanded(
                *old(self),
                (
                    Command::GenerateWrapKey {
                        params: key_params(
                            key_id,
                            label@,
                            domains,
                            capabilities,
                            Algorithm::Wrap(algorithm),
                        ),
                        delegated_capabilities,
                    }
                ),
                (match r {
                    Ok(v) => Ok((Response::GenerateWrapKey { key_id: v })),
                    Err(e) => Err(e),
                }),
                *final(self),
            ),
    {
        let command = Command::GenerateWrapKey {
            params: make_params(key_id, label, domains, capabilities, Algorithm::Wrap(algorithm)),
            delegated_capabilities,
        };
        match self.send_command(command) {
            Ok(Response::GenerateWrapKey { key_id }) => Ok(key_id),
            Ok(_) => Err(ClientError::new(ClientErrorKind::ProtocolError, "unexpected response")),
            Err(e) => Err(e),
        }
    }

    /// Reads the audit log.
    pub fn get_log_entries(&mut self) -> (r: Result<Response, ClientError>)
        requires
            old(self).wf(),
        ensures
            final(self).wf(),
            final(self).credentials == old(self).credentials,
            r is Ok ==> final(self).spec_is_connected(),
            r matches Ok(log) ==> log is GetLogEntries,
            r matches Ok(v) ==> answered(
                final(self).connector.sent@,
                final(self).connector.answers@,
                (Command::GetLogEntries),
                v@,
            ),
            Self::commanded(
                *old(self),
                (Command::GetLogEntries),
                (match r {
                    Ok(v) => Ok(v@),
                    Err(e) => Err(e),
                }),
                *final(self),
            ),
    {
        let command = Command::GetLogEntries;
        match self.send_command(command) {
            Ok(
                Response::GetLogEntries {
                    unlogged_boot_events,
                    unlogged_auth_events,
                    num_entries,
                    entries,
                }
            ) => Ok(
                Response::GetLogEntries {
                    unlogged_boot_events,
                    unlogged_auth_events,
                    num_entries,
                    entries,
                }
            ),
            Ok(_) => Err(ClientError::new(ClientErrorKind::ProtocolError, "unexpected response")),
            Err(e) => Err(e),
        }
    }

    /// Describes the object of the given number and type.
    pub fn get_object_info(
        &mut self,
        object_id: u16,
        object_type: ObjectType,
    ) -> (r: Result<ObjectInfo, ClientError>)
        requires
            old(self).wf(),
        ensures
            final(self).wf(),
            final(self).credentials == old(self).credentials,
            r is Ok ==> final(self).spec_is_connected(),
            r matches Ok(info) ==> info@.wf(),
            r matches Ok(v) ==> answered(
                final(self).connector.sent@,
                final(self).connector.answers@,
                (Command::GetObjectInfo { object_id, object_type }),
                (Response::GetObjectInfo { info: v@ }),
            ),
            Self::commanded(
                *old(self),
                (Command::GetObjectInfo { object_id, object_type }),
                (match r {
                    Ok(v) => Ok((Response::GetObjectInfo { info: v@ })),
                    Err(e) => Err(e),
                }),
                *final(self),
            ),
    {
        let command = Command::GetObjectInfo { object_id, object_type };
        match self.send_command(command) {
            Ok(Response::GetObjectInfo { info }) => Ok(info),
            Ok(_) => Err(ClientError::new(ClientErrorKind::ProtocolError, "unexpected response")),
            Err(e) => Err(e),
        }
    }

    /// Reads an opaque object.
    pub fn get_opaque(&mut self, object_id: u16) -> (r: Result<Vec<u8>, ClientError>)
        requires
            old(self).wf(),
        ensures
            final(self).wf(),
            final(self).credentials == old(self).credentials,
            r is Ok ==> final(self).spec_is_connected(),
            r matches Ok(v) ==> answered(
                final(self).connector.sent@,
                final(self).connector.answers@,
                (Command::GetOpaqueObject { object_id }),
                (Response::GetOpaqueObject { data: v@ }),
            ),
            Self::commanded(
                *old(self),
                (Command::GetOpaqueObject { object_id }),
                (match r {
                    Ok(v) => Ok((Response::GetOpaqueObject { data: v@ })),
                    Err(e) => Err(e),
                }),
                *final(self),
            ),
    {
        let command = Command::GetOpaqueObject { object_id };
        match self.send_command(command) {
            Ok(Response::GetOpaqueObject { data }) => Ok(data),
            Ok(_) => Err(ClientError::new(ClientErrorKind::ProtocolError, "unexpected response")),
            Err(e) => Err(e),
        }
    }

    /// Reads the public half of an asymmetric key.
    pub fn get_public_key(&mut self, key_id: u16) -> (r: Result<PublicKey, ClientError>)
        requires
            old(self).wf(),
        ensures
            final(self).wf(),
            final(self).credentials == old(self).credentials,
            r is Ok ==> final(self).spec_is_connected(),
            r matches Ok(v) ==> answered(
                final(self).connector.sent@,
                final(self).connector.answers@,
                (Command::GetPublicKey { key_id }),
                (Response::GetPublicKey { algorithm: v.algorithm, bytes: v.bytes@ }),
            ),
            Self::commanded(
                *old(self),
                (Command::GetPublicKey { key_id }),
                (match r {
                    Ok(v) => Ok(
                        (Response::GetPublicKey { algorithm: v.algorithm, bytes: v.bytes@ }),
                    ),
                    Err(e) => Err(e),
                }),
                *final(self),
            ),
    {
        let command = Command::GetPublicKey { key_id };
        match self.send_command(command) {
            Ok(Response::GetPublicKey { algorithm, bytes }) => Ok(PublicKey { algorithm, bytes }),
            Ok(_) => Err(ClientError::new(ClientErrorKind::ProtocolError, "unexpected response")),
            Err(e) => Err(e),
        }
    }

    /// Asks how much storage is free.
    pub fn get_storage_info(&mut self) -> (r: Result<Response, ClientError>)
        requires
            old(self).wf(),
        ensures
            final(self).wf(),
            final(self).credentials == old(self).credentials,
            r is Ok ==> final(self).spec_is_connected(),
            r matches Ok(info) ==> info is GetStorageInfo,
            r matches Ok(v) ==> answered(
                final(self).connector.sent@,
                final(self).connector.answers@,
                (Command::GetStorageInfo),
                v@,
            ),
            Self::commanded(
                *old(self),
                (Command::GetStorageInfo),
                (match r {
                    Ok(v) => Ok(v@),
                    Err(e) => Err(e),
                }),
                *final(self),
            ),
    {
        let command = Command::GetStorageInfo;
        match self.send_command(command) {
            Ok(
                Response::GetStorageInfo {
                    total_records,
                    free_records,
                    total_pages,
                    free_pages,
                    page_size,
                }
            ) => Ok(
                Response::GetStorageInfo {
                    total_records,
                    free_records,
                    total_pages,
                    free_pages,
                    page_size,
                }
            ),
            Ok(_) => Err(ClientError::new(ClientErrorKind::ProtocolError, "unexpected response")),
            Err(e) => Err(e),
        }
    }

    /// Imports an object that is encrypted under a wrap key, and gives its type
    /// and number.
    pub fn import_wrapped(
        &mut self,
        wrap_key_id: u16,
        wrap_message: WrapMessage,
    ) -> (r: Result<(ObjectType, u16), ClientError>)
        requires
            old(self).wf(),
            wrap_message.wf(),
        ensures
            final(self).wf(),
            final(self).credentials == old(self).credentials,
            r is Ok ==> final(self).spec_is_connected(),
            r matches Ok(v) ==> answered(
                final(self).connector.sent@,
                final(self).connector.answers@,
                (
                    Command::ImportWrapped {
                        wrap_key_id,
                        nonce: wrap_message.nonce@,
                        ciphertext: wrap_message.ciphertext@,
                    }
                ),
                (Response::ImportWrapped { object_type: v.0, object_id: v.1 }),
            ),
            Self::commanded(
                *old(self),
                (
                    Command::ImportWrapped {
                        wrap_key_id,
                        nonce: wrap_message.nonce@,
                        ciphertext: wrap_message.ciphertext@,
                    }
                ),
                (match r {
                    Ok(v) => Ok((Response::ImportWrapped { object_type: v.0, object_id: v.1 })),
                    Err(e) => Err(e),
                }),
                *final(self),
            ),
    {
        let command = Command::ImportWrapped {
            wrap_key_id,
            nonce: wrap_message.nonce,
            ciphertext: wrap_message.ciphertext,
        };
        match self.send_command(command) {
            Ok(Response::ImportWrapped { object_type, object_id }) => Ok((object_type, object_id)),
            Ok(_) => Err(ClientError::new(ClientErrorKind::ProtocolError, "unexpected response")),
            Err(e) => Err(e),
        }
    }

    /// Stores an authentication key and gives its number.
    pub fn put_authentication_key(
        &mut self,
        key_id: u16,
        label: Label,
        domains: Domain,
        capabilities: Capability,
        delegated_capabilities: Capability,
        algorithm: AuthenticationAlg,
        authentication_key: AuthenticationKey,
    ) -> (r: Result<u16, ClientError>)
        requires
            old(self).wf(),
            label.wf(),
            authentication_key.wf(),
        ensures
            final(self).wf(),
            final(self).credentials == old(self).credentials,
            r is Ok ==> final(self).spec_is_connected(),
            r matches Ok(v) ==> answered(
                final(self).connector.sent@,
                final(self).connector.answers@,
                (
                    Command::PutAuthenticationKey {
                        params: key_params(
                            key_id,
                            label@,
                            domains,
                            capabilities,
                            Algorithm::Auth(algorithm),
                        ),
                        delegated_capabilities,
                        authentication_key: authentication_key@,
                    }
                ),
                (Response::PutAuthenticationKey { key_id: v }),
            ),
            Self::commanded(
                *old(self),
                (
                    Command::PutAuthenticationKey {
                        params: key_params(
                            key_id,
                            label@,
                            domains,
                            capabilities,
                            Algorithm::Auth(algorithm),
                        ),
                        delegated_capabilities,
                        authentication_key: authentication_key@,
                    }
                ),
                (match r {
                    Ok(v) => Ok((Response::PutAuthenticationKey { key_id: v })),
                    Err(e) => Err(e),
                }),
                *final(self),
            ),
    {
        let command = Command::PutAuthenticationKey {
            params: make_params(key_id, label, domains, capabilities, Algorithm::Auth(algorithm)),
            delegated_capabilities,
            authentication_key: authentication_key.bytes,
        };
        match self.send_command(command) {
            Ok(Response::PutAuthenticationKey { key_id }) => Ok(key_id),
            Ok(_) => Err(ClientError::new(ClientErrorKind::ProtocolError, "unexpected response")),
            Err(e) => Err(e),
        }
    }

    /// Stores an opaque object, such as an X.509 certificate, and gives its
    /// number.
    pub fn put_opaque(
        &mut self,
        object_id: u16,
        label: Label,
        domains: Domain,
        capabilities: Capability,
        algorithm: OpaqueAlg,
        opaque_data: Vec<u8>,
    ) -> (r: Result<u16, ClientError>)
        requires
            old(self).wf(),
            label.wf(),
        ensures
            final(self).wf(),
            final(self).credentials == old(self).credentials,
            r is Ok ==> final(self).spec_is_connected(),
            r matches Ok(v) ==> answered(
                final(self).connector.sent@,
                final(self).connector.answers@,
                (
                    Command::PutOpaqueObject {
                        params: key_params(
                            object_id,
                            label@,
                            domains,
                            capabilities,
                            Algorithm::Opaque(algorithm),
                        ),
                        data: opaque_data@,
                    }
                ),
                (Response::PutOpaqueObject { object_id: v }),
            ),
            Self::commanded(
                *old(self),
                (
                    Command::PutOpaqueObject {
                        params: key_params(
                            object_id,
                            label@,
                            domains,
                            capabilities,
                            Algorithm::Opaque(algorithm),
                        ),
                        data: opaque_data@,
                    }
                ),
                (match r {
                    Ok(v) => Ok((Response::PutOpaqueObject { object_id: v })),
                    Err(e) => Err(e),
                }),
                *final(self),
            ),
    {
        let command = Command::PutOpaqueObject {
            params: make_params(
                object_id,
                label,
                domains,
                capabilities,
                Algorithm::Opaque(algorithm),
            ),
            data: opaque_data,
        };
        match self.send_command(command) {
            Ok(Response::PutOpaqueObject { object_id }) => Ok(object_id),
            Ok(_) => Err(ClientError::new(ClientErrorKind::ProtocolError, "unexpected response")),
            Err(e) => Err(e),
        }
    }

    /// Sets whether the device refuses commands once the audit log is full.
    pub fn put_force_audit_option(&mut self, option: AuditOption) -> (r: Result<(), ClientError>)
        requires
            old(self).wf(),
        ensures
            final(self).wf(),
            final(self).credentials == old(self).credentials,
            r is Ok ==> final(self).spec_is_connected(),
            r matches Ok(v) ==> answered(
                final(self).connector.sent@,
                final(self).connector.answers@,
                (Command::SetOption { tag: AuditTag::Force, value: seq![option.code()] }),
                (Response::SetOption),
            ),
            Self::commanded(
                *old(self),
                (Command::SetOption { tag: AuditTag::Force, value: seq![option.code()] }),
                (match r {
                    Ok(v) => Ok((Response::SetOption)),
                    Err(e) => Err(e),
                }),
                *final(self),
            ),
    {
        let command = put_force_audit_option_command(option);
        match self.send_command(command) {
            Ok(Response::SetOption) => Ok(()),
            Ok(_) => Err(ClientError::new(ClientErrorKind::ProtocolError, "unexpected response")),
            Err(e) => Err(e),
        }
    }

    /// Sets whether a command is logged.
    pub fn set_audit_option(
        &mut self,
        command: CommandCode,
        audit_option: AuditOption,
    ) -> (r: Result<(), ClientError>)
        requires
            old(self).wf(),
        ensures
            final(self).wf(),
            final(self).credentials == old(self).credentials,
            r is Ok ==> final(self).spec_is_connected(),
            r matches Ok(v) ==> answered(
                final(self).connector.sent@,
                final(self).connector.answers@,
                (
                    Command::SetOption {
                        tag: AuditTag::Command,
                        value: (AuditCommand { command, option: audit_option }).wire(),
                    }
                ),
                (Response::SetOption),
            ),
            Self::commanded(
                *old(self),
                (
                    Command::SetOption {
                        tag: AuditTag::Command,
                        value: (AuditCommand { command, option: audit_option }).wire(),
                    }
                ),
                (match r {
                    Ok(v) => Ok((Response::SetOption)),
                    Err(e) => Err(e),
                }),
                *final(self),
            ),
    {
        let command = set_audit_option_command(command, audit_option);
        match self.send_command(command) {
            Ok(Response::SetOption) => Ok(()),
            Ok(_) => Err(ClientError::new(ClientErrorKind::ProtocolError, "unexpected response")),
            Err(e) => Err(e),
        }
    }

    /// Marks the entries of the audit log up to the given index as consumed.
    pub fn set_log_index(&mut self, log_index: u16) -> (r: Result<(), ClientError>)
        requires
            old(self).wf(),
        ensures
            final(self).wf(),
            final(self).credentials == old(self).credentials,
            r is Ok ==> final(self).spec_is_connected(),
            r matches Ok(v) ==> answered(
                final(self).connector.sent@,
                final(self).connector.answers@,
                (Command::SetLogIndex { log_index }),
                (Response::SetLogIndex),
            ),
            Self::commanded(
                *old(self),
                (Command::SetLogIndex { log_index }),
                (match r {
                    Ok(v) => Ok((Response::SetLogIndex)),
                    Err(e) => Err(e),
                }),
                *final(self),
            ),
    {
        let command = Command::SetLogIndex { log_index };
        match self.send_command(command) {
            Ok(Response::SetLogIndex) => Ok(()),
            Ok(_) => Err(ClientError::new(ClientErrorKind::ProtocolError, "unexpected response")),
            Err(e) => Err(e),
        }
    }

    /// Obtains an X.509 certificate that attests a key of the device. Without
    /// an attestation key the device signs with its own.
    pub fn sign_attestation_certificate(
        &mut self,
        key_id: u16,
        attestation_key_id: Option<u16>,
    ) -> (r: Result<Vec<u8>, ClientError>)
        requires
            old(self).wf(),
        ensures
            final(self).wf(),
            final(self).credentials == old(self).credentials,
            r is Ok ==> final(self).spec_is_connected(),
            r matches Ok(v) ==> answered(
                final(self).connector.sent@,
                final(self).connector.answers@,
                (
                    Command::SignAttestationCertificate {
                        key_id,
                        attestation_key_id: match attestation_key_id { Some(id) => id, None => 0 },
                    }
                ),
                (Response::SignAttestationCertificate { certificate: v@ }),
            ),
            Self::commanded(
                *old(self),
                (
                    Command::SignAttestationCertificate {
                        key_id,
                        attestation_key_id: match attestation_key_id { Some(id) => id, None => 0 },
                    }
                ),
                (match r {
                    Ok(v) => Ok((Response::SignAttestationCertificate { certificate: v@ })),
                    Err(e) => Err(e),
                }),
                *final(self),
            ),
    {
        let command = Command::SignAttestationCertificate {
            key_id,
            attestation_key_id: match attestation_key_id { Some(id) => id, None => 0 },
        };
        match self.send_command(command) {
            Ok(Response::SignAttestationCertificate { certificate }) => Ok(certificate),
            Ok(_) => Err(ClientError::new(ClientErrorKind::ProtocolError, "unexpected response")),
            Err(e) => Err(e),
        }
    }

    /// Signs a digest with ECDSA.
    pub fn sign_ecdsa(&mut self, key_id: u16, digest: Vec<u8>) -> (r: Result<Vec<u8>, ClientError>)
        requires
            old(self).wf(),
        ensures
            final(self).wf(),
            final(self).credentials == old(self).credentials,
            r is Ok ==> final(self).spec_is_connected(),
            r matches Ok(v) ==> answered(
                final(self).connector.sent@,
                final(self).connector.answers@,
                (Command::SignEcdsa { key_id, digest: digest@ }),
                (Response::SignEcdsa { signature: v@ }),
            ),
            Self::commanded(
                *old(self),
                (Command::SignEcdsa { key_id, digest: digest@ }),
                (match r {
                    Ok(v) => Ok((Response::SignEcdsa { signature: v@ })),
                    Err(e) => Err(e),
                }),
                *final(self),
            ),
    {
        let command = Command::SignEcdsa { key_id, digest };
        match self.send_command(command) {
            Ok(Response::SignEcdsa { signature }) => Ok(signature),
            Ok(_) => Err(ClientError::new(ClientErrorKind::ProtocolError, "unexpected response")),
            Err(e) => Err(e),
        }
    }

    /// Signs a message with Ed25519. The signature has 64 bytes.
    pub fn sign_ed25519(&mut self, key_id: u16, data: Vec<u8>) -> (r: Result<Vec<u8>, ClientError>)
        requires
            old(self).wf(),
        ensures
            final(self).wf(),
            final(self).credentials == old(self).credentials,
            r is Ok ==> final(self).spec_is_connected(),
            r matches Ok(signature) ==> signature@.len() == 64,
            r matches Ok(v) ==> answered(
                final(self).connector.sent@,
                final(self).connector.answers@,
                (Command::SignEddsa { key_id, data: data@ }),
                (Response::SignEddsa { signature: v@ }),
            ),
            Self::commanded(
                *old(self),
                (Command::SignEddsa { key_id, data: data@ }),
                (match r {
                    Ok(v) => Ok((Response::SignEddsa { signature: v@ })),
                    Err(e) => Err(e),
                }),
                *final(self),
            ),
    {
        let command = Command::SignEddsa { key_id, data };
        match self.send_command(command) {
            Ok(Response::SignEddsa { signature }) => Ok(signature),
            Ok(_) => Err(ClientError::new(ClientErrorKind::ProtocolError, "unexpected response")),
            Err(e) => Err(e),
        }
    }

    /// Computes the HMAC tag of a message.
    pub fn sign_hmac(&mut self, key_id: u16, msg: Vec<u8>) -> (r: Result<Vec<u8>, ClientError>)
        requires
            old(self).wf(),
        ensures
            final(self).wf(),
            final(self).credentials == old(self).credentials,
            r is Ok ==> final(self).spec_is_connected(),
            r matches Ok(v) ==> answered(
                final(self).connector.sent@,
                final(self).connector.answers@,
                (Command::SignHmac { key_id, data: msg@ }),
                (Response::SignHmac { tag: v@ }),
            ),
            Self::commanded(
                *old(self),
                (Command::SignHmac { key_id, data: msg@ }),
                (match r {
                    Ok(v) => Ok((Response::SignHmac { tag: v@ })),
                    Err(e) => Err(e),
                }),
                *final(self),
            ),
    {
        let command = Command::SignHmac { key_id, data: msg };
        match self.send_command(command) {
            Ok(Response::SignHmac { tag }) => Ok(tag),
            Ok(_) => Err(ClientError::new(ClientErrorKind::ProtocolError, "unexpected response")),
            Err(e) => Err(e),
        }
    }

    /// Signs the SHA-256 digest of a message with RSASSA-PKCS#1 v1.5.
    pub fn sign_rsa_pkcs1v15_sha256(
        &mut self,
        key_id: u16,
        data: &[u8],
    ) -> (r: Result<Vec<u8>, ClientError>)
        requires
            old(self).wf(),
        ensures
            final(self).wf(),
            final(self).credentials == old(self).credentials,
            r is Ok ==> final(self).spec_is_connected(),
            r matches Ok(v) ==> answered(
                final(self).connector.sent@,
                final(self).connector.answers@,
                (Command::SignPkcs1 { key_id, digest: sha256(data@) }),
                (Response::SignPkcs1 { signature: v@ }),
            ),
            Self::commanded(
                *old(self),
                (Command::SignPkcs1 { key_id, digest: sha256(data@) }),
                (match r {
                    Ok(v) => Ok((Response::SignPkcs1 { signature: v@ })),
                    Err(e) => Err(e),
                }),
                *final(self),
            ),
    {
        let command = sign_rsa_pkcs1v15_sha256_command(key_id, data);
        match self.send_command(command) {
            Ok(Response::SignPkcs1 { signature }) => Ok(signature),
            Ok(_) => Err(ClientError::new(ClientErrorKind::ProtocolError, "unexpected response")),
            Err(e) => Err(e),
        }
    }

    /// Decrypts data that is encrypted under a wrap key.
    pub fn unwrap_data(
        &mut self,
        wrap_key_id: u16,
        wrap_message: WrapMessage,
    ) -> (r: Result<Vec<u8>, ClientError>)
        requires
            old(self).wf(),
            wrap_message.wf(),
        ensures
            final(self).wf(),
            final(self).credentials == old(self).credentials,
            r is Ok ==> final(self).spec_is_connected(),
            r matches Ok(v) ==> answered(
                final(self).connector.sent@,
                final(self).connector.answers@,
                (
                    Command::UnwrapData {
                        wrap_key_id,
                        nonce: wrap_message.nonce@,
                        ciphertext: wrap_message.ciphertext@,
                    }
                ),
                (Response::UnwrapData { data: v@ }),
            ),
            Self::commanded(
                *old(self),
                (
                    Command::UnwrapData {
                        wrap_key_id,
                        nonce: wrap_message.nonce@,
                        ciphertext: wrap_message.ciphertext@,
                    }
                ),
                (match r {
                    Ok(v) => Ok((Response::UnwrapData { data: v@ })),
                    Err(e) => Err(e),
                }),
                *final(self),
            ),
    {
        let command = Command::UnwrapData {
            wrap_key_id,
            nonce: wrap_message.nonce,
            ciphertext: wrap_message.ciphertext,
        };
        match self.send_command(command) {
            Ok(Response::UnwrapData { data }) => Ok(data),
            Ok(_) => Err(ClientError::new(ClientErrorKind::ProtocolError, "unexpected response")),
            Err(e) => Err(e),
        }
    }

    /// Encrypts data under a wrap key.
    pub fn wrap_data(
        &mut self,
        wrap_key_id: u16,
        plaintext: Vec<u8>,
    ) -> (r: Result<WrapMessage, ClientError>)
        requires
            old(self).wf(),
        ensures
            final(self).wf(),
            final(self).credentials == old(self).credentials,
            r is Ok ==> final(self).spec_is_connected(),
            r matches Ok(message) ==> message.wf(),
            r matches Ok(v) ==> answered(
                final(self).connector.sent@,
                final(self).connector.answers@,
                (Command::WrapData { wrap_key_id, plaintext: plaintext@ }),
                (Response::WrapData { nonce: v.nonce@, ciphertext: v.ciphertext@ }),
            ),
            Self::commanded(
                *old(self),
                (Command::WrapData { wrap_key_id, plaintext: plaintext@ }),
                (match r {
                    Ok(v) => Ok(
                        (Response::WrapData { nonce: v.nonce@, ciphertext: v.ciphertext@ }),
                    ),
                    Err(e) => Err(e),
                }),
                *final(self),
            ),
    {
        let command = Command::WrapData { wrap_key_id, plaintext };
        match self.send_command(command) {
            Ok(Response::WrapData { nonce, ciphertext }) => Ok(WrapMessage { nonce, ciphertext }),
            Ok(_) => Err(ClientError::new(ClientErrorKind::ProtocolError, "unexpected response")),
            Err(e) => Err(e),
        }
    }

    /// Draws random bytes from the device: at most `MAX_RAND_BYTES` at a time.
    /// An argument that fails this check is a protocol error, and nothing is
    /// sent.
    pub fn get_pseudo_random(&mut self, bytes: usize) -> (r: Result<Vec<u8>, ClientError>)
        requires
            old(self).wf(),
        ensures
            final(self).wf(),
            final(self).credentials == old(self).credentials,
            r is Ok ==> final(self).spec_is_connected(),
            r is Ok ==> bytes <= MAX_RAND_BYTES,
            !(bytes <= MAX_RAND_BYTES) ==> (r matches Err(e)
                && is_protocol_error(e)
                && final(self).session == old(self).session
                && final(self).connector == old(self).connector),
            r matches Ok(v) ==> answered(
                final(self).connector.sent@,
                final(self).connector.answers@,
                (Command::GetPseudoRandom { bytes: bytes as u16 }),
                (Response::GetPseudoRandom { bytes: v@ }),
            ),
            (bytes <= MAX_RAND_BYTES) ==> Self::commanded(
                *old(self),
                (Command::GetPseudoRandom { bytes: bytes as u16 }),
                (match r {
                    Ok(v) => Ok((Response::GetPseudoRandom { bytes: v@ })),
                    Err(e) => Err(e),
                }),
                *final(self),
            ),
    {
        let command = match get_pseudo_random_command(bytes) {
            Ok(command) => command,
            Err(e) => {
                return Err(e);
            },
        };
        match self.send_command(command) {
            Ok(Response::GetPseudoRandom { bytes }) => Ok(bytes),
            Ok(_) => Err(ClientError::new(ClientErrorKind::ProtocolError, "unexpected response")),
            Err(e) => Err(e),
        }
    }

    /// Stores an asymmetric key, which must be as long as its algorithm asks,
    /// and gives its number.
    /// An argument that fails this check is a protocol error, and nothing is
    /// sent.
    pub fn put_asymmetric_key(
        &mut self,
        key_id: u16,
        label: Label,
        domains: Domain,
        capabilities: Capability,
        algorithm: AsymmetricAlg,
        key_bytes: Vec<u8>,
    ) -> (r: Result<u16, ClientError>)
        requires
            old(self).wf(),
            label.wf(),
        ensures
            final(self).wf(),
            final(self).credentials == old(self).credentials,
            r is Ok ==> final(self).spec_is_connected(),
            r is Ok ==> key_bytes@.len() == algorithm.spec_key_len(),
            !(key_bytes@.len() == algorithm.spec_key_len()) ==> (r matches Err(e)
                && is_protocol_error(e)
                && final(self).session == old(self).session
                && final(self).connector == old(self).connector),
            r matches Ok(v) ==> answered(
                final(self).connector.sent@,
                final(self).connector.answers@,
                (
                    Command::PutAsymmetricKey {
                        params: key_params(
                            key_id,
                            label@,
                            domains,
                            capabilities,
                            Algorithm::Asymmetric(algorithm),
                        ),
                        data: key_bytes@,
                    }
                ),
                (Response::PutAsymmetricKey { key_id: v }),
            ),
            (key_bytes@.len() == algorithm.spec_key_len()) ==> Self::commanded(
                *old(self),
                (
                    Command::PutAsymmetricKey {
                        params: key_params(
                            key_id,
                            label@,
                            domains,
                            capabilities,
                            Algorithm::Asymmetric(algorithm),
                        ),
                        data: key_bytes@,
                    }
                ),
                (match r {
                    Ok(v) => Ok((Response::PutAsymmetricKey { key_id: v })),
                    Err(e) => Err(e),
                }),
                *final(self),
            ),
    {
        let command = match put_asymmetric_key_command(
            key_id,
            label,
            domains,
            capabilities,
            algorithm,
            key_bytes,
        ) {
            Ok(command) => command,
            Err(e) => {
                return Err(e);
            },
        };
        match self.send_command(command) {
            Ok(Response::PutAsymmetricKey { key_id }) => Ok(key_id),
            Ok(_) => Err(ClientError::new(ClientErrorKind::ProtocolError, "unexpected response")),
            Err(e) => Err(e),
        }
    }

    /// Stores an HMAC key, which must have at least `HMAC_MIN_KEY_SIZE` bytes
    /// and at most as many as its algorithm allows, and gives its number.
    /// An argument that fails this check is a protocol error, and nothing is
    /// sent.
    pub fn put_hmac_key(
        &mut self,
        key_id: u16,
        label: Label,
        domains: Domain,
        capabilities: Capability,
        algorithm: HmacAlg,
        key_bytes: Vec<u8>,
    ) -> (r: Result<u16, ClientError>)
        requires
            old(self).wf(),
            label.wf(),
        ensures
            final(self).wf(),
            final(self).credentials == old(self).credentials,
            r is Ok ==> final(self).spec_is_connected(),
            r is Ok ==> HMAC_MIN_KEY_SIZE <= key_bytes@.len() <= algorithm.spec_max_key_len(),
            !(HMAC_MIN_KEY_SIZE <= key_bytes@.len() <= algorithm.spec_max_key_len())
                ==> (r matches Err(e)
                && is_protocol_error(e)
                && final(self).session == old(self).session
                && final(self).connector == old(self).connector),
            r matches Ok(v) ==> answered(
                final(self).connector.sent@,
                final(self).connector.answers@,
                (
                    Command::PutHmacKey {
                        params: key_params(
                            key_id,
                            label@,
                            domains,
                            capabilities,
                            Algorithm::Hmac(algorithm),
                        ),
                        hmac_key: key_bytes@,
                    }
                ),
                (Response::PutHmacKey { key_id: v }),
            ),
            (HMAC_MIN_KEY_SIZE <= key_bytes@.len() <= algorithm.spec_max_key_len())
                ==> Self::commanded(
                *old(self),
                (
                    Command::PutHmacKey {
                        params: key_params(
                            key_id,
                            label@,
                            domains,
                            capabilities,
                            Algorithm::Hmac(algorithm),
                        ),
                        hmac_key: key_bytes@,
                    }
                ),
                (match r {
                    Ok(v) => Ok((Response::PutHmacKey { key_id: v })),
                    Err(e) => Err(e),
                }),
                *final(self),
            ),
    {
        let command = match put_hmac_key_command(
            key_id,
            label,
            domains,
            capabilities,
            algorithm,
            key_bytes,
        ) {
            Ok(command) => command,
            Err(e) => {
                return Err(e);
            },
        };
        match self.send_command(command) {
            Ok(Response::PutHmacKey { key_id }) => Ok(key_id),
            Ok(_) => Err(ClientError::new(ClientErrorKind::ProtocolError, "unexpected response")),
            Err(e) => Err(e),
        }
    }

    /// Stores a Yubico OTP key, which must be as long as its algorithm asks, and
    /// gives its number.
    /// An argument that fails this check is a protocol error, and nothing is
    /// sent.
    pub fn put_otp_aead_key(
        &mut self,
        key_id: u16,
        label: Label,
        domains: Domain,
        capabilities: Capability,
        algorithm: YubicoOtpAlg,
        key_bytes: Vec<u8>,
    ) -> (r: Result<u16, ClientError>)
        requires
            old(self).wf(),
            label.wf(),
        ensures
            final(self).wf(),
            final(self).credentials == old(self).credentials,
            r is Ok ==> final(self).spec_is_connected(),
            r is Ok ==> key_bytes@.len() == algorithm.spec_key_len(),
            !(key_bytes@.len() == algorithm.spec_key_len()) ==> (r matches Err(e)
                && is_protocol_error(e)
                && final(self).session == old(self).session
                && final(self).connector == old(self).connector),
            r matches Ok(v) ==> answered(
                final(self).connector.sent@,
                final(self).connector.answers@,
                (
                    Command::PutOtpAeadKey {
                        params: key_params(
                            key_id,
                            label@,
                            domains,
                            capabilities,
                            Algorithm::YubicoOtp(algorithm),
                        ),
                        data: key_bytes@,
                    }
                ),
                (Response::PutOtpAeadKey { key_id: v }),
            ),
            (key_bytes@.len() == algorithm.spec_key_len()) ==> Self::commanded(
                *old(self),
                (
                    Command::PutOtpAeadKey {
                        params: key_params(
                            key_id,
                            label@,
                            domains,
                            capabilities,
                            Algorithm::YubicoOtp(algorithm),
                        ),
                        data: key_bytes@,
                    }
                ),
                (match r {
                    Ok(v) => Ok((Response::PutOtpAeadKey { key_id: v })),
                    Err(e) => Err(e),
                }),
                *final(self),
            ),
    {
        let command = match put_otp_aead_key_command(
            key_id,
            label,
            domains,
            capabilities,
            algorithm,
            key_bytes,
        ) {
            Ok(command) => command,
            Err(e) => {
                return Err(e);
            },
        };
        match self.send_command(command) {
            Ok(Response::PutOtpAeadKey { key_id }) => Ok(key_id),
            Ok(_) => Err(ClientError::new(ClientErrorKind::ProtocolError, "unexpected response")),
            Err(e) => Err(e),
        }
    }

    /// Stores a wrap key, which must be as long as its algorithm asks, and gives
    /// its number.
    /// An argument that fails this check is a protocol error, and nothing is
    /// sent.
    pub fn put_wrap_key(
        &mut self,
        key_id: u16,
        label: Label,
        domains: Domain,
        capabilities: Capability,
        delegated_capabilities: Capability,
        algorithm: WrapAlg,
        key_bytes: Vec<u8>,
    ) -> (r: Result<u16, ClientError>)
        requires
            old(self).wf(),
            label.wf(),
        ensures
            final(self).wf(),
            final(self).credentials == old(self).credentials,
            r is Ok ==> final(self).spec_is_connected(),
            r is Ok ==> key_bytes@.len() == algorithm.spec_key_len(),
            !(key_bytes@.len() == algorithm.spec_key_len()) ==> (r matches Err(e)
                && is_protocol_error(e)
                && final(self).session == old(self).session
                && final(self).connector == old(self).connector),
            r matches Ok(v) ==> answered(
                final(self).connector.sent@,
                final(self).connector.answers@,
                (
                    Command::PutWrapKey {
                        params: key_params(
                            key_id,
                            label@,
                            domains,
                            capabilities,
                            Algorithm::Wrap(algorithm),
                        ),
                        delegated_capabilities,
                        data: key_bytes@,
                    }
                ),
                (Response::PutWrapKey { key_id: v }),
            ),
            (key_bytes@.len() == algorithm.spec_key_len()) ==> Self::commanded(
                *old(self),
                (
                    Command::PutWrapKey {
                        params: key_params(
                            key_id,
                            label@,
                            domains,
                            capabilities,
                            Algorithm::Wrap(algorithm),
                        ),
                        delegated_capabilities,
                        data: key_bytes@,
                    }
                ),
                (match r {
                    Ok(v) => Ok((Response::PutWrapKey { key_id: v })),
                    Err(e) => Err(e),
                }),
                *final(self),
            ),
    {
        let command = match put_wrap_key_command(
            key_id,
            label,
            domains,
            capabilities,
            delegated_capabilities,
            algorithm,
            key_bytes,
        ) {
            Ok(command) => command,
            Err(e) => {
                return Err(e);
            },
        };
        match self.send_command(command) {
            Ok(Response::PutWrapKey { key_id }) => Ok(key_id),
            Ok(_) => Err(ClientError::new(ClientErrorKind::ProtocolError, "unexpected response")),
            Err(e) => Err(e),
        }
    }

    /// Signs a message with RSASSA-PSS over SHA-256. A message of more than
    /// `RSA_PSS_MAX_MESSAGE_SIZE` bytes is too large to be signed.
    /// An argument that fails this check is a protocol error, and nothing is
    /// sent.
    pub fn sign_rsa_pss_sha256(
        &mut self,
        key_id: u16,
        data: &[u8],
    ) -> (r: Result<Vec<u8>, ClientError>)
        requires
            old(self).wf(),
        ensures
            final(self).wf(),
            final(self).credentials == old(self).credentials,
            r is Ok ==> final(self).spec_is_connected(),
            r is Ok ==> data@.len() <= RSA_PSS_MAX_MESSAGE_SIZE,
            !(data@.len() <= RSA_PSS_MAX_MESSAGE_SIZE) ==> (r matches Err(e)
                && is_protocol_error(e)
                && final(self).session == old(self).session
                && final(self).connector == old(self).connector),
            r matches Ok(v) ==> answered(
                final(self).connector.sent@,
                final(self).connector.answers@,
                (
                    Command::SignPss {
                        key_id,
                        mgf1_hash_alg: Algorithm::Mgf(MgfAlg::SHA256),
                        salt_len: SHA256_SIZE as u16,
                        digest: sha256(pss_input(data@)),
                    }
                ),
                (Response::SignPss { signature: v@ }),
            ),
            (data@.len() <= RSA_PSS_MAX_MESSAGE_SIZE) ==> Self::commanded(
                *old(self),
                (
                    Command::SignPss {
                        key_id,
                        mgf1_hash_alg: Algorithm::Mgf(MgfAlg::SHA256),
                        salt_len: SHA256_SIZE as u16,
                        digest: sha256(pss_input(data@)),
                    }
                ),
                (match r {
                    Ok(v) => Ok((Response::SignPss { signature: v@ })),
                    Err(e) => Err(e),
                }),
                *final(self),
            ),
    {
        let command = match sign_rsa_pss_sha256_command(key_id, data) {
            Ok(command) => command,
            Err(e) => {
                return Err(e);
            },
        };
        match self.send_command(command) {
            Ok(Response::SignPss { signature }) => Ok(signature),
            Ok(_) => Err(ClientError::new(ClientErrorKind::ProtocolError, "unexpected response")),
            Err(e) => Err(e),
        }
    }

    /// Lists the objects that meet every one of the filters; without filters,
    /// all objects.
    pub fn list_objects(&mut self, filters: &[Filter]) -> (r: Result<
        Vec<ListObjectsEntry>,
        ClientError,
    >)
        requires
            old(self).wf(),
            filters_wf(filter_views(filters@)),
        ensures
            final(self).wf(),
            final(self).credentials == old(self).credentials,
            r is Ok ==> final(self).spec_is_connected(),
            r matches Ok(list) ==> exists|entries: Seq<u8>| #[trigger]
                answered(
                    final(self).connector.sent@,
                    final(self).connector.answers@,
                    (Command::ListObjects { filters: filters_wire(filter_views(filters@)) }),
                    (Response::ListObjects { entries }),
                ) && entries.len() % 4 == 0 && entries_in(entries, entries.len() as int / 4)
                    == Some(list@),
            exists|outcome: Result<Response<Seq<u8>>, ClientError>|
                {
                    &&& #[trigger] Self::commanded(
                        *old(self),
                        (Command::ListObjects { filters: filters_wire(filter_views(filters@)) }),
                        outcome,
                        *final(self),
                    )
                    &&& match outcome {
                        Ok(Response::ListObjects { entries }) => list_read(entries, r),
                        Ok(_) => false,
                        Err(e) => r == Err::<Vec<ListObjectsEntry>, ClientError>(e),
                    }
                },
    {
        match self.send_command(list_objects_command(filters)) {
            Ok(Response::ListObjects { entries }) => read_list_entries(entries.as_slice()),
            Ok(_) => Err(ClientError::new(ClientErrorKind::ProtocolError, "unexpected response")),
            Err(e) => Err(e),
        }
    }

    /// Reads whether each command is logged.
    pub fn get_commands_audit_options(&mut self) -> (r: Result<Vec<AuditCommand>, ClientError>)
        requires
            old(self).wf(),
        ensures
            final(self).wf(),
            final(self).credentials == old(self).credentials,
            r is Ok ==> final(self).spec_is_connected(),
            r matches Ok(options) ==> exists|value: Seq<u8>| #[trigger]
                answered(
                    final(self).connector.sent@,
                    final(self).connector.answers@,
                    (Command::GetOption { tag: AuditTag::Command }),
                    (Response::GetOption { value }),
                ) && value.len() % 2 == 0 && audit_options_in(value, value.len() as int / 2)
                    == Some(options@),
            exists|outcome: Result<Response<Seq<u8>>, ClientError>|
                {
                    &&& #[trigger] Self::commanded(
                        *old(self),
                        (Command::GetOption { tag: AuditTag::Command }),
                        outcome,
                        *final(self),
                    )
                    &&& match outcome {
                        Ok(Response::GetOption { value }) => audit_options_read(value, r),
                        Ok(_) => false,
                        Err(e) => r == Err::<Vec<AuditCommand>, ClientError>(e),
                    }
                },
    {
        match self.send_command(Command::GetOption { tag: AuditTag::Command }) {
            Ok(Response::GetOption { value }) => read_audit_options(value.as_slice()),
            Ok(_) => Err(ClientError::new(ClientErrorKind::ProtocolError, "unexpected response")),
            Err(e) => Err(e),
        }
    }

    /// Reads whether a command is logged: `Off` where the device has no
    /// setting for it.
    pub fn get_command_audit_option(&mut self, command: CommandCode) -> (r: Result<
        AuditOption,
        ClientError,
    >)
        requires
            old(self).wf(),
        ensures
            final(self).wf(),
            final(self).credentials == old(self).credentials,
            r is Ok ==> final(self).spec_is_connected(),
            r matches Ok(option) ==> exists|value: Seq<u8>| #[trigger]
                answered(
                    final(self).connector.sent@,
                    final(self).connector.answers@,
                    (Command::GetOption { tag: AuditTag::Command }),
                    (Response::GetOption { value }),
                ) && value.len() % 2 == 0 && audit_options_in(value, value.len() as int / 2)
                    is Some && option == audit_option_of(
                    audit_options_in(value, value.len() as int / 2)->0,
                    command,
                ),
            exists|outcome: Result<Response<Seq<u8>>, ClientError>|
                {
                    &&& #[trigger] Self::commanded(
                        *old(self),
                        (Command::GetOption { tag: AuditTag::Command }),
                        outcome,
                        *final(self),
                    )
                    &&& match outcome {
                        Ok(Response::GetOption { value }) => command_option_read(value, command, r),
                        Ok(_) => false,
                        Err(e) => r == Err::<AuditOption, ClientError>(e),
                    }
                },
    {
        match self.get_commands_audit_options() {
            Ok(options) => Ok(find_audit_option(&options, command)),
            Err(e) => Err(e),
        }
    }

    /// Reads whether the device refuses commands once the audit log is full.
    pub fn get_force_audit_option(&mut self) -> (r: Result<AuditOption, ClientError>)
        requires
            old(self).wf(),
        ensures
            final(self).wf(),
            final(self).credentials == old(self).credentials,
            r is Ok ==> final(self).spec_is_connected(),
            r matches Ok(option) ==> exists|value: Seq<u8>| #[trigger]
                answered(
                    final(self).connector.sent@,
                    final(self).connector.answers@,
                    (Command::GetOption { tag: AuditTag::Force }),
                    (Response::GetOption { value }),
                ) && value.len() == 1 && AuditOption::of_code(value[0]) == Some(option),
            exists|outcome: Result<Response<Seq<u8>>, ClientError>|
                {
                    &&& #[trigger] Self::commanded(
                        *old(self),
                        (Command::GetOption { tag: AuditTag::Force }),
                        outcome,
                        *final(self),
                    )
                    &&& match outcome {
                        Ok(Response::GetOption { value }) => force_option_read(value, r),
                        Ok(_) => false,
                        Err(e) => r == Err::<AuditOption, ClientError>(e),
                    }
                },
    {
        match self.send_command(Command::GetOption { tag: AuditTag::Force }) {
            Ok(Response::GetOption { value }) => read_force_audit_option(value.as_slice()),
            Ok(_) => Err(ClientError::new(ClientErrorKind::ProtocolError, "unexpected response")),
            Err(e) => Err(e),
        }
    }

    /// Verifies the HMAC tag of a message. A tag that the device does not
    /// find to be right is a response error.
    pub fn verify_hmac(&mut self, key_id: u16, msg: &[u8], tag: &[u8]) -> (r: Result<
        (),
        ClientError,
    >)
        requires
            old(self).wf(),
        ensures
            final(self).wf(),
            final(self).credentials == old(self).credentials,
            r is Ok ==> final(self).spec_is_connected(),
            r is Ok ==> answered(
                final(self).connector.sent@,
                final(self).connector.answers@,
                (Command::VerifyHmac { key_id, tag_and_data: tag@ + msg@ }),
                (Response::VerifyHmac { result: 1 }),
            ),
            exists|outcome: Result<Response<Seq<u8>>, ClientError>|
                {
                    &&& #[trigger] Self::commanded(
                        *old(self),
                        (Command::VerifyHmac { key_id, tag_and_data: tag@ + msg@ }),
                        outcome,
                        *final(self),
                    )
                    &&& match outcome {
                        Ok(Response::VerifyHmac { result }) => verdict_read(result, r),
                        Ok(_) => false,
                        Err(e) => r == Err::<(), ClientError>(e),
                    }
                },
    {
        match self.send_command(verify_hmac_command(key_id, msg, tag)) {
            Ok(Response::VerifyHmac { result }) => check_hmac_verified(result),
            Ok(_) => Err(ClientError::new(ClientErrorKind::ProtocolError, "unexpected response")),
            Err(e) => Err(e),
        }
    }

    /// Sends a fresh random UUID to the device and has it sent back, and
    /// gives the time that this took. An echo that is not the UUID is a
    /// response error.
    pub fn ping(&mut self) -> (r: Result<std::time::Duration, ClientError>)
        requires
            old(self).wf(),
        ensures
            final(self).wf(),
            final(self).credentials == old(self).credentials,
            r is Ok ==> final(self).spec_is_connected(),
            r is Ok ==> exists|uuid: Seq<u8>| #[trigger]
                answered(
                    final(self).connector.sent@,
                    final(self).connector.answers@,
                    (Command::Echo { message: uuid }),
                    (Response::Echo { message: uuid }),
                ) && uuid.len() == UUID_SIZE,
            exists|uuid: Seq<u8>, outcome: Result<Response<Seq<u8>>, ClientError>|
                {
                    &&& uuid.len() == UUID_SIZE
                    &&& #[trigger] Self::commanded(
                        *old(self),
                        (Command::Echo { message: uuid }),
                        outcome,
                        *final(self),
                    )
                    &&& match outcome {
                        Ok(Response::Echo { message }) => ping_read(uuid, message, r),
                        Ok(_) => false,
                        Err(e) => r == Err::<std::time::Duration, ClientError>(e),
                    }
                },
    {
        let start = clock_now();
        let uuid = random_uuid();
        let response = match self.echo(uuid.as_slice()) {
            Ok(response) => response,
            Err(e) => {
                return Err(e);
            },
        };
        match check_ping(uuid.as_slice(), response.as_slice()) {
            Ok(()) => Ok(clock_elapsed(&start)),
            Err(e) => Err(e),
        }
    }

    /// Resets the device to the state in which it left the factory, which
    /// wipes every object. Whether or not the device could be told, the
    /// client has no session afterwards: the device restarts either way.
    pub fn reset_device(&mut self) -> (r: Result<(), ClientError>)
        requires
            old(self).wf(),
        ensures
            final(self).wf(),
            final(self).credentials == old(self).credentials,
            r is Ok,
            final(self).session is None,
            !final(self).spec_is_connected(),
            exists|outcome: Result<Response<Seq<u8>>, ClientError>, sent: Self|
                {
                    &&& #[trigger] Self::commanded(
                        *old(self),
                        (Command::ResetDevice),
                        outcome,
                        sent,
                    )
                    &&& final(self).connector == sent.connector
                },
    {
        let _ = self.send_command(Command::ResetDevice);
        match self.session.take() {
            Some(mut session) => {
                session.terminate();
            },
            None => {},
        }
        Ok(())
    }
}

} // verus!
