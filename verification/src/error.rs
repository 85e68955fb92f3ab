//! The errors that surface to callers.
//!
//! Failures of the transport are `ConnectionError`s, failures of the secure
//! channel and of a session are `SessionError`s, and the client facade reports
//! `ClientError`s only. The device's own failures travel as `HsmErrorKind`
//! inside the other three.

use crate::codec::CodecError;
use crate::response::HsmErrorKind;
use vstd::prelude::*;

verus! {

/// How a transport can fail.
#[derive(Clone, Copy, Debug, PartialEq, Eq, Structural)]
pub enum ConnectionErrorKind {
    /// Reading or writing failed.
    IoError,
    /// The far end answered with something that is no response.
    ResponseError,
    /// The device is held by someone else.
    DeviceBusy,
    /// No device was found.
    NotFound,
    /// The USB layer failed.
    UsbError,
}

/// A failure of the transport.
#[derive(Clone, Copy, Debug, PartialEq, Eq, Structural)]
pub struct ConnectionError {
    /// The kind of failure.
    pub kind: ConnectionErrorKind,
}

/// What a failure goes back to, where it goes back to something below the
/// session.
#[derive(Clone, Copy, Debug, PartialEq, Eq, Structural)]
pub enum ErrorCause {
    /// Nothing below the layer that reports the failure.
    Local,
    /// The device reported a failure.
    Device(HsmErrorKind),
    /// The transport failed.
    Connection(ConnectionErrorKind),
    /// Bytes could not be decoded.
    Codec(CodecError),
}

/// How a session can fail.
#[derive(Clone, Copy, Debug, PartialEq, Eq, Structural)]
pub enum SessionErrorKind {
    /// The device did not prove that it holds the authentication key.
    AuthFailed,
    /// A message was malformed, unexpected or could not be delivered.
    ProtocolError,
    /// The device reported a failure, or its response did not authenticate.
    ResponseError,
    /// The session has been idle for too long.
    TimeoutError,
    /// The session could not be created.
    CreateFailed,
    /// A message from the host did not authenticate.
    VerifyFailed,
}

/// A failure of a session or of its secure channel.
#[derive(Clone, Copy, Debug, PartialEq, Eq, Structural)]
pub struct SessionError {
    /// The kind of failure.
    pub kind: SessionErrorKind,
    /// What lies behind it.
    pub cause: ErrorCause,
}

impl SessionError {
    /// A failure of the given kind with nothing behind it.
    pub fn new(kind: SessionErrorKind) -> (e: SessionError)
        ensures
            e == (SessionError { kind, cause: ErrorCause::Local }),
    {
        SessionError { kind, cause: ErrorCause::Local }
    }

    /// A failure to decode: a protocol error.
    pub fn codec(error: CodecError) -> (e: SessionError)
        ensures
            e == (SessionError {
                kind: SessionErrorKind::ProtocolError,
                cause: ErrorCause::Codec(error),
            }),
    {
        SessionError { kind: SessionErrorKind::ProtocolError, cause: ErrorCause::Codec(error) }
    }

    /// A failure of the transport: a protocol error.
    pub fn connection(error: ConnectionError) -> (e: SessionError)
        ensures
            e == (SessionError {
                kind: SessionErrorKind::ProtocolError,
                cause: ErrorCause::Connection(error.kind),
            }),
    {
        SessionError {
            kind: SessionErrorKind::ProtocolError,
            cause: ErrorCause::Connection(error.kind),
        }
    }

    /// A failure that the device reported: a response error.
    pub fn device(kind: HsmErrorKind) -> (e: SessionError)
        ensures
            e == (SessionError {
                kind: SessionErrorKind::ResponseError,
                cause: ErrorCause::Device(kind),
            }),
    {
        SessionError { kind: SessionErrorKind::ResponseError, cause: ErrorCause::Device(kind) }
    }

    /// Whether a new session may make up for this failure: the session timed
    /// out, the transport failed to read or write, or the device no longer
    /// knows the session.
    pub open spec fn spec_is_transient(self) -> bool {
        ||| self.kind == SessionErrorKind::TimeoutError
        ||| self.cause == ErrorCause::Connection(ConnectionErrorKind::IoError)
        ||| self.cause == ErrorCause::Device(HsmErrorKind::InvalidSession)
    }

    /// Whether a new session may make up for this failure.
    pub fn is_transient(&self) -> (r: bool)
        ensures
            r == self.spec_is_transient(),
    {
        match self.kind {
            SessionErrorKind::TimeoutError => true,
            _ => match self.cause {
                ErrorCause::Connection(ConnectionErrorKind::IoError) => true,
                ErrorCause::Device(HsmErrorKind::InvalidSession) => true,
                _ => false,
            },
        }
    }
}

/// How a call on the client can fail.
#[derive(Clone, Copy, Debug, PartialEq, Eq, Structural)]
pub enum ClientErrorKind {
    /// No session could be authenticated.
    AuthFail,
    /// The transport failed.
    ConnectorError,
    /// An argument or a message breaks the protocol.
    ProtocolError,
    /// The device reported a failure, or a response was not what it had to be.
    ResponseError,
    /// No session could be created.
    CreateFailed,
}

/// A failure of a call on the client.
#[derive(Clone, Copy, Debug)]
pub struct ClientError {
    /// The kind of failure.
    pub kind: ClientErrorKind,
    /// What lies behind it.
    pub cause: ErrorCause,
    /// A few words for a human reader.
    pub description: &'static str,
}

impl ClientError {
    /// The kind of client error that a session error of the given kind and
    /// cause becomes.
    pub open spec fn kind_of(error: SessionError) -> ClientErrorKind {
        match error.cause {
            ErrorCause::Connection(_) => ClientErrorKind::ConnectorError,
            _ => match error.kind {
                SessionErrorKind::AuthFailed => ClientErrorKind::AuthFail,
                SessionErrorKind::CreateFailed => ClientErrorKind::CreateFailed,
                SessionErrorKind::ResponseError => ClientErrorKind::ResponseError,
                SessionErrorKind::ProtocolError => ClientErrorKind::ProtocolError,
                SessionErrorKind::TimeoutError => ClientErrorKind::ProtocolError,
                SessionErrorKind::VerifyFailed => ClientErrorKind::ProtocolError,
            },
        }
    }

    /// A failure of the given kind that the client found by itself.
    pub fn new(kind: ClientErrorKind, description: &'static str) -> (e: ClientError)
        ensures
            e == (ClientError { kind, cause: ErrorCause::Local, description }),
    {
        ClientError { kind, cause: ErrorCause::Local, description }
    }

    /// The failure of the client that wraps a failure of the session.
    pub open spec fn of_session(error: SessionError) -> ClientError {
        ClientError {
            kind: ClientError::kind_of(error),
            cause: error.cause,
            description: "session error",
        }
    }

    /// Wraps a failure of the session.
    pub fn session(error: SessionError) -> (e: ClientError)
        ensures
            e == ClientError::of_session(error),
            e.kind == ClientError::kind_of(error),
            e.cause == error.cause,
    {
        let kind = match error.cause {
            ErrorCause::Connection(_) => ClientErrorKind::ConnectorError,
            _ => match error.kind {
                SessionErrorKind::AuthFailed => ClientErrorKind::AuthFail,
                SessionErrorKind::CreateFailed => ClientErrorKind::CreateFailed,
                SessionErrorKind::ResponseError => ClientErrorKind::ResponseError,
                SessionErrorKind::ProtocolError => ClientErrorKind::ProtocolError,
                SessionErrorKind::TimeoutError => ClientErrorKind::ProtocolError,
                SessionErrorKind::VerifyFailed => ClientErrorKind::ProtocolError,
            },
        };
        ClientError { kind, cause: error.cause, description: "session error" }
    }

    /// The words for a human reader.
    pub fn message(&self) -> (text: String)
        ensures
            text@ == self.description@,
    {
        self.description.to_owned()
    }
}

} // verus!
