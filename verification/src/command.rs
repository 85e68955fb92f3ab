//! Command codes and the frame that carries a command to the device.
//!
//! A frame is one byte of command code, two bytes of length and that many
//! bytes of body. Inside a session the body begins with the session's
//! number and ends with a tag of eight bytes. The framer never looks into
//! the payload.

use crate::codec::{be16, put_bytes, put_u16, put_u8, read_bytes, read_u16, u16_at, CodecError};
use vstd::prelude::*;

verus! {

/// A frame on the wire is shorter than this many bytes: the device's buffer.
pub const MAX_MSG_SIZE: usize = 2048;

/// Width of the tag that ends a frame inside a session.
pub const MAC_SIZE: usize = 8;

/// The commands of the device, one byte each.
#[derive(Clone, Copy, Debug, PartialEq, Eq, Structural)]
pub enum CommandCode {
    /// Sends bytes and has them sent back.
    Echo,
    /// Begins the handshake of a new session.
    CreateSession,
    /// Completes the handshake of a new session.
    AuthenticateSession,
    /// Carries an encrypted command inside a session.
    SessionMessage,
    /// Asks for the device's version, serial number and algorithms.
    DeviceInfo,
    /// Reserved.
    Bsl,
    /// Wipes the device and restarts it.
    ResetDevice,
    /// Ends a session.
    CloseSession,
    /// Asks how much storage is free.
    GetStorageInfo,
    /// Stores an opaque object.
    PutOpaqueObject,
    /// Reads an opaque object.
    GetOpaqueObject,
    /// Stores an authentication key.
    PutAuthenticationKey,
    /// Stores an asymmetric key.
    PutAsymmetricKey,
    /// Generates an asymmetric key.
    GenerateAsymmetricKey,
    /// Signs with RSASSA-PKCS#1 v1.5.
    SignPkcs1,
    /// Lists the objects that match a filter.
    ListObjects,
    /// Decrypts with RSAES-PKCS#1 v1.5.
    DecryptPkcs1,
    /// Exports an object under a wrap key.
    ExportWrapped,
    /// Imports an object under a wrap key.
    ImportWrapped,
    /// Stores a wrap key.
    PutWrapKey,
    /// Reads the audit log.
    GetLogEntries,
    /// Describes an object.
    GetObjectInfo,
    /// Changes a device option.
    SetOption,
    /// Reads a device option.
    GetOption,
    /// Draws pseudo-random bytes.
    GetPseudoRandom,
    /// Stores an HMAC key.
    PutHmacKey,
    /// Computes an HMAC tag.
    SignHmac,
    /// Reads the public half of an asymmetric key.
    GetPublicKey,
    /// Signs with RSASSA-PSS.
    SignPss,
    /// Signs with ECDSA.
    SignEcdsa,
    /// Derives a shared secret with ECDH.
    DeriveEcdh,
    /// Deletes an object.
    DeleteObject,
    /// Decrypts with RSAES-OAEP.
    DecryptOaep,
    /// Generates an HMAC key.
    GenerateHmacKey,
    /// Generates a wrap key.
    GenerateWrapKey,
    /// Verifies an HMAC tag.
    VerifyHmac,
    /// Signs an SSH certificate.
    SignSshCertificate,
    /// Stores a template.
    PutTemplate,
    /// Reads a template.
    GetTemplate,
    /// Decrypts a Yubico OTP.
    DecryptOtp,
    /// Creates a Yubico OTP AEAD.
    CreateOtpAead,
    /// Creates a Yubico OTP AEAD from random data.
    RandomizeOtpAead,
    /// Moves a Yubico OTP AEAD to another key.
    RewrapOtpAead,
    /// Attests an asymmetric key.
    SignAttestationCertificate,
    /// Stores a Yubico OTP key.
    PutOtpAeadKey,
    /// Generates a Yubico OTP key.
    GenerateOtpAeadKey,
    /// Marks audit log entries as consumed.
    SetLogIndex,
    /// Encrypts data under a wrap key.
    WrapData,
    /// Decrypts data under a wrap key.
    UnwrapData,
    /// Signs with EdDSA.
    SignEddsa,
    /// Blinks the device's light.
    BlinkDevice,
    /// Replaces an authentication key.
    ChangeAuthenticationKey,
    /// Marks a response that reports a failure of the device.
    Error,
}

impl CommandCode {
    /// The byte that stands for this command.
    pub open spec fn code(self) -> u8 {
        match self {
            CommandCode::Echo => 0x01,
            CommandCode::CreateSession => 0x03,
            CommandCode::AuthenticateSession => 0x04,
            CommandCode::SessionMessage => 0x05,
            CommandCode::DeviceInfo => 0x06,
            CommandCode::Bsl => 0x07,
            CommandCode::ResetDevice => 0x08,
            CommandCode::CloseSession => 0x40,
            CommandCode::GetStorageInfo => 0x41,
            CommandCode::PutOpaqueObject => 0x42,
            CommandCode::GetOpaqueObject => 0x43,
            CommandCode::PutAuthenticationKey => 0x44,
            CommandCode::PutAsymmetricKey => 0x45,
            CommandCode::GenerateAsymmetricKey => 0x46,
            CommandCode::SignPkcs1 => 0x47,
            CommandCode::ListObjects => 0x48,
            CommandCode::DecryptPkcs1 => 0x49,
            CommandCode::ExportWrapped => 0x4a,
            CommandCode::ImportWrapped => 0x4b,
            CommandCode::PutWrapKey => 0x4c,
            CommandCode::GetLogEntries => 0x4d,
            CommandCode::GetObjectInfo => 0x4e,
            CommandCode::SetOption => 0x4f,
            CommandCode::GetOption => 0x50,
            CommandCode::GetPseudoRandom => 0x51,
            CommandCode::PutHmacKey => 0x52,
            CommandCode::SignHmac => 0x53,
            CommandCode::GetPublicKey => 0x54,
            CommandCode::SignPss => 0x55,
            CommandCode::SignEcdsa => 0x56,
            CommandCode::DeriveEcdh => 0x57,
            CommandCode::DeleteObject => 0x58,
            CommandCode::DecryptOaep => 0x59,
            CommandCode::GenerateHmacKey => 0x5a,
            CommandCode::GenerateWrapKey => 0x5b,
            CommandCode::VerifyHmac => 0x5c,
            CommandCode::SignSshCertificate => 0x5d,
            CommandCode::PutTemplate => 0x5e,
            CommandCode::GetTemplate => 0x5f,
            CommandCode::DecryptOtp => 0x60,
            CommandCode::CreateOtpAead => 0x61,
            CommandCode::RandomizeOtpAead => 0x62,
            CommandCode::RewrapOtpAead => 0x63,
            CommandCode::SignAttestationCertificate => 0x64,
            CommandCode::PutOtpAeadKey => 0x65,
            CommandCode::GenerateOtpAeadKey => 0x66,
            CommandCode::SetLogIndex => 0x67,
            CommandCode::WrapData => 0x68,
            CommandCode::UnwrapData => 0x69,
            CommandCode::SignEddsa => 0x6a,
            CommandCode::BlinkDevice => 0x6b,
            CommandCode::ChangeAuthenticationKey => 0x6c,
            CommandCode::Error => 0x7f,
        }
    }

    /// The command that a byte stands for, if it stands for one.
    pub open spec fn of_code(b: u8) -> Option<CommandCode> {
        if b == 0x01 {
            Some(CommandCode::Echo)
        } else if b == 0x03 {
            Some(CommandCode::CreateSession)
        } else if b == 0x04 {
            Some(CommandCode::AuthenticateSession)
        } else if b == 0x05 {
            Some(CommandCode::SessionMessage)
        } else if b == 0x06 {
            Some(CommandCode::DeviceInfo)
        } else if b == 0x07 {
            Some(CommandCode::Bsl)
        } else if b == 0x08 {
            Some(CommandCode::ResetDevice)
        } else if b == 0x40 {
            Some(CommandCode::CloseSession)
        } else if b == 0x41 {
            Some(CommandCode::GetStorageInfo)
        } else if b == 0x42 {
            Some(CommandCode::PutOpaqueObject)
        } else if b == 0x43 {
            Some(CommandCode::GetOpaqueObject)
        } else if b == 0x44 {
            Some(CommandCode::PutAuthenticationKey)
        } else if b == 0x45 {
            Some(CommandCode::PutAsymmetricKey)
        } else if b == 0x46 {
            Some(CommandCode::GenerateAsymmetricKey)
        } else if b == 0x47 {
            Some(CommandCode::SignPkcs1)
        } else if b == 0x48 {
            Some(CommandCode::ListObjects)
        } else if b == 0x49 {
            Some(CommandCode::DecryptPkcs1)
        } else if b == 0x4a {
            Some(CommandCode::ExportWrapped)
        } else if b == 0x4b {
            Some(CommandCode::ImportWrapped)
        } else if b == 0x4c {
            Some(CommandCode::PutWrapKey)
        } else if b == 0x4d {
            Some(CommandCode::GetLogEntries)
        } else if b == 0x4e {
            Some(CommandCode::GetObjectInfo)
        } else if b == 0x4f {
            Some(CommandCode::SetOption)
        } else if b == 0x50 {
            Some(CommandCode::GetOption)
        } else if b == 0x51 {
            Some(CommandCode::GetPseudoRandom)
        } else if b == 0x52 {
            Some(CommandCode::PutHmacKey)
        } else if b == 0x53 {
            Some(CommandCode::SignHmac)
        } else if b == 0x54 {
            Some(CommandCode::GetPublicKey)
        } else if b == 0x55 {
            Some(CommandCode::SignPss)
        } else if b == 0x56 {
            Some(CommandCode::SignEcdsa)
        } else if b == 0x57 {
            Some(CommandCode::DeriveEcdh)
        } else if b == 0x58 {
            Some(CommandCode::DeleteObject)
        } else if b == 0x59 {
            Some(CommandCode::DecryptOaep)
        } else if b == 0x5a {
            Some(CommandCode::GenerateHmacKey)
        } else if b == 0x5b {
            Some(CommandCode::GenerateWrapKey)
        } else if b == 0x5c {
            Some(CommandCode::VerifyHmac)
        } else if b == 0x5d {
            Some(CommandCode::SignSshCertificate)
        } else if b == 0x5e {
            Some(CommandCode::PutTemplate)
        } else if b == 0x5f {
            Some(CommandCode::GetTemplate)
        } else if b == 0x60 {
            Some(CommandCode::DecryptOtp)
        } else if b == 0x61 {
            Some(CommandCode::CreateOtpAead)
        } else if b == 0x62 {
            Some(CommandCode::RandomizeOtpAead)
        } else if b == 0x63 {
            Some(CommandCode::RewrapOtpAead)
        } else if b == 0x64 {
            Some(CommandCode::SignAttestationCertificate)
        } else if b == 0x65 {
            Some(CommandCode::PutOtpAeadKey)
        } else if b == 0x66 {
            Some(CommandCode::GenerateOtpAeadKey)
        } else if b == 0x67 {
            Some(CommandCode::SetLogIndex)
        } else if b == 0x68 {
            Some(CommandCode::WrapData)
        } else if b == 0x69 {
            Some(CommandCode::UnwrapData)
        } else if b == 0x6a {
            Some(CommandCode::SignEddsa)
        } else if b == 0x6b {
            Some(CommandCode::BlinkDevice)
        } else if b == 0x6c {
            Some(CommandCode::ChangeAuthenticationKey)
        } else if b == 0x7f {
            Some(CommandCode::Error)
        } else {
            None
        }
    }

    /// The byte that stands for this command.
    pub fn to_u8(self) -> (b: u8)
        ensures
            b == self.code(),
    {
        match self {
            CommandCode::Echo => 0x01,
            CommandCode::CreateSession => 0x03,
            CommandCode::AuthenticateSession => 0x04,
            CommandCode::SessionMessage => 0x05,
            CommandCode::DeviceInfo => 0x06,
            CommandCode::Bsl => 0x07,
            CommandCode::ResetDevice => 0x08,
            CommandCode::CloseSession => 0x40,
            CommandCode::GetStorageInfo => 0x41,
            CommandCode::PutOpaqueObject => 0x42,
            CommandCode::GetOpaqueObject => 0x43,
            CommandCode::PutAuthenticationKey => 0x44,
            CommandCode::PutAsymmetricKey => 0x45,
            CommandCode::GenerateAsymmetricKey => 0x46,
            CommandCode::SignPkcs1 => 0x47,
            CommandCode::ListObjects => 0x48,
            CommandCode::DecryptPkcs1 => 0x49,
            CommandCode::ExportWrapped => 0x4a,
            CommandCode::ImportWrapped => 0x4b,
            CommandCode::PutWrapKey => 0x4c,
            CommandCode::GetLogEntries => 0x4d,
            CommandCode::GetObjectInfo => 0x4e,
            CommandCode::SetOption => 0x4f,
            CommandCode::GetOption => 0x50,
            CommandCode::GetPseudoRandom => 0x51,
            CommandCode::PutHmacKey => 0x52,
            CommandCode::SignHmac => 0x53,
            CommandCode::GetPublicKey => 0x54,
            CommandCode::SignPss => 0x55,
            CommandCode::SignEcdsa => 0x56,
            CommandCode::DeriveEcdh => 0x57,
            CommandCode::DeleteObject => 0x58,
            CommandCode::DecryptOaep => 0x59,
            CommandCode::GenerateHmacKey => 0x5a,
            CommandCode::GenerateWrapKey => 0x5b,
            CommandCode::VerifyHmac => 0x5c,
            CommandCode::SignSshCertificate => 0x5d,
            CommandCode::PutTemplate => 0x5e,
            CommandCode::GetTemplate => 0x5f,
            CommandCode::DecryptOtp => 0x60,
            CommandCode::CreateOtpAead => 0x61,
            CommandCode::RandomizeOtpAead => 0x62,
            CommandCode::RewrapOtpAead => 0x63,
            CommandCode::SignAttestationCertificate => 0x64,
            CommandCode::PutOtpAeadKey => 0x65,
            CommandCode::GenerateOtpAeadKey => 0x66,
            CommandCode::SetLogIndex => 0x67,
            CommandCode::WrapData => 0x68,
            CommandCode::UnwrapData => 0x69,
            CommandCode::SignEddsa => 0x6a,
            CommandCode::BlinkDevice => 0x6b,
            CommandCode::ChangeAuthenticationKey => 0x6c,
            CommandCode::Error => 0x7f,
        }
    }

    /// Decodes a byte; `None` where it stands for no command.
    pub fn from_u8(b: u8) -> (r: Option<CommandCode>)
        ensures
            r == CommandCode::of_code(b),
    {
        match b {
            0x01 => Some(CommandCode::Echo),
            0x03 => Some(CommandCode::CreateSession),
            0x04 => Some(CommandCode::AuthenticateSession),
            0x05 => Some(CommandCode::SessionMessage),
            0x06 => Some(CommandCode::DeviceInfo),
            0x07 => Some(CommandCode::Bsl),
            0x08 => Some(CommandCode::ResetDevice),
            0x40 => Some(CommandCode::CloseSession),
            0x41 => Some(CommandCode::GetStorageInfo),
            0x42 => Some(CommandCode::PutOpaqueObject),
            0x43 => Some(CommandCode::GetOpaqueObject),
            0x44 => Some(CommandCode::PutAuthenticationKey),
            0x45 => Some(CommandCode::PutAsymmetricKey),
            0x46 => Some(CommandCode::GenerateAsymmetricKey),
            0x47 => Some(CommandCode::SignPkcs1),
            0x48 => Some(CommandCode::ListObjects),
            0x49 => Some(CommandCode::DecryptPkcs1),
            0x4a => Some(CommandCode::ExportWrapped),
            0x4b => Some(CommandCode::ImportWrapped),
            0x4c => Some(CommandCode::PutWrapKey),
            0x4d => Some(CommandCode::GetLogEntries),
            0x4e => Some(CommandCode::GetObjectInfo),
            0x4f => Some(CommandCode::SetOption),
            0x50 => Some(CommandCode::GetOption),
            0x51 => Some(CommandCode::GetPseudoRandom),
            0x52 => Some(CommandCode::PutHmacKey),
            0x53 => Some(CommandCode::SignHmac),
            0x54 => Some(CommandCode::GetPublicKey),
            0x55 => Some(CommandCode::SignPss),
            0x56 => Some(CommandCode::SignEcdsa),
            0x57 => Some(CommandCode::DeriveEcdh),
            0x58 => Some(CommandCode::DeleteObject),
            0x59 => Some(CommandCode::DecryptOaep),
            0x5a => Some(CommandCode::GenerateHmacKey),
            0x5b => Some(CommandCode::GenerateWrapKey),
            0x5c => Some(CommandCode::VerifyHmac),
            0x5d => Some(CommandCode::SignSshCertificate),
            0x5e => Some(CommandCode::PutTemplate),
            0x5f => Some(CommandCode::GetTemplate),
            0x60 => Some(CommandCode::DecryptOtp),
            0x61 => Some(CommandCode::CreateOtpAead),
            0x62 => Some(CommandCode::RandomizeOtpAead),
            0x63 => Some(CommandCode::RewrapOtpAead),
            0x64 => Some(CommandCode::SignAttestationCertificate),
            0x65 => Some(CommandCode::PutOtpAeadKey),
            0x66 => Some(CommandCode::GenerateOtpAeadKey),
            0x67 => Some(CommandCode::SetLogIndex),
            0x68 => Some(CommandCode::WrapData),
            0x69 => Some(CommandCode::UnwrapData),
            0x6a => Some(CommandCode::SignEddsa),
            0x6b => Some(CommandCode::BlinkDevice),
            0x6c => Some(CommandCode::ChangeAuthenticationKey),
            0x7f => Some(CommandCode::Error),
            _ => None,
        }
    }

    /// Whether frames of this command carry a session number and a tag.
    pub open spec fn spec_in_session(self) -> bool {
        self == CommandCode::AuthenticateSession || self == CommandCode::SessionMessage
    }

    /// Whether frames of this command carry a session number and a tag.
    pub fn in_session(self) -> (r: bool)
        ensures
            r == self.spec_in_session(),
    {
        match self {
            CommandCode::AuthenticateSession => true,
            CommandCode::SessionMessage => true,
            _ => false,
        }
    }
}

/// Decoding the byte of a command gives that command; the byte is below 0x80,
/// so that its high bit is free to mark a response.
pub proof fn lemma_command_code_round_trip(c: CommandCode)
    ensures
        CommandCode::of_code(c.code()) == Some(c),
        c.code() < 0x80,
{
}

/// A byte that decodes at all decodes to the command that encodes to it.
pub proof fn lemma_command_code_of_code(b: u8)
    ensures
        CommandCode::of_code(b) matches Some(c) ==> c.code() == b,
{
}

/// A command on its way to the device. `B` is the type of a byte string:
/// `Vec<u8>` in running code, `Seq<u8>` in contracts.
#[derive(Debug)]
pub struct CommandMessage<B = Vec<u8>> {
    /// Which command this is.
    pub command_type: CommandCode,
    /// The session it belongs to, for the commands that travel in one.
    pub session_id: Option<u8>,
    /// The payload.
    pub data: B,
    /// The tag that authenticates the frame, for the commands that travel in a
    /// session.
    pub mac: Option<B>,
}

impl View for CommandMessage<Vec<u8>> {
    type V = CommandMessage<Seq<u8>>;

    open spec fn view(&self) -> CommandMessage<Seq<u8>> {
        CommandMessage {
            command_type: self.command_type,
            session_id: self.session_id,
            data: self.data@,
            mac: match self.mac {
                Some(m) => Some(m@),
                None => None,
            },
        }
    }
}

impl CommandMessage<Seq<u8>> {
    /// What follows the three bytes of header.
    pub open spec fn body(self) -> Seq<u8> {
        (match self.session_id {
            Some(id) => seq![id],
            None => Seq::<u8>::empty(),
        }) + self.data + (match self.mac {
            Some(m) => m,
            None => Seq::<u8>::empty(),
        })
    }

    /// A frame is well formed when it has a session number and a tag of eight
    /// bytes exactly if its command travels in a session, and its body fits
    /// the length field.
    pub open spec fn wf(self) -> bool {
        &&& self.session_id is Some <==> self.command_type.spec_in_session()
        &&& self.mac is Some <==> self.command_type.spec_in_session()
        &&& self.mac matches Some(m) ==> m.len() == MAC_SIZE
        &&& self.body().len() <= 0xffff
    }

    /// The bytes of the frame.
    pub open spec fn wire(self) -> Seq<u8> {
        seq![self.command_type.code()] + be16(self.body().len() as u16) + self.body()
    }

    /// The frame that a buffer holds, or the reason why it holds none.
    pub open spec fn from_wire(s: Seq<u8>) -> Result<CommandMessage<Seq<u8>>, CodecError> {
        if s.len() < 3 {
            Err(CodecError::UnexpectedEof)
        } else {
            match CommandCode::of_code(s[0]) {
                None => Err(CodecError::InvalidTag),
                Some(code) => {
                    let len = u16_at(s, 1) as int;
                    if s.len() - 3 < len {
                        Err(CodecError::UnexpectedEof)
                    } else if s.len() - 3 > len {
                        Err(CodecError::TrailingBytes)
                    } else if code.spec_in_session() {
                        if len < 1 + MAC_SIZE {
                            Err(CodecError::UnexpectedEof)
                        } else {
                            Ok(
                                CommandMessage {
                                    command_type: code,
                                    session_id: Some(s[3]),
                                    data: s.subrange(4, s.len() - MAC_SIZE),
                                    mac: Some(s.subrange(s.len() - MAC_SIZE, s.len() as int)),
                                },
                            )
                        }
                    } else {
                        Ok(
                            CommandMessage {
                                command_type: code,
                                session_id: None,
                                data: s.subrange(3, s.len() as int),
                                mac: None,
                            },
                        )
                    }
                },
            }
        }
    }
}

/// Parsing the bytes of a well-formed frame gives the frame again.
pub proof fn lemma_command_frame_round_trip(m: CommandMessage<Seq<u8>>)
    requires
        m.wf(),
    ensures
        CommandMessage::from_wire(m.wire()) == Ok::<CommandMessage<Seq<u8>>, CodecError>(m),
{
    let s = m.wire();
    let body = m.body();
    lemma_command_code_round_trip(m.command_type);
    assert(s.subrange(1, 3) =~= be16(body.len() as u16));
    crate::codec::lemma_u16_round_trip(s, 1, body.len() as u16);
    if m.command_type.spec_in_session() {
        assert(s.subrange(4, s.len() - MAC_SIZE) =~= m.data);
        assert(s.subrange(s.len() - MAC_SIZE, s.len() as int) =~= m.mac->0);
    } else {
        assert(s.subrange(3, s.len() as int) =~= m.data);
    }
}

/// A buffer that parses is the wire form of the frame it parses to, and that
/// frame is well formed.
pub proof fn lemma_command_frame_parse_wire(s: Seq<u8>)
    ensures
        CommandMessage::from_wire(s) matches Ok(m) ==> m.wf() && m.wire() == s,
{
    if let Ok(m) = CommandMessage::from_wire(s) {
        lemma_command_code_of_code(s[0]);
        assert(m.body() =~= s.subrange(3, s.len() as int));
        assert(m.wire() =~= s);
    }
}

impl CommandMessage<Vec<u8>> {
    /// A command outside any session. `None` where the frame would not be
    /// shorter than `MAX_MSG_SIZE`.
    pub fn new(command_type: CommandCode, data: Vec<u8>) -> (r: Option<CommandMessage>)
        ensures
            r is Some <==> 3 + data@.len() < MAX_MSG_SIZE,
            r matches Some(m) ==> m@ == (CommandMessage::<Seq<u8>> {
                command_type,
                session_id: None,
                data: data@,
                mac: None,
            }),
    {
        if data.len() >= MAX_MSG_SIZE - 3 {
            None
        } else {
            Some(CommandMessage { command_type, session_id: None, data, mac: None })
        }
    }

    /// The number of bytes after the header.
    pub fn body_len(&self) -> (n: usize)
        requires
            self@.wf(),
        ensures
            n == self@.body().len(),
    {
        let mut n: usize = self.data.len();
        if self.session_id.is_some() {
            n = n + 1;
        }
        match &self.mac {
            Some(m) => {
                n = n + m.len();
            },
            None => {},
        }
        n
    }

    /// The bytes of the frame.
    pub fn serialize(&self) -> (out: Vec<u8>)
        requires
            self@.wf(),
        ensures
            out@ == self@.wire(),
    {
        let n = self.body_len();
        let mut out: Vec<u8> = Vec::new();
        put_u8(&mut out, self.command_type.to_u8());
        put_u16(&mut out, n as u16);
        match self.session_id {
            Some(id) => {
                put_u8(&mut out, id);
            },
            None => {},
        }
        put_bytes(&mut out, self.data.as_slice());
        match &self.mac {
            Some(m) => {
                put_bytes(&mut out, m.as_slice());
            },
            None => {},
        }
        assert(out@ =~= self@.wire());
        out
    }

    /// Reads a frame from a buffer that holds exactly one.
    pub fn parse(bytes: &[u8]) -> (r: Result<CommandMessage, CodecError>)
        ensures
            match r {
                Ok(m) => m@.wf()
                   
                        && CommandMessage::from_wire(bytes@) == Ok::<CommandMessage<Seq<u8>>, CodecError>(m@),
                Err(e) => CommandMessage::from_wire(bytes@) == Err::<CommandMessage<Seq<u8>>, CodecError>(e),
            },
    {
        proof {
            lemma_command_frame_parse_wire(bytes@);
        }
        let total: usize = bytes.len();
        if total < 3 {
            return Err(CodecError::UnexpectedEof);
        }
        let code = match CommandCode::from_u8(bytes[0]) {
            Some(c) => c,
            None => {
                return Err(CodecError::InvalidTag);
            },
        };
        let len: usize = read_u16(bytes, 1) as usize;
        if total - 3 < len {
            return Err(CodecError::UnexpectedEof);
        }
        if total - 3 > len {
            return Err(CodecError::TrailingBytes);
        }
        if code.in_session() {
            if len < 1 + MAC_SIZE {
                return Err(CodecError::UnexpectedEof);
            }
            Ok(
                CommandMessage {
                    command_type: code,
                    session_id: Some(bytes[3]),
                    data: read_bytes(bytes, 4, total - MAC_SIZE),
                    mac: Some(read_bytes(bytes, total - MAC_SIZE, total)),
                },
            )
        } else {
            Ok(
                CommandMessage {
                    command_type: code,
                    session_id: None,
                    data: read_bytes(bytes, 3, total),
                    mac: None,
                },
            )
        }
    }
}

} // verus!
