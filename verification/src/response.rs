//! Responses: the codes that open a response frame, the error kinds of the
//! device, and the frame itself.
//!
//! The first byte of a response is the command's code with the high bit set,
//! or 0x7f where the device reports a failure; the payload is then one byte
//! that names the kind of failure.

use crate::codec::{be16, put_bytes, put_u16, put_u8, read_bytes, read_u16, u16_at, CodecError};
use crate::command::{lemma_command_code_of_code, lemma_command_code_round_trip, CommandCode,
    MAC_SIZE};
use vstd::prelude::*;

verus! {

/// The failures that the device reports, one byte each.
#[derive(Clone, Copy, Debug, PartialEq, Eq, Structural)]
pub enum HsmErrorKind {
    /// The command is unknown or malformed.
    InvalidCommand,
    /// The data of the command is not acceptable.
    InvalidData,
    /// The session does not exist or has ended.
    InvalidSession,
    /// Authentication failed.
    AuthFail,
    /// All session slots are taken.
    SessionsFull,
    /// The session could not be created.
    SessionFailed,
    /// The device could not store the object.
    StorageFailed,
    /// A length is not what the command needs.
    WrongLength,
    /// The session lacks a capability the command needs.
    InsufficientPermissions,
    /// The audit log is full and forced auditing is on.
    LogFull,
    /// No object has the given number and type.
    ObjectNotFound,
    /// The number is not one an object may have.
    InvalidId,
    /// An SSH certificate request breaks the template.
    SshCaConstraintViolation,
    /// The OTP does not decrypt.
    InvalidOtp,
    /// The device is in demonstration mode.
    DemoMode,
    /// The device gave up before it ran the command.
    CommandUnexecuted,
}

impl HsmErrorKind {
    /// The byte that stands for this failure.
    pub open spec fn code(self) -> u8 {
        match self {
            HsmErrorKind::InvalidCommand => 0x01,
            HsmErrorKind::InvalidData => 0x02,
            HsmErrorKind::InvalidSession => 0x03,
            HsmErrorKind::AuthFail => 0x04,
            HsmErrorKind::SessionsFull => 0x05,
            HsmErrorKind::SessionFailed => 0x06,
            HsmErrorKind::StorageFailed => 0x07,
            HsmErrorKind::WrongLength => 0x08,
            HsmErrorKind::InsufficientPermissions => 0x09,
            HsmErrorKind::LogFull => 0x0a,
            HsmErrorKind::ObjectNotFound => 0x0b,
            HsmErrorKind::InvalidId => 0x0c,
            HsmErrorKind::SshCaConstraintViolation => 0x0e,
            HsmErrorKind::InvalidOtp => 0x0f,
            HsmErrorKind::DemoMode => 0x10,
            HsmErrorKind::CommandUnexecuted => 0xff,
        }
    }

    /// The failure that a byte stands for, if it stands for one.
    pub open spec fn of_code(b: u8) -> Option<HsmErrorKind> {
        if b == 0x01 {
            Some(HsmErrorKind::InvalidCommand)
        } else if b == 0x02 {
            Some(HsmErrorKind::InvalidData)
        } else if b == 0x03 {
            Some(HsmErrorKind::InvalidSession)
        } else if b == 0x04 {
            Some(HsmErrorKind::AuthFail)
        } else if b == 0x05 {
            Some(HsmErrorKind::SessionsFull)
        } else if b == 0x06 {
            Some(HsmErrorKind::SessionFailed)
        } else if b == 0x07 {
            Some(HsmErrorKind::StorageFailed)
        } else if b == 0x08 {
            Some(HsmErrorKind::WrongLength)
        } else if b == 0x09 {
            Some(HsmErrorKind::InsufficientPermissions)
        } else if b == 0x0a {
            Some(HsmErrorKind::LogFull)
        } else if b == 0x0b {
            Some(HsmErrorKind::ObjectNotFound)
        } else if b == 0x0c {
            Some(HsmErrorKind::InvalidId)
        } else if b == 0x0e {
            Some(HsmErrorKind::SshCaConstraintViolation)
        } else if b == 0x0f {
            Some(HsmErrorKind::InvalidOtp)
        } else if b == 0x10 {
            Some(HsmErrorKind::DemoMode)
        } else if b == 0xff {
            Some(HsmErrorKind::CommandUnexecuted)
        } else {
            None
        }
    }

    /// The byte that stands for this failure.
    pub fn to_u8(self) -> (b: u8)
        ensures
            b == self.code(),
    {
        match self {
            HsmErrorKind::InvalidCommand => 0x01,
            HsmErrorKind::InvalidData => 0x02,
            HsmErrorKind::InvalidSession => 0x03,
            HsmErrorKind::AuthFail => 0x04,
            HsmErrorKind::SessionsFull => 0x05,
            HsmErrorKind::SessionFailed => 0x06,
            HsmErrorKind::StorageFailed => 0x07,
            HsmErrorKind::WrongLength => 0x08,
            HsmErrorKind::InsufficientPermissions => 0x09,
            HsmErrorKind::LogFull => 0x0a,
            HsmErrorKind::ObjectNotFound => 0x0b,
            HsmErrorKind::InvalidId => 0x0c,
            HsmErrorKind::SshCaConstraintViolation => 0x0e,
            HsmErrorKind::InvalidOtp => 0x0f,
            HsmErrorKind::DemoMode => 0x10,
            HsmErrorKind::CommandUnexecuted => 0xff,
        }
    }

    /// Decodes a byte; `None` where it stands for no failure.
    pub fn from_u8(b: u8) -> (r: Option<HsmErrorKind>)
        ensures
            r == HsmErrorKind::of_code(b),
    {
        match b {
            0x01 => Some(HsmErrorKind::InvalidCommand),
            0x02 => Some(HsmErrorKind::InvalidData),
            0x03 => Some(HsmErrorKind::InvalidSession),
            0x04 => Some(HsmErrorKind::AuthFail),
            0x05 => Some(HsmErrorKind::SessionsFull),
            0x06 => Some(HsmErrorKind::SessionFailed),
            0x07 => Some(HsmErrorKind::StorageFailed),
            0x08 => Some(HsmErrorKind::WrongLength),
            0x09 => Some(HsmErrorKind::InsufficientPermissions),
            0x0a => Some(HsmErrorKind::LogFull),
            0x0b => Some(HsmErrorKind::ObjectNotFound),
            0x0c => Some(HsmErrorKind::InvalidId),
            0x0e => Some(HsmErrorKind::SshCaConstraintViolation),
            0x0f => Some(HsmErrorKind::InvalidOtp),
            0x10 => Some(HsmErrorKind::DemoMode),
            0xff => Some(HsmErrorKind::CommandUnexecuted),
            _ => None,
        }
    }
}

/// Decoding the byte of a failure gives that failure.
pub proof fn lemma_error_kind_round_trip(k: HsmErrorKind)
    ensures
        HsmErrorKind::of_code(k.code()) == Some(k),
{
}

/// What the first byte of a response says.
#[derive(Clone, Copy, Debug, PartialEq, Eq, Structural)]
pub enum ResponseCode {
    /// The named command succeeded.
    Success(CommandCode),
    /// The device reports a failure.
    DeviceError,
}

impl ResponseCode {
    /// The byte that opens the frame.
    pub open spec fn code(self) -> u8 {
        match self {
            ResponseCode::Success(c) => (c.code() + 0x80) as u8,
            ResponseCode::DeviceError => 0x7f,
        }
    }

    /// What a first byte says. It reports a failure exactly if its low seven
    /// bits are 0x7f; otherwise it must be the code of a command with the high
    /// bit set.
    pub open spec fn of_code(b: u8) -> Option<ResponseCode> {
        if b % 0x80 == 0x7f {
            Some(ResponseCode::DeviceError)
        } else if b < 0x80 {
            None
        } else {
            match CommandCode::of_code((b - 0x80) as u8) {
                Some(c) => Some(ResponseCode::Success(c)),
                None => None,
            }
        }
    }

    /// A response code is well formed unless it claims success of the code
    /// that is kept for failures.
    pub open spec fn wf(self) -> bool {
        self != ResponseCode::Success(CommandCode::Error)
    }

    /// Whether the response reports a failure.
    pub open spec fn spec_is_err(self) -> bool {
        self == ResponseCode::DeviceError
    }

    /// Whether frames with this code carry a session number: the answers to
    /// the two commands of the handshake, and session messages.
    pub open spec fn spec_has_session(self) -> bool {
        ||| self == ResponseCode::Success(CommandCode::CreateSession)
        ||| self == ResponseCode::Success(CommandCode::AuthenticateSession)
        ||| self == ResponseCode::Success(CommandCode::SessionMessage)
    }

    /// Whether frames with this code end in a tag: the confirmation of the
    /// handshake, and session messages.
    pub open spec fn spec_has_mac(self) -> bool {
        ||| self == ResponseCode::Success(CommandCode::AuthenticateSession)
        ||| self == ResponseCode::Success(CommandCode::SessionMessage)
    }

    /// The byte that opens the frame.
    pub fn to_u8(self) -> (b: u8)
        ensures
            b == self.code(),
    {
        match self {
            ResponseCode::Success(c) => {
                proof {
                    lemma_command_code_round_trip(c);
                }
                c.to_u8() + 0x80
            },
            ResponseCode::DeviceError => 0x7f,
        }
    }

    /// Decodes a first byte; `None` where it is neither a failure nor a
    /// command's code with the high bit set.
    pub fn from_u8(b: u8) -> (r: Option<ResponseCode>)
        ensures
            r == ResponseCode::of_code(b),
    {
        if b % 0x80 == 0x7f {
            Some(ResponseCode::DeviceError)
        } else if b < 0x80 {
            None
        } else {
            match CommandCode::from_u8(b - 0x80) {
                Some(c) => Some(ResponseCode::Success(c)),
                None => None,
            }
        }
    }

    /// Whether the response reports a failure.
    pub fn is_err(self) -> (r: bool)
        ensures
            r == self.spec_is_err(),
    {
        match self {
            ResponseCode::DeviceError => true,
            ResponseCode::Success(_) => false,
        }
    }

    /// Whether frames with this code carry a session number: the answers to
    /// the two commands of the handshake, and session messages.
    pub fn has_session(self) -> (r: bool)
        ensures
            r == self.spec_has_session(),
    {
        match self {
            ResponseCode::Success(CommandCode::CreateSession) => true,
            ResponseCode::Success(CommandCode::AuthenticateSession) => true,
            ResponseCode::Success(CommandCode::SessionMessage) => true,
            _ => false,
        }
    }

    /// Whether frames with this code end in a tag: the confirmation of the
    /// handshake, and session messages.
    pub fn has_mac(self) -> (r: bool)
        ensures
            r == self.spec_has_mac(),
    {
        match self {
            ResponseCode::Success(CommandCode::AuthenticateSession) => true,
            ResponseCode::Success(CommandCode::SessionMessage) => true,
            _ => false,
        }
    }
}

/// Decoding the first byte of a well-formed response code gives the code; the
/// byte reports a failure exactly if its low seven bits are 0x7f.
pub proof fn lemma_response_code_round_trip(c: ResponseCode)
    requires
        c.wf(),
    ensures
        ResponseCode::of_code(c.code()) == Some(c),
        c.spec_is_err() <==> c.code() % 0x80 == 0x7f,
{
    if let ResponseCode::Success(cmd) = c {
        lemma_command_code_round_trip(cmd);
    }
}

/// A first byte that decodes at all decodes to a well-formed code, which
/// encodes to that byte unless the byte is 0xff.
pub proof fn lemma_response_code_of_code(b: u8)
    ensures
        ResponseCode::of_code(b) matches Some(c) ==> c.wf() && (b != 0xff ==> c.code() == b),
{
    if b >= 0x80 && b % 0x80 != 0x7f {
        lemma_command_code_of_code((b - 0x80) as u8);
    }
}

/// A response on its way back from the device. `B` is the type of a byte
/// string: `Vec<u8>` in running code, `Seq<u8>` in contracts.
#[derive(Debug)]
pub struct ResponseMessage<B = Vec<u8>> {
    /// Success of a command, or failure.
    pub code: ResponseCode,
    /// The session the response belongs to, where it belongs to one.
    pub session_id: Option<u8>,
    /// The payload.
    pub data: B,
    /// The tag that authenticates the frame, inside a session.
    pub mac: Option<B>,
}

impl View for ResponseMessage<Vec<u8>> {
    type V = ResponseMessage<Seq<u8>>;

    open spec fn view(&self) -> ResponseMessage<Seq<u8>> {
        ResponseMessage {
            code: self.code,
            session_id: self.session_id,
            data: self.data@,
            mac: match self.mac {
                Some(m) => Some(m@),
                None => None,
            },
        }
    }
}

impl ResponseMessage<Seq<u8>> {
    /// What follows the three bytes of header.
    pub open spec fn body(self) -> Seq<u8> {
        (match self.session_id {
            Some(id) => seq![id],
            None => Seq::<u8>::empty(),
        }) + self.data + (match self.mac {
            Some(m) => m,
            None => Seq::<u8>::empty(),
        })
    }

    /// A response is well formed when its code is, it has a session number and
    /// a tag of eight bytes exactly where its code asks for them, and its body
    /// fits the length field.
    pub open spec fn wf(self) -> bool {
        &&& self.code.wf()
        &&& self.session_id is Some <==> self.code.spec_has_session()
        &&& self.mac is Some <==> self.code.spec_has_mac()
        &&& self.mac matches Some(m) ==> m.len() == MAC_SIZE
        &&& self.body().len() <= 0xffff
    }

    /// The bytes of the frame.
    pub open spec fn wire(self) -> Seq<u8> {
        seq![self.code.code()] + be16(self.body().len() as u16) + self.body()
    }

    /// The response that a buffer holds, or the reason why it holds none.
    pub open spec fn from_wire(s: Seq<u8>) -> Result<ResponseMessage<Seq<u8>>, CodecError> {
        if s.len() < 3 {
            Err(CodecError::UnexpectedEof)
        } else {
            match ResponseCode::of_code(s[0]) {
                None => Err(CodecError::InvalidTag),
                Some(code) => {
                    let len = u16_at(s, 1) as int;
                    let first: int = if code.spec_has_session() {
                        4
                    } else {
                        3
                    };
                    let last: int = if code.spec_has_mac() {
                        s.len() - MAC_SIZE
                    } else {
                        s.len() as int
                    };
                    if s.len() - 3 < len {
                        Err(CodecError::UnexpectedEof)
                    } else if s.len() - 3 > len {
                        Err(CodecError::TrailingBytes)
                    } else if last < first {
                        Err(CodecError::UnexpectedEof)
                    } else {
                        Ok(
                            ResponseMessage {
                                code,
                                session_id: if code.spec_has_session() {
                                    Some(s[3])
                                } else {
                                    None
                                },
                                data: s.subrange(first, last),
                                mac: if code.spec_has_mac() {
                                    Some(s.subrange(last, s.len() as int))
                                } else {
                                    None
                                },
                            },
                        )
                    }
                },
            }
        }
    }

    /// The failure that an error response names, if it names one.
    pub open spec fn error_kind(self) -> Option<HsmErrorKind> {
        if self.code.spec_is_err() && self.data.len() == 1 {
            HsmErrorKind::of_code(self.data[0])
        } else {
            None
        }
    }
}

/// Parsing the bytes of a well-formed response gives the response again.
pub proof fn lemma_response_frame_round_trip(m: ResponseMessage<Seq<u8>>)
    requires
        m.wf(),
    ensures
        ResponseMessage::from_wire(m.wire()) == Ok::<ResponseMessage<Seq<u8>>, CodecError>(m),
{
    let s = m.wire();
    let body = m.body();
    lemma_response_code_round_trip(m.code);
    assert(s.subrange(1, 3) =~= be16(body.len() as u16));
    crate::codec::lemma_u16_round_trip(s, 1, body.len() as u16);
    let first: int = if m.code.spec_has_session() {
        4
    } else {
        3
    };
    let last: int = if m.code.spec_has_mac() {
        s.len() - MAC_SIZE
    } else {
        s.len() as int
    };
    assert(s.subrange(first, last) =~= m.data);
    if m.code.spec_has_mac() {
        assert(s.subrange(last, s.len() as int) =~= m.mac->0);
    }
}

/// A buffer that parses holds a well-formed response, whose body is what
/// follows the header.
pub proof fn lemma_response_frame_parse_wf(s: Seq<u8>)
    ensures
        ResponseMessage::from_wire(s) matches Ok(m) ==> m.wf() && m.body() == s.subrange(
            3,
            s.len() as int,
        ),
{
    if let Ok(m) = ResponseMessage::from_wire(s) {
        lemma_response_code_of_code(s[0]);
        assert(m.body() =~= s.subrange(3, s.len() as int));
    }
}

impl ResponseMessage<Vec<u8>> {
    /// A response that reports success of `command` with the given payload,
    /// outside any session.
    pub fn success(command: CommandCode, data: Vec<u8>) -> (r: ResponseMessage)
        ensures
            r@ == (ResponseMessage::<Seq<u8>> {
                code: ResponseCode::Success(command),
                session_id: None,
                data: data@,
                mac: None,
            }),
    {
        ResponseMessage { code: ResponseCode::Success(command), session_id: None, data, mac: None }
    }

    /// A response that reports the given failure of the device.
    pub fn error(kind: HsmErrorKind) -> (r: ResponseMessage)
        ensures
            r@ == (ResponseMessage::<Seq<u8>> {
                code: ResponseCode::DeviceError,
                session_id: None,
                data: seq![kind.code()],
                mac: None,
            }),
            r@.wf(),
            r@.error_kind() == Some(kind),
    {
        let mut data: Vec<u8> = Vec::new();
        data.push(kind.to_u8());
        proof {
            lemma_error_kind_round_trip(kind);
            assert(data@ =~= seq![kind.code()]);
        }
        ResponseMessage { code: ResponseCode::DeviceError, session_id: None, data, mac: None }
    }

    /// Whether the response reports a failure.
    pub fn is_err(&self) -> (r: bool)
        ensures
            r == self@.code.spec_is_err(),
    {
        self.code.is_err()
    }

    /// The command whose success the response reports, if it reports one.
    pub fn command(&self) -> (r: Option<CommandCode>)
        ensures
            r == (match self@.code {
                ResponseCode::Success(c) => Some(c),
                ResponseCode::DeviceError => None,
            }),
    {
        match self.code {
            ResponseCode::Success(c) => Some(c),
            ResponseCode::DeviceError => None,
        }
    }

    /// The failure that an error response names: `None` for a success, and for
    /// a failure whose payload is not one byte that names a kind.
    pub fn hsm_error(&self) -> (r: Option<HsmErrorKind>)
        ensures
            r == self@.error_kind(),
    {
        if self.code.is_err() && self.data.len() == 1 {
            HsmErrorKind::from_u8(self.data[0])
        } else {
            None
        }
    }

    /// Whether the response is well formed.
    pub fn is_well_formed(&self) -> (r: bool)
        ensures
            r == self@.wf(),
    {
        let code_ok = match self.code {
            ResponseCode::Success(CommandCode::Error) => false,
            _ => true,
        };
        let mac_ok = match &self.mac {
            Some(m) => self.code.has_mac() && m.len() == MAC_SIZE,
            None => !self.code.has_mac(),
        };
        let session_ok = self.session_id.is_some() == self.code.has_session();
        if !code_ok || !mac_ok || !session_ok {
            return false;
        }
        let overhead: usize = if self.code.has_mac() {
            1 + MAC_SIZE
        } else if self.code.has_session() {
            1
        } else {
            0
        };
        self.data.len() <= 0xffff - overhead
    }

    /// The number of bytes after the header.
    pub fn body_len(&self) -> (n: usize)
        requires
            self@.wf(),
        ensures
            n == self@.body().len(),
    {
        let mut n: usize = self.data.len();
        if self.session_id.is_some() {
            n = n + 1;
        }
        match &self.mac {
            Some(m) => {
                n = n + m.len();
            },
            None => {},
        }
        n
    }

    /// The bytes of the frame.
    pub fn serialize(&self) -> (out: Vec<u8>)
        requires
            self@.wf(),
        ensures
            out@ == self@.wire(),
    {
        let n = self.body_len();
        let mut out: Vec<u8> = Vec::new();
        put_u8(&mut out, self.code.to_u8());
        put_u16(&mut out, n as u16);
        match self.session_id {
            Some(id) => {
                put_u8(&mut out, id);
            },
            None => {},
        }
        put_bytes(&mut out, self.data.as_slice());
        match &self.mac {
            Some(m) => {
                put_bytes(&mut out, m.as_slice());
            },
            None => {},
        }
        assert(out@ =~= self@.wire());
        out
    }

    /// Reads a response from a buffer that holds exactly one.
    pub fn parse(bytes: &[u8]) -> (r: Result<ResponseMessage, CodecError>)
        ensures
            match r {
                Ok(m) => m@.wf() && ResponseMessage::from_wire(bytes@) == Ok::<
                    ResponseMessage<Seq<u8>>,
                    CodecError,
                >(m@),
                Err(e) => ResponseMessage::from_wire(bytes@) == Err::<
                    ResponseMessage<Seq<u8>>,
                    CodecError,
                >(e),
            },
    {
        proof {
            lemma_response_frame_parse_wf(bytes@);
        }
        let total: usize = bytes.len();
        if total < 3 {
            return Err(CodecError::UnexpectedEof);
        }
        let code = match ResponseCode::from_u8(bytes[0]) {
            Some(c) => c,
            None => {
                return Err(CodecError::InvalidTag);
            },
        };
        let len: usize = read_u16(bytes, 1) as usize;
        if total - 3 < len {
            return Err(CodecError::UnexpectedEof);
        }
        if total - 3 > len {
            return Err(CodecError::TrailingBytes);
        }
        let first: usize = if code.has_session() {
            4
        } else {
            3
        };
        if code.has_mac() && total < MAC_SIZE + first {
            return Err(CodecError::UnexpectedEof);
        }
        let last: usize = if code.has_mac() {
            total - MAC_SIZE
        } else {
            total
        };
        if last < first {
            return Err(CodecError::UnexpectedEof);
        }
        let session_id = if code.has_session() {
            Some(bytes[3])
        } else {
            None
        };
        let mac = if code.has_mac() {
            Some(read_bytes(bytes, last, total))
        } else {
            None
        };
        Ok(ResponseMessage { code, session_id, data: read_bytes(bytes, first, last), mac })
    }
}

} // verus!
