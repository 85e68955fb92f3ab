//! Audit settings of the device.

use crate::codec::CodecError;
use crate::command::{lemma_command_code_round_trip, CommandCode};
use vstd::prelude::*;

verus! {

/// Whether something is written to the audit log.
#[derive(Clone, Copy, Debug, PartialEq, Eq, Structural)]
pub enum AuditOption {
    /// Not logged.
    Off,
    /// Logged.
    On,
    /// Logged, and the setting can no longer be changed.
    Fix,
}

impl AuditOption {
    /// The byte that stands for this setting.
    pub open spec fn code(self) -> u8 {
        match self {
            AuditOption::Off => 0x00,
            AuditOption::On => 0x01,
            AuditOption::Fix => 0x02,
        }
    }

    /// The setting that a byte stands for, if it stands for one.
    pub open spec fn of_code(b: u8) -> Option<AuditOption> {
        if b == 0x00 {
            Some(AuditOption::Off)
        } else if b == 0x01 {
            Some(AuditOption::On)
        } else if b == 0x02 {
            Some(AuditOption::Fix)
        } else {
            None
        }
    }

    /// The byte that stands for this setting.
    pub fn to_u8(self) -> (b: u8)
        ensures
            b == self.code(),
    {
        match self {
            AuditOption::Off => 0x00,
            AuditOption::On => 0x01,
            AuditOption::Fix => 0x02,
        }
    }

    /// Decodes a byte; `None` where it stands for no setting.
    pub fn from_u8(b: u8) -> (r: Option<AuditOption>)
        ensures
            r == AuditOption::of_code(b),
    {
        match b {
            0x00 => Some(AuditOption::Off),
            0x01 => Some(AuditOption::On),
            0x02 => Some(AuditOption::Fix),
            _ => None,
        }
    }
}

/// Which audit setting a command reads or changes.
#[derive(Clone, Copy, Debug, PartialEq, Eq, Structural)]
pub enum AuditTag {
    /// Whether the device refuses commands once the audit log is full.
    Force,
    /// Whether a given command is logged.
    Command,
}

impl AuditTag {
    /// The byte that stands for this tag.
    pub open spec fn code(self) -> u8 {
        match self {
            AuditTag::Force => 0x01,
            AuditTag::Command => 0x03,
        }
    }

    /// The tag that a byte stands for, if it stands for one.
    pub open spec fn of_code(b: u8) -> Option<AuditTag> {
        if b == 0x01 {
            Some(AuditTag::Force)
        } else if b == 0x03 {
            Some(AuditTag::Command)
        } else {
            None
        }
    }

    /// The byte that stands for this tag.
    pub fn to_u8(self) -> (b: u8)
        ensures
            b == self.code(),
    {
        match self {
            AuditTag::Force => 0x01,
            AuditTag::Command => 0x03,
        }
    }

    /// Decodes a byte; `None` where it stands for no tag.
    pub fn from_u8(b: u8) -> (r: Option<AuditTag>)
        ensures
            r == AuditTag::of_code(b),
    {
        match b {
            0x01 => Some(AuditTag::Force),
            0x03 => Some(AuditTag::Command),
            _ => None,
        }
    }
}

/// The audit setting of one command.
#[derive(Clone, Copy, Debug, PartialEq, Eq, Structural)]
pub struct AuditCommand {
    /// The command.
    pub command: CommandCode,
    /// Whether it is logged.
    pub option: AuditOption,
}

impl AuditCommand {
    /// The two bytes of the setting: the command's code, then the option.
    pub open spec fn wire(self) -> Seq<u8> {
        seq![self.command.code(), self.option.code()]
    }

    /// The setting that stands at offset `at` of a buffer.
    pub open spec fn at(s: Seq<u8>, at: int) -> Result<AuditCommand, CodecError> {
        match (CommandCode::of_code(s[at]), AuditOption::of_code(s[at + 1])) {
            (Some(command), Some(option)) => Ok(AuditCommand { command, option }),
            _ => Err(CodecError::InvalidTag),
        }
    }

    /// The setting that a buffer of exactly two bytes holds.
    pub open spec fn from_wire(s: Seq<u8>) -> Result<AuditCommand, CodecError> {
        if s.len() < 2 {
            Err(CodecError::UnexpectedEof)
        } else if s.len() > 2 {
            Err(CodecError::TrailingBytes)
        } else {
            AuditCommand::at(s, 0)
        }
    }

    /// The two bytes of the setting.
    pub fn serialize(&self) -> (out: Vec<u8>)
        ensures
            out@ == self.wire(),
    {
        let mut out: Vec<u8> = Vec::new();
        out.push(self.command.to_u8());
        out.push(self.option.to_u8());
        assert(out@ =~= self.wire());
        out
    }

    /// Reads the setting at offset `at` of a buffer.
    pub fn read(data: &[u8], at: usize) -> (r: Result<AuditCommand, CodecError>)
        requires
            at + 2 <= data@.len(),
        ensures
            r == AuditCommand::at(data@, at as int),
    {
        match (CommandCode::from_u8(data[at]), AuditOption::from_u8(data[at + 1])) {
            (Some(command), Some(option)) => Ok(AuditCommand { command, option }),
            _ => Err(CodecError::InvalidTag),
        }
    }

    /// Reads a setting from a buffer that holds exactly one.
    pub fn deserialize(data: &[u8]) -> (r: Result<AuditCommand, CodecError>)
        ensures
            r == AuditCommand::from_wire(data@),
    {
        if data.len() < 2 {
            Err(CodecError::UnexpectedEof)
        } else if data.len() > 2 {
            Err(CodecError::TrailingBytes)
        } else {
            AuditCommand::read(data, 0)
        }
    }
}

/// Decoding the bytes of an audit option, tag or command setting gives it
/// back, and each of them has a constant width.
pub proof fn lemma_audit_round_trip(o: AuditOption, t: AuditTag, c: AuditCommand)
    ensures
        AuditOption::of_code(o.code()) == Some(o),
        AuditTag::of_code(t.code()) == Some(t),
        c.wire().len() == 2,
        AuditCommand::from_wire(c.wire()) == Ok::<AuditCommand, CodecError>(c),
{
    lemma_command_code_round_trip(c.command);
}

} // verus!
