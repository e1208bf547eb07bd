//! SDO frame payloads.
//!
//! Every SDO frame carries exactly 8 payload bytes. The first byte is the
//! command byte:
//!
//! - bits 7..5: the command specifier (client or server side);
//! - bit 4: the toggle bit of a segmented transfer;
//! - bits 3..2: for expedited frames, the number of data bytes that carry no
//!   data (the size is 4 minus that number); for segment frames bits 3..1
//!   hold the number of empty bytes;
//! - bit 1: the expedited flag;
//! - bit 0: the size-indicated flag.

pub mod builder;

use vstd::prelude::*;

verus! {

/// SDO abort codes, the closed set of 32-bit failure codes carried in abort
/// frames. Codes outside the table are kept as `UnknownAbortCode` so that the
/// conversion to and from `u32` is total.
#[derive(Debug, Clone, Copy, PartialEq, Eq, Structural)]
pub enum SDOAbortCode {
    UnknownAbortCode(u32),
    ToggleBitNotAlternated,
    SDOProtocolTimedOut,
    ClientCommandSpecifierError,
    InvalidBlockSize,
    InvalidSequenceNumber,
    CRCError,
    OutOfMemory,
    UnsupportedAccess,
    ReadWriteOnlyError,
    WriteReadOnlyError,
    ObjectDoesNotExist,
    ObjectCannotBeMapped,
    PDOOverflow,
    ParameterIncompatibility,
    InternalIncompatibility,
    HardwareError,
    WrongLength,
    TooLong,
    TooShort,
    SubindexDoesNotExist,
    WrongValue,
    ValueTooHigh,
    ValueTooLow,
    RangeError,
    GeneralError,
    StorageError,
    LocalControlError,
    DeviceStateError,
    DictionaryError,
}

/// The wire constant of an abort code.
pub open spec fn spec_abort_code_to_u32(code: SDOAbortCode) -> u32 {
    match code {
        SDOAbortCode::ToggleBitNotAlternated => 0x0503_0000,
        SDOAbortCode::SDOProtocolTimedOut => 0x0504_0000,
        SDOAbortCode::ClientCommandSpecifierError => 0x0504_0001,
        SDOAbortCode::InvalidBlockSize => 0x0504_0002,
        SDOAbortCode::InvalidSequenceNumber => 0x0504_0003,
        SDOAbortCode::CRCError => 0x0504_0004,
        SDOAbortCode::OutOfMemory => 0x0504_0005,
        SDOAbortCode::UnsupportedAccess => 0x0601_0000,
        SDOAbortCode::ReadWriteOnlyError => 0x0601_0001,
        SDOAbortCode::WriteReadOnlyError => 0x0601_0002,
        SDOAbortCode::ObjectDoesNotExist => 0x0602_0000,
        SDOAbortCode::ObjectCannotBeMapped => 0x0604_0041,
        SDOAbortCode::PDOOverflow => 0x0604_0042,
        SDOAbortCode::ParameterIncompatibility => 0x0604_0043,
        SDOAbortCode::InternalIncompatibility => 0x0604_0047,
        SDOAbortCode::HardwareError => 0x0606_0000,
        SDOAbortCode::WrongLength => 0x0607_0010,
        SDOAbortCode::TooLong => 0x0607_0012,
        SDOAbortCode::TooShort => 0x0607_0013,
        SDOAbortCode::SubindexDoesNotExist => 0x0609_0011,
        SDOAbortCode::WrongValue => 0x0609_0030,
        SDOAbortCode::ValueTooHigh => 0x0609_0031,
        SDOAbortCode::ValueTooLow => 0x0609_0032,
        SDOAbortCode::RangeError => 0x0609_0036,
        SDOAbortCode::GeneralError => 0x0800_0000,
        SDOAbortCode::StorageError => 0x0800_0020,
        SDOAbortCode::LocalControlError => 0x0800_0021,
        SDOAbortCode::DeviceStateError => 0x0800_0022,
        SDOAbortCode::DictionaryError => 0x0800_0023,
        SDOAbortCode::UnknownAbortCode(x) => x,
    }
}

/// The abort code denoted by a 32-bit wire value.
pub open spec fn spec_abort_code_from_u32(x: u32) -> SDOAbortCode {
    if x == 0x0503_0000 {
        SDOAbortCode::ToggleBitNotAlternated
    } else if x == 0x0504_0000 {
        SDOAbortCode::SDOProtocolTimedOut
    } else if x == 0x0504_0001 {
        SDOAbortCode::ClientCommandSpecifierError
    } else if x == 0x0504_0002 {
        SDOAbortCode::InvalidBlockSize
    } else if x == 0x0504_0003 {
        SDOAbortCode::InvalidSequenceNumber
    } else if x == 0x0504_0004 {
        SDOAbortCode::CRCError
    } else if x == 0x0504_0005 {
        SDOAbortCode::OutOfMemory
    } else if x == 0x0601_0000 {
        SDOAbortCode::UnsupportedAccess
    } else if x == 0x0601_0001 {
        SDOAbortCode::ReadWriteOnlyError
    } else if x == 0x0601_0002 {
        SDOAbortCode::WriteReadOnlyError
    } else if x == 0x0602_0000 {
        SDOAbortCode::ObjectDoesNotExist
    } else if x == 0x0604_0041 {
        SDOAbortCode::ObjectCannotBeMapped
    } else if x == 0x0604_0042 {
        SDOAbortCode::PDOOverflow
    } else if x == 0x0604_0043 {
        SDOAbortCode::ParameterIncompatibility
    } else if x == 0x0604_0047 {
        SDOAbortCode::InternalIncompatibility
    } else if x == 0x0606_0000 {
        SDOAbortCode::HardwareError
    } else if x == 0x0607_0010 {
        SDOAbortCode::WrongLength
    } else if x == 0x0607_0012 {
        SDOAbortCode::TooLong
    } else if x == 0x0607_0013 {
        SDOAbortCode::TooShort
    } else if x == 0x0609_0011 {
        SDOAbortCode::SubindexDoesNotExist
    } else if x == 0x0609_0030 {
        SDOAbortCode::WrongValue
    } else if x == 0x0609_0031 {
        SDOAbortCode::ValueTooHigh
    } else if x == 0x0609_0032 {
        SDOAbortCode::ValueTooLow
    } else if x == 0x0609_0036 {
        SDOAbortCode::RangeError
    } else if x == 0x0800_0000 {
        SDOAbortCode::GeneralError
    } else if x == 0x0800_0020 {
        SDOAbortCode::StorageError
    } else if x == 0x0800_0021 {
        SDOAbortCode::LocalControlError
    } else if x == 0x0800_0022 {
        SDOAbortCode::DeviceStateError
    } else if x == 0x0800_0023 {
        SDOAbortCode::DictionaryError
    } else {
        SDOAbortCode::UnknownAbortCode(x)
    }
}

impl SDOAbortCode {
    /// The 32-bit wire constant of this abort code.
    pub fn to_u32(&self) -> (r: u32)
        ensures
            r == spec_abort_code_to_u32(*self),
    {
        match self {
            SDOAbortCode::ToggleBitNotAlternated => 0x0503_0000,
            SDOAbortCode::SDOProtocolTimedOut => 0x0504_0000,
            SDOAbortCode::ClientCommandSpecifierError => 0x0504_0001,
            SDOAbortCode::InvalidBlockSize => 0x0504_0002,
            SDOAbortCode::InvalidSequenceNumber => 0x0504_0003,
            SDOAbortCode::CRCError => 0x0504_0004,
            SDOAbortCode::OutOfMemory => 0x0504_0005,
            SDOAbortCode::UnsupportedAccess => 0x0601_0000,
            SDOAbortCode::ReadWriteOnlyError => 0x0601_0001,
            SDOAbortCode::WriteReadOnlyError => 0x0601_0002,
            SDOAbortCode::ObjectDoesNotExist => 0x0602_0000,
            SDOAbortCode::ObjectCannotBeMapped => 0x0604_0041,
            SDOAbortCode::PDOOverflow => 0x0604_0042,
            SDOAbortCode::ParameterIncompatibility => 0x0604_0043,
            SDOAbortCode::InternalIncompatibility => 0x0604_0047,
            SDOAbortCode::HardwareError => 0x0606_0000,
            SDOAbortCode::WrongLength => 0x0607_0010,
            SDOAbortCode::TooLong => 0x0607_0012,
            SDOAbortCode::TooShort => 0x0607_0013,
            SDOAbortCode::SubindexDoesNotExist => 0x0609_0011,
            SDOAbortCode::WrongValue => 0x0609_0030,
            SDOAbortCode::ValueTooHigh => 0x0609_0031,
            SDOAbortCode::ValueTooLow => 0x0609_0032,
            SDOAbortCode::RangeError => 0x0609_0036,
            SDOAbortCode::GeneralError => 0x0800_0000,
            SDOAbortCode::StorageError => 0x0800_0020,
            SDOAbortCode::LocalControlError => 0x0800_0021,
            SDOAbortCode::DeviceStateError => 0x0800_0022,
            SDOAbortCode::DictionaryError => 0x0800_0023,
            SDOAbortCode::UnknownAbortCode(x) => *x,
        }
    }

    /// The abort code denoted by a 32-bit wire value; values outside the
    /// table yield `UnknownAbortCode`.
    pub fn from_u32(x: u32) -> (r: SDOAbortCode)
        ensures
            r == spec_abort_code_from_u32(x),
    {
        if x == 0x0503_0000 {
            SDOAbortCode::ToggleBitNotAlternated
        } else if x == 0x0504_0000 {
            SDOAbortCode::SDOProtocolTimedOut
        } else if x == 0x0504_0001 {
            SDOAbortCode::ClientCommandSpecifierError
        } else if x == 0x0504_0002 {
            SDOAbortCode::InvalidBlockSize
        } else if x == 0x0504_0003 {
            SDOAbortCode::InvalidSequenceNumber
        } else if x == 0x0504_0004 {
            SDOAbortCode::CRCError
        } else if x == 0x0504_0005 {
            SDOAbortCode::OutOfMemory
        } else if x == 0x0601_0000 {
            SDOAbortCode::UnsupportedAccess
        } else if x == 0x0601_0001 {
            SDOAbortCode::ReadWriteOnlyError
        } else if x == 0x0601_0002 {
            SDOAbortCode::WriteReadOnlyError
        } else if x == 0x0602_0000 {
            SDOAbortCode::ObjectDoesNotExist
        } else if x == 0x0604_0041 {
            SDOAbortCode::ObjectCannotBeMapped
        } else if x == 0x0604_0042 {
            SDOAbortCode::PDOOverflow
        } else if x == 0x0604_0043 {
            SDOAbortCode::ParameterIncompatibility
        } else if x == 0x0604_0047 {
            SDOAbortCode::InternalIncompatibility
        } else if x == 0x0606_0000 {
            SDOAbortCode::HardwareError
        } else if x == 0x0607_0010 {
            SDOAbortCode::WrongLength
        } else if x == 0x0607_0012 {
            SDOAbortCode::TooLong
        } else if x == 0x0607_0013 {
            SDOAbortCode::TooShort
        } else if x == 0x0609_0011 {
            SDOAbortCode::SubindexDoesNotExist
        } else if x == 0x0609_0030 {
            SDOAbortCode::WrongValue
        } else if x == 0x0609_0031 {
            SDOAbortCode::ValueTooHigh
        } else if x == 0x0609_0032 {
            SDOAbortCode::ValueTooLow
        } else if x == 0x0609_0036 {
            SDOAbortCode::RangeError
        } else if x == 0x0800_0000 {
            SDOAbortCode::GeneralError
        } else if x == 0x0800_0020 {
            SDOAbortCode::StorageError
        } else if x == 0x0800_0021 {
            SDOAbortCode::LocalControlError
        } else if x == 0x0800_0022 {
            SDOAbortCode::DeviceStateError
        } else if x == 0x0800_0023 {
            SDOAbortCode::DictionaryError
        } else {
            SDOAbortCode::UnknownAbortCode(x)
        }
    }
}

/// Converting any 32-bit value to an abort code and back yields the value
/// again: unknown codes are preserved verbatim, and the table maps known
/// codes one to one.
pub proof fn lemma_abort_code_u32_round_trip(x: u32)
    ensures
        spec_abort_code_to_u32(spec_abort_code_from_u32(x)) == x,
{
}

/// Converting any named abort code to its wire constant and back yields the
/// code again. Only `UnknownAbortCode` values that happen to hold a constant
/// of the table decode to the named code instead.
pub proof fn lemma_abort_code_round_trip(code: SDOAbortCode)
    requires
        !(code is UnknownAbortCode),
    ensures
        spec_abort_code_from_u32(spec_abort_code_to_u32(code)) == code,
{
}

} // verus!

use vstd::prelude::*;

verus! {

/// All SDO frames carry exactly 8 payload bytes, little endian.
pub type SdoPayloadData = [u8; 8];

/// Client command specifiers (ccs), bits 7..5 of the command byte of a frame
/// sent from client to server (SdoRx).
#[derive(Debug, Clone, Copy, PartialEq, Eq, Structural)]
pub enum ClientCommandSpecifier {
    DownloadSegment,
    InitiateDownload,
    InitiateUpload,
    UploadSegment,
    BlockUpload,
    BlockDownload,
    Unspecified,
}

/// Server command specifiers (scs), bits 7..5 of the command byte of a frame
/// sent from server to client (SdoTx).
#[derive(Debug, Clone, Copy, PartialEq, Eq, Structural)]
pub enum ServerCommandSpecifier {
    UploadSegment,
    DownloadSegment,
    InitiateUpload,
    InitiateDownload,
    Abort,
    BlockUpload,
    BlockDownload,
    Unspecified,
}

/// A command specifier of either direction.
#[derive(Debug, Clone, Copy, PartialEq, Eq, Structural)]
pub enum CommandSpecifier {
    Ccs(ClientCommandSpecifier),
    Scs(ServerCommandSpecifier),
}

/// The command byte contribution of a client command specifier: the three
/// specifier bits already shifted into bits 7..5.
pub open spec fn spec_ccs_to_u8(c: ClientCommandSpecifier) -> u8 {
    match c {
        ClientCommandSpecifier::DownloadSegment => 0x00,
        ClientCommandSpecifier::InitiateDownload => 0x20,
        ClientCommandSpecifier::InitiateUpload => 0x40,
        ClientCommandSpecifier::UploadSegment => 0x60,
        ClientCommandSpecifier::BlockUpload => 0xA0,
        ClientCommandSpecifier::BlockDownload => 0xC0,
        ClientCommandSpecifier::Unspecified => 0xE0,
    }
}

/// The command byte contribution of a server command specifier.
pub open spec fn spec_scs_to_u8(s: ServerCommandSpecifier) -> u8 {
    match s {
        ServerCommandSpecifier::UploadSegment => 0x00,
        ServerCommandSpecifier::DownloadSegment => 0x20,
        ServerCommandSpecifier::InitiateUpload => 0x40,
        ServerCommandSpecifier::InitiateDownload => 0x60,
        ServerCommandSpecifier::Abort => 0x80,
        ServerCommandSpecifier::BlockUpload => 0xA0,
        ServerCommandSpecifier::BlockDownload => 0xC0,
        ServerCommandSpecifier::Unspecified => 0xE0,
    }
}

/// The command byte contribution of a command specifier of either direction.
pub open spec fn spec_cs_to_u8(cs: CommandSpecifier) -> u8 {
    match cs {
        CommandSpecifier::Ccs(c) => spec_ccs_to_u8(c),
        CommandSpecifier::Scs(s) => spec_scs_to_u8(s),
    }
}

/// The client command specifier denoted by bits 7..5 of a command byte.
pub open spec fn spec_ccs_of_byte(b: u8) -> ClientCommandSpecifier {
    let bits = b & 0xE0;
    if bits == 0x00 {
        ClientCommandSpecifier::DownloadSegment
    } else if bits == 0x20 {
        ClientCommandSpecifier::InitiateDownload
    } else if bits == 0x40 {
        ClientCommandSpecifier::InitiateUpload
    } else if bits == 0x60 {
        ClientCommandSpecifier::UploadSegment
    } else if bits == 0xA0 {
        ClientCommandSpecifier::BlockUpload
    } else if bits == 0xC0 {
        ClientCommandSpecifier::BlockDownload
    } else {
        ClientCommandSpecifier::Unspecified
    }
}

/// The server command specifier denoted by bits 7..5 of a command byte.
pub open spec fn spec_scs_of_byte(b: u8) -> ServerCommandSpecifier {
    let bits = b & 0xE0;
    if bits == 0x00 {
        ServerCommandSpecifier::UploadSegment
    } else if bits == 0x20 {
        ServerCommandSpecifier::DownloadSegment
    } else if bits == 0x40 {
        ServerCommandSpecifier::InitiateUpload
    } else if bits == 0x60 {
        ServerCommandSpecifier::InitiateDownload
    } else if bits == 0x80 {
        ServerCommandSpecifier::Abort
    } else if bits == 0xA0 {
        ServerCommandSpecifier::BlockUpload
    } else if bits == 0xC0 {
        ServerCommandSpecifier::BlockDownload
    } else {
        ServerCommandSpecifier::Unspecified
    }
}

impl ClientCommandSpecifier {
    /// The specifier bits, already shifted into bits 7..5.
    pub fn to_u8(&self) -> (r: u8)
        ensures
            r == spec_ccs_to_u8(*self),
    {
        match self {
            ClientCommandSpecifier::DownloadSegment => 0x00,
            ClientCommandSpecifier::InitiateDownload => 0x20,
            ClientCommandSpecifier::InitiateUpload => 0x40,
            ClientCommandSpecifier::UploadSegment => 0x60,
            ClientCommandSpecifier::BlockUpload => 0xA0,
            ClientCommandSpecifier::BlockDownload => 0xC0,
            ClientCommandSpecifier::Unspecified => 0xE0,
        }
    }

    /// The specifier denoted by bits 7..5 of the given command byte.
    pub fn from_u8(b: u8) -> (r: ClientCommandSpecifier)
        ensures
            r == spec_ccs_of_byte(b),
    {
        let bits = b & 0xE0;
        if bits == 0x00 {
            ClientCommandSpecifier::DownloadSegment
        } else if bits == 0x20 {
            ClientCommandSpecifier::InitiateDownload
        } else if bits == 0x40 {
            ClientCommandSpecifier::InitiateUpload
        } else if bits == 0x60 {
            ClientCommandSpecifier::UploadSegment
        } else if bits == 0xA0 {
            ClientCommandSpecifier::BlockUpload
        } else if bits == 0xC0 {
            ClientCommandSpecifier::BlockDownload
        } else {
            ClientCommandSpecifier::Unspecified
        }
    }
}

impl ServerCommandSpecifier {
    /// The specifier bits, already shifted into bits 7..5.
    pub fn to_u8(&self) -> (r: u8)
        ensures
            r == spec_scs_to_u8(*self),
    {
        match self {
            ServerCommandSpecifier::UploadSegment => 0x00,
            ServerCommandSpecifier::DownloadSegment => 0x20,
            ServerCommandSpecifier::InitiateUpload => 0x40,
            ServerCommandSpecifier::InitiateDownload => 0x60,
            ServerCommandSpecifier::Abort => 0x80,
            ServerCommandSpecifier::BlockUpload => 0xA0,
            ServerCommandSpecifier::BlockDownload => 0xC0,
            ServerCommandSpecifier::Unspecified => 0xE0,
        }
    }

    /// The specifier denoted by bits 7..5 of the given command byte.
    pub fn from_u8(b: u8) -> (r: ServerCommandSpecifier)
        ensures
            r == spec_scs_of_byte(b),
    {
        let bits = b & 0xE0;
        if bits == 0x00 {
            ServerCommandSpecifier::UploadSegment
        } else if bits == 0x20 {
            ServerCommandSpecifier::DownloadSegment
        } else if bits == 0x40 {
            ServerCommandSpecifier::InitiateUpload
        } else if bits == 0x60 {
            ServerCommandSpecifier::InitiateDownload
        } else if bits == 0x80 {
            ServerCommandSpecifier::Abort
        } else if bits == 0xA0 {
            ServerCommandSpecifier::BlockUpload
        } else if bits == 0xC0 {
            ServerCommandSpecifier::BlockDownload
        } else {
            ServerCommandSpecifier::Unspecified
        }
    }
}

impl CommandSpecifier {
    /// The specifier bits of either direction, shifted into bits 7..5.
    pub fn to_u8(&self) -> (r: u8)
        ensures
            r == spec_cs_to_u8(*self),
    {
        match self {
            CommandSpecifier::Ccs(c) => c.to_u8(),
            CommandSpecifier::Scs(s) => s.to_u8(),
        }
    }
}

/// The toggle bit of the command byte (bit 4).
#[derive(Debug, Clone, Copy, PartialEq, Eq, Structural)]
pub enum CommandToggleFlag {
    SetFlag,
    ClearFlag,
}

/// The expedited-transfer flag of the command byte (bit 1).
#[derive(Debug, Clone, Copy, PartialEq, Eq, Structural)]
pub enum CommandTransferFlag {
    Expedited,
    NotExpedited,
}

/// The size-indicated flag of the command byte (bit 0).
#[derive(Debug, Clone, Copy, PartialEq, Eq, Structural)]
pub enum CommandSizeFlag {
    Indicated,
    NotIndicated,
}

/// The data size field of an expedited frame: bits 3..2 give the number of
/// bytes that carry no data, and bit 0 says whether the field is meaningful
/// at all.
#[derive(Debug, Clone, Copy, PartialEq, Eq, Structural)]
pub enum CommandDataSize {
    OneByte,
    TwoBytes,
    ThreeBytes,
    FourBytes,
    NotSet,
}

/// The command byte contribution of a data size field: bits 3..2 hold
/// `4 - size`, and bit 0 is set whenever the size is given.
pub open spec fn spec_size_to_u8(s: CommandDataSize) -> u8 {
    match s {
        CommandDataSize::OneByte => 0x0D,
        CommandDataSize::TwoBytes => 0x09,
        CommandDataSize::ThreeBytes => 0x05,
        CommandDataSize::FourBytes => 0x01,
        CommandDataSize::NotSet => 0x00,
    }
}

/// The data size denoted by a command byte. When the size-indicated flag
/// (bit 0) is clear the size is `NotSet` whatever bits 3..2 hold.
pub open spec fn spec_size_of_byte(b: u8) -> CommandDataSize {
    if b & 1 == 1 {
        let n = b & 0x0C;
        if n == 0x00 {
            CommandDataSize::FourBytes
        } else if n == 0x04 {
            CommandDataSize::ThreeBytes
        } else if n == 0x08 {
            CommandDataSize::TwoBytes
        } else {
            CommandDataSize::OneByte
        }
    } else {
        CommandDataSize::NotSet
    }
}

impl CommandDataSize {
    /// The command byte contribution of this size field.
    pub fn to_u8(&self) -> (r: u8)
        ensures
            r == spec_size_to_u8(*self),
    {
        match self {
            CommandDataSize::OneByte => 0x0D,
            CommandDataSize::TwoBytes => 0x09,
            CommandDataSize::ThreeBytes => 0x05,
            CommandDataSize::FourBytes => 0x01,
            CommandDataSize::NotSet => 0x00,
        }
    }

    /// The data size denoted by the given command byte.
    pub fn from_u8(b: u8) -> (r: CommandDataSize)
        ensures
            r == spec_size_of_byte(b),
    {
        if b & 1 == 1 {
            let n = b & 0x0C;
            if n == 0x00 {
                CommandDataSize::FourBytes
            } else if n == 0x04 {
                CommandDataSize::ThreeBytes
            } else if n == 0x08 {
                CommandDataSize::TwoBytes
            } else {
                CommandDataSize::OneByte
            }
        } else {
            CommandDataSize::NotSet
        }
    }
}

/// The number of data bytes announced by an expedited size field.
pub open spec fn spec_extract_length(size: CommandDataSize) -> usize {
    match size {
        CommandDataSize::NotSet => 0,
        CommandDataSize::OneByte => 1,
        CommandDataSize::TwoBytes => 2,
        CommandDataSize::ThreeBytes => 3,
        CommandDataSize::FourBytes => 4,
    }
}

/// The number of data bytes announced by an expedited size field.
pub fn extract_length(size: CommandDataSize) -> (r: usize)
    ensures
        r == spec_extract_length(size),
{
    match size {
        CommandDataSize::NotSet => 0,
        CommandDataSize::OneByte => 1,
        CommandDataSize::TwoBytes => 2,
        CommandDataSize::ThreeBytes => 3,
        CommandDataSize::FourBytes => 4,
    }
}

/// Whether the size-indicated flag (bit 0) of a command byte is set.
pub fn is_size_flag_set(command_byte: u8) -> (r: bool)
    ensures
        r == (command_byte & 1 == 1),
{
    command_byte & 1 == 1
}

/// Whether the toggle bit (bit 4) of a command byte is set.
pub fn is_toggle_flag_set(command_byte: u8) -> (r: bool)
    ensures
        r == (command_byte & 0x10 == 0x10),
{
    command_byte & 0x10 == 0x10
}

/// The number of empty bytes of a segment frame, if its command byte carries
/// one: bits 3..1, meaningful only when the size flag (bit 0) is set.
pub open spec fn spec_length_of_empty_bytes(b: u8) -> Option<u8> {
    if b & 1 == 1 {
        Some((b & 0x0E) / 2)
    } else {
        None
    }
}

/// The number of empty bytes of a segment frame, if its command byte carries
/// one.
pub fn length_of_empty_bytes(command_byte: u8) -> (r: Option<u8>)
    ensures
        r == spec_length_of_empty_bytes(command_byte),
{
    if command_byte & 1 == 1 {
        proof {
            assert((command_byte & 0x0E) >> 1 == (command_byte & 0x0E) / 2) by (bit_vector);
        }
        Some((command_byte & 0x0E) >> 1)
    } else {
        None
    }
}

/// An error of SDO frame interpretation, carrying a short message.
#[derive(Debug, Clone)]
pub struct SDOError {
    pub msg: &'static str,
}

impl SDOError {
    /// Wrap a message as an SDO error.
    pub fn new(msg: &'static str) -> (r: Self)
        ensures
            r.msg == msg,
    {
        SDOError { msg }
    }

    /// The message this error carries.
    pub fn message(&self) -> (r: &'static str)
        ensures
            r == self.msg,
    {
        self.msg
    }
}

} // verus!

verus! {

/// The payload of the first frame of an SDO exchange: command byte, 16-bit
/// index, 8-bit subindex and four data bytes, all little endian. The toggle
/// bit of such a frame is always clear.
#[derive(Debug, Clone, Copy, PartialEq, Eq, Structural)]
pub struct WithIndexPayload {
    pub cs: CommandSpecifier,
    pub size: CommandDataSize,
    pub expedited_flag: bool,
    pub index: u16,
    pub subindex: u8,
    pub data: u32,
}

/// The payload of a segment frame of an SDO exchange: command byte and seven
/// data bytes. `length_of_empty_bytes` carries bits 3..1 of the command byte
/// when the size flag is set: the number of trailing data bytes that hold no
/// data.
#[derive(Debug, Clone, PartialEq)]
pub struct WithoutIndexPayload {
    pub cs: CommandSpecifier,
    pub toggle: bool,
    pub length_of_empty_bytes: Option<u8>,
    pub data: [u8; 7],
}

/// The command byte of a first-frame payload: specifier bits, size field and
/// expedited flag.
pub open spec fn spec_with_index_command_byte(p: WithIndexPayload) -> u8 {
    spec_cs_to_u8(p.cs) | spec_size_to_u8(p.size) | (if p.expedited_flag {
        2u8
    } else {
        0u8
    })
}

/// The 8 wire bytes of a first-frame payload.
pub open spec fn spec_with_index_bytes(p: WithIndexPayload) -> Seq<u8> {
    seq![
        spec_with_index_command_byte(p),
        (p.index % 0x100) as u8,
        (p.index / 0x100) as u8,
        p.subindex,
        (p.data % 0x100) as u8,
        ((p.data / 0x100) % 0x100) as u8,
        ((p.data / 0x1_0000) % 0x100) as u8,
        (p.data / 0x100_0000) as u8,
    ]
}

/// Whether a server command specifier may head a first-frame payload.
pub open spec fn spec_scs_with_index_accepted(s: ServerCommandSpecifier) -> bool {
    ||| s is Abort
    ||| s is InitiateUpload
    ||| s is UploadSegment
    ||| s is InitiateDownload
    ||| s is DownloadSegment
}

/// Whether a client command specifier may head a first-frame payload.
pub open spec fn spec_ccs_with_index_accepted(c: ClientCommandSpecifier) -> bool {
    ||| c is InitiateDownload
    ||| c is InitiateUpload
    ||| c is UploadSegment
}

/// The first-frame payload denoted by 8 bytes read as a server frame, if the
/// command specifier is one a server may send there.
pub open spec fn spec_parse_with_index_server(d: Seq<u8>) -> Option<WithIndexPayload>
    recommends
        d.len() == 8,
{
    let s = spec_scs_of_byte(d[0]);
    if spec_scs_with_index_accepted(s) {
        Some(
            WithIndexPayload {
                cs: CommandSpecifier::Scs(s),
                size: spec_size_of_byte(d[0]),
                expedited_flag: d[0] & 2 == 2,
                index: (d[1] + d[2] * 0x100) as u16,
                subindex: d[3],
                data: (d[4] + d[5] * 0x100 + d[6] * 0x1_0000 + d[7] * 0x100_0000) as u32,
            },
        )
    } else {
        None
    }
}

/// The first-frame payload denoted by 8 bytes read as a client frame, if the
/// command specifier is one a client may send there.
pub open spec fn spec_parse_with_index_client(d: Seq<u8>) -> Option<WithIndexPayload>
    recommends
        d.len() == 8,
{
    let c = spec_ccs_of_byte(d[0]);
    if spec_ccs_with_index_accepted(c) {
        Some(
            WithIndexPayload {
                cs: CommandSpecifier::Ccs(c),
                size: spec_size_of_byte(d[0]),
                expedited_flag: d[0] & 2 == 2,
                index: (d[1] + d[2] * 0x100) as u16,
                subindex: d[3],
                data: (d[4] + d[5] * 0x100 + d[6] * 0x1_0000 + d[7] * 0x100_0000) as u32,
            },
        )
    } else {
        None
    }
}

impl WithIndexPayload {
    /// Parse 8 payload bytes as a frame sent by a server.
    ///
    /// Accepted command specifiers are `Abort`, `InitiateUpload`,
    /// `UploadSegment`, `InitiateDownload` and `DownloadSegment`; anything
    /// else is `SdoPayloadParseError`.
    pub fn parse_as_server_payload(data: SdoPayloadData) -> (r: Result<
        WithIndexPayload,
        crate::CanOpenError,
    >)
        ensures
            r is Ok <==> spec_parse_with_index_server(data@) is Some,
            r matches Ok(p) ==> spec_parse_with_index_server(data@) == Some(p),
            r matches Err(e) ==> e == crate::CanOpenError::SdoPayloadParseError,
    {
        let s = ServerCommandSpecifier::from_u8(data[0]);
        match s {
            ServerCommandSpecifier::Abort
            | ServerCommandSpecifier::InitiateUpload
            | ServerCommandSpecifier::UploadSegment
            | ServerCommandSpecifier::InitiateDownload
            | ServerCommandSpecifier::DownloadSegment => Ok(
                WithIndexPayload {
                    cs: CommandSpecifier::Scs(s),
                    size: CommandDataSize::from_u8(data[0]),
                    expedited_flag: data[0] & 2 == 2,
                    index: data[1] as u16 + data[2] as u16 * 0x100,
                    subindex: data[3],
                    data: data[4] as u32 + data[5] as u32 * 0x100 + data[6] as u32 * 0x1_0000
                        + data[7] as u32 * 0x100_0000,
                },
            ),
            _ => Err(crate::CanOpenError::SdoPayloadParseError),
        }
    }

    /// Parse 8 payload bytes as a frame sent by a client.
    ///
    /// Accepted command specifiers are `InitiateDownload`, `InitiateUpload`
    /// and `UploadSegment`. Block transfers are not implemented and answer
    /// `SdoPayloadNotImplementedYet`; the rest is `SdoPayloadParseError`.
    pub fn parse_as_client_payload(payload: SdoPayloadData) -> (r: Result<
        WithIndexPayload,
        crate::CanOpenError,
    >)
        ensures
            r is Ok <==> spec_parse_with_index_client(payload@) is Some,
            r matches Ok(p) ==> spec_parse_with_index_client(payload@) == Some(p),
            r matches Err(e) ==> e == (if spec_ccs_of_byte(payload@[0]) is BlockUpload
                || spec_ccs_of_byte(payload@[0]) is BlockDownload {
                crate::CanOpenError::SdoPayloadNotImplementedYet
            } else {
                crate::CanOpenError::SdoPayloadParseError
            }),
    {
        let c = ClientCommandSpecifier::from_u8(payload[0]);
        match c {
            ClientCommandSpecifier::InitiateDownload
            | ClientCommandSpecifier::InitiateUpload
            | ClientCommandSpecifier::UploadSegment => Ok(
                WithIndexPayload {
                    cs: CommandSpecifier::Ccs(c),
                    size: CommandDataSize::from_u8(payload[0]),
                    expedited_flag: payload[0] & 2 == 2,
                    index: payload[1] as u16 + payload[2] as u16 * 0x100,
                    subindex: payload[3],
                    data: payload[4] as u32 + payload[5] as u32 * 0x100 + payload[6] as u32
                        * 0x1_0000 + payload[7] as u32 * 0x100_0000,
                },
            ),
            ClientCommandSpecifier::BlockUpload | ClientCommandSpecifier::BlockDownload => Err(
                crate::CanOpenError::SdoPayloadNotImplementedYet,
            ),
            _ => Err(crate::CanOpenError::SdoPayloadParseError),
        }
    }

    /// Serialise this payload into its 8 wire bytes.
    pub fn to_payload_data(&self) -> (r: SdoPayloadData)
        ensures
            r@ == spec_with_index_bytes(*self),
    {
        let cmd: u8 = self.cs.to_u8() | self.size.to_u8() | (if self.expedited_flag {
            2u8
        } else {
            0u8
        });
        let r: SdoPayloadData = [
            cmd,
            (self.index % 0x100) as u8,
            (self.index / 0x100) as u8,
            self.subindex,
            (self.data % 0x100) as u8,
            ((self.data / 0x100) % 0x100) as u8,
            ((self.data / 0x1_0000) % 0x100) as u8,
            (self.data / 0x100_0000) as u8,
        ];
        proof {
            assert(r@ =~= spec_with_index_bytes(*self));
        }
        r
    }
}

} // verus!

verus! {

/// A segment payload is well formed when its empty-byte count, if given,
/// fits the three bits that carry it.
pub open spec fn spec_without_index_wf(p: WithoutIndexPayload) -> bool {
    p.length_of_empty_bytes matches Some(x) ==> x < 8
}

/// A segment command byte composed from its fields: specifier bits, toggle
/// bit, and the empty-byte count with the size flag when one is given.
pub open spec fn spec_segment_command_byte(
    cs: CommandSpecifier,
    toggle: bool,
    length_of_empty_bytes: Option<u8>,
) -> u8 {
    spec_cs_to_u8(cs) | (if toggle {
        0x10u8
    } else {
        0u8
    }) | (match length_of_empty_bytes {
        Option::None => 0u8,
        Option::Some(x) => ((x & 7) << 1) | 1u8,
    })
}

/// The command byte of a segment payload.
pub open spec fn spec_without_index_command_byte(p: WithoutIndexPayload) -> u8 {
    spec_segment_command_byte(p.cs, p.toggle, p.length_of_empty_bytes)
}

/// The 8 wire bytes of a segment payload.
pub open spec fn spec_without_index_bytes(p: WithoutIndexPayload) -> Seq<u8> {
    seq![spec_without_index_command_byte(p)] + p.data@
}

/// The fields a segment payload parsed from bytes `d` must hold, given the
/// command specifier the parse direction assigns.
pub open spec fn spec_without_index_fields(
    d: Seq<u8>,
    cs: CommandSpecifier,
    p: WithoutIndexPayload,
) -> bool
    recommends
        d.len() == 8,
{
    &&& p.cs == cs
    &&& p.toggle == (d[0] & 0x10 == 0x10)
    &&& p.length_of_empty_bytes == spec_length_of_empty_bytes(d[0])
    &&& p.data@ == d.subrange(1, 8)
}

impl WithoutIndexPayload {
    /// Parse 8 payload bytes as a segment frame sent by a server; only the
    /// `UploadSegment` command specifier is accepted.
    pub fn parse_as_server_payload(payload: SdoPayloadData) -> (r: Result<
        WithoutIndexPayload,
        crate::CanOpenError,
    >)
        ensures
            r is Ok <==> spec_scs_of_byte(payload@[0]) is UploadSegment,
            r matches Ok(p) ==> spec_without_index_fields(
                payload@,
                CommandSpecifier::Scs(ServerCommandSpecifier::UploadSegment),
                p,
            ) && spec_without_index_wf(p),
            r matches Err(e) ==> e == crate::CanOpenError::SdoPayloadParseError,
    {
        let s = ServerCommandSpecifier::from_u8(payload[0]);
        match s {
            ServerCommandSpecifier::UploadSegment => {
                let p = WithoutIndexPayload {
                    cs: CommandSpecifier::Scs(s),
                    toggle: is_toggle_flag_set(payload[0]),
                    length_of_empty_bytes: length_of_empty_bytes(payload[0]),
                    data: [
                        payload[1],
                        payload[2],
                        payload[3],
                        payload[4],
                        payload[5],
                        payload[6],
                        payload[7],
                    ],
                };
                proof {
                    assert(p.data@ =~= payload@.subrange(1, 8));
                    let cb: u8 = payload@[0];
                    assert(cb & 0x0E < 0x10) by (bit_vector);
                }
                Ok(p)
            },
            _ => Err(crate::CanOpenError::SdoPayloadParseError),
        }
    }

    /// Parse 8 payload bytes as a segment frame sent by a client; the
    /// `UploadSegment` and `DownloadSegment` command specifiers are accepted.
    pub fn parse_as_client_payload(payload: SdoPayloadData) -> (r: Result<
        WithoutIndexPayload,
        crate::CanOpenError,
    >)
        ensures
            r is Ok <==> (spec_ccs_of_byte(payload@[0]) is UploadSegment || spec_ccs_of_byte(
                payload@[0],
            ) is DownloadSegment),
            r matches Ok(p) ==> spec_without_index_fields(
                payload@,
                CommandSpecifier::Ccs(spec_ccs_of_byte(payload@[0])),
                p,
            ) && spec_without_index_wf(p),
            r matches Err(e) ==> e == crate::CanOpenError::SdoPayloadParseError,
    {
        let c = ClientCommandSpecifier::from_u8(payload[0]);
        match c {
            ClientCommandSpecifier::UploadSegment | ClientCommandSpecifier::DownloadSegment => {
                let p = WithoutIndexPayload {
                    cs: CommandSpecifier::Ccs(c),
                    toggle: is_toggle_flag_set(payload[0]),
                    length_of_empty_bytes: length_of_empty_bytes(payload[0]),
                    data: [
                        payload[1],
                        payload[2],
                        payload[3],
                        payload[4],
                        payload[5],
                        payload[6],
                        payload[7],
                    ],
                };
                proof {
                    assert(p.data@ =~= payload@.subrange(1, 8));
                    let cb: u8 = payload@[0];
                    assert(cb & 0x0E < 0x10) by (bit_vector);
                }
                Ok(p)
            },
            _ => Err(crate::CanOpenError::SdoPayloadParseError),
        }
    }

    /// The empty-byte count encoded in a segment command byte, if the size
    /// flag is set.
    pub fn get_length_from_command_byte(command_byte: u8) -> (r: Option<u8>)
        ensures
            r == spec_length_of_empty_bytes(command_byte),
    {
        length_of_empty_bytes(command_byte)
    }

    /// Serialise this payload into its 8 wire bytes.
    pub fn to_payload_data(&self) -> (r: SdoPayloadData)
        ensures
            r@ == spec_without_index_bytes(*self),
    {
        let flag_bits: u8 = match self.length_of_empty_bytes {
            Option::None => 0u8,
            Option::Some(x) => ((x & 7) << 1) | 1,
        };
        let cmd: u8 = self.cs.to_u8() | (if self.toggle {
            0x10u8
        } else {
            0u8
        }) | flag_bits;
        let r: SdoPayloadData = [
            cmd,
            self.data[0],
            self.data[1],
            self.data[2],
            self.data[3],
            self.data[4],
            self.data[5],
            self.data[6],
        ];
        proof {
            assert(r@ =~= spec_without_index_bytes(*self));
        }
        r
    }
}

} // verus!

verus! {

/// Bit-level facts about a composed first-frame command byte: each field
/// comes back out of the byte it was put into.
proof fn lemma_cmd_byte_fields(cs: u8, sz: u8, e: u8)
    by (bit_vector)
    requires
        cs & 0xE0 == cs,
        sz == 0x00 || sz == 0x01 || sz == 0x05 || sz == 0x09 || sz == 0x0D,
        e == 0 || e == 2,
    ensures
        (cs | sz | e) & 0xE0 == cs,
        (cs | sz | e) & 2 == e,
        (cs | sz | e) & 1 == 1 <==> sz & 1 == 1,
        (cs | sz | e) & 0x0C == sz & 0x0C,
{
}

/// The specifier bits of every command specifier only occupy bits 7..5.
proof fn lemma_cs_bits_shape()
    by (bit_vector)
    ensures
        0x00u8 & 0xE0 == 0x00u8,
        0x20u8 & 0xE0 == 0x20u8,
        0x40u8 & 0xE0 == 0x40u8,
        0x60u8 & 0xE0 == 0x60u8,
        0x80u8 & 0xE0 == 0x80u8,
        0xA0u8 & 0xE0 == 0xA0u8,
        0xC0u8 & 0xE0 == 0xC0u8,
        0xE0u8 & 0xE0 == 0xE0u8,
{
}

/// The size-field constants decompose into their flag bit and their two
/// count bits as the decoder reads them.
proof fn lemma_size_bits_shape()
    by (bit_vector)
    ensures
        0x00u8 & 1 == 0 && 0x00u8 & 0x0C == 0x00,
        0x01u8 & 1 == 1 && 0x01u8 & 0x0C == 0x00,
        0x05u8 & 1 == 1 && 0x05u8 & 0x0C == 0x04,
        0x09u8 & 1 == 1 && 0x09u8 & 0x0C == 0x08,
        0x0Du8 & 1 == 1 && 0x0Du8 & 0x0C == 0x0C,
{
}

/// Every 16-bit value is rebuilt from its two little-endian bytes.
proof fn lemma_u16_le_round_trip(x: u16)
    by (bit_vector)
    ensures
        (x % 0x100) + (x / 0x100) * 0x100 == x,
{
}

/// Every 32-bit value is rebuilt from its four little-endian bytes.
proof fn lemma_u32_le_round_trip(x: u32)
    by (bit_vector)
    ensures
        (x % 0x100) + ((x / 0x100) % 0x100) * 0x100 + ((x / 0x1_0000) % 0x100) * 0x1_0000 + (x
            / 0x100_0000) * 0x100_0000 == x,
{
}

/// Decomposing the command byte of a first-frame payload yields the fields
/// it was composed of.
proof fn lemma_with_index_command_byte_fields(p: WithIndexPayload)
    ensures
        spec_with_index_command_byte(p) & 0xE0 == spec_cs_to_u8(p.cs),
        spec_size_of_byte(spec_with_index_command_byte(p)) == p.size,
        (spec_with_index_command_byte(p) & 2 == 2) == p.expedited_flag,
{
    lemma_cs_bits_shape();
    lemma_size_bits_shape();
    lemma_cmd_byte_fields(
        spec_cs_to_u8(p.cs),
        spec_size_to_u8(p.size),
        if p.expedited_flag {
            2
        } else {
            0
        },
    );
}

/// Round trip of a first-frame payload sent by a server: parsing its wire
/// bytes as a server payload yields the payload again, whenever its command
/// specifier is one the parser accepts there.
pub proof fn lemma_with_index_server_round_trip(p: WithIndexPayload)
    requires
        p.cs matches CommandSpecifier::Scs(s) && spec_scs_with_index_accepted(s),
    ensures
        spec_parse_with_index_server(spec_with_index_bytes(p)) == Some(p),
{
    lemma_with_index_command_byte_fields(p);
    lemma_u16_le_round_trip(p.index);
    lemma_u32_le_round_trip(p.data);
    assert(spec_parse_with_index_server(spec_with_index_bytes(p)) == Some(p));
}

/// Round trip of a first-frame payload sent by a client: parsing its wire
/// bytes as a client payload yields the payload again, whenever its command
/// specifier is one the parser accepts there.
pub proof fn lemma_with_index_client_round_trip(p: WithIndexPayload)
    requires
        p.cs matches CommandSpecifier::Ccs(c) && spec_ccs_with_index_accepted(c),
    ensures
        spec_parse_with_index_client(spec_with_index_bytes(p)) == Some(p),
{
    lemma_with_index_command_byte_fields(p);
    lemma_u16_le_round_trip(p.index);
    lemma_u32_le_round_trip(p.data);
    assert(spec_parse_with_index_client(spec_with_index_bytes(p)) == Some(p));
}

/// Bit-level facts about a composed segment command byte.
proof fn lemma_segment_cmd_byte_fields(cs: u8, t: u8, x: u8)
    by (bit_vector)
    requires
        cs & 0xE0 == cs,
        t == 0 || t == 0x10,
        x < 8,
    ensures
        (cs | t | (((x & 7) << 1) | 1)) & 0xE0 == cs,
        (cs | t) & 0xE0 == cs,
        ((cs | t | (((x & 7) << 1) | 1)) & 0x10 == 0x10) <==> t == 0x10,
        ((cs | t) & 0x10 == 0x10) <==> t == 0x10,
        (cs | t | (((x & 7) << 1) | 1)) & 1 == 1,
        (cs | t) & 1 == 0,
        ((cs | t | (((x & 7) << 1) | 1)) & 0x0E) / 2 == x,
        cs | t | 0 == cs | t,
{
}

/// Decomposing a composed segment command byte yields the fields it was
/// composed of.
pub proof fn lemma_segment_command_byte_fields(
    cs: CommandSpecifier,
    toggle: bool,
    length_of_empty_bytes: Option<u8>,
)
    requires
        length_of_empty_bytes matches Some(x) ==> x < 8,
    ensures
        spec_segment_command_byte(cs, toggle, length_of_empty_bytes) & 0xE0 == spec_cs_to_u8(cs),
        (spec_segment_command_byte(cs, toggle, length_of_empty_bytes) & 0x10 == 0x10) == toggle,
        spec_length_of_empty_bytes(spec_segment_command_byte(cs, toggle, length_of_empty_bytes))
            == length_of_empty_bytes,
{
    lemma_cs_bits_shape();
    let t: u8 = if toggle {
        0x10
    } else {
        0
    };
    match length_of_empty_bytes {
        Option::Some(x) => {
            lemma_segment_cmd_byte_fields(spec_cs_to_u8(cs), t, x);
        },
        Option::None => {
            lemma_segment_cmd_byte_fields(spec_cs_to_u8(cs), t, 0);
        },
    }
}

/// Decomposing the command byte of a segment payload yields the fields it
/// was composed of.
proof fn lemma_without_index_command_byte_fields(p: WithoutIndexPayload)
    requires
        spec_without_index_wf(p),
    ensures
        spec_without_index_command_byte(p) & 0xE0 == spec_cs_to_u8(p.cs),
        (spec_without_index_command_byte(p) & 0x10 == 0x10) == p.toggle,
        spec_length_of_empty_bytes(spec_without_index_command_byte(p)) == p.length_of_empty_bytes,
{
    lemma_segment_command_byte_fields(p.cs, p.toggle, p.length_of_empty_bytes);
}

/// Round trip of a segment payload sent by a server: parsing its wire bytes
/// as a server segment yields the same fields, whenever its command
/// specifier is the one the parser accepts there.
pub proof fn lemma_without_index_server_round_trip(p: WithoutIndexPayload)
    requires
        spec_without_index_wf(p),
        p.cs == CommandSpecifier::Scs(ServerCommandSpecifier::UploadSegment),
    ensures
        spec_scs_of_byte(spec_without_index_bytes(p)[0]) is UploadSegment,
        spec_without_index_fields(spec_without_index_bytes(p), p.cs, p),
{
    lemma_without_index_command_byte_fields(p);
    assert(spec_without_index_bytes(p).subrange(1, 8) =~= p.data@);
}

/// Round trip of a segment payload sent by a client: parsing its wire bytes
/// as a client segment yields the same fields, whenever its command
/// specifier is one the parser accepts there.
pub proof fn lemma_without_index_client_round_trip(p: WithoutIndexPayload)
    requires
        spec_without_index_wf(p),
        p.cs == CommandSpecifier::Ccs(ClientCommandSpecifier::UploadSegment) || p.cs
            == CommandSpecifier::Ccs(ClientCommandSpecifier::DownloadSegment),
    ensures
        spec_ccs_of_byte(spec_without_index_bytes(p)[0]) is UploadSegment || spec_ccs_of_byte(
            spec_without_index_bytes(p)[0],
        ) is DownloadSegment,
        spec_without_index_fields(
            spec_without_index_bytes(p),
            CommandSpecifier::Ccs(spec_ccs_of_byte(spec_without_index_bytes(p)[0])),
            p,
        ),
    decreases 0int,
{
    lemma_without_index_command_byte_fields(p);
    assert(spec_without_index_bytes(p).subrange(1, 8) =~= p.data@);
}

} // verus!
