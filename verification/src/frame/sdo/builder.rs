//! Builders of SDO frames.
//!
//! `with_index` starts the first frame of an exchange (download and upload
//! requests and their responses, aborts); `without_index` starts segment
//! frames. The segment builder is stateful: it carries a toggle bit that
//! flips on every `build`, and it starts at `true` so that the first built
//! segment carries `false`.

use vstd::prelude::*;

verus! {

use crate::frame::CANOpenFrame;
use crate::frame::FrameType;
use crate::frame::Payload;
use crate::frame::PayloadView;
use crate::frame::WithoutIndexView;
use crate::frame::sdo::ClientCommandSpecifier;
use crate::frame::sdo::CommandDataSize;
use crate::frame::sdo::CommandSpecifier;
use crate::frame::sdo::SDOAbortCode;
use crate::frame::sdo::ServerCommandSpecifier;
use crate::frame::sdo::WithIndexPayload;
use crate::frame::sdo::WithoutIndexPayload;
use crate::frame::sdo::spec_abort_code_to_u32;

/// The 32-bit value held by up to four little-endian bytes.
pub open spec fn spec_u32_from_le_bytes(d: Seq<u8>) -> u32
    recommends
        d.len() <= 4,
{
    (if d.len() == 0 {
        0
    } else if d.len() == 1 {
        d[0] as int
    } else if d.len() == 2 {
        d[0] + d[1] * 0x100
    } else if d.len() == 3 {
        d[0] + d[1] * 0x100 + d[2] * 0x1_0000
    } else {
        d[0] + d[1] * 0x100 + d[2] * 0x1_0000 + d[3] * 0x100_0000
    }) as u32
}

/// The size field announcing a byte count of 0 to 4.
pub open spec fn spec_size_for_len(n: nat) -> CommandDataSize
    recommends
        n <= 4,
{
    if n == 1 {
        CommandDataSize::OneByte
    } else if n == 2 {
        CommandDataSize::TwoBytes
    } else if n == 3 {
        CommandDataSize::ThreeBytes
    } else if n == 4 {
        CommandDataSize::FourBytes
    } else {
        CommandDataSize::NotSet
    }
}

/// Entry to the SDO frame builders: direction (SdoRx for requests, SdoTx
/// for responses) and addressed node.
#[derive(Clone)]
pub struct SdoFrameBuilder {
    pub node_id: u8,
    pub frame_type: FrameType,
}

impl SdoFrameBuilder {
    /// Continue with the first frame of an exchange, addressing an object
    /// dictionary entry.
    pub fn with_index(&self, index: u16, subindex: u8) -> (r: WithIndexFrameBuilder)
        ensures
            r.node_id == self.node_id,
            r.frame_type == self.frame_type,
            r.index == index,
            r.subindex == subindex,
            r.command_specifier == (if self.frame_type is SdoRx {
                CommandSpecifier::Ccs(ClientCommandSpecifier::Unspecified)
            } else {
                CommandSpecifier::Scs(ServerCommandSpecifier::Unspecified)
            }),
            r.size is NotSet,
            r.expedited_flag == false,
            r.data == 0u32,
    {
        let command_specifier = match self.frame_type {
            FrameType::SdoRx => CommandSpecifier::Ccs(ClientCommandSpecifier::Unspecified),
            _ => CommandSpecifier::Scs(ServerCommandSpecifier::Unspecified),
        };
        WithIndexFrameBuilder {
            node_id: self.node_id,
            frame_type: self.frame_type,
            index,
            subindex,
            command_specifier,
            size: CommandDataSize::NotSet,
            expedited_flag: false,
            data: 0,
        }
    }

    /// Continue with a segment frame. The toggle bit starts at `true`
    /// because `build` flips it before use: the first built segment carries
    /// `false`.
    pub fn without_index(&self) -> (r: WithoutIndexFrameBuilder)
        ensures
            r.node_id == self.node_id,
            r.frame_type == self.frame_type,
            r.command_specifier == (if self.frame_type is SdoRx {
                CommandSpecifier::Ccs(ClientCommandSpecifier::Unspecified)
            } else {
                CommandSpecifier::Scs(ServerCommandSpecifier::Unspecified)
            }),
            r.toggle == true,
            r.length_of_empty_bytes is None,
            r.data@ =~= Seq::<u8>::new(7, |i: int| 0u8),
    {
        let command_specifier = match self.frame_type {
            FrameType::SdoRx => CommandSpecifier::Ccs(ClientCommandSpecifier::Unspecified),
            _ => CommandSpecifier::Scs(ServerCommandSpecifier::Unspecified),
        };
        let r = WithoutIndexFrameBuilder {
            node_id: self.node_id,
            frame_type: self.frame_type,
            command_specifier,
            toggle: true,
            length_of_empty_bytes: None,
            data: [0, 0, 0, 0, 0, 0, 0],
        };
        proof {
            assert(r.data@ =~= Seq::<u8>::new(7, |i: int| 0u8));
        }
        r
    }
}

/// Builder of the first frame of an SDO exchange.
#[derive(Clone)]
pub struct WithIndexFrameBuilder {
    pub node_id: u8,
    pub frame_type: FrameType,
    pub command_specifier: CommandSpecifier,
    pub size: CommandDataSize,
    pub expedited_flag: bool,
    pub index: u16,
    pub subindex: u8,
    pub data: u32,
}

impl WithIndexFrameBuilder {
    /// The node id fits 7 bits.
    pub open spec fn wf(&self) -> bool {
        self.node_id < 0x80
    }

    /// The payload this builder denotes.
    pub open spec fn spec_payload(&self) -> WithIndexPayload {
        WithIndexPayload {
            cs: self.command_specifier,
            size: self.size,
            expedited_flag: self.expedited_flag,
            index: self.index,
            subindex: self.subindex,
            data: self.data,
        }
    }

    /// Build the CANopen frame.
    pub fn build(&self) -> (r: CANOpenFrame)
        requires
            self.wf(),
        ensures
            r.wf(),
            r.node_id == self.node_id,
            r.frame_type == self.frame_type,
            r.is_rtr == false,
            r@.payload == PayloadView::SdoWithIndex(self.spec_payload()),
    {
        CANOpenFrame {
            node_id: self.node_id,
            frame_type: self.frame_type,
            is_rtr: false,
            payload: Payload::SdoWithIndex(
                WithIndexPayload {
                    cs: self.command_specifier,
                    size: self.size,
                    expedited_flag: self.expedited_flag,
                    index: self.index,
                    subindex: self.subindex,
                    data: self.data,
                },
            ),
        }
    }

    /// An abort response carrying the given abort code in its data field.
    pub fn abort(self, abort_code: SDOAbortCode) -> (r: Self)
        ensures
            r == (Self {
                command_specifier: CommandSpecifier::Scs(ServerCommandSpecifier::Abort),
                size: CommandDataSize::NotSet,
                expedited_flag: false,
                data: spec_abort_code_to_u32(abort_code),
                ..self
            }),
    {
        Self {
            command_specifier: CommandSpecifier::Scs(ServerCommandSpecifier::Abort),
            size: CommandDataSize::NotSet,
            expedited_flag: false,
            data: abort_code.to_u32(),
            ..self
        }
    }

    /// An expedited download request writing one byte.
    pub fn download_one_byte(self, data: u8) -> (r: Self)
        ensures
            r == (Self {
                command_specifier: CommandSpecifier::Ccs(ClientCommandSpecifier::InitiateDownload),
                size: CommandDataSize::OneByte,
                expedited_flag: true,
                data: data as u32,
                ..self
            }),
    {
        Self {
            command_specifier: CommandSpecifier::Ccs(ClientCommandSpecifier::InitiateDownload),
            size: CommandDataSize::OneByte,
            expedited_flag: true,
            data: data as u32,
            ..self
        }
    }

    /// An expedited download request writing two bytes.
    pub fn download_two_bytes(self, data: u16) -> (r: Self)
        ensures
            r == (Self {
                command_specifier: CommandSpecifier::Ccs(ClientCommandSpecifier::InitiateDownload),
                size: CommandDataSize::TwoBytes,
                expedited_flag: true,
                data: data as u32,
                ..self
            }),
    {
        Self {
            command_specifier: CommandSpecifier::Ccs(ClientCommandSpecifier::InitiateDownload),
            size: CommandDataSize::TwoBytes,
            expedited_flag: true,
            data: data as u32,
            ..self
        }
    }

    /// An expedited download request writing four bytes.
    pub fn download_four_bytes(self, data: u32) -> (r: Self)
        ensures
            r == (Self {
                command_specifier: CommandSpecifier::Ccs(ClientCommandSpecifier::InitiateDownload),
                size: CommandDataSize::FourBytes,
                expedited_flag: true,
                data: data,
                ..self
            }),
    {
        Self {
            command_specifier: CommandSpecifier::Ccs(ClientCommandSpecifier::InitiateDownload),
            size: CommandDataSize::FourBytes,
            expedited_flag: true,
            data,
            ..self
        }
    }

    /// A download response acknowledging a write.
    pub fn download_response(self) -> (r: Self)
        ensures
            r == (Self {
                command_specifier: CommandSpecifier::Scs(ServerCommandSpecifier::InitiateDownload),
                size: CommandDataSize::NotSet,
                expedited_flag: false,
                data: 0u32,
                ..self
            }),
    {
        Self {
            command_specifier: CommandSpecifier::Scs(ServerCommandSpecifier::InitiateDownload),
            size: CommandDataSize::NotSet,
            expedited_flag: false,
            data: 0,
            ..self
        }
    }

    /// An upload request reading an object; the data field is zero.
    pub fn upload_request(self) -> (r: Self)
        ensures
            r == (Self {
                command_specifier: CommandSpecifier::Ccs(ClientCommandSpecifier::InitiateUpload),
                size: CommandDataSize::NotSet,
                expedited_flag: false,
                data: 0u32,
                ..self
            }),
    {
        Self {
            command_specifier: CommandSpecifier::Ccs(ClientCommandSpecifier::InitiateUpload),
            size: CommandDataSize::NotSet,
            expedited_flag: false,
            data: 0,
            ..self
        }
    }

    /// An expedited upload response returning one byte.
    pub fn upload_one_byte_expedited_response(self, data: u8) -> (r: Self)
        ensures
            r == (Self {
                command_specifier: CommandSpecifier::Scs(ServerCommandSpecifier::InitiateUpload),
                size: CommandDataSize::OneByte,
                expedited_flag: true,
                data: data as u32,
                ..self
            }),
    {
        Self {
            command_specifier: CommandSpecifier::Scs(ServerCommandSpecifier::InitiateUpload),
            size: CommandDataSize::OneByte,
            expedited_flag: true,
            data: data as u32,
            ..self
        }
    }

    /// An expedited upload response returning two bytes.
    pub fn upload_two_bytes_response_expedited_response(self, data: u16) -> (r: Self)
        ensures
            r == (Self {
                command_specifier: CommandSpecifier::Scs(ServerCommandSpecifier::InitiateUpload),
                size: CommandDataSize::TwoBytes,
                expedited_flag: true,
                data: data as u32,
                ..self
            }),
    {
        Self {
            command_specifier: CommandSpecifier::Scs(ServerCommandSpecifier::InitiateUpload),
            size: CommandDataSize::TwoBytes,
            expedited_flag: true,
            data: data as u32,
            ..self
        }
    }

    /// An expedited upload response returning three bytes; the top byte of
    /// the given value is discarded.
    pub fn upload_three_bytes_expedited_response(self, data: u32) -> (r: Self)
        ensures
            r == (Self {
                command_specifier: CommandSpecifier::Scs(ServerCommandSpecifier::InitiateUpload),
                size: CommandDataSize::ThreeBytes,
                expedited_flag: true,
                data: (data & 0x00FF_FFFF) as u32,
                ..self
            }),
    {
        Self {
            command_specifier: CommandSpecifier::Scs(ServerCommandSpecifier::InitiateUpload),
            size: CommandDataSize::ThreeBytes,
            expedited_flag: true,
            data: data & 0x00FF_FFFF,
            ..self
        }
    }

    /// An expedited upload response returning four bytes.
    pub fn upload_four_bytes_expedited_response(self, data: u32) -> (r: Self)
        ensures
            r == (Self {
                command_specifier: CommandSpecifier::Scs(ServerCommandSpecifier::InitiateUpload),
                size: CommandDataSize::FourBytes,
                expedited_flag: true,
                data: data,
                ..self
            }),
    {
        Self {
            command_specifier: CommandSpecifier::Scs(ServerCommandSpecifier::InitiateUpload),
            size: CommandDataSize::FourBytes,
            expedited_flag: true,
            data,
            ..self
        }
    }

    /// The response initiating a segmented upload: the expedited flag is
    /// clear and the data field announces the total byte count.
    pub fn upload_segmented_response(self, length: u32) -> (r: Self)
        ensures
            r == (Self {
                command_specifier: CommandSpecifier::Scs(ServerCommandSpecifier::InitiateUpload),
                size: CommandDataSize::FourBytes,
                expedited_flag: false,
                data: length,
                ..self
            }),
    {
        Self {
            command_specifier: CommandSpecifier::Scs(ServerCommandSpecifier::InitiateUpload),
            size: CommandDataSize::FourBytes,
            expedited_flag: false,
            data: length,
            ..self
        }
    }

    /// An expedited download request writing the given bytes. At most four
    /// bytes fit an expedited transfer; more are a programmer error.
    pub fn download(self, data: &[u8]) -> (r: Self)
        requires
            data@.len() <= 4,
        ensures
            r == (Self {
                command_specifier: CommandSpecifier::Ccs(ClientCommandSpecifier::InitiateDownload),
                size: spec_size_for_len(data@.len()),
                expedited_flag: true,
                data: spec_u32_from_le_bytes(data@),
                ..self
            }),
    {
        let (size, value) = le_bytes_to_u32(data);
        Self {
            command_specifier: CommandSpecifier::Ccs(ClientCommandSpecifier::InitiateDownload),
            size,
            expedited_flag: true,
            data: value,
            ..self
        }
    }

    /// An expedited upload response returning the given bytes. At most four
    /// bytes fit an expedited transfer; more are a programmer error.
    pub fn upload_expedited_response(self, data: &[u8]) -> (r: Self)
        requires
            data@.len() <= 4,
        ensures
            r == (Self {
                command_specifier: CommandSpecifier::Scs(ServerCommandSpecifier::InitiateUpload),
                size: spec_size_for_len(data@.len()),
                expedited_flag: true,
                data: spec_u32_from_le_bytes(data@),
                ..self
            }),
    {
        let (size, value) = le_bytes_to_u32(data);
        Self {
            command_specifier: CommandSpecifier::Scs(ServerCommandSpecifier::InitiateUpload),
            size,
            expedited_flag: true,
            data: value,
            ..self
        }
    }
}

/// Pack up to four little-endian bytes into a 32-bit value together with
/// the size field that announces their count.
fn le_bytes_to_u32(data: &[u8]) -> (r: (CommandDataSize, u32))
    requires
        data@.len() <= 4,
    ensures
        r.0 == spec_size_for_len(data@.len()),
        r.1 == spec_u32_from_le_bytes(data@),
{
    if data.len() == 4 {
        (
            CommandDataSize::FourBytes,
            data[0] as u32 + data[1] as u32 * 0x100 + data[2] as u32 * 0x1_0000 + data[3] as u32
                * 0x100_0000,
        )
    } else if data.len() == 3 {
        (
            CommandDataSize::ThreeBytes,
            data[0] as u32 + data[1] as u32 * 0x100 + data[2] as u32 * 0x1_0000,
        )
    } else if data.len() == 2 {
        (CommandDataSize::TwoBytes, data[0] as u32 + data[1] as u32 * 0x100)
    } else if data.len() == 1 {
        (CommandDataSize::OneByte, data[0] as u32)
    } else {
        (CommandDataSize::NotSet, 0)
    }
}

/// Builder of SDO segment frames.
#[derive(Clone)]
pub struct WithoutIndexFrameBuilder {
    pub node_id: u8,
    pub frame_type: FrameType,
    pub command_specifier: CommandSpecifier,
    pub length_of_empty_bytes: Option<u8>,
    pub toggle: bool,
    pub data: [u8; 7],
}

impl WithoutIndexFrameBuilder {
    /// The node id fits 7 bits and the empty-byte count, if given, fits its
    /// three bits.
    pub open spec fn wf(&self) -> bool {
        &&& self.node_id < 0x80
        &&& self.length_of_empty_bytes matches Some(x) ==> x < 8
    }

    /// Build the segment frame. The toggle bit flips first, so consecutive
    /// builds alternate it, starting at `false`.
    pub fn build(&mut self) -> (r: CANOpenFrame)
        requires
            old(self).wf(),
        ensures
            *final(self) == (Self { toggle: !old(self).toggle, ..*old(self) }),
            r.wf(),
            r.node_id == old(self).node_id,
            r.frame_type == old(self).frame_type,
            r.is_rtr == false,
            r@.payload == PayloadView::SdoWithoutIndex(
                WithoutIndexView {
                    cs: old(self).command_specifier,
                    toggle: !old(self).toggle,
                    length_of_empty_bytes: old(self).length_of_empty_bytes,
                    data: old(self).data@,
                },
            ),
    {
        self.toggle = !self.toggle;
        CANOpenFrame {
            node_id: self.node_id,
            frame_type: self.frame_type,
            is_rtr: false,
            payload: Payload::SdoWithoutIndex(
                WithoutIndexPayload {
                    cs: self.command_specifier,
                    toggle: self.toggle,
                    length_of_empty_bytes: self.length_of_empty_bytes,
                    data: self.data,
                },
            ),
        }
    }

    /// Pick the toggle bit the next built segment shall carry.
    pub fn toggle(self, value: bool) -> (r: Self)
        ensures
            r == (Self { toggle: !value, ..self }),
    {
        Self { toggle: !value, ..self }
    }

    /// A segment upload request: no data, empty-byte count zero.
    pub fn upload_request(self) -> (r: Self)
        ensures
            r == (Self {
                command_specifier: CommandSpecifier::Ccs(ClientCommandSpecifier::UploadSegment),
                length_of_empty_bytes: Some(0u8),
                data: r.data,
                ..self
            }),
            r.data@ =~= Seq::<u8>::new(7, |i: int| 0u8),
    {
        let r = Self {
            command_specifier: CommandSpecifier::Ccs(ClientCommandSpecifier::UploadSegment),
            length_of_empty_bytes: Some(0),
            data: [0, 0, 0, 0, 0, 0, 0],
            ..self
        };
        proof {
            assert(r.data@ =~= Seq::<u8>::new(7, |i: int| 0u8));
        }
        r
    }

    /// A segment upload response carrying the next chunk of data. Up to 7
    /// bytes are taken; the empty-byte count records how many of the 7 are
    /// unused, and is absent for a full chunk.
    pub fn upload_response(self, data: &[u8]) -> (r: Self)
        ensures
            r.command_specifier == CommandSpecifier::Scs(ServerCommandSpecifier::UploadSegment),
            r.length_of_empty_bytes == (if data@.len() < 7 {
                Some((7 - data@.len()) as u8)
            } else {
                Option::<u8>::None
            }),
            r.data@ =~= Seq::<u8>::new(
                7,
                |i: int|
                    if i < data@.len() {
                        data@[i]
                    } else {
                        0u8
                    },
            ),
            r.node_id == self.node_id,
            r.frame_type == self.frame_type,
            r.toggle == self.toggle,
    {
        let (length_of_empty_bytes, buffer) = chunk_to_segment(data);
        Self {
            command_specifier: CommandSpecifier::Scs(ServerCommandSpecifier::UploadSegment),
            length_of_empty_bytes,
            data: buffer,
            ..self
        }
    }

    /// A segment download request carrying the next chunk of data, shaped
    /// like `upload_response`.
    pub fn download_request(self, data: &[u8]) -> (r: Self)
        ensures
            r.command_specifier == CommandSpecifier::Ccs(ClientCommandSpecifier::DownloadSegment),
            r.length_of_empty_bytes == (if data@.len() < 7 {
                Some((7 - data@.len()) as u8)
            } else {
                Option::<u8>::None
            }),
            r.data@ =~= Seq::<u8>::new(
                7,
                |i: int|
                    if i < data@.len() {
                        data@[i]
                    } else {
                        0u8
                    },
            ),
            r.node_id == self.node_id,
            r.frame_type == self.frame_type,
            r.toggle == self.toggle,
    {
        let (length_of_empty_bytes, buffer) = chunk_to_segment(data);
        Self {
            command_specifier: CommandSpecifier::Ccs(ClientCommandSpecifier::DownloadSegment),
            length_of_empty_bytes,
            data: buffer,
            ..self
        }
    }

    /// A segment download response: no data, empty-byte count zero.
    pub fn download_response(self) -> (r: Self)
        ensures
            r == (Self {
                command_specifier: CommandSpecifier::Scs(ServerCommandSpecifier::DownloadSegment),
                length_of_empty_bytes: Some(0u8),
                data: r.data,
                ..self
            }),
            r.data@ =~= Seq::<u8>::new(7, |i: int| 0u8),
    {
        let r = Self {
            command_specifier: CommandSpecifier::Scs(ServerCommandSpecifier::DownloadSegment),
            length_of_empty_bytes: Some(0),
            data: [0, 0, 0, 0, 0, 0, 0],
            ..self
        };
        proof {
            assert(r.data@ =~= Seq::<u8>::new(7, |i: int| 0u8));
        }
        r
    }
}

/// Lay a chunk of bytes into the 7-byte segment buffer: the first 7 bytes
/// are taken, the rest of the buffer is zero, and the empty-byte count says
/// how many buffer bytes are unused (absent for a full chunk).
fn chunk_to_segment(data: &[u8]) -> (r: (Option<u8>, [u8; 7]))
    ensures
        r.0 == (if data@.len() < 7 {
            Some((7 - data@.len()) as u8)
        } else {
            Option::<u8>::None
        }),
        r.1@ =~= Seq::<u8>::new(
            7,
            |i: int|
                if i < data@.len() {
                    data@[i]
                } else {
                    0u8
                },
        ),
        r.0 matches Some(x) ==> x < 8,
{
    let len = data.len();
    let length_of_empty_bytes: Option<u8> = if len < 7 {
        Some(7 - len as u8)
    } else {
        None
    };
    let mut buffer: [u8; 7] = [0, 0, 0, 0, 0, 0, 0];
    let mut i: usize = 0;
    while i < 7
        invariant
            i <= 7,
            len == data@.len(),
            forall|j: int| 0 <= j < i && j < data@.len() ==> buffer@[j] == data@[j],
            forall|j: int| 0 <= j < 7 && (j >= i || j >= data@.len()) ==> buffer@[j] == 0,
        decreases 7 - i,
    {
        if i < len {
            buffer[i] = data[i];
        }
        i += 1;
    }
    (length_of_empty_bytes, buffer)
}

} // verus!
