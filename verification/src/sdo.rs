//! A compact view of SDO frames: the harmonised command specifier and the
//! coarse server-response shapes.
//!
//! The codec in [`crate::frame::sdo`] keeps client and server command
//! specifiers apart; this module offers the older, harmonised reading of
//! the command byte and a flat `SDOServerResponse` for quick inspection of
//! a server frame.

use vstd::prelude::*;

verus! {

use crate::frame::CANOpenFrame;
use crate::frame::Payload;
use crate::frame::PayloadView;
use crate::frame::sdo::SDOError;

/// The harmonised command specifier: the three upper command byte bits of
/// either direction read as one alphabet. A byte whose specifier bits are
/// all set is kept whole as `Unspecified`.
#[derive(Debug, Clone, Copy, PartialEq, Eq, Structural)]
pub enum CommandSpecifier {
    Download,
    InitiateDownload,
    InitiateUpload,
    Upload,
    Abort,
    BlockUpload,
    BlockDownload,
    Unspecified(u8),
}

/// The harmonised specifier denoted by a command byte.
pub open spec fn spec_command_specifier_from_u8(data: u8) -> CommandSpecifier {
    let bits = data & 0xE0;
    if bits == 0x00 {
        CommandSpecifier::Download
    } else if bits == 0x20 {
        CommandSpecifier::InitiateDownload
    } else if bits == 0x40 {
        CommandSpecifier::InitiateUpload
    } else if bits == 0x60 {
        CommandSpecifier::Upload
    } else if bits == 0x80 {
        CommandSpecifier::Abort
    } else if bits == 0xA0 {
        CommandSpecifier::BlockUpload
    } else if bits == 0xC0 {
        CommandSpecifier::BlockDownload
    } else {
        CommandSpecifier::Unspecified(data)
    }
}

/// The command byte bits a harmonised specifier denotes.
pub open spec fn spec_command_specifier_to_u8(cs: CommandSpecifier) -> u8 {
    match cs {
        CommandSpecifier::Download => 0x00,
        CommandSpecifier::InitiateDownload => 0x20,
        CommandSpecifier::InitiateUpload => 0x40,
        CommandSpecifier::Upload => 0x60,
        CommandSpecifier::Abort => 0x80,
        CommandSpecifier::BlockUpload => 0xA0,
        CommandSpecifier::BlockDownload => 0xC0,
        CommandSpecifier::Unspecified(x) => x,
    }
}

impl CommandSpecifier {
    /// Read the specifier bits of a command byte.
    pub fn from_u8(data: u8) -> (r: CommandSpecifier)
        ensures
            r == spec_command_specifier_from_u8(data),
    {
        let bits = data & 0xE0;
        if bits == 0x00 {
            CommandSpecifier::Download
        } else if bits == 0x20 {
            CommandSpecifier::InitiateDownload
        } else if bits == 0x40 {
            CommandSpecifier::InitiateUpload
        } else if bits == 0x60 {
            CommandSpecifier::Upload
        } else if bits == 0x80 {
            CommandSpecifier::Abort
        } else if bits == 0xA0 {
            CommandSpecifier::BlockUpload
        } else if bits == 0xC0 {
            CommandSpecifier::BlockDownload
        } else {
            CommandSpecifier::Unspecified(data)
        }
    }

    /// The command byte bits of this specifier.
    pub fn to_u8(self) -> (r: u8)
        ensures
            r == spec_command_specifier_to_u8(self),
    {
        match self {
            CommandSpecifier::Download => 0x00,
            CommandSpecifier::InitiateDownload => 0x20,
            CommandSpecifier::InitiateUpload => 0x40,
            CommandSpecifier::Upload => 0x60,
            CommandSpecifier::Abort => 0x80,
            CommandSpecifier::BlockUpload => 0xA0,
            CommandSpecifier::BlockDownload => 0xC0,
            CommandSpecifier::Unspecified(x) => x,
        }
    }
}

/// The coarse result a server response byte announces: 0x60 acknowledges,
/// 0x80 aborts, anything else is kept whole.
#[derive(Debug, Clone, Copy, PartialEq, Eq, Structural)]
pub enum SDOResult {
    Success,
    Failure,
    UnknownResult(u8),
}

impl SDOResult {
    /// Classify a server response byte.
    pub fn from_u8(data: u8) -> (r: SDOResult)
        ensures
            data == 0x60 ==> r is Success,
            data == 0x80 ==> r is Failure,
            data != 0x60 && data != 0x80 ==> r == SDOResult::UnknownResult(data),
    {
        if data == 0x60 {
            SDOResult::Success
        } else if data == 0x80 {
            SDOResult::Failure
        } else {
            SDOResult::UnknownResult(data)
        }
    }
}

/// The coarse result the command specifier bits denote: the download
/// acknowledgement byte is a success, the abort byte a failure, everything
/// else is kept whole.
pub open spec fn spec_result_of_cs(cs: crate::frame::sdo::CommandSpecifier) -> SDOResult {
    let b = crate::frame::sdo::spec_cs_to_u8(cs);
    if b == 0x60 {
        SDOResult::Success
    } else if b == 0x80 {
        SDOResult::Failure
    } else {
        SDOResult::UnknownResult(b)
    }
}

/// A flat reading of a server's first-frame response: coarse result, entry
/// address and raw data word.
#[derive(Debug, Clone, Copy, PartialEq, Eq, Structural)]
pub struct SDOServerResponse {
    pub result: SDOResult,
    pub index: u16,
    pub subindex: u8,
    pub data: u32,
}

impl SDOServerResponse {
    /// Read a typed SDO frame as a flat server response. Frames of other
    /// function codes, and SDO frames without an index, are refused.
    pub fn parse(frame: &CANOpenFrame) -> (r: Result<SDOServerResponse, SDOError>)
        ensures
            r is Ok <==> (frame.frame_type is SdoTx || frame.frame_type is SdoRx)
                && frame@.payload is SdoWithIndex,
            r matches Ok(resp) ==> {
                let p = frame@.payload->SdoWithIndex_0;
                &&& resp.index == p.index
                &&& resp.subindex == p.subindex
                &&& resp.data == p.data
                &&& resp.result == spec_result_of_cs(p.cs)
            },
    {
        match frame.frame_type() {
            crate::frame::FrameType::SdoTx | crate::frame::FrameType::SdoRx => {
                match &frame.payload {
                    Payload::SdoWithIndex(p) => Ok(
                        SDOServerResponse {
                            result: SDOResult::from_u8(p.cs.to_u8()),
                            index: p.index,
                            subindex: p.subindex,
                            data: p.data,
                        },
                    ),
                    _ => Err(SDOError::new("SDO frame parse error")),
                }
            },
            _ => Err(SDOError::new("SDO frame parse error")),
        }
    }
}

/// An expedited SDO frame in the harmonised reading: specifier, size
/// field, entry address and data word.
#[derive(Debug, Clone, Copy, PartialEq, Eq, Structural)]
pub struct SdoExpeditedFrame {
    pub cs: CommandSpecifier,
    pub size: crate::frame::sdo::CommandDataSize,
    pub index: u16,
    pub subindex: u8,
    pub data: u32,
}

/// A segment SDO frame in the harmonised reading.
#[derive(Debug, Clone, PartialEq)]
pub struct SdoSegmentedFrame {
    pub cs: CommandSpecifier,
    pub toggle: bool,
    pub length_of_empty_bytes: Option<u8>,
    pub data: [u8; 7],
}

/// An SDO frame in the harmonised reading: the first frame of an exchange,
/// or a segment.
#[derive(Debug, Clone, PartialEq)]
pub enum SdoFrame {
    Expedited(SdoExpeditedFrame),
    Segmented(SdoSegmentedFrame),
}

impl SdoFrame {
    /// Read a typed SDO frame in the harmonised form. Frames of other
    /// function codes, and unspecific SDO frames, are refused.
    pub fn parse(frame: &CANOpenFrame) -> (r: Result<SdoFrame, SDOError>)
        ensures
            r is Ok <==> (frame.frame_type is SdoTx || frame.frame_type is SdoRx) && !(
            frame@.payload is Unspecific),
            r matches Ok(SdoFrame::Expedited(e)) ==> (frame@.payload matches
                PayloadView::SdoWithIndex(p) && e.cs == spec_command_specifier_from_u8(
                crate::frame::sdo::spec_cs_to_u8(p.cs),
            ) && e.size == p.size && e.index == p.index && e.subindex == p.subindex && e.data
                == p.data),
            r matches Ok(SdoFrame::Segmented(g)) ==> (frame@.payload matches
                PayloadView::SdoWithoutIndex(v) && g.cs == spec_command_specifier_from_u8(
                crate::frame::sdo::spec_cs_to_u8(v.cs),
            ) && g.toggle == v.toggle && g.length_of_empty_bytes == v.length_of_empty_bytes
                && g.data@ == v.data),
    {
        match frame.frame_type() {
            crate::frame::FrameType::SdoTx | crate::frame::FrameType::SdoRx => {
                match &frame.payload {
                    Payload::SdoWithIndex(p) => Ok(
                        SdoFrame::Expedited(
                            SdoExpeditedFrame {
                                cs: CommandSpecifier::from_u8(p.cs.to_u8()),
                                size: p.size,
                                index: p.index,
                                subindex: p.subindex,
                                data: p.data,
                            },
                        ),
                    ),
                    Payload::SdoWithoutIndex(p) => Ok(
                        SdoFrame::Segmented(
                            SdoSegmentedFrame {
                                cs: CommandSpecifier::from_u8(p.cs.to_u8()),
                                toggle: p.toggle,
                                length_of_empty_bytes: p.length_of_empty_bytes,
                                data: p.data,
                            },
                        ),
                    ),
                    Payload::Unspecific(_) => Err(SDOError::new("SDO frame parse error")),
                }
            },
            _ => Err(SDOError::new("SDO frame parse error")),
        }
    }
}

/// The COB-ID base of the SDO receive channel (client to server).
pub const SDO_RECEIVE: u32 = 0x600;

/// The COB-ID base of the SDO transmit channel (server to client).
pub const SDO_TRANSMIT: u32 = 0x580;

/// A minimal SDO client record: the addressed node and the two COB-ID
/// bases of the SDO channel.
#[derive(Debug, Clone, Copy, PartialEq, Eq, Structural)]
pub struct SDOClient {
    pub node_id: u8,
    pub rx_address: u32,
    pub tx_address: u32,
}

impl SDOClient {
    /// A client for the given server node, with the standard SDO receive
    /// (0x600) and transmit (0x580) bases.
    pub fn new(sdo_server_node_id: u8) -> (r: SDOClient)
        ensures
            r.node_id == sdo_server_node_id,
            r.rx_address == 0x600u32,
            r.tx_address == 0x580u32,
    {
        SDOClient { node_id: sdo_server_node_id, rx_address: SDO_RECEIVE, tx_address: SDO_TRANSMIT }
    }

    /// The expedited download frame writing up to four bytes to the given
    /// entry of the remote node; more bytes are refused with
    /// `InvalidDataLength`.
    pub fn upload_frame(&mut self, index: u16, subindex: u8, data: &[u8]) -> (r: Result<
        CANOpenFrame,
        crate::CanOpenError,
    >)
        requires
            old(self).node_id <= 0x7F,
        ensures
            *final(self) == *old(self),
            r is Ok <==> data@.len() <= 4,
            r matches Ok(f) ==> f.wf() && f@ == (crate::frame::CANOpenFrameView {
                node_id: old(self).node_id,
                frame_type: crate::frame::FrameType::SdoRx,
                is_rtr: false,
                payload: PayloadView::SdoWithIndex(
                    crate::frame::sdo::WithIndexPayload {
                        cs: crate::frame::sdo::CommandSpecifier::Ccs(
                            crate::frame::sdo::ClientCommandSpecifier::InitiateDownload,
                        ),
                        size: crate::frame::sdo::builder::spec_size_for_len(data@.len()),
                        expedited_flag: true,
                        index,
                        subindex,
                        data: crate::frame::sdo::builder::spec_u32_from_le_bytes(data@),
                    },
                ),
            }),
            r matches Err(e) ==> e == (crate::CanOpenError::InvalidDataLength {
                length: data@.len() as usize,
            }),
    {
        if data.len() > 4 {
            return Err(crate::CanOpenError::InvalidDataLength { length: data.len() });
        }
        let builder = match crate::frame::builder::CanOpenFrameBuilder::sdo_request(self.node_id) {
            Ok(b) => b,
            Err(_) => { unreached() },
        };
        Ok(builder.with_index(index, subindex).download(data).build())
    }
}

} // verus!
