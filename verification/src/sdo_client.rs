//! The SDO client: remote read (upload) and write (download) of object
//! dictionary entries.
//!
//! The client computes request frames and interprets response frames; the
//! embedding application moves them over the bus and enforces the
//! per-exchange timeout. Frames not matching the outstanding request are
//! reported as such and must be ignored, not dropped.

use vstd::prelude::*;

verus! {

use crate::frame::CANOpenFrame;
use crate::frame::CANOpenFrameView;
use crate::frame::FrameType;
use crate::frame::Payload;
use crate::frame::PayloadView;
use crate::frame::builder::CanOpenFrameBuilder;
use crate::frame::sdo::ClientCommandSpecifier;
use crate::frame::sdo::CommandDataSize;
use crate::frame::sdo::CommandSpecifier;
use crate::frame::sdo::SDOAbortCode;
use crate::frame::sdo::ServerCommandSpecifier;
use crate::frame::sdo::WithIndexPayload;
use crate::frame::sdo::extract_length;
use crate::frame::sdo::spec_abort_code_from_u32;
use crate::frame::sdo::spec_extract_length;
use crate::frame::sdo::builder::spec_size_for_len;
use crate::frame::sdo::builder::spec_u32_from_le_bytes;
use crate::CanOpenError;

/// An SDO client bound to one remote server node.
pub struct SdoClient {
    pub node_id: u8,
}

/// What an initiate-upload response announces.
pub enum UploadOutcome {
    /// An expedited response carrying the value's bytes in one frame.
    Expedited(Vec<u8>),
    /// A segmented response announcing the total byte count; the bytes
    /// follow in segment frames.
    Segmented(usize),
}

/// Whether a frame is the server's first-frame response for the given
/// exchange: right node, server direction, first-frame payload, same entry
/// address.
pub open spec fn spec_matches_response(
    f: CANOpenFrameView,
    node_id: u8,
    index: u16,
    subindex: u8,
) -> bool {
    &&& f.node_id == node_id
    &&& f.frame_type is SdoTx
    &&& f.payload matches PayloadView::SdoWithIndex(p) && p.index == index && p.subindex == subindex
}

/// The first-frame payload of a frame; meaningful only where the payload
/// has that shape.
pub open spec fn spec_with_index_of(f: CANOpenFrameView) -> WithIndexPayload {
    f.payload->SdoWithIndex_0
}

/// The bytes of an expedited response: the announced count of data bytes,
/// little endian.
pub open spec fn spec_expedited_bytes(p: WithIndexPayload) -> Seq<u8> {
    Seq::<u8>::new(
        spec_extract_length(p.size) as nat,
        |i: int|
            if i == 0 {
                (p.data % 0x100) as u8
            } else if i == 1 {
                ((p.data / 0x100) % 0x100) as u8
            } else if i == 2 {
                ((p.data / 0x1_0000) % 0x100) as u8
            } else {
                (p.data / 0x100_0000) as u8
            },
    )
}

impl SdoClient {
    /// A new client for the server at the given node id. Ids above 0x7F
    /// are a programmer error.
    pub fn new(node_id: u8) -> (r: Self)
        requires
            node_id <= 0x7F,
        ensures
            r.node_id == node_id,
    {
        SdoClient { node_id }
    }

    /// The request frame that starts reading an object (initiate upload).
    pub fn upload_request_frame(&self, index: u16, subindex: u8) -> (r: CANOpenFrame)
        requires
            self.node_id <= 0x7F,
        ensures
            r.wf(),
            r@ == (CANOpenFrameView {
                node_id: self.node_id,
                frame_type: FrameType::SdoRx,
                is_rtr: false,
                payload: PayloadView::SdoWithIndex(
                    WithIndexPayload {
                        cs: CommandSpecifier::Ccs(ClientCommandSpecifier::InitiateUpload),
                        size: CommandDataSize::NotSet,
                        expedited_flag: false,
                        index,
                        subindex,
                        data: 0,
                    },
                ),
            }),
    {
        let builder = match CanOpenFrameBuilder::sdo_request(self.node_id) {
            Ok(b) => b,
            Err(_) => { unreached() },
        };
        builder.with_index(index, subindex).upload_request().build()
    }

    /// The request frame asking for the next segment of a segmented
    /// upload, carrying the given toggle bit.
    pub fn upload_segment_request_frame(&self, toggle: bool) -> (r: CANOpenFrame)
        requires
            self.node_id <= 0x7F,
        ensures
            r.wf(),
            r.node_id == self.node_id,
            r.frame_type is SdoRx,
            r.is_rtr == false,
            r@.payload matches PayloadView::SdoWithoutIndex(v) && v.cs == CommandSpecifier::Ccs(
                ClientCommandSpecifier::UploadSegment,
            ) && v.toggle == toggle && v.length_of_empty_bytes == Some(0u8),
    {
        let builder = match CanOpenFrameBuilder::sdo_request(self.node_id) {
            Ok(b) => b,
            Err(_) => { unreached() },
        };
        let mut segment_builder = builder.without_index().upload_request().toggle(toggle);
        segment_builder.build()
    }

    /// The request frame that writes up to 4 bytes expedited (initiate
    /// download). More than 4 bytes cannot go expedited and are a
    /// programmer error.
    pub fn download_request_frame(&self, index: u16, subindex: u8, data: &[u8]) -> (r: CANOpenFrame)
        requires
            self.node_id <= 0x7F,
            data@.len() <= 4,
        ensures
            r.wf(),
            r@ == (CANOpenFrameView {
                node_id: self.node_id,
                frame_type: FrameType::SdoRx,
                is_rtr: false,
                payload: PayloadView::SdoWithIndex(
                    WithIndexPayload {
                        cs: CommandSpecifier::Ccs(ClientCommandSpecifier::InitiateDownload),
                        size: spec_size_for_len(data@.len()),
                        expedited_flag: true,
                        index,
                        subindex,
                        data: spec_u32_from_le_bytes(data@),
                    },
                ),
            }),
    {
        let builder = match CanOpenFrameBuilder::sdo_request(self.node_id) {
            Ok(b) => b,
            Err(_) => { unreached() },
        };
        builder.with_index(index, subindex).download(data).build()
    }

    /// Interpret a frame awaited as the response to an initiate-upload
    /// request for `(index, subindex)` into a buffer of `capacity` bytes.
    ///
    /// `Ok(None)` says the frame does not belong to this exchange and must
    /// be ignored. A matching abort response surfaces its abort code as
    /// `SdoAbortCode`. An expedited response yields the announced bytes. A
    /// segmented response yields the announced total, unless it exceeds
    /// `capacity`, which fails with `StringIsTooLong`.
    pub fn handle_upload_response(
        &self,
        index: u16,
        subindex: u8,
        capacity: usize,
        frame: &CANOpenFrame,
    ) -> (r: Result<Option<UploadOutcome>, CanOpenError>)
        ensures
            !spec_matches_response(frame@, self.node_id, index, subindex) ==> (r matches Ok(o)
                && o is None),
            spec_matches_response(frame@, self.node_id, index, subindex) ==> {
                let p = spec_with_index_of(frame@);
                if p.cs == CommandSpecifier::Scs(ServerCommandSpecifier::Abort) {
                    r == Err::<Option<UploadOutcome>, CanOpenError>(
                        CanOpenError::SdoAbortCode {
                            abort_code: spec_abort_code_from_u32(p.data),
                        },
                    )
                } else if p.expedited_flag {
                    r matches Ok(Some(UploadOutcome::Expedited(bytes))) && bytes@
                        == spec_expedited_bytes(p)
                } else if p.data <= capacity {
                    r == Ok::<Option<UploadOutcome>, CanOpenError>(
                        Some(UploadOutcome::Segmented(p.data as usize)),
                    )
                } else {
                    r == Err::<Option<UploadOutcome>, CanOpenError>(
                        CanOpenError::StringIsTooLong {
                            max_length: capacity,
                            given_length: p.data as usize,
                        },
                    )
                }
            },
    {
        if frame.node_id() != self.node_id || !matches!(frame.frame_type(), FrameType::SdoTx) {
            return Ok(None);
        }
        let payload = match &frame.payload {
            Payload::SdoWithIndex(p) => p,
            _ => { return Ok(None) },
        };
        if payload.index != index || payload.subindex != subindex {
            return Ok(None);
        }
        if matches!(payload.cs, CommandSpecifier::Scs(ServerCommandSpecifier::Abort)) {
            return Err(
                CanOpenError::SdoAbortCode { abort_code: SDOAbortCode::from_u32(payload.data) },
            );
        }
        if payload.expedited_flag {
            let len = extract_length(payload.size);
            let mut bytes: Vec<u8> = Vec::new();
            if len >= 1 {
                bytes.push((payload.data % 0x100) as u8);
            }
            if len >= 2 {
                bytes.push(((payload.data / 0x100) % 0x100) as u8);
            }
            if len >= 3 {
                bytes.push(((payload.data / 0x1_0000) % 0x100) as u8);
            }
            if len >= 4 {
                bytes.push((payload.data / 0x100_0000) as u8);
            }
            proof {
                assert(bytes@ =~= spec_expedited_bytes(spec_with_index_of(frame@)));
            }
            Ok(Some(UploadOutcome::Expedited(bytes)))
        } else {
            let total_u32 = payload.data;
            if total_u32 as u64 > capacity as u64 {
                return Err(
                    CanOpenError::StringIsTooLong {
                        max_length: capacity,
                        given_length: total_u32 as usize,
                    },
                );
            }
            Ok(Some(UploadOutcome::Segmented(total_u32 as usize)))
        }
    }

    /// Interpret a frame awaited as the response to a segment-upload
    /// request for `(index, subindex)`.
    ///
    /// `Ok(None)` says the frame does not belong to this exchange. A
    /// matching abort response surfaces its abort code. A segment frame
    /// from the right server yields its data bytes: 7 minus the announced
    /// count of empty bytes.
    pub fn handle_upload_segment_response(&self, index: u16, subindex: u8, frame: &CANOpenFrame) -> (r:
        Result<Option<Vec<u8>>, CanOpenError>)
        ensures
            frame@.node_id != self.node_id || !(frame@.frame_type is SdoTx) ==> (r matches Ok(o)
                && o is None),
            (frame@.node_id == self.node_id && frame@.frame_type is SdoTx) ==> match frame@.payload {
                PayloadView::SdoWithIndex(p) => if p.index == index && p.subindex == subindex
                    && p.cs == CommandSpecifier::Scs(ServerCommandSpecifier::Abort) {
                    r == Err::<Option<Vec<u8>>, CanOpenError>(
                        CanOpenError::SdoAbortCode {
                            abort_code: spec_abort_code_from_u32(p.data),
                        },
                    )
                } else {
                    r matches Ok(o) && o is None
                },
                PayloadView::SdoWithoutIndex(v) => {
                    let count = match v.length_of_empty_bytes {
                        Some(x) => (7 - (if x <= 7 {
                            x as int
                        } else {
                            7int
                        })) as nat,
                        None => 7nat,
                    };
                    r matches Ok(Some(bytes)) && bytes@ == v.data.take(count as int)
                },
                PayloadView::Unspecific(_) => r matches Ok(o) && o is None,
            },
    {
        if frame.node_id() != self.node_id || !matches!(frame.frame_type(), FrameType::SdoTx) {
            return Ok(None);
        }
        match &frame.payload {
            Payload::SdoWithIndex(payload) => {
                if payload.index == index && payload.subindex == subindex && matches!(
                    payload.cs,
                    CommandSpecifier::Scs(ServerCommandSpecifier::Abort),
                ) {
                    Err(
                        CanOpenError::SdoAbortCode {
                            abort_code: SDOAbortCode::from_u32(payload.data),
                        },
                    )
                } else {
                    Ok(None)
                }
            },
            Payload::SdoWithoutIndex(payload) => {
                let empty: u8 = match payload.length_of_empty_bytes {
                    Some(x) => if x <= 7 {
                        x
                    } else {
                        7
                    },
                    None => 0,
                };
                let count: usize = 7 - empty as usize;
                let mut bytes: Vec<u8> = Vec::new();
                let mut i: usize = 0;
                while i < count
                    invariant
                        count <= 7,
                        i <= count,
                        payload.data@.len() == 7,
                        bytes@ == payload.data@.take(i as int),
                    decreases count - i,
                {
                    bytes.push(payload.data[i]);
                    proof {
                        assert(bytes@ =~= payload.data@.take(i + 1 as int));
                    }
                    i += 1;
                }
                Ok(Some(bytes))
            },
            Payload::Unspecific(_) => Ok(None),
        }
    }

    /// Interpret a frame awaited as the response to an expedited download
    /// of `(index, subindex)`.
    ///
    /// `Ok(None)` says the frame does not belong to this exchange. A
    /// matching abort response surfaces its abort code; any other matching
    /// first-frame response acknowledges the write.
    pub fn handle_download_response(&self, index: u16, subindex: u8, frame: &CANOpenFrame) -> (r:
        Result<Option<()>, CanOpenError>)
        ensures
            !spec_matches_response(frame@, self.node_id, index, subindex) ==> (r matches Ok(o)
                && o is None),
            spec_matches_response(frame@, self.node_id, index, subindex) ==> {
                let p = spec_with_index_of(frame@);
                if p.cs == CommandSpecifier::Scs(ServerCommandSpecifier::Abort) {
                    r == Err::<Option<()>, CanOpenError>(
                        CanOpenError::SdoAbortCode {
                            abort_code: spec_abort_code_from_u32(p.data),
                        },
                    )
                } else {
                    r == Ok::<Option<()>, CanOpenError>(Some(()))
                }
            },
    {
        if frame.node_id() != self.node_id || !matches!(frame.frame_type(), FrameType::SdoTx) {
            return Ok(None);
        }
        let payload = match &frame.payload {
            Payload::SdoWithIndex(p) => p,
            _ => { return Ok(None) },
        };
        if payload.index != index || payload.subindex != subindex {
            return Ok(None);
        }
        if matches!(payload.cs, CommandSpecifier::Scs(ServerCommandSpecifier::Abort)) {
            return Err(
                CanOpenError::SdoAbortCode { abort_code: SDOAbortCode::from_u32(payload.data) },
            );
        }
        Ok(Some(()))
    }
}

} // verus!
