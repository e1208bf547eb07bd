//! Typed CANopen frames.
//!
//! A CANopen frame carries an 11-bit COB-ID that splits into a 4-bit function
//! code and a 7-bit node id, a remote-transmission flag, and up to 8 payload
//! bytes. This module classifies raw frames into typed frames and serialises
//! typed frames back to raw ones.

use vstd::prelude::*;

pub mod builder;
pub mod sdo;

verus! {

/// The function code of a CANopen frame: the upper 4 bits of the COB-ID.
///
/// The code 0b1101 and codes above 0b1110 are not assigned; frames carrying
/// them are rejected as invalid.
#[derive(Copy, Clone, Debug, Eq, PartialEq, Structural)]
pub enum FrameType {
    Nmt,
    SyncEmergency,
    Time,
    Tpdo1,
    Rpdo1,
    Tpdo2,
    Rpdo2,
    Tpdo3,
    Rpdo3,
    Tpdo4,
    Rpdo4,
    SdoTx,
    SdoRx,
    NmtErrorControl,
}

/// The 4-bit wire encoding of a function code.
pub open spec fn frame_type_bits(t: FrameType) -> u32 {
    match t {
        FrameType::Nmt => 0b0000,
        FrameType::SyncEmergency => 0b0001,
        FrameType::Time => 0b0010,
        FrameType::Tpdo1 => 0b0011,
        FrameType::Rpdo1 => 0b0100,
        FrameType::Tpdo2 => 0b0101,
        FrameType::Rpdo2 => 0b0110,
        FrameType::Tpdo3 => 0b0111,
        FrameType::Rpdo3 => 0b1000,
        FrameType::Tpdo4 => 0b1001,
        FrameType::Rpdo4 => 0b1010,
        FrameType::SdoTx => 0b1011,
        FrameType::SdoRx => 0b1100,
        FrameType::NmtErrorControl => 0b1110,
    }
}

/// The function code denoted by a 4-bit value, if any.
pub open spec fn spec_frame_type_of_bits(bits: u32) -> Option<FrameType> {
    if bits == 0b0000 {
        Some(FrameType::Nmt)
    } else if bits == 0b0001 {
        Some(FrameType::SyncEmergency)
    } else if bits == 0b0010 {
        Some(FrameType::Time)
    } else if bits == 0b0011 {
        Some(FrameType::Tpdo1)
    } else if bits == 0b0100 {
        Some(FrameType::Rpdo1)
    } else if bits == 0b0101 {
        Some(FrameType::Tpdo2)
    } else if bits == 0b0110 {
        Some(FrameType::Rpdo2)
    } else if bits == 0b0111 {
        Some(FrameType::Tpdo3)
    } else if bits == 0b1000 {
        Some(FrameType::Rpdo3)
    } else if bits == 0b1001 {
        Some(FrameType::Tpdo4)
    } else if bits == 0b1010 {
        Some(FrameType::Rpdo4)
    } else if bits == 0b1011 {
        Some(FrameType::SdoTx)
    } else if bits == 0b1100 {
        Some(FrameType::SdoRx)
    } else if bits == 0b1110 {
        Some(FrameType::NmtErrorControl)
    } else {
        None
    }
}

/// Splitting a COB-ID into its function code and node id succeeds exactly for
/// ids of at most 11 bits whose function code is assigned.
pub open spec fn spec_extract(cob_id: u32) -> Option<(FrameType, u8)> {
    if cob_id > 0x77F {
        None
    } else {
        match spec_frame_type_of_bits(cob_id / 128) {
            Some(t) => Some((t, (cob_id % 128) as u8)),
            None => None,
        }
    }
}

/// Split a COB-ID into its function code (upper 4 bits) and node id (lower
/// 7 bits).
///
/// Ids above 0x77F and ids whose function code is unassigned are rejected
/// with `InvalidCobId` carrying the offending id.
pub fn extract_frame_type_and_node_id(cob_id: u32) -> (r: Result<
    (FrameType, u8),
    crate::CanOpenError,
>)
    ensures
        r is Ok <==> spec_extract(cob_id) is Some,
        r matches Ok(p) ==> spec_extract(cob_id) == Some(p),
        r matches Err(e) ==> e == (crate::CanOpenError::InvalidCobId { cob_id }),
{
    if cob_id > 0x77F {
        return Err(crate::CanOpenError::InvalidCobId { cob_id });
    }
    let node_id: u8 = (cob_id % 128) as u8;
    let bits: u32 = cob_id / 128;
    let frame_type = if bits == 0b0000 {
        FrameType::Nmt
    } else if bits == 0b0001 {
        FrameType::SyncEmergency
    } else if bits == 0b0010 {
        FrameType::Time
    } else if bits == 0b0011 {
        FrameType::Tpdo1
    } else if bits == 0b0100 {
        FrameType::Rpdo1
    } else if bits == 0b0101 {
        FrameType::Tpdo2
    } else if bits == 0b0110 {
        FrameType::Rpdo2
    } else if bits == 0b0111 {
        FrameType::Tpdo3
    } else if bits == 0b1000 {
        FrameType::Rpdo3
    } else if bits == 0b1001 {
        FrameType::Tpdo4
    } else if bits == 0b1010 {
        FrameType::Rpdo4
    } else if bits == 0b1011 {
        FrameType::SdoTx
    } else if bits == 0b1100 {
        FrameType::SdoRx
    } else if bits == 0b1110 {
        FrameType::NmtErrorControl
    } else {
        return Err(crate::CanOpenError::InvalidCobId { cob_id });
    };
    Ok((frame_type, node_id))
}

} // verus!

verus! {

use crate::frame::sdo::CommandSpecifier;
use crate::frame::sdo::ServerCommandSpecifier;
use crate::frame::sdo::WithIndexPayload;
use crate::frame::sdo::WithoutIndexPayload;
use crate::frame::sdo::spec_with_index_bytes;
use crate::frame::sdo::spec_parse_with_index_server;
use crate::frame::sdo::spec_parse_with_index_client;
use crate::frame::sdo::spec_scs_of_byte;
use crate::frame::sdo::spec_ccs_of_byte;
use crate::frame::sdo::spec_length_of_empty_bytes;
use crate::frame::sdo::spec_segment_command_byte;
use crate::CanOpenError;

impl FrameType {
    /// The 4-bit wire encoding of this function code.
    pub fn bits(&self) -> (r: u32)
        ensures
            r == frame_type_bits(*self),
    {
        match self {
            FrameType::Nmt => 0b0000,
            FrameType::SyncEmergency => 0b0001,
            FrameType::Time => 0b0010,
            FrameType::Tpdo1 => 0b0011,
            FrameType::Rpdo1 => 0b0100,
            FrameType::Tpdo2 => 0b0101,
            FrameType::Rpdo2 => 0b0110,
            FrameType::Tpdo3 => 0b0111,
            FrameType::Rpdo3 => 0b1000,
            FrameType::Tpdo4 => 0b1001,
            FrameType::Rpdo4 => 0b1010,
            FrameType::SdoTx => 0b1011,
            FrameType::SdoRx => 0b1100,
            FrameType::NmtErrorControl => 0b1110,
        }
    }
}

/// A payload that carries plain bytes: up to 8 of them, padded with zero in
/// the fixed-width buffer.
#[derive(Debug, Clone, PartialEq)]
pub struct UnspecificPayload {
    pub length: usize,
    pub data: [u8; 8],
}

impl UnspecificPayload {
    /// The buffer holds at most 8 bytes and is zero beyond `length`.
    pub open spec fn wf(&self) -> bool {
        &&& self.length <= 8
        &&& forall|i: int| self.length <= i < 8 ==> self.data@[i] == 0
    }
}

impl View for UnspecificPayload {
    type V = Seq<u8>;

    open spec fn view(&self) -> Seq<u8> {
        self.data@.take(self.length as int)
    }
}

/// The payload of a typed CANopen frame.
#[derive(Debug, Clone, PartialEq)]
pub enum Payload {
    Unspecific(UnspecificPayload),
    SdoWithIndex(WithIndexPayload),
    SdoWithoutIndex(WithoutIndexPayload),
}

impl Payload {
    /// Byte counts fit their fields: at most 8 unspecific bytes, and an
    /// empty-byte count below 8.
    pub open spec fn wf(&self) -> bool {
        match self {
            Payload::Unspecific(u) => u.wf(),
            Payload::SdoWithIndex(_) => true,
            Payload::SdoWithoutIndex(p) => crate::frame::sdo::spec_without_index_wf(*p),
        }
    }
}

/// The mathematical shape of a segment payload: its fields with the data
/// bytes as a sequence.
#[verifier::ext_equal]
pub struct WithoutIndexView {
    pub cs: CommandSpecifier,
    pub toggle: bool,
    pub length_of_empty_bytes: Option<u8>,
    pub data: Seq<u8>,
}

/// The mathematical shape of a payload.
#[verifier::ext_equal]
pub enum PayloadView {
    Unspecific(Seq<u8>),
    SdoWithIndex(WithIndexPayload),
    SdoWithoutIndex(WithoutIndexView),
}

impl View for Payload {
    type V = PayloadView;

    open spec fn view(&self) -> PayloadView {
        match self {
            Payload::Unspecific(u) => PayloadView::Unspecific(u@),
            Payload::SdoWithIndex(p) => PayloadView::SdoWithIndex(*p),
            Payload::SdoWithoutIndex(p) => PayloadView::SdoWithoutIndex(
                WithoutIndexView {
                    cs: p.cs,
                    toggle: p.toggle,
                    length_of_empty_bytes: p.length_of_empty_bytes,
                    data: p.data@,
                },
            ),
        }
    }
}

/// A payload is well formed when its byte counts fit their fields.
pub open spec fn spec_payload_wf(p: PayloadView) -> bool {
    match p {
        PayloadView::Unspecific(d) => d.len() <= 8,
        PayloadView::SdoWithIndex(_) => true,
        PayloadView::SdoWithoutIndex(v) => {
            &&& v.data.len() == 7
            &&& v.length_of_empty_bytes matches Some(x) ==> x < 8
        },
    }
}

/// A typed CANopen frame: node id, function code, remote-transmission flag
/// and payload.
#[derive(Debug, Clone, PartialEq)]
pub struct CANOpenFrame {
    pub node_id: u8,
    pub frame_type: FrameType,
    pub is_rtr: bool,
    pub payload: Payload,
}

/// The mathematical shape of a typed frame.
#[verifier::ext_equal]
pub struct CANOpenFrameView {
    pub node_id: u8,
    pub frame_type: FrameType,
    pub is_rtr: bool,
    pub payload: PayloadView,
}

impl View for CANOpenFrame {
    type V = CANOpenFrameView;

    open spec fn view(&self) -> CANOpenFrameView {
        CANOpenFrameView {
            node_id: self.node_id,
            frame_type: self.frame_type,
            is_rtr: self.is_rtr,
            payload: self.payload@,
        }
    }
}

/// A frame is well formed when its node id fits 7 bits and its payload is
/// well formed.
pub open spec fn spec_frame_wf(f: CANOpenFrameView) -> bool {
    &&& f.node_id < 0x80
    &&& spec_payload_wf(f.payload)
}

impl CANOpenFrame {
    /// The node id fits 7 bits and the payload's byte counts fit their
    /// fields.
    pub open spec fn wf(&self) -> bool {
        &&& self.node_id < 0x80
        &&& self.payload.wf()
    }
}

/// The COB-ID of a frame: function code in the upper 4 bits, node id in the
/// lower 7.
pub open spec fn spec_cob_id(f: CANOpenFrameView) -> u32 {
    (frame_type_bits(f.frame_type) * 128 + f.node_id) as u32
}

/// The raw form of a frame as it goes on the bus: COB-ID, data bytes and the
/// remote-transmission flag.
#[derive(Debug, Clone, PartialEq)]
pub struct RawFrame {
    pub cob_id: u32,
    pub data: Vec<u8>,
    pub is_rtr: bool,
}

pub type CANOpenFrameResult = Result<CANOpenFrame, CanOpenError>;

/// The wire bytes of a payload.
pub open spec fn spec_serialize_payload(p: PayloadView) -> Seq<u8> {
    match p {
        PayloadView::Unspecific(d) => d,
        PayloadView::SdoWithIndex(wi) => spec_with_index_bytes(wi),
        PayloadView::SdoWithoutIndex(v) => seq![
            spec_segment_command_byte(v.cs, v.toggle, v.length_of_empty_bytes),
        ] + v.data,
    }
}

/// The payload denoted by the data bytes of a frame of the given function
/// code. SDO frames of exactly 8 bytes are parsed by their command byte,
/// first as a first-frame payload, then as a segment payload; everything
/// else is unspecific. Bytes beyond the 8-byte buffer never reach this
/// function.
pub open spec fn spec_parse_payload(t: FrameType, d: Seq<u8>) -> PayloadView
    recommends
        d.len() <= 8,
{
    if t is SdoTx && d.len() == 8 {
        match spec_parse_with_index_server(d) {
            Some(p) => PayloadView::SdoWithIndex(p),
            None => if spec_scs_of_byte(d[0]) is UploadSegment {
                PayloadView::SdoWithoutIndex(
                    WithoutIndexView {
                        cs: CommandSpecifier::Scs(ServerCommandSpecifier::UploadSegment),
                        toggle: d[0] & 0x10 == 0x10,
                        length_of_empty_bytes: spec_length_of_empty_bytes(d[0]),
                        data: d.subrange(1, 8),
                    },
                )
            } else {
                PayloadView::Unspecific(d)
            },
        }
    } else if t is SdoRx && d.len() == 8 {
        match spec_parse_with_index_client(d) {
            Some(p) => PayloadView::SdoWithIndex(p),
            None => if spec_ccs_of_byte(d[0]) is UploadSegment || spec_ccs_of_byte(
                d[0],
            ) is DownloadSegment {
                PayloadView::SdoWithoutIndex(
                    WithoutIndexView {
                        cs: CommandSpecifier::Ccs(spec_ccs_of_byte(d[0])),
                        toggle: d[0] & 0x10 == 0x10,
                        length_of_empty_bytes: spec_length_of_empty_bytes(d[0]),
                        data: d.subrange(1, 8),
                    },
                )
            } else {
                PayloadView::Unspecific(d)
            },
        }
    } else {
        PayloadView::Unspecific(d)
    }
}

/// The typed frame denoted by a raw frame. The COB-ID is split first; ids
/// that do not denote a function code fail with `InvalidCobId`, then more
/// than 8 data bytes fail with `InvalidDataLength`.
pub open spec fn spec_parse_frame(cob_id: u32, d: Seq<u8>, is_rtr: bool) -> Result<
    CANOpenFrameView,
    CanOpenError,
> {
    match spec_extract(cob_id) {
        None => Err(CanOpenError::InvalidCobId { cob_id }),
        Some((t, n)) => if d.len() > 8 {
            Err(CanOpenError::InvalidDataLength { length: d.len() as usize })
        } else {
            Ok(
                CANOpenFrameView {
                    node_id: n,
                    frame_type: t,
                    is_rtr: is_rtr,
                    payload: spec_parse_payload(t, d),
                },
            )
        },
    }
}

impl CANOpenFrame {
    /// The node id this frame addresses.
    pub fn node_id(&self) -> (r: u8)
        ensures
            r == self.node_id,
    {
        self.node_id
    }

    /// The function code of this frame.
    pub fn frame_type(&self) -> (r: FrameType)
        ensures
            r == self.frame_type,
    {
        self.frame_type
    }

    /// The COB-ID of this frame, rebuilt from function code and node id.
    pub fn cob_id(&self) -> (r: u32)
        ensures
            r == spec_cob_id(self@),
    {
        self.frame_type.bits() * 128 + self.node_id as u32
    }

    /// Classify a raw frame without remote-transmission flag.
    pub fn new(cob_id: u32, data: &[u8]) -> (r: CANOpenFrameResult)
        ensures
            r is Ok <==> spec_parse_frame(cob_id, data@, false) is Ok,
            r matches Ok(f) ==> Ok::<CANOpenFrameView, CanOpenError>(f@) == spec_parse_frame(
                cob_id,
                data@,
                false,
            ) && spec_frame_wf(f@) && f.wf(),
            r matches Err(e) ==> Err::<CANOpenFrameView, CanOpenError>(e) == spec_parse_frame(
                cob_id,
                data@,
                false,
            ),
    {
        Self::new_with_rtr(cob_id, data, false)
    }

    /// Classify a raw frame with the remote-transmission flag set.
    pub fn new_rtr(cob_id: u32, data: &[u8]) -> (r: CANOpenFrameResult)
        ensures
            r is Ok <==> spec_parse_frame(cob_id, data@, true) is Ok,
            r matches Ok(f) ==> Ok::<CANOpenFrameView, CanOpenError>(f@) == spec_parse_frame(
                cob_id,
                data@,
                true,
            ) && spec_frame_wf(f@) && f.wf(),
            r matches Err(e) ==> Err::<CANOpenFrameView, CanOpenError>(e) == spec_parse_frame(
                cob_id,
                data@,
                true,
            ),
    {
        Self::new_with_rtr(cob_id, data, true)
    }

    /// Classify a raw frame: split the COB-ID, check the data length, and
    /// parse SDO payloads by their command byte.
    pub fn new_with_rtr(cob_id: u32, data: &[u8], is_rtr: bool) -> (r: CANOpenFrameResult)
        ensures
            r is Ok <==> spec_parse_frame(cob_id, data@, is_rtr) is Ok,
            r matches Ok(f) ==> Ok::<CANOpenFrameView, CanOpenError>(f@) == spec_parse_frame(
                cob_id,
                data@,
                is_rtr,
            ) && spec_frame_wf(f@) && f.wf(),
            r matches Err(e) ==> Err::<CANOpenFrameView, CanOpenError>(e) == spec_parse_frame(
                cob_id,
                data@,
                is_rtr,
            ),
    {
        let (frame_type, node_id) = match extract_frame_type_and_node_id(cob_id) {
            Ok(p) => p,
            Err(e) => { return Err(e) },
        };
        let length = data.len();
        if length > 8 {
            return Err(CanOpenError::InvalidDataLength { length });
        }
        let mut buffer: [u8; 8] = [0, 0, 0, 0, 0, 0, 0, 0];
        let mut i: usize = 0;
        while i < length
            invariant
                length == data@.len() <= 8,
                i <= length,
                forall|j: int| 0 <= j < i ==> buffer@[j] == data@[j],
                forall|j: int| i <= j < 8 ==> buffer@[j] == 0,
            decreases length - i,
        {
            buffer[i] = data[i];
            i += 1;
        }
        let payload: Payload = match frame_type {
            FrameType::SdoTx => {
                if length != 8 {
                    Payload::Unspecific(UnspecificPayload { data: buffer, length })
                } else {
                    proof {
                        assert(buffer@ =~= data@);
                    }
                    match WithIndexPayload::parse_as_server_payload(buffer) {
                        Ok(p) => Payload::SdoWithIndex(p),
                        Err(_) => match WithoutIndexPayload::parse_as_server_payload(buffer) {
                            Ok(p) => Payload::SdoWithoutIndex(p),
                            Err(_) => Payload::Unspecific(
                                UnspecificPayload { data: buffer, length },
                            ),
                        },
                    }
                }
            },
            FrameType::SdoRx => {
                if length != 8 {
                    Payload::Unspecific(UnspecificPayload { data: buffer, length })
                } else {
                    proof {
                        assert(buffer@ =~= data@);
                    }
                    match WithIndexPayload::parse_as_client_payload(buffer) {
                        Ok(p) => Payload::SdoWithIndex(p),
                        Err(_) => match WithoutIndexPayload::parse_as_client_payload(buffer) {
                            Ok(p) => Payload::SdoWithoutIndex(p),
                            Err(_) => Payload::Unspecific(
                                UnspecificPayload { data: buffer, length },
                            ),
                        },
                    }
                }
            },
            _ => Payload::Unspecific(UnspecificPayload { data: buffer, length }),
        };
        let frame = CANOpenFrame { node_id, frame_type, is_rtr, payload };
        proof {
            assert(frame@.payload =~~= spec_parse_payload(frame_type, data@));
            assert(frame@ =~~= spec_parse_frame(cob_id, data@, is_rtr)->Ok_0);
        }
        Ok(frame)
    }

    /// Serialise this frame into its raw form.
    ///
    /// The raw frame's id equals this frame's COB-ID, its flag equals this
    /// frame's flag, and its data bytes are the payload's wire bytes.
    pub fn to_raw_frame(&self) -> (r: RawFrame)
        requires
            self.wf(),
        ensures
            r.cob_id == spec_cob_id(self@),
            r.is_rtr == self.is_rtr,
            r.data@ == spec_serialize_payload(self@.payload),
    {
        let data: Vec<u8> = match &self.payload {
            Payload::Unspecific(u) => {
                let mut v: Vec<u8> = Vec::new();
                let mut i: usize = 0;
                while i < u.length
                    invariant
                        u.length <= 8,
                        i <= u.length,
                        v@ == u.data@.take(i as int),
                    decreases u.length - i,
                {
                    v.push(u.data[i]);
                    proof {
                        assert(v@ =~= u.data@.take(i + 1 as int));
                    }
                    i += 1;
                }
                v
            },
            Payload::SdoWithIndex(p) => {
                let bytes = p.to_payload_data();
                let mut v: Vec<u8> = Vec::new();
                let mut i: usize = 0;
                while i < 8
                    invariant
                        i <= 8,
                        v@ == bytes@.take(i as int),
                    decreases 8 - i,
                {
                    v.push(bytes[i]);
                    proof {
                        assert(v@ =~= bytes@.take(i + 1 as int));
                    }
                    i += 1;
                }
                proof {
                    assert(v@ =~= bytes@);
                }
                v
            },
            Payload::SdoWithoutIndex(p) => {
                let bytes = p.to_payload_data();
                let mut v: Vec<u8> = Vec::new();
                let mut i: usize = 0;
                while i < 8
                    invariant
                        i <= 8,
                        v@ == bytes@.take(i as int),
                    decreases 8 - i,
                {
                    v.push(bytes[i]);
                    proof {
                        assert(v@ =~= bytes@.take(i + 1 as int));
                    }
                    i += 1;
                }
                proof {
                    assert(v@ =~= bytes@);
                    assert(bytes@ =~= spec_serialize_payload(self@.payload));
                }
                v
            },
        };
        RawFrame { cob_id: self.cob_id(), data, is_rtr: self.is_rtr }
    }
}

} // verus!

verus! {

/// Whether the first byte of an 8-byte SDO data field would be claimed by
/// one of the SDO payload parsers of the given direction.
pub open spec fn spec_sdo_claimable(t: FrameType, b: u8) -> bool
    recommends
        t is SdoTx || t is SdoRx,
{
    if t is SdoTx {
        crate::frame::sdo::spec_scs_with_index_accepted(spec_scs_of_byte(b))
    } else {
        ||| crate::frame::sdo::spec_ccs_with_index_accepted(spec_ccs_of_byte(b))
        ||| spec_ccs_of_byte(b) is UploadSegment
        ||| spec_ccs_of_byte(b) is DownloadSegment
    }
}

/// The typed frames whose raw serialisation decodes back to themselves.
///
/// The decoder reads SDO data fields by their command byte, trying the
/// first-frame shape before the segment shape, so:
///
/// - an unspecific payload survives unless it rides an SDO function code
///   with exactly 8 bytes whose first byte a payload parser claims;
/// - a first-frame payload survives when its command specifier matches its
///   direction and is accepted there;
/// - a segment payload survives only as a client download segment: every
///   other segment command byte is claimed by the first-frame parse.
pub open spec fn spec_frame_round_trippable(f: CANOpenFrameView) -> bool {
    match f.payload {
        PayloadView::Unspecific(d) => !((f.frame_type is SdoTx || f.frame_type is SdoRx) && d.len()
            == 8 && spec_sdo_claimable(f.frame_type, d[0])),
        PayloadView::SdoWithIndex(p) => {
            ||| (f.frame_type is SdoTx && (p.cs matches CommandSpecifier::Scs(s)
                && crate::frame::sdo::spec_scs_with_index_accepted(s)))
            ||| (f.frame_type is SdoRx && (p.cs matches CommandSpecifier::Ccs(c)
                && crate::frame::sdo::spec_ccs_with_index_accepted(c)))
        },
        PayloadView::SdoWithoutIndex(v) => f.frame_type is SdoRx && v.cs == CommandSpecifier::Ccs(
            crate::frame::sdo::ClientCommandSpecifier::DownloadSegment,
        ),
    }
}

/// The COB-ID of a well-formed frame splits back into its function code and
/// node id.
pub proof fn lemma_cob_id_round_trip(f: CANOpenFrameView)
    requires
        f.node_id < 0x80,
    ensures
        spec_extract(spec_cob_id(f)) == Some((f.frame_type, f.node_id)),
{
    let b = frame_type_bits(f.frame_type);
    let id = spec_cob_id(f);
    assert(id == b * 128 + f.node_id);
    assert(id / 128 == b && id % 128 == f.node_id) by (nonlinear_arith)
        requires
            id == b * 128 + f.node_id,
            0 <= b <= 14,
            0 <= f.node_id < 128,
    ;
}

/// Decoding the raw serialisation of a typed frame yields the frame again:
/// same node id, same function code, same remote-transmission flag, and the
/// same payload, whenever the frame is well formed and its payload shape is
/// one the decoder gives back (`spec_frame_round_trippable`).
pub proof fn lemma_frame_round_trip(f: CANOpenFrameView)
    requires
        spec_frame_wf(f),
        spec_frame_round_trippable(f),
    ensures
        spec_parse_frame(spec_cob_id(f), spec_serialize_payload(f.payload), f.is_rtr) == Ok::<
            CANOpenFrameView,
            CanOpenError,
        >(f),
{
    lemma_cob_id_round_trip(f);
    let d = spec_serialize_payload(f.payload);
    match f.payload {
        PayloadView::Unspecific(bytes) => {
            assert(spec_parse_payload(f.frame_type, d) =~~= f.payload);
        },
        PayloadView::SdoWithIndex(p) => {
            assert(d.len() == 8);
            if f.frame_type is SdoTx {
                crate::frame::sdo::lemma_with_index_server_round_trip(p);
            } else {
                crate::frame::sdo::lemma_with_index_client_round_trip(p);
            }
            assert(spec_parse_payload(f.frame_type, d) =~~= f.payload);
        },
        PayloadView::SdoWithoutIndex(v) => {
            assert(d =~= seq![
                spec_segment_command_byte(v.cs, v.toggle, v.length_of_empty_bytes),
            ] + v.data);
            assert(d.len() == 8);
            crate::frame::sdo::lemma_segment_command_byte_fields(
                v.cs,
                v.toggle,
                v.length_of_empty_bytes,
            );
            assert(d[0] == spec_segment_command_byte(v.cs, v.toggle, v.length_of_empty_bytes));
            assert(spec_ccs_of_byte(d[0]) is DownloadSegment);
            assert(spec_parse_with_index_client(d) is None);
            assert(d.subrange(1, 8) =~= v.data);
            assert(spec_parse_payload(f.frame_type, d) =~~= f.payload);
        },
    }
    assert(spec_parse_frame(spec_cob_id(f), d, f.is_rtr)->Ok_0 =~~= f);
}

} // verus!
