//! Fluent construction of CANopen frames.
//!
//! The entry points pick the frame family: `pdo` for process data,
//! `sdo_request` for client-to-server frames and `sdo_response` for
//! server-to-client frames; the SDO families continue in
//! [`crate::frame::sdo::builder`].

use vstd::prelude::*;

verus! {

use crate::frame::CANOpenFrame;
use crate::frame::FrameType;
use crate::frame::Payload;
use crate::frame::PayloadView;
use crate::frame::UnspecificPayload;
use crate::frame::extract_frame_type_and_node_id;
use crate::frame::spec_extract;
use crate::frame::sdo::builder::SdoFrameBuilder;
use crate::CanOpenError;

/// Whether a function code belongs to one of the four transmit or four
/// receive process data objects.
pub open spec fn spec_is_pdo(t: FrameType) -> bool {
    ||| t is Tpdo1
    ||| t is Tpdo2
    ||| t is Tpdo3
    ||| t is Tpdo4
    ||| t is Rpdo1
    ||| t is Rpdo2
    ||| t is Rpdo3
    ||| t is Rpdo4
}

/// The root frame builder; it only carries the remote-transmission flag.
#[derive(Clone, Copy)]
pub struct CanOpenFrameBuilder {
    pub is_rtr: bool,
}

impl Default for CanOpenFrameBuilder {
    /// A fresh builder with the remote-transmission flag cleared.
    fn default() -> (r: Self)
        ensures
            r.is_rtr == false,
    {
        CanOpenFrameBuilder { is_rtr: false }
    }
}

impl CanOpenFrameBuilder {
    /// Start an SDO request frame (client to server, SdoRx) addressed to the
    /// given node. Node ids above 0x7F are rejected with `InvalidNodeId`.
    pub fn sdo_request(node_id: u8) -> (r: Result<SdoFrameBuilder, CanOpenError>)
        ensures
            r is Ok <==> node_id <= 0x7F,
            r matches Ok(b) ==> b.node_id == node_id && b.frame_type is SdoRx,
            r matches Err(e) ==> e == (CanOpenError::InvalidNodeId { node_id }),
    {
        if node_id > 0x7F {
            return Err(CanOpenError::InvalidNodeId { node_id });
        }
        Ok(SdoFrameBuilder { node_id, frame_type: FrameType::SdoRx })
    }

    /// Start an SDO response frame (server to client, SdoTx) addressed to
    /// the given node. Node ids above 0x7F are rejected with
    /// `InvalidNodeId`.
    pub fn sdo_response(node_id: u8) -> (r: Result<SdoFrameBuilder, CanOpenError>)
        ensures
            r is Ok <==> node_id <= 0x7F,
            r matches Ok(b) ==> b.node_id == node_id && b.frame_type is SdoTx,
            r matches Err(e) ==> e == (CanOpenError::InvalidNodeId { node_id }),
    {
        if node_id > 0x7F {
            return Err(CanOpenError::InvalidNodeId { node_id });
        }
        Ok(SdoFrameBuilder { node_id, frame_type: FrameType::SdoTx })
    }

    /// Start a PDO frame for the given COB-ID.
    ///
    /// The id is accepted exactly when its function code is one of the eight
    /// PDO codes; anything else is rejected with `InvalidCobId`.
    pub fn pdo(self, cob_id: u32) -> (r: Result<UnspecificPayloadBuilder, CanOpenError>)
        ensures
            r is Ok <==> (spec_extract(cob_id) matches Some(p) && spec_is_pdo(p.0)),
            r matches Ok(b) ==> {
                &&& Some((b.frame_type, b.node_id)) == spec_extract(cob_id)
                &&& b.is_rtr == self.is_rtr
                &&& b.length == 0
                &&& b.data@ =~= Seq::<u8>::new(8, |i: int| 0u8)
            },
            r matches Err(e) ==> e == (CanOpenError::InvalidCobId { cob_id }),
    {
        let (frame_type, node_id) = match extract_frame_type_and_node_id(cob_id) {
            Ok(p) => p,
            Err(e) => { return Err(e) },
        };
        match frame_type {
            FrameType::Tpdo1
            | FrameType::Tpdo2
            | FrameType::Tpdo3
            | FrameType::Tpdo4
            | FrameType::Rpdo1
            | FrameType::Rpdo2
            | FrameType::Rpdo3
            | FrameType::Rpdo4 => {},
            _ => { return Err(CanOpenError::InvalidCobId { cob_id }) },
        }
        let b = UnspecificPayloadBuilder {
            frame_type,
            node_id,
            is_rtr: self.is_rtr,
            length: 0,
            data: [0, 0, 0, 0, 0, 0, 0, 0],
        };
        proof {
            assert(b.data@ =~= Seq::<u8>::new(8, |i: int| 0u8));
        }
        Ok(b)
    }

    /// Set the remote-transmission flag of the frame being built.
    pub fn set_rtr(self, rtr_flag: bool) -> (r: Self)
        ensures
            r.is_rtr == rtr_flag,
    {
        CanOpenFrameBuilder { is_rtr: rtr_flag }
    }
}

/// Builder of frames that carry plain bytes (PDOs).
#[derive(Clone, Copy)]
pub struct UnspecificPayloadBuilder {
    pub node_id: u8,
    pub frame_type: FrameType,
    pub is_rtr: bool,
    pub length: usize,
    pub data: [u8; 8],
}

impl UnspecificPayloadBuilder {
    /// The node id fits 7 bits and the stored bytes fit the frame.
    pub open spec fn wf(&self) -> bool {
        &&& self.node_id < 0x80
        &&& self.length <= 8
        &&& forall|i: int| self.length <= i < 8 ==> self.data@[i] == 0
    }

    /// Set the payload bytes. Up to 8 bytes are accepted; more are rejected
    /// with `InvalidDataLength` carrying the offending length.
    pub fn payload(self, data: &[u8]) -> (r: Result<Self, CanOpenError>)
        ensures
            r is Ok <==> data@.len() <= 8,
            r matches Ok(b) ==> {
                &&& b.node_id == self.node_id
                &&& b.frame_type == self.frame_type
                &&& b.is_rtr == self.is_rtr
                &&& b.length == data@.len()
                &&& b.data@.take(data@.len() as int) =~= data@
                &&& forall|i: int| data@.len() <= i < 8 ==> b.data@[i] == 0
            },
            r matches Err(e) ==> e == (CanOpenError::InvalidDataLength { length: data@.len() as usize }),
    {
        let length = data.len();
        if length > 8 {
            return Err(CanOpenError::InvalidDataLength { length });
        }
        let mut buffer: [u8; 8] = [0, 0, 0, 0, 0, 0, 0, 0];
        let mut i: usize = 0;
        while i < length
            invariant
                length == data@.len() <= 8,
                i <= length,
                forall|j: int| 0 <= j < i ==> buffer@[j] == data@[j],
                forall|j: int| i <= j < 8 ==> buffer@[j] == 0,
            decreases length - i,
        {
            buffer[i] = data[i];
            i += 1;
        }
        proof {
            assert(buffer@.take(length as int) =~= data@);
        }
        Ok(
            UnspecificPayloadBuilder {
                node_id: self.node_id,
                frame_type: self.frame_type,
                is_rtr: self.is_rtr,
                length,
                data: buffer,
            },
        )
    }

    /// Build the CANopen frame.
    pub fn build(&self) -> (r: CANOpenFrame)
        requires
            self.wf(),
        ensures
            r.wf(),
            r.node_id == self.node_id,
            r.frame_type == self.frame_type,
            r.is_rtr == self.is_rtr,
            r@.payload == PayloadView::Unspecific(self.data@.take(self.length as int)),
    {
        CANOpenFrame {
            node_id: self.node_id,
            frame_type: self.frame_type,
            is_rtr: self.is_rtr,
            payload: Payload::Unspecific(
                UnspecificPayload { length: self.length, data: self.data },
            ),
        }
    }
}

} // verus!
