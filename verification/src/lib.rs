//! A CANopen (CiA 301) node and client library core.
//!
//! The library covers three coupled subsystems:
//!
//! - the frame codec: a bidirectional mapping between raw 11-bit-identifier
//!   CAN frames and typed CANopen frames, including the SDO command byte
//!   bitfield and abort codes (`frame`);
//! - the SDO client and server protocol logic: expedited and segmented
//!   transfers over an abstract transport (`sdo_client`, `node`);
//! - the object dictionary: an ordered, access-controlled store of typed
//!   entries (`node`).
//!
//! Everything that touches a real CAN socket lives outside this crate; the
//! library computes frames and protocol decisions from plain values.

use vstd::prelude::*;

pub mod data_type;
pub mod frame;
pub mod node;
pub mod object_dictionary;
pub mod sdo;
pub mod sdo_client;
pub mod util;

verus! {

/// General errors of the CANopen library.
#[derive(Debug, Clone, PartialEq)]
pub enum CanOpenError {
    InvalidCobId { cob_id: u32 },
    InvalidNodeId { node_id: u8 },
    InvalidNumber { invalid_number: String },
    InvalidDataLength { length: usize },
    InvalidNumberType { number_type: String },
    BuilderError,
    SdoPayloadParseError,
    SdoPayloadNotImplementedYet,
    SdoProtocolTimedOut,
    SdoAbortCode { abort_code: crate::frame::sdo::SDOAbortCode },
    SocketInstanciatingError,
    SocketWriteError,
    StringIsTooLong { max_length: usize, given_length: usize },
    ObjectDoesNotExist { index: u16, subindex: u8 },
    Formatting,
    CannotWriteToConstStorage,
    WritingForbidden,
    ReadAccessImpossible,
    SharedOdAccessError,
}

} // verus!
