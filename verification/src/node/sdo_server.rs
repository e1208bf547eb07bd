//! The SDO server: dispatches incoming SDO requests against an object
//! dictionary and formats responses or abort frames.
//!
//! The server is single-session: one segmented upload at a time. It never
//! touches a socket; the embedding application feeds it typed frames and
//! writes whatever frame it answers.

use vstd::prelude::*;

verus! {

use crate::frame::CANOpenFrame;
use crate::frame::CANOpenFrameView;
use crate::frame::FrameType;
use crate::frame::Payload;
use crate::frame::PayloadView;
use crate::frame::WithoutIndexView;
use crate::frame::builder::CanOpenFrameBuilder;
use crate::frame::sdo::ClientCommandSpecifier;
use crate::frame::sdo::CommandDataSize;
use crate::frame::sdo::CommandSpecifier;
use crate::frame::sdo::SDOAbortCode;
use crate::frame::sdo::ServerCommandSpecifier;
use crate::frame::sdo::WithIndexPayload;
use crate::frame::sdo::spec_abort_code_to_u32;
use crate::frame::sdo::builder::spec_size_for_len;
use crate::frame::sdo::builder::spec_u32_from_le_bytes;
use crate::node::object::StoredValueView;
use crate::node::object_dictionary::ObjectDictionary;
use crate::node::object_dictionary::spec_od_contains;
use crate::node::object_dictionary::spec_od_entry;
use crate::node::object_dictionary::spec_od_wf;
use crate::util::ValueVariant;
use crate::util::ValueView;
use crate::util::spec_to_le_bytes;
use crate::CanOpenError;

/// The state of one segmented transfer in flight.
#[derive(PartialEq, Eq, Structural, Debug, Clone, Copy)]
pub struct SdoSession {
    pub object_index: u16,
    pub object_subindex: u8,
    pub data_index: u32,
    pub data_size: u32,
    pub segment_number: u32,
    pub toggle_flag: bool,
    pub acknowledge_frame: u32,
}

impl Default for SdoSession {
    /// The idle session: all fields zero. A server whose session equals
    /// this value has no transfer in flight.
    fn default() -> (r: Self)
        ensures
            r == spec_idle_session(),
    {
        SdoSession {
            object_index: 0,
            object_subindex: 0,
            data_index: 0,
            data_size: 0,
            segment_number: 0,
            toggle_flag: false,
            acknowledge_frame: 0,
        }
    }
}

/// The idle session value.
pub open spec fn spec_idle_session() -> SdoSession {
    SdoSession {
        object_index: 0,
        object_subindex: 0,
        data_index: 0,
        data_size: 0,
        segment_number: 0,
        toggle_flag: false,
        acknowledge_frame: 0,
    }
}

/// A CANopen SDO server bound to one node id and one object dictionary.
pub struct SdoServer {
    pub node_id: u8,
    pub object_dictionary: ObjectDictionary,
    pub session: SdoSession,
}

/// Casting an expedited payload to the type of a stored value: the
/// announced size must equal the width of the stored type, and the payload
/// data is truncated to that width. Strings cannot arrive expedited.
pub open spec fn spec_cast_indexed_payload(
    stored: ValueView,
    size: CommandDataSize,
    data: u32,
) -> Option<ValueView> {
    match stored {
        ValueView::U8(_) => if size is OneByte {
            Some(ValueView::U8(data as u8))
        } else {
            None
        },
        ValueView::I8(_) => if size is OneByte {
            Some(ValueView::I8(data as i8))
        } else {
            None
        },
        ValueView::U16(_) => if size is TwoBytes {
            Some(ValueView::U16(data as u16))
        } else {
            None
        },
        ValueView::I16(_) => if size is TwoBytes {
            Some(ValueView::I16(data as i16))
        } else {
            None
        },
        ValueView::U32(_) => if size is FourBytes {
            Some(ValueView::U32(data))
        } else {
            None
        },
        ValueView::I32(_) => if size is FourBytes {
            Some(ValueView::I32(data as i32))
        } else {
            None
        },
        ValueView::F32(_) => if size is FourBytes {
            Some(ValueView::F32(data))
        } else {
            None
        },
        ValueView::S(_) => None,
    }
}

/// A marker for a payload whose size does not fit the addressed object.
pub struct IndexedPayloadError;

/// Cast the data of an expedited payload to the type of the stored value it
/// is meant to replace; fails when the announced size does not match the
/// stored type's width.
pub fn cast_indexed_payload_to_value_variant(
    object_value: &ValueVariant,
    payload: &WithIndexPayload,
) -> (r: Result<ValueVariant, IndexedPayloadError>)
    ensures
        r is Ok <==> spec_cast_indexed_payload(object_value@, payload.size, payload.data) is Some,
        r matches Ok(v) ==> Some(v@) == spec_cast_indexed_payload(
            object_value@,
            payload.size,
            payload.data,
        ),
{
    match object_value {
        ValueVariant::U8(_) => {
            if let CommandDataSize::OneByte = payload.size {
                Ok(ValueVariant::U8(payload.data as u8))
            } else {
                Err(IndexedPayloadError)
            }
        },
        ValueVariant::I8(_) => {
            if let CommandDataSize::OneByte = payload.size {
                Ok(ValueVariant::I8(payload.data as i8))
            } else {
                Err(IndexedPayloadError)
            }
        },
        ValueVariant::U16(_) => {
            if let CommandDataSize::TwoBytes = payload.size {
                Ok(ValueVariant::U16(payload.data as u16))
            } else {
                Err(IndexedPayloadError)
            }
        },
        ValueVariant::I16(_) => {
            if let CommandDataSize::TwoBytes = payload.size {
                Ok(ValueVariant::I16(payload.data as i16))
            } else {
                Err(IndexedPayloadError)
            }
        },
        ValueVariant::U32(_) => {
            if let CommandDataSize::FourBytes = payload.size {
                Ok(ValueVariant::U32(payload.data))
            } else {
                Err(IndexedPayloadError)
            }
        },
        ValueVariant::I32(_) => {
            if let CommandDataSize::FourBytes = payload.size {
                Ok(ValueVariant::I32(payload.data as i32))
            } else {
                Err(IndexedPayloadError)
            }
        },
        ValueVariant::F32(_) => {
            if let CommandDataSize::FourBytes = payload.size {
                Ok(ValueVariant::F32(payload.data))
            } else {
                Err(IndexedPayloadError)
            }
        },
        ValueVariant::S(_) => Err(IndexedPayloadError),
    }
}

/// The abort response payload for an entry address.
pub open spec fn spec_abort_payload(index: u16, subindex: u8, code: SDOAbortCode) ->
    WithIndexPayload {
    WithIndexPayload {
        cs: CommandSpecifier::Scs(ServerCommandSpecifier::Abort),
        size: CommandDataSize::NotSet,
        expedited_flag: false,
        index,
        subindex,
        data: spec_abort_code_to_u32(code),
    }
}

/// The response payload acknowledging an expedited download.
pub open spec fn spec_download_response_payload(index: u16, subindex: u8) -> WithIndexPayload {
    WithIndexPayload {
        cs: CommandSpecifier::Scs(ServerCommandSpecifier::InitiateDownload),
        size: CommandDataSize::NotSet,
        expedited_flag: false,
        index,
        subindex,
        data: 0,
    }
}

/// The expedited upload response payload returning a numeric value.
pub open spec fn spec_expedited_upload_payload(index: u16, subindex: u8, v: ValueView) ->
    WithIndexPayload {
    WithIndexPayload {
        cs: CommandSpecifier::Scs(ServerCommandSpecifier::InitiateUpload),
        size: spec_size_for_len(spec_to_le_bytes(v).len()),
        expedited_flag: true,
        index,
        subindex,
        data: spec_u32_from_le_bytes(spec_to_le_bytes(v)),
    }
}

/// The response payload initiating a segmented upload of `total` bytes.
pub open spec fn spec_segmented_initiate_payload(index: u16, subindex: u8, total: u32) ->
    WithIndexPayload {
    WithIndexPayload {
        cs: CommandSpecifier::Scs(ServerCommandSpecifier::InitiateUpload),
        size: CommandDataSize::FourBytes,
        expedited_flag: false,
        index,
        subindex,
        data: total,
    }
}

/// The server's response frame carrying a first-frame payload.
pub open spec fn spec_response_frame(node_id: u8, p: WithIndexPayload) -> CANOpenFrameView {
    CANOpenFrameView {
        node_id,
        frame_type: FrameType::SdoTx,
        is_rtr: false,
        payload: PayloadView::SdoWithIndex(p),
    }
}

impl SdoServer {
    /// The server is well formed: valid node id, well-formed dictionary,
    /// and any active session points at a string entry of the dictionary
    /// with progress inside its bounds.
    pub open spec fn wf(&self) -> bool {
        &&& self.node_id < 0x80
        &&& spec_od_wf(self.object_dictionary@)
        &&& self.session != spec_idle_session() ==> {
            let m = (self.session.object_index * 256 + self.session.object_subindex) as u32;
            &&& spec_od_contains(self.object_dictionary@, m)
            &&& spec_od_entry(self.object_dictionary@, m).value matches StoredValueView::Const(
                ValueView::S(bytes),
            ) && bytes.len() == self.session.data_size
            &&& !(spec_od_entry(self.object_dictionary@, m).privilege is WriteOnly)
            &&& self.session.data_index < self.session.data_size
            &&& self.session.segment_number <= self.session.data_index
        }
    }

    /// A new server for the given node and dictionary, with no transfer in
    /// flight. Node ids above 0x7F are a programmer error.
    pub fn new(node_id: u8, object_dictionary: ObjectDictionary) -> (r: Self)
        requires
            node_id <= 0x7F,
            spec_od_wf(object_dictionary@),
        ensures
            r.wf(),
            r.node_id == node_id,
            r.object_dictionary@ == object_dictionary@,
            r.session == spec_idle_session(),
    {
        SdoServer { node_id, object_dictionary, session: SdoSession::default() }
    }

    /// Build an abort response for the given entry address.
    fn abort_frame(&self, index: u16, subindex: u8, code: SDOAbortCode) -> (r: CANOpenFrame)
        requires
            self.node_id < 0x80,
        ensures
            r@ == spec_response_frame(self.node_id, spec_abort_payload(index, subindex, code)),
            r.wf(),
    {
        let builder = match CanOpenFrameBuilder::sdo_response(self.node_id) {
            Ok(b) => b,
            Err(_) => { unreached() },
        };
        builder.with_index(index, subindex).abort(code).build()
    }
}

} // verus!

verus! {

/// The reply payload to an expedited download request: each failure is an
/// abort naming its cause, success acknowledges the write.
///
/// A missing entry aborts with `ObjectDoesNotExist`, and so does a command
/// entry, whose stored type cannot be read. A payload whose announced size
/// does not fit the stored type aborts with `WrongLength`. An entry that
/// cannot be written (read-only access or constant storage) aborts with
/// `WriteReadOnlyError`.
pub open spec fn spec_initiate_download_reply(
    od: Seq<crate::node::object::CanOpenObjectView>,
    index: u16,
    subindex: u8,
    size: CommandDataSize,
    data: u32,
) -> WithIndexPayload {
    let m = (index * 256 + subindex) as u32;
    if !spec_od_contains(od, m) {
        spec_abort_payload(index, subindex, SDOAbortCode::ObjectDoesNotExist)
    } else {
        let entry = spec_od_entry(od, m);
        match entry.value {
            StoredValueView::NoStorage => spec_abort_payload(
                index,
                subindex,
                SDOAbortCode::ObjectDoesNotExist,
            ),
            StoredValueView::Const(v) => spec_download_cast_reply(entry, v, index, subindex, size, data),
            StoredValueView::Variable(v) => spec_download_cast_reply(entry, v, index, subindex, size, data),
            StoredValueView::Persistent(v) => spec_download_cast_reply(entry, v, index, subindex, size, data),
        }
    }
}

/// The tail of the download reply once the stored value is known.
pub open spec fn spec_download_cast_reply(
    entry: crate::node::object::CanOpenObjectView,
    stored: ValueView,
    index: u16,
    subindex: u8,
    size: CommandDataSize,
    data: u32,
) -> WithIndexPayload {
    match spec_cast_indexed_payload(stored, size, data) {
        Option::None => spec_abort_payload(index, subindex, SDOAbortCode::WrongLength),
        Option::Some(_) => if entry.privilege is ReadOnly || entry.value is Const {
            spec_abort_payload(index, subindex, SDOAbortCode::WriteReadOnlyError)
        } else {
            spec_download_response_payload(index, subindex)
        },
    }
}

/// Whether an expedited download request is accepted and stores its value.
pub open spec fn spec_initiate_download_accepted(
    od: Seq<crate::node::object::CanOpenObjectView>,
    index: u16,
    subindex: u8,
    size: CommandDataSize,
    data: u32,
) -> bool {
    spec_initiate_download_reply(od, index, subindex, size, data) == spec_download_response_payload(
        index,
        subindex,
    )
}

/// The value an accepted expedited download stores.
pub open spec fn spec_initiate_download_value(
    od: Seq<crate::node::object::CanOpenObjectView>,
    index: u16,
    subindex: u8,
    size: CommandDataSize,
    data: u32,
) -> ValueView {
    let entry = spec_od_entry(od, (index * 256 + subindex) as u32);
    let stored = match entry.value {
        StoredValueView::Const(v) => v,
        StoredValueView::Variable(v) => v,
        StoredValueView::Persistent(v) => v,
        StoredValueView::NoStorage => ValueView::U8(0),
    };
    spec_cast_indexed_payload(stored, size, data)->Some_0
}

/// The reply payload to an upload request.
///
/// A missing entry aborts with `ObjectDoesNotExist`; an entry that cannot
/// be read (write-only access or command storage) aborts with
/// `WriteReadOnlyError`. A numeric value is returned expedited. A string
/// value answers with the segmented initiation announcing its byte count
/// (a string too long for the 32-bit count aborts with `GeneralError`).
pub open spec fn spec_initiate_upload_reply(
    od: Seq<crate::node::object::CanOpenObjectView>,
    index: u16,
    subindex: u8,
) -> WithIndexPayload {
    let m = (index * 256 + subindex) as u32;
    if !spec_od_contains(od, m) {
        spec_abort_payload(index, subindex, SDOAbortCode::ObjectDoesNotExist)
    } else {
        let entry = spec_od_entry(od, m);
        if entry.privilege is WriteOnly || entry.value is NoStorage {
            spec_abort_payload(index, subindex, SDOAbortCode::WriteReadOnlyError)
        } else {
            let v = match entry.value {
                StoredValueView::Const(v) => v,
                StoredValueView::Variable(v) => v,
                StoredValueView::Persistent(v) => v,
                StoredValueView::NoStorage => ValueView::U8(0),
            };
            match v {
                ValueView::S(bytes) => if bytes.len() > 0xFFFF_FFFF {
                    spec_abort_payload(index, subindex, SDOAbortCode::GeneralError)
                } else {
                    spec_segmented_initiate_payload(index, subindex, bytes.len() as u32)
                },
                _ => spec_expedited_upload_payload(index, subindex, v),
            }
        }
    }
}

/// The session an upload request leaves behind: a fresh segmented session
/// for a non-empty string, the idle session otherwise.
pub open spec fn spec_session_after_initiate_upload(
    od: Seq<crate::node::object::CanOpenObjectView>,
    index: u16,
    subindex: u8,
) -> SdoSession {
    let m = (index * 256 + subindex) as u32;
    if spec_od_contains(od, m) && !(spec_od_entry(od, m).privilege is WriteOnly) && (spec_od_entry(
        od,
        m,
    ).value matches StoredValueView::Const(ValueView::S(bytes)) && 0 < bytes.len()
        <= 0xFFFF_FFFF) {
        SdoSession {
            object_index: index,
            object_subindex: subindex,
            data_index: 0,
            data_size: spec_od_string_len(od, m) as u32,
            segment_number: 0,
            toggle_flag: false,
            acknowledge_frame: 0,
        }
    } else {
        spec_idle_session()
    }
}

/// The byte count of the string stored at the given mapped index.
pub open spec fn spec_od_string_len(
    od: Seq<crate::node::object::CanOpenObjectView>,
    m: u32,
) -> nat {
    match spec_od_entry(od, m).value {
        StoredValueView::Const(ValueView::S(bytes)) => bytes.len(),
        _ => 0,
    }
}

/// The bytes of the string an active session is serving.
pub open spec fn spec_session_bytes(
    od: Seq<crate::node::object::CanOpenObjectView>,
    session: SdoSession,
) -> Seq<u8> {
    let m = (session.object_index * 256 + session.object_subindex) as u32;
    match spec_od_entry(od, m).value {
        StoredValueView::Const(ValueView::S(bytes)) => bytes,
        _ => seq![],
    }
}

/// The chunk the next segment of an active session carries: up to 7 bytes
/// from the current position.
pub open spec fn spec_session_chunk(
    od: Seq<crate::node::object::CanOpenObjectView>,
    session: SdoSession,
) -> Seq<u8> {
    let bytes = spec_session_bytes(od, session);
    let start = session.data_index as int;
    let end = if start + 7 <= bytes.len() {
        start + 7
    } else {
        bytes.len() as int
    };
    bytes.subrange(start, end)
}

/// The segment frame an active session answers with: the server's segment
/// command specifier, the session's toggle bit, and the chunk padded to 7
/// bytes with its empty-byte count.
pub open spec fn spec_segment_reply_frame(node_id: u8, chunk: Seq<u8>, toggle: bool) ->
    CANOpenFrameView {
    CANOpenFrameView {
        node_id,
        frame_type: FrameType::SdoTx,
        is_rtr: false,
        payload: PayloadView::SdoWithoutIndex(
            WithoutIndexView {
                cs: CommandSpecifier::Scs(ServerCommandSpecifier::UploadSegment),
                toggle,
                length_of_empty_bytes: if chunk.len() < 7 {
                    Some((7 - chunk.len()) as u8)
                } else {
                    Option::<u8>::None
                },
                data: Seq::<u8>::new(
                    7,
                    |i: int|
                        if i < chunk.len() {
                            chunk[i]
                        } else {
                            0u8
                        },
                ),
            },
        ),
    }
}

/// The session an active session becomes after serving one segment: idle
/// when the chunk reaches the end, otherwise advanced past the chunk with
/// the toggle bit flipped.
pub open spec fn spec_session_after_segment(
    od: Seq<crate::node::object::CanOpenObjectView>,
    session: SdoSession,
) -> SdoSession {
    let chunk = spec_session_chunk(od, session);
    if session.data_index + chunk.len() >= session.data_size {
        spec_idle_session()
    } else {
        SdoSession {
            data_index: (session.data_index + chunk.len()) as u32,
            segment_number: (session.segment_number + 1) as u32,
            toggle_flag: !session.toggle_flag,
            ..session
        }
    }
}

} // verus!

verus! {

impl SdoServer {
    /// Answer an expedited download request: look the entry up, cast the
    /// payload to its stored type, attempt the write, and acknowledge or
    /// abort. Any first-frame request also discards a segmented session in
    /// flight.
    fn initiate_download(&mut self, payload: &WithIndexPayload) -> (r: CANOpenFrame)
        requires
            old(self).wf(),
        ensures
            final(self).wf(),
            final(self).node_id == old(self).node_id,
            final(self).session == spec_idle_session(),
            r@ == spec_response_frame(
                old(self).node_id,
                spec_initiate_download_reply(
                    old(self).object_dictionary@,
                    payload.index,
                    payload.subindex,
                    payload.size,
                    payload.data,
                ),
            ),
            r.wf(),
            final(self).object_dictionary@ == if spec_initiate_download_accepted(
                old(self).object_dictionary@,
                payload.index,
                payload.subindex,
                payload.size,
                payload.data,
            ) {
                crate::node::object_dictionary::spec_od_after_write(
                    old(self).object_dictionary@,
                    (payload.index * 256 + payload.subindex) as u32,
                    spec_initiate_download_value(
                        old(self).object_dictionary@,
                        payload.index,
                        payload.subindex,
                        payload.size,
                        payload.data,
                    ),
                )
            } else {
                old(self).object_dictionary@
            },
    {
        let index = payload.index;
        let subindex = payload.subindex;
        self.session = SdoSession::default();
        let object = match self.object_dictionary.get_object_value(index, subindex) {
            Ok(object) => object,
            Err(_) => {
                return self.abort_frame(index, subindex, SDOAbortCode::ObjectDoesNotExist);
            },
        };
        let value = match cast_indexed_payload_to_value_variant(&object, payload) {
            Ok(value) => value,
            Err(_) => {
                return self.abort_frame(index, subindex, SDOAbortCode::WrongLength);
            },
        };
        match self.object_dictionary.download_expedited(index, subindex, value) {
            Ok(()) => {
                let builder = match CanOpenFrameBuilder::sdo_response(self.node_id) {
                    Ok(b) => b,
                    Err(_) => { unreached() },
                };
                builder.with_index(index, subindex).download_response().build()
            },
            Err(CanOpenError::CannotWriteToConstStorage) | Err(CanOpenError::WritingForbidden) => {
                self.abort_frame(index, subindex, SDOAbortCode::WriteReadOnlyError)
            },
            Err(_) => {
                proof {
                    // a cast value always carries the stored type tag, so the
                    // only errors a writable entry can raise are caught above
                    assert(crate::util::spec_same_tag(object@, value@));
                    assert(false);
                }
                self.abort_frame(index, subindex, SDOAbortCode::DictionaryError)
            },
        }
    }

    /// Answer an upload request: numeric values go back expedited, string
    /// values open a segmented session and announce their byte count.
    fn initiate_upload(&mut self, payload: &WithIndexPayload) -> (r: CANOpenFrame)
        requires
            old(self).wf(),
        ensures
            final(self).wf(),
            final(self).node_id == old(self).node_id,
            final(self).object_dictionary@ == old(self).object_dictionary@,
            r@ == spec_response_frame(
                old(self).node_id,
                spec_initiate_upload_reply(
                    old(self).object_dictionary@,
                    payload.index,
                    payload.subindex,
                ),
            ),
            r.wf(),
            final(self).session == spec_session_after_initiate_upload(
                old(self).object_dictionary@,
                payload.index,
                payload.subindex,
            ),
    {
        let index = payload.index;
        let subindex = payload.subindex;
        self.session = SdoSession::default();
        let value = match self.object_dictionary.upload(index, subindex) {
            Ok(value) => value,
            Err(CanOpenError::ObjectDoesNotExist { index: _, subindex: _ }) => {
                return self.abort_frame(index, subindex, SDOAbortCode::ObjectDoesNotExist);
            },
            Err(_) => {
                return self.abort_frame(index, subindex, SDOAbortCode::WriteReadOnlyError);
            },
        };
        match value {
            ValueVariant::S(bytes) => {
                if bytes.len() as u64 > 0xFFFF_FFFFu64 {
                    return self.abort_frame(index, subindex, SDOAbortCode::GeneralError);
                }
                let total: u32 = bytes.len() as u32;
                if total > 0 {
                    self.session = SdoSession {
                        object_index: index,
                        object_subindex: subindex,
                        data_index: 0,
                        data_size: total,
                        segment_number: 0,
                        toggle_flag: false,
                        acknowledge_frame: 0,
                    };
                }
                let builder = match CanOpenFrameBuilder::sdo_response(self.node_id) {
                    Ok(b) => b,
                    Err(_) => { unreached() },
                };
                builder.with_index(index, subindex).upload_segmented_response(total).build()
            },
            _ => {
                let data = value.to_little_endian_buffer();
                let builder = match CanOpenFrameBuilder::sdo_response(self.node_id) {
                    Ok(b) => b,
                    Err(_) => { unreached() },
                };
                builder.with_index(index, subindex).upload_expedited_response(
                    data.as_slice(),
                ).build()
            },
        }
    }

    /// Serve the next segment of the session in flight: up to 7 bytes of
    /// the string, under the session's toggle bit; the session advances, and
    /// ends with the last chunk. A segment request without a session in
    /// flight is aborted with `UnsupportedAccess`.
    fn process_segmented(&mut self, payload: &WithIndexPayload) -> (r: CANOpenFrame)
        requires
            old(self).wf(),
        ensures
            final(self).wf(),
            final(self).node_id == old(self).node_id,
            final(self).object_dictionary@ == old(self).object_dictionary@,
            old(self).session == spec_idle_session() ==> {
                &&& r@ == spec_response_frame(
                    old(self).node_id,
                    spec_abort_payload(
                        payload.index,
                        payload.subindex,
                        SDOAbortCode::UnsupportedAccess,
                    ),
                )
                &&& final(self).session == spec_idle_session()
            },
            old(self).session != spec_idle_session() ==> {
                &&& r@ == spec_segment_reply_frame(
                    old(self).node_id,
                    spec_session_chunk(old(self).object_dictionary@, old(self).session),
                    old(self).session.toggle_flag,
                )
                &&& final(self).session == spec_session_after_segment(
                    old(self).object_dictionary@,
                    old(self).session,
                )
            },
            r.wf(),
    {
        if self.session == SdoSession::default() {
            return self.abort_frame(payload.index, payload.subindex, SDOAbortCode::UnsupportedAccess);
        }
        let value = match self.object_dictionary.upload(
            self.session.object_index,
            self.session.object_subindex,
        ) {
            Ok(value) => value,
            Err(_) => { unreached() },
        };
        let bytes = match value {
            ValueVariant::S(bytes) => bytes,
            _ => { unreached() },
        };
        let start: usize = self.session.data_index as usize;
        let end: usize = if bytes.len() - start >= 7 {
            start + 7
        } else {
            bytes.len()
        };
        let mut chunk: Vec<u8> = Vec::new();
        let mut i: usize = start;
        while i < end
            invariant
                start <= i <= end <= bytes@.len(),
                chunk@ == bytes@.subrange(start as int, i as int),
            decreases end - i,
        {
            chunk.push(bytes[i]);
            proof {
                assert(chunk@ =~= bytes@.subrange(start as int, i + 1 as int));
            }
            i += 1;
        }
        let builder = match CanOpenFrameBuilder::sdo_response(self.node_id) {
            Ok(b) => b,
            Err(_) => { unreached() },
        };
        let mut segment_builder = builder.without_index().upload_response(chunk.as_slice()).toggle(
            self.session.toggle_flag,
        );
        let frame = segment_builder.build();
        if self.session.data_index as usize + chunk.len() >= self.session.data_size as usize {
            self.session = SdoSession::default();
        } else {
            self.session = SdoSession {
                data_index: self.session.data_index + chunk.len() as u32,
                segment_number: self.session.segment_number + 1,
                toggle_flag: !self.session.toggle_flag,
                ..self.session
            };
        }
        proof {
            assert(frame@.payload->SdoWithoutIndex_0.data =~= spec_segment_reply_frame(
                old(self).node_id,
                spec_session_chunk(old(self).object_dictionary@, old(self).session),
                old(self).session.toggle_flag,
            ).payload->SdoWithoutIndex_0.data);
            assert(frame@ =~~= spec_segment_reply_frame(
                old(self).node_id,
                spec_session_chunk(old(self).object_dictionary@, old(self).session),
                old(self).session.toggle_flag,
            ));
        }
        frame
    }
}

} // verus!

verus! {

impl SdoServer {
    /// Handle a segment payload arriving at the server. Segmented download
    /// is not implemented, and a segment carries no entry address to abort
    /// against, so there is never a response.
    pub fn process_frame_without_index(
        &self,
        payload: &crate::frame::sdo::WithoutIndexPayload,
    ) -> (r: Option<CANOpenFrame>)
        ensures
            r is None,
    {
        let _ = payload;
        None
    }

    /// Dispatch a first-frame request and compute the response.
    ///
    /// Expedited downloads and upload requests answer per their handlers;
    /// segment requests continue the session in flight. Download segments
    /// and block transfers are not implemented and abort with
    /// `UnsupportedAccess`; a server command specifier in a request aborts
    /// with `GeneralError`.
    pub fn process_frame_with_index(&mut self, payload: &WithIndexPayload) -> (r: Option<
        CANOpenFrame,
    >)
        requires
            old(self).wf(),
        ensures
            final(self).wf(),
            final(self).node_id == old(self).node_id,
            r matches Some(f) && f.wf() && spec_with_index_step(
                *old(self),
                *payload,
                *final(self),
                f@,
            ),
    {
        match payload.cs {
            CommandSpecifier::Ccs(ClientCommandSpecifier::InitiateDownload) => Some(
                self.initiate_download(payload),
            ),
            CommandSpecifier::Ccs(ClientCommandSpecifier::InitiateUpload) => Some(
                self.initiate_upload(payload),
            ),
            CommandSpecifier::Ccs(ClientCommandSpecifier::UploadSegment) => Some(
                self.process_segmented(payload),
            ),
            CommandSpecifier::Ccs(_) => Some(
                self.abort_frame(payload.index, payload.subindex, SDOAbortCode::UnsupportedAccess),
            ),
            CommandSpecifier::Scs(_) => Some(
                self.abort_frame(payload.index, payload.subindex, SDOAbortCode::GeneralError),
            ),
        }
    }

    /// Process one inbound frame: frames not addressed to this node, not of
    /// the request function code, or without an SDO payload are ignored;
    /// everything else is dispatched per `spec_with_index_step` and yields a
    /// response frame to write.
    pub fn process_frame(&mut self, frame: &CANOpenFrame) -> (r: Option<CANOpenFrame>)
        requires
            old(self).wf(),
        ensures
            final(self).wf(),
            final(self).node_id == old(self).node_id,
            !(frame.node_id == old(self).node_id && frame.frame_type is SdoRx
                && frame.payload is SdoWithIndex) ==> (r is None && *final(self) == *old(self)),
            (frame.node_id == old(self).node_id && frame.frame_type is SdoRx
                && frame.payload is SdoWithIndex) ==> (r matches Some(f) && f.wf()
                && spec_with_index_step(
                *old(self),
                frame.payload->SdoWithIndex_0,
                *final(self),
                f@,
            )),
    {
        if frame.node_id() == self.node_id && matches!(frame.frame_type(), FrameType::SdoRx) {
            match &frame.payload {
                Payload::SdoWithIndex(payload) => self.process_frame_with_index(payload),
                Payload::SdoWithoutIndex(payload) => self.process_frame_without_index(payload),
                Payload::Unspecific(_) => None,
            }
        } else {
            None
        }
    }
}

/// What one first-frame request does to the server, and which response it
/// draws: the dispatch table of the SDO server, command specifier by
/// command specifier.
pub open spec fn spec_with_index_step(
    pre: SdoServer,
    payload: WithIndexPayload,
    post: SdoServer,
    response: CANOpenFrameView,
) -> bool {
    match payload.cs {
        CommandSpecifier::Ccs(ClientCommandSpecifier::InitiateDownload) => {
            &&& response == spec_response_frame(
                pre.node_id,
                spec_initiate_download_reply(
                    pre.object_dictionary@,
                    payload.index,
                    payload.subindex,
                    payload.size,
                    payload.data,
                ),
            )
            &&& post.object_dictionary@ == (if spec_initiate_download_accepted(
                pre.object_dictionary@,
                payload.index,
                payload.subindex,
                payload.size,
                payload.data,
            ) {
                crate::node::object_dictionary::spec_od_after_write(
                    pre.object_dictionary@,
                    (payload.index * 256 + payload.subindex) as u32,
                    spec_initiate_download_value(
                        pre.object_dictionary@,
                        payload.index,
                        payload.subindex,
                        payload.size,
                        payload.data,
                    ),
                )
            } else {
                pre.object_dictionary@
            })
            &&& post.session == spec_idle_session()
        },
        CommandSpecifier::Ccs(ClientCommandSpecifier::InitiateUpload) => {
            &&& response == spec_response_frame(
                pre.node_id,
                spec_initiate_upload_reply(
                    pre.object_dictionary@,
                    payload.index,
                    payload.subindex,
                ),
            )
            &&& post.object_dictionary@ == pre.object_dictionary@
            &&& post.session == spec_session_after_initiate_upload(
                pre.object_dictionary@,
                payload.index,
                payload.subindex,
            )
        },
        CommandSpecifier::Ccs(ClientCommandSpecifier::UploadSegment) => {
            &&& post.object_dictionary@ == pre.object_dictionary@
            &&& pre.session == spec_idle_session() ==> (response == spec_response_frame(
                pre.node_id,
                spec_abort_payload(
                    payload.index,
                    payload.subindex,
                    SDOAbortCode::UnsupportedAccess,
                ),
            ) && post.session == spec_idle_session())
            &&& pre.session != spec_idle_session() ==> (response == spec_segment_reply_frame(
                pre.node_id,
                spec_session_chunk(pre.object_dictionary@, pre.session),
                pre.session.toggle_flag,
            ) && post.session == spec_session_after_segment(
                pre.object_dictionary@,
                pre.session,
            ))
        },
        CommandSpecifier::Ccs(_) => {
            &&& response == spec_response_frame(
                pre.node_id,
                spec_abort_payload(
                    payload.index,
                    payload.subindex,
                    SDOAbortCode::UnsupportedAccess,
                ),
            )
            &&& post.object_dictionary@ == pre.object_dictionary@
            &&& post.session == pre.session
        },
        CommandSpecifier::Scs(_) => {
            &&& response == spec_response_frame(
                pre.node_id,
                spec_abort_payload(payload.index, payload.subindex, SDOAbortCode::GeneralError),
            )
            &&& post.object_dictionary@ == pre.object_dictionary@
            &&& post.session == pre.session
        },
    }
}

} // verus!
