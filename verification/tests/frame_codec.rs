//! Classification of raw frames into typed CANopen frames, and back.

use col::frame::extract_frame_type_and_node_id;
use col::frame::CANOpenFrame;
use col::frame::FrameType;
use col::frame::Payload;
use col::frame::UnspecificPayload;
use col::frame::sdo::ClientCommandSpecifier;
use col::frame::sdo::CommandDataSize;
use col::frame::sdo::CommandSpecifier;
use col::frame::sdo::ServerCommandSpecifier;
use col::frame::sdo::WithIndexPayload;
use col::CanOpenError;

#[test]
fn extract_frame_type_and_node_id_ok_return() {
    assert_eq!(
        (FrameType::SdoRx, 0x01),
        extract_frame_type_and_node_id(0x601).unwrap()
    );
    assert_eq!(
        (FrameType::SdoTx, 0x01),
        extract_frame_type_and_node_id(0x581).unwrap()
    );
}

#[test]
fn extract_frame_type_and_node_id_error_return() {
    let e = extract_frame_type_and_node_id(0xffff).unwrap_err();
    if let CanOpenError::InvalidCobId { cob_id } = e {
        assert_eq!(cob_id, 0xffff);
    } else {
        panic!("Not expected Error");
    }
}

#[test]
fn convert_can_frame_into_can_open_frame_pdo() {
    let can_open_frame = CANOpenFrame::new_with_rtr(0x1ef, &[0x01, 0x02, 0x03], true).unwrap();
    assert_eq!(FrameType::Tpdo1, can_open_frame.frame_type());
    assert_eq!(0x6f, can_open_frame.node_id());
    assert_eq!(true, can_open_frame.is_rtr);
    assert_eq!(
        Payload::Unspecific(UnspecificPayload {
            data: [01_u8, 2, 3, 0, 0, 0, 0, 0],
            length: 3
        }),
        can_open_frame.payload
    );
}

#[test]
fn convert_can_frame_into_sdo_with_index() {
    let can_open_frame = CANOpenFrame::new(
        0x601,
        &[0x2F, 0x01, 0x02, 0x03, 0x04, 0x05, 0x06, 0x07],
    )
    .unwrap();
    assert_eq!(FrameType::SdoRx, can_open_frame.frame_type());
    assert_eq!(0x1, can_open_frame.node_id());
    assert_eq!(false, can_open_frame.is_rtr);
    assert_eq!(
        Payload::SdoWithIndex(WithIndexPayload {
            cs: CommandSpecifier::Ccs(ClientCommandSpecifier::InitiateDownload),
            size: CommandDataSize::OneByte,
            expedited_flag: true,
            index: 0x0201,
            subindex: 0x03,
            data: 0x07060504,
        }),
        can_open_frame.payload
    );
}

#[test]
fn convert_can_frame_into_sdo_abort() {
    let can_open_frame = CANOpenFrame::new(
        0x581,
        &[0x80, 0x01, 0x02, 0x03, 0x04, 0x05, 0x06, 0x07],
    )
    .unwrap();
    assert_eq!(FrameType::SdoTx, can_open_frame.frame_type());
    assert_eq!(0x1, can_open_frame.node_id());
    assert_eq!(false, can_open_frame.is_rtr);
    assert_eq!(
        Payload::SdoWithIndex(WithIndexPayload {
            cs: CommandSpecifier::Scs(ServerCommandSpecifier::Abort),
            size: CommandDataSize::NotSet,
            expedited_flag: false,
            index: 0x0201,
            subindex: 0x03,
            data: 0x07060504,
        }),
        can_open_frame.payload
    );
}

#[test]
fn reserved_function_code_is_invalid() {
    let e = extract_frame_type_and_node_id(0x780).unwrap_err();
    if let CanOpenError::InvalidCobId { cob_id } = e {
        assert_eq!(cob_id, 0x780);
    } else {
        panic!("Not expected Error");
    }
    assert!(CANOpenFrame::new(0x780, &[0x00]).is_err());
}

#[test]
fn nine_data_bytes_are_invalid() {
    let e = CANOpenFrame::new(0x181, &[0, 1, 2, 3, 4, 5, 6, 7, 8]).unwrap_err();
    if let CanOpenError::InvalidDataLength { length } = e {
        assert_eq!(length, 9);
    } else {
        panic!("Not expected Error");
    }
}

#[test]
fn cob_id_of_typed_frame_equals_raw_id() {
    let frame = CANOpenFrame::new_with_rtr(0x1ef, &[0x01, 0x02, 0x03], true).unwrap();
    assert_eq!(0x1ef, frame.cob_id());
    let raw = frame.to_raw_frame();
    assert_eq!(0x1ef, raw.cob_id);
    assert_eq!(true, raw.is_rtr);
    assert_eq!(vec![0x01, 0x02, 0x03], raw.data);
}

#[test]
fn decode_of_encoded_sdo_frame_is_identity() {
    let bytes = [0x2F, 0x22, 0x11, 0x33, 0x44, 0x00, 0x00, 0x00];
    let frame = CANOpenFrame::new(0x601, &bytes).unwrap();
    let raw = frame.to_raw_frame();
    assert_eq!(0x601, raw.cob_id);
    assert_eq!(bytes.to_vec(), raw.data);
    let again = CANOpenFrame::new(raw.cob_id, &raw.data).unwrap();
    assert_eq!(frame, again);
}
