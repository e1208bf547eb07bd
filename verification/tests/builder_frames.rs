//! The frame builders, held against the wire bytes they must produce.

use col::frame::builder::CanOpenFrameBuilder;
use col::frame::sdo::SDOAbortCode;
use col::frame::CANOpenFrame;
use col::frame::FrameType;
use col::frame::Payload;
use col::CanOpenError;

#[test]
fn pdo_builder_ok() {
    let sut = CanOpenFrameBuilder::default();
    let _expected_builder = sut.pdo(0x1ef).unwrap();
}

#[test]
fn pdo_builder_rejects_non_pdo_cob_ids() {
    let sut = CanOpenFrameBuilder::default();
    match sut.pdo(0x17F) {
        Err(CanOpenError::InvalidCobId { cob_id }) => assert_eq!(0x17F, cob_id),
        _ => panic!("Not expected Error"),
    }
    match sut.pdo(0x600) {
        Err(CanOpenError::InvalidCobId { cob_id }) => assert_eq!(0x600, cob_id),
        _ => panic!("Not expected Error"),
    }
}

#[test]
fn pdo_with_rtr_round_trips() {
    let frame = CanOpenFrameBuilder::default()
        .set_rtr(true)
        .pdo(0x1EF)
        .unwrap()
        .payload(&[1, 2, 3])
        .unwrap()
        .build();
    let raw = frame.to_raw_frame();
    assert_eq!(0x1EF, raw.cob_id);
    assert_eq!(true, raw.is_rtr);
    assert_eq!(vec![1, 2, 3], raw.data);
    let decoded = CANOpenFrame::new_with_rtr(raw.cob_id, &raw.data, raw.is_rtr).unwrap();
    assert_eq!(FrameType::Tpdo1, decoded.frame_type());
    assert_eq!(0x6F, decoded.node_id());
}

#[test]
fn builder_sdo_abort_response() {
    let builder = CanOpenFrameBuilder::sdo_response(1)
        .unwrap()
        .with_index(0x1122, 0x33)
        .abort(SDOAbortCode::InvalidSequenceNumber);
    let expected = builder.build().to_raw_frame();
    assert_eq!(
        expected.data,
        [0x80, 0x22, 0x11, 0x33, 0x03, 0x00, 0x04, 0x05]
    );
    assert_eq!(expected.cob_id, 0x581);
    assert_eq!(expected.is_rtr, false);
}

#[test]
fn builder_sdo_download_one_byte() {
    let builder = CanOpenFrameBuilder::sdo_request(1)
        .unwrap()
        .with_index(0x1122, 0x33)
        .download_one_byte(0x44);
    let expected = builder.build().to_raw_frame();
    assert_eq!(
        expected.data,
        [0x2F, 0x22, 0x11, 0x33, 0x44, 0x00, 0x00, 0x00]
    );
    assert_eq!(expected.cob_id, 0x601);
    assert_eq!(expected.is_rtr, false);
}

#[test]
fn builder_sdo_download_two_bytes() {
    let builder = CanOpenFrameBuilder::sdo_request(1)
        .unwrap()
        .with_index(0x1122, 0x33)
        .download_two_bytes(0x5544);
    let expected = builder.build().to_raw_frame();
    assert_eq!(
        expected.data,
        [0x2B, 0x22, 0x11, 0x33, 0x44, 0x55, 0x00, 0x00]
    );
    assert_eq!(expected.cob_id, 0x601);
    assert_eq!(expected.is_rtr, false);
}

#[test]
fn builder_sdo_download_four_bytes() {
    let builder = CanOpenFrameBuilder::sdo_request(1)
        .unwrap()
        .with_index(0x1122, 0x33)
        .download_four_bytes(0x77665544);
    let expected = builder.build().to_raw_frame();
    assert_eq!(
        expected.data,
        [0x23, 0x22, 0x11, 0x33, 0x44, 0x55, 0x66, 0x77]
    );
    assert_eq!(expected.cob_id, 0x601);
    assert_eq!(expected.is_rtr, false);
}

#[test]
fn builder_sdo_upload_request() {
    let builder = CanOpenFrameBuilder::sdo_request(1)
        .unwrap()
        .with_index(0x1122, 0x33)
        .upload_request();
    let expected = builder.build().to_raw_frame();
    assert_eq!(
        expected.data,
        [0x40, 0x22, 0x11, 0x33, 0x00, 0x00, 0x00, 0x00]
    );
    assert_eq!(expected.cob_id, 0x601);
    assert_eq!(expected.is_rtr, false);
}

#[test]
fn builder_sdo_download_response() {
    let builder = CanOpenFrameBuilder::sdo_response(1)
        .unwrap()
        .with_index(0x1122, 0x33)
        .download_response();
    let expected = builder.build().to_raw_frame();
    assert_eq!(
        expected.data,
        [0x60, 0x22, 0x11, 0x33, 0x00, 0x00, 0x00, 0x00]
    );
    assert_eq!(expected.cob_id, 0x581);
    assert_eq!(expected.is_rtr, false);
}

#[test]
fn builder_sdo_upload_one_byte() {
    let builder = CanOpenFrameBuilder::sdo_response(1)
        .unwrap()
        .with_index(0x1122, 0x33)
        .upload_one_byte_expedited_response(0x44);
    let expected = builder.build().to_raw_frame();
    assert_eq!(
        expected.data,
        [0x4F, 0x22, 0x11, 0x33, 0x44, 0x00, 0x00, 0x00]
    );
    assert_eq!(expected.cob_id, 0x581);
    assert_eq!(expected.is_rtr, false);
}

#[test]
fn builder_sdo_upload_two_bytes() {
    let builder = CanOpenFrameBuilder::sdo_response(1)
        .unwrap()
        .with_index(0x1122, 0x33)
        .upload_two_bytes_response_expedited_response(0x5544);
    let expected = builder.build().to_raw_frame();
    assert_eq!(
        expected.data,
        [0x4B, 0x22, 0x11, 0x33, 0x44, 0x55, 0x00, 0x00]
    );
    assert_eq!(expected.cob_id, 0x581);
    assert_eq!(expected.is_rtr, false);
}

#[test]
fn builder_sdo_upload_three_bytes() {
    let builder = CanOpenFrameBuilder::sdo_response(1)
        .unwrap()
        .with_index(0x1122, 0x33)
        .upload_three_bytes_expedited_response(0x77665544);
    let expected = builder.build().to_raw_frame();
    assert_eq!(
        expected.data,
        [0x47, 0x22, 0x11, 0x33, 0x44, 0x55, 0x66, 0x00]
    );
    assert_eq!(expected.cob_id, 0x581);
    assert_eq!(expected.is_rtr, false);
}

#[test]
fn builder_sdo_upload_four_bytes() {
    let builder = CanOpenFrameBuilder::sdo_response(1)
        .unwrap()
        .with_index(0x1122, 0x33)
        .upload_four_bytes_expedited_response(0x77665544);
    let expected = builder.build().to_raw_frame();
    assert_eq!(
        expected.data,
        [0x43, 0x22, 0x11, 0x33, 0x44, 0x55, 0x66, 0x77]
    );
    assert_eq!(expected.cob_id, 0x581);
    assert_eq!(expected.is_rtr, false);
}

#[test]
fn builder_sdo_upload_segmented_response() {
    let builder = CanOpenFrameBuilder::sdo_response(1)
        .unwrap()
        .with_index(0x1122, 0x33)
        .upload_segmented_response(0x77665544);
    let expected = builder.build().to_raw_frame();
    assert_eq!(
        expected.data,
        [0x41, 0x22, 0x11, 0x33, 0x44, 0x55, 0x66, 0x77]
    );
    assert_eq!(expected.cob_id, 0x581);
    assert_eq!(expected.is_rtr, false);
}

#[test]
fn builder_sdo_upload() {
    let builder = CanOpenFrameBuilder::sdo_response(1)
        .unwrap()
        .with_index(0x1122, 0x33);
    {
        let builder = builder
            .clone()
            .upload_expedited_response(&[0x44, 0x55, 0x66, 0x77]);
        let expected = builder.build().to_raw_frame();
        assert_eq!(
            expected.data,
            [0x43, 0x22, 0x11, 0x33, 0x44, 0x55, 0x66, 0x77]
        );
        assert_eq!(expected.cob_id, 0x581);
        assert_eq!(expected.is_rtr, false);
    }
    {
        let builder = builder.clone().upload_expedited_response(&[0x44, 0x55, 0x66]);
        let expected = builder.build().to_raw_frame();
        assert_eq!(
            expected.data,
            [0x47, 0x22, 0x11, 0x33, 0x44, 0x55, 0x66, 0x00]
        );
    }
    {
        let builder = builder.clone().upload_expedited_response(&[0x44, 0x55]);
        let expected = builder.build().to_raw_frame();
        assert_eq!(
            expected.data,
            [0x4B, 0x22, 0x11, 0x33, 0x44, 0x55, 0x00, 0x00]
        );
    }
    {
        let builder = builder.clone().upload_expedited_response(&[0x44]);
        let expected = builder.build().to_raw_frame();
        assert_eq!(
            expected.data,
            [0x4F, 0x22, 0x11, 0x33, 0x44, 0x00, 0x00, 0x00]
        );
    }
    {
        let builder = builder.clone().upload_expedited_response(&[]);
        let expected = builder.build().to_raw_frame();
        assert_eq!(
            expected.data,
            [0x42, 0x22, 0x11, 0x33, 0x00, 0x00, 0x00, 0x00]
        );
    }
}

#[test]
fn builder_sdo_download() {
    let builder = CanOpenFrameBuilder::sdo_response(1)
        .unwrap()
        .with_index(0x1122, 0x33);
    {
        let builder = builder.clone().download(&[0x44, 0x55, 0x66, 0x77]);
        let expected = builder.build().to_raw_frame();
        assert_eq!(
            expected.data,
            [0x23, 0x22, 0x11, 0x33, 0x44, 0x55, 0x66, 0x77]
        );
        assert_eq!(expected.cob_id, 0x581);
        assert_eq!(expected.is_rtr, false);
    }
    {
        let builder = builder.clone().download(&[0x44, 0x55, 0x66]);
        let expected = builder.build().to_raw_frame();
        assert_eq!(
            expected.data,
            [0x27, 0x22, 0x11, 0x33, 0x44, 0x55, 0x66, 0x00]
        );
    }
    {
        let builder = builder.clone().download(&[0x44, 0x55]);
        let expected = builder.build().to_raw_frame();
        assert_eq!(
            expected.data,
            [0x2B, 0x22, 0x11, 0x33, 0x44, 0x55, 0x00, 0x00]
        );
    }
    {
        let builder = builder.clone().download(&[0x44]);
        let expected = builder.build().to_raw_frame();
        assert_eq!(
            expected.data,
            [0x2F, 0x22, 0x11, 0x33, 0x44, 0x00, 0x00, 0x00]
        );
    }
    {
        let builder = builder.clone().download(&[]);
        let expected = builder.build().to_raw_frame();
        assert_eq!(
            expected.data,
            [0x22, 0x22, 0x11, 0x33, 0x00, 0x00, 0x00, 0x00]
        );
    }
}

#[test]
fn builder_segmented_upload_request() {
    let mut builder = CanOpenFrameBuilder::sdo_request(1)
        .unwrap()
        .without_index()
        .upload_request();
    let expected = builder.build().to_raw_frame();
    assert_eq!(
        expected.data,
        [0b0110_0001, 0x00, 0x00, 0x00, 0x00, 0x00, 0x00, 0x00]
    );
    let expected = builder.build().to_raw_frame();
    assert_eq!(
        expected.data,
        [0b0111_0001, 0x00, 0x00, 0x00, 0x00, 0x00, 0x00, 0x00]
    );
    let expected = builder.build().to_raw_frame();
    assert_eq!(
        expected.data,
        [0b0110_0001, 0x00, 0x00, 0x00, 0x00, 0x00, 0x00, 0x00]
    );
    assert_eq!(expected.cob_id, 0x601);
    assert_eq!(expected.is_rtr, false);
}

#[test]
fn builder_segmented_upload_response() {
    let mut builder = CanOpenFrameBuilder::sdo_request(1)
        .unwrap()
        .without_index()
        .upload_response(&[0x01, 0x02, 0x03, 0x04, 0x05, 0x06, 0x07]);
    let expected = builder.build().to_raw_frame();
    assert_eq!(
        expected.data,
        [0b0000_0000, 0x01, 0x02, 0x03, 0x04, 0x05, 0x06, 0x07]
    );
    let mut builder =
        builder.upload_response(&[0x01, 0x02, 0x03, 0x04, 0x05, 0x06, 0x07, 0x08, 0x09]);
    let expected = builder.build().to_raw_frame();
    assert_eq!(
        expected.data,
        [0b0001_0000, 0x01, 0x02, 0x03, 0x04, 0x05, 0x06, 0x07]
    );
    let mut builder = builder.upload_response(&[0x01, 0x02, 0x03, 0x04]);
    let expected = builder.build().to_raw_frame();
    assert_eq!(
        expected.data,
        [0b0000_0111, 0x01, 0x02, 0x03, 0x04, 0x00, 0x00, 0x00]
    );
    assert_eq!(expected.cob_id, 0x601);
    assert_eq!(expected.is_rtr, false);
}

#[test]
fn expedited_one_byte_write_on_the_wire() {
    let request = CanOpenFrameBuilder::sdo_request(0x01)
        .unwrap()
        .with_index(0x1122, 0x33)
        .download_one_byte(0x44)
        .build()
        .to_raw_frame();
    assert_eq!(0x601, request.cob_id);
    assert_eq!(
        request.data,
        [0x2F, 0x22, 0x11, 0x33, 0x44, 0x00, 0x00, 0x00]
    );
    let response = CanOpenFrameBuilder::sdo_response(0x01)
        .unwrap()
        .with_index(0x1122, 0x33)
        .download_response()
        .build()
        .to_raw_frame();
    assert_eq!(0x581, response.cob_id);
    assert_eq!(
        response.data,
        [0x60, 0x22, 0x11, 0x33, 0x00, 0x00, 0x00, 0x00]
    );
}

#[test]
fn unspecific_payload_rejects_nine_bytes() {
    let r = CanOpenFrameBuilder::default()
        .pdo(0x1EF)
        .unwrap()
        .payload(&[0, 1, 2, 3, 4, 5, 6, 7, 8]);
    match r {
        Err(CanOpenError::InvalidDataLength { length }) => assert_eq!(9, length),
        _ => panic!("Not expected Error"),
    }
}

#[test]
fn built_sdo_frames_decode_to_their_payload() {
    let frame = CanOpenFrameBuilder::sdo_request(0x2A)
        .unwrap()
        .with_index(0x2000, 0x01)
        .download_two_bytes(0xBEEF)
        .build();
    let raw = frame.to_raw_frame();
    let decoded = CANOpenFrame::new(raw.cob_id, &raw.data).unwrap();
    assert_eq!(frame.payload, decoded.payload);
    assert!(matches!(decoded.payload, Payload::SdoWithIndex(_)));
}

#[test]
fn sdo_builders_reject_a_node_id_above_seven_bits() {
    match CanOpenFrameBuilder::sdo_request(0x80) {
        Err(CanOpenError::InvalidNodeId { node_id }) => assert_eq!(0x80, node_id),
        _ => panic!("Not expected Error"),
    }
    match CanOpenFrameBuilder::sdo_response(0xFF) {
        Err(CanOpenError::InvalidNodeId { node_id }) => assert_eq!(0xFF, node_id),
        _ => panic!("Not expected Error"),
    }
}
