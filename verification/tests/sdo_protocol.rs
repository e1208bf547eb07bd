//! Client and server driving complete SDO exchanges over the frame codec.

use col::frame::CANOpenFrame;
use col::node::object::CanOpenObject;
use col::node::object_dictionary::ObjectDictionaryBuilder;
use col::node::sdo_server::SdoServer;
use col::sdo_client::SdoClient;
use col::sdo_client::UploadOutcome;
use col::util::ValueVariant;
use col::CanOpenError;
use col::frame::sdo::SDOAbortCode;

fn server_with(entry: CanOpenObject) -> SdoServer {
    let od = ObjectDictionaryBuilder::new(0x_ffff_0000, 0)
        .custom_entry(entry)
        .build(0x01);
    SdoServer::new(0x01, od)
}

fn feed(server: &mut SdoServer, cob_id: u32, data: &[u8]) -> CANOpenFrame {
    let request = CANOpenFrame::new(cob_id, data).unwrap();
    server.process_frame(&request).expect("a response is owed")
}

/// Carry a typed frame over the bus: serialise it and classify it again.
fn over_the_wire(frame: &CANOpenFrame) -> CANOpenFrame {
    let raw = frame.to_raw_frame();
    CANOpenFrame::new_with_rtr(raw.cob_id, &raw.data, raw.is_rtr).unwrap()
}

#[test]
fn expedited_one_byte_write() {
    let mut server = server_with(CanOpenObject::new_variable_object(
        0x1122,
        0x33,
        ValueVariant::U8(0),
    ));
    let response = feed(
        &mut server,
        0x601,
        &[0x2F, 0x22, 0x11, 0x33, 0x44, 0x00, 0x00, 0x00],
    );
    let raw = response.to_raw_frame();
    assert_eq!(0x581, raw.cob_id);
    assert_eq!(raw.data, [0x60, 0x22, 0x11, 0x33, 0x00, 0x00, 0x00, 0x00]);
    assert_eq!(
        ValueVariant::U8(0x44),
        server
            .object_dictionary
            .get_object_value(0x1122, 0x33)
            .unwrap()
    );
}

#[test]
fn expedited_four_byte_write_request_bytes() {
    let client = SdoClient::new(0x01);
    let raw = client
        .download_request_frame(0x1122, 0x33, &[0x44, 0x55, 0x66, 0x77])
        .to_raw_frame();
    assert_eq!(0x601, raw.cob_id);
    assert_eq!(raw.data, [0x23, 0x22, 0x11, 0x33, 0x44, 0x55, 0x66, 0x77]);
}

#[test]
fn upload_request_and_expedited_response() {
    let client = SdoClient::new(0x01);
    let raw = client.upload_request_frame(0x1122, 0x33).to_raw_frame();
    assert_eq!(0x601, raw.cob_id);
    assert_eq!(raw.data, [0x40, 0x22, 0x11, 0x33, 0x00, 0x00, 0x00, 0x00]);

    let mut server = server_with(CanOpenObject::new_variable_object(
        0x1122,
        0x33,
        ValueVariant::U16(0x5544),
    ));
    let response = feed(&mut server, 0x601, &raw.data);
    let raw_response = response.to_raw_frame();
    assert_eq!(0x581, raw_response.cob_id);
    assert_eq!(
        raw_response.data,
        [0x4B, 0x22, 0x11, 0x33, 0x44, 0x55, 0x00, 0x00]
    );

    match client
        .handle_upload_response(0x1122, 0x33, 80, &response)
        .unwrap()
    {
        Some(UploadOutcome::Expedited(bytes)) => assert_eq!(vec![0x44, 0x55], bytes),
        _ => panic!("expected an expedited outcome"),
    }
}

#[test]
fn abort_on_read_only_write() {
    // the device type at 0x1000,0x01 is constant; writing it is aborted
    let od = ObjectDictionaryBuilder::new(0x_ffff_0000, 0).build(0x01);
    let mut server = SdoServer::new(0x01, od);
    let response = feed(
        &mut server,
        0x601,
        &[0x23, 0x00, 0x10, 0x01, 0x01, 0x02, 0x03, 0x04],
    );
    let raw = response.to_raw_frame();
    assert_eq!(0x581, raw.cob_id);
    assert_eq!(raw.data, [0x80, 0x00, 0x10, 0x01, 0x02, 0x00, 0x01, 0x06]);
}

#[test]
fn abort_on_missing_object() {
    let od = ObjectDictionaryBuilder::new(0x_ffff_0000, 0).build(0x01);
    let mut server = SdoServer::new(0x01, od);
    let response = feed(
        &mut server,
        0x601,
        &[0x40, 0x00, 0x20, 0x01, 0x00, 0x00, 0x00, 0x00],
    );
    let raw = response.to_raw_frame();
    // abort code 0x06020000: the object does not exist
    assert_eq!(raw.data, [0x80, 0x00, 0x20, 0x01, 0x00, 0x00, 0x02, 0x06]);
}

#[test]
fn segmented_upload_of_a_nine_byte_string() {
    let text = b"ABCDEFGHI";
    let mut server = server_with(CanOpenObject::new_const_object(
        0x1122,
        0x33,
        ValueVariant::S(text.to_vec()),
    ));

    // initiation announces 9 bytes
    let response = feed(
        &mut server,
        0x601,
        &[0x40, 0x22, 0x11, 0x33, 0x00, 0x00, 0x00, 0x00],
    );
    let raw = response.to_raw_frame();
    assert_eq!(raw.data, [0x41, 0x22, 0x11, 0x33, 0x09, 0x00, 0x00, 0x00]);

    // first segment: toggle clear, 7 bytes
    let response = feed(
        &mut server,
        0x601,
        &[0x61, 0x00, 0x00, 0x00, 0x00, 0x00, 0x00, 0x00],
    );
    let raw = response.to_raw_frame();
    assert_eq!(
        raw.data,
        [0x00, b'A', b'B', b'C', b'D', b'E', b'F', b'G']
    );

    // second segment: toggle set, 2 bytes, 5 empty
    let response = feed(
        &mut server,
        0x601,
        &[0x71, 0x00, 0x00, 0x00, 0x00, 0x00, 0x00, 0x00],
    );
    let raw = response.to_raw_frame();
    assert_eq!(
        raw.data,
        [0x1B, b'H', b'I', 0x00, 0x00, 0x00, 0x00, 0x00]
    );
}

#[test]
fn client_reads_a_segmented_string_end_to_end() {
    let text = b"segmented";
    let mut server = server_with(CanOpenObject::new_const_object(
        0x1122,
        0x33,
        ValueVariant::S(text.to_vec()),
    ));
    let client = SdoClient::new(0x01);

    let request = over_the_wire(&client.upload_request_frame(0x1122, 0x33));
    let response = server.process_frame(&request).unwrap();
    let total = match client
        .handle_upload_response(0x1122, 0x33, 80, &response)
        .unwrap()
    {
        Some(UploadOutcome::Segmented(total)) => total,
        _ => panic!("expected a segmented outcome"),
    };
    assert_eq!(9, total);

    let mut collected: Vec<u8> = Vec::new();
    let mut toggle = false;
    while collected.len() < total {
        let request = over_the_wire(&client.upload_segment_request_frame(toggle));
        let response = server.process_frame(&request).unwrap();
        let chunk = client
            .handle_upload_segment_response(0x1122, 0x33, &response)
            .unwrap()
            .expect("a segment is owed");
        collected.extend_from_slice(&chunk);
        toggle = !toggle;
    }
    assert_eq!(text.to_vec(), collected);
}

#[test]
fn client_rejects_announcement_larger_than_its_buffer() {
    let mut server = server_with(CanOpenObject::new_const_object(
        0x1122,
        0x33,
        ValueVariant::S(b"ABCDEFGHI".to_vec()),
    ));
    let client = SdoClient::new(0x01);
    let request = client.upload_request_frame(0x1122, 0x33);
    let response = server.process_frame(&request).unwrap();
    match client.handle_upload_response(0x1122, 0x33, 4, &response) {
        Err(CanOpenError::StringIsTooLong {
            max_length,
            given_length,
        }) => {
            assert_eq!(4, max_length);
            assert_eq!(9, given_length);
        }
        _ => panic!("Not expected Error"),
    }
}

#[test]
fn client_surfaces_an_abort_response() {
    let od = ObjectDictionaryBuilder::new(0x_ffff_0000, 0).build(0x01);
    let mut server = SdoServer::new(0x01, od);
    let client = SdoClient::new(0x01);
    let request = client.upload_request_frame(0x2000, 0x01);
    let response = server.process_frame(&request).unwrap();
    match client.handle_upload_response(0x2000, 0x01, 80, &response) {
        Err(CanOpenError::SdoAbortCode { abort_code }) => {
            assert_eq!(SDOAbortCode::ObjectDoesNotExist, abort_code);
        }
        _ => panic!("Not expected Error"),
    }
}

#[test]
fn client_write_acknowledged_by_server() {
    let mut server = server_with(CanOpenObject::new_variable_object(
        0x1122,
        0x33,
        ValueVariant::U16(0),
    ));
    let client = SdoClient::new(0x01);
    let request = client.download_request_frame(0x1122, 0x33, &[0xEF, 0xBE]);
    let response = server.process_frame(&request).unwrap();
    assert_eq!(
        Some(()),
        client.handle_download_response(0x1122, 0x33, &response).unwrap()
    );
    assert_eq!(
        ValueVariant::U16(0xBEEF),
        server
            .object_dictionary
            .get_object_value(0x1122, 0x33)
            .unwrap()
    );
}

#[test]
fn frames_for_other_nodes_are_ignored() {
    let mut server = server_with(CanOpenObject::new_variable_object(
        0x1122,
        0x33,
        ValueVariant::U8(0),
    ));
    // same request, but addressed to node 0x02
    let request = CANOpenFrame::new(0x602, &[0x40, 0x22, 0x11, 0x33, 0, 0, 0, 0]).unwrap();
    assert!(server.process_frame(&request).is_none());

    let client = SdoClient::new(0x01);
    let foreign = CANOpenFrame::new(0x582, &[0x60, 0x22, 0x11, 0x33, 0, 0, 0, 0]).unwrap();
    assert_eq!(None, client.handle_download_response(0x1122, 0x33, &foreign).unwrap());
}

#[test]
fn unsupported_requests_are_aborted() {
    let mut server = server_with(CanOpenObject::new_variable_object(
        0x1122,
        0x33,
        ValueVariant::U8(0),
    ));
    // a block download initiation is not implemented
    let payload = col::frame::sdo::WithIndexPayload {
        cs: col::frame::sdo::CommandSpecifier::Ccs(
            col::frame::sdo::ClientCommandSpecifier::BlockDownload,
        ),
        size: col::frame::sdo::CommandDataSize::NotSet,
        expedited_flag: false,
        index: 0x1122,
        subindex: 0x33,
        data: 0,
    };
    let response = server.process_frame_with_index(&payload).unwrap();
    let raw = response.to_raw_frame();
    // abort code 0x06010000: unsupported access
    assert_eq!(raw.data, [0x80, 0x22, 0x11, 0x33, 0x00, 0x00, 0x01, 0x06]);
}
