//! The harmonised SDO frame views and the flat server response.

use col::frame::CANOpenFrame;
use col::sdo::SdoFrame;
use col::sdo::SDOClient;
use col::sdo::SDOResult;
use col::sdo::SDOServerResponse;
use col::data_type::DataType;
use col::object_dictionary::default_callback;
use col::object_dictionary::StorageType;
use col::util::ValueVariant;

#[test]
fn server_response_parse() {
    let frame = CANOpenFrame::new(0x581, &[0x60, 0x22, 0x11, 0x33, 0, 0, 0, 0]).unwrap();
    let resp = SDOServerResponse::parse(&frame).unwrap();
    assert_eq!(SDOResult::Success, resp.result);
    assert_eq!(0x1122, resp.index);
    assert_eq!(0x33, resp.subindex);
    assert_eq!(0, resp.data);

    let frame = CANOpenFrame::new(0x581, &[0x80, 0x22, 0x11, 0x33, 0x02, 0x00, 0x01, 0x06]).unwrap();
    let resp = SDOServerResponse::parse(&frame).unwrap();
    assert_eq!(SDOResult::Failure, resp.result);
    assert_eq!(0x0601_0002, resp.data);

    let pdo = CANOpenFrame::new(0x1EF, &[1, 2, 3]).unwrap();
    assert!(SDOServerResponse::parse(&pdo).is_err());
}

#[test]
fn sdo_frame_parse() {
    let frame = CANOpenFrame::new(0x601, &[0x2F, 0x22, 0x11, 0x33, 0x44, 0, 0, 0]).unwrap();
    match SdoFrame::parse(&frame).unwrap() {
        SdoFrame::Expedited(e) => {
            assert_eq!(col::sdo::CommandSpecifier::InitiateDownload, e.cs);
            assert_eq!(0x1122, e.index);
            assert_eq!(0x33, e.subindex);
            assert_eq!(0x44, e.data);
        }
        SdoFrame::Segmented(_) => panic!("expected an expedited frame"),
    }
    let frame = CANOpenFrame::new(0x601, &[0x00, 9, 8, 7, 6, 5, 4, 3]).unwrap();
    match SdoFrame::parse(&frame).unwrap() {
        SdoFrame::Segmented(g) => {
            assert_eq!(col::sdo::CommandSpecifier::Download, g.cs);
            assert_eq!(false, g.toggle);
            assert_eq!(None, g.length_of_empty_bytes);
            assert_eq!([9, 8, 7, 6, 5, 4, 3], g.data);
        }
        SdoFrame::Expedited(_) => panic!("expected a segment frame"),
    }
}

#[test]
fn sdo_client_record() {
    let mut client = SDOClient::new(0x20);
    assert_eq!(0x20, client.node_id);
    assert_eq!(0x600, client.rx_address);
    assert_eq!(0x580, client.tx_address);
    let frame = client.upload_frame(0x2000, 0x01, &[0x03]).unwrap();
    let raw = frame.to_raw_frame();
    assert_eq!(0x620, raw.cob_id);
    assert_eq!(raw.data, [0x2F, 0x00, 0x20, 0x01, 0x03, 0x00, 0x00, 0x00]);
    assert!(client.upload_frame(0x2000, 0x01, &[1, 2, 3, 4, 5]).is_err());
}

#[test]
fn classification_enums() {
    assert_eq!(SDOResult::UnknownResult(0x42), SDOResult::from_u8(0x42));
    assert_ne!(DataType::UNSIGNED8, DataType::INTEGER8);
    assert_ne!(StorageType::Const, StorageType::NoStorage);
    assert!(default_callback(0x2000, 0x01, ValueVariant::U8(1)).is_ok());
}
