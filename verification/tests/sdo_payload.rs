//! The SDO command byte: specifiers, flags, sizes and abort codes.

use col::frame::sdo::is_size_flag_set;
use col::frame::sdo::is_toggle_flag_set;
use col::frame::sdo::length_of_empty_bytes;
use col::frame::sdo::ClientCommandSpecifier;
use col::frame::sdo::CommandDataSize;
use col::frame::sdo::CommandSpecifier as FrameCommandSpecifier;
use col::frame::sdo::SDOAbortCode;
use col::frame::sdo::SdoPayloadData;
use col::frame::sdo::WithIndexPayload;
use col::sdo::CommandSpecifier;
use col::CanOpenError;

#[test]
fn u8_into_command_specifier() {
    assert_eq!(CommandSpecifier::Download, CommandSpecifier::from_u8(0b_000_00001_u8));
    assert_eq!(
        CommandSpecifier::InitiateDownload,
        CommandSpecifier::from_u8(0b_001_00001_u8)
    );
    assert_eq!(
        CommandSpecifier::InitiateUpload,
        CommandSpecifier::from_u8(0b_010_00001_u8)
    );
    assert_eq!(CommandSpecifier::Upload, CommandSpecifier::from_u8(0b_011_00001_u8));
    assert_eq!(CommandSpecifier::Abort, CommandSpecifier::from_u8(0b_100_00001_u8));
    assert_eq!(
        CommandSpecifier::BlockUpload,
        CommandSpecifier::from_u8(0b_101_00001_u8)
    );
    assert_eq!(
        CommandSpecifier::BlockDownload,
        CommandSpecifier::from_u8(0b_110_00001_u8)
    );
    assert_eq!(
        CommandSpecifier::Unspecified(0b111_00001),
        CommandSpecifier::from_u8(0b_111_00001_u8)
    );
}

#[test]
fn u8_into_command_specifier_and_back() {
    for i in 0_u8..=210 {
        let cs: CommandSpecifier = CommandSpecifier::from_u8(i);
        if i & 0b_111_00000 == 0b_111_00000 {
            assert_eq!(i, cs.to_u8())
        } else {
            assert_eq!(i & 0b_111_00000_u8, cs.to_u8());
        }
    }
}

#[test]
fn sdo_test_is_size_flag_set() {
    assert!(is_size_flag_set(0b1));
    assert!(!is_size_flag_set(0b0));
    assert!(is_size_flag_set(0b1001));
    assert!(!is_size_flag_set(0b111110));
}

#[test]
fn sdo_test_is_toggle_flag_set() {
    assert!(is_toggle_flag_set(0b000_1_0000));
    assert!(!is_toggle_flag_set(0b000_0_0000));
    assert!(is_toggle_flag_set(0b010_1_0000));
    assert!(!is_toggle_flag_set(0b000_0_0001));
}

#[test]
fn sdo_test_length_of_empty_bytes() {
    assert_eq!(Some(3), length_of_empty_bytes(0b000_011_1));
    assert_eq!(Some(0), length_of_empty_bytes(0b0000_000_1));
    assert_eq!(None, length_of_empty_bytes(0b0000_110_0));
}

#[test]
fn mod_test_is_size_flag_set() {
    assert!(is_size_flag_set(0b1));
    assert!(!is_size_flag_set(0b0));
    assert!(is_size_flag_set(0b1001));
    assert!(!is_size_flag_set(0b111110));
}

#[test]
fn mod_test_is_toggle_flag_set() {
    assert!(is_toggle_flag_set(0b000_1_0000));
    assert!(!is_toggle_flag_set(0b000_0_0000));
    assert!(is_toggle_flag_set(0b010_1_0000));
    assert!(!is_toggle_flag_set(0b000_0_0001));
}

#[test]
fn mod_test_length_of_empty_bytes() {
    assert_eq!(Some(3), length_of_empty_bytes(0b000_011_1));
    assert_eq!(Some(0), length_of_empty_bytes(0b0000_000_1));
    assert_eq!(None, length_of_empty_bytes(0b0000_110_0));
}

#[test]
fn test_command_data_size_into_u8() {
    assert_eq!(0_u8, CommandDataSize::NotSet.to_u8());
}

#[test]
fn into_conversion() {
    let payload = WithIndexPayload {
        cs: FrameCommandSpecifier::Ccs(ClientCommandSpecifier::BlockDownload),
        size: CommandDataSize::OneByte,
        expedited_flag: false,
        index: 0x2211,
        subindex: 0x33,
        data: 0x77665544,
    };
    let expected: SdoPayloadData = payload.to_payload_data();
    assert_eq!(
        [0b_110_0_11_0_1, 0x11, 0x22, 0x33, 0x44, 0x55, 0x66, 0x77],
        expected
    );

    let payload = WithIndexPayload {
        cs: FrameCommandSpecifier::Ccs(ClientCommandSpecifier::DownloadSegment),
        size: CommandDataSize::FourBytes,
        expedited_flag: true,
        index: 0x2211,
        subindex: 0x33,
        data: 0x77665544,
    };
    let expected: SdoPayloadData = payload.to_payload_data();
    assert_eq!(
        [0b_000_0_00_1_1, 0x11, 0x22, 0x33, 0x44, 0x55, 0x66, 0x77],
        expected
    );
}

#[test]
fn abort_code_to_u32_and_back() {
    let named = [
        (SDOAbortCode::ToggleBitNotAlternated, 0x0503_0000_u32),
        (SDOAbortCode::SDOProtocolTimedOut, 0x0504_0000),
        (SDOAbortCode::UnsupportedAccess, 0x0601_0000),
        (SDOAbortCode::ReadWriteOnlyError, 0x0601_0001),
        (SDOAbortCode::WriteReadOnlyError, 0x0601_0002),
        (SDOAbortCode::ObjectDoesNotExist, 0x0602_0000),
        (SDOAbortCode::WrongLength, 0x0607_0010),
        (SDOAbortCode::GeneralError, 0x0800_0000),
        (SDOAbortCode::DictionaryError, 0x0800_0023),
    ];
    for (code, value) in named {
        assert_eq!(value, code.clone().to_u32());
        assert_eq!(code, SDOAbortCode::from_u32(value));
    }
    assert_eq!(
        SDOAbortCode::UnknownAbortCode(0x1234_5678),
        SDOAbortCode::from_u32(0x1234_5678)
    );
    assert_eq!(0x1234_5678, SDOAbortCode::UnknownAbortCode(0x1234_5678).to_u32());
}

#[test]
fn parse_as_server_payload_rejects_block_specifiers() {
    let data = [0xA0, 0, 0, 0, 0, 0, 0, 0];
    assert!(WithIndexPayload::parse_as_server_payload(data).is_err());
    let data = [0x40, 0x11, 0x22, 0x33, 0, 0, 0, 0];
    let p = WithIndexPayload::parse_as_server_payload(data).unwrap();
    assert_eq!(0x2211, p.index);
    assert_eq!(0x33, p.subindex);
}

#[test]
fn client_block_transfers_are_not_implemented_yet() {
    let data = [0xA0, 0, 0, 0, 0, 0, 0, 0];
    match WithIndexPayload::parse_as_client_payload(data) {
        Err(CanOpenError::SdoPayloadNotImplementedYet) => {}
        _ => panic!("Not expected Error"),
    }
    let data = [0xE0, 0, 0, 0, 0, 0, 0, 0];
    match WithIndexPayload::parse_as_client_payload(data) {
        Err(CanOpenError::SdoPayloadParseError) => {}
        _ => panic!("Not expected Error"),
    }
}
