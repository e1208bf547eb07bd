//! Value variants, the little-endian codec, and the split helpers.

use col::util::map_index;
use col::util::parse_buffer_as;
use col::util::Split;
use col::util::ValueType;
use col::util::ValueVariant;
use col::CanOpenError;

#[test]
fn test_map_index() {
    assert_eq!(0x00123456, map_index(0x1234, 0x56));
    assert_eq!(0x00ffff00, map_index(0xffff, 0x00));
    assert_eq!(0x000000ff, map_index(0x0000, 0xff));
}

#[test]
fn test_into_little_endian_buffer() {
    let sut = ValueVariant::I32(-1);
    assert_eq!(vec![0xff, 0xff, 0xff, 0xff], sut.to_little_endian_buffer());

    let sut = ValueVariant::U32(0x01020304);
    assert_eq!(vec![0x04, 0x03, 0x02, 0x01], sut.to_little_endian_buffer());

    let sut = ValueVariant::U16(0x0102);
    assert_eq!(vec![0x02, 0x01], sut.to_little_endian_buffer());

    let sut = ValueVariant::I16(-256);
    assert_eq!(vec![0x00, 0xff], sut.to_little_endian_buffer());

    let sut = ValueVariant::U8(0x01);
    assert_eq!(vec![0x01], sut.to_little_endian_buffer());

    let sut = ValueVariant::I8(-1);
    assert_eq!(vec![0xff], sut.to_little_endian_buffer());

    let sut = ValueVariant::F32(1.0e0_f32.to_bits());
    assert_eq!(vec![0x0, 0x0, 0x80, 0x3f], sut.to_little_endian_buffer());

    let sut = ValueVariant::F32(1.0e1_f32.to_bits());
    assert_eq!(vec![0x0, 0x0, 0x20, 0x41], sut.to_little_endian_buffer());

    let sut = ValueVariant::F32(1.0e2_f32.to_bits());
    assert_eq!(vec![0x0, 0x0, 0xc8, 0x42], sut.to_little_endian_buffer());

    let sut = ValueVariant::F32(2.0e2_f32.to_bits());
    assert_eq!(vec![0x0, 0x0, 0x48, 0x43], sut.to_little_endian_buffer());
}

#[test]
fn parse_buffer_round_trips_numeric_values() {
    let values = [
        ValueVariant::U8(0x7E),
        ValueVariant::I8(-3),
        ValueVariant::U16(0xBEEF),
        ValueVariant::I16(-256),
        ValueVariant::U32(0x01020304),
        ValueVariant::I32(-1020304),
        ValueVariant::F32((-0.123e-2_f32).to_bits()),
    ];
    for v in values {
        let bytes = v.to_little_endian_buffer();
        let back = parse_buffer_as(v.value_type(), &bytes).unwrap();
        assert_eq!(v, back);
    }
}

#[test]
fn parse_buffer_as_checks_the_length() {
    match parse_buffer_as(ValueType::U16, &[0x01]) {
        Err(CanOpenError::InvalidNumberType { .. }) => {}
        _ => panic!("Not expected Error"),
    }
    match parse_buffer_as(ValueType::U32, &[0x01, 0x02]) {
        Err(CanOpenError::InvalidNumberType { .. }) => {}
        _ => panic!("Not expected Error"),
    }
    match parse_buffer_as(ValueType::Unspecified, &[0x01]) {
        Err(CanOpenError::InvalidNumberType { .. }) => {}
        _ => panic!("Not expected Error"),
    }
    assert_eq!(
        ValueVariant::U16(0x0201),
        parse_buffer_as(ValueType::U16, &[0x01, 0x02]).unwrap()
    );
    assert_eq!(
        ValueVariant::S(vec![0x61, 0x62]),
        parse_buffer_as(ValueType::STR, &[0x61, 0x62]).unwrap()
    );
}

#[test]
fn split_halves_of_integers() {
    assert_eq!(0x34, 0x1234_u16.lo());
    assert_eq!(0x12, 0x1234_u16.hi());
    assert_eq!((0x12, 0x34), 0x1234_u16.split());
    assert_eq!(0x5678, 0x1234_5678_u32.lo());
    assert_eq!(0x1234, 0x1234_5678_u32.hi());
    assert_eq!(0x1234_5678, 0x1234_5678_9ABC_DEF0_u64.hi());
    assert_eq!(0x9ABC_DEF0, 0x1234_5678_9ABC_DEF0_u64.lo());
    assert_eq!(0xFF, (-1_i16).lo());
    assert_eq!(0xFF, (-1_i16).hi());
    assert_eq!(0xFFFF, (-1_i32).lo());
    assert_eq!(0xFFFF_FFFF, (-1_i64).hi());
}
