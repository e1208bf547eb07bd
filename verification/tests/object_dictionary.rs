//! Object dictionary entries, ordering, and access control.

use col::node::object::CanOpenObject;
use col::node::object_dictionary::ObjectDictionaryBuilder;
use col::util::ValueVariant;
use col::CanOpenError;

#[test]
fn partial_eq_partial_ord() {
    assert_eq!(
        CanOpenObject::new_const_object(1, 1, ValueVariant::U8(0))
            == CanOpenObject::new_const_object(1, 1, ValueVariant::U8(1)),
        true
    );
    assert_eq!(
        CanOpenObject::new_const_object(1, 2, ValueVariant::U8(0))
            > CanOpenObject::new_const_object(1, 1, ValueVariant::U8(0)),
        true
    );
    assert_eq!(
        CanOpenObject::new_const_object(1, 1, ValueVariant::U8(0))
            < CanOpenObject::new_const_object(2, 1, ValueVariant::U8(0)),
        true
    );
}

#[test]
fn variable_access() {
    let mut sut = CanOpenObject::new_variable_object(1, 1, ValueVariant::U8(0));
    // modify the object
    assert_eq!(true, sut.set_value(ValueVariant::U8(1)).unwrap());
    // do not modify the object
    assert_eq!(false, sut.set_value(ValueVariant::U8(1)).unwrap());
    assert_eq!(ValueVariant::U8(1), sut.get_value().unwrap());
}

#[test]
fn persistent_access() {
    let mut sut = CanOpenObject::new_persistent_object(1, 1, ValueVariant::U8(0));
    assert_eq!(true, sut.set_value(ValueVariant::U8(1)).unwrap());
    assert_eq!(false, sut.set_value(ValueVariant::U8(1)).unwrap());
    assert_eq!(ValueVariant::U8(1), sut.get_value().unwrap());
}

#[test]
fn const_get() {
    let sut = CanOpenObject::new_const_object(1, 1, ValueVariant::S(b"const str ref".to_vec()));
    assert_eq!(
        ValueVariant::S(b"const str ref".to_vec()),
        sut.get_value().unwrap()
    );
}

#[test]
fn const_set_returns_error() {
    let mut sut = CanOpenObject::new_const_object(1, 1, ValueVariant::U8(2));
    assert!(sut.set_value(ValueVariant::U8(3)).is_err());
}

#[test]
fn nostorage_set() {
    let mut sut = CanOpenObject::new_nostorage_object(1, 1);
    assert!(sut.set_value(ValueVariant::U8(42)).unwrap());
}

#[test]
fn nostorage_get_returns_error() {
    let sut = CanOpenObject::new_nostorage_object(1, 1);
    assert!(sut.get_value().is_err());
}

#[test]
fn value_type_mismatch_is_rejected() {
    let mut sut = CanOpenObject::new_variable_object(1, 1, ValueVariant::U8(0));
    match sut.set_value(ValueVariant::U16(7)) {
        Err(CanOpenError::InvalidNumberType { .. }) => {}
        _ => panic!("Not expected Error"),
    }
    assert_eq!(ValueVariant::U8(0), sut.get_value().unwrap());
}

fn is_ordered(sut: &ObjectDictionaryBuilder) -> bool {
    if sut.object.is_empty() {
        return true;
    }
    for i in 0..sut.object.len() - 1 {
        if sut.object[i].mapped_index >= sut.object[i + 1].mapped_index {
            return false;
        }
    }
    true
}

#[test]
fn ordering_at_entry_insert() {
    let sut = ObjectDictionaryBuilder::new(123, 456);
    assert!(is_ordered(&sut));

    // Try highest index at the end
    let sut = sut.custom_entry(CanOpenObject::new_const_object(
        0xffff,
        0xff,
        ValueVariant::U8(0),
    ));
    assert!(is_ordered(&sut));

    // Try one before highest index
    let sut = sut.custom_entry(CanOpenObject::new_const_object(
        0xfffe,
        0xff,
        ValueVariant::U8(0),
    ));
    assert!(is_ordered(&sut));

    // Try something in the middle
    let sut = sut.custom_entry(CanOpenObject::new_const_object(
        0x1200,
        0xff,
        ValueVariant::U8(0),
    ));
    assert!(is_ordered(&sut));
}

#[test]
fn od_access() {
    let mut builder = ObjectDictionaryBuilder::new(123, 456);
    for index in 1..=100_u16 {
        builder = builder.custom_entry(CanOpenObject::new_const_object(
            index,
            0,
            ValueVariant::U8(0),
        ));
    }
    let od = builder.build(10);
    assert!(od.array_index(0, 0).is_err());
    assert_eq!(Ok(0), od.array_index(1, 0));
    assert!(od.array_index(1, 5).is_err());
    assert_eq!(Ok(23), od.array_index(24, 0));
    assert!(od.array_index(40, 1).is_err());
    assert_eq!(Ok(48), od.array_index(49, 0));
    assert_eq!(Ok(99), od.array_index(100, 0));
    assert!(od.array_index(99, 1).is_err());
    assert_eq!(
        Err(CanOpenError::ObjectDoesNotExist {
            index: 0x2000,
            subindex: 0
        }),
        od.array_index(0x2000, 0)
    );
}

#[test]
fn od_set_and_get_values() {
    let od = ObjectDictionaryBuilder::new(0x_ffff_0000, 0)
        .device_name(b"Device Name".to_vec())
        .hardware_version(b"Rev 1.0".to_vec())
        .software_version(b"1.0.0".to_vec())
        .product_identifier(1)
        .product_revision(1)
        .serial_number(123456)
        .custom_entry(CanOpenObject::new_variable_object(
            0x6000,
            0x01,
            ValueVariant::U8(0),
        ))
        .build(20);
    let mut od = od;
    assert_eq!(
        ValueVariant::U32(0x_ffff_0000),
        od.get_object_value(0x1000, 0x01).unwrap()
    );
    assert_eq!(
        ValueVariant::S(b"Device Name".to_vec()),
        od.get_object_value(0x1008, 0x01).unwrap()
    );
    od.set_object_value(0x6000, 0x01, ValueVariant::U8(42)).unwrap();
    assert_eq!(
        ValueVariant::U8(42),
        od.get_object_value(0x6000, 0x01).unwrap()
    );
    // writing a constant entry is refused
    match od.set_object_value(0x1000, 0x01, ValueVariant::U32(1)) {
        Err(CanOpenError::CannotWriteToConstStorage) => {}
        _ => panic!("Not expected Error"),
    }
    // the server-facing write refuses read-only entries earlier
    match od.download_expedited(0x1000, 0x01, ValueVariant::U32(1)) {
        Err(CanOpenError::WritingForbidden) => {}
        _ => panic!("Not expected Error"),
    }
    // reading a command entry is impossible
    let mut od2 = ObjectDictionaryBuilder::new(1, 2)
        .custom_entry(CanOpenObject::new_nostorage_object(0x6100, 0x01))
        .build(21);
    match od2.get_object_value(0x6100, 0x01) {
        Err(CanOpenError::ReadAccessImpossible) => {}
        _ => panic!("Not expected Error"),
    }
    od2.set_object_value(0x6100, 0x01, ValueVariant::U8(1)).unwrap();
}
