//! The CANopen data type alphabet of CiA 301.

use vstd::prelude::*;

verus! {

/// Failures of converting between typed data and its wire form.
#[derive(Debug, Clone, Copy, PartialEq, Eq, Structural)]
pub enum DataConversionError {
    InvalidDataType(u32),
    MismatchingDataType,
}

/// The data types an object dictionary entry can declare.
#[allow(non_camel_case_types)]
#[derive(Debug, PartialEq, Eq, Structural, Clone, Copy)]
pub enum DataType {
    NIL,
    BOOLEAN,
    VOID,
    UNSIGNED8,
    UNSIGNED16,
    UNSIGNED24,
    UNSIGNED32,
    UNSIGNED40,
    UNSIGNED48,
    UNSIGNED56,
    UNSIGNED64,
    INTEGER8,
    INTEGER16,
    INTEGER24,
    INTEGER32,
    INTEGER40,
    INTEGER48,
    INTEGER56,
    INTEGER64,
    REAL32,
    REAL64,
    OCTETSTRING,
    VISIBLESTRING,
    UNICODESTRING,
    TIMEOFDAY,
    TIMEDIFFERENCE,
    DOMAIN,
}

} // verus!
