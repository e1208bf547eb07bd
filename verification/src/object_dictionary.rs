//! Storage and access classifications of object dictionary entries, and
//! the default change hook.

use vstd::prelude::*;

verus! {

use crate::util::ValueVariant;
use crate::CanOpenError;

/// The access class of an entry, as the SDO server enforces it.
#[derive(Clone, Copy, Debug, PartialEq, Eq, Structural)]
pub enum SdoAccessType {
    ReadOnly,
    WriteOnly,
    ReadWrite,
}

/// The storage class of an entry's value.
#[derive(Clone, Copy, Debug, PartialEq, Eq, Structural)]
pub enum StorageType {
    Const,
    Persistent,
    Variable,
    NoStorage,
}

/// The change hook that does nothing: every value is accepted.
pub fn default_callback(index: u16, subindex: u8, new_value: ValueVariant) -> (r: Result<
    (),
    CanOpenError,
>)
    ensures
        r is Ok,
{
    let _ = index;
    let _ = subindex;
    let _ = new_value;
    Ok(())
}

} // verus!
