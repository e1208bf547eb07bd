//! A single object dictionary entry: its storage class, access class and
//! typed value.

use vstd::prelude::*;

verus! {

use crate::util::ValueVariant;
use crate::util::ValueView;
use crate::util::map_index;
use crate::util::spec_same_tag;
use crate::CanOpenError;

/// The access class of an entry, as the SDO server enforces it.
#[derive(Clone, Copy, Debug, PartialEq, Eq, Structural)]
pub enum SdoAccessType {
    ReadOnly,
    WriteOnly,
    ReadWrite,
}

/// The storage class of an entry's value.
///
/// `Const` values never change and imply read-only access. `Variable`
/// values are lost on restart; `Persistent` values are meant to survive it
/// (storing them is the embedding application's part). A `NoStorage` entry
/// keeps no value at all: writing it is a command whose side effect the
/// embedding application performs, and reading it fails.
#[derive(Debug, Clone, PartialEq)]
pub enum StoredValue {
    Const(ValueVariant),
    Persistent(ValueVariant),
    Variable(ValueVariant),
    NoStorage,
}

/// The mathematical shape of a stored value.
#[verifier::ext_equal]
pub enum StoredValueView {
    Const(ValueView),
    Persistent(ValueView),
    Variable(ValueView),
    NoStorage,
}

impl View for StoredValue {
    type V = StoredValueView;

    open spec fn view(&self) -> StoredValueView {
        match self {
            StoredValue::Const(v) => StoredValueView::Const(v@),
            StoredValue::Persistent(v) => StoredValueView::Persistent(v@),
            StoredValue::Variable(v) => StoredValueView::Variable(v@),
            StoredValue::NoStorage => StoredValueView::NoStorage,
        }
    }
}

/// An object dictionary entry, keyed by its mapped index: the 16-bit index
/// and the 8-bit subindex packed into one 24-bit key.
#[derive(Debug, Clone)]
pub struct CanOpenObject {
    pub mapped_index: u32,
    pub value: StoredValue,
    pub privilege: SdoAccessType,
}

/// The mathematical shape of an entry.
#[verifier::ext_equal]
pub struct CanOpenObjectView {
    pub mapped_index: u32,
    pub value: StoredValueView,
    pub privilege: SdoAccessType,
}

impl View for CanOpenObject {
    type V = CanOpenObjectView;

    open spec fn view(&self) -> CanOpenObjectView {
        CanOpenObjectView {
            mapped_index: self.mapped_index,
            value: self.value@,
            privilege: self.privilege,
        }
    }
}

/// String values live only in constant storage: mutable storage of
/// variable-length strings is out of scope.
pub open spec fn spec_object_wf(o: CanOpenObjectView) -> bool {
    match o.value {
        StoredValueView::Persistent(v) => !(v is S),
        StoredValueView::Variable(v) => !(v is S),
        _ => true,
    }
}

/// Whether two values are the same value of the same type.
pub fn value_eq(a: &ValueVariant, b: &ValueVariant) -> (r: bool)
    ensures
        r == (a@ == b@),
{
    match (a, b) {
        (ValueVariant::U8(x), ValueVariant::U8(y)) => x == y,
        (ValueVariant::U16(x), ValueVariant::U16(y)) => x == y,
        (ValueVariant::U32(x), ValueVariant::U32(y)) => x == y,
        (ValueVariant::I8(x), ValueVariant::I8(y)) => x == y,
        (ValueVariant::I16(x), ValueVariant::I16(y)) => x == y,
        (ValueVariant::I32(x), ValueVariant::I32(y)) => x == y,
        (ValueVariant::F32(x), ValueVariant::F32(y)) => x == y,
        (ValueVariant::S(x), ValueVariant::S(y)) => {
            if x.len() != y.len() {
                return false;
            }
            let mut i: usize = 0;
            while i < x.len()
                invariant
                    a@ == ValueView::S(x@),
                    b@ == ValueView::S(y@),
                    x@.len() == y@.len(),
                    i <= x@.len(),
                    forall|j: int| 0 <= j < i ==> x@[j] == y@[j],
                decreases x@.len() - i,
            {
                if x[i] != y[i] {
                    return false;
                }
                i += 1;
            }
            proof {
                assert(x@ =~= y@);
                assert(a@ =~~= b@);
            }
            true
        },
        _ => false,
    }
}

/// Duplicate a value.
pub fn clone_value(v: &ValueVariant) -> (r: ValueVariant)
    ensures
        r@ == v@,
{
    match v {
        ValueVariant::U8(x) => ValueVariant::U8(*x),
        ValueVariant::U16(x) => ValueVariant::U16(*x),
        ValueVariant::U32(x) => ValueVariant::U32(*x),
        ValueVariant::I8(x) => ValueVariant::I8(*x),
        ValueVariant::I16(x) => ValueVariant::I16(*x),
        ValueVariant::I32(x) => ValueVariant::I32(*x),
        ValueVariant::F32(x) => ValueVariant::F32(*x),
        ValueVariant::S(bytes) => {
            let mut copy: Vec<u8> = Vec::new();
            let mut i: usize = 0;
            while i < bytes.len()
                invariant
                    i <= bytes@.len(),
                    copy@ == bytes@.take(i as int),
                decreases bytes@.len() - i,
            {
                copy.push(bytes[i]);
                proof {
                    assert(copy@ =~= bytes@.take(i + 1 as int));
                }
                i += 1;
            }
            proof {
                assert(copy@ =~= bytes@);
                assert(ValueVariant::S(copy)@ =~~= v@);
            }
            ValueVariant::S(copy)
        },
    }
}

impl CanOpenObject {
    /// A constant, read-only entry.
    pub fn new_const_object(index: u16, subindex: u8, value: ValueVariant) -> (r: CanOpenObject)
        ensures
            r@ == (CanOpenObjectView {
                mapped_index: (index * 256 + subindex) as u32,
                value: StoredValueView::Const(value@),
                privilege: SdoAccessType::ReadOnly,
            }),
            spec_object_wf(r@),
    {
        CanOpenObject {
            mapped_index: map_index(index, subindex),
            value: StoredValue::Const(value),
            privilege: SdoAccessType::ReadOnly,
        }
    }

    /// A mutable entry whose value is lost on restart. Strings cannot live
    /// in mutable storage.
    pub fn new_variable_object(index: u16, subindex: u8, value: ValueVariant) -> (r: CanOpenObject)
        requires
            !(value@ is S),
        ensures
            r@ == (CanOpenObjectView {
                mapped_index: (index * 256 + subindex) as u32,
                value: StoredValueView::Variable(value@),
                privilege: SdoAccessType::ReadWrite,
            }),
            spec_object_wf(r@),
    {
        CanOpenObject {
            mapped_index: map_index(index, subindex),
            value: StoredValue::Variable(value),
            privilege: SdoAccessType::ReadWrite,
        }
    }

    /// A mutable entry meant to survive restarts. Strings cannot live in
    /// mutable storage.
    pub fn new_persistent_object(index: u16, subindex: u8, value: ValueVariant) -> (r:
        CanOpenObject)
        requires
            !(value@ is S),
        ensures
            r@ == (CanOpenObjectView {
                mapped_index: (index * 256 + subindex) as u32,
                value: StoredValueView::Persistent(value@),
                privilege: SdoAccessType::ReadWrite,
            }),
            spec_object_wf(r@),
    {
        CanOpenObject {
            mapped_index: map_index(index, subindex),
            value: StoredValue::Persistent(value),
            privilege: SdoAccessType::ReadWrite,
        }
    }

    /// A write-only command entry that stores nothing; each accepted write
    /// is handed to the embedding application as a side effect.
    pub fn new_nostorage_object(index: u16, subindex: u8) -> (r: CanOpenObject)
        ensures
            r@ == (CanOpenObjectView {
                mapped_index: (index * 256 + subindex) as u32,
                value: StoredValueView::NoStorage,
                privilege: SdoAccessType::WriteOnly,
            }),
            spec_object_wf(r@),
    {
        CanOpenObject {
            mapped_index: map_index(index, subindex),
            value: StoredValue::NoStorage,
            privilege: SdoAccessType::WriteOnly,
        }
    }

    /// The stored value after an accepted write of `v` to this entry.
    pub open spec fn spec_value_after_set(&self, v: ValueView) -> StoredValueView {
        match self.value@ {
            StoredValueView::Variable(_) => StoredValueView::Variable(v),
            StoredValueView::Persistent(_) => StoredValueView::Persistent(v),
            _ => self.value@,
        }
    }

    /// Set the value of the entry.
    ///
    /// Constant storage refuses the write with `CannotWriteToConstStorage`;
    /// a value whose type tag differs from the stored one is refused with
    /// `InvalidNumberType`; a command entry accepts every write without
    /// storing it. The result says whether the stored value changed.
    pub fn set_value(&mut self, value: ValueVariant) -> (r: Result<bool, CanOpenError>)
        ensures
            match old(self).value@ {
                StoredValueView::Const(_) => {
                    &&& r matches Err(e) && e is CannotWriteToConstStorage
                    &&& *final(self) == *old(self)
                },
                StoredValueView::NoStorage => r == Ok::<bool, CanOpenError>(true) && *final(self)
                    == *old(self),
                StoredValueView::Variable(stored) => spec_set_value_mutable_post(
                    *old(self),
                    *final(self),
                    stored,
                    value@,
                    r,
                ),
                StoredValueView::Persistent(stored) => spec_set_value_mutable_post(
                    *old(self),
                    *final(self),
                    stored,
                    value@,
                    r,
                ),
            },
    {
        match &self.value {
            StoredValue::NoStorage => Ok(true),
            StoredValue::Const(_) => Err(CanOpenError::CannotWriteToConstStorage),
            StoredValue::Variable(stored) => {
                if !tags_match(stored, &value) {
                    return Err(invalid_type_error());
                }
                if value_eq(stored, &value) {
                    Ok(false)
                } else {
                    self.value = StoredValue::Variable(value);
                    Ok(true)
                }
            },
            StoredValue::Persistent(stored) => {
                if !tags_match(stored, &value) {
                    return Err(invalid_type_error());
                }
                if value_eq(stored, &value) {
                    Ok(false)
                } else {
                    self.value = StoredValue::Persistent(value);
                    Ok(true)
                }
            },
        }
    }

    /// Whether this entry's value lives in persistent storage.
    pub fn is_persistent(&self) -> (r: bool)
        ensures
            r == (self.value@ is Persistent),
    {
        match &self.value {
            StoredValue::Persistent(_) => true,
            _ => false,
        }
    }

    /// Retrieve the value of the entry; command entries hold none and fail
    /// with `ReadAccessImpossible`.
    pub fn get_value(&self) -> (r: Result<ValueVariant, CanOpenError>)
        ensures
            match self.value@ {
                StoredValueView::Const(v) => r matches Ok(x) && x@ == v,
                StoredValueView::Variable(v) => r matches Ok(x) && x@ == v,
                StoredValueView::Persistent(v) => r matches Ok(x) && x@ == v,
                StoredValueView::NoStorage => r matches Err(e) && e is ReadAccessImpossible,
            },
    {
        match &self.value {
            StoredValue::Const(v) => Ok(clone_value(v)),
            StoredValue::NoStorage => Err(CanOpenError::ReadAccessImpossible),
            StoredValue::Variable(v) => Ok(clone_value(v)),
            StoredValue::Persistent(v) => Ok(clone_value(v)),
        }
    }
}

/// What a write to mutable storage leaves behind: a type-tag mismatch is
/// refused and changes nothing; a write of the stored value changes nothing
/// and reports `false`; a new value replaces the old one and reports
/// `true`.
pub open spec fn spec_set_value_mutable_post(
    pre: CanOpenObject,
    post: CanOpenObject,
    stored: ValueView,
    value: ValueView,
    r: Result<bool, CanOpenError>,
) -> bool {
    if !spec_same_tag(stored, value) {
        &&& r matches Err(e) && e is InvalidNumberType
        &&& post == pre
    } else if stored == value {
        &&& r == Ok::<bool, CanOpenError>(false)
        &&& post == pre
    } else {
        &&& r == Ok::<bool, CanOpenError>(true)
        &&& post@ == (CanOpenObjectView { value: pre.spec_value_after_set(value), ..pre@ })
    }
}

/// Whether two values carry the same type tag.
fn tags_match(a: &ValueVariant, b: &ValueVariant) -> (r: bool)
    ensures
        r == spec_same_tag(a@, b@),
{
    let ta = a.value_type();
    let tb = b.value_type();
    ta == tb
}

/// The error reporting a write whose value type differs from the stored
/// one.
fn invalid_type_error() -> (r: CanOpenError)
    ensures
        r is InvalidNumberType,
{
    CanOpenError::InvalidNumberType { number_type: "mismatching value type".to_string() }
}

impl Default for CanOpenObject {
    /// The placeholder entry: a constant zero byte at index 0, subindex 0.
    fn default() -> (r: Self)
        ensures
            r@ == (CanOpenObjectView {
                mapped_index: 0u32,
                value: StoredValueView::Const(ValueView::U8(0)),
                privilege: SdoAccessType::ReadOnly,
            }),
    {
        CanOpenObject::new_const_object(0, 0, ValueVariant::U8(0))
    }
}

impl PartialEq for CanOpenObject {
    /// Entries are compared by their mapped index alone.
    fn eq(&self, other: &Self) -> (r: bool) {
        self.mapped_index == other.mapped_index
    }
}

impl vstd::std_specs::cmp::PartialEqSpecImpl for CanOpenObject {
    open spec fn obeys_eq_spec() -> bool {
        true
    }

    open spec fn eq_spec(&self, other: &Self) -> bool {
        self.mapped_index == other.mapped_index
    }
}

impl PartialOrd for CanOpenObject {
    /// Entries are ordered by their mapped index alone.
    fn partial_cmp(&self, other: &Self) -> (r: Option<core::cmp::Ordering>) {
        self.mapped_index.partial_cmp(&other.mapped_index)
    }
}

impl vstd::std_specs::cmp::PartialOrdSpecImpl for CanOpenObject {
    open spec fn obeys_partial_cmp_spec() -> bool {
        true
    }

    open spec fn partial_cmp_spec(&self, other: &Self) -> Option<core::cmp::Ordering> {
        if self.mapped_index < other.mapped_index {
            Some(core::cmp::Ordering::Less)
        } else if self.mapped_index == other.mapped_index {
            Some(core::cmp::Ordering::Equal)
        } else {
            Some(core::cmp::Ordering::Greater)
        }
    }
}

} // verus!
