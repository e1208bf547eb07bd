//! The object dictionary: ordered storage of typed entries with access
//! control.
//!
//! Entries are kept in strictly ascending order of their mapped index, so
//! lookup is a binary search and no two entries share a key. The dictionary
//! is built once, by a builder that seeds the standard mandatory entries;
//! after `build` only values change, never the set of entries.

use vstd::prelude::*;

verus! {

use crate::node::object::CanOpenObject;
use crate::node::object::CanOpenObjectView;
use crate::node::object::SdoAccessType;
use crate::node::object::StoredValueView;
use crate::node::object::clone_value;
use crate::node::object::spec_object_wf;
use crate::node::object::spec_set_value_mutable_post;
use crate::util::ValueVariant;
use crate::util::ValueView;
use crate::CanOpenError;

/// The most entries a dictionary can hold.
pub const MAX_NUMBER_OF_OBJECTS: usize = 256;

/// Entries are strictly ascending by mapped index.
pub open spec fn spec_od_ordered(s: Seq<CanOpenObjectView>) -> bool {
    forall|i: int, j: int|
        0 <= i < j < s.len() ==> #[trigger] s[i].mapped_index < #[trigger] s[j].mapped_index
}

/// Some entry carries the given mapped index.
pub open spec fn spec_od_contains(s: Seq<CanOpenObjectView>, m: u32) -> bool {
    exists|i: int| 0 <= i < s.len() && #[trigger] s[i].mapped_index == m
}

/// The position of the entry carrying the given mapped index; meaningful
/// only where `spec_od_contains` holds (ordering makes it unique).
pub open spec fn spec_od_idx(s: Seq<CanOpenObjectView>, m: u32) -> int {
    choose|i: int| 0 <= i < s.len() && #[trigger] s[i].mapped_index == m
}

/// A well-formed dictionary: bounded, strictly ordered, every entry well
/// formed.
pub open spec fn spec_od_wf(s: Seq<CanOpenObjectView>) -> bool {
    &&& s.len() <= MAX_NUMBER_OF_OBJECTS
    &&& spec_od_ordered(s)
    &&& forall|i: int| 0 <= i < s.len() ==> spec_object_wf(#[trigger] s[i])
}

/// In an ordered dictionary no two entries share a mapped index.
pub proof fn lemma_od_unique_keys(s: Seq<CanOpenObjectView>)
    requires
        spec_od_ordered(s),
    ensures
        forall|i: int, j: int|
            0 <= i < s.len() && 0 <= j < s.len() && i != j ==> #[trigger] s[i].mapped_index
                != #[trigger] s[j].mapped_index,
{
}

/// The builder of an object dictionary.
///
/// It starts with the three mandatory entries (device type at 0x1000,
/// error register at 0x1001, vendor id at 0x1018) and keeps its entries
/// strictly ordered through every insertion.
#[derive(Clone)]
pub struct ObjectDictionaryBuilder {
    pub object: Vec<CanOpenObject>,
}

impl View for ObjectDictionaryBuilder {
    type V = Seq<CanOpenObjectView>;

    open spec fn view(&self) -> Seq<CanOpenObjectView> {
        self.object@.map_values(|o: CanOpenObject| o@)
    }
}

impl ObjectDictionaryBuilder {
    /// Start a dictionary holding the three mandatory entries: the device
    /// type at 0x1000,0x01, a zero error register at 0x1001,0x01, and the
    /// vendor id at 0x1018,0x01, all constant.
    pub fn new(device_type: u32, vendor_id: u32) -> (r: ObjectDictionaryBuilder)
        ensures
            spec_od_wf(r@),
            r@.len() == 3,
            r@[0] == (CanOpenObjectView {
                mapped_index: 0x10_0001u32,
                value: StoredValueView::Const(ValueView::U32(device_type)),
                privilege: SdoAccessType::ReadOnly,
            }),
            r@[1] == (CanOpenObjectView {
                mapped_index: 0x10_0101u32,
                value: StoredValueView::Const(ValueView::U8(0)),
                privilege: SdoAccessType::ReadOnly,
            }),
            r@[2] == (CanOpenObjectView {
                mapped_index: 0x10_1801u32,
                value: StoredValueView::Const(ValueView::U32(vendor_id)),
                privilege: SdoAccessType::ReadOnly,
            }),
    {
        let mut object: Vec<CanOpenObject> = Vec::new();
        object.push(CanOpenObject::new_const_object(0x1000, 0x01, ValueVariant::U32(device_type)));
        let error_flags: u8 = 0;
        object.push(CanOpenObject::new_const_object(0x1001, 0x01, ValueVariant::U8(error_flags)));
        object.push(CanOpenObject::new_const_object(0x1018, 0x01, ValueVariant::U32(vendor_id)));
        let r = ObjectDictionaryBuilder { object };
        proof {
            assert(r@.len() == 3);
            assert(spec_od_ordered(r@));
        }
        r
    }

    /// Register an entry, keeping the storage ordered by mapped index.
    ///
    /// Registering a key that is already present, or registering beyond the
    /// capacity, is a programmer error at build time.
    pub fn custom_entry(self, object: CanOpenObject) -> (r: ObjectDictionaryBuilder)
        requires
            spec_od_wf(self@),
            spec_object_wf(object@),
            !spec_od_contains(self@, object.mapped_index),
            self@.len() < MAX_NUMBER_OF_OBJECTS,
        ensures
            spec_od_wf(r@),
            r@.len() == self@.len() + 1,
            spec_od_contains(r@, object.mapped_index),
            exists|k: int|
                0 <= k <= self@.len() && r@ =~= self@.take(k).push(object@) + self@.skip(k),
    {
        let mut array_index: usize = 0;
        let ghost s = self@;
        while array_index < self.object.len() && self.object[array_index].mapped_index
            < object.mapped_index
            invariant
                s == self.object@.map_values(|o: CanOpenObject| o@),
                spec_od_wf(s),
                array_index <= s.len(),
                forall|j: int| 0 <= j < array_index ==> (#[trigger] s[j].mapped_index)
                    < object.mapped_index,
            decreases s.len() - array_index,
        {
            array_index += 1;
        }
        let ghost k = array_index as int;
        let ghost m = object.mapped_index;
        proof {
            if k < s.len() {
                assert(s[k] == self.object@[k]@);
                assert(s[k].mapped_index != m);
            }
            assert forall|j: int| k <= j < s.len() implies (#[trigger] s[j].mapped_index) > m by {
                if j > k {
                    assert(s[k].mapped_index < s[j].mapped_index);
                }
                assert(s[j].mapped_index != m);
            }
        }
        let mut result = self;
        result.object.insert(array_index, object);
        proof {
            assert(result@ =~= s.take(k).push(object@) + s.skip(k));
            assert(result@[k] == object@);
            assert forall|i: int, j: int| 0 <= i < j < result@.len() implies (
            #[trigger] result@[i].mapped_index) < (#[trigger] result@[j].mapped_index) by {
                if i < k {
                    assert(result@[i] == s[i]);
                }
                if i > k {
                    assert(result@[i] == s[i - 1]);
                }
                if j < k {
                    assert(result@[j] == s[j]);
                }
                if j > k {
                    assert(result@[j] == s[j - 1]);
                    assert(s[j - 1].mapped_index > m);
                }
                if i < k {
                    assert(s[i].mapped_index < m);
                }
            }
            assert(forall|i: int| 0 <= i < result@.len() ==> spec_object_wf(#[trigger] result@[i]));
            assert(result@[k].mapped_index == object.mapped_index);
            assert(spec_od_contains(result@, object.mapped_index));
        }
        result
    }

    /// Register the device name as a constant string at 0x1008,0x01.
    pub fn device_name(self, device_name: Vec<u8>) -> (r: ObjectDictionaryBuilder)
        requires
            spec_od_wf(self@),
            !spec_od_contains(self@, 0x10_0801),
            self@.len() < MAX_NUMBER_OF_OBJECTS,
        ensures
            spec_od_wf(r@),
            r@.len() == self@.len() + 1,
            spec_od_contains(r@, 0x10_0801),
            exists|k: int|
                0 <= k <= self@.len() && r@ =~= self@.take(k).push(
                    CanOpenObjectView {
                        mapped_index: 0x10_0801u32,
                        value: StoredValueView::Const(ValueView::S(device_name@)),
                        privilege: SdoAccessType::ReadOnly,
                    },
                ) + self@.skip(k),
    {
        self.custom_entry(CanOpenObject::new_const_object(0x1008, 0x01, ValueVariant::S(device_name)))
    }

    /// Register the hardware version as a constant string at 0x1009,0x01.
    pub fn hardware_version(self, hardware_version: Vec<u8>) -> (r: ObjectDictionaryBuilder)
        requires
            spec_od_wf(self@),
            !spec_od_contains(self@, 0x10_0901),
            self@.len() < MAX_NUMBER_OF_OBJECTS,
        ensures
            spec_od_wf(r@),
            r@.len() == self@.len() + 1,
            spec_od_contains(r@, 0x10_0901),
    {
        self.custom_entry(
            CanOpenObject::new_const_object(0x1009, 0x01, ValueVariant::S(hardware_version)),
        )
    }

    /// Register the software version as a constant string at 0x100A,0x01.
    pub fn software_version(self, software_version: Vec<u8>) -> (r: ObjectDictionaryBuilder)
        requires
            spec_od_wf(self@),
            !spec_od_contains(self@, 0x10_0A01),
            self@.len() < MAX_NUMBER_OF_OBJECTS,
        ensures
            spec_od_wf(r@),
            r@.len() == self@.len() + 1,
            spec_od_contains(r@, 0x10_0A01),
    {
        self.custom_entry(
            CanOpenObject::new_const_object(0x100A, 0x01, ValueVariant::S(software_version)),
        )
    }

    /// Register the product code as a constant at 0x1018,0x02.
    pub fn product_identifier(self, product_identifier: u32) -> (r: ObjectDictionaryBuilder)
        requires
            spec_od_wf(self@),
            !spec_od_contains(self@, 0x10_1802),
            self@.len() < MAX_NUMBER_OF_OBJECTS,
        ensures
            spec_od_wf(r@),
            r@.len() == self@.len() + 1,
            spec_od_contains(r@, 0x10_1802),
    {
        self.custom_entry(
            CanOpenObject::new_const_object(0x1018, 0x02, ValueVariant::U32(product_identifier)),
        )
    }

    /// Register the revision number as a constant at 0x1018,0x03.
    pub fn product_revision(self, product_revision: u32) -> (r: ObjectDictionaryBuilder)
        requires
            spec_od_wf(self@),
            !spec_od_contains(self@, 0x10_1803),
            self@.len() < MAX_NUMBER_OF_OBJECTS,
        ensures
            spec_od_wf(r@),
            r@.len() == self@.len() + 1,
            spec_od_contains(r@, 0x10_1803),
    {
        self.custom_entry(
            CanOpenObject::new_const_object(0x1018, 0x03, ValueVariant::U32(product_revision)),
        )
    }

    /// Register the serial number as a constant at 0x1018,0x04.
    pub fn serial_number(self, serial_number: u32) -> (r: ObjectDictionaryBuilder)
        requires
            spec_od_wf(self@),
            !spec_od_contains(self@, 0x10_1804),
            self@.len() < MAX_NUMBER_OF_OBJECTS,
        ensures
            spec_od_wf(r@),
            r@.len() == self@.len() + 1,
            spec_od_contains(r@, 0x10_1804),
    {
        self.custom_entry(
            CanOpenObject::new_const_object(0x1018, 0x04, ValueVariant::U32(serial_number)),
        )
    }

    /// Seal the dictionary for the given node. From here on only values
    /// change, never the set of entries.
    pub fn build(self, node_id: u8) -> (r: ObjectDictionary)
        ensures
            r@ == self@,
            r.node_id == node_id,
    {
        ObjectDictionary { object: self.object, node_id }
    }
}

/// The object dictionary of one node.
pub struct ObjectDictionary {
    pub object: Vec<CanOpenObject>,
    pub node_id: u8,
}

impl View for ObjectDictionary {
    type V = Seq<CanOpenObjectView>;

    open spec fn view(&self) -> Seq<CanOpenObjectView> {
        self.object@.map_values(|o: CanOpenObject| o@)
    }
}

impl ObjectDictionary {
    /// The position of the entry at the given index and subindex, found by
    /// binary search over the ordered storage; `ObjectDoesNotExist` if
    /// there is none.
    pub fn array_index(&self, index: u16, subindex: u8) -> (r: Result<usize, CanOpenError>)
        requires
            spec_od_wf(self@),
        ensures
            r is Ok <==> spec_od_contains(self@, (index * 256 + subindex) as u32),
            r matches Ok(i) ==> i < self@.len() && self@[i as int].mapped_index == index * 256
                + subindex,
            r matches Err(e) ==> e == (CanOpenError::ObjectDoesNotExist { index, subindex }),
    {
        let mapped_index = crate::util::map_index(index, subindex);
        let ghost s = self@;
        let mut low: usize = 0;
        let mut high: usize = self.object.len();
        while low < high
            invariant
                s == self.object@.map_values(|o: CanOpenObject| o@),
                spec_od_wf(s),
                low <= high <= s.len(),
                mapped_index == index * 256 + subindex,
                forall|j: int| 0 <= j < low ==> (#[trigger] s[j].mapped_index) < mapped_index,
                forall|j: int| high <= j < s.len() ==> (#[trigger] s[j].mapped_index)
                    > mapped_index,
            decreases high - low,
        {
            let center = low + (high - low) / 2;
            proof {
                assert(s[center as int] == self.object@[center as int]@);
            }
            if self.object[center].mapped_index == mapped_index {
                proof {
                    assert(s[center as int].mapped_index == mapped_index);
                }
                return Ok(center);
            }
            if self.object[center].mapped_index > mapped_index {
                proof {
                    assert forall|j: int| center <= j < s.len() implies (
                    #[trigger] s[j].mapped_index) > mapped_index by {
                        if j > center {
                            assert(s[center as int].mapped_index < s[j].mapped_index);
                        }
                    }
                }
                high = center;
            } else {
                proof {
                    assert forall|j: int| 0 <= j < center + 1 implies (
                    #[trigger] s[j].mapped_index) < mapped_index by {
                        if j < center {
                            assert(s[j].mapped_index < s[center as int].mapped_index);
                        }
                    }
                }
                low = center + 1;
            }
        }
        proof {
            assert forall|j: int| 0 <= j < s.len() implies (#[trigger] s[j].mapped_index)
                != mapped_index by {
                if j < low {
                    assert(s[j].mapped_index < mapped_index);
                } else {
                    assert(s[j].mapped_index > mapped_index);
                }
            }
            assert(!spec_od_contains(self@, mapped_index));
        }
        Err(CanOpenError::ObjectDoesNotExist { index, subindex })
    }

    /// Load persistently stored values into the dictionary. Persistent
    /// storage itself is an external collaborator; restoring values from it
    /// goes through `set_object_value` in the embedding application.
    pub fn initialize_from_persistent_storage(&self) {
    }

    /// Hand a changed value to persistent storage. The storage itself is an
    /// external collaborator of the embedding application; the dictionary
    /// has nothing to do here.
    pub fn persist_value(&self, index: u16, subindex: u8) -> (r: Result<(), CanOpenError>)
        ensures
            r is Ok,
    {
        let _ = index;
        let _ = subindex;
        Ok(())
    }

    /// Emit a PDO if the changed entry is mapped to one. No PDO mapping is
    /// configured in this core, so there is never anything to emit.
    pub fn update_pdo(&self, index: u16, subindex: u8) -> (r: Result<(), CanOpenError>)
        ensures
            r is Ok,
    {
        let _ = index;
        let _ = subindex;
        Ok(())
    }
}

} // verus!

verus! {

/// The entry of an ordered dictionary at the given mapped index;
/// meaningful only where `spec_od_contains` holds.
pub open spec fn spec_od_entry(s: Seq<CanOpenObjectView>, m: u32) -> CanOpenObjectView {
    s[spec_od_idx(s, m)]
}

/// Whether a write of value `v` to the entry at mapped index `m` is
/// accepted: the entry must exist and must not be constant, and a stored
/// value must share the type tag of `v`.
pub open spec fn spec_od_write_accepted(s: Seq<CanOpenObjectView>, m: u32, v: ValueView) -> bool {
    &&& spec_od_contains(s, m)
    &&& match spec_od_entry(s, m).value {
        StoredValueView::NoStorage => true,
        StoredValueView::Const(_) => false,
        StoredValueView::Variable(stored) => crate::util::spec_same_tag(stored, v),
        StoredValueView::Persistent(stored) => crate::util::spec_same_tag(stored, v),
    }
}

/// The dictionary after an accepted write of `v` to the entry at mapped
/// index `m`: mutable storage holds the new value, everything else is
/// untouched.
pub open spec fn spec_od_after_write(
    s: Seq<CanOpenObjectView>,
    m: u32,
    v: ValueView,
) -> Seq<CanOpenObjectView> {
    let i = spec_od_idx(s, m);
    let o = s[i];
    match o.value {
        StoredValueView::Variable(_) => s.update(
            i,
            CanOpenObjectView { value: StoredValueView::Variable(v), ..o },
        ),
        StoredValueView::Persistent(_) => s.update(
            i,
            CanOpenObjectView { value: StoredValueView::Persistent(v), ..o },
        ),
        _ => s,
    }
}

impl ObjectDictionary {
    /// Read the value of the entry at the given index and subindex.
    ///
    /// A missing entry fails with `ObjectDoesNotExist`, a command entry
    /// with `ReadAccessImpossible`; everything else yields the stored
    /// value.
    pub fn get_object_value(&self, index: u16, subindex: u8) -> (r: Result<
        ValueVariant,
        CanOpenError,
    >)
        requires
            spec_od_wf(self@),
        ensures
            !spec_od_contains(self@, (index * 256 + subindex) as u32) ==> r == Err::<
                ValueVariant,
                CanOpenError,
            >(CanOpenError::ObjectDoesNotExist { index, subindex }),
            spec_od_contains(self@, (index * 256 + subindex) as u32) ==> match spec_od_entry(
                self@,
                (index * 256 + subindex) as u32,
            ).value {
                StoredValueView::NoStorage => r matches Err(e) && e is ReadAccessImpossible,
                StoredValueView::Const(v) => r matches Ok(x) && x@ == v,
                StoredValueView::Variable(v) => r matches Ok(x) && x@ == v,
                StoredValueView::Persistent(v) => r matches Ok(x) && x@ == v,
            },
    {
        let i = match self.array_index(index, subindex) {
            Ok(i) => i,
            Err(e) => { return Err(e) },
        };
        proof {
            crate::node::object_dictionary::lemma_od_unique_keys(self@);
            assert(spec_od_idx(self@, (index * 256 + subindex) as u32) == i as int);
        }
        self.object[i].get_value()
    }

    /// Read an entry on behalf of the SDO server: write-only entries are
    /// refused with `ReadAccessImpossible` before any value is touched.
    pub fn upload(&self, index: u16, subindex: u8) -> (r: Result<ValueVariant, CanOpenError>)
        requires
            spec_od_wf(self@),
        ensures
            !spec_od_contains(self@, (index * 256 + subindex) as u32) ==> r == Err::<
                ValueVariant,
                CanOpenError,
            >(CanOpenError::ObjectDoesNotExist { index, subindex }),
            spec_od_contains(self@, (index * 256 + subindex) as u32) ==> {
                let entry = spec_od_entry(self@, (index * 256 + subindex) as u32);
                if entry.privilege is WriteOnly {
                    r matches Err(e) && e is ReadAccessImpossible
                } else {
                    match entry.value {
                        StoredValueView::NoStorage => r matches Err(e) && e is ReadAccessImpossible,
                        StoredValueView::Const(v) => r matches Ok(x) && x@ == v,
                        StoredValueView::Variable(v) => r matches Ok(x) && x@ == v,
                        StoredValueView::Persistent(v) => r matches Ok(x) && x@ == v,
                    }
                }
            },
    {
        let i = match self.array_index(index, subindex) {
            Ok(i) => i,
            Err(e) => { return Err(e) },
        };
        proof {
            crate::node::object_dictionary::lemma_od_unique_keys(self@);
            assert(spec_od_idx(self@, (index * 256 + subindex) as u32) == i as int);
        }
        match self.object[i].privilege {
            SdoAccessType::WriteOnly => Err(CanOpenError::ReadAccessImpossible),
            SdoAccessType::ReadOnly | SdoAccessType::ReadWrite => self.object[i].get_value(),
        }
    }

    /// Write a value to the entry at the given index and subindex.
    ///
    /// A missing entry fails with `ObjectDoesNotExist`; constant storage
    /// with `CannotWriteToConstStorage`; a value of the wrong type tag with
    /// `InvalidNumberType`. A write to a command entry succeeds without
    /// storing anything; a write to mutable storage replaces the stored
    /// value, and tells the PDO and persistence hooks when it changed it.
    pub fn set_object_value(&mut self, index: u16, subindex: u8, value: ValueVariant) -> (r: Result<
        (),
        CanOpenError,
    >)
        requires
            spec_od_wf(old(self)@),
        ensures
            spec_od_wf(final(self)@),
            final(self).node_id == old(self).node_id,
            r is Ok <==> spec_od_write_accepted(old(self)@, (index * 256 + subindex) as u32, value@),
            r is Ok ==> final(self)@ == spec_od_after_write(
                old(self)@,
                (index * 256 + subindex) as u32,
                value@,
            ),
            r is Err ==> final(self)@ == old(self)@,
            !spec_od_contains(old(self)@, (index * 256 + subindex) as u32) ==> r == Err::<
                (),
                CanOpenError,
            >(CanOpenError::ObjectDoesNotExist { index, subindex }),
            (spec_od_contains(old(self)@, (index * 256 + subindex) as u32) && spec_od_entry(
                old(self)@,
                (index * 256 + subindex) as u32,
            ).value is Const) ==> r == Err::<(), CanOpenError>(
                CanOpenError::CannotWriteToConstStorage,
            ),
            r matches Err(e) ==> (e is ObjectDoesNotExist || e is CannotWriteToConstStorage
                || e is InvalidNumberType),
            spec_od_contains(old(self)@, (index * 256 + subindex) as u32) ==> !(r matches Err(e)
                && e is ObjectDoesNotExist),
    {
        let ghost pre = self@;
        let ghost m = (index * 256 + subindex) as u32;
        let i = match self.array_index(index, subindex) {
            Ok(i) => i,
            Err(e) => { return Err(e) },
        };
        proof {
            crate::node::object_dictionary::lemma_od_unique_keys(pre);
            assert(spec_od_idx(pre, m) == i as int);
        }
        let changed = match self.object[i].set_value(value) {
            Ok(changed) => changed,
            Err(e) => {
                proof {
                    assert(self@ =~= pre);
                }
                return Err(e);
            },
        };
        proof {
            assert(self@ =~= spec_od_after_write(pre, m, value@));
            assert forall|a: int, b: int| 0 <= a < b < self@.len() implies (
            #[trigger] self@[a].mapped_index) < (#[trigger] self@[b].mapped_index) by {
                assert(pre[a].mapped_index < pre[b].mapped_index);
                assert(self@[a].mapped_index == pre[a].mapped_index);
                assert(self@[b].mapped_index == pre[b].mapped_index);
            }
            assert forall|a: int| 0 <= a < self@.len() implies spec_object_wf(
                #[trigger] self@[a],
            ) by {
                assert(spec_object_wf(pre[a]));
            }
        }
        if changed {
            self.update_pdo(index, subindex)?;
            if self.object[i].is_persistent() {
                self.persist_value(index, subindex)?;
            }
        }
        Ok(())
    }

    /// Write an entry on behalf of the SDO server: read-only entries are
    /// refused with `WritingForbidden` before the write is attempted.
    pub fn download_expedited(&mut self, index: u16, subindex: u8, value: ValueVariant) -> (r:
        Result<(), CanOpenError>)
        requires
            spec_od_wf(old(self)@),
        ensures
            spec_od_wf(final(self)@),
            final(self).node_id == old(self).node_id,
            !spec_od_contains(old(self)@, (index * 256 + subindex) as u32) ==> r == Err::<
                (),
                CanOpenError,
            >(CanOpenError::ObjectDoesNotExist { index, subindex }) && final(self)@ == old(self)@,
            (spec_od_contains(old(self)@, (index * 256 + subindex) as u32) && spec_od_entry(
                old(self)@,
                (index * 256 + subindex) as u32,
            ).privilege is ReadOnly) ==> r == Err::<(), CanOpenError>(
                CanOpenError::WritingForbidden,
            ) && final(self)@ == old(self)@,
            (spec_od_contains(old(self)@, (index * 256 + subindex) as u32) && !(spec_od_entry(
                old(self)@,
                (index * 256 + subindex) as u32,
            ).privilege is ReadOnly)) ==> {
                &&& (r is Ok <==> spec_od_write_accepted(
                    old(self)@,
                    (index * 256 + subindex) as u32,
                    value@,
                ))
                &&& r is Ok ==> final(self)@ == spec_od_after_write(
                    old(self)@,
                    (index * 256 + subindex) as u32,
                    value@,
                )
                &&& r is Err ==> final(self)@ == old(self)@
                &&& r matches Err(e) ==> (e is CannotWriteToConstStorage || e is InvalidNumberType)
                &&& spec_od_entry(old(self)@, (index * 256 + subindex) as u32).value is Const ==> r
                    == Err::<(), CanOpenError>(CanOpenError::CannotWriteToConstStorage)
            },
    {
        let i = match self.array_index(index, subindex) {
            Ok(i) => i,
            Err(e) => { return Err(e) },
        };
        proof {
            crate::node::object_dictionary::lemma_od_unique_keys(self@);
            assert(spec_od_idx(self@, (index * 256 + subindex) as u32) == i as int);
        }
        match self.object[i].privilege {
            SdoAccessType::ReadOnly => { return Err(CanOpenError::WritingForbidden) },
            SdoAccessType::WriteOnly | SdoAccessType::ReadWrite => {},
        }
        self.set_object_value(index, subindex, value)
    }
}

} // verus!
