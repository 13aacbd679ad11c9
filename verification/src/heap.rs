//! The heap: the objects and arrays allocated so far, each at the index
//! that it was allocated at.

use vstd::prelude::*;
use crate::object::{
    InstanceObject, ReferenceArrayObject, SpecInstance, SpecRefArray, SpecTypeArray, TypeArrayObject,
};
use crate::reference::Reference;
use crate::stack_frame::{long_high, long_low};

verus! {

/// A reference to the allocation at `index` when it is an instance.
pub open spec fn spec_get_ref(entries: Seq<SpecHeapEntry>, index: int) -> Reference {
    if 0 <= index < entries.len() && entries[index] is Instance {
        Reference::Value(index as usize)
    } else {
        Reference::Null
    }
}

/// A reference to the allocation at `index` when it is a reference array.
pub open spec fn spec_get_ref_array(entries: Seq<SpecHeapEntry>, index: int) -> Reference {
    if 0 <= index < entries.len() && entries[index] is ReferenceArray {
        Reference::Value(index as usize)
    } else {
        Reference::Null
    }
}

/// A reference to the allocation at `index` when it is a primitive array.
pub open spec fn spec_get_type_array(entries: Seq<SpecHeapEntry>, index: int) -> Reference {
    if 0 <= index < entries.len() && entries[index] is TypeArray {
        Reference::Value(index as usize)
    } else {
        Reference::Null
    }
}

/// An allocation.
#[derive(Debug)]
pub enum HeapEntry {
    Instance(InstanceObject),
    ReferenceArray(ReferenceArrayObject),
    TypeArray(TypeArrayObject),
}

pub enum SpecHeapEntry {
    Instance(SpecInstance),
    ReferenceArray(SpecRefArray),
    TypeArray(SpecTypeArray),
}

impl View for HeapEntry {
    type V = SpecHeapEntry;

    open spec fn view(&self) -> SpecHeapEntry {
        match self {
            HeapEntry::Instance(o) => SpecHeapEntry::Instance(o@),
            HeapEntry::ReferenceArray(o) => SpecHeapEntry::ReferenceArray(o@),
            HeapEntry::TypeArray(o) => SpecHeapEntry::TypeArray(o@),
        }
    }
}

/// The objects allocated so far.
#[derive(Debug)]
pub struct HeapSpace {
    allocated: Vec<HeapEntry>,
    maximum_size: usize,
}

impl View for HeapSpace {
    type V = Seq<SpecHeapEntry>;

    open spec fn view(&self) -> Seq<SpecHeapEntry> {
        self.entries().map_values(|e: HeapEntry| e@)
    }
}

impl HeapSpace {
    /// The allocations, in allocation order.
    pub closed spec fn entries(&self) -> Seq<HeapEntry> {
        self.allocated@
    }

    /// The size that the heap was created for.
    pub closed spec fn capacity(&self) -> usize {
        self.maximum_size
    }

    pub fn new(maximum_size: usize) -> (r: HeapSpace)
        ensures
            r.entries() == Seq::<HeapEntry>::empty(),
            r.capacity() == maximum_size,
    {
        HeapSpace { allocated: Vec::new(), maximum_size }
    }

    /// The number of allocations.
    pub fn len(&self) -> (r: usize)
        ensures
            r == self.entries().len(),
    {
        self.allocated.len()
    }

    /// A reference to the instance at `index`; null when there is no
    /// instance there.
    pub fn get_ref(&self, index: usize) -> (r: Reference)
        ensures
            r == spec_get_ref(self@, index as int),
    {
        if index < self.allocated.len() {
            match &self.allocated[index] {
                HeapEntry::Instance(_) => Reference::Value(index),
                _ => Reference::Null,
            }
        } else {
            Reference::Null
        }
    }

    /// A reference to the reference array at `index`, or null.
    pub fn get_ref_array(&self, index: usize) -> (r: Reference)
        ensures
            r == spec_get_ref_array(self@, index as int),
    {
        if index < self.allocated.len() {
            match &self.allocated[index] {
                HeapEntry::ReferenceArray(_) => Reference::Value(index),
                _ => Reference::Null,
            }
        } else {
            Reference::Null
        }
    }

    /// A reference to the primitive array at `index`, or null.
    pub fn get_type_array(&self, index: usize) -> (r: Reference)
        ensures
            r == spec_get_type_array(self@, index as int),
    {
        if index < self.allocated.len() {
            match &self.allocated[index] {
                HeapEntry::TypeArray(_) => Reference::Value(index),
                _ => Reference::Null,
            }
        } else {
            Reference::Null
        }
    }

    /// The instance at `index`.
    pub fn instance(&self, index: usize) -> (r: &InstanceObject)
        requires
            index < self@.len(),
            self@[index as int] is Instance,
        ensures
            self@[index as int] == SpecHeapEntry::Instance(r@),
    {
        match &self.allocated[index] {
            HeapEntry::Instance(o) => o,
            _ => {
                vstd::pervasive::unreached()
            },
        }
    }

    /// The reference array at `index`.
    pub fn ref_array(&self, index: usize) -> (r: &ReferenceArrayObject)
        requires
            index < self@.len(),
            self@[index as int] is ReferenceArray,
        ensures
            self@[index as int] == SpecHeapEntry::ReferenceArray(r@),
    {
        match &self.allocated[index] {
            HeapEntry::ReferenceArray(o) => o,
            _ => {
                vstd::pervasive::unreached()
            },
        }
    }

    /// The primitive array at `index`.
    pub fn type_array(&self, index: usize) -> (r: &TypeArrayObject)
        requires
            index < self@.len(),
            self@[index as int] is TypeArray,
        ensures
            self@[index as int] == SpecHeapEntry::TypeArray(r@),
    {
        match &self.allocated[index] {
            HeapEntry::TypeArray(o) => o,
            _ => {
                vstd::pervasive::unreached()
            },
        }
    }

    /// Replaces the allocation at `index`.
    pub fn replace(&mut self, index: usize, entry: HeapEntry)
        requires
            index < old(self).entries().len(),
        ensures
            final(self).entries() == old(self).entries().update(index as int, entry),
            final(self).capacity() == old(self).capacity(),
    {
        self.allocated.set(index, entry);
    }

    /// Inserts `value` at `slot` of the primitive array at `index`.
    pub fn type_array_put(&mut self, index: usize, slot: usize, value: u32)
        requires
            index < old(self)@.len(),
            old(self)@[index as int] matches SpecHeapEntry::TypeArray(a) && slot <= a.slots.len(),
        ensures
            final(self)@ == old(self)@.update(
                index as int,
                SpecHeapEntry::TypeArray(
                    SpecTypeArray {
                        slots: old(self)@[index as int]->TypeArray_0.slots.insert(slot as int, value),
                        ..old(self)@[index as int]->TypeArray_0
                    },
                ),
            ),
    {
        let ghost before = self@;
        match &mut self.allocated[index] {
            HeapEntry::TypeArray(a) => {
                a.put(slot, value);
            },
            _ => {},
        }
        assert(self@ =~= before.update(
            index as int,
            SpecHeapEntry::TypeArray(
                SpecTypeArray {
                    slots: before[index as int]->TypeArray_0.slots.insert(slot as int, value),
                    ..before[index as int]->TypeArray_0
                },
            ),
        ));
    }

    /// Inserts the halves of `value` at `slot` of the primitive array at
    /// `index`, the upper half first.
    pub fn type_array_put_long(&mut self, index: usize, slot: usize, value: i64)
        requires
            index < old(self)@.len(),
            old(self)@[index as int] matches SpecHeapEntry::TypeArray(a) && slot <= a.slots.len(),
            slot < usize::MAX,
        ensures
            final(self)@ == old(self)@.update(
                index as int,
                SpecHeapEntry::TypeArray(
                    SpecTypeArray {
                        slots: old(self)@[index as int]->TypeArray_0.slots.insert(
                            slot as int,
                            long_high(value),
                        ).insert(slot + 1, long_low(value)),
                        ..old(self)@[index as int]->TypeArray_0
                    },
                ),
            ),
    {
        let ghost before = self@;
        match &mut self.allocated[index] {
            HeapEntry::TypeArray(a) => {
                a.put_long(slot, value);
            },
            _ => {},
        }
        assert(self@ =~= before.update(
            index as int,
            SpecHeapEntry::TypeArray(
                SpecTypeArray {
                    slots: before[index as int]->TypeArray_0.slots.insert(
                        slot as int,
                        long_high(value),
                    ).insert(slot + 1, long_low(value)),
                    ..before[index as int]->TypeArray_0
                },
            ),
        ));
    }

    /// Inserts `value` at `slot` of the reference array at `index`.
    pub fn ref_array_set(&mut self, index: usize, slot: usize, value: usize)
        requires
            index < old(self)@.len(),
            old(self)@[index as int] matches SpecHeapEntry::ReferenceArray(a) && slot
                <= a.elements.len(),
        ensures
            final(self)@ == old(self)@.update(
                index as int,
                SpecHeapEntry::ReferenceArray(
                    SpecRefArray {
                        elements: old(self)@[index as int]->ReferenceArray_0.elements.insert(
                            slot as int,
                            value,
                        ),
                        ..old(self)@[index as int]->ReferenceArray_0
                    },
                ),
            ),
    {
        let ghost before = self@;
        match &mut self.allocated[index] {
            HeapEntry::ReferenceArray(a) => {
                a.set(slot, value);
            },
            _ => {},
        }
        assert(self@ =~= before.update(
            index as int,
            SpecHeapEntry::ReferenceArray(
                SpecRefArray {
                    elements: before[index as int]->ReferenceArray_0.elements.insert(slot as int, value),
                    ..before[index as int]->ReferenceArray_0
                },
            ),
        ));
    }

    /// Allocates an instance.
    pub fn push_ref(&mut self, object: InstanceObject)
        ensures
            final(self).entries() == old(self).entries().push(HeapEntry::Instance(object)),
            final(self)@ == old(self)@.push(SpecHeapEntry::Instance(object@)),
            final(self).capacity() == old(self).capacity(),
    {
        let ghost before = self@;
        let ghost v = object@;
        self.allocated.push(HeapEntry::Instance(object));
        assert(self@ =~= before.push(SpecHeapEntry::Instance(v)));
    }

    /// Allocates a reference array.
    pub fn push_ref_array(&mut self, object: ReferenceArrayObject)
        ensures
            final(self).entries() == old(self).entries().push(HeapEntry::ReferenceArray(object)),
            final(self)@ == old(self)@.push(SpecHeapEntry::ReferenceArray(object@)),
            final(self).capacity() == old(self).capacity(),
    {
        let ghost before = self@;
        let ghost v = object@;
        self.allocated.push(HeapEntry::ReferenceArray(object));
        assert(self@ =~= before.push(SpecHeapEntry::ReferenceArray(v)));
    }

    /// Allocates a primitive array.
    pub fn push_type_array(&mut self, object: TypeArrayObject)
        ensures
            final(self).entries() == old(self).entries().push(HeapEntry::TypeArray(object)),
            final(self)@ == old(self)@.push(SpecHeapEntry::TypeArray(object@)),
            final(self).capacity() == old(self).capacity(),
    {
        let ghost before = self@;
        let ghost v = object@;
        self.allocated.push(HeapEntry::TypeArray(object));
        assert(self@ =~= before.push(SpecHeapEntry::TypeArray(v)));
    }
}

} // verus!
