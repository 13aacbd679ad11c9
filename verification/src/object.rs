//! Objects and arrays allocated on the heap.
//!
//! Instances and primitive arrays keep their contents in 32-bit slots; a
//! `long` takes two, its upper half first.  Putting a value at an index
//! inserts it there, moving the slots from that index up by one; reading
//! past the end gives 0.  Classes are named by their binary names, and the
//! elements of reference arrays by the heap indices of the objects.

use internship::IStr;
use vstd::prelude::*;
use vstd::utf8::is_scalar;
use crate::stack_frame::{long_high, long_low, parts_to_long, spec_parts_to_long};
use crate::strings::{char_from_u32, istr_as_str, istr_view};
use crate::vm_types::ArrayType;

verus! {

/// Slot `i` of `s`, or 0 past the end.
pub open spec fn slot_value(s: Seq<u32>, i: int) -> u32 {
    if 0 <= i < s.len() {
        s[i]
    } else {
        0
    }
}

/// A value put at an index is read back there.
pub proof fn law_put_get(s: Seq<u32>, index: int, value: u32)
    requires
        0 <= index <= s.len(),
    ensures
        slot_value(s.insert(index, value), index) == value,
{
}

/// A `long` put at an index is read back there.
pub proof fn law_put_get_long(s: Seq<u32>, index: int, value: i64)
    requires
        0 <= index <= s.len(),
    ensures
        spec_parts_to_long(
            slot_value(s.insert(index, long_high(value)).insert(index + 1, long_low(value)), index),
            slot_value(
                s.insert(index, long_high(value)).insert(index + 1, long_low(value)),
                index + 1,
            ),
        ) == value,
{
    crate::stack_frame::lemma_long_halves(value);
}

pub struct SpecInstance {
    pub offset: usize,
    pub class: Seq<char>,
    pub slots: Seq<u32>,
}

pub struct SpecTypeArray {
    pub offset: usize,
    pub array_type: ArrayType,
    pub length: usize,
    pub slots: Seq<u32>,
}

pub struct SpecRefArray {
    pub offset: usize,
    pub class: Seq<char>,
    pub element_class: Seq<char>,
    pub length: usize,
    pub elements: Seq<usize>,
}

/// Something allocated on the heap.
pub trait HeapObject {
    spec fn spec_offset(&self) -> usize;

    /// The heap index that the object was allocated at.
    fn offset(&self) -> (r: usize)
        ensures
            r == self.spec_offset(),
    ;
}

/// An object on the heap that has a class.
pub trait ReferenceHeapObject: HeapObject {
    spec fn spec_class(&self) -> Seq<char>;

    /// The binary name of the object's class.
    fn class(&self) -> (r: &str)
        ensures
            r@ == self.spec_class(),
    ;
}

// ---------------------------------------------------------------------------
// Instances
// ---------------------------------------------------------------------------

/// An instance of a class; its fields are slots.
#[derive(Debug)]
pub struct InstanceObject {
    offset: usize,
    class: IStr,
    fields: Vec<u32>,
}

impl InstanceObject {
    /// The field slots.
    pub closed spec fn slots(&self) -> Seq<u32> {
        self.fields@
    }

    /// The heap index and the class name.
    pub closed spec fn rest(&self) -> (usize, Seq<char>) {
        (self.offset, istr_view(self.class))
    }

    /// An instance with no field slots yet; `field_count` is a capacity hint.
    pub fn new(offset: usize, class: IStr, field_count: usize) -> (r: InstanceObject)
        ensures
            r.slots() == Seq::<u32>::empty(),
            r.rest() == (offset, istr_view(class)),
    {
        InstanceObject { offset, class, fields: Vec::with_capacity(field_count) }
    }

    /// The slot at `index`; 0 past the end.
    pub fn get(&self, index: usize) -> (r: u32)
        ensures
            r == slot_value(self.slots(), index as int),
    {
        if index < self.fields.len() {
            self.fields[index]
        } else {
            0
        }
    }

    /// Inserts `value` at `index`, moving the slots from there up by one.
    pub fn put(&mut self, index: usize, value: u32)
        requires
            index <= old(self).slots().len(),
        ensures
            final(self).slots() == old(self).slots().insert(index as int, value),
            final(self).rest() == old(self).rest(),
    {
        self.fields.insert(index, value);
    }

    pub fn get_bool(&self, index: usize) -> (r: bool)
        ensures
            r == (slot_value(self.slots(), index as int) != 0),
    {
        self.get(index) != 0
    }

    pub fn get_byte(&self, index: usize) -> (r: i8)
        ensures
            r == slot_value(self.slots(), index as int) as i8,
    {
        self.get(index) as i8
    }

    pub fn get_char(&self, index: usize) -> (r: char)
        requires
            is_scalar(slot_value(self.slots(), index as int)),
        ensures
            r as u32 == slot_value(self.slots(), index as int),
    {
        match char_from_u32(self.get(index)) {
            Some(c) => c,
            None => {
                proof {
                    assert(false);
                }
                ' '
            },
        }
    }

    pub fn get_short(&self, index: usize) -> (r: i16)
        ensures
            r == slot_value(self.slots(), index as int) as i16,
    {
        self.get(index) as i16
    }

    pub fn get_int(&self, index: usize) -> (r: i32)
        ensures
            r == slot_value(self.slots(), index as int) as i32,
    {
        self.get(index) as i32
    }

    /// The `long` whose upper half is at `index` and lower half after it.
    pub fn get_long(&self, index: usize) -> (r: i64)
        requires
            index < usize::MAX,
        ensures
            r == spec_parts_to_long(
                slot_value(self.slots(), index as int),
                slot_value(self.slots(), index + 1),
            ),
    {
        let most = self.get(index);
        let least = self.get(index + 1);
        parts_to_long(most, least)
    }

    pub fn put_bool(&mut self, index: usize, value: bool)
        requires
            index <= old(self).slots().len(),
        ensures
            final(self).slots() == old(self).slots().insert(index as int, if value { 1u32 } else { 0u32 }),
            final(self).rest() == old(self).rest(),
    {
        self.put(index, if value { 1 } else { 0 });
    }

    pub fn put_byte(&mut self, index: usize, value: i8)
        requires
            index <= old(self).slots().len(),
        ensures
            final(self).slots() == old(self).slots().insert(index as int, value as u32),
            final(self).rest() == old(self).rest(),
    {
        self.put(index, value as u32);
    }

    pub fn put_char(&mut self, index: usize, value: char)
        requires
            index <= old(self).slots().len(),
        ensures
            final(self).slots() == old(self).slots().insert(index as int, value as u32),
            final(self).rest() == old(self).rest(),
    {
        self.put(index, value as u32);
    }

    pub fn put_short(&mut self, index: usize, value: i16)
        requires
            index <= old(self).slots().len(),
        ensures
            final(self).slots() == old(self).slots().insert(index as int, value as u32),
            final(self).rest() == old(self).rest(),
    {
        self.put(index, value as u32);
    }

    pub fn put_int(&mut self, index: usize, value: i32)
        requires
            index <= old(self).slots().len(),
        ensures
            final(self).slots() == old(self).slots().insert(index as int, value as u32),
            final(self).rest() == old(self).rest(),
    {
        self.put(index, value as u32);
    }

    /// Inserts the upper half of `value` at `index` and its lower half
    /// after it.
    pub fn put_long(&mut self, index: usize, value: i64)
        requires
            index <= old(self).slots().len(),
            index < usize::MAX,
        ensures
            final(self).slots() == old(self).slots().insert(index as int, long_high(value)).insert(
                index + 1,
                long_low(value),
            ),
            final(self).rest() == old(self).rest(),
    {
        self.put(index, (value >> 32) as u32);
        self.put(index + 1, value as u32);
    }
}

impl View for InstanceObject {
    type V = SpecInstance;

    open spec fn view(&self) -> SpecInstance {
        SpecInstance { offset: self.rest().0, class: self.rest().1, slots: self.slots() }
    }
}

impl HeapObject for InstanceObject {
    open spec fn spec_offset(&self) -> usize {
        self.rest().0
    }

    fn offset(&self) -> (r: usize) {
        self.offset
    }
}

impl ReferenceHeapObject for InstanceObject {
    open spec fn spec_class(&self) -> Seq<char> {
        self.rest().1
    }

    fn class(&self) -> (r: &str) {
        istr_as_str(&self.class)
    }
}

// ---------------------------------------------------------------------------
// Primitive arrays
// ---------------------------------------------------------------------------

/// An array of a primitive type; its elements are slots.
#[derive(Debug)]
pub struct TypeArrayObject {
    offset: usize,
    array_type: ArrayType,
    length: usize,
    elements: Vec<u32>,
}

impl TypeArrayObject {
    /// The element slots.
    pub closed spec fn slots(&self) -> Seq<u32> {
        self.elements@
    }

    /// The heap index, the element type and the declared length.
    pub closed spec fn rest(&self) -> (usize, ArrayType, usize) {
        (self.offset, self.array_type, self.length)
    }

    /// An array of `length` elements, none of them stored yet.
    pub fn new(offset: usize, array_type: ArrayType, length: usize) -> (r: TypeArrayObject)
        ensures
            r.slots() == Seq::<u32>::empty(),
            r.rest() == (offset, array_type, length),
    {
        TypeArrayObject { offset, array_type, length, elements: Vec::new() }
    }

    pub fn array_type(&self) -> (r: ArrayType)
        ensures
            r == self.rest().1,
    {
        self.array_type
    }

    /// The declared length.
    pub fn len(&self) -> (r: usize)
        ensures
            r == self.rest().2,
    {
        self.length
    }

    /// The number of element slots stored.
    pub fn slots_len(&self) -> (r: usize)
        ensures
            r == self.slots().len(),
    {
        self.elements.len()
    }

    /// The slot at `index`; 0 past the end.
    pub fn get(&self, index: usize) -> (r: u32)
        ensures
            r == slot_value(self.slots(), index as int),
    {
        if index < self.elements.len() {
            self.elements[index]
        } else {
            0
        }
    }

    /// Inserts `value` at `index`, moving the slots from there up by one.
    pub fn put(&mut self, index: usize, value: u32)
        requires
            index <= old(self).slots().len(),
        ensures
            final(self).slots() == old(self).slots().insert(index as int, value),
            final(self).rest() == old(self).rest(),
    {
        self.elements.insert(index, value);
    }

    pub fn get_bool(&self, index: usize) -> (r: bool)
        ensures
            r == (slot_value(self.slots(), index as int) != 0),
    {
        self.get(index) != 0
    }

    pub fn get_byte(&self, index: usize) -> (r: i8)
        ensures
            r == slot_value(self.slots(), index as int) as i8,
    {
        self.get(index) as i8
    }

    pub fn get_char(&self, index: usize) -> (r: char)
        requires
            is_scalar(slot_value(self.slots(), index as int)),
        ensures
            r as u32 == slot_value(self.slots(), index as int),
    {
        match char_from_u32(self.get(index)) {
            Some(c) => c,
            None => {
                proof {
                    assert(false);
                }
                ' '
            },
        }
    }

    pub fn get_short(&self, index: usize) -> (r: i16)
        ensures
            r == slot_value(self.slots(), index as int) as i16,
    {
        self.get(index) as i16
    }

    pub fn get_int(&self, index: usize) -> (r: i32)
        ensures
            r == slot_value(self.slots(), index as int) as i32,
    {
        self.get(index) as i32
    }

    /// The `long` whose upper half is at `index` and lower half after it.
    pub fn get_long(&self, index: usize) -> (r: i64)
        requires
            index < usize::MAX,
        ensures
            r == spec_parts_to_long(
                slot_value(self.slots(), index as int),
                slot_value(self.slots(), index + 1),
            ),
    {
        let most = self.get(index);
        let least = self.get(index + 1);
        parts_to_long(most, least)
    }

    pub fn put_bool(&mut self, index: usize, value: bool)
        requires
            index <= old(self).slots().len(),
        ensures
            final(self).slots() == old(self).slots().insert(index as int, if value { 1u32 } else { 0u32 }),
            final(self).rest() == old(self).rest(),
    {
        self.put(index, if value { 1 } else { 0 });
    }

    pub fn put_byte(&mut self, index: usize, value: i8)
        requires
            index <= old(self).slots().len(),
        ensures
            final(self).slots() == old(self).slots().insert(index as int, value as u32),
            final(self).rest() == old(self).rest(),
    {
        self.put(index, value as u32);
    }

    pub fn put_char(&mut self, index: usize, value: char)
        requires
            index <= old(self).slots().len(),
        ensures
            final(self).slots() == old(self).slots().insert(index as int, value as u32),
            final(self).rest() == old(self).rest(),
    {
        self.put(index, value as u32);
    }

    pub fn put_short(&mut self, index: usize, value: i16)
        requires
            index <= old(self).slots().len(),
        ensures
            final(self).slots() == old(self).slots().insert(index as int, value as u32),
            final(self).rest() == old(self).rest(),
    {
        self.put(index, value as u32);
    }

    pub fn put_int(&mut self, index: usize, value: i32)
        requires
            index <= old(self).slots().len(),
        ensures
            final(self).slots() == old(self).slots().insert(index as int, value as u32),
            final(self).rest() == old(self).rest(),
    {
        self.put(index, value as u32);
    }

    /// Inserts the upper half of `value` at `index` and its lower half
    /// after it.
    pub fn put_long(&mut self, index: usize, value: i64)
        requires
            index <= old(self).slots().len(),
            index < usize::MAX,
        ensures
            final(self).slots() == old(self).slots().insert(index as int, long_high(value)).insert(
                index + 1,
                long_low(value),
            ),
            final(self).rest() == old(self).rest(),
    {
        self.put(index, (value >> 32) as u32);
        self.put(index + 1, value as u32);
    }
}

impl View for TypeArrayObject {
    type V = SpecTypeArray;

    open spec fn view(&self) -> SpecTypeArray {
        SpecTypeArray {
            offset: self.rest().0,
            array_type: self.rest().1,
            length: self.rest().2,
            slots: self.slots(),
        }
    }
}

impl HeapObject for TypeArrayObject {
    open spec fn spec_offset(&self) -> usize {
        self.rest().0
    }

    fn offset(&self) -> (r: usize) {
        self.offset
    }
}

// ---------------------------------------------------------------------------
// Reference arrays
// ---------------------------------------------------------------------------

/// An array of references to instances, held as their heap indices.
#[derive(Debug)]
pub struct ReferenceArrayObject {
    offset: usize,
    class: IStr,
    element_class: IStr,
    length: usize,
    elements: Vec<usize>,
}

impl ReferenceArrayObject {
    /// The heap indices stored so far.
    pub closed spec fn elements(&self) -> Seq<usize> {
        self.elements@
    }

    /// The heap index, the class, the element class and the declared
    /// length.
    pub closed spec fn rest(&self) -> (usize, Seq<char>, Seq<char>, usize) {
        (self.offset, istr_view(self.class), istr_view(self.element_class), self.length)
    }

    pub fn new(offset: usize, class: IStr, element_class: IStr, length: usize) -> (r: ReferenceArrayObject)
        ensures
            r.elements() == Seq::<usize>::empty(),
            r.rest() == (offset, istr_view(class), istr_view(element_class), length),
    {
        ReferenceArrayObject { offset, class, element_class, length, elements: Vec::new() }
    }

    /// The binary name of the class of the elements.
    pub fn element_class(&self) -> (r: &str)
        ensures
            r@ == self.rest().2,
    {
        istr_as_str(&self.element_class)
    }

    /// The declared length.
    pub fn len(&self) -> (r: usize)
        ensures
            r == self.rest().3,
    {
        self.length
    }

    /// The number of elements stored.
    pub fn elements_len(&self) -> (r: usize)
        ensures
            r == self.elements().len(),
    {
        self.elements.len()
    }

    /// The element at `index`, if one is stored there.
    pub fn get(&self, index: usize) -> (r: Option<usize>)
        ensures
            r == if index < self.elements().len() {
                Some(self.elements()[index as int])
            } else {
                None
            },
    {
        if index < self.elements.len() {
            Some(self.elements[index])
        } else {
            None
        }
    }

    /// Inserts `value` at `index`, moving the elements from there up by one.
    pub fn set(&mut self, index: usize, value: usize)
        requires
            index <= old(self).elements().len(),
        ensures
            final(self).elements() == old(self).elements().insert(index as int, value),
            final(self).rest() == old(self).rest(),
    {
        self.elements.insert(index, value);
    }
}

impl View for ReferenceArrayObject {
    type V = SpecRefArray;

    open spec fn view(&self) -> SpecRefArray {
        SpecRefArray {
            offset: self.rest().0,
            class: self.rest().1,
            element_class: self.rest().2,
            length: self.rest().3,
            elements: self.elements(),
        }
    }
}

impl HeapObject for ReferenceArrayObject {
    open spec fn spec_offset(&self) -> usize {
        self.rest().0
    }

    fn offset(&self) -> (r: usize) {
        self.offset
    }
}

impl ReferenceHeapObject for ReferenceArrayObject {
    open spec fn spec_class(&self) -> Seq<char> {
        self.rest().1
    }

    fn class(&self) -> (r: &str) {
        istr_as_str(&self.class)
    }
}

} // verus!
