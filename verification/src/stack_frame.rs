//! The local variable table and operand stack of a method activation.
//!
//! Both hold 32-bit slots.  A `long` takes two slots: its upper half is
//! written first, its lower half second.  Writing a local variable inserts the
//! slot at the given index, moving the slots after it up by one; so does
//! setting an operand stack slot at an offset from the top.

use vstd::prelude::*;
use vstd::utf8::is_scalar;
use crate::strings::char_from_u32;
use crate::heap::{HeapSpace, spec_get_ref, spec_get_ref_array, spec_get_type_array};
use crate::reference::Reference;

verus! {

/// The `long` whose upper half is `most` and lower half is `least`.
pub open spec fn spec_parts_to_long(most: u32, least: u32) -> i64 {
    (most as int * 0x1_0000_0000 + least as int) as i64
}

/// The upper half of a `long`.
pub open spec fn long_high(value: i64) -> u32 {
    (value >> 32u64) as u32
}

/// The lower half of a `long`.
pub open spec fn long_low(value: i64) -> u32 {
    value as u32
}

/// The `long` whose upper half is `most` and lower half is `least`.
pub fn parts_to_long(most: u32, least: u32) -> (r: i64)
    ensures
        r == spec_parts_to_long(most, least),
{
    let wide: u64 = ((most as u64) << 32u64) | (least as u64);
    assert(((most as u64) << 32u64) | (least as u64) == most as u64 * 0x1_0000_0000u64
        + least as u64) by (bit_vector);
    wide as i64
}

/// A `long` split into halves and put back together is the same `long`.
pub proof fn lemma_long_halves(value: i64)
    ensures
        spec_parts_to_long(long_high(value), long_low(value)) == value,
{
    assert(((((value >> 32u64) as u32) as u64) << 32u64 | ((value as u32) as u64)) as i64
        == value) by (bit_vector);
    assert(((((value >> 32u64) as u32) as u64) << 32u64 | ((value as u32) as u64))
        == (((value >> 32u64) as u32) as u64) * 0x1_0000_0000u64 + ((value as u32) as u64))
        by (bit_vector);
}

/// What a reference slot holds: 0 is null, any other value `v` names the
/// allocation at `v + 1`.
pub open spec fn slot_ref(v: u32, found: spec_fn(int) -> Reference) -> Reference {
    if v == 0 {
        Reference::Null
    } else {
        found(v + 1)
    }
}

pub struct StackFrame {
    local_variables: Vec<u32>,
    operand_stack: Vec<u32>,
}

impl StackFrame {
    /// The local variable slots.
    pub closed spec fn locals(&self) -> Seq<u32> {
        self.local_variables@
    }

    /// The operand stack slots, the top last.
    pub closed spec fn stack(&self) -> Seq<u32> {
        self.operand_stack@
    }

    /// The slot `offset` places below the top of the stack.
    pub open spec fn stack_at(&self, offset: int) -> u32 {
        self.stack()[self.stack().len() - 1 - offset]
    }

    /// An empty frame; the sizes are only capacity hints.
    pub fn new(max_stack: u16, max_locals: u16) -> (r: StackFrame)
        ensures
            r.locals() == Seq::<u32>::empty(),
            r.stack() == Seq::<u32>::empty(),
    {
        let local_variables = Vec::with_capacity(max_locals as usize);
        let operand_stack = Vec::with_capacity(max_stack as usize);
        StackFrame { local_variables, operand_stack }
    }

    // -- local variables ----------------------------------------------------

    pub fn get_local(&self, index: usize) -> (r: u32)
        requires
            index < self.locals().len(),
        ensures
            r == self.locals()[index as int],
    {
        self.local_variables[index]
    }

    pub fn get_local_bool(&self, index: usize) -> (r: bool)
        requires
            index < self.locals().len(),
        ensures
            r == (self.locals()[index as int] != 0),
    {
        self.get_local(index) != 0
    }

    pub fn get_local_byte(&self, index: usize) -> (r: i8)
        requires
            index < self.locals().len(),
        ensures
            r == (self.locals()[index as int] & 255) as i8,
    {
        (self.get_local(index) & 255) as i8
    }

    pub fn get_local_char(&self, index: usize) -> (r: char)
        requires
            index < self.locals().len(),
            is_scalar(self.locals()[index as int]),
        ensures
            r as u32 == self.locals()[index as int],
    {
        match char_from_u32(self.get_local(index)) {
            Some(c) => c,
            None => {
                proof {
                    assert(false);
                }
                ' '
            },
        }
    }

    pub fn get_local_short(&self, index: usize) -> (r: i16)
        requires
            index < self.locals().len(),
        ensures
            r == (self.locals()[index as int] & 65535) as i16,
    {
        (self.get_local(index) & 65535) as i16
    }

    pub fn get_local_int(&self, index: usize) -> (r: i32)
        requires
            index < self.locals().len(),
        ensures
            r == self.locals()[index as int] as i32,
    {
        self.get_local(index) as i32
    }

    /// The `long` whose upper half is at `index` and lower half after it.
    pub fn get_local_long(&self, index: usize) -> (r: i64)
        requires
            index + 1 < self.locals().len(),
        ensures
            r == spec_parts_to_long(self.locals()[index as int], self.locals()[index + 1]),
    {
        let _n = self.local_variables.len();
        parts_to_long(self.get_local(index), self.get_local(index + 1))
    }

    /// The slot at `index`, if there is one.
    pub fn get_local_return_address(&self, index: usize) -> (r: Option<u32>)
        ensures
            match r {
                Some(v) => index < self.locals().len() && v == self.locals()[index as int],
                None => index >= self.locals().len(),
            },
    {
        if index < self.local_variables.len() {
            Some(self.local_variables[index])
        } else {
            None
        }
    }

    fn set_local(&mut self, index: usize, value: u32)
        requires
            index <= old(self).locals().len(),
        ensures
            final(self).locals() == old(self).locals().insert(index as int, value),
            final(self).stack() == old(self).stack(),
    {
        self.local_variables.insert(index, value);
    }

    pub fn set_local_bool(&mut self, index: usize, value: bool)
        requires
            index <= old(self).locals().len(),
        ensures
            final(self).locals() == old(self).locals().insert(index as int, value as u32),
            final(self).stack() == old(self).stack(),
    {
        self.set_local(index, value as u32);
    }

    pub fn set_local_byte(&mut self, index: usize, value: i8)
        requires
            index <= old(self).locals().len(),
        ensures
            final(self).locals() == old(self).locals().insert(index as int, value as u32),
            final(self).stack() == old(self).stack(),
    {
        self.set_local(index, value as u32);
    }

    pub fn set_local_char(&mut self, index: usize, value: char)
        requires
            index <= old(self).locals().len(),
        ensures
            final(self).locals() == old(self).locals().insert(index as int, value as u32),
            final(self).stack() == old(self).stack(),
    {
        self.set_local(index, value as u32);
    }

    pub fn set_local_short(&mut self, index: usize, value: i16)
        requires
            index <= old(self).locals().len(),
        ensures
            final(self).locals() == old(self).locals().insert(index as int, value as u32),
            final(self).stack() == old(self).stack(),
    {
        self.set_local(index, value as u32);
    }

    pub fn set_local_int(&mut self, index: usize, value: i32)
        requires
            index <= old(self).locals().len(),
        ensures
            final(self).locals() == old(self).locals().insert(index as int, value as u32),
            final(self).stack() == old(self).stack(),
    {
        self.set_local(index, value as u32);
    }

    /// Inserts the upper half of `value` at `index`, then the lower half at
    /// `index` again, in front of it.
    pub fn set_local_long(&mut self, index: usize, value: i64)
        requires
            index <= old(self).locals().len(),
        ensures
            final(self).locals() == old(self).locals().insert(index as int, long_high(value)).insert(
                index as int,
                long_low(value),
            ),
            final(self).stack() == old(self).stack(),
    {
        self.set_local(index, (value >> 32u64) as u32);
        self.set_local(index, value as u32);
    }

    pub fn set_local_ref(&mut self, index: usize, value: u32)
        requires
            index <= old(self).locals().len(),
        ensures
            final(self).locals() == old(self).locals().insert(index as int, value),
            final(self).stack() == old(self).stack(),
    {
        self.set_local(index, value);
    }

    // -- pushing --------------------------------------------------------------

    pub fn push_op(&mut self, value: u32)
        ensures
            final(self).stack() == old(self).stack().push(value),
            final(self).locals() == old(self).locals(),
    {
        self.operand_stack.push(value);
    }

    pub fn push_bool_op(&mut self, value: bool)
        ensures
            final(self).stack() == old(self).stack().push(value as u32),
            final(self).locals() == old(self).locals(),
    {
        self.push_op(value as u32)
    }

    pub fn push_byte_op(&mut self, value: i8)
        ensures
            final(self).stack() == old(self).stack().push(value as u32),
            final(self).locals() == old(self).locals(),
    {
        self.push_op(value as u32)
    }

    pub fn push_char_op(&mut self, value: char)
        ensures
            final(self).stack() == old(self).stack().push(value as u32),
            final(self).locals() == old(self).locals(),
    {
        self.push_op(value as u32)
    }

    pub fn push_short_op(&mut self, value: i16)
        ensures
            final(self).stack() == old(self).stack().push(value as u32),
            final(self).locals() == old(self).locals(),
    {
        self.push_op(value as u32)
    }

    pub fn push_int_op(&mut self, value: i32)
        ensures
            final(self).stack() == old(self).stack().push(value as u32),
            final(self).locals() == old(self).locals(),
    {
        self.push_op(value as u32)
    }

    /// Pushes the upper half of `value`, then the lower half.
    pub fn push_long_op(&mut self, value: i64)
        ensures
            final(self).stack() == old(self).stack().push(long_high(value)).push(long_low(value)),
            final(self).locals() == old(self).locals(),
    {
        self.push_op((value >> 32u64) as u32);
        self.push_op(value as u32);
    }

    pub fn push_ref_op(&mut self, offset: u32)
        ensures
            final(self).stack() == old(self).stack().push(offset),
            final(self).locals() == old(self).locals(),
    {
        self.push_op(offset);
    }

    /// Pushes the null reference, whose slot is 0.
    pub fn push_null_op(&mut self)
        ensures
            final(self).stack() == old(self).stack().push(0),
            final(self).locals() == old(self).locals(),
    {
        self.push_op(0);
    }

    /// Inserts `value` below the slot `offset` places from the top.
    pub fn set_op(&mut self, offset: usize, value: u32)
        requires
            offset < old(self).stack().len(),
        ensures
            final(self).stack() == old(self).stack().insert(
                old(self).stack().len() - 1 - offset,
                value,
            ),
            final(self).locals() == old(self).locals(),
    {
        let at = self.operand_stack.len() - 1 - offset;
        self.operand_stack.insert(at, value)
    }

    // -- popping ----------------------------------------------------------------

    pub fn pop_op(&mut self) -> (r: u32)
        requires
            old(self).stack().len() > 0,
        ensures
            r == old(self).stack().last(),
            final(self).stack() == old(self).stack().drop_last(),
            final(self).locals() == old(self).locals(),
    {
        match self.operand_stack.pop() {
            Some(v) => v,
            None => {
                proof {
                    assert(false);
                }
                0
            },
        }
    }

    pub fn pop_bool_op(&mut self) -> (r: bool)
        requires
            old(self).stack().len() > 0,
        ensures
            r == (old(self).stack().last() != 0),
            final(self).stack() == old(self).stack().drop_last(),
            final(self).locals() == old(self).locals(),
    {
        self.pop_op() != 0
    }

    pub fn pop_byte_op(&mut self) -> (r: i8)
        requires
            old(self).stack().len() > 0,
        ensures
            r == old(self).stack().last() as i8,
            final(self).stack() == old(self).stack().drop_last(),
            final(self).locals() == old(self).locals(),
    {
        self.pop_op() as i8
    }

    pub fn pop_char_op(&mut self) -> (r: char)
        requires
            old(self).stack().len() > 0,
            is_scalar(old(self).stack().last()),
        ensures
            r as u32 == old(self).stack().last(),
            final(self).stack() == old(self).stack().drop_last(),
            final(self).locals() == old(self).locals(),
    {
        let v = self.pop_op();
        match char_from_u32(v) {
            Some(c) => c,
            None => {
                proof {
                    assert(false);
                }
                ' '
            },
        }
    }

    pub fn pop_short_op(&mut self) -> (r: i16)
        requires
            old(self).stack().len() > 0,
        ensures
            r == old(self).stack().last() as i16,
            final(self).stack() == old(self).stack().drop_last(),
            final(self).locals() == old(self).locals(),
    {
        self.pop_op() as i16
    }

    pub fn pop_int_op(&mut self) -> (r: i32)
        requires
            old(self).stack().len() > 0,
        ensures
            r == old(self).stack().last() as i32,
            final(self).stack() == old(self).stack().drop_last(),
            final(self).locals() == old(self).locals(),
    {
        self.pop_op() as i32
    }

    /// Pops two slots: the first popped (the top) becomes the upper half.
    pub fn pop_long_op(&mut self) -> (r: i64)
        requires
            old(self).stack().len() >= 2,
        ensures
            r == spec_parts_to_long(old(self).stack_at(0), old(self).stack_at(1)),
            final(self).stack() == old(self).stack().drop_last().drop_last(),
            final(self).locals() == old(self).locals(),
    {
        let most = self.pop_op();
        let least = self.pop_op();
        parts_to_long(most, least)
    }

    /// The reference in local variable `index`, looked up on `heap`.
    pub fn get_local_ref(&self, index: usize, heap: &HeapSpace) -> (r: Reference)
        requires
            index < self.locals().len(),
            self.locals()[index as int] < u32::MAX,
        ensures
            r == slot_ref(self.locals()[index as int], |i: int| spec_get_ref(heap@, i)),
    {
        let v = self.get_local(index);
        StackFrame::get_ref_at(v, heap)
    }

    /// Pops a reference and looks it up on `heap`.
    pub fn pop_ref_op(&mut self, heap: &HeapSpace) -> (r: Reference)
        requires
            old(self).stack().len() >= 1,
            old(self).stack().last() < u32::MAX,
        ensures
            r == slot_ref(old(self).stack().last(), |i: int| spec_get_ref(heap@, i)),
            final(self).stack() == old(self).stack().drop_last(),
            final(self).locals() == old(self).locals(),
    {
        let v = self.pop_op();
        StackFrame::get_ref_at(v, heap)
    }

    pub fn get_ref_at(v: u32, heap: &HeapSpace) -> (r: Reference)
        requires
            v < u32::MAX,
        ensures
            r == slot_ref(v, |i: int| spec_get_ref(heap@, i)),
    {
        let ref_index = (v + 1) as usize;
        if v == 0 {
            Reference::Null
        } else {
            heap.get_ref(ref_index)
        }
    }

    /// The reference in local variable `index`, looked up on `heap`.
    pub fn get_local_ref_array(&self, index: usize, heap: &HeapSpace) -> (r: Reference)
        requires
            index < self.locals().len(),
            self.locals()[index as int] < u32::MAX,
        ensures
            r == slot_ref(self.locals()[index as int], |i: int| spec_get_ref_array(heap@, i)),
    {
        let v = self.get_local(index);
        StackFrame::get_ref_array_at(v, heap)
    }

    /// Pops a reference and looks it up on `heap`.
    pub fn pop_ref_array_op(&mut self, heap: &HeapSpace) -> (r: Reference)
        requires
            old(self).stack().len() >= 1,
            old(self).stack().last() < u32::MAX,
        ensures
            r == slot_ref(old(self).stack().last(), |i: int| spec_get_ref_array(heap@, i)),
            final(self).stack() == old(self).stack().drop_last(),
            final(self).locals() == old(self).locals(),
    {
        let v = self.pop_op();
        StackFrame::get_ref_array_at(v, heap)
    }

    pub fn get_ref_array_at(v: u32, heap: &HeapSpace) -> (r: Reference)
        requires
            v < u32::MAX,
        ensures
            r == slot_ref(v, |i: int| spec_get_ref_array(heap@, i)),
    {
        let ref_index = (v + 1) as usize;
        if v == 0 {
            Reference::Null
        } else {
            heap.get_ref_array(ref_index)
        }
    }

    /// The reference in local variable `index`, looked up on `heap`.
    pub fn get_local_type_array(&self, index: usize, heap: &HeapSpace) -> (r: Reference)
        requires
            index < self.locals().len(),
            self.locals()[index as int] < u32::MAX,
        ensures
            r == slot_ref(self.locals()[index as int], |i: int| spec_get_type_array(heap@, i)),
    {
        let v = self.get_local(index);
        StackFrame::get_type_array_at(v, heap)
    }

    /// Pops a reference and looks it up on `heap`.
    pub fn pop_type_array_op(&mut self, heap: &HeapSpace) -> (r: Reference)
        requires
            old(self).stack().len() >= 1,
            old(self).stack().last() < u32::MAX,
        ensures
            r == slot_ref(old(self).stack().last(), |i: int| spec_get_type_array(heap@, i)),
            final(self).stack() == old(self).stack().drop_last(),
            final(self).locals() == old(self).locals(),
    {
        let v = self.pop_op();
        StackFrame::get_type_array_at(v, heap)
    }

    pub fn get_type_array_at(v: u32, heap: &HeapSpace) -> (r: Reference)
        requires
            v < u32::MAX,
        ensures
            r == slot_ref(v, |i: int| spec_get_type_array(heap@, i)),
    {
        let ref_index = (v + 1) as usize;
        if v == 0 {
            Reference::Null
        } else {
            heap.get_type_array(ref_index)
        }
    }


    pub fn peek_op(&self) -> (r: u32)
        requires
            self.stack().len() > 0,
        ensures
            r == self.stack().last(),
    {
        self.operand_stack[self.operand_stack.len() - 1]
    }

    /// The number of operand stack slots.
    pub fn stack_len(&self) -> (r: usize)
        ensures
            r == self.stack().len(),
    {
        self.operand_stack.len()
    }

    /// The number of local variable slots.
    pub fn locals_len(&self) -> (r: usize)
        ensures
            r == self.locals().len(),
    {
        self.local_variables.len()
    }

    /// The slot `offset` places below the top.
    pub fn get_op(&self, offset: usize) -> (r: u32)
        requires
            offset < self.stack().len(),
        ensures
            r == self.stack_at(offset as int),
    {
        if offset == 0 {
            return self.peek_op();
        }
        self.operand_stack[self.operand_stack.len() - 1 - offset]
    }
}

// ---------------------------------------------------------------------------
// Laws
// ---------------------------------------------------------------------------

/// Pushing a slot and popping it gives the slot back and the stack as it was.
pub proof fn law_push_pop(stack: Seq<u32>, value: u32)
    ensures
        stack.push(value).last() == value,
        stack.push(value).drop_last() == stack,
{
    assert(stack.push(value).drop_last() =~= stack);
}

/// An `int` pushed and popped is the same `int`.
pub proof fn law_push_pop_int(value: i32)
    ensures
        (value as u32) as i32 == value,
{
    assert((value as u32) as i32 == value) by (bit_vector);
}

/// A `long` pushed and popped comes back with its halves exchanged, since the
/// top slot is read as the upper half; it is the same `long` exactly when
/// both halves are equal.
pub proof fn law_push_pop_long(stack: Seq<u32>, value: i64)
    requires
        long_high(value) == long_low(value),
    ensures
        ({
            let s = stack.push(long_high(value)).push(long_low(value));
            spec_parts_to_long(s[s.len() - 1], s[s.len() - 2]) == value
        }),
        stack.push(long_high(value)).push(long_low(value)).drop_last().drop_last() == stack,
{
    lemma_long_halves(value);
    assert(stack.push(long_high(value)).push(long_low(value)).drop_last().drop_last() =~= stack);
}

/// A local variable slot written at an index is read back at that index.
pub proof fn law_set_get_local(locals: Seq<u32>, index: int, value: u32)
    requires
        0 <= index <= locals.len(),
    ensures
        locals.insert(index, value)[index] == value,
        locals.insert(index, value).len() == locals.len() + 1,
{
}

} // verus!
