//! The bytecode cursor and the instructions that only move operand stack
//! slots or the cursor: `pop`, the `dup` family, `swap`, conditional
//! branches, `goto` and `jsr`.
//!
//! Setting a stack slot at an offset inserts it, so the `dup` and `swap`
//! instructions leave the stack as their contracts spell out slot by slot.

use vstd::prelude::*;
use crate::buffers::be_u16;
use crate::constants::{
    JVM_OPCODE_IFEQ, JVM_OPCODE_IFGE, JVM_OPCODE_IFGT, JVM_OPCODE_IFLE, JVM_OPCODE_IFLT,
    JVM_OPCODE_IFNE, JVM_OPCODE_IF_ICMPEQ, JVM_OPCODE_IF_ICMPGE, JVM_OPCODE_IF_ICMPGT,
    JVM_OPCODE_IF_ICMPLE, JVM_OPCODE_IF_ICMPLT, JVM_OPCODE_IF_ICMPNE,
};
use crate::stack_frame::StackFrame;

verus! {

/// A cursor over the bytecode of a method.
pub struct CodeParser<'a> {
    bytes: &'a [u8],
    index: u16,
}

impl<'a> CodeParser<'a> {
    /// The bytecode.
    pub closed spec fn code(&self) -> Seq<u8> {
        self.bytes@
    }

    /// The position of the next byte to read.
    pub closed spec fn position(&self) -> u16 {
        self.index
    }

    pub fn new(bytes: &'a [u8]) -> (r: CodeParser<'a>)
        ensures
            r.code() == bytes@,
            r.position() == 0,
    {
        CodeParser { bytes, index: 0 }
    }

    /// The position of the next byte to read.
    pub fn position_exec(&self) -> (r: u16)
        ensures
            r == self.position(),
    {
        self.index
    }

    /// The length of the bytecode.
    pub fn code_len(&self) -> (r: usize)
        ensures
            r == self.code().len(),
    {
        self.bytes.len()
    }

    /// The byte at `index`.
    pub fn code_at(&self, index: usize) -> (r: u8)
        requires
            index < self.code().len(),
        ensures
            r == self.code()[index as int],
    {
        self.bytes[index]
    }

    /// Whether the bytecode is empty (whatever the position).
    pub fn is_empty(&self) -> (r: bool)
        ensures
            r == (self.code().len() == 0),
    {
        self.bytes.len() == 0
    }

    /// Reads the byte at the position and moves past it.
    pub fn next(&mut self) -> (r: u8)
        requires
            (old(self).position() as int) < old(self).code().len(),
            old(self).position() < u16::MAX,
        ensures
            r == old(self).code()[old(self).position() as int],
            final(self).position() == old(self).position() + 1,
            final(self).code() == old(self).code(),
    {
        let next = self.bytes[self.index as usize];
        self.index = self.index + 1;
        next
    }

    /// The position after the next byte.
    pub fn next_index(&self) -> (r: u32)
        requires
            self.position() < u16::MAX,
        ensures
            r == self.position() + 1,
    {
        (self.index + 1) as u32
    }

    /// Moves to `index`, taken modulo 65536.
    pub fn seek(&mut self, index: usize)
        ensures
            final(self).position() == index as u16,
            final(self).code() == old(self).code(),
    {
        self.index = index as u16;
    }

    /// Moves forward by `offset`, taken modulo 65536.
    pub fn seek_relative(&mut self, offset: usize)
        requires
            old(self).position() + (offset as u16) <= u16::MAX,
        ensures
            final(self).position() == old(self).position() + (offset as u16),
            final(self).code() == old(self).code(),
    {
        self.index = self.index + offset as u16;
    }
}

/// Whether a cursor's bytecode is empty does not depend on how far it has
/// read: two cursors over the same bytecode agree, wherever they stand.
pub proof fn law_is_empty_ignores_position<'a, 'b>(a: CodeParser<'a>, b: CodeParser<'b>)
    requires
        a.code() == b.code(),
    ensures
        (a.code().len() == 0) == (b.code().len() == 0),
{
}

// ---------------------------------------------------------------------------
// Stack manipulation
// ---------------------------------------------------------------------------

/// The slot `k` places below the top of `s`.
pub open spec fn slot(s: Seq<u32>, k: int) -> u32 {
    s[s.len() - 1 - k]
}

/// `s` without its top `k` slots.
pub open spec fn below(s: Seq<u32>, k: int) -> Seq<u32> {
    s.take(s.len() - k)
}

/// Pops one slot, or two when `double`.
pub fn pop(frame: &mut StackFrame, double: bool)
    requires
        old(frame).stack().len() >= if double { 2int } else { 1int },
    ensures
        final(frame).stack() == below(old(frame).stack(), if double { 2int } else { 1int }),
        final(frame).locals() == old(frame).locals(),
{
    frame.pop_op();
    if double {
        frame.pop_op();
    }
    proof {
        assert(frame.stack() =~= below(old(frame).stack(), if double { 2int } else { 1int }));
    }
}

/// Pushes a copy of the top slot.
pub fn dup(frame: &mut StackFrame)
    requires
        old(frame).stack().len() >= 1,
    ensures
        final(frame).stack() == old(frame).stack().push(slot(old(frame).stack(), 0)),
        final(frame).locals() == old(frame).locals(),
{
    let value = frame.get_op(0);
    frame.push_op(value);
}

pub fn dup_x1(frame: &mut StackFrame)
    requires
        old(frame).stack().len() >= 2,
    ensures
        ({
            let s = old(frame).stack();
            final(frame).stack() == below(s, 2) + seq![
                slot(s, 0),
                slot(s, 1),
                slot(s, 1),
                slot(s, 0),
                slot(s, 0),
            ]
        }),
        final(frame).locals() == old(frame).locals(),
{
    let first = frame.get_op(0);
    let second = frame.get_op(1);
    frame.set_op(1, first);
    frame.set_op(0, second);
    frame.push_op(first);
    proof {
        let s = old(frame).stack();
        assert(frame.stack() =~= below(s, 2) + seq![
            slot(s, 0),
            slot(s, 1),
            slot(s, 1),
            slot(s, 0),
            slot(s, 0),
        ]);
    }
}

pub fn dup_x2(frame: &mut StackFrame)
    requires
        old(frame).stack().len() >= 3,
    ensures
        ({
            let s = old(frame).stack();
            final(frame).stack() == below(s, 3) + seq![
                slot(s, 0),
                slot(s, 2),
                slot(s, 2),
                slot(s, 1),
                slot(s, 1),
                slot(s, 0),
                slot(s, 0),
            ]
        }),
        final(frame).locals() == old(frame).locals(),
{
    let first = frame.get_op(0);
    let third = frame.get_op(2);
    frame.set_op(2, first);
    frame.push_op(first);
    let second = frame.get_op(2);
    frame.set_op(2, third);
    frame.set_op(1, second);
    proof {
        let s = old(frame).stack();
        assert(frame.stack() =~= below(s, 3) + seq![
            slot(s, 0),
            slot(s, 2),
            slot(s, 2),
            slot(s, 1),
            slot(s, 1),
            slot(s, 0),
            slot(s, 0),
        ]);
    }
}

/// Pushes copies of the top two slots, in their order.
pub fn dup2(frame: &mut StackFrame)
    requires
        old(frame).stack().len() >= 2,
    ensures
        ({
            let s = old(frame).stack();
            final(frame).stack() == s + seq![slot(s, 1), slot(s, 0)]
        }),
        final(frame).locals() == old(frame).locals(),
{
    let high = frame.get_op(1);
    frame.push_op(high);
    let low = frame.get_op(1);
    frame.push_op(low);
    proof {
        let s = old(frame).stack();
        assert(frame.stack() =~= s + seq![slot(s, 1), slot(s, 0)]);
    }
}

pub fn dup2_x1(frame: &mut StackFrame)
    requires
        old(frame).stack().len() >= 2,
    ensures
        ({
            let s = old(frame).stack();
            final(frame).stack() == below(s, 2) + seq![
                slot(s, 0),
                slot(s, 1),
                slot(s, 1),
                slot(s, 0),
                slot(s, 0),
                slot(s, 1),
                slot(s, 0),
            ]
        }),
        final(frame).locals() == old(frame).locals(),
{
    let first = frame.get_op(0);
    let second = frame.get_op(1);
    frame.push_op(second);
    frame.push_op(first);
    frame.set_op(3, first);
    let third = frame.get_op(4);
    frame.set_op(2, third);
    frame.set_op(4, second);
    proof {
        let s = old(frame).stack();
        assert(frame.stack() =~= below(s, 2) + seq![
            slot(s, 0),
            slot(s, 1),
            slot(s, 1),
            slot(s, 0),
            slot(s, 0),
            slot(s, 1),
            slot(s, 0),
        ]);
    }
}

pub fn dup2_x2(frame: &mut StackFrame)
    requires
        old(frame).stack().len() >= 3,
    ensures
        ({
            let s = old(frame).stack();
            final(frame).stack() == below(s, 3) + seq![
                slot(s, 2),
                slot(s, 0),
                slot(s, 2),
                slot(s, 1),
                slot(s, 0),
                slot(s, 2),
                slot(s, 0),
                slot(s, 1),
                slot(s, 0),
            ]
        }),
        final(frame).locals() == old(frame).locals(),
{
    let first = frame.get_op(0);
    let second = frame.get_op(1);
    frame.push_op(second);
    frame.push_op(first);
    let third = frame.get_op(4);
    frame.set_op(2, third);
    frame.set_op(4, first);
    let fourth = frame.get_op(5);
    let fifth = frame.get_op(3);
    frame.set_op(3, fourth);
    frame.set_op(5, fifth);
    proof {
        let s = old(frame).stack();
        assert(frame.stack() =~= below(s, 3) + seq![
            slot(s, 2),
            slot(s, 0),
            slot(s, 2),
            slot(s, 1),
            slot(s, 0),
            slot(s, 2),
            slot(s, 0),
            slot(s, 1),
            slot(s, 0),
        ]);
    }
}

pub fn swap(frame: &mut StackFrame)
    requires
        old(frame).stack().len() >= 2,
    ensures
        ({
            let s = old(frame).stack();
            final(frame).stack() == s + seq![slot(s, 1), slot(s, 0)]
        }),
        final(frame).locals() == old(frame).locals(),
{
    let first = frame.get_op(1);
    let second = frame.get_op(0);
    frame.set_op(0, first);
    frame.set_op(1, second);
    proof {
        let s = old(frame).stack();
        assert(frame.stack() =~= s + seq![slot(s, 1), slot(s, 0)]);
    }
}

// ---------------------------------------------------------------------------
// Branches
// ---------------------------------------------------------------------------

/// Where a 16-bit branch that starts at position `p` lands: the two offset
/// bytes are read and their big-endian value is added to the position after
/// them.
pub open spec fn branch_target(code: Seq<u8>, p: int) -> int {
    p + 2 + be_u16(code[p], code[p + 1]) as int
}

/// Whether a 16-bit branch at position `p` can be taken without leaving the
/// range of positions.
pub open spec fn can_branch(code: Seq<u8>, p: int) -> bool {
    p + 2 <= code.len() && branch_target(code, p) <= u16::MAX
}

/// Where a 32-bit branch that starts at position `p` lands: four offset
/// bytes are read, and the lower 16 bits of their value are added to the
/// position after them.
pub open spec fn branch_target_wide(code: Seq<u8>, p: int) -> int {
    p + 4 + be_u16(code[p + 2], code[p + 3]) as int
}

pub open spec fn can_branch_wide(code: Seq<u8>, p: int) -> bool {
    p + 4 <= code.len() && branch_target_wide(code, p) <= u16::MAX
}

/// Reads a 16-bit offset and moves forward by it.
pub fn branch_seek(parser: &mut CodeParser)
    requires
        can_branch(old(parser).code(), old(parser).position() as int),
    ensures
        final(parser).position() == branch_target(old(parser).code(), old(parser).position() as int),
        final(parser).code() == old(parser).code(),
{
    let b0 = parser.next();
    let b1 = parser.next();
    let index: i16 = ((b0 as i16) << 8u32) | (b1 as i16);
    assert(((((b0 as i16) << 8u32) | (b1 as i16)) as usize) as u16 == (b0 as u16) * 256u16 + (
    b1 as u16)) by (bit_vector);
    parser.seek_relative(index as usize);
}

/// Reads a 32-bit offset and moves forward by its lower 16 bits.
pub fn branch_seek_wide(parser: &mut CodeParser)
    requires
        can_branch_wide(old(parser).code(), old(parser).position() as int),
    ensures
        final(parser).position() == branch_target_wide(
            old(parser).code(),
            old(parser).position() as int,
        ),
        final(parser).code() == old(parser).code(),
{
    let b0 = parser.next();
    let b1 = parser.next();
    let b2 = parser.next();
    let b3 = parser.next();
    let index: i32 = ((b0 as i32) << 24u32) | ((b1 as i32) << 16u32) | ((b2 as i32) << 8u32) | (
    b3 as i32);
    assert(((((b0 as i32) << 24u32) | ((b1 as i32) << 16u32) | ((b2 as i32) << 8u32) | (
    b3 as i32)) as usize) as u16 == (b2 as u16) * 256u16 + (b3 as u16)) by (bit_vector);
    parser.seek_relative(index as usize);
}

/// Whether the comparison of `ifeq` to `ifle` holds of `value`.
pub open spec fn branch_holds(op: u8, value: i32) -> bool {
    (op == JVM_OPCODE_IFEQ && value == 0) || (op == JVM_OPCODE_IFNE && value != 0) || (op
        == JVM_OPCODE_IFLT && value < 0) || (op == JVM_OPCODE_IFLE && value <= 0) || (op
        == JVM_OPCODE_IFGT && value > 0) || (op == JVM_OPCODE_IFGE && value >= 0)
}

/// Whether the comparison of `if_icmpeq` to `if_icmple` holds of the top
/// `int` (first) and the one below it (second).
pub open spec fn int_branch_holds(op: u8, first: i32, second: i32) -> bool {
    (op == JVM_OPCODE_IF_ICMPEQ && first == second) || (op == JVM_OPCODE_IF_ICMPNE && first
        != second) || (op == JVM_OPCODE_IF_ICMPLT && first < second) || (op == JVM_OPCODE_IF_ICMPLE
        && first <= second) || (op == JVM_OPCODE_IF_ICMPGT && first > second) || (op
        == JVM_OPCODE_IF_ICMPGE && first >= second)
}

/// Pops an `int` and branches when the comparison of `op` with zero holds.
pub fn branch(frame: &mut StackFrame, parser: &mut CodeParser, op: u8)
    requires
        old(frame).stack().len() >= 1,
        branch_holds(op, old(frame).stack().last() as i32) ==> can_branch(
            old(parser).code(),
            old(parser).position() as int,
        ),
    ensures
        final(frame).stack() == old(frame).stack().drop_last(),
        final(frame).locals() == old(frame).locals(),
        final(parser).code() == old(parser).code(),
        final(parser).position() == if branch_holds(op, old(frame).stack().last() as i32) {
            branch_target(old(parser).code(), old(parser).position() as int) as u16
        } else {
            old(parser).position()
        },
{
    let value = frame.pop_int_op();
    let success = (op == JVM_OPCODE_IFEQ && value == 0) || (op == JVM_OPCODE_IFNE && value != 0)
        || (op == JVM_OPCODE_IFLT && value < 0) || (op == JVM_OPCODE_IFLE && value <= 0) || (op
        == JVM_OPCODE_IFGT && value > 0) || (op == JVM_OPCODE_IFGE && value >= 0);
    if success {
        branch_seek(parser);
    }
}

/// Pops two `int`s and branches when the comparison of `op` holds of them.
pub fn int_branch(frame: &mut StackFrame, parser: &mut CodeParser, op: u8)
    requires
        old(frame).stack().len() >= 2,
        int_branch_holds(
            op,
            slot(old(frame).stack(), 0) as i32,
            slot(old(frame).stack(), 1) as i32,
        ) ==> can_branch(old(parser).code(), old(parser).position() as int),
    ensures
        final(frame).stack() == below(old(frame).stack(), 2),
        final(frame).locals() == old(frame).locals(),
        final(parser).code() == old(parser).code(),
        final(parser).position() == if int_branch_holds(
            op,
            slot(old(frame).stack(), 0) as i32,
            slot(old(frame).stack(), 1) as i32,
        ) {
            branch_target(old(parser).code(), old(parser).position() as int) as u16
        } else {
            old(parser).position()
        },
{
    let first = frame.pop_int_op();
    let second = frame.pop_int_op();
    proof {
        assert(frame.stack() =~= below(old(frame).stack(), 2));
    }
    let success = (op == JVM_OPCODE_IF_ICMPEQ && first == second) || (op == JVM_OPCODE_IF_ICMPNE
        && first != second) || (op == JVM_OPCODE_IF_ICMPLT && first < second) || (op
        == JVM_OPCODE_IF_ICMPLE && first <= second) || (op == JVM_OPCODE_IF_ICMPGT && first
        > second) || (op == JVM_OPCODE_IF_ICMPGE && first >= second);
    if success {
        branch_seek(parser);
    }
}

/// Pushes the position after the opcode byte as the return address, then
/// branches by the 16-bit (or, when `wide`, 32-bit) offset that follows.
pub fn jump_subroutine(frame: &mut StackFrame, parser: &mut CodeParser, wide: bool)
    requires
        old(parser).position() < u16::MAX,
        if wide {
            can_branch_wide(old(parser).code(), old(parser).position() as int)
        } else {
            can_branch(old(parser).code(), old(parser).position() as int)
        },
    ensures
        final(frame).stack() == old(frame).stack().push((old(parser).position() + 1) as u32),
        final(frame).locals() == old(frame).locals(),
        final(parser).code() == old(parser).code(),
        final(parser).position() == if wide {
            branch_target_wide(old(parser).code(), old(parser).position() as int) as u16
        } else {
            branch_target(old(parser).code(), old(parser).position() as int) as u16
        },
{
    frame.push_op(parser.next_index());
    if wide {
        branch_seek_wide(parser);
    } else {
        branch_seek(parser);
    }
}

} // verus!
