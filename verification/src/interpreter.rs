//! The bytecode interpreter, one instruction at a time.
//!
//! [`Interpreter::step`] runs the instruction at the cursor on a stack
//! frame and the heap and says what happened: the method goes on, returns,
//! needs a class loaded first, or hit an instruction that it cannot run.
//! Instructions on `float` and `double` values are handed back to the
//! caller, which runs them on the raw slots.  The caller repeats the steps
//! until the method returns.

use internship::IStr;
use vstd::prelude::*;
use vstd::utf8::is_scalar;
use crate::class::Class;
use crate::class_loader::{ClassLoader, SpecEntry, find_key, spec_is_subclass};
use crate::code::{CodeBlock, ExceptionHandlerTable, SpecExceptionHandler, first_handler_from};
use crate::constant_pool::{ConstantPool, SpecPool, pool_class_name_at};
use crate::constants::{JVM_ACC_ABSTRACT, JVM_ACC_INTERFACE, JVM_OPCODE_AALOAD, JVM_OPCODE_AASTORE, JVM_OPCODE_ACONST_NULL, JVM_OPCODE_ALOAD, JVM_OPCODE_ALOAD_0, JVM_OPCODE_ALOAD_3, JVM_OPCODE_ANEWARRAY, JVM_OPCODE_ARETURN, JVM_OPCODE_ARRAYLENGTH, JVM_OPCODE_ASTORE, JVM_OPCODE_ASTORE_0, JVM_OPCODE_ASTORE_3, JVM_OPCODE_ATHROW, JVM_OPCODE_BALOAD, JVM_OPCODE_BASTORE, JVM_OPCODE_BIPUSH, JVM_OPCODE_CALOAD, JVM_OPCODE_CASTORE, JVM_OPCODE_CHECKCAST, JVM_OPCODE_D2F, JVM_OPCODE_DADD, JVM_OPCODE_DALOAD, JVM_OPCODE_DASTORE, JVM_OPCODE_DCMPG, JVM_OPCODE_DCONST_1, JVM_OPCODE_DDIV, JVM_OPCODE_DLOAD, JVM_OPCODE_DLOAD_3, JVM_OPCODE_DMUL, JVM_OPCODE_DNEG, JVM_OPCODE_DREM, JVM_OPCODE_DRETURN, JVM_OPCODE_DSTORE, JVM_OPCODE_DSTORE_3, JVM_OPCODE_DSUB, JVM_OPCODE_DUP, JVM_OPCODE_DUP2, JVM_OPCODE_DUP2_X1, JVM_OPCODE_DUP2_X2, JVM_OPCODE_DUP_X1, JVM_OPCODE_DUP_X2, JVM_OPCODE_FADD, JVM_OPCODE_FALOAD, JVM_OPCODE_FASTORE, JVM_OPCODE_FCMPL, JVM_OPCODE_FCONST_0, JVM_OPCODE_FDIV, JVM_OPCODE_FLOAD, JVM_OPCODE_FLOAD_0, JVM_OPCODE_FMUL, JVM_OPCODE_FNEG, JVM_OPCODE_FREM, JVM_OPCODE_FRETURN, JVM_OPCODE_FSTORE, JVM_OPCODE_FSTORE_0, JVM_OPCODE_FSUB, JVM_OPCODE_GOTO, JVM_OPCODE_GOTO_W, JVM_OPCODE_I2B, JVM_OPCODE_I2C, JVM_OPCODE_I2D, JVM_OPCODE_I2F, JVM_OPCODE_I2L, JVM_OPCODE_I2S, JVM_OPCODE_IADD, JVM_OPCODE_IALOAD, JVM_OPCODE_IAND, JVM_OPCODE_IASTORE, JVM_OPCODE_ICONST_0, JVM_OPCODE_ICONST_5, JVM_OPCODE_ICONST_M1, JVM_OPCODE_IDIV, JVM_OPCODE_IFEQ, JVM_OPCODE_IFGE, JVM_OPCODE_IFGT, JVM_OPCODE_IFLE, JVM_OPCODE_IFLT, JVM_OPCODE_IFNE, JVM_OPCODE_IFNONNULL, JVM_OPCODE_IFNULL, JVM_OPCODE_IF_ACMPEQ, JVM_OPCODE_IF_ACMPNE, JVM_OPCODE_IF_ICMPEQ, JVM_OPCODE_IF_ICMPGE, JVM_OPCODE_IF_ICMPGT, JVM_OPCODE_IF_ICMPLE, JVM_OPCODE_IF_ICMPLT, JVM_OPCODE_IF_ICMPNE, JVM_OPCODE_IINC, JVM_OPCODE_ILOAD, JVM_OPCODE_ILOAD_0, JVM_OPCODE_ILOAD_3, JVM_OPCODE_IMUL, JVM_OPCODE_INEG, JVM_OPCODE_INSTANCEOF, JVM_OPCODE_IOR, JVM_OPCODE_IREM, JVM_OPCODE_IRETURN, JVM_OPCODE_ISHL, JVM_OPCODE_ISHR, JVM_OPCODE_ISTORE, JVM_OPCODE_ISTORE_0, JVM_OPCODE_ISTORE_3, JVM_OPCODE_ISUB, JVM_OPCODE_IUSHR, JVM_OPCODE_IXOR, JVM_OPCODE_JSR, JVM_OPCODE_JSR_W, JVM_OPCODE_L2F, JVM_OPCODE_L2I, JVM_OPCODE_LADD, JVM_OPCODE_LALOAD, JVM_OPCODE_LAND, JVM_OPCODE_LASTORE, JVM_OPCODE_LCMP, JVM_OPCODE_LCONST_0, JVM_OPCODE_LCONST_1, JVM_OPCODE_LDIV, JVM_OPCODE_LLOAD, JVM_OPCODE_LLOAD_0, JVM_OPCODE_LLOAD_3, JVM_OPCODE_LMUL, JVM_OPCODE_LNEG, JVM_OPCODE_LOR, JVM_OPCODE_LREM, JVM_OPCODE_LRETURN, JVM_OPCODE_LSHL, JVM_OPCODE_LSHR, JVM_OPCODE_LSTORE, JVM_OPCODE_LSTORE_0, JVM_OPCODE_LSTORE_3, JVM_OPCODE_LSUB, JVM_OPCODE_LUSHR, JVM_OPCODE_LXOR, JVM_OPCODE_NEW, JVM_OPCODE_NEWARRAY, JVM_OPCODE_NOP, JVM_OPCODE_POP, JVM_OPCODE_POP2, JVM_OPCODE_RETURN, JVM_OPCODE_SALOAD, JVM_OPCODE_SASTORE, JVM_OPCODE_SIPUSH, JVM_OPCODE_SWAP};
use crate::heap::{HeapSpace, SpecHeapEntry, spec_get_ref, spec_get_ref_array, spec_get_type_array};
use crate::instructions::{
    CodeParser, below, branch, branch_holds, branch_seek, branch_seek_wide, branch_target,
    branch_target_wide, can_branch, can_branch_wide, dup, dup2, dup2_x1, dup2_x2, dup_x1, dup_x2,
    int_branch, int_branch_holds, jump_subroutine, pop, slot, swap,
};
use crate::object::{HeapObject, ReferenceHeapObject, InstanceObject, ReferenceArrayObject, SpecInstance, SpecRefArray, SpecTypeArray, TypeArrayObject, slot_value};
use crate::primitive_ops::{jvm_cmp_long, jvm_int_add, jvm_int_and, jvm_int_div, jvm_int_inc, jvm_int_mul, jvm_int_neg, jvm_int_or, jvm_int_rem, jvm_int_shl, jvm_int_shr, jvm_int_sub, jvm_int_to_byte, jvm_int_to_char, jvm_int_to_long, jvm_int_to_short, jvm_int_ushr, jvm_int_xor, jvm_load_int, jvm_load_long, jvm_long_add, jvm_long_and, jvm_long_div, jvm_long_mul, jvm_long_neg, jvm_long_or, jvm_long_rem, jvm_long_shl, jvm_long_shr, jvm_long_sub, jvm_long_to_int, jvm_long_ushr, jvm_long_xor, jvm_store_int, jvm_store_long, trunc_div, trunc_rem, with_int, with_long};
use crate::reference::Reference;
use crate::stack_frame::{StackFrame, long_high, long_low, parts_to_long, slot_ref, spec_parts_to_long};
use crate::strings::{istr_as_str, istr_clone, istr_view};
use crate::vm_types::{ArrayType, T_BOOLEAN, T_LONG, array_type_code, spec_array_type};

verus! {

// ---------------------------------------------------------------------------
// The model
// ---------------------------------------------------------------------------

/// What a method returned; `float` and `double` values as their bits.
pub enum SpecMethodResult {
    Integer(i32),
    Long(i64),
    Float(u32),
    Double(u64),
    Reference(Reference),
    Void,
    Exception,
}

/// What a step did.
pub enum SpecStep {
    /// The method goes on at the new position.
    Continue,
    /// The method returned.
    Return(SpecMethodResult),
    /// The instruction works on `float` or `double` values; the cursor is
    /// past its opcode and the caller runs it.
    FloatOp(u8),
    /// The class with this name must be loaded first; nothing changed.
    LoadClass(Seq<char>),
    /// The instruction cannot be run here.
    Fault,
}

/// The state that instructions change.
pub struct SpecState {
    pub locals: Seq<u32>,
    pub stack: Seq<u32>,
    pub pc: u16,
    pub heap: Seq<SpecHeapEntry>,
}

/// What instructions read but do not change: the bytecode, the constant
/// pool of the method's class, the loaded classes and the exception
/// handlers of the method.
pub struct SpecContext {
    pub code: Seq<u8>,
    pub pool: SpecPool,
    pub classes: Seq<SpecEntry>,
    pub handlers: Seq<SpecExceptionHandler>,
}

/// The `int` `k` slots below the top.
pub open spec fn int_slot(s: Seq<u32>, k: int) -> i32 {
    slot(s, k) as i32
}

/// The `long` whose upper half is `k` slots below the top.
pub open spec fn long_slot(s: Seq<u32>, k: int) -> i64 {
    spec_parts_to_long(slot(s, k), slot(s, k + 1))
}

// ---------------------------------------------------------------------------
// Arithmetic, logic and conversions on int and long
// ---------------------------------------------------------------------------

/// The stack after an `int` instruction from `iadd` to `i2s` (but those
/// on floating point values), or `None` when it cannot run: too few slots,
/// an overflow, a division by zero, a shift out of range, or a value that
/// is no character.
pub open spec fn spec_int_op(op: u8, s: Seq<u32>) -> Option<Seq<u32>> {
    let a = int_slot(s, 0);
    let b = int_slot(s, 1);
    let two = s.len() >= 2;
    if op == JVM_OPCODE_IADD {
        if two && i32::MIN <= a + b <= i32::MAX { Some(with_int(below(s, 2), (a + b) as i32)) } else { None }
    } else if op == JVM_OPCODE_ISUB {
        if two && i32::MIN <= a - b <= i32::MAX { Some(with_int(below(s, 2), (a - b) as i32)) } else { None }
    } else if op == JVM_OPCODE_IMUL {
        if two && i32::MIN <= a * b <= i32::MAX { Some(with_int(below(s, 2), (a * b) as i32)) } else { None }
    } else if op == JVM_OPCODE_IDIV {
        if two && b != 0 && !(a == i32::MIN && b == -1) {
            Some(with_int(below(s, 2), trunc_div(a as int, b as int) as i32))
        } else {
            None
        }
    } else if op == JVM_OPCODE_IREM {
        if two && b != 0 && !(a == i32::MIN && b == -1) {
            Some(with_int(below(s, 2), trunc_rem(a as int, b as int) as i32))
        } else {
            None
        }
    } else if op == JVM_OPCODE_INEG {
        if s.len() >= 1 && a != i32::MIN { Some(with_int(below(s, 1), (-a) as i32)) } else { None }
    } else if op == JVM_OPCODE_ISHL {
        if two && 0 <= b < 32 { Some(with_int(below(s, 2), a << b)) } else { None }
    } else if op == JVM_OPCODE_ISHR {
        if two && 0 <= b < 32 { Some(with_int(below(s, 2), a >> b)) } else { None }
    } else if op == JVM_OPCODE_IUSHR {
        if two && 0 <= b < 32 { Some(with_int(below(s, 2), ((a as u32) >> b) as i32)) } else { None }
    } else if op == JVM_OPCODE_IAND {
        if two { Some(with_int(below(s, 2), a & b)) } else { None }
    } else if op == JVM_OPCODE_IOR {
        if two { Some(with_int(below(s, 2), a | b)) } else { None }
    } else if op == JVM_OPCODE_IXOR {
        if two { Some(with_int(below(s, 2), a ^ b)) } else { None }
    } else if op == JVM_OPCODE_IINC {
        if s.len() >= 1 && a != i32::MAX { Some(with_int(below(s, 1), (a + 1) as i32)) } else { None }
    } else if op == JVM_OPCODE_I2L {
        if s.len() >= 1 { Some(with_long(below(s, 1), a as i64)) } else { None }
    } else if op == JVM_OPCODE_I2B {
        if s.len() >= 1 { Some(below(s, 1).push((a as i8) as u32)) } else { None }
    } else if op == JVM_OPCODE_I2C {
        if s.len() >= 1 && is_scalar(s.last()) { Some(s) } else { None }
    } else {
        // JVM_OPCODE_I2S
        if s.len() >= 1 { Some(below(s, 1).push((a as i16) as u32)) } else { None }
    }
}

/// The stack after a `long` instruction from `ladd` to `lcmp`.
pub open spec fn spec_long_op(op: u8, s: Seq<u32>) -> Option<Seq<u32>> {
    let a = long_slot(s, 0);
    let b = long_slot(s, 2);
    let four = s.len() >= 4;
    if op == JVM_OPCODE_LADD {
        if four && i64::MIN <= a + b <= i64::MAX { Some(with_long(below(s, 4), (a + b) as i64)) } else { None }
    } else if op == JVM_OPCODE_LSUB {
        if four && i64::MIN <= a - b <= i64::MAX { Some(with_long(below(s, 4), (a - b) as i64)) } else { None }
    } else if op == JVM_OPCODE_LMUL {
        if four && i64::MIN <= a * b <= i64::MAX { Some(with_long(below(s, 4), (a * b) as i64)) } else { None }
    } else if op == JVM_OPCODE_LDIV {
        if four && b != 0 && !(a == i64::MIN && b == -1) {
            Some(with_long(below(s, 4), trunc_div(a as int, b as int) as i64))
        } else {
            None
        }
    } else if op == JVM_OPCODE_LREM {
        if four && b != 0 && !(a == i64::MIN && b == -1) {
            Some(with_long(below(s, 4), trunc_rem(a as int, b as int) as i64))
        } else {
            None
        }
    } else if op == JVM_OPCODE_LNEG {
        if s.len() >= 2 && a != i64::MIN { Some(with_long(below(s, 2), (-a) as i64)) } else { None }
    } else if op == JVM_OPCODE_LSHL {
        if four && 0 <= b < 64 { Some(with_long(below(s, 4), a << b)) } else { None }
    } else if op == JVM_OPCODE_LSHR {
        if four && 0 <= b < 64 { Some(with_long(below(s, 4), a >> b)) } else { None }
    } else if op == JVM_OPCODE_LUSHR {
        if four && 0 <= b < 64 { Some(with_long(below(s, 4), ((a as u64) >> b) as i64)) } else { None }
    } else if op == JVM_OPCODE_LAND {
        if four { Some(with_long(below(s, 4), a & b)) } else { None }
    } else if op == JVM_OPCODE_LOR {
        if four { Some(with_long(below(s, 4), a | b)) } else { None }
    } else if op == JVM_OPCODE_LXOR {
        if four { Some(with_long(below(s, 4), a ^ b)) } else { None }
    } else if op == JVM_OPCODE_L2I {
        if s.len() >= 2 { Some(with_int(below(s, 2), a as i32)) } else { None }
    } else {
        // JVM_OPCODE_LCMP
        if four {
            Some(with_int(below(s, 4), if a > b { 1i32 } else if b > a { -1i32 } else { 0i32 }))
        } else {
            None
        }
    }
}

pub open spec fn is_int_op(op: u8) -> bool {
    op == JVM_OPCODE_IADD || op == JVM_OPCODE_ISUB || op == JVM_OPCODE_IMUL || op == JVM_OPCODE_IDIV
        || op == JVM_OPCODE_IREM || op == JVM_OPCODE_INEG || op == JVM_OPCODE_ISHL || op
        == JVM_OPCODE_ISHR || op == JVM_OPCODE_IUSHR || op == JVM_OPCODE_IAND || op == JVM_OPCODE_IOR
        || op == JVM_OPCODE_IXOR || op == JVM_OPCODE_IINC || op == JVM_OPCODE_I2L || op
        == JVM_OPCODE_I2B || op == JVM_OPCODE_I2C || op == JVM_OPCODE_I2S
}

pub open spec fn is_long_op(op: u8) -> bool {
    op == JVM_OPCODE_LADD || op == JVM_OPCODE_LSUB || op == JVM_OPCODE_LMUL || op == JVM_OPCODE_LDIV
        || op == JVM_OPCODE_LREM || op == JVM_OPCODE_LNEG || op == JVM_OPCODE_LSHL || op
        == JVM_OPCODE_LSHR || op == JVM_OPCODE_LUSHR || op == JVM_OPCODE_LAND || op == JVM_OPCODE_LOR
        || op == JVM_OPCODE_LXOR || op == JVM_OPCODE_L2I || op == JVM_OPCODE_LCMP
}

/// Runs an `int` instruction; `false` when it cannot run.
fn exec_int_op(op: u8, frame: &mut StackFrame) -> (r: bool)
    requires
        is_int_op(op),
    ensures
        match spec_int_op(op, old(frame).stack()) {
            Some(s) => r && final(frame).stack() == s && final(frame).locals() == old(frame).locals(),
            None => !r,
        },
{
    let len = frame.stack_len();
    if op == JVM_OPCODE_INEG || op == JVM_OPCODE_IINC || op == JVM_OPCODE_I2L || op == JVM_OPCODE_I2B
        || op == JVM_OPCODE_I2C || op == JVM_OPCODE_I2S {
        if len < 1 {
            return false;
        }
        let a = frame.get_op(0) as i32;
        if op == JVM_OPCODE_INEG {
            if a == i32::MIN {
                return false;
            }
            jvm_int_neg(frame);
        } else if op == JVM_OPCODE_IINC {
            if a == i32::MAX {
                return false;
            }
            jvm_int_inc(frame);
        } else if op == JVM_OPCODE_I2L {
            jvm_int_to_long(frame);
        } else if op == JVM_OPCODE_I2B {
            jvm_int_to_byte(frame);
        } else if op == JVM_OPCODE_I2C {
            if crate::strings::char_from_u32(frame.get_op(0)).is_none() {
                return false;
            }
            jvm_int_to_char(frame);
        } else {
            jvm_int_to_short(frame);
        }
        return true;
    }
    if len < 2 {
        return false;
    }
    let a = frame.get_op(0) as i32;
    let b = frame.get_op(1) as i32;
    if op == JVM_OPCODE_IADD {
        if (a as i64) + (b as i64) < i32::MIN as i64 || (a as i64) + (b as i64) > i32::MAX as i64 {
            return false;
        }
        jvm_int_add(frame);
    } else if op == JVM_OPCODE_ISUB {
        if (a as i64) - (b as i64) < i32::MIN as i64 || (a as i64) - (b as i64) > i32::MAX as i64 {
            return false;
        }
        jvm_int_sub(frame);
    } else if op == JVM_OPCODE_IMUL {
        if a.checked_mul(b).is_none() {
            return false;
        }
        jvm_int_mul(frame);
    } else if op == JVM_OPCODE_IDIV || op == JVM_OPCODE_IREM {
        if b == 0 || (a == i32::MIN && b == -1) {
            return false;
        }
        if op == JVM_OPCODE_IDIV {
            jvm_int_div(frame);
        } else {
            jvm_int_rem(frame);
        }
    } else if op == JVM_OPCODE_ISHL || op == JVM_OPCODE_ISHR || op == JVM_OPCODE_IUSHR {
        if b < 0 || b >= 32 {
            return false;
        }
        if op == JVM_OPCODE_ISHL {
            jvm_int_shl(frame);
        } else if op == JVM_OPCODE_ISHR {
            jvm_int_shr(frame);
        } else {
            jvm_int_ushr(frame);
        }
    } else if op == JVM_OPCODE_IAND {
        jvm_int_and(frame);
    } else if op == JVM_OPCODE_IOR {
        jvm_int_or(frame);
    } else {
        jvm_int_xor(frame);
    }
    true
}

/// Runs a `long` instruction; `false` when it cannot run.
fn exec_long_op(op: u8, frame: &mut StackFrame) -> (r: bool)
    requires
        is_long_op(op),
    ensures
        match spec_long_op(op, old(frame).stack()) {
            Some(s) => r && final(frame).stack() == s && final(frame).locals() == old(frame).locals(),
            None => !r,
        },
{
    let len = frame.stack_len();
    if op == JVM_OPCODE_LNEG || op == JVM_OPCODE_L2I {
        if len < 2 {
            return false;
        }
        let a = parts_to_long(frame.get_op(0), frame.get_op(1));
        if op == JVM_OPCODE_LNEG {
            if a == i64::MIN {
                return false;
            }
            jvm_long_neg(frame);
        } else {
            jvm_long_to_int(frame);
        }
        return true;
    }
    if len < 4 {
        return false;
    }
    let a = parts_to_long(frame.get_op(0), frame.get_op(1));
    let b = parts_to_long(frame.get_op(2), frame.get_op(3));
    if op == JVM_OPCODE_LADD {
        if (a as i128) + (b as i128) < i64::MIN as i128 || (a as i128) + (b as i128) > i64::MAX as i128 {
            return false;
        }
        jvm_long_add(frame);
    } else if op == JVM_OPCODE_LSUB {
        if (a as i128) - (b as i128) < i64::MIN as i128 || (a as i128) - (b as i128) > i64::MAX as i128 {
            return false;
        }
        jvm_long_sub(frame);
    } else if op == JVM_OPCODE_LMUL {
        if a.checked_mul(b).is_none() {
            return false;
        }
        jvm_long_mul(frame);
    } else if op == JVM_OPCODE_LDIV || op == JVM_OPCODE_LREM {
        if b == 0 || (a == i64::MIN && b == -1) {
            return false;
        }
        if op == JVM_OPCODE_LDIV {
            jvm_long_div(frame);
        } else {
            jvm_long_rem(frame);
        }
    } else if op == JVM_OPCODE_LSHL || op == JVM_OPCODE_LSHR || op == JVM_OPCODE_LUSHR {
        if b < 0 || b >= 64 {
            return false;
        }
        if op == JVM_OPCODE_LSHL {
            jvm_long_shl(frame);
        } else if op == JVM_OPCODE_LSHR {
            jvm_long_shr(frame);
        } else {
            jvm_long_ushr(frame);
        }
    } else if op == JVM_OPCODE_LAND {
        jvm_long_and(frame);
    } else if op == JVM_OPCODE_LOR {
        jvm_long_or(frame);
    } else if op == JVM_OPCODE_LXOR {
        jvm_long_xor(frame);
    } else {
        long_compare(frame);
    }
    true
}

/// Runs `lcmp`.
fn long_compare(frame: &mut StackFrame)
    requires
        old(frame).stack().len() >= 4,
    ensures
        final(frame).stack() == spec_long_op(JVM_OPCODE_LCMP, old(frame).stack())->0,
        final(frame).locals() == old(frame).locals(),
{
    jvm_cmp_long(frame);
}

// ---------------------------------------------------------------------------
// Constants, local variables and stack manipulation
// ---------------------------------------------------------------------------

/// Whether `n` operand bytes can be read from position `pc`.
pub open spec fn can_read(code: Seq<u8>, pc: u16, n: int) -> bool {
    pc + n <= code.len() && pc + n <= u16::MAX
}

/// The index that `xload_<n>` and `xstore_<n>` name, or that follows the
/// opcode of the general form.
pub open spec fn local_index(code: Seq<u8>, pc: u16, op: u8, first: u8, general: u8) -> int {
    if op == general {
        code[pc as int] as int
    } else {
        op - first
    }
}

/// The state after an instruction that pushes a constant, moves a local
/// variable, or rearranges the stack; `None` when it cannot run.
pub open spec fn spec_local_op(op: u8, code: Seq<u8>, s: SpecState) -> Option<SpecState> {
    let st = s.stack;
    let lv = s.locals;
    let pc = s.pc;
    if op == JVM_OPCODE_NOP {
        Some(s)
    } else if op == JVM_OPCODE_ACONST_NULL {
        Some(SpecState { stack: st.push(0), ..s })
    } else if JVM_OPCODE_ICONST_M1 <= op <= JVM_OPCODE_ICONST_5 {
        Some(SpecState { stack: with_int(st, (op - JVM_OPCODE_ICONST_0) as i32), ..s })
    } else if op == JVM_OPCODE_LCONST_0 || op == JVM_OPCODE_LCONST_1 {
        Some(SpecState { stack: with_long(st, (op - JVM_OPCODE_LCONST_0) as i64), ..s })
    } else if op == JVM_OPCODE_BIPUSH {
        if can_read(code, pc, 1) {
            Some(SpecState { stack: st.push((code[pc as int] as i8) as u32), pc: (pc + 1) as u16, ..s })
        } else {
            None
        }
    } else if op == JVM_OPCODE_SIPUSH {
        if can_read(code, pc, 2) {
            let v = ((((code[pc as int] as i32) << 8u32) | (code[pc + 1] as i32)) as i16);
            Some(SpecState { stack: st.push(v as u32), pc: (pc + 2) as u16, ..s })
        } else {
            None
        }
    } else if op == JVM_OPCODE_ILOAD || JVM_OPCODE_ILOAD_0 <= op <= JVM_OPCODE_ILOAD_3 {
        let general = op == JVM_OPCODE_ILOAD;
        let i = local_index(code, pc, op, JVM_OPCODE_ILOAD_0, JVM_OPCODE_ILOAD);
        if (general ==> can_read(code, pc, 1)) && i < lv.len() {
            Some(SpecState { stack: with_int(st, lv[i] as i32), pc: if general { (pc + 1) as u16 } else { pc }, ..s })
        } else {
            None
        }
    } else if op == JVM_OPCODE_LLOAD || JVM_OPCODE_LLOAD_0 <= op <= JVM_OPCODE_LLOAD_3 {
        let general = op == JVM_OPCODE_LLOAD;
        let i = local_index(code, pc, op, JVM_OPCODE_LLOAD_0, JVM_OPCODE_LLOAD);
        if (general ==> can_read(code, pc, 1)) && i + 1 < lv.len() {
            Some(SpecState {
                stack: with_long(st, spec_parts_to_long(lv[i], lv[i + 1])),
                pc: if general { (pc + 1) as u16 } else { pc },
                ..s
            })
        } else {
            None
        }
    } else if op == JVM_OPCODE_ISTORE || JVM_OPCODE_ISTORE_0 <= op <= JVM_OPCODE_ISTORE_3 {
        let general = op == JVM_OPCODE_ISTORE;
        let i = local_index(code, pc, op, JVM_OPCODE_ISTORE_0, JVM_OPCODE_ISTORE);
        if (general ==> can_read(code, pc, 1)) && st.len() >= 1 && i <= lv.len() {
            Some(SpecState {
                stack: below(st, 1),
                locals: lv.insert(i, int_slot(st, 0) as u32),
                pc: if general { (pc + 1) as u16 } else { pc },
                ..s
            })
        } else {
            None
        }
    } else if op == JVM_OPCODE_LSTORE || JVM_OPCODE_LSTORE_0 <= op <= JVM_OPCODE_LSTORE_3 {
        let general = op == JVM_OPCODE_LSTORE;
        let i = local_index(code, pc, op, JVM_OPCODE_LSTORE_0, JVM_OPCODE_LSTORE);
        if (general ==> can_read(code, pc, 1)) && st.len() >= 2 && i <= lv.len() {
            Some(SpecState {
                stack: below(st, 2),
                locals: lv.insert(i, long_high(long_slot(st, 0))).insert(i, long_low(long_slot(st, 0))),
                pc: if general { (pc + 1) as u16 } else { pc },
                ..s
            })
        } else {
            None
        }
    } else if op == JVM_OPCODE_POP {
        if st.len() >= 1 { Some(SpecState { stack: below(st, 1), ..s }) } else { None }
    } else if op == JVM_OPCODE_POP2 {
        if st.len() >= 2 { Some(SpecState { stack: below(st, 2), ..s }) } else { None }
    } else if op == JVM_OPCODE_DUP {
        if st.len() >= 1 { Some(SpecState { stack: st.push(slot(st, 0)), ..s }) } else { None }
    } else if op == JVM_OPCODE_DUP_X1 {
        if st.len() >= 2 {
            Some(SpecState {
                stack: below(st, 2) + seq![slot(st, 0), slot(st, 1), slot(st, 1), slot(st, 0), slot(st, 0)],
                ..s
            })
        } else {
            None
        }
    } else if op == JVM_OPCODE_DUP_X2 {
        if st.len() >= 3 {
            Some(SpecState {
                stack: below(st, 3) + seq![
                    slot(st, 0),
                    slot(st, 2),
                    slot(st, 2),
                    slot(st, 1),
                    slot(st, 1),
                    slot(st, 0),
                    slot(st, 0),
                ],
                ..s
            })
        } else {
            None
        }
    } else if op == JVM_OPCODE_DUP2 {
        if st.len() >= 2 { Some(SpecState { stack: st + seq![slot(st, 1), slot(st, 0)], ..s }) } else { None }
    } else if op == JVM_OPCODE_DUP2_X1 {
        if st.len() >= 2 {
            Some(SpecState {
                stack: below(st, 2) + seq![
                    slot(st, 0),
                    slot(st, 1),
                    slot(st, 1),
                    slot(st, 0),
                    slot(st, 0),
                    slot(st, 1),
                    slot(st, 0),
                ],
                ..s
            })
        } else {
            None
        }
    } else if op == JVM_OPCODE_DUP2_X2 {
        if st.len() >= 3 {
            Some(SpecState {
                stack: below(st, 3) + seq![
                    slot(st, 2),
                    slot(st, 0),
                    slot(st, 2),
                    slot(st, 1),
                    slot(st, 0),
                    slot(st, 2),
                    slot(st, 0),
                    slot(st, 1),
                    slot(st, 0),
                ],
                ..s
            })
        } else {
            None
        }
    } else {
        // JVM_OPCODE_SWAP
        if st.len() >= 2 { Some(SpecState { stack: st + seq![slot(st, 1), slot(st, 0)], ..s }) } else { None }
    }
}

pub open spec fn is_local_op(op: u8) -> bool {
    (JVM_OPCODE_NOP <= op <= JVM_OPCODE_LCONST_1) || op == JVM_OPCODE_BIPUSH || op == JVM_OPCODE_SIPUSH
        || op == JVM_OPCODE_ILOAD || op == JVM_OPCODE_LLOAD || (JVM_OPCODE_ILOAD_0 <= op
        <= JVM_OPCODE_LLOAD_3) || op == JVM_OPCODE_ISTORE || op == JVM_OPCODE_LSTORE || (
    JVM_OPCODE_ISTORE_0 <= op <= JVM_OPCODE_LSTORE_3) || (JVM_OPCODE_POP <= op <= JVM_OPCODE_SWAP)
}

/// The frame and cursor as a state, with the heap `heap`.
pub open spec fn state_of(frame: StackFrame, pc: u16, heap: Seq<SpecHeapEntry>) -> SpecState {
    SpecState { locals: frame.locals(), stack: frame.stack(), pc, heap }
}

/// Reads the operand byte of a general load or store, or takes the index
/// from a short form's opcode.
fn read_local_index(parser: &mut CodeParser, op: u8, first: u8, general: u8) -> (r: u8)
    requires
        op == general || first <= op <= first + 3,
        op == general ==> can_read(old(parser).code(), old(parser).position(), 1),
    ensures
        r == local_index(old(parser).code(), old(parser).position(), op, first, general),
        final(parser).code() == old(parser).code(),
        final(parser).position() == if op == general {
            (old(parser).position() + 1) as u16
        } else {
            old(parser).position()
        },
{
    if op == general {
        parser.next()
    } else {
        op - first
    }
}

/// Runs an instruction of `spec_local_op`; `false` when it cannot run.
fn exec_local_op(op: u8, frame: &mut StackFrame, parser: &mut CodeParser) -> (r: bool)
    requires
        is_local_op(op),
        !(JVM_OPCODE_FCONST_0 <= op <= JVM_OPCODE_DCONST_1),
    ensures
        final(parser).code() == old(parser).code(),
        match spec_local_op(op, old(parser).code(), state_of(*old(frame), old(parser).position(), seq![])) {
            Some(s) => r && state_of(*final(frame), final(parser).position(), seq![]) == s,
            None => !r,
        },
{
    let ghost code = parser.code();
    let pc = parser.position_exec();
    let len = frame.stack_len();
    let locals = frame.locals_len();
    let can_read_one = (pc as usize) < parser.code_len() && pc < 0xffff;
    if op == JVM_OPCODE_NOP {
    } else if op == JVM_OPCODE_ACONST_NULL {
        frame.push_null_op();
    } else if JVM_OPCODE_ICONST_M1 <= op && op <= JVM_OPCODE_ICONST_5 {
        frame.push_int_op((op as i32) - (JVM_OPCODE_ICONST_0 as i32));
    } else if op == JVM_OPCODE_LCONST_0 || op == JVM_OPCODE_LCONST_1 {
        frame.push_long_op((op as i64) - (JVM_OPCODE_LCONST_0 as i64));
    } else if op == JVM_OPCODE_BIPUSH {
        if !can_read_one {
            return false;
        }
        let b = parser.next();
        frame.push_byte_op(b as i8);
    } else if op == JVM_OPCODE_SIPUSH {
        if !((pc as usize) + 2 <= parser.code_len() && pc < 0xfffe) {
            return false;
        }
        let b0 = parser.next();
        let b1 = parser.next();
        frame.push_short_op((((b0 as i32) << 8u32) | (b1 as i32)) as i16);
    } else if op == JVM_OPCODE_ILOAD || (JVM_OPCODE_ILOAD_0 <= op && op <= JVM_OPCODE_ILOAD_3) {
        if op == JVM_OPCODE_ILOAD && !can_read_one {
            return false;
        }
        let i = read_local_index(parser, op, JVM_OPCODE_ILOAD_0, JVM_OPCODE_ILOAD);
        if !((i as usize) < locals) {
            return false;
        }
        jvm_load_int(frame, i);
    } else if op == JVM_OPCODE_LLOAD || (JVM_OPCODE_LLOAD_0 <= op && op <= JVM_OPCODE_LLOAD_3) {
        if op == JVM_OPCODE_LLOAD && !can_read_one {
            return false;
        }
        let i = read_local_index(parser, op, JVM_OPCODE_LLOAD_0, JVM_OPCODE_LLOAD);
        if !((i as usize) + 1 < locals) {
            return false;
        }
        jvm_load_long(frame, i);
    } else if op == JVM_OPCODE_ISTORE || (JVM_OPCODE_ISTORE_0 <= op && op <= JVM_OPCODE_ISTORE_3) {
        if op == JVM_OPCODE_ISTORE && !can_read_one {
            return false;
        }
        let i = read_local_index(parser, op, JVM_OPCODE_ISTORE_0, JVM_OPCODE_ISTORE);
        if !(len >= 1 && (i as usize) <= locals) {
            return false;
        }
        jvm_store_int(frame, i);
    } else if op == JVM_OPCODE_LSTORE || (JVM_OPCODE_LSTORE_0 <= op && op <= JVM_OPCODE_LSTORE_3) {
        if op == JVM_OPCODE_LSTORE && !can_read_one {
            return false;
        }
        let i = read_local_index(parser, op, JVM_OPCODE_LSTORE_0, JVM_OPCODE_LSTORE);
        if !(len >= 2 && (i as usize) <= locals) {
            return false;
        }
        jvm_store_long(frame, i);
    } else if op == JVM_OPCODE_POP || op == JVM_OPCODE_POP2 {
        let double = op == JVM_OPCODE_POP2;
        if len < (if double { 2 } else { 1 }) {
            return false;
        }
        pop(frame, double);
    } else if op == JVM_OPCODE_DUP {
        if len < 1 {
            return false;
        }
        dup(frame);
    } else if op == JVM_OPCODE_DUP_X1 {
        if len < 2 {
            return false;
        }
        dup_x1(frame);
    } else if op == JVM_OPCODE_DUP_X2 {
        if len < 3 {
            return false;
        }
        dup_x2(frame);
    } else if op == JVM_OPCODE_DUP2 {
        if len < 2 {
            return false;
        }
        dup2(frame);
    } else if op == JVM_OPCODE_DUP2_X1 {
        if len < 2 {
            return false;
        }
        dup2_x1(frame);
    } else if op == JVM_OPCODE_DUP2_X2 {
        if len < 3 {
            return false;
        }
        dup2_x2(frame);
    } else {
        if len < 2 {
            return false;
        }
        swap(frame);
    }
    true
}

// ---------------------------------------------------------------------------
// Results
// ---------------------------------------------------------------------------

/// What a method returned; `float` and `double` values as their bits.
#[derive(Debug)]
pub enum MethodResult {
    Integer(i32),
    Long(i64),
    Float(u32),
    Double(u64),
    Reference(Reference),
    Void,
    Exception,
}

impl View for MethodResult {
    type V = SpecMethodResult;

    open spec fn view(&self) -> SpecMethodResult {
        match self {
            MethodResult::Integer(v) => SpecMethodResult::Integer(*v),
            MethodResult::Long(v) => SpecMethodResult::Long(*v),
            MethodResult::Float(v) => SpecMethodResult::Float(*v),
            MethodResult::Double(v) => SpecMethodResult::Double(*v),
            MethodResult::Reference(v) => SpecMethodResult::Reference(*v),
            MethodResult::Void => SpecMethodResult::Void,
            MethodResult::Exception => SpecMethodResult::Exception,
        }
    }
}

/// What a step did.
#[derive(Debug)]
pub enum Step {
    Continue,
    Return(MethodResult),
    FloatOp(u8),
    LoadClass(IStr),
    Fault,
}

impl View for Step {
    type V = SpecStep;

    open spec fn view(&self) -> SpecStep {
        match self {
            Step::Continue => SpecStep::Continue,
            Step::Return(v) => SpecStep::Return(v@),
            Step::FloatOp(op) => SpecStep::FloatOp(*op),
            Step::LoadClass(n) => SpecStep::LoadClass(istr_view(*n)),
            Step::Fault => SpecStep::Fault,
        }
    }
}

// ---------------------------------------------------------------------------
// Branches and returns
// ---------------------------------------------------------------------------

/// The reference that a slot holds, looked up on `heap`.
pub open spec fn ref_in(heap: Seq<SpecHeapEntry>, v: u32) -> Reference {
    slot_ref(v, |i: int| spec_get_ref(heap, i))
}

/// `pc` moved to the target of a 16-bit branch when `take`.
pub open spec fn branch_pc(code: Seq<u8>, pc: u16, take: bool) -> u16 {
    if take {
        branch_target(code, pc as int) as u16
    } else {
        pc
    }
}

/// The outcome and state after a branch, jump or return instruction;
/// `None` when it cannot run.
pub open spec fn spec_control_op(op: u8, code: Seq<u8>, s: SpecState) -> Option<(SpecStep, SpecState)> {
    let st = s.stack;
    let pc = s.pc;
    if JVM_OPCODE_IFEQ <= op <= JVM_OPCODE_IFLE {
        if st.len() >= 1 && (branch_holds(op, st.last() as i32) ==> can_branch(code, pc as int)) {
            let take = branch_holds(op, st.last() as i32);
            Some((SpecStep::Continue, SpecState { stack: st.drop_last(), pc: branch_pc(code, pc, take), ..s }))
        } else {
            None
        }
    } else if JVM_OPCODE_IF_ICMPEQ <= op <= JVM_OPCODE_IF_ICMPLE {
        let take = int_branch_holds(op, slot(st, 0) as i32, slot(st, 1) as i32);
        if st.len() >= 2 && (take ==> can_branch(code, pc as int)) {
            Some((SpecStep::Continue, SpecState { stack: below(st, 2), pc: branch_pc(code, pc, take), ..s }))
        } else {
            None
        }
    } else if op == JVM_OPCODE_IF_ACMPEQ || op == JVM_OPCODE_IF_ACMPNE {
        let same = ref_in(s.heap, slot(st, 0)) == ref_in(s.heap, slot(st, 1));
        let take = (op == JVM_OPCODE_IF_ACMPEQ && same) || (op == JVM_OPCODE_IF_ACMPNE && !same);
        if st.len() >= 2 && slot(st, 0) < u32::MAX && slot(st, 1) < u32::MAX && (take ==> can_branch(
            code,
            pc as int,
        )) {
            Some((SpecStep::Continue, SpecState { stack: below(st, 2), pc: branch_pc(code, pc, take), ..s }))
        } else {
            None
        }
    } else if op == JVM_OPCODE_IFNULL || op == JVM_OPCODE_IFNONNULL {
        let r = ref_in(s.heap, slot(st, 0));
        let take = (op == JVM_OPCODE_IFNULL && r is Null) || (op == JVM_OPCODE_IFNONNULL && r is Value);
        if st.len() >= 1 && slot(st, 0) < u32::MAX && (take ==> can_branch(code, pc as int)) {
            Some((SpecStep::Continue, SpecState { stack: below(st, 1), pc: branch_pc(code, pc, take), ..s }))
        } else {
            None
        }
    } else if op == JVM_OPCODE_GOTO {
        if can_branch(code, pc as int) {
            Some((SpecStep::Continue, SpecState { pc: branch_pc(code, pc, true), ..s }))
        } else {
            None
        }
    } else if op == JVM_OPCODE_GOTO_W {
        if can_branch_wide(code, pc as int) {
            Some((SpecStep::Continue, SpecState { pc: branch_target_wide(code, pc as int) as u16, ..s }))
        } else {
            None
        }
    } else if op == JVM_OPCODE_JSR {
        if pc < u16::MAX && can_branch(code, pc as int) {
            Some((SpecStep::Continue, SpecState { stack: st.push((pc + 1) as u32), pc: branch_pc(code, pc, true), ..s }))
        } else {
            None
        }
    } else if op == JVM_OPCODE_JSR_W {
        if pc < u16::MAX && can_branch_wide(code, pc as int) {
            Some((
                SpecStep::Continue,
                SpecState { stack: st.push((pc + 1) as u32), pc: branch_target_wide(code, pc as int) as u16, ..s },
            ))
        } else {
            None
        }
    } else if op == JVM_OPCODE_IRETURN {
        if st.len() >= 1 {
            Some((SpecStep::Return(SpecMethodResult::Integer(int_slot(st, 0))), SpecState { stack: below(st, 1), ..s }))
        } else {
            None
        }
    } else if op == JVM_OPCODE_LRETURN {
        if st.len() >= 2 {
            Some((SpecStep::Return(SpecMethodResult::Long(long_slot(st, 0))), SpecState { stack: below(st, 2), ..s }))
        } else {
            None
        }
    } else if op == JVM_OPCODE_ARETURN {
        if st.len() >= 1 && slot(st, 0) < u32::MAX {
            Some((
                SpecStep::Return(SpecMethodResult::Reference(ref_in(s.heap, slot(st, 0)))),
                SpecState { stack: below(st, 1), ..s },
            ))
        } else {
            None
        }
    } else {
        // JVM_OPCODE_RETURN
        Some((SpecStep::Return(SpecMethodResult::Void), s))
    }
}

pub open spec fn is_control_op(op: u8) -> bool {
    (JVM_OPCODE_IFEQ <= op <= JVM_OPCODE_JSR) || op == JVM_OPCODE_IRETURN || op == JVM_OPCODE_LRETURN
        || op == JVM_OPCODE_ARETURN || op == JVM_OPCODE_RETURN || (JVM_OPCODE_IFNULL <= op
        <= JVM_OPCODE_JSR_W)
}

/// Runs an instruction of `spec_control_op`.
fn exec_control_op(op: u8, frame: &mut StackFrame, parser: &mut CodeParser, heap: &HeapSpace) -> (r: Step)
    requires
        is_control_op(op),
    ensures
        final(parser).code() == old(parser).code(),
        match spec_control_op(op, old(parser).code(), state_of(*old(frame), old(parser).position(), heap@)) {
            Some((step, s)) => r@ == step && state_of(*final(frame), final(parser).position(), heap@) == s,
            None => r is Fault,
        },
{
    let ghost code = parser.code();
    let pc = parser.position_exec();
    let len = frame.stack_len();
    let branch_ok = (pc as usize) + 2 <= parser.code_len() && pc < 0xfffe && {
        let b0 = parser.code_at(pc as usize);
        let b1 = parser.code_at(pc as usize + 1);
        (pc as u32) + 2 + ((b0 as u32) * 256 + (b1 as u32)) <= 0xffff
    };
    let wide_ok = (pc as usize) + 4 <= parser.code_len() && pc < 0xfffc && {
        let b2 = parser.code_at(pc as usize + 2);
        let b3 = parser.code_at(pc as usize + 3);
        (pc as u32) + 4 + ((b2 as u32) * 256 + (b3 as u32)) <= 0xffff
    };
    assert(branch_ok == can_branch(code, pc as int));
    assert(wide_ok == can_branch_wide(code, pc as int));
    if JVM_OPCODE_IFEQ <= op && op <= JVM_OPCODE_IFLE {
        if len < 1 {
            return Step::Fault;
        }
        let value = frame.get_op(0) as i32;
        let take = (op == JVM_OPCODE_IFEQ && value == 0) || (op == JVM_OPCODE_IFNE && value != 0)
            || (op == JVM_OPCODE_IFLT && value < 0) || (op == JVM_OPCODE_IFLE && value <= 0) || (op
            == JVM_OPCODE_IFGT && value > 0) || (op == JVM_OPCODE_IFGE && value >= 0);
        if take && !branch_ok {
            return Step::Fault;
        }
        branch(frame, parser, op);
        Step::Continue
    } else if JVM_OPCODE_IF_ICMPEQ <= op && op <= JVM_OPCODE_IF_ICMPLE {
        if len < 2 {
            return Step::Fault;
        }
        let first = frame.get_op(0) as i32;
        let second = frame.get_op(1) as i32;
        let take = (op == JVM_OPCODE_IF_ICMPEQ && first == second) || (op == JVM_OPCODE_IF_ICMPNE
            && first != second) || (op == JVM_OPCODE_IF_ICMPLT && first < second) || (op
            == JVM_OPCODE_IF_ICMPLE && first <= second) || (op == JVM_OPCODE_IF_ICMPGT && first
            > second) || (op == JVM_OPCODE_IF_ICMPGE && first >= second);
        if take && !branch_ok {
            return Step::Fault;
        }
        int_branch(frame, parser, op);
        Step::Continue
    } else if op == JVM_OPCODE_IF_ACMPEQ || op == JVM_OPCODE_IF_ACMPNE {
        if len < 2 || frame.get_op(0) == u32::MAX || frame.get_op(1) == u32::MAX {
            return Step::Fault;
        }
        let ghost before = *frame;
        let first = frame.pop_ref_op(heap);
        let second = frame.pop_ref_op(heap);
        assert(frame.stack() =~= below(before.stack(), 2));
        let same = first.equals(second);
        let take = (op == JVM_OPCODE_IF_ACMPEQ && same) || (op == JVM_OPCODE_IF_ACMPNE && !same);
        if take {
            if !branch_ok {
                return Step::Fault;
            }
            branch_seek(parser);
        }
        Step::Continue
    } else if op == JVM_OPCODE_IFNULL || op == JVM_OPCODE_IFNONNULL {
        if len < 1 || frame.get_op(0) == u32::MAX {
            return Step::Fault;
        }
        let ghost before = *frame;
        let r = frame.pop_ref_op(heap);
        assert(frame.stack() =~= below(before.stack(), 1));
        let take = (op == JVM_OPCODE_IFNULL && r.is_null()) || (op == JVM_OPCODE_IFNONNULL && r.is_not_null());
        if take {
            if !branch_ok {
                return Step::Fault;
            }
            branch_seek(parser);
        }
        Step::Continue
    } else if op == JVM_OPCODE_GOTO {
        if !branch_ok {
            return Step::Fault;
        }
        branch_seek(parser);
        Step::Continue
    } else if op == JVM_OPCODE_GOTO_W {
        if !wide_ok {
            return Step::Fault;
        }
        branch_seek_wide(parser);
        Step::Continue
    } else if op == JVM_OPCODE_JSR || op == JVM_OPCODE_JSR_W {
        let wide = op == JVM_OPCODE_JSR_W;
        if pc == 0xffff || (wide && !wide_ok) || (!wide && !branch_ok) {
            return Step::Fault;
        }
        jump_subroutine(frame, parser, wide);
        Step::Continue
    } else if op == JVM_OPCODE_IRETURN {
        if len < 1 {
            return Step::Fault;
        }
        let ghost before = *frame;
        let v = frame.pop_int_op();
        assert(frame.stack() =~= below(before.stack(), 1));
        Step::Return(MethodResult::Integer(v))
    } else if op == JVM_OPCODE_LRETURN {
        if len < 2 {
            return Step::Fault;
        }
        let ghost before = *frame;
        let v = frame.pop_long_op();
        assert(frame.stack() =~= below(before.stack(), 2));
        Step::Return(MethodResult::Long(v))
    } else if op == JVM_OPCODE_ARETURN {
        if len < 1 || frame.get_op(0) == u32::MAX {
            return Step::Fault;
        }
        let ghost before = *frame;
        let v = frame.pop_ref_op(heap);
        assert(frame.stack() =~= below(before.stack(), 1));
        Step::Return(MethodResult::Reference(v))
    } else {
        Step::Return(MethodResult::Void)
    }
}

// ---------------------------------------------------------------------------
// Objects and arrays
// ---------------------------------------------------------------------------

/// The big-endian `u16` operand at `pc`.
pub open spec fn operand_u16(code: Seq<u8>, pc: u16) -> u16 {
    crate::buffers::be_u16(code[pc as int], code[pc + 1])
}

/// The primitive array that a slot refers to.
pub open spec fn type_array_in(heap: Seq<SpecHeapEntry>, v: u32) -> Option<(int, SpecTypeArray)> {
    match slot_ref(v, |i: int| spec_get_type_array(heap, i)) {
        Reference::Value(k) => Some((k as int, heap[k as int]->TypeArray_0)),
        Reference::Null => None,
    }
}

/// The reference array that a slot refers to.
pub open spec fn ref_array_in(heap: Seq<SpecHeapEntry>, v: u32) -> Option<(int, SpecRefArray)> {
    match slot_ref(v, |i: int| spec_get_ref_array(heap, i)) {
        Reference::Value(k) => Some((k as int, heap[k as int]->ReferenceArray_0)),
        Reference::Null => None,
    }
}

/// The instance that a slot refers to.
pub open spec fn instance_in(heap: Seq<SpecHeapEntry>, v: u32) -> Option<(int, SpecInstance)> {
    match ref_in(heap, v) {
        Reference::Value(k) => Some((k as int, heap[k as int]->Instance_0)),
        Reference::Null => None,
    }
}

/// The slot that an element load of type `t` pushes for the element at
/// `i`; `None` when the array's type does not fit the instruction or the
/// element cannot be read.
pub open spec fn spec_element(op: u8, a: SpecTypeArray, i: int) -> Option<Seq<u32>> {
    let v = slot_value(a.slots, i);
    if op == JVM_OPCODE_IALOAD && a.array_type == ArrayType::Int {
        Some(seq![v as i32 as u32])
    } else if op == JVM_OPCODE_LALOAD && a.array_type == ArrayType::Long && i < usize::MAX {
        let l = spec_parts_to_long(v, slot_value(a.slots, i + 1));
        Some(seq![long_high(l), long_low(l)])
    } else if op == JVM_OPCODE_BALOAD && a.array_type == ArrayType::Byte {
        Some(seq![v as i8 as u32])
    } else if op == JVM_OPCODE_BALOAD && a.array_type == ArrayType::Boolean {
        Some(seq![if v != 0 { 1u32 } else { 0u32 }])
    } else if op == JVM_OPCODE_CALOAD && a.array_type == ArrayType::Char && is_scalar(v) {
        Some(seq![v])
    } else if op == JVM_OPCODE_SALOAD && a.array_type == ArrayType::Short {
        Some(seq![v as i16 as u32])
    } else {
        None
    }
}

/// The slots that an element store of `op` inserts, taken from the stack
/// below the array and the index; `None` when the array's type does not
/// fit, the stack is too short or the value is no character.
pub open spec fn spec_stored(op: u8, a: SpecTypeArray, st: Seq<u32>) -> Option<Seq<u32>> {
    let v = slot(st, 2);
    if op == JVM_OPCODE_IASTORE && a.array_type == ArrayType::Int && st.len() >= 3 {
        Some(seq![v as i32 as u32])
    } else if op == JVM_OPCODE_LASTORE && a.array_type == ArrayType::Long && st.len() >= 4 {
        Some(seq![long_high(long_slot(st, 2)), long_low(long_slot(st, 2))])
    } else if op == JVM_OPCODE_BASTORE && a.array_type == ArrayType::Byte && st.len() >= 3 {
        Some(seq![v as i8 as u32])
    } else if op == JVM_OPCODE_BASTORE && a.array_type == ArrayType::Boolean && st.len() >= 3 {
        Some(seq![if v != 0 { 1u32 } else { 0u32 }])
    } else if op == JVM_OPCODE_CASTORE && a.array_type == ArrayType::Char && st.len() >= 3
        && is_scalar(v) {
        Some(seq![v])
    } else if op == JVM_OPCODE_SASTORE && a.array_type == ArrayType::Short && st.len() >= 3 {
        Some(seq![v as i16 as u32])
    } else {
        None
    }
}

/// `values` inserted one after the other from index `i` of `s`.
pub open spec fn insert_all(s: Seq<u32>, i: int, values: Seq<u32>) -> Seq<u32> {
    if values.len() == 1 {
        s.insert(i, values[0])
    } else {
        s.insert(i, values[0]).insert(i + 1, values[1])
    }
}

/// The loaded class that an instance belongs to and the loaded class that
/// pool entry `index` names, as indices among the loaded classes.
pub open spec fn cast_classes(ctx: SpecContext, inst: SpecInstance, index: u16) -> Result<(int, int), Option<Seq<char>>> {
    match pool_class_name_at(ctx.pool, index as int) {
        Some(name) => match find_key(ctx.classes, name) {
            Some(target) => match find_key(ctx.classes, inst.class) {
                Some(own) => Ok((own, target)),
                None => Err(None),
            },
            None => Err(Some(name)),
        },
        None => Err(None),
    }
}

/// The outcome and state after an instruction on objects and arrays;
/// `None` when it cannot run.  A class that is not loaded yet gives
/// `LoadClass`, whatever the state.
pub open spec fn spec_heap_op(op: u8, ctx: SpecContext, s: SpecState) -> Option<(SpecStep, SpecState)> {
    let st = s.stack;
    let lv = s.locals;
    let pc = s.pc;
    let heap = s.heap;
    let code = ctx.code;
    if op == JVM_OPCODE_ALOAD || JVM_OPCODE_ALOAD_0 <= op <= JVM_OPCODE_ALOAD_3 {
        let general = op == JVM_OPCODE_ALOAD;
        let i = local_index(code, pc, op, JVM_OPCODE_ALOAD_0, JVM_OPCODE_ALOAD);
        if (general ==> can_read(code, pc, 1)) && i < lv.len() && lv[i] < u32::MAX {
            match instance_in(heap, lv[i]) {
                Some((_, o)) => Some((
                    SpecStep::Continue,
                    SpecState { stack: st.push(o.offset as u32), pc: if general { (pc + 1) as u16 } else { pc }, ..s },
                )),
                None => None,
            }
        } else {
            None
        }
    } else if op == JVM_OPCODE_ASTORE || JVM_OPCODE_ASTORE_0 <= op <= JVM_OPCODE_ASTORE_3 {
        let general = op == JVM_OPCODE_ASTORE;
        let i = local_index(code, pc, op, JVM_OPCODE_ASTORE_0, JVM_OPCODE_ASTORE);
        if (general ==> can_read(code, pc, 1)) && st.len() >= 1 && slot(st, 0) < u32::MAX && i <= lv.len() {
            match instance_in(heap, slot(st, 0)) {
                Some((_, o)) => Some((
                    SpecStep::Continue,
                    SpecState {
                        stack: below(st, 1),
                        locals: lv.insert(i, o.offset as u32),
                        pc: if general { (pc + 1) as u16 } else { pc },
                        ..s
                    },
                )),
                None => None,
            }
        } else {
            None
        }
    } else if op == JVM_OPCODE_AALOAD {
        if st.len() >= 2 && slot(st, 0) < u32::MAX {
            match ref_array_in(heap, slot(st, 0)) {
                Some((_, a)) => {
                    let i = int_slot(st, 1) as usize as int;
                    if i < a.elements.len() && 0 <= a.elements[i] < heap.len()
                        && heap[a.elements[i] as int] is Instance {
                        let o = heap[a.elements[i] as int]->Instance_0;
                        Some((SpecStep::Continue, SpecState { stack: below(st, 2).push(o.offset as u32), ..s }))
                    } else {
                        None
                    }
                },
                None => None,
            }
        } else {
            None
        }
    } else if JVM_OPCODE_IALOAD <= op <= JVM_OPCODE_SALOAD {
        if st.len() >= 2 && slot(st, 0) < u32::MAX {
            match type_array_in(heap, slot(st, 0)) {
                Some((_, a)) => match spec_element(op, a, int_slot(st, 1) as usize as int) {
                    Some(pushed) => Some((SpecStep::Continue, SpecState { stack: below(st, 2) + pushed, ..s })),
                    None => None,
                },
                None => None,
            }
        } else {
            None
        }
    } else if op == JVM_OPCODE_AASTORE {
        if st.len() >= 3 && slot(st, 0) < u32::MAX && slot(st, 2) < u32::MAX {
            match ref_array_in(heap, slot(st, 0)) {
                Some((k, a)) => {
                    let i = int_slot(st, 1) as usize as int;
                    match ref_in(heap, slot(st, 2)) {
                        Reference::Value(v) => if i <= a.elements.len() {
                            Some((
                                SpecStep::Continue,
                                SpecState {
                                    stack: below(st, 3),
                                    heap: heap.update(
                                        k,
                                        SpecHeapEntry::ReferenceArray(
                                            SpecRefArray { elements: a.elements.insert(i, v), ..a },
                                        ),
                                    ),
                                    ..s
                                },
                            ))
                        } else {
                            None
                        },
                        Reference::Null => None,
                    }
                },
                None => None,
            }
        } else {
            None
        }
    } else if JVM_OPCODE_IASTORE <= op <= JVM_OPCODE_SASTORE {
        if st.len() >= 2 && slot(st, 0) < u32::MAX {
            match type_array_in(heap, slot(st, 0)) {
                Some((k, a)) => {
                    let i = int_slot(st, 1) as usize as int;
                    match spec_stored(op, a, st) {
                        Some(values) => if i <= a.slots.len() && (values.len() == 2 ==> i < usize::MAX) {
                            Some((
                                SpecStep::Continue,
                                SpecState {
                                    stack: below(st, 2 + values.len() as int),
                                    heap: heap.update(
                                        k,
                                        SpecHeapEntry::TypeArray(
                                            SpecTypeArray { slots: insert_all(a.slots, i, values), ..a },
                                        ),
                                    ),
                                    ..s
                                },
                            ))
                        } else {
                            None
                        },
                        None => None,
                    }
                },
                None => None,
            }
        } else {
            None
        }
    } else if op == JVM_OPCODE_ARRAYLENGTH {
        if st.len() >= 1 && slot(st, 0) < u32::MAX {
            match ref_array_in(heap, slot(st, 0)) {
                Some((_, a)) => Some((SpecStep::Continue, SpecState { stack: with_int(below(st, 1), a.length as i32), ..s })),
                None => None,
            }
        } else {
            None
        }
    } else if op == JVM_OPCODE_NEW {
        if can_read(code, pc, 2) {
            match pool_class_name_at(ctx.pool, operand_u16(code, pc) as int) {
                Some(name) => match find_key(ctx.classes, name) {
                    Some(k) => {
                        let c = ctx.classes[k].class;
                        if c.access_flags & JVM_ACC_INTERFACE != 0 || c.access_flags & JVM_ACC_ABSTRACT != 0 {
                            None
                        } else {
                            let o = SpecInstance {
                                offset: heap.len() as usize,
                                class: name,
                                slots: Seq::new(c.fields.len(), |j: int| 0u32),
                            };
                            Some((
                                SpecStep::Continue,
                                SpecState {
                                    stack: st.push(heap.len() as u32),
                                    pc: (pc + 2) as u16,
                                    heap: heap.push(SpecHeapEntry::Instance(o)),
                                    ..s
                                },
                            ))
                        }
                    },
                    None => Some((SpecStep::LoadClass(name), s)),
                },
                None => None,
            }
        } else {
            None
        }
    } else if op == JVM_OPCODE_NEWARRAY {
        if can_read(code, pc, 1) && T_BOOLEAN <= code[pc as int] <= T_LONG && st.len() >= 1 {
            let a = SpecTypeArray {
                offset: heap.len() as usize,
                array_type: spec_array_type(code[pc as int]),
                length: int_slot(st, 0) as usize,
                slots: seq![],
            };
            Some((
                SpecStep::Continue,
                SpecState {
                    stack: below(st, 1).push(heap.len() as u32),
                    pc: (pc + 1) as u16,
                    heap: heap.push(SpecHeapEntry::TypeArray(a)),
                    ..s
                },
            ))
        } else {
            None
        }
    } else if op == JVM_OPCODE_ANEWARRAY {
        if st.len() >= 1 && can_read(code, pc, 2) {
            match pool_class_name_at(ctx.pool, operand_u16(code, pc) as int) {
                Some(name) => match find_key(ctx.classes, name) {
                    Some(_) => {
                        let a = SpecRefArray {
                            offset: heap.len() as usize,
                            class: name,
                            element_class: name,
                            length: int_slot(st, 0) as usize,
                            elements: seq![],
                        };
                        Some((
                            SpecStep::Continue,
                            SpecState {
                                stack: below(st, 1).push(heap.len() as u32),
                                pc: (pc + 2) as u16,
                                heap: heap.push(SpecHeapEntry::ReferenceArray(a)),
                                ..s
                            },
                        ))
                    },
                    None => Some((SpecStep::LoadClass(name), s)),
                },
                None => None,
            }
        } else {
            None
        }
    } else if op == JVM_OPCODE_ATHROW {
        if st.len() >= 1 && slot(st, 0) < u32::MAX {
            match instance_in(heap, slot(st, 0)) {
                Some((_, o)) => match first_handler_from(ctx.handlers, o.class, 0) {
                    Some(h) => Some((
                        SpecStep::Continue,
                        SpecState { stack: below(st, 1), pc: ctx.handlers[h].start_pc, ..s },
                    )),
                    None => Some((SpecStep::Return(SpecMethodResult::Exception), SpecState { stack: below(st, 1), ..s })),
                },
                None => None,
            }
        } else {
            None
        }
    } else if op == JVM_OPCODE_CHECKCAST {
        if st.len() >= 1 && slot(st, 0) < u32::MAX {
            match instance_in(heap, slot(st, 0)) {
                None => Some((SpecStep::Continue, SpecState { stack: below(st, 1), ..s })),
                Some((_, o)) => if can_read(code, pc, 2) {
                    match cast_classes(ctx, o, operand_u16(code, pc)) {
                        Ok((own, target)) => if spec_is_subclass(ctx.classes, own, target) {
                            Some((
                                SpecStep::Continue,
                                SpecState { stack: below(st, 1).push(o.offset as u32), pc: (pc + 2) as u16, ..s },
                            ))
                        } else {
                            None
                        },
                        Err(Some(name)) => Some((SpecStep::LoadClass(name), s)),
                        Err(None) => None,
                    }
                } else {
                    None
                },
            }
        } else {
            None
        }
    } else {
        // JVM_OPCODE_INSTANCEOF
        if st.len() >= 1 && slot(st, 0) < u32::MAX && can_read(code, pc, 2) {
            match instance_in(heap, slot(st, 0)) {
                None => Some((SpecStep::Continue, SpecState { stack: with_int(below(st, 1), 0), pc: (pc + 2) as u16, ..s })),
                Some((_, o)) => match cast_classes(ctx, o, operand_u16(code, pc)) {
                    Ok((own, target)) => Some((
                        SpecStep::Continue,
                        SpecState {
                            stack: with_int(below(st, 1), if spec_is_subclass(ctx.classes, own, target) { 1 } else { 0 }),
                            pc: (pc + 2) as u16,
                            ..s
                        },
                    )),
                    Err(Some(name)) => Some((SpecStep::LoadClass(name), s)),
                    Err(None) => None,
                },
            }
        } else {
            None
        }
    }
}

pub open spec fn is_heap_op(op: u8) -> bool {
    op == JVM_OPCODE_ALOAD || (JVM_OPCODE_ALOAD_0 <= op <= JVM_OPCODE_ALOAD_3) || op == JVM_OPCODE_ASTORE
        || (JVM_OPCODE_ASTORE_0 <= op <= JVM_OPCODE_ASTORE_3) || op == JVM_OPCODE_IALOAD || op
        == JVM_OPCODE_LALOAD || (JVM_OPCODE_AALOAD <= op <= JVM_OPCODE_SALOAD) || op == JVM_OPCODE_IASTORE
        || op == JVM_OPCODE_LASTORE || (JVM_OPCODE_AASTORE <= op <= JVM_OPCODE_SASTORE) || op
        == JVM_OPCODE_NEW || op == JVM_OPCODE_NEWARRAY || op == JVM_OPCODE_ANEWARRAY || op
        == JVM_OPCODE_ARRAYLENGTH || op == JVM_OPCODE_ATHROW || op == JVM_OPCODE_CHECKCAST || op
        == JVM_OPCODE_INSTANCEOF
}

/// The context that instructions read.
pub open spec fn context_of(code: Seq<u8>, pool: &ConstantPool, loader: &ClassLoader, handlers: &ExceptionHandlerTable) -> SpecContext {
    SpecContext { code, pool: pool@, classes: loader@, handlers: handlers@ }
}

/// What a step of `spec_heap_op` promises of the result and the state.
pub open spec fn heap_op_done(
    op: u8,
    ctx: SpecContext,
    before: SpecState,
    after: SpecState,
    r: SpecStep,
) -> bool {
    match spec_heap_op(op, ctx, before) {
        Some((step, s)) => r == step && after == s,
        None => r is Fault,
    }
}

/// `aload` and `astore`.
fn exec_ref_local(op: u8, frame: &mut StackFrame, parser: &mut CodeParser, heap: &HeapSpace, Ghost(ctx): Ghost<SpecContext>) -> (r: Step)
    requires
        op == JVM_OPCODE_ALOAD || (JVM_OPCODE_ALOAD_0 <= op <= JVM_OPCODE_ALOAD_3) || op == JVM_OPCODE_ASTORE
            || (JVM_OPCODE_ASTORE_0 <= op <= JVM_OPCODE_ASTORE_3),
        ctx.code == old(parser).code(),
    ensures
        final(parser).code() == old(parser).code(),
        heap_op_done(
            op,
            ctx,
            state_of(*old(frame), old(parser).position(), heap@),
            state_of(*final(frame), final(parser).position(), heap@),
            r@,
        ),
{
    let pc = parser.position_exec();
    let can_read_one = (pc as usize) < parser.code_len() && pc < 0xffff;
    let len = frame.stack_len();
    let locals = frame.locals_len();
    if op == JVM_OPCODE_ALOAD || (JVM_OPCODE_ALOAD_0 <= op && op <= JVM_OPCODE_ALOAD_3) {
        if op == JVM_OPCODE_ALOAD && !can_read_one {
            return Step::Fault;
        }
        let i = read_local_index(parser, op, JVM_OPCODE_ALOAD_0, JVM_OPCODE_ALOAD);
        if !((i as usize) < locals) || frame.get_local(i as usize) == u32::MAX {
            return Step::Fault;
        }
        match frame.get_local_ref(i as usize, heap) {
            Reference::Value(k) => {
                let offset = heap.instance(k).offset();
                frame.push_ref_op(offset as u32);
                Step::Continue
            },
            Reference::Null => Step::Fault,
        }
    } else {
        if op == JVM_OPCODE_ASTORE && !can_read_one {
            return Step::Fault;
        }
        let i = read_local_index(parser, op, JVM_OPCODE_ASTORE_0, JVM_OPCODE_ASTORE);
        if len < 1 || frame.get_op(0) == u32::MAX || !((i as usize) <= locals) {
            return Step::Fault;
        }
        let ghost before = *frame;
        match frame.pop_ref_op(heap) {
            Reference::Value(k) => {
                assert(frame.stack() =~= below(before.stack(), 1));
                let offset = heap.instance(k).offset();
                frame.set_local_ref(i as usize, offset as u32);
                Step::Continue
            },
            Reference::Null => Step::Fault,
        }
    }
}

/// The element loads: `iaload`, `laload`, `aaload`, `baload`, `caload`
/// and `saload`.
fn exec_array_load(op: u8, frame: &mut StackFrame, parser: &CodeParser, heap: &HeapSpace, Ghost(ctx): Ghost<SpecContext>) -> (r: Step)
    requires
        op == JVM_OPCODE_IALOAD || op == JVM_OPCODE_LALOAD || (JVM_OPCODE_AALOAD <= op <= JVM_OPCODE_SALOAD),
        ctx.code == parser.code(),
    ensures
        heap_op_done(
            op,
            ctx,
            state_of(*old(frame), parser.position(), heap@),
            state_of(*final(frame), parser.position(), heap@),
            r@,
        ),
{
    let len = frame.stack_len();
    if len < 2 || frame.get_op(0) == u32::MAX {
        return Step::Fault;
    }
    let v0 = frame.get_op(0);
    let index = frame.get_op(1) as i32 as usize;
    let ghost before = *frame;
    if op == JVM_OPCODE_AALOAD {
        match StackFrame::get_ref_array_at(v0, heap) {
            Reference::Value(k) => {
                let element = match heap.ref_array(k).get(index) {
                    Some(e) => e,
                    None => return Step::Fault,
                };
                match heap.get_ref(element) {
                    Reference::Value(e) => {
                        let offset = heap.instance(e).offset();
                        frame.pop_op();
                        frame.pop_op();
                        assert(frame.stack() =~= below(before.stack(), 2));
                        frame.push_ref_op(offset as u32);
                        Step::Continue
                    },
                    Reference::Null => Step::Fault,
                }
            },
            Reference::Null => Step::Fault,
        }
    } else {
        match StackFrame::get_type_array_at(v0, heap) {
            Reference::Value(k) => {
                let a = heap.type_array(k);
                let t = a.array_type();
                let (first, second): (u32, Option<u32>) = if op == JVM_OPCODE_IALOAD && t == ArrayType::Int {
                    (a.get_int(index) as u32, None)
                } else if op == JVM_OPCODE_LALOAD && t == ArrayType::Long && index < usize::MAX {
                    let l = a.get_long(index);
                    ((l >> 32u64) as u32, Some(l as u32))
                } else if op == JVM_OPCODE_BALOAD && t == ArrayType::Byte {
                    (a.get_byte(index) as u32, None)
                } else if op == JVM_OPCODE_BALOAD && t == ArrayType::Boolean {
                    (if a.get_bool(index) { 1u32 } else { 0u32 }, None)
                } else if op == JVM_OPCODE_CALOAD && t == ArrayType::Char && crate::strings::char_from_u32(
                    a.get(index),
                ).is_some() {
                    (a.get_char(index) as u32, None)
                } else if op == JVM_OPCODE_SALOAD && t == ArrayType::Short {
                    (a.get_short(index) as u32, None)
                } else {
                    return Step::Fault;
                };
                frame.pop_op();
                frame.pop_op();
                assert(frame.stack() =~= below(before.stack(), 2));
                frame.push_op(first);
                match second {
                    Some(v) => {
                        frame.push_op(v);
                        assert(frame.stack() =~= below(before.stack(), 2) + seq![first, v]);
                    },
                    None => {
                        assert(frame.stack() =~= below(before.stack(), 2) + seq![first]);
                    },
                }
                Step::Continue
            },
            Reference::Null => Step::Fault,
        }
    }
}

/// The element stores: `iastore`, `lastore`, `aastore`, `bastore`,
/// `castore` and `sastore`.
fn exec_array_store(op: u8, frame: &mut StackFrame, parser: &CodeParser, heap: &mut HeapSpace, Ghost(ctx): Ghost<SpecContext>) -> (r: Step)
    requires
        op == JVM_OPCODE_IASTORE || op == JVM_OPCODE_LASTORE || (JVM_OPCODE_AASTORE <= op <= JVM_OPCODE_SASTORE),
        ctx.code == parser.code(),
    ensures
        heap_op_done(
            op,
            ctx,
            state_of(*old(frame), parser.position(), old(heap)@),
            state_of(*final(frame), parser.position(), final(heap)@),
            r@,
        ),
{
    let len = frame.stack_len();
    if len < 2 || frame.get_op(0) == u32::MAX {
        return Step::Fault;
    }
    let v0 = frame.get_op(0);
    let index = frame.get_op(1) as i32 as usize;
    let ghost before = *frame;
    if op == JVM_OPCODE_AASTORE {
        if len < 3 || frame.get_op(2) == u32::MAX {
            return Step::Fault;
        }
        match StackFrame::get_ref_array_at(v0, heap) {
            Reference::Value(k) => {
                let count = heap.ref_array(k).elements_len();
                match StackFrame::get_ref_at(frame.get_op(2), heap) {
                    Reference::Value(v) => {
                        if index > count {
                            return Step::Fault;
                        }
                        heap.ref_array_set(k, index, v);
                        frame.pop_op();
                        frame.pop_op();
                        frame.pop_op();
                        assert(frame.stack() =~= below(before.stack(), 3));
                        Step::Continue
                    },
                    Reference::Null => Step::Fault,
                }
            },
            Reference::Null => Step::Fault,
        }
    } else {
        match StackFrame::get_type_array_at(v0, heap) {
            Reference::Value(k) => {
                let a = heap.type_array(k);
                let t = a.array_type();
                let count = a.slots_len();
                if op == JVM_OPCODE_LASTORE {
                    if !(t == ArrayType::Long && len >= 4) {
                        return Step::Fault;
                    }
                    let value = parts_to_long(frame.get_op(2), frame.get_op(3));
                    if !(index <= count && index < usize::MAX) {
                        return Step::Fault;
                    }
                    heap.type_array_put_long(k, index, value);
                    frame.pop_op();
                    frame.pop_op();
                    frame.pop_op();
                    frame.pop_op();
                    assert(frame.stack() =~= below(before.stack(), 4));
                    return Step::Continue;
                }
                if len < 3 {
                    return Step::Fault;
                }
                let v2 = frame.get_op(2);
                let value: u32 = if op == JVM_OPCODE_IASTORE && t == ArrayType::Int {
                    v2 as i32 as u32
                } else if op == JVM_OPCODE_BASTORE && t == ArrayType::Byte {
                    v2 as i8 as u32
                } else if op == JVM_OPCODE_BASTORE && t == ArrayType::Boolean {
                    if v2 != 0 {
                        1
                    } else {
                        0
                    }
                } else if op == JVM_OPCODE_CASTORE && t == ArrayType::Char && crate::strings::char_from_u32(
                    v2,
                ).is_some() {
                    v2
                } else if op == JVM_OPCODE_SASTORE && t == ArrayType::Short {
                    v2 as i16 as u32
                } else {
                    return Step::Fault;
                };
                if index > count {
                    return Step::Fault;
                }
                heap.type_array_put(k, index, value);
                frame.pop_op();
                frame.pop_op();
                frame.pop_op();
                assert(frame.stack() =~= below(before.stack(), 3));
                Step::Continue
            },
            Reference::Null => Step::Fault,
        }
    }
}

/// The big-endian `u16` operand at the cursor, without moving past it.
fn peek_u16(parser: &CodeParser) -> (r: u16)
    requires
        can_read(parser.code(), parser.position(), 2),
    ensures
        r == operand_u16(parser.code(), parser.position()),
{
    let pc = parser.position_exec() as usize;
    let b0 = parser.code_at(pc);
    let b1 = parser.code_at(pc + 1);
    assert(((b0 as u16) << 8u16) | (b1 as u16) == (b0 as u16) * 256u16 + (b1 as u16)) by (bit_vector);
    ((b0 as u16) << 8u16) | (b1 as u16)
}

/// Moves the cursor past `n` operand bytes.
fn skip_operands(parser: &mut CodeParser, n: u16)
    requires
        n <= 2,
        can_read(old(parser).code(), old(parser).position(), n as int),
    ensures
        final(parser).code() == old(parser).code(),
        final(parser).position() == old(parser).position() + n,
{
    let mut i: u16 = 0;
    while i < n
        invariant
            i <= n,
            n <= 2,
            parser.code() == old(parser).code(),
            parser.position() == old(parser).position() + i,
            can_read(old(parser).code(), old(parser).position(), n as int),
        decreases n - i,
    {
        parser.next();
        i = i + 1;
    }
}

/// `new`, `newarray`, `anewarray` and `arraylength`.
fn exec_alloc(
    op: u8,
    frame: &mut StackFrame,
    parser: &mut CodeParser,
    heap: &mut HeapSpace,
    pool: &ConstantPool,
    loader: &ClassLoader,
    handlers: &ExceptionHandlerTable,
) -> (r: Step)
    requires
        op == JVM_OPCODE_NEW || op == JVM_OPCODE_NEWARRAY || op == JVM_OPCODE_ANEWARRAY || op
            == JVM_OPCODE_ARRAYLENGTH,
        loader.wf(),
    ensures
        final(parser).code() == old(parser).code(),
        heap_op_done(
            op,
            context_of(old(parser).code(), pool, loader, handlers),
            state_of(*old(frame), old(parser).position(), old(heap)@),
            state_of(*final(frame), final(parser).position(), final(heap)@),
            r@,
        ),
{
    let pc = parser.position_exec();
    let len = frame.stack_len();
    let can_read_one = (pc as usize) < parser.code_len() && pc < 0xffff;
    let can_read_two = (pc as usize) + 2 <= parser.code_len() && pc < 0xfffe;
    let ghost before = *frame;
    if op == JVM_OPCODE_ARRAYLENGTH {
        if len < 1 || frame.get_op(0) == u32::MAX {
            return Step::Fault;
        }
        match StackFrame::get_ref_array_at(frame.get_op(0), heap) {
            Reference::Value(k) => {
                let length = heap.ref_array(k).len();
                frame.pop_op();
                assert(frame.stack() =~= below(before.stack(), 1));
                frame.push_int_op(length as i32);
                Step::Continue
            },
            Reference::Null => Step::Fault,
        }
    } else if op == JVM_OPCODE_NEWARRAY {
        if !can_read_one {
            return Step::Fault;
        }
        let code = parser.code_at(pc as usize);
        let array_type = match ArrayType::from(code) {
            Some(t) => t,
            None => return Step::Fault,
        };
        if len < 1 {
            return Step::Fault;
        }
        let count = frame.pop_int_op();
        assert(frame.stack() =~= below(before.stack(), 1));
        parser.next();
        let offset = heap.len();
        let array = TypeArrayObject::new(offset, array_type, count as usize);
        heap.push_type_array(array);
        frame.push_ref_op(offset as u32);
        Step::Continue
    } else {
        if !can_read_two || (op == JVM_OPCODE_ANEWARRAY && len < 1) {
            return Step::Fault;
        }
        let index = peek_u16(parser);
        let name = match pool.class_name_at(index) {
            Some(n) => n,
            None => return Step::Fault,
        };
        let k = match loader.find(istr_as_str(&name)) {
            Some(k) => k,
            None => return Step::LoadClass(name),
        };
        proof {
            crate::class_loader::lemma_find_key(loader@, istr_view(name));
        }
        let offset = heap.len();
        if op == JVM_OPCODE_NEW {
            let class = loader.class_at(k);
            if class.is_interface() || class.is_abstract() {
                return Step::Fault;
            }
            let field_count = class.field_count();
            let mut instance = InstanceObject::new(offset, name, field_count);
            let mut i: usize = 0;
            while i < field_count
                invariant
                    i <= field_count,
                    instance.slots() == Seq::new(i as nat, |j: int| 0u32),
                    instance.rest() == (offset, istr_view(name)),
                decreases field_count - i,
            {
                instance.put(i, 0);
                i = i + 1;
                assert(instance.slots() =~= Seq::new(i as nat, |j: int| 0u32));
            }
            skip_operands(parser, 2);
            heap.push_ref(instance);
            frame.push_ref_op(offset as u32);
            Step::Continue
        } else {
            let count = frame.pop_int_op();
            assert(frame.stack() =~= below(before.stack(), 1));
            skip_operands(parser, 2);
            let array = ReferenceArrayObject::new(offset, istr_clone(&name), name, count as usize);
            heap.push_ref_array(array);
            frame.push_ref_op(offset as u32);
            Step::Continue
        }
    }
}

/// `athrow`, `checkcast` and `instanceof`.
fn exec_object(
    op: u8,
    frame: &mut StackFrame,
    parser: &mut CodeParser,
    heap: &HeapSpace,
    pool: &ConstantPool,
    loader: &ClassLoader,
    handlers: &ExceptionHandlerTable,
) -> (r: Step)
    requires
        op == JVM_OPCODE_ATHROW || op == JVM_OPCODE_CHECKCAST || op == JVM_OPCODE_INSTANCEOF,
        loader.wf(),
    ensures
        final(parser).code() == old(parser).code(),
        heap_op_done(
            op,
            context_of(old(parser).code(), pool, loader, handlers),
            state_of(*old(frame), old(parser).position(), heap@),
            state_of(*final(frame), final(parser).position(), heap@),
            r@,
        ),
{
    let pc = parser.position_exec();
    let len = frame.stack_len();
    let can_read_two = (pc as usize) + 2 <= parser.code_len() && pc < 0xfffe;
    let ghost before = *frame;
    if len < 1 || frame.get_op(0) == u32::MAX {
        return Step::Fault;
    }
    if op == JVM_OPCODE_INSTANCEOF && !can_read_two {
        return Step::Fault;
    }
    let k = match StackFrame::get_ref_at(frame.get_op(0), heap) {
        Reference::Value(k) => k,
        Reference::Null => {
            if op == JVM_OPCODE_ATHROW {
                return Step::Fault;
            }
            frame.pop_op();
            assert(frame.stack() =~= below(before.stack(), 1));
            if op == JVM_OPCODE_INSTANCEOF {
                skip_operands(parser, 2);
                frame.push_int_op(0);
            }
            return Step::Continue;
        },
    };
    let instance = heap.instance(k);
    if op == JVM_OPCODE_ATHROW {
        let class = crate::strings::istr_new(instance.class());
        frame.pop_op();
        assert(frame.stack() =~= below(before.stack(), 1));
        return match handlers.get_handler(&class) {
            Some(h) => {
                parser.seek(h.start_pc() as usize);
                Step::Continue
            },
            None => Step::Return(MethodResult::Exception),
        };
    }
    if !can_read_two {
        return Step::Fault;
    }
    let index = peek_u16(parser);
    let name = match pool.class_name_at(index) {
        Some(n) => n,
        None => return Step::Fault,
    };
    let target = match loader.find(istr_as_str(&name)) {
        Some(t) => t,
        None => return Step::LoadClass(name),
    };
    let own = match loader.find(instance.class()) {
        Some(o) => o,
        None => return Step::Fault,
    };
    proof {
        crate::class_loader::lemma_find_key(loader@, instance@.class);
    }
    let is_subclass = loader.is_subclass(own, target);
    if op == JVM_OPCODE_CHECKCAST {
        if !is_subclass {
            return Step::Fault;
        }
        let offset = instance.offset();
        frame.pop_op();
        assert(frame.stack() =~= below(before.stack(), 1));
        skip_operands(parser, 2);
        frame.push_ref_op(offset as u32);
    } else {
        frame.pop_op();
        assert(frame.stack() =~= below(before.stack(), 1));
        skip_operands(parser, 2);
        frame.push_int_op(if is_subclass { 1 } else { 0 });
    }
    Step::Continue
}

// ---------------------------------------------------------------------------
// One step
// ---------------------------------------------------------------------------

/// The opcodes of the instructions on `float` and `double` values.
pub open spec fn is_float_op(op: u8) -> bool {
    (JVM_OPCODE_FCONST_0 <= op <= JVM_OPCODE_DCONST_1) || op == JVM_OPCODE_FLOAD || op
        == JVM_OPCODE_DLOAD || (JVM_OPCODE_FLOAD_0 <= op <= JVM_OPCODE_DLOAD_3) || op
        == JVM_OPCODE_FALOAD || op == JVM_OPCODE_DALOAD || op == JVM_OPCODE_FSTORE || op
        == JVM_OPCODE_DSTORE || (JVM_OPCODE_FSTORE_0 <= op <= JVM_OPCODE_DSTORE_3) || op
        == JVM_OPCODE_FASTORE || op == JVM_OPCODE_DASTORE || op == JVM_OPCODE_FADD || op
        == JVM_OPCODE_DADD || op == JVM_OPCODE_FSUB || op == JVM_OPCODE_DSUB || op == JVM_OPCODE_FMUL
        || op == JVM_OPCODE_DMUL || op == JVM_OPCODE_FDIV || op == JVM_OPCODE_DDIV || op
        == JVM_OPCODE_FREM || op == JVM_OPCODE_DREM || op == JVM_OPCODE_FNEG || op == JVM_OPCODE_DNEG
        || op == JVM_OPCODE_I2F || op == JVM_OPCODE_I2D || (JVM_OPCODE_L2F <= op <= JVM_OPCODE_D2F)
        || (JVM_OPCODE_FCMPL <= op <= JVM_OPCODE_DCMPG) || op == JVM_OPCODE_FRETURN || op
        == JVM_OPCODE_DRETURN
}

/// One step of the interpreter: the outcome, and the state afterwards.
/// An empty method, a cursor past the end of the bytecode and an opcode
/// that the interpreter does not run are faults.  When a class must be
/// loaded first, the state is the state before the step, so that the step
/// can be run again.
pub open spec fn spec_step(ctx: SpecContext, s: SpecState) -> (SpecStep, SpecState) {
    let code = ctx.code;
    if code.len() == 0 || !(s.pc < code.len() && s.pc < u16::MAX) {
        (SpecStep::Fault, s)
    } else {
        let op = code[s.pc as int];
        let s1 = SpecState { pc: (s.pc + 1) as u16, ..s };
        if is_float_op(op) {
            (SpecStep::FloatOp(op), s1)
        } else if is_local_op(op) {
            match spec_local_op(op, code, s1) {
                Some(s2) => (SpecStep::Continue, s2),
                None => (SpecStep::Fault, s1),
            }
        } else if is_int_op(op) {
            match spec_int_op(op, s1.stack) {
                Some(st) => (SpecStep::Continue, SpecState { stack: st, ..s1 }),
                None => (SpecStep::Fault, s1),
            }
        } else if is_long_op(op) {
            match spec_long_op(op, s1.stack) {
                Some(st) => (SpecStep::Continue, SpecState { stack: st, ..s1 }),
                None => (SpecStep::Fault, s1),
            }
        } else if is_control_op(op) {
            match spec_control_op(op, code, s1) {
                Some((step, s2)) => (step, s2),
                None => (SpecStep::Fault, s1),
            }
        } else if is_heap_op(op) {
            match spec_heap_op(op, ctx, s1) {
                Some((SpecStep::LoadClass(n), _)) => (SpecStep::LoadClass(n), s),
                Some((step, s2)) => (step, s2),
                None => (SpecStep::Fault, s1),
            }
        } else {
            (SpecStep::Fault, s1)
        }
    }
}

/// The interpreter.
pub struct Interpreter {
    _singleton: (),
}

impl Interpreter {
    /// A frame for a run of `code`, with `parameters` pushed in order.
    pub fn start(code: &CodeBlock, parameters: &[u32]) -> (r: StackFrame)
        ensures
            r.locals() == Seq::<u32>::empty(),
            r.stack() == parameters@,
    {
        let mut frame = code.new_stack_frame();
        let mut i: usize = 0;
        while i < parameters.len()
            invariant
                i <= parameters@.len(),
                frame.locals() == Seq::<u32>::empty(),
                frame.stack() == parameters@.take(i as int),
            decreases parameters.len() - i,
        {
            frame.push_op(parameters[i]);
            i = i + 1;
            assert(frame.stack() =~= parameters@.take(i as int));
        }
        assert(parameters@.take(i as int) =~= parameters@);
        frame
    }

    /// Runs the instruction at the cursor of `parser`, in a method of
    /// `class` whose code is `code`, with the classes that `loader` holds.
    /// The instruction must not fault: the cursor is on an instruction that
    /// the interpreter handles, with the operands, stack and heap it needs
    /// (see `try_step`).
    pub fn step(
        frame: &mut StackFrame,
        parser: &mut CodeParser,
        heap: &mut HeapSpace,
        class: &Class,
        loader: &ClassLoader,
        code: &CodeBlock,
    ) -> (r: Step)
        requires
            loader.wf(),
            !(spec_step(
                SpecContext {
                    code: old(parser).code(),
                    pool: class@.constant_pool,
                    classes: loader@,
                    handlers: code@.exception_handlers,
                },
                state_of(*old(frame), old(parser).position(), old(heap)@),
            ).0 is Fault),
        ensures
            final(parser).code() == old(parser).code(),
            ({
                let ctx = SpecContext {
                    code: old(parser).code(),
                    pool: class@.constant_pool,
                    classes: loader@,
                    handlers: code@.exception_handlers,
                };
                let (step, after) = spec_step(ctx, state_of(*old(frame), old(parser).position(), old(heap)@));
                &&& r@ == step
                &&& state_of(*final(frame), final(parser).position(), final(heap)@) == after
            }),
    {
        Interpreter::try_step(frame, parser, heap, class, loader, code)
    }

    /// Runs an instruction as `step` does, answering `Fault` where the
    /// instruction cannot run: no instruction at the cursor, an opcode that
    /// the interpreter does not handle, or operands, a stack or a heap that
    /// do not fit it.
    pub fn try_step(
        frame: &mut StackFrame,
        parser: &mut CodeParser,
        heap: &mut HeapSpace,
        class: &Class,
        loader: &ClassLoader,
        code: &CodeBlock,
    ) -> (r: Step)
        requires
            loader.wf(),
        ensures
            final(parser).code() == old(parser).code(),
            ({
                let ctx = SpecContext {
                    code: old(parser).code(),
                    pool: class@.constant_pool,
                    classes: loader@,
                    handlers: code@.exception_handlers,
                };
                let (step, after) = spec_step(ctx, state_of(*old(frame), old(parser).position(), old(heap)@));
                &&& r@ == step
                &&& !(r@ is Fault) ==> state_of(*final(frame), final(parser).position(), final(heap)@) == after
            }),
    {
        let start = parser.position_exec();
        if parser.is_empty() || !((start as usize) < parser.code_len() && start < 0xffff) {
            return Step::Fault;
        }
        let op = parser.next();
        let pool = class.constant_pool();
        let handlers = code.exception_handlers();
        let ghost ctx = SpecContext {
            code: parser.code(),
            pool: class@.constant_pool,
            classes: loader@,
            handlers: code@.exception_handlers,
        };
        if (JVM_OPCODE_FCONST_0 <= op && op <= JVM_OPCODE_DCONST_1) || op == JVM_OPCODE_FLOAD || op
            == JVM_OPCODE_DLOAD || (JVM_OPCODE_FLOAD_0 <= op && op <= JVM_OPCODE_DLOAD_3) || op
            == JVM_OPCODE_FALOAD || op == JVM_OPCODE_DALOAD || op == JVM_OPCODE_FSTORE || op
            == JVM_OPCODE_DSTORE || (JVM_OPCODE_FSTORE_0 <= op && op <= JVM_OPCODE_DSTORE_3) || op
            == JVM_OPCODE_FASTORE || op == JVM_OPCODE_DASTORE || op == JVM_OPCODE_FADD || op
            == JVM_OPCODE_DADD || op == JVM_OPCODE_FSUB || op == JVM_OPCODE_DSUB || op
            == JVM_OPCODE_FMUL || op == JVM_OPCODE_DMUL || op == JVM_OPCODE_FDIV || op
            == JVM_OPCODE_DDIV || op == JVM_OPCODE_FREM || op == JVM_OPCODE_DREM || op
            == JVM_OPCODE_FNEG || op == JVM_OPCODE_DNEG || op == JVM_OPCODE_I2F || op
            == JVM_OPCODE_I2D || (JVM_OPCODE_L2F <= op && op <= JVM_OPCODE_D2F) || (JVM_OPCODE_FCMPL
            <= op && op <= JVM_OPCODE_DCMPG) || op == JVM_OPCODE_FRETURN || op == JVM_OPCODE_DRETURN {
            return Step::FloatOp(op);
        }
        if (JVM_OPCODE_NOP <= op && op <= JVM_OPCODE_LCONST_1) || op == JVM_OPCODE_BIPUSH || op
            == JVM_OPCODE_SIPUSH || op == JVM_OPCODE_ILOAD || op == JVM_OPCODE_LLOAD || (
        JVM_OPCODE_ILOAD_0 <= op && op <= JVM_OPCODE_LLOAD_3) || op == JVM_OPCODE_ISTORE || op
            == JVM_OPCODE_LSTORE || (JVM_OPCODE_ISTORE_0 <= op && op <= JVM_OPCODE_LSTORE_3) || (
        JVM_OPCODE_POP <= op && op <= JVM_OPCODE_SWAP) {
            return if exec_local_op(op, frame, parser) {
                Step::Continue
            } else {
                Step::Fault
            };
        }
        if op == JVM_OPCODE_IADD || op == JVM_OPCODE_ISUB || op == JVM_OPCODE_IMUL || op
            == JVM_OPCODE_IDIV || op == JVM_OPCODE_IREM || op == JVM_OPCODE_INEG || op
            == JVM_OPCODE_ISHL || op == JVM_OPCODE_ISHR || op == JVM_OPCODE_IUSHR || op
            == JVM_OPCODE_IAND || op == JVM_OPCODE_IOR || op == JVM_OPCODE_IXOR || op
            == JVM_OPCODE_IINC || op == JVM_OPCODE_I2L || op == JVM_OPCODE_I2B || op
            == JVM_OPCODE_I2C || op == JVM_OPCODE_I2S {
            return if exec_int_op(op, frame) {
                Step::Continue
            } else {
                Step::Fault
            };
        }
        if op == JVM_OPCODE_LADD || op == JVM_OPCODE_LSUB || op == JVM_OPCODE_LMUL || op
            == JVM_OPCODE_LDIV || op == JVM_OPCODE_LREM || op == JVM_OPCODE_LNEG || op
            == JVM_OPCODE_LSHL || op == JVM_OPCODE_LSHR || op == JVM_OPCODE_LUSHR || op
            == JVM_OPCODE_LAND || op == JVM_OPCODE_LOR || op == JVM_OPCODE_LXOR || op
            == JVM_OPCODE_L2I || op == JVM_OPCODE_LCMP {
            return if exec_long_op(op, frame) {
                Step::Continue
            } else {
                Step::Fault
            };
        }
        if (JVM_OPCODE_IFEQ <= op && op <= JVM_OPCODE_JSR) || op == JVM_OPCODE_IRETURN || op
            == JVM_OPCODE_LRETURN || op == JVM_OPCODE_ARETURN || op == JVM_OPCODE_RETURN || (
        JVM_OPCODE_IFNULL <= op && op <= JVM_OPCODE_JSR_W) {
            return exec_control_op(op, frame, parser, heap);
        }
        let r = if op == JVM_OPCODE_ALOAD || (JVM_OPCODE_ALOAD_0 <= op && op <= JVM_OPCODE_ALOAD_3)
            || op == JVM_OPCODE_ASTORE || (JVM_OPCODE_ASTORE_0 <= op && op <= JVM_OPCODE_ASTORE_3) {
            exec_ref_local(op, frame, parser, heap, Ghost(ctx))
        } else if op == JVM_OPCODE_IALOAD || op == JVM_OPCODE_LALOAD || (JVM_OPCODE_AALOAD <= op
            && op <= JVM_OPCODE_SALOAD) {
            exec_array_load(op, frame, parser, heap, Ghost(ctx))
        } else if op == JVM_OPCODE_IASTORE || op == JVM_OPCODE_LASTORE || (JVM_OPCODE_AASTORE <= op
            && op <= JVM_OPCODE_SASTORE) {
            exec_array_store(op, frame, parser, heap, Ghost(ctx))
        } else if op == JVM_OPCODE_NEW || op == JVM_OPCODE_NEWARRAY || op == JVM_OPCODE_ANEWARRAY
            || op == JVM_OPCODE_ARRAYLENGTH {
            exec_alloc(op, frame, parser, heap, pool, loader, handlers)
        } else if op == JVM_OPCODE_ATHROW || op == JVM_OPCODE_CHECKCAST || op == JVM_OPCODE_INSTANCEOF {
            exec_object(op, frame, parser, heap, pool, loader, handlers)
        } else {
            return Step::Fault;
        };
        match r {
            Step::LoadClass(_) => {
                parser.seek(start as usize);
            },
            _ => {},
        }
        r
    }
}

// ---------------------------------------------------------------------------
// Laws
// ---------------------------------------------------------------------------

/// Whether two allocations are of the same kind.
pub open spec fn same_kind(a: SpecHeapEntry, b: SpecHeapEntry) -> bool {
    (a is Instance && b is Instance) || (a is ReferenceArray && b is ReferenceArray) || (
    a is TypeArray && b is TypeArray)
}

/// A step that needs a class loaded changes nothing.
pub proof fn law_load_class_changes_nothing(ctx: SpecContext, s: SpecState)
    ensures
        spec_step(ctx, s).0 is LoadClass ==> spec_step(ctx, s).1 == s,
{
}

/// A step never frees an allocation nor changes its kind, so a reference
/// to an object or an array stays a reference to one of the same kind.
pub proof fn law_step_keeps_allocations(ctx: SpecContext, s: SpecState)
    ensures
        ({
            let after = spec_step(ctx, s).1;
            &&& after.heap.len() >= s.heap.len()
            &&& forall|i: int| 0 <= i < s.heap.len() ==> same_kind(#[trigger] after.heap[i], s.heap[i])
        }),
{
    let after = spec_step(ctx, s).1;
    assert forall|i: int| 0 <= i < s.heap.len() implies same_kind(#[trigger] after.heap[i], s.heap[i]) by {
        if after.heap != s.heap {
            let code = ctx.code;
            let op = code[s.pc as int];
            let s1 = SpecState { pc: (s.pc + 1) as u16, ..s };
            let st = s1.stack;
            if op == JVM_OPCODE_AASTORE {
                let (k, a) = ref_array_in(s.heap, slot(st, 0))->0;
                if i == k {
                    assert(s.heap[k] is ReferenceArray);
                }
            } else if JVM_OPCODE_IASTORE <= op <= JVM_OPCODE_SASTORE {
                let (k, a) = type_array_in(s.heap, slot(st, 0))->0;
                if i == k {
                    assert(s.heap[k] is TypeArray);
                }
            }
        }
    }
}

/// The binary `int` instructions replace the two `int`s on top of the stack
/// (`a` on top, `b` below it) by the result of their operation, and go on
/// at the next instruction: `iand`, `ior` and `ixor` give the bitwise and,
/// or and exclusive or; `iadd`, `isub` and `imul` give `a + b`, `a - b` and
/// `a * b` whenever that fits in an `int`.
pub proof fn law_int_binary_ops(ctx: SpecContext, s: SpecState)
    requires
        s.pc < ctx.code.len(),
        s.pc < u16::MAX,
        s.stack.len() >= 2,
    ensures
        ({
            let op = ctx.code[s.pc as int];
            let (step, after) = spec_step(ctx, s);
            let n = s.stack.len();
            let a = s.stack[n - 1] as i32;
            let b = s.stack[n - 2] as i32;
            let rest = s.stack.take(n - 2);
            let moved_on = step is Continue && after.pc == s.pc + 1 && after.locals == s.locals
                && after.heap == s.heap;
            &&& op == JVM_OPCODE_IXOR ==> moved_on && after.stack == rest.push((a ^ b) as u32)
            &&& op == JVM_OPCODE_IOR ==> moved_on && after.stack == rest.push((a | b) as u32)
            &&& op == JVM_OPCODE_IAND ==> moved_on && after.stack == rest.push((a & b) as u32)
            &&& (op == JVM_OPCODE_IADD && i32::MIN <= a + b <= i32::MAX) ==> moved_on
                && after.stack == rest.push(((a + b) as i32) as u32)
            &&& (op == JVM_OPCODE_ISUB && i32::MIN <= a - b <= i32::MAX) ==> moved_on
                && after.stack == rest.push(((a - b) as i32) as u32)
            &&& (op == JVM_OPCODE_IMUL && i32::MIN <= a * b <= i32::MAX) ==> moved_on
                && after.stack == rest.push(((a * b) as i32) as u32)
        }),
{
}

/// The `int` comparisons `if_icmpeq` to `if_icmple` pop the two `int`s on
/// top (`a` on top, `b` below it) and branch when `a` compares to `b` as
/// the instruction says (equal, not equal, less, greater or equal, greater,
/// less or equal): the cursor moves to the position after the two offset
/// bytes plus the offset.  Otherwise the cursor stays just past the opcode.
pub proof fn law_int_compare_branches(ctx: SpecContext, s: SpecState)
    requires
        s.pc < ctx.code.len(),
        s.pc < u16::MAX,
        JVM_OPCODE_IF_ICMPEQ <= ctx.code[s.pc as int] <= JVM_OPCODE_IF_ICMPLE,
        s.stack.len() >= 2,
        can_branch(ctx.code, s.pc + 1),
    ensures
        ({
            let op = ctx.code[s.pc as int];
            let code = ctx.code;
            let (step, after) = spec_step(ctx, s);
            let n = s.stack.len();
            let a = s.stack[n - 1] as i32;
            let b = s.stack[n - 2] as i32;
            let taken = (op == JVM_OPCODE_IF_ICMPEQ && a == b) || (op == JVM_OPCODE_IF_ICMPNE
                && a != b) || (op == JVM_OPCODE_IF_ICMPLT && a < b) || (op == JVM_OPCODE_IF_ICMPGE
                && a >= b) || (op == JVM_OPCODE_IF_ICMPGT && a > b) || (op == JVM_OPCODE_IF_ICMPLE
                && a <= b);
            &&& step is Continue
            &&& after.stack == s.stack.take(n - 2)
            &&& after.locals == s.locals
            &&& after.heap == s.heap
            &&& after.pc == if taken {
                s.pc + 3 + (code[s.pc + 1] as int) * 256 + code[s.pc + 2] as int
            } else {
                s.pc + 1
            }
        }),
{
}

/// The one-`int` instructions replace the `int` `a` on top of the stack
/// and go on at the next instruction: `ineg` gives `-a` (unless `a` is the
/// least `int`), `iinc` as run here gives `a + 1` (unless `a` is the
/// greatest), `i2b` and `i2s` give the low 8 and 16 bits of `a` sign
/// extended, `i2l` gives `a` as a `long` (upper half pushed first); the
/// shifts take the shift count `b` below `a`, from 0 to 31, and give
/// `a << b`, `a >> b` (sign kept) and `a >>> b` (zeros shifted in).
pub proof fn law_int_unary_and_shift_ops(ctx: SpecContext, s: SpecState)
    requires
        s.pc < ctx.code.len(),
        s.pc < u16::MAX,
        s.stack.len() >= 1,
    ensures
        ({
            let op = ctx.code[s.pc as int];
            let (step, after) = spec_step(ctx, s);
            let n = s.stack.len();
            let a = s.stack[n - 1] as i32;
            let rest1 = s.stack.take(n - 1);
            let moved_on = step is Continue && after.pc == s.pc + 1 && after.locals == s.locals
                && after.heap == s.heap;
            &&& (op == JVM_OPCODE_INEG && a != i32::MIN) ==> moved_on && after.stack == rest1.push(
                ((-a) as i32) as u32,
            )
            &&& (op == JVM_OPCODE_IINC && a != i32::MAX) ==> moved_on && after.stack == rest1.push(
                ((a + 1) as i32) as u32,
            )
            &&& op == JVM_OPCODE_I2B ==> moved_on && after.stack == rest1.push((a as i8) as u32)
            &&& op == JVM_OPCODE_I2S ==> moved_on && after.stack == rest1.push((a as i16) as u32)
            &&& op == JVM_OPCODE_I2L ==> moved_on && after.stack == rest1.push(
                ((a as i64) >> 32u64) as u32,
            ).push((a as i64) as u32)
            &&& (n >= 2 && 0 <= (s.stack[n - 2] as i32) < 32) ==> {
                let b = s.stack[n - 2] as i32;
                let rest2 = s.stack.take(n - 2);
                &&& op == JVM_OPCODE_ISHL ==> moved_on && after.stack == rest2.push((a << b) as u32)
                &&& op == JVM_OPCODE_ISHR ==> moved_on && after.stack == rest2.push((a >> b) as u32)
                &&& op == JVM_OPCODE_IUSHR ==> moved_on && after.stack == rest2.push(
                    (((a as u32) >> b) as i32) as u32,
                )
            }
        }),
{
}

/// The binary `long` instructions replace the two `long`s on top of the
/// stack (`a` above `b`, each read with its upper half on top) by the result
/// of their operation, pushed upper half first, and go on at the next
/// instruction: bitwise and, or and exclusive or, and `a + b`, `a - b` and
/// `a * b` whenever that fits in a `long`; `lcmp` pushes the `int` 1 when
/// `a > b`, -1 when `a < b` and 0 when they are equal.
pub proof fn law_long_binary_ops(ctx: SpecContext, s: SpecState)
    requires
        s.pc < ctx.code.len(),
        s.pc < u16::MAX,
        s.stack.len() >= 4,
    ensures
        ({
            let op = ctx.code[s.pc as int];
            let (step, after) = spec_step(ctx, s);
            let n = s.stack.len();
            let a = spec_parts_to_long(s.stack[n - 1], s.stack[n - 2]);
            let b = spec_parts_to_long(s.stack[n - 3], s.stack[n - 4]);
            let rest = s.stack.take(n - 4);
            let moved_on = step is Continue && after.pc == s.pc + 1 && after.locals == s.locals
                && after.heap == s.heap;
            let pushed = |v: i64| rest.push((v >> 32u64) as u32).push(v as u32);
            &&& op == JVM_OPCODE_LXOR ==> moved_on && after.stack == pushed(a ^ b)
            &&& op == JVM_OPCODE_LOR ==> moved_on && after.stack == pushed(a | b)
            &&& op == JVM_OPCODE_LAND ==> moved_on && after.stack == pushed(a & b)
            &&& (op == JVM_OPCODE_LADD && i64::MIN <= a + b <= i64::MAX) ==> moved_on
                && after.stack == pushed((a + b) as i64)
            &&& (op == JVM_OPCODE_LSUB && i64::MIN <= a - b <= i64::MAX) ==> moved_on
                && after.stack == pushed((a - b) as i64)
            &&& (op == JVM_OPCODE_LMUL && i64::MIN <= a * b <= i64::MAX) ==> moved_on
                && after.stack == pushed((a * b) as i64)
            &&& op == JVM_OPCODE_LCMP ==> moved_on && after.stack == rest.push(
                if a > b {
                    1u32
                } else if a < b {
                    0xffff_ffffu32
                } else {
                    0u32
                },
            )
        }),
{
    assert((-1i32) as u32 == 0xffff_ffffu32) by (bit_vector);
}

/// `ifeq` to `ifle` pop the `int` on top and branch when it compares to
/// zero as the instruction says: the cursor moves to the position after
/// the two offset bytes plus the offset; otherwise it stays just past the
/// opcode.
pub proof fn law_zero_compare_branches(ctx: SpecContext, s: SpecState)
    requires
        s.pc < ctx.code.len(),
        s.pc < u16::MAX,
        JVM_OPCODE_IFEQ <= ctx.code[s.pc as int] <= JVM_OPCODE_IFLE,
        s.stack.len() >= 1,
        can_branch(ctx.code, s.pc + 1),
    ensures
        ({
            let op = ctx.code[s.pc as int];
            let code = ctx.code;
            let (step, after) = spec_step(ctx, s);
            let n = s.stack.len();
            let a = s.stack[n - 1] as i32;
            let taken = (op == JVM_OPCODE_IFEQ && a == 0) || (op == JVM_OPCODE_IFNE && a != 0) || (
            op == JVM_OPCODE_IFLT && a < 0) || (op == JVM_OPCODE_IFGE && a >= 0) || (op
                == JVM_OPCODE_IFGT && a > 0) || (op == JVM_OPCODE_IFLE && a <= 0);
            &&& step is Continue
            &&& after.stack == s.stack.take(n - 1)
            &&& after.locals == s.locals
            &&& after.heap == s.heap
            &&& after.pc == if taken {
                s.pc + 3 + (code[s.pc + 1] as int) * 256 + code[s.pc + 2] as int
            } else {
                s.pc + 1
            }
        }),
{
    assert(s.stack.drop_last() =~= s.stack.take(s.stack.len() - 1));
}

} // verus!
