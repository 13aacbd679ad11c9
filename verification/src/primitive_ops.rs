//! Arithmetic, logic, conversion and comparison instructions on `int` and
//! `long` operands.
//!
//! A binary instruction pops its first operand from the top of the stack and
//! its second from below it, and pushes `first op second`.  Arithmetic that
//! would overflow, divide by zero or shift by an amount outside the width of
//! the type is outside the contracts.

use vstd::prelude::*;
use vstd::utf8::is_scalar;
use crate::stack_frame::{StackFrame, spec_parts_to_long, long_high, long_low};
use crate::strings::char_from_u32;

verus! {

/// The `int` `k` slots below the top.
pub open spec fn int_at(f: StackFrame, k: int) -> i32 {
    f.stack_at(k) as i32
}

/// The `long` whose upper half is `k` slots below the top and lower half
/// below that.
pub open spec fn long_at(f: StackFrame, k: int) -> i64 {
    spec_parts_to_long(f.stack_at(k), f.stack_at(k + 1))
}

/// The stack with its top `n` slots removed.
pub open spec fn popped(f: StackFrame, n: int) -> Seq<u32> {
    f.stack().take(f.stack().len() - n)
}

/// A stack with an `int` pushed.
pub open spec fn with_int(s: Seq<u32>, v: i32) -> Seq<u32> {
    s.push(v as u32)
}

/// A stack with a `long` pushed, upper half first.
pub open spec fn with_long(s: Seq<u32>, v: i64) -> Seq<u32> {
    s.push(long_high(v)).push(long_low(v))
}

/// Integer division rounding towards zero.
pub open spec fn trunc_div(x: int, d: int) -> int {
    if x == 0 {
        0
    } else if x > 0 && d > 0 {
        x / d
    } else if x < 0 && d < 0 {
        (x * -1) / (d * -1)
    } else if x < 0 {
        ((x * -1) / d) * -1
    } else {
        (x / (d * -1)) * -1
    }
}

/// The remainder that goes with [`trunc_div`]; it has the sign of `x`.
pub open spec fn trunc_rem(x: int, d: int) -> int {
    if x == 0 {
        0
    } else if x > 0 && d > 0 {
        x % d
    } else if x < 0 && d < 0 {
        ((x * -1) % (d * -1)) * -1
    } else if x < 0 {
        ((x * -1) % d) * -1
    } else {
        x % (d * -1)
    }
}

proof fn lemma_trunc_rem_bounds(x: int, d: int)
    requires
        d != 0,
    ensures
        -(if d < 0 { -d } else { d }) < trunc_rem(x, d) < (if d < 0 { -d } else { d }),
{
    if x > 0 && d > 0 {
        vstd::arithmetic::div_mod::lemma_mod_bound(x, d);
    } else if x < 0 && d < 0 {
        vstd::arithmetic::div_mod::lemma_mod_bound(x * -1, d * -1);
    } else if x < 0 {
        vstd::arithmetic::div_mod::lemma_mod_bound(x * -1, d);
    } else if x > 0 {
        vstd::arithmetic::div_mod::lemma_mod_bound(x, d * -1);
    }
}

proof fn lemma_trunc_div_bounds(x: int, d: int)
    requires
        d != 0,
    ensures
        -(if x < 0 { -x } else { x }) <= trunc_div(x, d) <= (if x < 0 { -x } else { x }),
        x < 0 && d < -1 ==> trunc_div(x, d) < -x,
{
    let ax = if x < 0 { -x } else { x };
    let ad = if d < 0 { -d } else { d };
    vstd::arithmetic::div_mod::lemma_div_pos_is_pos(ax, ad);
    vstd::arithmetic::div_mod::lemma_div_nonincreasing(ax, ad);
    assert(x * -1 == -x);
    assert(d * -1 == -d);
    if x < 0 && d < -1 {
        vstd::arithmetic::div_mod::lemma_div_is_strictly_smaller(ax, ad);
    }
}

proof fn lemma_pop2(f: StackFrame, g: StackFrame)
    requires
        f.stack().len() >= 2,
        g.stack() == f.stack().drop_last().drop_last(),
    ensures
        g.stack() == popped(f, 2),
{
    assert(g.stack() =~= popped(f, 2));
}

proof fn lemma_pop4(f: StackFrame, g: StackFrame)
    requires
        f.stack().len() >= 4,
        g.stack() == f.stack().drop_last().drop_last().drop_last().drop_last(),
    ensures
        g.stack() == popped(f, 4),
{
    assert(g.stack() =~= popped(f, 4));
}

// ---------------------------------------------------------------------------
// int
// ---------------------------------------------------------------------------

pub fn jvm_int_add(frame: &mut StackFrame)
    requires
        old(frame).stack().len() >= 2,
        i32::MIN <= int_at(*old(frame), 0) + int_at(*old(frame), 1) <= i32::MAX,
    ensures
        final(frame).stack() == with_int(
            popped(*old(frame), 2),
            (int_at(*old(frame), 0) + int_at(*old(frame), 1)) as i32,
        ),
        final(frame).locals() == old(frame).locals(),
{
    let first = frame.pop_int_op();
    let second = frame.pop_int_op();
    proof {
        lemma_pop2(*old(frame), *frame);
    }
    frame.push_int_op(first + second);
}

pub fn jvm_int_sub(frame: &mut StackFrame)
    requires
        old(frame).stack().len() >= 2,
        i32::MIN <= int_at(*old(frame), 0) - int_at(*old(frame), 1) <= i32::MAX,
    ensures
        final(frame).stack() == with_int(
            popped(*old(frame), 2),
            (int_at(*old(frame), 0) - int_at(*old(frame), 1)) as i32,
        ),
        final(frame).locals() == old(frame).locals(),
{
    let first = frame.pop_int_op();
    let second = frame.pop_int_op();
    proof {
        lemma_pop2(*old(frame), *frame);
    }
    frame.push_int_op(first - second);
}

pub fn jvm_int_mul(frame: &mut StackFrame)
    requires
        old(frame).stack().len() >= 2,
        i32::MIN <= int_at(*old(frame), 0) * int_at(*old(frame), 1) <= i32::MAX,
    ensures
        final(frame).stack() == with_int(
            popped(*old(frame), 2),
            (int_at(*old(frame), 0) * int_at(*old(frame), 1)) as i32,
        ),
        final(frame).locals() == old(frame).locals(),
{
    let first = frame.pop_int_op();
    let second = frame.pop_int_op();
    proof {
        lemma_pop2(*old(frame), *frame);
    }
    frame.push_int_op(first * second);
}

pub fn jvm_int_div(frame: &mut StackFrame)
    requires
        old(frame).stack().len() >= 2,
        int_at(*old(frame), 1) != 0,
        !(int_at(*old(frame), 0) == i32::MIN && int_at(*old(frame), 1) == -1),
    ensures
        final(frame).stack() == with_int(
            popped(*old(frame), 2),
            trunc_div(int_at(*old(frame), 0) as int, int_at(*old(frame), 1) as int) as i32,
        ),
        final(frame).locals() == old(frame).locals(),
{
    let first = frame.pop_int_op();
    let second = frame.pop_int_op();
    proof {
        lemma_pop2(*old(frame), *frame);
    }
    proof {
        lemma_trunc_div_bounds(first as int, second as int);
    }
    match first.checked_div(second) {
        Some(v) => frame.push_int_op(v),
        None => {
            proof {
                assert(false);
            }
        },
    }
}

pub fn jvm_int_rem(frame: &mut StackFrame)
    requires
        old(frame).stack().len() >= 2,
        int_at(*old(frame), 1) != 0,
        !(int_at(*old(frame), 0) == i32::MIN && int_at(*old(frame), 1) == -1),
    ensures
        final(frame).stack() == with_int(
            popped(*old(frame), 2),
            trunc_rem(int_at(*old(frame), 0) as int, int_at(*old(frame), 1) as int) as i32,
        ),
        final(frame).locals() == old(frame).locals(),
{
    let first = frame.pop_int_op();
    let second = frame.pop_int_op();
    proof {
        lemma_pop2(*old(frame), *frame);
    }
    proof {
        lemma_trunc_rem_bounds(first as int, second as int);
    }
    match first.checked_rem(second) {
        Some(v) => frame.push_int_op(v),
        None => {
            proof {
                assert(false);
            }
        },
    }
}

pub fn jvm_int_neg(frame: &mut StackFrame)
    requires
        old(frame).stack().len() >= 1,
        int_at(*old(frame), 0) != i32::MIN,
    ensures
        final(frame).stack() == with_int(popped(*old(frame), 1), (-int_at(*old(frame), 0)) as i32),
        final(frame).locals() == old(frame).locals(),
{
    let value = frame.pop_int_op();
    proof {
        assert(frame.stack() =~= popped(*old(frame), 1));
    }
    frame.push_int_op(-value);
}

pub fn jvm_int_and(frame: &mut StackFrame)
    requires
        old(frame).stack().len() >= 2,
    ensures
        final(frame).stack() == with_int(
            popped(*old(frame), 2),
            int_at(*old(frame), 0) & int_at(*old(frame), 1),
        ),
        final(frame).locals() == old(frame).locals(),
{
    let first = frame.pop_int_op();
    let second = frame.pop_int_op();
    proof {
        lemma_pop2(*old(frame), *frame);
    }
    frame.push_int_op(first & second);
}

pub fn jvm_int_or(frame: &mut StackFrame)
    requires
        old(frame).stack().len() >= 2,
    ensures
        final(frame).stack() == with_int(
            popped(*old(frame), 2),
            int_at(*old(frame), 0) | int_at(*old(frame), 1),
        ),
        final(frame).locals() == old(frame).locals(),
{
    let first = frame.pop_int_op();
    let second = frame.pop_int_op();
    proof {
        lemma_pop2(*old(frame), *frame);
    }
    frame.push_int_op(first | second);
}

pub fn jvm_int_xor(frame: &mut StackFrame)
    requires
        old(frame).stack().len() >= 2,
    ensures
        final(frame).stack() == with_int(
            popped(*old(frame), 2),
            int_at(*old(frame), 0) ^ int_at(*old(frame), 1),
        ),
        final(frame).locals() == old(frame).locals(),
{
    let first = frame.pop_int_op();
    let second = frame.pop_int_op();
    proof {
        lemma_pop2(*old(frame), *frame);
    }
    frame.push_int_op(first ^ second);
}

/// Shifts the top `int` left by the `int` below it.
pub fn jvm_int_shl(frame: &mut StackFrame)
    requires
        old(frame).stack().len() >= 2,
        0 <= int_at(*old(frame), 1) < 32,
    ensures
        final(frame).stack() == with_int(
            popped(*old(frame), 2),
            int_at(*old(frame), 0) << int_at(*old(frame), 1),
        ),
        final(frame).locals() == old(frame).locals(),
{
    let first = frame.pop_int_op();
    let second = frame.pop_int_op();
    proof {
        lemma_pop2(*old(frame), *frame);
    }
    frame.push_int_op(first << second);
}

/// Shifts the top `int` right, keeping its sign, by the `int` below it.
pub fn jvm_int_shr(frame: &mut StackFrame)
    requires
        old(frame).stack().len() >= 2,
        0 <= int_at(*old(frame), 1) < 32,
    ensures
        final(frame).stack() == with_int(
            popped(*old(frame), 2),
            int_at(*old(frame), 0) >> int_at(*old(frame), 1),
        ),
        final(frame).locals() == old(frame).locals(),
{
    let first = frame.pop_int_op();
    let second = frame.pop_int_op();
    proof {
        lemma_pop2(*old(frame), *frame);
    }
    frame.push_int_op(first >> second);
}

/// Shifts the top `int` right, filling with zeros, by the `int` below it.
pub fn jvm_int_ushr(frame: &mut StackFrame)
    requires
        old(frame).stack().len() >= 2,
        0 <= int_at(*old(frame), 1) < 32,
    ensures
        final(frame).stack() == with_int(
            popped(*old(frame), 2),
            ((int_at(*old(frame), 0) as u32) >> int_at(*old(frame), 1)) as i32,
        ),
        final(frame).locals() == old(frame).locals(),
{
    let value = frame.pop_int_op();
    let amount = frame.pop_int_op();
    proof {
        lemma_pop2(*old(frame), *frame);
    }
    frame.push_int_op(((value as u32) >> amount) as i32);
}

/// Pushes local variable `index` as an `int`.
pub fn jvm_load_int(frame: &mut StackFrame, index: u8)
    requires
        (index as int) < old(frame).locals().len(),
    ensures
        final(frame).stack() == with_int(
            old(frame).stack(),
            old(frame).locals()[index as int] as i32,
        ),
        final(frame).locals() == old(frame).locals(),
{
    let value = frame.get_local_int(index as usize);
    frame.push_int_op(value);
}

/// Pops an `int` into local variable `index`.
pub fn jvm_store_int(frame: &mut StackFrame, index: u8)
    requires
        old(frame).stack().len() >= 1,
        (index as int) <= old(frame).locals().len(),
    ensures
        final(frame).stack() == popped(*old(frame), 1),
        final(frame).locals() == old(frame).locals().insert(
            index as int,
            (int_at(*old(frame), 0)) as u32,
        ),
{
    let value = frame.pop_int_op();
    proof {
        assert(frame.stack() =~= popped(*old(frame), 1));
    }
    frame.set_local_int(index as usize, value);
}

/// Adds one to the top `int`.
pub fn jvm_int_inc(frame: &mut StackFrame)
    requires
        old(frame).stack().len() >= 1,
        int_at(*old(frame), 0) != i32::MAX,
    ensures
        final(frame).stack() == with_int(popped(*old(frame), 1), (int_at(*old(frame), 0) + 1) as i32),
        final(frame).locals() == old(frame).locals(),
{
    let value = frame.pop_int_op();
    proof {
        assert(frame.stack() =~= popped(*old(frame), 1));
    }
    frame.push_int_op(value + 1);
}

pub fn jvm_int_to_byte(frame: &mut StackFrame)
    requires
        old(frame).stack().len() >= 1,
    ensures
        final(frame).stack() == popped(*old(frame), 1).push((int_at(*old(frame), 0) as i8) as u32),
        final(frame).locals() == old(frame).locals(),
{
    let value = frame.pop_int_op();
    proof {
        assert(frame.stack() =~= popped(*old(frame), 1));
    }
    frame.push_byte_op(value as i8);
}

pub fn jvm_int_to_short(frame: &mut StackFrame)
    requires
        old(frame).stack().len() >= 1,
    ensures
        final(frame).stack() == popped(*old(frame), 1).push((int_at(*old(frame), 0) as i16) as u32),
        final(frame).locals() == old(frame).locals(),
{
    let value = frame.pop_int_op();
    proof {
        assert(frame.stack() =~= popped(*old(frame), 1));
    }
    frame.push_short_op(value as i16);
}

pub fn jvm_int_to_long(frame: &mut StackFrame)
    requires
        old(frame).stack().len() >= 1,
    ensures
        final(frame).stack() == with_long(popped(*old(frame), 1), int_at(*old(frame), 0) as i64),
        final(frame).locals() == old(frame).locals(),
{
    let value = frame.pop_int_op();
    proof {
        assert(frame.stack() =~= popped(*old(frame), 1));
    }
    frame.push_long_op(value as i64);
}

/// Pops an `int` and pushes it as a character; it must be a Unicode scalar.
pub fn jvm_int_to_char(frame: &mut StackFrame)
    requires
        old(frame).stack().len() >= 1,
        is_scalar(old(frame).stack().last()),
    ensures
        final(frame).stack() == old(frame).stack(),
        final(frame).locals() == old(frame).locals(),
{
    let value = frame.pop_int_op();
    match char_from_u32(value as u32) {
        Some(c) => {
            frame.push_char_op(c);
            proof {
                assert(frame.stack() =~= old(frame).stack());
            }
        },
        None => {
            proof {
                assert(false);
            }
        },
    }
}

// ---------------------------------------------------------------------------
// long
// ---------------------------------------------------------------------------

pub fn jvm_long_add(frame: &mut StackFrame)
    requires
        old(frame).stack().len() >= 4,
        i64::MIN <= long_at(*old(frame), 0) + long_at(*old(frame), 2) <= i64::MAX,
    ensures
        final(frame).stack() == with_long(
            popped(*old(frame), 4),
            (long_at(*old(frame), 0) + long_at(*old(frame), 2)) as i64,
        ),
        final(frame).locals() == old(frame).locals(),
{
    let first = frame.pop_long_op();
    let second = frame.pop_long_op();
    proof {
        lemma_pop4(*old(frame), *frame);
    }
    frame.push_long_op(first + second);
}

pub fn jvm_long_sub(frame: &mut StackFrame)
    requires
        old(frame).stack().len() >= 4,
        i64::MIN <= long_at(*old(frame), 0) - long_at(*old(frame), 2) <= i64::MAX,
    ensures
        final(frame).stack() == with_long(
            popped(*old(frame), 4),
            (long_at(*old(frame), 0) - long_at(*old(frame), 2)) as i64,
        ),
        final(frame).locals() == old(frame).locals(),
{
    let first = frame.pop_long_op();
    let second = frame.pop_long_op();
    proof {
        lemma_pop4(*old(frame), *frame);
    }
    frame.push_long_op(first - second);
}

pub fn jvm_long_mul(frame: &mut StackFrame)
    requires
        old(frame).stack().len() >= 4,
        i64::MIN <= long_at(*old(frame), 0) * long_at(*old(frame), 2) <= i64::MAX,
    ensures
        final(frame).stack() == with_long(
            popped(*old(frame), 4),
            (long_at(*old(frame), 0) * long_at(*old(frame), 2)) as i64,
        ),
        final(frame).locals() == old(frame).locals(),
{
    let first = frame.pop_long_op();
    let second = frame.pop_long_op();
    proof {
        lemma_pop4(*old(frame), *frame);
    }
    frame.push_long_op(first * second);
}

pub fn jvm_long_div(frame: &mut StackFrame)
    requires
        old(frame).stack().len() >= 4,
        long_at(*old(frame), 2) != 0,
        !(long_at(*old(frame), 0) == i64::MIN && long_at(*old(frame), 2) == -1),
    ensures
        final(frame).stack() == with_long(
            popped(*old(frame), 4),
            trunc_div(long_at(*old(frame), 0) as int, long_at(*old(frame), 2) as int) as i64,
        ),
        final(frame).locals() == old(frame).locals(),
{
    let first = frame.pop_long_op();
    let second = frame.pop_long_op();
    proof {
        lemma_pop4(*old(frame), *frame);
    }
    proof {
        lemma_trunc_div_bounds(first as int, second as int);
    }
    match first.checked_div(second) {
        Some(v) => frame.push_long_op(v),
        None => {
            proof {
                assert(false);
            }
        },
    }
}

pub fn jvm_long_rem(frame: &mut StackFrame)
    requires
        old(frame).stack().len() >= 4,
        long_at(*old(frame), 2) != 0,
        !(long_at(*old(frame), 0) == i64::MIN && long_at(*old(frame), 2) == -1),
    ensures
        final(frame).stack() == with_long(
            popped(*old(frame), 4),
            trunc_rem(long_at(*old(frame), 0) as int, long_at(*old(frame), 2) as int) as i64,
        ),
        final(frame).locals() == old(frame).locals(),
{
    let first = frame.pop_long_op();
    let second = frame.pop_long_op();
    proof {
        lemma_pop4(*old(frame), *frame);
    }
    proof {
        lemma_trunc_rem_bounds(first as int, second as int);
    }
    match first.checked_rem(second) {
        Some(v) => frame.push_long_op(v),
        None => {
            proof {
                assert(false);
            }
        },
    }
}

pub fn jvm_long_neg(frame: &mut StackFrame)
    requires
        old(frame).stack().len() >= 2,
        long_at(*old(frame), 0) != i64::MIN,
    ensures
        final(frame).stack() == with_long(popped(*old(frame), 2), (-long_at(*old(frame), 0)) as i64),
        final(frame).locals() == old(frame).locals(),
{
    let value = frame.pop_long_op();
    proof {
        lemma_pop2(*old(frame), *frame);
    }
    frame.push_long_op(-value);
}

pub fn jvm_long_and(frame: &mut StackFrame)
    requires
        old(frame).stack().len() >= 4,
    ensures
        final(frame).stack() == with_long(
            popped(*old(frame), 4),
            long_at(*old(frame), 0) & long_at(*old(frame), 2),
        ),
        final(frame).locals() == old(frame).locals(),
{
    let first = frame.pop_long_op();
    let second = frame.pop_long_op();
    proof {
        lemma_pop4(*old(frame), *frame);
    }
    frame.push_long_op(first & second);
}

pub fn jvm_long_or(frame: &mut StackFrame)
    requires
        old(frame).stack().len() >= 4,
    ensures
        final(frame).stack() == with_long(
            popped(*old(frame), 4),
            long_at(*old(frame), 0) | long_at(*old(frame), 2),
        ),
        final(frame).locals() == old(frame).locals(),
{
    let first = frame.pop_long_op();
    let second = frame.pop_long_op();
    proof {
        lemma_pop4(*old(frame), *frame);
    }
    frame.push_long_op(first | second);
}

pub fn jvm_long_xor(frame: &mut StackFrame)
    requires
        old(frame).stack().len() >= 4,
    ensures
        final(frame).stack() == with_long(
            popped(*old(frame), 4),
            long_at(*old(frame), 0) ^ long_at(*old(frame), 2),
        ),
        final(frame).locals() == old(frame).locals(),
{
    let first = frame.pop_long_op();
    let second = frame.pop_long_op();
    proof {
        lemma_pop4(*old(frame), *frame);
    }
    frame.push_long_op(first ^ second);
}

pub fn jvm_long_shl(frame: &mut StackFrame)
    requires
        old(frame).stack().len() >= 4,
        0 <= long_at(*old(frame), 2) < 64,
    ensures
        final(frame).stack() == with_long(
            popped(*old(frame), 4),
            long_at(*old(frame), 0) << long_at(*old(frame), 2),
        ),
        final(frame).locals() == old(frame).locals(),
{
    let first = frame.pop_long_op();
    let second = frame.pop_long_op();
    proof {
        lemma_pop4(*old(frame), *frame);
    }
    frame.push_long_op(first << second);
}

pub fn jvm_long_shr(frame: &mut StackFrame)
    requires
        old(frame).stack().len() >= 4,
        0 <= long_at(*old(frame), 2) < 64,
    ensures
        final(frame).stack() == with_long(
            popped(*old(frame), 4),
            long_at(*old(frame), 0) >> long_at(*old(frame), 2),
        ),
        final(frame).locals() == old(frame).locals(),
{
    let first = frame.pop_long_op();
    let second = frame.pop_long_op();
    proof {
        lemma_pop4(*old(frame), *frame);
    }
    frame.push_long_op(first >> second);
}

pub fn jvm_long_ushr(frame: &mut StackFrame)
    requires
        old(frame).stack().len() >= 4,
        0 <= long_at(*old(frame), 2) < 64,
    ensures
        final(frame).stack() == with_long(
            popped(*old(frame), 4),
            ((long_at(*old(frame), 0) as u64) >> long_at(*old(frame), 2)) as i64,
        ),
        final(frame).locals() == old(frame).locals(),
{
    let value = frame.pop_long_op();
    let amount = frame.pop_long_op();
    proof {
        lemma_pop4(*old(frame), *frame);
    }
    frame.push_long_op(((value as u64) >> amount) as i64);
}

/// Pushes local variables `index` and `index + 1` as a `long`.
pub fn jvm_load_long(frame: &mut StackFrame, index: u8)
    requires
        (index as int) + 1 < old(frame).locals().len(),
    ensures
        final(frame).stack() == with_long(
            old(frame).stack(),
            spec_parts_to_long(old(frame).locals()[index as int], old(frame).locals()[index + 1]),
        ),
        final(frame).locals() == old(frame).locals(),
{
    let value = frame.get_local_long(index as usize);
    frame.push_long_op(value);
}

/// Pops a `long` into local variable `index`.
pub fn jvm_store_long(frame: &mut StackFrame, index: u8)
    requires
        old(frame).stack().len() >= 2,
        (index as int) <= old(frame).locals().len(),
    ensures
        final(frame).stack() == popped(*old(frame), 2),
        final(frame).locals() == old(frame).locals().insert(
            index as int,
            long_high(long_at(*old(frame), 0)),
        ).insert(index as int, long_low(long_at(*old(frame), 0))),
{
    let value = frame.pop_long_op();
    proof {
        lemma_pop2(*old(frame), *frame);
    }
    frame.set_local_long(index as usize, value);
}

pub fn jvm_long_to_int(frame: &mut StackFrame)
    requires
        old(frame).stack().len() >= 2,
    ensures
        final(frame).stack() == with_int(popped(*old(frame), 2), long_at(*old(frame), 0) as i32),
        final(frame).locals() == old(frame).locals(),
{
    let value = frame.pop_long_op();
    proof {
        lemma_pop2(*old(frame), *frame);
    }
    frame.push_int_op(value as i32);
}

/// Compares the top `long` with the one below it: 1 if it is greater, -1
/// if it is smaller, 0 if they are equal.
pub fn jvm_cmp_long(frame: &mut StackFrame)
    requires
        old(frame).stack().len() >= 4,
    ensures
        final(frame).stack() == with_int(
            popped(*old(frame), 4),
            if long_at(*old(frame), 0) > long_at(*old(frame), 2) {
                1i32
            } else if long_at(*old(frame), 2) > long_at(*old(frame), 0) {
                -1i32
            } else {
                0i32
            },
        ),
        final(frame).locals() == old(frame).locals(),
{
    let first = frame.pop_long_op();
    let second = frame.pop_long_op();
    proof {
        lemma_pop4(*old(frame), *frame);
    }
    let result = if first > second {
        1
    } else if second > first {
        -1
    } else {
        0
    };
    frame.push_int_op(result);
}

} // verus!
