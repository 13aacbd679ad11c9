//! Checked reads from a buffer that holds the rest of a class file.
//!
//! Every reader takes the whole input `s` and the position `p` that the
//! buffer has reached as ghost values: the buffer holds `s.skip(p)`.  A
//! reader fails, and leaves the buffer untouched, exactly when too few bytes
//! are left; the `spec_*` functions state what it reads and where it ends.

use bytes::Bytes;
use vstd::prelude::*;
use crate::buffers::{
    be_u16, be_u32, bytes_advance, bytes_content, bytes_copy_to_bytes, bytes_get_i32, bytes_get_i64,
    bytes_get_u16, bytes_get_u32, bytes_get_u64, bytes_get_u8, bytes_remaining, bytes_to_vec, seq_u64,
};

verus! {

broadcast use vstd::seq_lib::lemma_seq_skip_of_skip;

/// The buffer holds the input from position `p` on.
pub open spec fn at(b: Bytes, s: Seq<u8>, p: int) -> bool {
    0 <= p <= s.len() && bytes_content(b) == s.skip(p)
}

pub open spec fn spec_u8(s: Seq<u8>, p: int) -> Option<(u8, int)> {
    if 0 <= p && p + 1 <= s.len() {
        Some((s[p], p + 1))
    } else {
        None
    }
}

pub open spec fn spec_u16(s: Seq<u8>, p: int) -> Option<(u16, int)> {
    if 0 <= p && p + 2 <= s.len() {
        Some((be_u16(s[p], s[p + 1]), p + 2))
    } else {
        None
    }
}

pub open spec fn spec_u32(s: Seq<u8>, p: int) -> Option<(u32, int)> {
    if 0 <= p && p + 4 <= s.len() {
        Some((be_u32(s[p], s[p + 1], s[p + 2], s[p + 3]), p + 4))
    } else {
        None
    }
}

pub open spec fn spec_u64(s: Seq<u8>, p: int) -> Option<(u64, int)> {
    if 0 <= p && p + 8 <= s.len() {
        Some((seq_u64(s.subrange(p, p + 8)), p + 8))
    } else {
        None
    }
}

/// Skips `n` bytes.
pub open spec fn spec_skip(s: Seq<u8>, p: int, n: int) -> Option<int> {
    if 0 <= p && 0 <= n && p + n <= s.len() {
        Some(p + n)
    } else {
        None
    }
}

pub fn read_u8(buf: &mut Bytes, Ghost(s): Ghost<Seq<u8>>, Ghost(p): Ghost<int>) -> (r: Option<u8>)
    requires
        at(*old(buf), s, p),
    ensures
        match r {
            Some(v) => spec_u8(s, p) == Some((v, p + 1)) && at(*final(buf), s, p + 1),
            None => spec_u8(s, p) is None && *final(buf) == *old(buf),
        },
{
    if bytes_remaining(buf) < 1 {
        return None;
    }
    let v = bytes_get_u8(buf);
    Some(v)
}

pub fn read_u16(buf: &mut Bytes, Ghost(s): Ghost<Seq<u8>>, Ghost(p): Ghost<int>) -> (r: Option<u16>)
    requires
        at(*old(buf), s, p),
    ensures
        match r {
            Some(v) => spec_u16(s, p) == Some((v, p + 2)) && at(*final(buf), s, p + 2),
            None => spec_u16(s, p) is None && *final(buf) == *old(buf),
        },
{
    if bytes_remaining(buf) < 2 {
        return None;
    }
    let v = bytes_get_u16(buf);
    Some(v)
}

pub fn read_u32(buf: &mut Bytes, Ghost(s): Ghost<Seq<u8>>, Ghost(p): Ghost<int>) -> (r: Option<u32>)
    requires
        at(*old(buf), s, p),
    ensures
        match r {
            Some(v) => spec_u32(s, p) == Some((v, p + 4)) && at(*final(buf), s, p + 4),
            None => spec_u32(s, p) is None && *final(buf) == *old(buf),
        },
{
    if bytes_remaining(buf) < 4 {
        return None;
    }
    let v = bytes_get_u32(buf);
    Some(v)
}

/// Reads a big-endian two's complement `int`.
pub fn read_i32(buf: &mut Bytes, Ghost(s): Ghost<Seq<u8>>, Ghost(p): Ghost<int>) -> (r: Option<i32>)
    requires
        at(*old(buf), s, p),
    ensures
        match r {
            Some(v) => spec_u32(s, p) matches Some((w, e)) && v == w as i32 && e == p + 4 && at(
                *final(buf),
                s,
                p + 4,
            ),
            None => spec_u32(s, p) is None && *final(buf) == *old(buf),
        },
{
    if bytes_remaining(buf) < 4 {
        return None;
    }
    let v = bytes_get_i32(buf);
    Some(v)
}

pub fn read_u64(buf: &mut Bytes, Ghost(s): Ghost<Seq<u8>>, Ghost(p): Ghost<int>) -> (r: Option<u64>)
    requires
        at(*old(buf), s, p),
    ensures
        match r {
            Some(v) => spec_u64(s, p) == Some((v, p + 8)) && at(*final(buf), s, p + 8),
            None => spec_u64(s, p) is None && *final(buf) == *old(buf),
        },
{
    if bytes_remaining(buf) < 8 {
        return None;
    }
    let ghost before = bytes_content(*buf);
    let v = bytes_get_u64(buf);
    proof {
        assert(before.subrange(0, 8) =~= s.subrange(p, p + 8));
        assert(before.subrange(0, 8).skip(4) =~= before.skip(4).subrange(0, 4));
        assert(s.subrange(p, p + 8).skip(4) =~= before.skip(4).subrange(0, 4));
    }
    Some(v)
}

/// Reads a big-endian two's complement `long`.
pub fn read_i64(buf: &mut Bytes, Ghost(s): Ghost<Seq<u8>>, Ghost(p): Ghost<int>) -> (r: Option<i64>)
    requires
        at(*old(buf), s, p),
    ensures
        match r {
            Some(v) => spec_u64(s, p) matches Some((w, e)) && v == w as i64 && e == p + 8 && at(
                *final(buf),
                s,
                p + 8,
            ),
            None => spec_u64(s, p) is None && *final(buf) == *old(buf),
        },
{
    if bytes_remaining(buf) < 8 {
        return None;
    }
    let ghost before = bytes_content(*buf);
    let v = bytes_get_i64(buf);
    proof {
        assert(before.subrange(0, 8) =~= s.subrange(p, p + 8));
        assert(s.subrange(p, p + 8).skip(4) =~= before.skip(4).subrange(0, 4));
    }
    Some(v)
}

/// Skips `n` bytes.
pub fn skip_bytes(buf: &mut Bytes, n: usize, Ghost(s): Ghost<Seq<u8>>, Ghost(p): Ghost<int>) -> (r: bool)
    requires
        at(*old(buf), s, p),
    ensures
        r == spec_skip(s, p, n as int) is Some,
        r ==> at(*final(buf), s, p + n),
        !r ==> *final(buf) == *old(buf),
{
    if bytes_remaining(buf) < n {
        return false;
    }
    bytes_advance(buf, n);
    true
}

/// Reads `n` bytes into a vector.
pub fn read_bytes(buf: &mut Bytes, n: usize, Ghost(s): Ghost<Seq<u8>>, Ghost(p): Ghost<int>) -> (r: Option<Vec<u8>>)
    requires
        at(*old(buf), s, p),
    ensures
        match r {
            Some(v) => spec_skip(s, p, n as int) is Some && v@ == s.subrange(p, p + n) && at(
                *final(buf),
                s,
                p + n,
            ),
            None => spec_skip(s, p, n as int) is None && *final(buf) == *old(buf),
        },
{
    if bytes_remaining(buf) < n {
        return None;
    }
    let taken = bytes_copy_to_bytes(buf, n);
    let v = bytes_to_vec(&taken);
    proof {
        assert(v@ =~= s.subrange(p, p + n));
    }
    Some(v)
}

/// `n` items read one after the other from `p`, appended to `acc`.
pub open spec fn spec_repeat<V>(
    item: spec_fn(Seq<u8>, int) -> Option<(V, int)>,
    s: Seq<u8>,
    p: int,
    n: nat,
    acc: Seq<V>,
) -> Option<(Seq<V>, int)>
    decreases n,
{
    if n == 0 {
        Some((acc, p))
    } else {
        match item(s, p) {
            Some((v, e)) => spec_repeat(item, s, e, (n - 1) as nat, acc.push(v)),
            None => None,
        }
    }
}

/// A `u16` count, then that many items.
pub open spec fn spec_counted<V>(
    item: spec_fn(Seq<u8>, int) -> Option<(V, int)>,
    s: Seq<u8>,
    p: int,
) -> Option<(Seq<V>, int)> {
    match spec_u16(s, p) {
        Some((n, q)) => spec_repeat(item, s, q, n as nat, seq![]),
        None => None,
    }
}

/// The views of a sequence of values.
pub open spec fn views<T: View>(v: Seq<T>) -> Seq<T::V> {
    v.map_values(|x: T| x@)
}

pub proof fn lemma_views_push<T: View>(v: Seq<T>, x: T)
    ensures
        views(v.push(x)) == views(v).push(x@),
{
    assert(views(v.push(x)) =~= views(v).push(x@));
}

pub proof fn lemma_views_empty<T: View>(v: Seq<T>)
    requires
        v.len() == 0,
    ensures
        views(v) == Seq::<T::V>::empty(),
{
    assert(views(v) =~= Seq::<T::V>::empty());
}

/// The big-endian `u16` values that `spec_counted` reads.
pub open spec fn u16_item() -> spec_fn(Seq<u8>, int) -> Option<(u16, int)> {
    |s: Seq<u8>, p: int| spec_u16(s, p)
}

/// Reads a `u16` count, then that many `u16` values.
pub fn read_u16_array(buf: &mut Bytes, Ghost(s): Ghost<Seq<u8>>, Ghost(p): Ghost<int>) -> (r: Option<Vec<u16>>)
    requires
        at(*old(buf), s, p),
    ensures
        match r {
            Some(v) => spec_counted(u16_item(), s, p) matches Some((w, e)) && w == v@ && at(
                *final(buf),
                s,
                e,
            ),
            None => spec_counted(u16_item(), s, p) is None,
        },
{
    let count = read_u16(buf, Ghost(s), Ghost(p))?;
    let mut array: Vec<u16> = Vec::new();
    let mut i: u16 = 0;
    let ghost mut q = p + 2;
    while i < count
        invariant
            i <= count,
            at(*buf, s, q),
            spec_counted(u16_item(), s, p) == spec_repeat(
                u16_item(),
                s,
                q,
                (count - i) as nat,
                array@,
            ),
        decreases count - i,
    {
        let v = read_u16(buf, Ghost(s), Ghost(q))?;
        array.push(v);
        proof {
            q = q + 2;
        }
        i = i + 1;
    }
    Some(array)
}

/// Reads `length` bytes, one at a time.
pub fn read_u8_array(buf: &mut Bytes, length: usize, Ghost(s): Ghost<Seq<u8>>, Ghost(p): Ghost<int>) -> (r: Option<Vec<u8>>)
    requires
        at(*old(buf), s, p),
    ensures
        match r {
            Some(v) => p + length <= s.len() && v@ == s.subrange(p, p + length) && at(
                *final(buf),
                s,
                p + length,
            ),
            None => p + length > s.len(),
        },
{
    if bytes_remaining(buf) < length {
        return None;
    }
    let mut result: Vec<u8> = Vec::with_capacity(length);
    let mut i: usize = 0;
    while i < length
        invariant
            0 <= i <= length,
            0 <= p,
            p + length <= s.len(),
            at(*buf, s, p + i),
            result@ == s.subrange(p, p + i),
        decreases length - i,
    {
        let b = bytes_get_u8(buf);
        result.push(b);
        i = i + 1;
        proof {
            assert(result@ =~= s.subrange(p, p + i));
        }
    }
    Some(result)
}

/// The two big-endian bytes of a `u16`.
pub fn u16_to_u8_array(value: u16) -> (r: [u8; 2])
    ensures
        r@ == seq![(value >> 8u16) as u8, value as u8],
        be_u16(r@[0], r@[1]) == value,
{
    let r = [(value >> 8) as u8, value as u8];
    assert(be_u16(((value >> 8u16) as u8), (value as u8)) == value) by (bit_vector);
    r
}

/// Arrays read from the front of a buffer.
pub trait BufferExtras {
    /// The bytes that the buffer still holds.
    spec fn remaining_bytes(&self) -> Seq<u8>;

    /// Reads `length` bytes; `None`, reading nothing, when fewer are left.
    fn get_u8_array(&mut self, length: usize) -> (r: Option<Vec<u8>>)
        ensures
            match r {
                Some(v) => length <= old(self).remaining_bytes().len() && v@
                    == old(self).remaining_bytes().take(length as int)
                    && final(self).remaining_bytes() == old(self).remaining_bytes().skip(
                    length as int,
                ),
                None => length > old(self).remaining_bytes().len(),
            },
    ;

    /// Reads a `u16` count, then that many `u16` values; `None` when the
    /// buffer ends first.
    fn get_u16_array(&mut self) -> (r: Option<Vec<u16>>)
        ensures
            match r {
                Some(v) => spec_counted(u16_item(), old(self).remaining_bytes(), 0) matches Some(
                    (w, e),
                ) && w == v@ && final(self).remaining_bytes() == old(self).remaining_bytes().skip(e),
                None => spec_counted(u16_item(), old(self).remaining_bytes(), 0) is None,
            },
    ;
}

impl BufferExtras for Bytes {
    open spec fn remaining_bytes(&self) -> Seq<u8> {
        bytes_content(*self)
    }

    fn get_u8_array(&mut self, length: usize) -> (r: Option<Vec<u8>>) {
        let ghost s = bytes_content(*self);
        assert(s.skip(0) =~= s);
        let r = read_u8_array(self, length, Ghost(s), Ghost(0));
        assert(s.subrange(0, length as int) =~= s.take(length as int));
        r
    }

    fn get_u16_array(&mut self) -> (r: Option<Vec<u16>>) {
        let ghost s = bytes_content(*self);
        assert(s.skip(0) =~= s);
        read_u16_array(self, Ghost(s), Ghost(0))
    }
}

} // verus!
