//! Reading big-endian values from a `bytes::Bytes` buffer.
//!
//! The buffer is an outside type: its contents are named by
//! [`bytes_content`], and every method that the parser calls is a wrapper
//! whose contract says how it reads and shrinks those contents.

use bytes::{Buf, Bytes};
use vstd::prelude::*;

verus! {

#[verifier::external_type_specification]
#[verifier::external_body]
pub struct ExBytes(bytes::Bytes);

/// The bytes that a `Bytes` buffer still holds, from its read position on.
pub uninterp spec fn bytes_content(b: Bytes) -> Seq<u8>;

/// Big-endian value of two bytes.
pub open spec fn be_u16(b0: u8, b1: u8) -> u16 {
    (b0 as int * 0x100 + b1 as int) as u16
}

/// Big-endian value of four bytes.
pub open spec fn be_u32(b0: u8, b1: u8, b2: u8, b3: u8) -> u32 {
    (b0 as int * 0x1000000 + b1 as int * 0x10000 + b2 as int * 0x100 + b3 as int) as u32
}

/// Big-endian value of the first two bytes of `s`.
pub open spec fn seq_u16(s: Seq<u8>) -> u16
    recommends
        s.len() >= 2,
{
    be_u16(s[0], s[1])
}

/// Big-endian value of the first four bytes of `s`.
pub open spec fn seq_u32(s: Seq<u8>) -> u32
    recommends
        s.len() >= 4,
{
    be_u32(s[0], s[1], s[2], s[3])
}

/// Big-endian value of the first eight bytes of `s`.
pub open spec fn seq_u64(s: Seq<u8>) -> u64
    recommends
        s.len() >= 8,
{
    (seq_u32(s) as int * 0x1_0000_0000 + seq_u32(s.skip(4)) as int) as u64
}

/// `Bytes::from(Vec<u8>)`: the buffer holds exactly the vector's bytes.
#[verifier::external_body]
pub fn bytes_from_vec(v: Vec<u8>) -> (r: Bytes)
    ensures
        bytes_content(r) == v@,
{
    Bytes::from(v)
}

/// `Bytes::copy_from_slice`: the buffer holds a copy of the slice.
#[verifier::external_body]
pub fn bytes_copy_from_slice(s: &[u8]) -> (r: Bytes)
    ensures
        bytes_content(r) == s@,
{
    Bytes::copy_from_slice(s)
}

/// `Buf::remaining` on `Bytes`: the number of bytes left.
#[verifier::external_body]
pub fn bytes_remaining(b: &Bytes) -> (r: usize)
    ensures
        r == bytes_content(*b).len(),
{
    b.remaining()
}

/// `Buf::get_u8` on `Bytes`: the first byte, which it consumes.
#[verifier::external_body]
pub fn bytes_get_u8(b: &mut Bytes) -> (r: u8)
    requires
        bytes_content(*old(b)).len() >= 1,
    ensures
        r == bytes_content(*old(b))[0],
        bytes_content(*final(b)) == bytes_content(*old(b)).skip(1),
{
    b.get_u8()
}

/// `Buf::get_u16` on `Bytes`: the first two bytes read big-endian, consumed.
#[verifier::external_body]
pub fn bytes_get_u16(b: &mut Bytes) -> (r: u16)
    requires
        bytes_content(*old(b)).len() >= 2,
    ensures
        r == seq_u16(bytes_content(*old(b))),
        bytes_content(*final(b)) == bytes_content(*old(b)).skip(2),
{
    b.get_u16()
}

/// `Buf::get_u32` on `Bytes`: the first four bytes read big-endian, consumed.
#[verifier::external_body]
pub fn bytes_get_u32(b: &mut Bytes) -> (r: u32)
    requires
        bytes_content(*old(b)).len() >= 4,
    ensures
        r == seq_u32(bytes_content(*old(b))),
        bytes_content(*final(b)) == bytes_content(*old(b)).skip(4),
{
    b.get_u32()
}

/// `Buf::get_i32` on `Bytes`: the first four bytes read as a big-endian
/// two's complement integer, consumed.
#[verifier::external_body]
pub fn bytes_get_i32(b: &mut Bytes) -> (r: i32)
    requires
        bytes_content(*old(b)).len() >= 4,
    ensures
        r == seq_u32(bytes_content(*old(b))) as i32,
        bytes_content(*final(b)) == bytes_content(*old(b)).skip(4),
{
    b.get_i32()
}

/// `Buf::get_u64` on `Bytes`: the first eight bytes read big-endian, consumed.
#[verifier::external_body]
pub fn bytes_get_u64(b: &mut Bytes) -> (r: u64)
    requires
        bytes_content(*old(b)).len() >= 8,
    ensures
        r == seq_u64(bytes_content(*old(b))),
        bytes_content(*final(b)) == bytes_content(*old(b)).skip(8),
{
    b.get_u64()
}

/// `Buf::get_i64` on `Bytes`: the first eight bytes read as a big-endian
/// two's complement integer, consumed.
#[verifier::external_body]
pub fn bytes_get_i64(b: &mut Bytes) -> (r: i64)
    requires
        bytes_content(*old(b)).len() >= 8,
    ensures
        r == seq_u64(bytes_content(*old(b))) as i64,
        bytes_content(*final(b)) == bytes_content(*old(b)).skip(8),
{
    b.get_i64()
}

/// `Buf::advance` on `Bytes`: drops the first `cnt` bytes.
#[verifier::external_body]
pub fn bytes_advance(b: &mut Bytes, cnt: usize)
    requires
        cnt <= bytes_content(*old(b)).len(),
    ensures
        bytes_content(*final(b)) == bytes_content(*old(b)).skip(cnt as int),
{
    b.advance(cnt)
}

/// `Buf::copy_to_bytes` on `Bytes`: splits off the first `len` bytes.
#[verifier::external_body]
pub fn bytes_copy_to_bytes(b: &mut Bytes, len: usize) -> (r: Bytes)
    requires
        len <= bytes_content(*old(b)).len(),
    ensures
        bytes_content(r) == bytes_content(*old(b)).take(len as int),
        bytes_content(*final(b)) == bytes_content(*old(b)).skip(len as int),
{
    b.copy_to_bytes(len)
}

/// `Bytes::to_vec` (through its slice): a vector of the bytes held.
#[verifier::external_body]
pub fn bytes_to_vec(b: &Bytes) -> (r: Vec<u8>)
    ensures
        r@ == bytes_content(*b),
{
    b.to_vec()
}

} // verus!
