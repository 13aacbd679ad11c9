//! The `Signature` attribute shared by classes, fields, methods and record
//! components (JVMS 4.7.9).

use bytes::Bytes;
use internship::IStr;
use vstd::prelude::*;
use crate::constant_pool::{ConstantPool, SpecPool, UTF8_TAG, pool_tag, pool_utf8};
use crate::reader::{at, read_u16, spec_u16};
use crate::strings::istr_view;

verus! {

/// A generic signature attribute's body at `p`, whose declared length is
/// `length`: the length must be 2 (or fewer than two bytes be left, which
/// fails anyway), and the index must be below the number of pool entries
/// and name a UTF-8 entry.
pub open spec fn spec_generic_signature(pool: SpecPool, s: Seq<u8>, p: int, length: u32) -> Option<(Seq<char>, int)> {
    if !(length == 2 || s.len() - p < 2) {
        None
    } else {
        match spec_u16(s, p) {
            Some((index, e)) => if !(index < pool.tags.len()) || index == 0 {
                None
            } else {
                match pool_tag(pool, index as int) {
                    Some(tag) => if tag != UTF8_TAG {
                        None
                    } else {
                        match pool_utf8(pool, index as int) {
                            Some(v) => Some((v, e)),
                            None => None,
                        }
                    },
                    None => None,
                }
            },
            None => None,
        }
    }
}

/// Reads a generic signature attribute's body, which must be well-formed
/// (see `try_parse_generic_signature`).
pub fn parse_generic_signature(
    pool: &ConstantPool,
    buf: &mut Bytes,
    length: u32,
    Ghost(s): Ghost<Seq<u8>>,
    Ghost(p): Ghost<int>,
) -> (r: IStr)
    requires
        at(*old(buf), s, p),
        spec_generic_signature(pool@, s, p, length) is Some,
    ensures
        spec_generic_signature(pool@, s, p, length) matches Some((w, e)) && w == istr_view(r)
            && at(*final(buf), s, e),
{
    match try_parse_generic_signature(pool, buf, length, Ghost(s), Ghost(p)) {
        Some(v) => v,
        None => vstd::pervasive::unreached(),
    }
}

/// Reads a generic signature attribute's body as
/// `parse_generic_signature` does, answering `None` where it is malformed.
pub fn try_parse_generic_signature(
    pool: &ConstantPool,
    buf: &mut Bytes,
    length: u32,
    Ghost(s): Ghost<Seq<u8>>,
    Ghost(p): Ghost<int>,
) -> (r: Option<IStr>)
    requires
        at(*old(buf), s, p),
    ensures
        match r {
            Some(v) => spec_generic_signature(pool@, s, p, length) matches Some((w, e)) && w
                == istr_view(v) && at(*final(buf), s, e),
            None => spec_generic_signature(pool@, s, p, length) is None,
        },
{
    if !(length == 2 || crate::buffers::bytes_remaining(buf) < 2) {
        return None;
    }
    let index = read_u16(buf, Ghost(s), Ghost(p))?;
    if !pool.has(index as usize) || index == 0 {
        return None;
    }
    let tag = pool.get_tag(index as usize)?;
    if tag != UTF8_TAG {
        return None;
    }
    pool.get_utf8(index as usize)
}

} // verus!
