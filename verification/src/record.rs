//! Components of a record class (JVMS 4.7.30).

use bytes::Bytes;
use internship::IStr;
use vstd::prelude::*;
use crate::constant_pool::{ConstantPool, SpecPool, pool_utf8_at};
use crate::descriptors::{FieldDescriptor, SpecFieldDescriptor, spec_field_descriptor};
use crate::field::optional_istr_view;
use crate::reader::{at, read_u16, read_u32, skip_bytes, spec_skip, spec_u16, spec_u32};
use crate::signature::{spec_generic_signature, try_parse_generic_signature};
use crate::strings::{istr_as_str, istr_eq_str, istr_view};

verus! {

pub struct SpecRecordComponent {
    pub name: Seq<char>,
    pub descriptor: SpecFieldDescriptor,
    pub generic_signature: Option<Seq<char>>,
}

/// `n` attributes of a record component from `p`; only a single `Signature`
/// attribute is read, the others are skipped.
pub open spec fn spec_record_component_attributes(
    pool: SpecPool,
    s: Seq<u8>,
    p: int,
    n: nat,
    acc: Option<Seq<char>>,
) -> Option<(Option<Seq<char>>, int)>
    decreases n,
{
    if n == 0 {
        Some((acc, p))
    } else if !(s.len() - p >= 6) {
        None
    } else {
        match spec_u16(s, p) {
            Some((name_index, q1)) => match pool_utf8_at(pool, name_index as int) {
                Some(name) => match spec_u32(s, q1) {
                    Some((length, q2)) => if name == "Signature"@ {
                        if acc is Some {
                            None
                        } else {
                            match spec_generic_signature(pool, s, q2, length) {
                                Some((g, e)) => spec_record_component_attributes(
                                    pool,
                                    s,
                                    e,
                                    (n - 1) as nat,
                                    Some(g),
                                ),
                                None => None,
                            }
                        }
                    } else {
                        match spec_skip(s, q2, length as int) {
                            Some(e) => spec_record_component_attributes(
                                pool,
                                s,
                                e,
                                (n - 1) as nat,
                                acc,
                            ),
                            None => None,
                        }
                    },
                    None => None,
                },
                None => None,
            },
            None => None,
        }
    }
}

/// A record component: name, descriptor and attributes.
pub open spec fn spec_record_component(pool: SpecPool, s: Seq<u8>, p: int) -> Option<(SpecRecordComponent, int)> {
    match spec_u16(s, p) {
        Some((name_index, q1)) => match pool_utf8_at(pool, name_index as int) {
            Some(name) => match spec_u16(s, q1) {
                Some((descriptor_index, q2)) => match pool_utf8_at(pool, descriptor_index as int) {
                    Some(d) => match spec_field_descriptor(d) {
                        Some(descriptor) => match spec_u16(s, q2) {
                            Some((count, q3)) => match spec_record_component_attributes(
                                pool,
                                s,
                                q3,
                                count as nat,
                                None,
                            ) {
                                Some((generic_signature, e)) => Some(
                                    (SpecRecordComponent { name, descriptor, generic_signature }, e),
                                ),
                                None => None,
                            },
                            None => None,
                        },
                        None => None,
                    },
                    None => None,
                },
                None => None,
            },
            None => None,
        },
        None => None,
    }
}

pub open spec fn record_component_item(pool: SpecPool) -> spec_fn(Seq<u8>, int) -> Option<(SpecRecordComponent, int)> {
    |s: Seq<u8>, p: int| spec_record_component(pool, s, p)
}

/// A component of a record: name, descriptor and generic signature.
#[derive(Debug)]
pub struct RecordComponent {
    name: IStr,
    descriptor: FieldDescriptor,
    generic_signature: Option<IStr>,
}

impl View for RecordComponent {
    type V = SpecRecordComponent;

    closed spec fn view(&self) -> SpecRecordComponent {
        SpecRecordComponent {
            name: istr_view(self.name),
            descriptor: self.descriptor@,
            generic_signature: optional_istr_view(self.generic_signature),
        }
    }
}

/// Reads the attributes of a record component: a count, then the
/// attributes; returns the generic signature, if one was given.
fn try_parse_attributes(pool: &ConstantPool, buf: &mut Bytes, Ghost(s): Ghost<Seq<u8>>, Ghost(p): Ghost<int>) -> (r: Option<Option<IStr>>)
    requires
        at(*old(buf), s, p),
    ensures
        match r {
            Some(g) => spec_u16(s, p) matches Some((n, q)) && spec_record_component_attributes(
                pool@,
                s,
                q,
                n as nat,
                None,
            ) matches Some((w, e)) && w == optional_istr_view(g) && at(*final(buf), s, e),
            None => !(spec_u16(s, p) matches Some((n, q)) && spec_record_component_attributes(
                pool@,
                s,
                q,
                n as nat,
                None,
            ) is Some),
        },
{
    let mut generic_signature: Option<IStr> = None;
    let attributes_count = read_u16(buf, Ghost(s), Ghost(p))?;
    let mut count = attributes_count;
    let ghost mut q = p + 2;
    while count > 0
        invariant
            at(*buf, s, q),
            spec_u16(s, p) == Some((attributes_count, p + 2)),
            spec_record_component_attributes(pool@, s, p + 2, attributes_count as nat, None)
                == spec_record_component_attributes(
                pool@,
                s,
                q,
                count as nat,
                optional_istr_view(generic_signature),
            ),
        decreases count,
    {
        if crate::buffers::bytes_remaining(buf) < 6 {
            return None;
        }
        let name_index = read_u16(buf, Ghost(s), Ghost(q))?;
        let attribute_name = pool.utf8_at(name_index)?;
        let attribute_length = read_u32(buf, Ghost(s), Ghost(q + 2))?;
        if istr_eq_str(&attribute_name, "Signature") {
            if generic_signature.is_some() {
                return None;
            }
            let g = try_parse_generic_signature(pool, buf, attribute_length, Ghost(s), Ghost(q + 6))?;
            proof {
                q = match spec_generic_signature(pool@, s, q + 6, attribute_length) {
                    Some((_, e)) => e,
                    None => q,
                };
            }
            generic_signature = Some(g);
        } else {
            if !skip_bytes(buf, attribute_length as usize, Ghost(s), Ghost(q + 6)) {
                return None;
            }
            proof {
                q = q + 6 + attribute_length;
            }
        }
        count = count - 1;
    }
    Some(generic_signature)
}

impl RecordComponent {
    /// Reads a record component.
    /// The input must be well-formed (see `try_parse`).
    pub fn parse(pool: &ConstantPool, buf: &mut Bytes, Ghost(s): Ghost<Seq<u8>>, Ghost(p): Ghost<int>) -> (r: RecordComponent)
        requires
            at(*old(buf), s, p),
            spec_record_component(pool@, s, p) is Some,
        ensures
            spec_record_component(pool@, s, p) matches Some((w, e)) && w == r@ && at(*final(buf), s, e),
    {
        match RecordComponent::try_parse(pool, buf, Ghost(s), Ghost(p)) {
            Some(v) => v,
            None => vstd::pervasive::unreached(),
        }
    }

    /// Reads as `parse` does, answering `None` where the input is not
    /// well-formed.
    pub fn try_parse(pool: &ConstantPool, buf: &mut Bytes, Ghost(s): Ghost<Seq<u8>>, Ghost(p): Ghost<int>) -> (r: Option<RecordComponent>)
        requires
            at(*old(buf), s, p),
        ensures
            match r {
                Some(c) => spec_record_component(pool@, s, p) matches Some((w, e)) && w == c@
                    && at(*final(buf), s, e),
                None => spec_record_component(pool@, s, p) is None,
            },
    {
        let name_index = read_u16(buf, Ghost(s), Ghost(p))?;
        let name = pool.utf8_at(name_index)?;
        let descriptor_index = read_u16(buf, Ghost(s), Ghost(p + 2))?;
        let descriptor_string = pool.utf8_at(descriptor_index)?;
        let descriptor = FieldDescriptor::parse(istr_as_str(&descriptor_string))?;
        let generic_signature = try_parse_attributes(pool, buf, Ghost(s), Ghost(p + 4))?;
        Some(RecordComponent { name, descriptor, generic_signature })
    }

    pub fn name(&self) -> (r: &str)
        ensures
            r@ == self@.name,
    {
        istr_as_str(&self.name)
    }

    pub fn descriptor(&self) -> (r: &FieldDescriptor)
        ensures
            r@ == self@.descriptor,
    {
        &self.descriptor
    }

    pub fn generic_signature(&self) -> (r: Option<&str>)
        ensures
            match r {
                Some(v) => self@.generic_signature == Some(v@),
                None => self@.generic_signature is None,
            },
    {
        match &self.generic_signature {
            Some(v) => Some(istr_as_str(v)),
            None => None,
        }
    }
}

} // verus!
