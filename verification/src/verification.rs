//! The `StackMapTable` attribute of a code attribute (JVMS 4.7.4).
//!
//! A frame starts with its type byte: 0-63 `same`, 64-127
//! `same_locals_1_stack_item`, 247 its extended form, 248-250 `chop`, 251
//! `same_frame_extended`, 252-254 `append` (with `type - 251` locals) and
//! 255 `full_frame`.  Types 128-246 are reserved and fail to parse.  A
//! verification type is an item byte, followed by a `u16` for the object
//! (7) and uninitialized (8) items.

use bytes::Bytes;
use vstd::prelude::*;
use crate::constants::{JVM_ITEM_OBJECT, JVM_ITEM_UNINITIALIZED};
use crate::reader::{at, read_u16, read_u8, spec_counted, spec_repeat, spec_u16, spec_u8, views,
    lemma_views_push};

verus! {

/// A verification type: its item tag and, for object and uninitialized
/// items, the `u16` that follows.
#[derive(Debug, Copy, Clone)]
pub struct VerificationType {
    item: u8,
    offset: u16,
}

pub struct SpecVerificationType {
    pub item: u8,
    pub offset: u16,
}

impl View for VerificationType {
    type V = SpecVerificationType;

    closed spec fn view(&self) -> SpecVerificationType {
        SpecVerificationType { item: self.item, offset: self.offset }
    }
}

pub struct SpecStackMapFrame {
    pub frame_type: u8,
    pub offset_delta: u16,
    pub stack: Seq<SpecVerificationType>,
    pub locals: Seq<SpecVerificationType>,
}

pub open spec fn spec_verification_type(s: Seq<u8>, p: int) -> Option<(SpecVerificationType, int)> {
    match spec_u8(s, p) {
        Some((item, q)) => if item == JVM_ITEM_OBJECT || item == JVM_ITEM_UNINITIALIZED {
            match spec_u16(s, q) {
                Some((offset, e)) => Some((SpecVerificationType { item, offset }, e)),
                None => None,
            }
        } else {
            Some((SpecVerificationType { item, offset: 0 }, q))
        },
        None => None,
    }
}

pub open spec fn verification_type_item() -> spec_fn(Seq<u8>, int) -> Option<(SpecVerificationType, int)> {
    |s: Seq<u8>, p: int| spec_verification_type(s, p)
}

/// `n` verification types.
pub open spec fn spec_types(s: Seq<u8>, p: int, n: nat) -> Option<(Seq<SpecVerificationType>, int)> {
    spec_repeat(verification_type_item(), s, p, n, seq![])
}

pub open spec fn spec_stack_map_frame(s: Seq<u8>, p: int) -> Option<(SpecStackMapFrame, int)> {
    match spec_u8(s, p) {
        Some((t, q)) => if t <= 63 {
            Some((SpecStackMapFrame { frame_type: t, offset_delta: t as u16, stack: seq![], locals: seq![] }, q))
        } else if t <= 127 {
            match spec_verification_type(s, q) {
                Some((v, e)) => Some(
                    (SpecStackMapFrame {
                        frame_type: t,
                        offset_delta: (t - 64) as u16,
                        stack: seq![v],
                        locals: seq![],
                    }, e),
                ),
                None => None,
            }
        } else if t == 247 {
            match spec_u16(s, q) {
                Some((d, q2)) => match spec_verification_type(s, q2) {
                    Some((v, e)) => Some(
                        (SpecStackMapFrame { frame_type: t, offset_delta: d, stack: seq![v], locals: seq![] }, e),
                    ),
                    None => None,
                },
                None => None,
            }
        } else if 248 <= t <= 251 {
            match spec_u16(s, q) {
                Some((d, e)) => Some(
                    (SpecStackMapFrame { frame_type: t, offset_delta: d, stack: seq![], locals: seq![] }, e),
                ),
                None => None,
            }
        } else if 252 <= t <= 254 {
            match spec_u16(s, q) {
                Some((d, q2)) => match spec_types(s, q2, (t - 251) as nat) {
                    Some((l, e)) => Some(
                        (SpecStackMapFrame { frame_type: t, offset_delta: d, stack: seq![], locals: l }, e),
                    ),
                    None => None,
                },
                None => None,
            }
        } else if t == 255 {
            match spec_u16(s, q) {
                Some((d, q2)) => match spec_u16(s, q2) {
                    Some((nl, q3)) => match spec_types(s, q3, nl as nat) {
                        Some((l, q4)) => match spec_u16(s, q4) {
                            Some((ns, q5)) => match spec_types(s, q5, ns as nat) {
                                Some((st, e)) => Some(
                                    (SpecStackMapFrame { frame_type: t, offset_delta: d, stack: st, locals: l }, e),
                                ),
                                None => None,
                            },
                            None => None,
                        },
                        None => None,
                    },
                    None => None,
                },
                None => None,
            }
        } else {
            None
        },
        None => None,
    }
}

pub open spec fn stack_map_frame_item() -> spec_fn(Seq<u8>, int) -> Option<(SpecStackMapFrame, int)> {
    |s: Seq<u8>, p: int| spec_stack_map_frame(s, p)
}

/// A `u16` count of frames, then the frames.
pub open spec fn spec_stack_map_table(s: Seq<u8>, p: int) -> Option<(Seq<SpecStackMapFrame>, int)> {
    spec_counted(stack_map_frame_item(), s, p)
}

impl VerificationType {
    /// The input must be well-formed (see `try_parse`).
    pub fn parse(buf: &mut Bytes, Ghost(s): Ghost<Seq<u8>>, Ghost(p): Ghost<int>) -> (r: VerificationType)
        requires
            at(*old(buf), s, p),
            spec_verification_type(s, p) is Some,
        ensures
            spec_verification_type(s, p) matches Some((w, e)) && w == r@ && at(*final(buf), s, e),
    {
        match VerificationType::try_parse(buf, Ghost(s), Ghost(p)) {
            Some(v) => v,
            None => vstd::pervasive::unreached(),
        }
    }

    /// Reads as `parse` does, answering `None` where the input is not
    /// well-formed.
    pub fn try_parse(buf: &mut Bytes, Ghost(s): Ghost<Seq<u8>>, Ghost(p): Ghost<int>) -> (r: Option<VerificationType>)
        requires
            at(*old(buf), s, p),
        ensures
            match r {
                Some(v) => spec_verification_type(s, p) matches Some((w, e)) && w == v@ && at(
                    *final(buf),
                    s,
                    e,
                ),
                None => spec_verification_type(s, p) is None,
            },
    {
        let item = read_u8(buf, Ghost(s), Ghost(p))?;
        let offset = if item == JVM_ITEM_OBJECT || item == JVM_ITEM_UNINITIALIZED {
            read_u16(buf, Ghost(s), Ghost(p + 1))?
        } else {
            0
        };
        Some(VerificationType { item, offset })
    }

    pub fn item(&self) -> (r: u8)
        ensures
            r == self@.item,
    {
        self.item
    }

    pub fn offset(&self) -> (r: u16)
        ensures
            r == self@.offset,
    {
        self.offset
    }
}

/// A frame of the stack map table.
#[derive(Debug)]
pub struct StackMapFrame {
    frame_type: u8,
    offset_delta: u16,
    stack: Vec<VerificationType>,
    locals: Vec<VerificationType>,
}

impl View for StackMapFrame {
    type V = SpecStackMapFrame;

    closed spec fn view(&self) -> SpecStackMapFrame {
        SpecStackMapFrame {
            frame_type: self.frame_type,
            offset_delta: self.offset_delta,
            stack: views(self.stack@),
            locals: views(self.locals@),
        }
    }
}

impl StackMapFrame {
    /// Appends `count` verification types to `result`.
    fn parse_types(
        count: usize,
        result: &mut Vec<VerificationType>,
        buf: &mut Bytes,
        Ghost(s): Ghost<Seq<u8>>,
        Ghost(p): Ghost<int>,
    ) -> (r: Option<Ghost<int>>)
        requires
            at(*old(buf), s, p),
            old(result)@.len() == 0,
        ensures
            match r {
                Some(e) => spec_types(s, p, count as nat) == Some((views(final(result)@), e@)) && at(
                    *final(buf),
                    s,
                    e@,
                ),
                None => spec_types(s, p, count as nat) is None,
            },
    {
        let mut i: usize = 0;
        let ghost mut q = p;
        proof {
            crate::reader::lemma_views_empty(result@);
        }
        while i < count
            invariant
                i <= count,
                at(*buf, s, q),
                spec_types(s, p, count as nat) == spec_repeat(
                    verification_type_item(),
                    s,
                    q,
                    (count - i) as nat,
                    views(result@),
                ),
            decreases count - i,
        {
            let v = VerificationType::try_parse(buf, Ghost(s), Ghost(q))?;
            proof {
                lemma_views_push(result@, v);
                q = match spec_verification_type(s, q) {
                    Some((_, e)) => e,
                    None => q,
                };
            }
            result.push(v);
            i = i + 1;
        }
        Some(Ghost(q))
    }

    /// Reads one frame.
    /// The input must be well-formed (see `try_parse`).
    pub fn parse(buf: &mut Bytes, Ghost(s): Ghost<Seq<u8>>, Ghost(p): Ghost<int>) -> (r: StackMapFrame)
        requires
            at(*old(buf), s, p),
            spec_stack_map_frame(s, p) is Some,
        ensures
            spec_stack_map_frame(s, p) matches Some((w, e)) && w == r@ && at(*final(buf), s, e),
    {
        match StackMapFrame::try_parse(buf, Ghost(s), Ghost(p)) {
            Some(v) => v,
            None => vstd::pervasive::unreached(),
        }
    }

    /// Reads as `parse` does, answering `None` where the input is not
    /// well-formed.
    pub fn try_parse(buf: &mut Bytes, Ghost(s): Ghost<Seq<u8>>, Ghost(p): Ghost<int>) -> (r: Option<StackMapFrame>)
        requires
            at(*old(buf), s, p),
        ensures
            match r {
                Some(f) => spec_stack_map_frame(s, p) matches Some((w, e)) && w == f@ && at(
                    *final(buf),
                    s,
                    e,
                ),
                None => spec_stack_map_frame(s, p) is None,
            },
    {
        let frame_type = read_u8(buf, Ghost(s), Ghost(p))?;
        let mut stack: Vec<VerificationType> = Vec::new();
        let mut locals: Vec<VerificationType> = Vec::new();
        let offset_delta: u16;
        proof {
            crate::reader::lemma_views_empty(stack@);
        }
        if frame_type <= 63 {
            offset_delta = frame_type as u16;
        } else if frame_type <= 127 {
            offset_delta = (frame_type - 64) as u16;
            let v = VerificationType::try_parse(buf, Ghost(s), Ghost(p + 1))?;
            stack.push(v);
            proof {
                assert(views(stack@) =~= seq![v@]);
            }
        } else if frame_type == 247 {
            offset_delta = read_u16(buf, Ghost(s), Ghost(p + 1))?;
            let v = VerificationType::try_parse(buf, Ghost(s), Ghost(p + 3))?;
            stack.push(v);
            proof {
                assert(views(stack@) =~= seq![v@]);
            }
        } else if frame_type >= 248 && frame_type <= 251 {
            offset_delta = read_u16(buf, Ghost(s), Ghost(p + 1))?;
        } else if frame_type >= 252 && frame_type <= 254 {
            offset_delta = read_u16(buf, Ghost(s), Ghost(p + 1))?;
            let _e = StackMapFrame::parse_types((frame_type - 251) as usize, &mut locals, buf, Ghost(s), Ghost(p + 3))?;
        } else if frame_type == 255 {
            offset_delta = read_u16(buf, Ghost(s), Ghost(p + 1))?;
            let nl = read_u16(buf, Ghost(s), Ghost(p + 3))?;
            let q4 = StackMapFrame::parse_types(nl as usize, &mut locals, buf, Ghost(s), Ghost(p + 5))?;
            let ns = read_u16(buf, Ghost(s), Ghost(q4@))?;
            let _e = StackMapFrame::parse_types(ns as usize, &mut stack, buf, Ghost(s), Ghost(q4@ + 2))?;
        } else {
            return None;
        }
        proof {
            if frame_type <= 63 || (248 <= frame_type <= 251) {
                crate::reader::lemma_views_empty(locals@);
            }
            if frame_type <= 254 && !(252 <= frame_type) {
                crate::reader::lemma_views_empty(locals@);
            }
        }
        Some(StackMapFrame { frame_type, offset_delta, stack, locals })
    }

    pub fn frame_type(&self) -> (r: u8)
        ensures
            r == self@.frame_type,
    {
        self.frame_type
    }

    pub fn offset_delta(&self) -> (r: u16)
        ensures
            r == self@.offset_delta,
    {
        self.offset_delta
    }

    /// Stack entry `index`, if there is one.
    pub fn get_stack(&self, index: usize) -> (r: Option<&VerificationType>)
        ensures
            match r {
                Some(v) => index < self@.stack.len() && self@.stack[index as int] == v@,
                None => index >= self@.stack.len(),
            },
    {
        if index < self.stack.len() {
            Some(&self.stack[index])
        } else {
            None
        }
    }

    /// Local variable entry `index`, if there is one.
    pub fn get_locals(&self, index: usize) -> (r: Option<&VerificationType>)
        ensures
            match r {
                Some(v) => index < self@.locals.len() && self@.locals[index as int] == v@,
                None => index >= self@.locals.len(),
            },
    {
        if index < self.locals.len() {
            Some(&self.locals[index])
        } else {
            None
        }
    }
}

/// The frames of a stack map table.
#[derive(Debug)]
pub struct StackMapTable {
    frames: Vec<StackMapFrame>,
}

impl View for StackMapTable {
    type V = Seq<SpecStackMapFrame>;

    closed spec fn view(&self) -> Seq<SpecStackMapFrame> {
        views(self.frames@)
    }
}

impl StackMapTable {
    /// Reads a frame count and that many frames.
    /// The input must be well-formed (see `try_parse`).
    pub fn parse(buf: &mut Bytes, Ghost(s): Ghost<Seq<u8>>, Ghost(p): Ghost<int>) -> (r: StackMapTable)
        requires
            at(*old(buf), s, p),
            spec_stack_map_table(s, p) is Some,
        ensures
            spec_stack_map_table(s, p) matches Some((w, e)) && w == r@ && at(*final(buf), s, e),
    {
        match StackMapTable::try_parse(buf, Ghost(s), Ghost(p)) {
            Some(v) => v,
            None => vstd::pervasive::unreached(),
        }
    }

    /// Reads as `parse` does, answering `None` where the input is not
    /// well-formed.
    pub fn try_parse(buf: &mut Bytes, Ghost(s): Ghost<Seq<u8>>, Ghost(p): Ghost<int>) -> (r: Option<StackMapTable>)
        requires
            at(*old(buf), s, p),
        ensures
            match r {
                Some(t) => spec_stack_map_table(s, p) matches Some((w, e)) && w == t@ && at(
                    *final(buf),
                    s,
                    e,
                ),
                None => spec_stack_map_table(s, p) is None,
            },
    {
        let count = read_u16(buf, Ghost(s), Ghost(p))?;
        let mut frames: Vec<StackMapFrame> = Vec::new();
        let mut i: u16 = 0;
        let ghost mut q = p + 2;
        proof {
            crate::reader::lemma_views_empty(frames@);
        }
        while i < count
            invariant
                i <= count,
                at(*buf, s, q),
                spec_stack_map_table(s, p) == spec_repeat(
                    stack_map_frame_item(),
                    s,
                    q,
                    (count - i) as nat,
                    views(frames@),
                ),
            decreases count - i,
        {
            let f = StackMapFrame::try_parse(buf, Ghost(s), Ghost(q))?;
            proof {
                lemma_views_push(frames@, f);
                q = match spec_stack_map_frame(s, q) {
                    Some((_, e)) => e,
                    None => q,
                };
            }
            frames.push(f);
            i = i + 1;
        }
        Some(StackMapTable { frames })
    }

    /// Frame `index`, if there is one.
    pub fn get(&self, index: usize) -> (r: Option<&StackMapFrame>)
        ensures
            match r {
                Some(f) => index < self@.len() && self@[index as int] == f@,
                None => index >= self@.len(),
            },
    {
        if index < self.frames.len() {
            Some(&self.frames[index])
        } else {
            None
        }
    }
}

} // verus!
