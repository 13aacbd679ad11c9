//! The `Code` attribute of a method (JVMS 4.7.3): stack and local sizes,
//! the bytecode, the exception handler table, and the line number, local
//! variable, local variable type and stack map tables among its own
//! attributes.  Other attributes are skipped.
//!
//! A handler's catch type is kept as the name of the class that the
//! constant pool gives for it; the class itself is found through the class
//! loader when an exception is thrown.

use bytes::Bytes;
use internship::IStr;
use std::collections::HashMap;
use vstd::prelude::*;
use crate::buffers::bytes_copy_from_slice;
use crate::constant_pool::{ConstantPool, SpecPool, pool_class_name_at, pool_utf8_at};
use crate::descriptors::{FieldDescriptor, SpecFieldDescriptor, spec_field_descriptor};
use crate::reader::{at, read_u16, read_u32, read_u8_array, skip_bytes, spec_counted, spec_repeat,
    spec_skip, spec_u16, spec_u32, views, lemma_views_push, lemma_views_empty};
use crate::stack_frame::StackFrame;
use crate::strings::{istr_as_str, istr_eq_str, istr_new, istr_view};
use crate::verification::{SpecStackMapFrame, StackMapTable, spec_stack_map_table};

verus! {

broadcast use vstd::std_specs::hash::group_hash_axioms;

pub const MAX_CODE_BYTES: usize = 65535;

// ---------------------------------------------------------------------------
// The model
// ---------------------------------------------------------------------------

pub struct SpecExceptionHandler {
    pub start_pc: u16,
    pub end_pc: u16,
    pub handler_pc: u16,
    pub catch_type: Seq<char>,
}

pub struct SpecLocalVariable {
    pub name: Seq<char>,
    pub descriptor: SpecFieldDescriptor,
    pub start_pc: u16,
    pub length: u16,
    pub index: u16,
}

pub struct SpecCodeAttributes {
    pub line_numbers: Option<Map<u16, u16>>,
    pub local_variables: Option<Seq<SpecLocalVariable>>,
    pub local_variable_types: Option<Seq<SpecLocalVariable>>,
    pub stack_map_table: Option<Seq<SpecStackMapFrame>>,
}

pub struct SpecCodeBlock {
    pub max_stack: u16,
    pub max_locals: u16,
    pub code: Seq<u8>,
    pub exception_handlers: Seq<SpecExceptionHandler>,
    pub attributes: SpecCodeAttributes,
}

/// A handler: three program counters and a catch type, a class entry that
/// must name a class.
pub open spec fn spec_exception_handler(pool: SpecPool, s: Seq<u8>, p: int) -> Option<(SpecExceptionHandler, int)> {
    match spec_u16(s, p) {
        Some((start_pc, q1)) => match spec_u16(s, q1) {
            Some((end_pc, q2)) => match spec_u16(s, q2) {
                Some((handler_pc, q3)) => match spec_u16(s, q3) {
                    Some((catch_index, e)) => match pool_class_name_at(pool, catch_index as int) {
                        Some(catch_type) => Some(
                            (SpecExceptionHandler { start_pc, end_pc, handler_pc, catch_type }, e),
                        ),
                        None => None,
                    },
                    None => None,
                },
                None => None,
            },
            None => None,
        },
        None => None,
    }
}

pub open spec fn exception_handler_item(pool: SpecPool) -> spec_fn(Seq<u8>, int) -> Option<(SpecExceptionHandler, int)> {
    |s: Seq<u8>, p: int| spec_exception_handler(pool, s, p)
}

/// A local variable: its name and its descriptor must be UTF-8 entries,
/// and the descriptor must parse as a field descriptor.
pub open spec fn spec_local_variable(pool: SpecPool, s: Seq<u8>, p: int) -> Option<(SpecLocalVariable, int)> {
    match spec_u16(s, p) {
        Some((start_pc, q1)) => match spec_u16(s, q1) {
            Some((length, q2)) => match spec_u16(s, q2) {
                Some((name_index, q3)) => match pool_utf8_at(pool, name_index as int) {
                    Some(name) => match spec_u16(s, q3) {
                        Some((descriptor_index, q4)) => match pool_utf8_at(
                            pool,
                            descriptor_index as int,
                        ) {
                            Some(d) => match spec_field_descriptor(d) {
                                Some(descriptor) => match spec_u16(s, q4) {
                                    Some((index, e)) => Some(
                                        (SpecLocalVariable { name, descriptor, start_pc, length, index }, e),
                                    ),
                                    None => None,
                                },
                                None => None,
                            },
                            None => None,
                        },
                        None => None,
                    },
                    None => None,
                },
                None => None,
            },
            None => None,
        },
        None => None,
    }
}

pub open spec fn local_variable_item(pool: SpecPool) -> spec_fn(Seq<u8>, int) -> Option<(SpecLocalVariable, int)> {
    |s: Seq<u8>, p: int| spec_local_variable(pool, s, p)
}

/// `n` line number entries, each a start pc and a line number, entered
/// into `m` in order.
pub open spec fn spec_line_entries(s: Seq<u8>, p: int, n: nat, m: Map<u16, u16>) -> Option<(Map<u16, u16>, int)>
    decreases n,
{
    if n == 0 {
        Some((m, p))
    } else {
        match spec_u16(s, p) {
            Some((start_pc, q)) => match spec_u16(s, q) {
                Some((line, e)) => spec_line_entries(s, e, (n - 1) as nat, m.insert(start_pc, line)),
                None => None,
            },
            None => None,
        }
    }
}

pub open spec fn spec_line_number_table(s: Seq<u8>, p: int) -> Option<(Map<u16, u16>, int)> {
    match spec_u16(s, p) {
        Some((n, q)) => spec_line_entries(s, q, n as nat, Map::empty()),
        None => None,
    }
}

/// `n` attributes of a code attribute from `p`, folded into `acc`.  Each
/// needs more than six bytes left, a UTF-8 name and a `u32` length; a later
/// table replaces an earlier one of the same kind.
pub open spec fn spec_code_attributes(
    pool: SpecPool,
    s: Seq<u8>,
    p: int,
    n: nat,
    acc: SpecCodeAttributes,
) -> Option<(SpecCodeAttributes, int)>
    decreases n,
{
    if n == 0 {
        Some((acc, p))
    } else if !(s.len() - p > 6) {
        None
    } else {
        match spec_u16(s, p) {
            Some((name_index, q1)) => match spec_u32(s, q1) {
                Some((length, q2)) => match pool_utf8_at(pool, name_index as int) {
                    Some(name) => if name == "LineNumberTable"@ {
                        match spec_line_number_table(s, q2) {
                            Some((m, e)) => spec_code_attributes(
                                pool,
                                s,
                                e,
                                (n - 1) as nat,
                                SpecCodeAttributes { line_numbers: Some(m), ..acc },
                            ),
                            None => None,
                        }
                    } else if name == "LocalVariableTable"@ {
                        match spec_counted(local_variable_item(pool), s, q2) {
                            Some((v, e)) => spec_code_attributes(
                                pool,
                                s,
                                e,
                                (n - 1) as nat,
                                SpecCodeAttributes { local_variables: Some(v), ..acc },
                            ),
                            None => None,
                        }
                    } else if name == "LocalVariableTypeTable"@ {
                        match spec_counted(local_variable_item(pool), s, q2) {
                            Some((v, e)) => spec_code_attributes(
                                pool,
                                s,
                                e,
                                (n - 1) as nat,
                                SpecCodeAttributes { local_variable_types: Some(v), ..acc },
                            ),
                            None => None,
                        }
                    } else if name == "StackMapTable"@ {
                        match spec_stack_map_table(s, q2) {
                            Some((t, e)) => spec_code_attributes(
                                pool,
                                s,
                                e,
                                (n - 1) as nat,
                                SpecCodeAttributes { stack_map_table: Some(t), ..acc },
                            ),
                            None => None,
                        }
                    } else {
                        match spec_skip(s, q2, length as int) {
                            Some(e) => spec_code_attributes(pool, s, e, (n - 1) as nat, acc),
                            None => None,
                        }
                    },
                    None => None,
                },
                None => None,
            },
            None => None,
        }
    }
}

pub open spec fn no_code_attributes() -> SpecCodeAttributes {
    SpecCodeAttributes {
        line_numbers: None,
        local_variables: None,
        local_variable_types: None,
        stack_map_table: None,
    }
}

/// A code attribute's body: its code length must be 1 to 65535.
pub open spec fn spec_code_block(pool: SpecPool, s: Seq<u8>, p: int) -> Option<(SpecCodeBlock, int)> {
    match spec_u16(s, p) {
        Some((max_stack, q1)) => match spec_u16(s, q1) {
            Some((max_locals, q2)) => match spec_u32(s, q2) {
                Some((code_length, q3)) => if 0 < code_length <= MAX_CODE_BYTES && q3
                    + code_length <= s.len() {
                    let code = s.subrange(q3, q3 + code_length);
                    match spec_counted(exception_handler_item(pool), s, q3 + code_length) {
                        Some((handlers, q4)) => match spec_u16(s, q4) {
                            Some((count, q5)) => match spec_code_attributes(
                                pool,
                                s,
                                q5,
                                count as nat,
                                no_code_attributes(),
                            ) {
                                Some((attributes, e)) => Some(
                                    (SpecCodeBlock {
                                        max_stack,
                                        max_locals,
                                        code,
                                        exception_handlers: handlers,
                                        attributes,
                                    }, e),
                                ),
                                None => None,
                            },
                            None => None,
                        },
                        None => None,
                    }
                } else {
                    None
                },
                None => None,
            },
            None => None,
        },
        None => None,
    }
}

// ---------------------------------------------------------------------------
// Exception handlers
// ---------------------------------------------------------------------------

/// An exception handler: the code range it covers, where it starts and the
/// name of the class it catches.
#[derive(Debug)]
pub struct ExceptionHandlerBlock {
    start_pc: u16,
    end_pc: u16,
    handler_pc: u16,
    catch_type: IStr,
}

impl View for ExceptionHandlerBlock {
    type V = SpecExceptionHandler;

    closed spec fn view(&self) -> SpecExceptionHandler {
        SpecExceptionHandler {
            start_pc: self.start_pc,
            end_pc: self.end_pc,
            handler_pc: self.handler_pc,
            catch_type: istr_view(self.catch_type),
        }
    }
}

impl ExceptionHandlerBlock {
    /// The input must be well-formed (see `try_parse`).
    pub fn parse(pool: &ConstantPool, buf: &mut Bytes, Ghost(s): Ghost<Seq<u8>>, Ghost(p): Ghost<int>) -> (r: ExceptionHandlerBlock)
        requires
            at(*old(buf), s, p),
            spec_exception_handler(pool@, s, p) is Some,
        ensures
            spec_exception_handler(pool@, s, p) matches Some((w, e)) && w == r@ && at(*final(buf), s, e),
    {
        match ExceptionHandlerBlock::try_parse(pool, buf, Ghost(s), Ghost(p)) {
            Some(v) => v,
            None => vstd::pervasive::unreached(),
        }
    }

    /// Reads as `parse` does, answering `None` where the input is not
    /// well-formed.
    pub fn try_parse(pool: &ConstantPool, buf: &mut Bytes, Ghost(s): Ghost<Seq<u8>>, Ghost(p): Ghost<int>) -> (r: Option<ExceptionHandlerBlock>)
        requires
            at(*old(buf), s, p),
        ensures
            match r {
                Some(h) => spec_exception_handler(pool@, s, p) matches Some((w, e)) && w == h@
                    && at(*final(buf), s, e),
                None => spec_exception_handler(pool@, s, p) is None,
            },
    {
        let start_pc = read_u16(buf, Ghost(s), Ghost(p))?;
        let end_pc = read_u16(buf, Ghost(s), Ghost(p + 2))?;
        let handler_pc = read_u16(buf, Ghost(s), Ghost(p + 4))?;
        let catch_type_index = read_u16(buf, Ghost(s), Ghost(p + 6))?;
        let catch_type = pool.class_name_at(catch_type_index)?;
        Some(ExceptionHandlerBlock { start_pc, end_pc, handler_pc, catch_type })
    }

    pub fn new(start_pc: u16, end_pc: u16, handler_pc: u16, catch_type: IStr) -> (r: ExceptionHandlerBlock)
        ensures
            r@ == (SpecExceptionHandler { start_pc, end_pc, handler_pc, catch_type: istr_view(catch_type) }),
    {
        ExceptionHandlerBlock { start_pc, end_pc, handler_pc, catch_type }
    }

    pub fn start_pc(&self) -> (r: u16)
        ensures
            r == self@.start_pc,
    {
        self.start_pc
    }

    pub fn end_pc(&self) -> (r: u16)
        ensures
            r == self@.end_pc,
    {
        self.end_pc
    }

    pub fn handler_pc(&self) -> (r: u16)
        ensures
            r == self@.handler_pc,
    {
        self.handler_pc
    }

    /// The name of the class that this handler catches.
    pub fn catch_type(&self) -> (r: &IStr)
        ensures
            istr_view(*r) == self@.catch_type,
    {
        &self.catch_type
    }
}

/// The exception handlers of a method, in table order.
#[derive(Debug)]
pub struct ExceptionHandlerTable {
    handlers: Vec<ExceptionHandlerBlock>,
}

impl View for ExceptionHandlerTable {
    type V = Seq<SpecExceptionHandler>;

    closed spec fn view(&self) -> Seq<SpecExceptionHandler> {
        views(self.handlers@)
    }
}

/// The first handler in `handlers` from `i` on that catches `class_name`.
pub open spec fn first_handler_from(handlers: Seq<SpecExceptionHandler>, class_name: Seq<char>, i: int) -> Option<int>
    decreases handlers.len() - i,
{
    if i < 0 || i >= handlers.len() {
        None
    } else if handlers[i].catch_type == class_name {
        Some(i)
    } else {
        first_handler_from(handlers, class_name, i + 1)
    }
}

impl ExceptionHandlerTable {
    /// The input must be well-formed (see `try_parse`).
    pub fn parse(pool: &ConstantPool, buf: &mut Bytes, Ghost(s): Ghost<Seq<u8>>, Ghost(p): Ghost<int>) -> (r: ExceptionHandlerTable)
        requires
            at(*old(buf), s, p),
            spec_counted(exception_handler_item(pool@), s, p) is Some,
        ensures
            spec_counted(exception_handler_item(pool@), s, p) matches Some((w, e)) && w == r@ && at(*final(buf), s, e),
    {
        match ExceptionHandlerTable::try_parse(pool, buf, Ghost(s), Ghost(p)) {
            Some(v) => v,
            None => vstd::pervasive::unreached(),
        }
    }

    /// Reads as `parse` does, answering `None` where the input is not
    /// well-formed.
    pub fn try_parse(pool: &ConstantPool, buf: &mut Bytes, Ghost(s): Ghost<Seq<u8>>, Ghost(p): Ghost<int>) -> (r: Option<ExceptionHandlerTable>)
        requires
            at(*old(buf), s, p),
        ensures
            match r {
                Some(t) => spec_counted(exception_handler_item(pool@), s, p) matches Some((w, e))
                    && w == t@ && at(*final(buf), s, e),
                None => spec_counted(exception_handler_item(pool@), s, p) is None,
            },
    {
        let count = read_u16(buf, Ghost(s), Ghost(p))?;
        let mut handlers: Vec<ExceptionHandlerBlock> = Vec::new();
        let mut i: u16 = 0;
        let ghost mut q = p + 2;
        proof {
            lemma_views_empty(handlers@);
        }
        while i < count
            invariant
                i <= count,
                at(*buf, s, q),
                spec_counted(exception_handler_item(pool@), s, p) == spec_repeat(
                    exception_handler_item(pool@),
                    s,
                    q,
                    (count - i) as nat,
                    views(handlers@),
                ),
            decreases count - i,
        {
            let h = ExceptionHandlerBlock::try_parse(pool, buf, Ghost(s), Ghost(q))?;
            proof {
                lemma_views_push(handlers@, h);
                q = match spec_exception_handler(pool@, s, q) {
                    Some((_, e)) => e,
                    None => q,
                };
            }
            handlers.push(h);
            i = i + 1;
        }
        Some(ExceptionHandlerTable { handlers })
    }

    pub fn new(handlers: Vec<ExceptionHandlerBlock>) -> (r: ExceptionHandlerTable)
        ensures
            r@ == views(handlers@),
    {
        ExceptionHandlerTable { handlers }
    }

    pub fn get(&self, index: usize) -> (r: Option<&ExceptionHandlerBlock>)
        ensures
            match r {
                Some(h) => index < self@.len() && self@[index as int] == h@,
                None => index >= self@.len(),
            },
    {
        if index < self.handlers.len() {
            Some(&self.handlers[index])
        } else {
            None
        }
    }

    /// The first handler that catches the class named `exception`.
    pub fn get_handler(&self, exception: &IStr) -> (r: Option<&ExceptionHandlerBlock>)
        ensures
            match r {
                Some(h) => first_handler_from(self@, istr_view(*exception), 0) matches Some(i)
                    && self@[i] == h@,
                None => first_handler_from(self@, istr_view(*exception), 0) is None,
            },
    {
        let mut i: usize = 0;
        while i < self.handlers.len()
            invariant
                i <= self.handlers.len(),
                first_handler_from(self@, istr_view(*exception), 0) == first_handler_from(
                    self@,
                    istr_view(*exception),
                    i as int,
                ),
            decreases self.handlers.len() - i,
        {
            let element = &self.handlers[i];
            if istr_eq_str(&element.catch_type, istr_as_str(exception)) {
                return Some(element);
            }
            i = i + 1;
        }
        None
    }
}

// ---------------------------------------------------------------------------
// Local variables
// ---------------------------------------------------------------------------

/// A local variable table entry.
#[derive(Debug)]
pub struct LocalVariable {
    name: IStr,
    descriptor: FieldDescriptor,
    start_pc: u16,
    length: u16,
    index: u16,
}

impl View for LocalVariable {
    type V = SpecLocalVariable;

    closed spec fn view(&self) -> SpecLocalVariable {
        SpecLocalVariable {
            name: istr_view(self.name),
            descriptor: self.descriptor@,
            start_pc: self.start_pc,
            length: self.length,
            index: self.index,
        }
    }
}

impl LocalVariable {
    /// The input must be well-formed (see `try_parse`).
    pub fn parse(pool: &ConstantPool, buf: &mut Bytes, Ghost(s): Ghost<Seq<u8>>, Ghost(p): Ghost<int>) -> (r: LocalVariable)
        requires
            at(*old(buf), s, p),
            spec_local_variable(pool@, s, p) is Some,
        ensures
            spec_local_variable(pool@, s, p) matches Some((w, e)) && w == r@ && at(*final(buf), s, e),
    {
        match LocalVariable::try_parse(pool, buf, Ghost(s), Ghost(p)) {
            Some(v) => v,
            None => vstd::pervasive::unreached(),
        }
    }

    /// Reads as `parse` does, answering `None` where the input is not
    /// well-formed.
    pub fn try_parse(pool: &ConstantPool, buf: &mut Bytes, Ghost(s): Ghost<Seq<u8>>, Ghost(p): Ghost<int>) -> (r: Option<LocalVariable>)
        requires
            at(*old(buf), s, p),
        ensures
            match r {
                Some(v) => spec_local_variable(pool@, s, p) matches Some((w, e)) && w == v@ && at(
                    *final(buf),
                    s,
                    e,
                ),
                None => spec_local_variable(pool@, s, p) is None,
            },
    {
        let start_pc = read_u16(buf, Ghost(s), Ghost(p))?;
        let length = read_u16(buf, Ghost(s), Ghost(p + 2))?;
        let name_index = read_u16(buf, Ghost(s), Ghost(p + 4))?;
        let name = pool.utf8_at(name_index)?;
        let descriptor_index = read_u16(buf, Ghost(s), Ghost(p + 6))?;
        let descriptor_string = pool.utf8_at(descriptor_index)?;
        let descriptor = FieldDescriptor::parse(istr_as_str(&descriptor_string))?;
        let index = read_u16(buf, Ghost(s), Ghost(p + 8))?;
        Some(LocalVariable { name, descriptor, start_pc, length, index })
    }

    pub fn new(name: &str, descriptor: FieldDescriptor, start_pc: u16, length: u16, index: u16) -> (r: LocalVariable)
        ensures
            r@ == (SpecLocalVariable { name: name@, descriptor: descriptor@, start_pc, length, index }),
    {
        LocalVariable { name: istr_new(name), descriptor, start_pc, length, index }
    }

    pub fn name(&self) -> (r: &str)
        ensures
            r@ == self@.name,
    {
        istr_as_str(&self.name)
    }

    pub fn descriptor(&self) -> (r: &FieldDescriptor)
        ensures
            r@ == self@.descriptor,
    {
        &self.descriptor
    }

    pub fn start_pc(&self) -> (r: u16)
        ensures
            r == self@.start_pc,
    {
        self.start_pc
    }

    pub fn length(&self) -> (r: u16)
        ensures
            r == self@.length,
    {
        self.length
    }

    pub fn index(&self) -> (r: u16)
        ensures
            r == self@.index,
    {
        self.index
    }
}

/// A local variable (or local variable type) table.
#[derive(Debug)]
pub struct LocalVariableTable {
    variables: Vec<LocalVariable>,
}

impl View for LocalVariableTable {
    type V = Seq<SpecLocalVariable>;

    closed spec fn view(&self) -> Seq<SpecLocalVariable> {
        views(self.variables@)
    }
}

impl LocalVariableTable {
    /// The input must be well-formed (see `try_parse`).
    pub fn parse(pool: &ConstantPool, buf: &mut Bytes, Ghost(s): Ghost<Seq<u8>>, Ghost(p): Ghost<int>) -> (r: LocalVariableTable)
        requires
            at(*old(buf), s, p),
            spec_counted(local_variable_item(pool@), s, p) is Some,
        ensures
            spec_counted(local_variable_item(pool@), s, p) matches Some((w, e)) && w == r@ && at(*final(buf), s, e),
    {
        match LocalVariableTable::try_parse(pool, buf, Ghost(s), Ghost(p)) {
            Some(v) => v,
            None => vstd::pervasive::unreached(),
        }
    }

    /// Reads as `parse` does, answering `None` where the input is not
    /// well-formed.
    pub fn try_parse(pool: &ConstantPool, buf: &mut Bytes, Ghost(s): Ghost<Seq<u8>>, Ghost(p): Ghost<int>) -> (r: Option<LocalVariableTable>)
        requires
            at(*old(buf), s, p),
        ensures
            match r {
                Some(t) => spec_counted(local_variable_item(pool@), s, p) matches Some((w, e)) && w
                    == t@ && at(*final(buf), s, e),
                None => spec_counted(local_variable_item(pool@), s, p) is None,
            },
    {
        let count = read_u16(buf, Ghost(s), Ghost(p))?;
        let mut variables: Vec<LocalVariable> = Vec::new();
        let mut i: u16 = 0;
        let ghost mut q = p + 2;
        proof {
            lemma_views_empty(variables@);
        }
        while i < count
            invariant
                i <= count,
                at(*buf, s, q),
                spec_counted(local_variable_item(pool@), s, p) == spec_repeat(
                    local_variable_item(pool@),
                    s,
                    q,
                    (count - i) as nat,
                    views(variables@),
                ),
            decreases count - i,
        {
            let v = LocalVariable::try_parse(pool, buf, Ghost(s), Ghost(q))?;
            proof {
                lemma_views_push(variables@, v);
                q = match spec_local_variable(pool@, s, q) {
                    Some((_, e)) => e,
                    None => q,
                };
            }
            variables.push(v);
            i = i + 1;
        }
        Some(LocalVariableTable { variables })
    }

    pub fn new(variables: Vec<LocalVariable>) -> (r: LocalVariableTable)
        ensures
            r@ == views(variables@),
    {
        LocalVariableTable { variables }
    }

    pub fn variables(&self) -> (r: &[LocalVariable])
        ensures
            views(r@) == self@,
    {
        self.variables.as_slice()
    }

    pub fn get(&self, index: usize) -> (r: Option<&LocalVariable>)
        ensures
            match r {
                Some(v) => index < self@.len() && self@[index as int] == v@,
                None => index >= self@.len(),
            },
    {
        if index < self.variables.len() {
            Some(&self.variables[index])
        } else {
            None
        }
    }
}

// ---------------------------------------------------------------------------
// The code block
// ---------------------------------------------------------------------------

/// The body of a `Code` attribute.
#[derive(Debug)]
pub struct CodeBlock {
    max_stack: u16,
    max_locals: u16,
    code: Vec<u8>,
    exception_handlers: ExceptionHandlerTable,
    line_numbers: Option<HashMap<u16, u16>>,
    local_variables: Option<LocalVariableTable>,
    local_variable_types: Option<LocalVariableTable>,
    stack_map_table: Option<StackMapTable>,
}

pub open spec fn optional_map_view(m: Option<HashMap<u16, u16>>) -> Option<Map<u16, u16>> {
    match m {
        Some(m) => Some(m@),
        None => None,
    }
}

pub open spec fn optional_table_view(t: Option<LocalVariableTable>) -> Option<Seq<SpecLocalVariable>> {
    match t {
        Some(t) => Some(t@),
        None => None,
    }
}

pub open spec fn optional_stack_map_view(t: Option<StackMapTable>) -> Option<Seq<SpecStackMapFrame>> {
    match t {
        Some(t) => Some(t@),
        None => None,
    }
}

impl View for CodeBlock {
    type V = SpecCodeBlock;

    closed spec fn view(&self) -> SpecCodeBlock {
        SpecCodeBlock {
            max_stack: self.max_stack,
            max_locals: self.max_locals,
            code: self.code@,
            exception_handlers: self.exception_handlers@,
            attributes: SpecCodeAttributes {
                line_numbers: optional_map_view(self.line_numbers),
                local_variables: optional_table_view(self.local_variables),
                local_variable_types: optional_table_view(self.local_variable_types),
                stack_map_table: optional_stack_map_view(self.stack_map_table),
            },
        }
    }
}

fn parse_line_number_table(buf: &mut Bytes, Ghost(s): Ghost<Seq<u8>>, Ghost(p): Ghost<int>) -> (r: Option<HashMap<u16, u16>>)
    requires
        at(*old(buf), s, p),
    ensures
        match r {
            Some(m) => spec_line_number_table(s, p) matches Some((w, e)) && w == m@ && at(
                *final(buf),
                s,
                e,
            ),
            None => spec_line_number_table(s, p) is None,
        },
{
    let table_length = read_u16(buf, Ghost(s), Ghost(p))?;
    let mut table: HashMap<u16, u16> = HashMap::with_capacity(table_length as usize);
    let mut i: u16 = 0;
    let ghost mut q = p + 2;
    while i < table_length
        invariant
            i <= table_length,
            at(*buf, s, q),
            spec_line_number_table(s, p) == spec_line_entries(
                s,
                q,
                (table_length - i) as nat,
                table@,
            ),
        decreases table_length - i,
    {
        let start_pc = read_u16(buf, Ghost(s), Ghost(q))?;
        let line_number = read_u16(buf, Ghost(s), Ghost(q + 2))?;
        table.insert(start_pc, line_number);
        proof {
            q = q + 4;
        }
        i = i + 1;
    }
    Some(table)
}

fn try_parse_attributes(
    pool: &ConstantPool,
    buf: &mut Bytes,
    attribute_count: u16,
    Ghost(s): Ghost<Seq<u8>>,
    Ghost(p): Ghost<int>,
) -> (r: Option<
    (Option<HashMap<u16, u16>>, Option<LocalVariableTable>, Option<LocalVariableTable>, Option<StackMapTable>),
>)
    requires
        at(*old(buf), s, p),
    ensures
        match r {
            Some((a, b, c, d)) => spec_code_attributes(
                pool@,
                s,
                p,
                attribute_count as nat,
                no_code_attributes(),
            ) matches Some((w, e)) && w == (SpecCodeAttributes {
                line_numbers: optional_map_view(a),
                local_variables: optional_table_view(b),
                local_variable_types: optional_table_view(c),
                stack_map_table: optional_stack_map_view(d),
            }) && at(*final(buf), s, e),
            None => spec_code_attributes(
                pool@,
                s,
                p,
                attribute_count as nat,
                no_code_attributes(),
            ) is None,
        },
{
    let mut line_number_table: Option<HashMap<u16, u16>> = None;
    let mut local_variable_table: Option<LocalVariableTable> = None;
    let mut local_variable_type_table: Option<LocalVariableTable> = None;
    let mut stack_map_table: Option<StackMapTable> = None;
    let mut count = attribute_count;
    let ghost mut q = p;
    while count > 0
        invariant
            at(*buf, s, q),
            spec_code_attributes(pool@, s, p, attribute_count as nat, no_code_attributes())
                == spec_code_attributes(
                pool@,
                s,
                q,
                count as nat,
                SpecCodeAttributes {
                    line_numbers: optional_map_view(line_number_table),
                    local_variables: optional_table_view(local_variable_table),
                    local_variable_types: optional_table_view(local_variable_type_table),
                    stack_map_table: optional_stack_map_view(stack_map_table),
                },
            ),
        decreases count,
    {
        if !(crate::buffers::bytes_remaining(buf) > 6) {
            return None;
        }
        let name_index = read_u16(buf, Ghost(s), Ghost(q))?;
        let length = read_u32(buf, Ghost(s), Ghost(q + 2))?;
        let name = pool.utf8_at(name_index)?;
        if istr_eq_str(&name, "LineNumberTable") {
            let table = parse_line_number_table(buf, Ghost(s), Ghost(q + 6))?;
            proof {
                q = match spec_line_number_table(s, q + 6) {
                    Some((_, e)) => e,
                    None => q,
                };
            }
            line_number_table = Some(table);
        } else if istr_eq_str(&name, "LocalVariableTable") {
            let table = LocalVariableTable::try_parse(pool, buf, Ghost(s), Ghost(q + 6))?;
            proof {
                q = match spec_counted(local_variable_item(pool@), s, q + 6) {
                    Some((_, e)) => e,
                    None => q,
                };
            }
            local_variable_table = Some(table);
        } else if istr_eq_str(&name, "LocalVariableTypeTable") {
            let table = LocalVariableTable::try_parse(pool, buf, Ghost(s), Ghost(q + 6))?;
            proof {
                q = match spec_counted(local_variable_item(pool@), s, q + 6) {
                    Some((_, e)) => e,
                    None => q,
                };
            }
            local_variable_type_table = Some(table);
        } else if istr_eq_str(&name, "StackMapTable") {
            let table = StackMapTable::try_parse(buf, Ghost(s), Ghost(q + 6))?;
            proof {
                q = match spec_stack_map_table(s, q + 6) {
                    Some((_, e)) => e,
                    None => q,
                };
            }
            stack_map_table = Some(table);
        } else {
            if !skip_bytes(buf, length as usize, Ghost(s), Ghost(q + 6)) {
                return None;
            }
            proof {
                q = q + 6 + length;
            }
        }
        count = count - 1;
    }
    Some((line_number_table, local_variable_table, local_variable_type_table, stack_map_table))
}

impl CodeBlock {
    /// Reads the body of a code attribute.
    /// The input must be well-formed (see `try_parse`).
    pub fn parse(pool: &ConstantPool, buf: &mut Bytes, Ghost(s): Ghost<Seq<u8>>, Ghost(p): Ghost<int>) -> (r: CodeBlock)
        requires
            at(*old(buf), s, p),
            spec_code_block(pool@, s, p) is Some,
        ensures
            spec_code_block(pool@, s, p) matches Some((w, e)) && w == r@ && at(*final(buf), s, e),
    {
        match CodeBlock::try_parse(pool, buf, Ghost(s), Ghost(p)) {
            Some(v) => v,
            None => vstd::pervasive::unreached(),
        }
    }

    /// Reads as `parse` does, answering `None` where the input is not
    /// well-formed.
    pub fn try_parse(pool: &ConstantPool, buf: &mut Bytes, Ghost(s): Ghost<Seq<u8>>, Ghost(p): Ghost<int>) -> (r: Option<CodeBlock>)
        requires
            at(*old(buf), s, p),
        ensures
            match r {
                Some(c) => spec_code_block(pool@, s, p) matches Some((w, e)) && w == c@ && at(
                    *final(buf),
                    s,
                    e,
                ),
                None => spec_code_block(pool@, s, p) is None,
            },
    {
        let max_stack = read_u16(buf, Ghost(s), Ghost(p))?;
        let max_locals = read_u16(buf, Ghost(s), Ghost(p + 2))?;
        let code_length = read_u32(buf, Ghost(s), Ghost(p + 4))?;
        if !(code_length > 0 && code_length as usize <= MAX_CODE_BYTES) {
            return None;
        }
        let code = read_u8_array(buf, code_length as usize, Ghost(s), Ghost(p + 8))?;
        let exception_handlers = ExceptionHandlerTable::try_parse(pool, buf, Ghost(s), Ghost(p + 8 + code_length))?;
        let ghost q4 = match spec_counted(exception_handler_item(pool@), s, p + 8 + code_length) {
            Some((_, e)) => e,
            None => 0,
        };
        let attribute_count = read_u16(buf, Ghost(s), Ghost(q4))?;
        let (line_numbers, local_variables, local_variable_types, stack_map_table) = try_parse_attributes(
            pool,
            buf,
            attribute_count,
            Ghost(s),
            Ghost(q4 + 2),
        )?;
        Some(CodeBlock {
            max_stack,
            max_locals,
            code,
            exception_handlers,
            line_numbers,
            local_variables,
            local_variable_types,
            stack_map_table,
        })
    }

    pub fn new(
        max_stack: u16,
        max_locals: u16,
        code: Vec<u8>,
        exception_handlers: ExceptionHandlerTable,
        line_numbers: Option<HashMap<u16, u16>>,
        local_variables: Option<LocalVariableTable>,
        local_variable_types: Option<LocalVariableTable>,
        stack_map_table: Option<StackMapTable>,
    ) -> (r: CodeBlock)
        ensures
            r@ == (SpecCodeBlock {
                max_stack,
                max_locals,
                code: code@,
                exception_handlers: exception_handlers@,
                attributes: SpecCodeAttributes {
                    line_numbers: optional_map_view(line_numbers),
                    local_variables: optional_table_view(local_variables),
                    local_variable_types: optional_table_view(local_variable_types),
                    stack_map_table: optional_stack_map_view(stack_map_table),
                },
            }),
    {
        CodeBlock {
            max_stack,
            max_locals,
            code,
            exception_handlers,
            line_numbers,
            local_variables,
            local_variable_types,
            stack_map_table,
        }
    }

    pub fn max_stack(&self) -> (r: u16)
        ensures
            r == self@.max_stack,
    {
        self.max_stack
    }

    pub fn max_locals(&self) -> (r: u16)
        ensures
            r == self@.max_locals,
    {
        self.max_locals
    }

    pub fn code(&self) -> (r: &[u8])
        ensures
            r@ == self@.code,
    {
        self.code.as_slice()
    }

    pub fn exception_handlers(&self) -> (r: &ExceptionHandlerTable)
        ensures
            r@ == self@.exception_handlers,
    {
        &self.exception_handlers
    }

    pub fn local_variables(&self) -> (r: Option<&LocalVariableTable>)
        ensures
            match r {
                Some(t) => self@.attributes.local_variables == Some(t@),
                None => self@.attributes.local_variables is None,
            },
    {
        match &self.local_variables {
            Some(t) => Some(t),
            None => None,
        }
    }

    pub fn local_variable_types(&self) -> (r: Option<&LocalVariableTable>)
        ensures
            match r {
                Some(t) => self@.attributes.local_variable_types == Some(t@),
                None => self@.attributes.local_variable_types is None,
            },
    {
        match &self.local_variable_types {
            Some(t) => Some(t),
            None => None,
        }
    }

    pub fn stack_map_table(&self) -> (r: Option<&StackMapTable>)
        ensures
            match r {
                Some(t) => self@.attributes.stack_map_table == Some(t@),
                None => self@.attributes.stack_map_table is None,
            },
    {
        match &self.stack_map_table {
            Some(t) => Some(t),
            None => None,
        }
    }

    /// An empty frame sized for this code.
    pub fn new_stack_frame(&self) -> (r: StackFrame)
        ensures
            r.locals() == Seq::<u32>::empty(),
            r.stack() == Seq::<u32>::empty(),
    {
        StackFrame::new(self.max_stack, self.max_locals)
    }

    /// A buffer holding a copy of the bytecode.
    pub fn new_code_reader(&self) -> (r: Bytes)
        ensures
            crate::buffers::bytes_content(r) == self@.code,
    {
        bytes_copy_from_slice(self.code.as_slice())
    }
}

} // verus!
