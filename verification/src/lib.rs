//! A Java class file reader and bytecode interpreter with verified contracts.
//!
//! The library parses class files (constant pool, fields, methods, code
//! attributes, stack map tables, records and modules), checks the access
//! modifiers that the JVM specification forbids, and runs a subset of the
//! bytecode instruction set on an operand stack and local variable table.

pub mod buffers;
pub mod strings;
pub mod descriptors;
pub mod constants;
pub mod stack_frame;
pub mod primitive_ops;
pub mod instructions;
pub mod reader;
pub mod constant_pool;
pub mod access_flags;
pub mod version;
pub mod verification;
pub mod code;
pub mod signature;
pub mod field;
pub mod method;
pub mod handles;
pub mod record;
pub mod module;
pub mod class;
pub mod class_loader;
pub mod vm_types;
pub mod reference;
pub mod object;
pub mod heap;
pub mod lateinit;
pub mod interpreter;
