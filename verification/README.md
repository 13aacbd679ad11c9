# astatine

A small Java virtual machine core: a class file parser, a class loader, a heap
of objects and arrays, and a bytecode interpreter for the integer, long,
reference and control instructions. The library in `src/` is written in Verus
and every function in it is verified against its contract.

## Layout

- `src/buffers.rs`, `src/strings.rs`: the outside types the library reads
  (`bytes::Bytes`, `internship::IStr`) and the contracts of the calls made
  on them.
- `src/reader.rs`, `src/constant_pool.rs`, `src/descriptors.rs`,
  `src/signature.rs`, `src/verification.rs`, `src/code.rs`, `src/field.rs`,
  `src/method.rs`, `src/handles.rs`, `src/record.rs`, `src/module.rs`,
  `src/class.rs`: the class file format. Each parser is stated against a
  spec function over the file's bytes (`spec_class`, `spec_method`, ...).
  `parse` requires well-formed input and yields the value that the spec
  function describes; `try_parse` reads the same way and answers `None`
  exactly where the input is not well-formed, so callers test with it.
- `src/access_flags.rs`, `src/version.rs`, `src/constants.rs`: flags,
  versions and the rules on their combinations.
- `src/class_loader.rs`: classes keyed by name, loaded after their
  superclass and interfaces, with the steps that work through a list of
  names still to load; the laws of loading and of the subclass relation
  are proved there.
- `src/stack_frame.rs`, `src/primitive_ops.rs`, `src/instructions.rs`,
  `src/object.rs`, `src/heap.rs`, `src/reference.rs`, `src/vm_types.rs`:
  frames, arithmetic, the heap and its objects.
- `src/interpreter.rs`: one instruction at a time. `Interpreter::step` is
  stated against `spec_step`, a function from the state (frame, position,
  heap) to the outcome and the next state; it requires an instruction that
  can run, and `Interpreter::try_step` answers `Fault` where none can.
  Floating-point instructions are handed back to the caller.
- `app/`: the program around the library: reading the class files that
  the loader asks for, the loop that runs a method, and floating-point
  arithmetic.
