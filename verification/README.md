# leo_compiler

Converts the syntax tree of a Leo source file (`ast`) into the typed program
representation (`types`) that the compiler works on, and proves with Verus
that the conversion does what `expression_spec`, `statement_spec`,
`definition_spec` and `program_from` say, node by node.

The typed program is generic in the type `F` of field elements. The
conversion takes a function that turns the text of a field element literal
into an `F`; `app/lib.rs` supplies one for a snarkOS prime field.

A file converts only if every `u32` and boolean literal reads, every array
size and every range or loop bound is a `u32` literal, calls stand only on
names, and no `!=` comparison occurs. `checks::file_is_convertible` decides
this, and `Program::from` requires it.
