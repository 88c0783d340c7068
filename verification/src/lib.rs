//! Conversion of the parsed syntax tree of a program into its typed
//! representation, verified against a node-by-node statement of what the
//! conversion is.
//!
//! - `ast`: the syntax tree as the parser hands it over.
//! - `types`: the typed program, generic in the type of field elements.
//! - `literal`: reading `u32`, size and boolean literals.
//! - `expression_spec`, `statement_spec`, `definition_spec`: which syntax
//!   trees convert, and what their conversion is.
//! - `expression_from`, `statement_from`, `definition_from`, `program_from`:
//!   the conversion itself.
//! - `checks`: deciding whether a syntax tree converts.
//! - `sameness`: when two typed trees are the same, vectors and strings
//!   compared by their elements.
//! - `determinism`: a syntax tree has one conversion, up to sameness, when
//!   the field element parser depends only on its text.
//! - `laws`: properties of converted programs.

pub mod ast;
pub mod checks;
pub mod definition_from;
pub mod definition_spec;
pub mod determinism;
pub mod expression_from;
pub mod expression_spec;
pub mod laws;
pub mod literal;
pub mod program_from;
pub mod sameness;
pub mod statement_from;
pub mod statement_spec;
pub mod types;
pub mod conversion_laws;
pub mod convertibility_laws;
pub mod structure_laws;
