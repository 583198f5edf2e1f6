//! A field-uniformity array deriver.
//!
//! Given the description of a named-field struct whose fields all share one
//! declared type, the library validates that description and synthesizes the
//! source text of two accessor methods on the struct: `as_array`, which
//! borrows the struct and returns its fields as a fixed-size array of
//! references in declaration order, and `to_array`, which consumes the struct
//! and returns its fields as a fixed-size array of owned values in
//! declaration order.
//!
//! The library itself works on plain values: a [`descriptor::RecordDesc`]
//! describes the declaration, [`emit::expand`] either returns the emitted
//! fragment as source text or reports exactly why the declaration is
//! rejected, and [`model`] states and proves what the emitted methods mean
//! at runtime. Turning a compiler-provided syntax tree into a descriptor,
//! and the emitted text back into a syntax fragment, is left to a thin
//! unverified shim around the library.

pub mod descriptor;
pub mod emit;
pub mod model;
pub mod validate;
