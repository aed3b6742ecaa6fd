//! An in-memory model of C-language constructs — types, typed literals,
//! function signatures, straight-line bodies, and a compilation unit —
//! together with a deterministic textual renderer that produces a paired
//! header and source file.
//!
//! Every renderer is specified against a mathematical text model: each
//! emitting function returns a `String` whose view equals a spec-level
//! rendering function of the value's view.

pub mod block;
pub mod builder;
pub mod callvalue;
pub mod ctype;
pub mod cvalue;
pub mod function;
pub mod laws;
pub mod module;
pub mod text;
