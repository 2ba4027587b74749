//! Expression evaluation core of a SQL-like query engine.
//!
//! The library evaluates one already-parsed expression tree against one row
//! (a list of column titles and a parallel list of typed values) and a shared
//! evaluation environment, producing a single typed value or a structured
//! error.  Floating-point numbers are carried as their IEEE 754 bit patterns;
//! arithmetic on them is delegated to a software float implementation behind
//! trusted wrappers.

pub mod arguments;
pub mod cast;
pub mod error;
pub mod eval;
pub mod expr;
pub mod fp;
pub mod interval;
pub mod laws;
pub mod ops;
pub mod pattern;
pub mod runtime;
pub mod value;
