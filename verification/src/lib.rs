//! Fluent, continuation-passing builders for the function declarations of a
//! module: type references, inline signatures, and the ordered list that
//! collects them.
//!
//! Every builder owns a continuation. Its `build` hands the finished value to
//! that continuation and returns whatever the continuation yields, so a
//! builder nests inside any parent without knowing the parent's type.

pub mod builder;
pub mod elements;
