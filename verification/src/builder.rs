//! The builders and the continuation capability that chains them.

pub mod code;
pub mod invoke;
pub mod laws;
