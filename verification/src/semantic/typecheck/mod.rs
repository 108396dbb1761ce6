//! Type checking: operator rules and the resolution of written types.

pub mod expressions;
pub mod operators;
pub mod resolution;
