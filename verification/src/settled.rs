//! Trees in which parentheses have the ids of what stands between them.

pub mod expr;
pub mod func;
pub mod generics;
pub mod item;
pub mod pat;
pub mod path;
pub mod stmt;
pub mod ty;
