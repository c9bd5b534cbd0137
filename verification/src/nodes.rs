//! What scripts can ask of each kind of node, and do to it.

pub mod expr;
pub mod func;
pub mod item;
pub mod lit;
pub mod path;
pub mod res;
pub mod stmt;
pub mod ty;
