//! What copies of nodes keep.

pub mod attr;
pub mod expr;
pub mod func;
pub mod generics;
pub mod ident;
pub mod item;
pub mod lit;
pub mod pat;
pub mod path;
pub mod stmt;
pub mod ty;
pub mod vis;
