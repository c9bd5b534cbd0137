//! The syntax tree that scripts work on.

pub mod attr;
pub mod expr;
pub mod flags;
pub mod func;
pub mod generics;
pub mod ident;
pub mod item;
pub mod lit;
pub mod pat;
pub mod path;
pub mod span;
pub mod stmt;
pub mod text;
pub mod ty;
pub mod vis;
