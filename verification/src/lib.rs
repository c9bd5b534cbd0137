//! Syntax trees in the hands of scripts.

pub mod ast;
pub mod copies;
pub mod error;
pub mod filter_map;
pub mod handle;
pub mod laws;
mod lists;
pub mod lua;
pub mod names;
pub mod nodes;
pub mod parts;
pub mod search;
pub mod settled;
pub mod text;
pub mod visit;
pub mod walk;
