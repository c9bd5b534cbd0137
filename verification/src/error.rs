//! Why a request of a script is refused.

use vstd::prelude::*;

verus! {

/// Why a request of a script is refused.
#[derive(Debug, PartialEq)]
pub enum Error {
    /// Only the tree of a `use` item can be taken out of an item.
    ItemNode,
    /// Only the literal of a literal expression can be taken out of an expression.
    ExprNode,
    /// A macro call in statement position holds no node.
    MacStmt,
    /// A path with generic arguments cannot be replaced by plain names.
    GenericSegments,
    /// The value of such a literal cannot be handed to a script.
    LitValue,
    /// No integer literal can have this suffix.
    Suffix(String),
    /// Only the suffix of an integer literal can be replaced.
    NotAnInteger,
}

} // verus!
