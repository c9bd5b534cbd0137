//! Parentheses in patterns.

use vstd::prelude::*;

use crate::ast::pat::{FieldPat, Pat, PatKind};

verus! {

impl FieldPat {
    /// All parentheses in it have the ids of what stands between them.
    pub open spec fn settled(self) -> bool
        decreases self,
    {
        self.pat.settled()
    }
}

/// All parentheses in a list of field patterns have the ids of what stands between them.
pub open spec fn settled_field_pats(list: Seq<FieldPat>) -> bool
    decreases list,
{
    forall|i: int| 0 <= i < list.len() ==> (#[trigger] list[i]).settled()
}

impl PatKind {
    /// All parentheses in it have the ids of what stands between them.
    pub open spec fn settled(self) -> bool
        decreases self,
    {
        match self {
            PatKind::Ident(_, _, pat) => (pat matches Some(x) ==> x.settled()),
            PatKind::Struct(path, fields, _) => {
                &&& path.settled()
                &&& settled_field_pats(fields@)
            },
            PatKind::TupleStruct(path, pats) => {
                &&& path.settled()
                &&& settled_pats(pats@)
            },
            PatKind::Or(pats) => settled_pats(pats@),
            PatKind::Path(qself, path) => {
                &&& (qself matches Some(x) ==> x.settled())
                &&& path.settled()
            },
            PatKind::Tuple(pats) => settled_pats(pats@),
            PatKind::Box(pat) => pat.settled(),
            PatKind::Ref(pat, _) => pat.settled(),
            PatKind::Lit(expr) => expr.settled(),
            PatKind::Range(left, right, _) => {
                &&& left.settled()
                &&& right.settled()
            },
            PatKind::Slice(pats) => settled_pats(pats@),
            PatKind::Paren(pat) => pat.settled(),
            _ => true,
        }
    }
}

impl Pat {
    /// All parentheses in it have the ids of what stands between them.
    pub open spec fn settled(self) -> bool
        decreases self,
    {
        self.kind.settled()
    }
}

/// All parentheses in a list of patterns have the ids of what stands between them.
pub open spec fn settled_pats(list: Seq<Pat>) -> bool
    decreases list,
{
    forall|i: int| 0 <= i < list.len() ==> (#[trigger] list[i]).settled()
}

} // verus!
