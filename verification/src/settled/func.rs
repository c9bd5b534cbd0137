//! Parentheses in function signatures.

use vstd::prelude::*;

use crate::ast::func::{FnDecl, FunctionRetTy, MethodSig, Param};

verus! {

impl Param {
    /// All parentheses in it have the ids of what stands between them.
    pub open spec fn settled(self) -> bool
        decreases self,
    {
        &&& self.ty.settled()
        &&& self.pat.settled()
    }
}

/// All parentheses in a list of parameters have the ids of what stands between them.
pub open spec fn settled_params(list: Seq<Param>) -> bool
    decreases list,
{
    forall|i: int| 0 <= i < list.len() ==> (#[trigger] list[i]).settled()
}

impl FunctionRetTy {
    /// All parentheses in it have the ids of what stands between them.
    pub open spec fn settled(self) -> bool
        decreases self,
    {
        match self {
            FunctionRetTy::Ty(ty) => ty.settled(),
            _ => true,
        }
    }
}

impl FnDecl {
    /// All parentheses in it have the ids of what stands between them.
    pub open spec fn settled(self) -> bool
        decreases self,
    {
        &&& settled_params(self.inputs@)
        &&& self.output.settled()
    }
}

impl MethodSig {
    /// All parentheses in it have the ids of what stands between them.
    pub open spec fn settled(self) -> bool
        decreases self,
    {
        self.decl.settled()
    }
}

} // verus!
