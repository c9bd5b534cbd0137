//! Paths.

use vstd::prelude::*;

use crate::ast::ident::{Ident, dummy_id, fresh_ident};
use crate::ast::path::{
    AngleBracketedArgs, AssocTyConstraint, GenericArg, GenericArgs, Path, PathSegment,
};
use crate::ast::span::{dummy_sp, dummy_span};
use crate::ast::ty::Ty;
use crate::error::Error;

verus! {

/// The path segment of this name alone, as a script makes it.
pub open spec fn plain_segment(name: String) -> PathSegment {
    PathSegment { ident: fresh_ident(name), id: dummy_id(), args: None }
}

/// `path` is a path made by a script of this one name.
pub open spec fn is_ident_path(path: Path, name: String) -> bool {
    &&& path.span == dummy_span()
    &&& path.segments@ == seq![plain_segment(name)]
}

/// Some segment has generic arguments.
pub open spec fn any_generic_args(segments: Seq<PathSegment>) -> bool {
    exists|i: int| 0 <= i < segments.len() && (#[trigger] segments[i]).args is Some
}

/// `args` are these types between angle brackets, as a script makes them.
pub open spec fn is_angled_args(args: GenericArgs, tys: Seq<Ty>) -> bool {
    &&& args matches GenericArgs::AngleBracketed(angled)
    &&& angled.span == dummy_span()
    &&& angled.constraints@ == Seq::<AssocTyConstraint>::empty()
    &&& angled.args@.len() == tys.len()
    &&& forall|i: int|
        0 <= i < tys.len() ==> #[trigger] angled.args@[i] == GenericArg::Type(Box::new(tys[i]))
}

impl Path {
    /// Whether some segment of the path has generic arguments.
    pub fn has_generic_args(&self) -> (result: bool)
        ensures
            result == any_generic_args(self.segments@),
    {
        let mut i: usize = 0;
        while i < self.segments.len()
            invariant
                i <= self.segments@.len(),
                forall|j: int| 0 <= j < i ==> (#[trigger] self.segments@[j]).args is None,
            decreases self.segments@.len() - i,
        {
            if self.segments[i].args.is_some() {
                assert(self.segments@[i as int].args is Some);
                return true;
            }
            i += 1;
        }
        false
    }

    /// The names of the segments, in order.
    pub fn get_segments(&self) -> (names: Vec<&Ident>)
        ensures
            names@.unref() == self.segments@.map_values(|segment: PathSegment| segment.ident),
    {
        let mut names: Vec<&Ident> = Vec::new();
        let mut i: usize = 0;
        while i < self.segments.len()
            invariant
                i <= self.segments@.len(),
                names@.len() == i,
                forall|j: int| 0 <= j < i ==> *(#[trigger] names@[j]) == self.segments@[j].ident,
            decreases self.segments@.len() - i,
        {
            names.push(&self.segments[i].ident);
            i += 1;
        }
        assert(names@.unref() =~= self.segments@.map_values(
            |segment: PathSegment| segment.ident,
        ));
        names
    }

    /// Replaces the segments by plain names. A path with generic arguments is left as it is.
    pub fn set_segments(&mut self, new_segments: Vec<String>) -> (result: Result<(), Error>)
        ensures
            if any_generic_args(old(self).segments@) {
                &&& result == Err::<(), Error>(Error::GenericSegments)
                &&& *final(self) == *old(self)
            } else {
                &&& result == Ok::<(), Error>(())
                &&& *final(self) == (Path { segments: final(self).segments, ..*old(self) })
                &&& final(self).segments@ == new_segments@.map_values(
                    |name: String| plain_segment(name),
                )
            },
    {
        if self.has_generic_args() {
            return Err(Error::GenericSegments);
        }
        let mut segments: Vec<PathSegment> = Vec::new();
        let mut i: usize = 0;
        while i < new_segments.len()
            invariant
                i <= new_segments@.len(),
                segments@.len() == i,
                forall|j: int|
                    0 <= j < i ==> #[trigger] segments@[j] == plain_segment(new_segments@[j]),
            decreases new_segments@.len() - i,
        {
            segments.push(PathSegment::from_ident(Ident::from_str(new_segments[i].clone())));
            i += 1;
        }
        assert(segments@ =~= new_segments@.map_values(|name: String| plain_segment(name)));
        self.segments = segments;
        Ok(())
    }

    /// Replaces the segments by what the callback gives for them.
    pub fn map_segments<F: Fn(&Vec<PathSegment>) -> Vec<PathSegment>>(&mut self, callback: &F)
        requires
            call_requires(*callback, (&old(self).segments,)),
        ensures
            *final(self) == (Path { segments: final(self).segments, ..*old(self) }),
            call_ensures(*callback, (&old(self).segments,), final(self).segments),
    {
        let new_segments: Vec<PathSegment> = callback(&self.segments);
        self.segments = new_segments;
    }

    /// Replaces the generic arguments of one segment by types between angle brackets. The first
    /// segment has the index 1.
    pub fn set_generic_angled_arg_tys(&mut self, idx: usize, tys: Vec<Ty>)
        requires
            1 <= idx <= old(self).segments@.len(),
        ensures
            *final(self) == (Path { segments: final(self).segments, ..*old(self) }),
            final(self).segments@.len() == old(self).segments@.len(),
            forall|i: int|
                0 <= i < old(self).segments@.len() && i != idx - 1
                    ==> #[trigger] final(self).segments@[i] == old(self).segments@[i],
            final(self).segments@[idx - 1] == (PathSegment {
                args: final(self).segments@[idx - 1].args,
                ..old(self).segments@[idx - 1]
            }),
            final(self).segments@[idx - 1].args matches Some(args) && is_angled_args(*args, tys@),
    {
        let mut args: Vec<GenericArg> = Vec::new();
        let mut rest = tys;
        while rest.len() > 0
            invariant
                args@.len() + rest@.len() == tys@.len(),
                rest@ == tys@.skip(args@.len() as int),
                forall|i: int|
                    0 <= i < args@.len() ==> #[trigger] args@[i] == GenericArg::Type(
                        Box::new(tys@[i]),
                    ),
            decreases rest@.len(),
        {
            let ty: Ty = rest.remove(0);
            args.push(GenericArg::Type(Box::new(ty)));
            assert(rest@ =~= tys@.skip(args@.len() as int));
        }
        let generic_args = GenericArgs::AngleBracketed(
            AngleBracketedArgs { span: dummy_sp(), args, constraints: Vec::new() },
        );
        let segment: &mut PathSegment = &mut self.segments[idx - 1];
        segment.args = Some(Box::new(generic_args));
    }
}

} // verus!
