//! What patterns are made of.

use vstd::prelude::*;

use crate::ast::attr::Mac;
use crate::ast::expr::Expr;
use crate::ast::pat::{FieldPat, Pat, PatKind};
use crate::filter_map::{Rules, between};
use crate::parts::path::optional_q_self_parts;
use crate::parts::{
    Part, group_contains, nodes_in_joined_parts, nodes_in_one_part, nodes_in_parts, one_if, parts,
};
use crate::visit::pat::{
    nodes_in_field_pat, nodes_in_field_pats, nodes_in_pat, nodes_in_pat_kind, nodes_in_pats,
};

verus! {

/// What a field pattern is made of, in the order of the text.
pub open spec fn parts_of_field_pat(node: FieldPat) -> Seq<Part> {
    seq![Part::Pat(*node.pat)]
}

/// Field patterns as parts.
pub open spec fn field_pats_parts(list: Seq<FieldPat>) -> Seq<Part> {
    list.map_values(|x: FieldPat| Part::FieldPat(x))
}

impl<
    S,
    F: Fn(&S, &str) -> (S, bool),
    G: Fn(&S, &Expr) -> (S, Expr),
    H: Fn(&S, &Mac) -> S,
> Rules<S, F, G, H> {
    /// Going through a field pattern is going through what it is made of, part by part.
    pub proof fn goes_through_the_parts_of_field_pat(
        self,
        from: S,
        before: FieldPat,
        to: S,
        after: FieldPat,
    )
        requires
            self.visited_field_pat(from, before, to, after),
        ensures
            self.visited_parts(from, parts_of_field_pat(before), to, parts_of_field_pat(after)),
    {
        self.single_part(from, Part::Pat(*before.pat), to, Part::Pat(*after.pat));
    }

    /// A visitor whose calls can always be made can go through a field pattern.
    pub(crate) proof fn total_goes_through_field_pat(self, node: FieldPat)
        requires
            self.is_total(),
        ensures
            self.can_visit_field_pat(node),
        decreases node,
    {
        self.total_goes_through_pat(*node.pat);
    }

    /// Going through a list of field patterns is going through them one by one.
    pub(crate) proof fn field_pats_are_parts(
        self,
        from: S,
        before: Seq<FieldPat>,
        to: S,
        after: Seq<FieldPat>,
    )
        requires
            self.visited_field_pats(from, before, to, after),
        ensures
            self.visited_parts(from, field_pats_parts(before), to, field_pats_parts(after)),
        decreases before.len(),
    {
        if before.len() > 0 {
            let mid = choose|mid: S|
                {
                    &&& #[trigger] between(mid)
                    &&& self.visited_field_pats(from, before.drop_last(), mid, after.drop_last())
                    &&& self.visited_field_pat(mid, before.last(), to, after.last())
                };
            self.field_pats_are_parts(from, before.drop_last(), mid, after.drop_last());
            assert(field_pats_parts(before).drop_last() =~= field_pats_parts(before.drop_last()));
            assert(field_pats_parts(after).drop_last() =~= field_pats_parts(after.drop_last()));
        }
    }
}

/// What is visited in a field pattern is what is visited in what it is made of, part by part.
pub proof fn visits_the_parts_of_field_pat(node: FieldPat)
    ensures
        nodes_in_field_pat(node) == nodes_in_parts(parts_of_field_pat(node)),
{
    nodes_in_one_part(Part::Pat(*node.pat));
}

/// What is visited in a list of field patterns is what is visited in them one by one.
pub(crate) proof fn nodes_in_field_pats_parts(list: Seq<FieldPat>, count: int)
    requires
        0 <= count <= list.len(),
    ensures
        nodes_in_field_pats(list, count) == nodes_in_parts(field_pats_parts(list.take(count))),
    decreases count,
{
    if count > 0 {
        nodes_in_field_pats_parts(list, count - 1);
        assert(
            field_pats_parts(
                list.take(count),
            ).drop_last() =~= field_pats_parts(list.take(count - 1))
        );
    }
}

/// Every node that a field pattern holds in a field is a part of it.
pub proof fn fields_of_field_pat_are_parts(node: FieldPat)
    ensures
        parts(Part::FieldPat(node)).contains(Part::Pat(*node.pat)),
{
    broadcast use group_contains;

}

/// What the form of a pattern is made of, in the order of the text.
pub open spec fn parts_of_pat_kind(node: PatKind) -> Seq<Part> {
    match node {
        PatKind::Ident(_, _, pat) => optional_pat_parts(pat),
        PatKind::Struct(path, fields, _) => seq![Part::Path(path)] + field_pats_parts(fields@),
        PatKind::TupleStruct(path, pats) => seq![Part::Path(path)] + pats_parts(pats@),
        PatKind::Or(pats) => pats_parts(pats@),
        PatKind::Path(qself, path) => optional_q_self_parts(qself) + seq![Part::Path(path)],
        PatKind::Tuple(pats) => pats_parts(pats@),
        PatKind::Box(pat) => seq![Part::Pat(*pat)],
        PatKind::Ref(pat, _) => seq![Part::Pat(*pat)],
        PatKind::Lit(expr) => seq![Part::Expr(*expr)],
        PatKind::Range(left, right, _) => seq![Part::Expr(*left)] + seq![Part::Expr(*right)],
        PatKind::Slice(pats) => pats_parts(pats@),
        PatKind::Paren(pat) => seq![Part::Pat(*pat)],
        PatKind::Mac(mac) => seq![Part::Mac(mac)],
        _ => seq![],
    }
}

impl<
    S,
    F: Fn(&S, &str) -> (S, bool),
    G: Fn(&S, &Expr) -> (S, Expr),
    H: Fn(&S, &Mac) -> S,
> Rules<S, F, G, H> {
    /// Going through the form of a pattern is going through what it is made of, part by part.
    pub proof fn goes_through_the_parts_of_pat_kind(
        self,
        from: S,
        before: PatKind,
        to: S,
        after: PatKind,
    )
        requires
            self.visited_pat_kind(from, before, to, after),
        ensures
            self.visited_parts(from, parts_of_pat_kind(before), to, parts_of_pat_kind(after)),
    {
        match (before, after) {
            (PatKind::Ident(_, _, pat), PatKind::Ident(_, _, pat2)) => {
                self.optional_pat_is_part(from, pat, to, pat2);
            },
            (PatKind::Struct(path, fields, _), PatKind::Struct(path2, fields2, _)) => {
                let mid = choose|mid: S|
                    {
                        &&& #[trigger] between(mid)
                        &&& self.visited_path(from, path, mid, path2)
                        &&& self.visited_field_pats(mid, fields@, to, fields2@)
                    };
                self.single_part(from, Part::Path(path), mid, Part::Path(path2));
                self.field_pats_are_parts(mid, fields@, to, fields2@);
                self.joined_parts(
                    from,
                    seq![Part::Path(path)],
                    mid,
                    seq![Part::Path(path2)],
                    field_pats_parts(fields@),
                    to,
                    field_pats_parts(fields2@),
                );
            },
            (PatKind::TupleStruct(path, pats), PatKind::TupleStruct(path2, pats2)) => {
                let mid = choose|mid: S|
                    {
                        &&& #[trigger] between(mid)
                        &&& self.visited_path(from, path, mid, path2)
                        &&& self.visited_pats(mid, pats@, to, pats2@)
                    };
                self.single_part(from, Part::Path(path), mid, Part::Path(path2));
                self.pats_are_parts(mid, pats@, to, pats2@);
                self.joined_parts(
                    from,
                    seq![Part::Path(path)],
                    mid,
                    seq![Part::Path(path2)],
                    pats_parts(pats@),
                    to,
                    pats_parts(pats2@),
                );
            },
            (PatKind::Or(pats), PatKind::Or(pats2)) => {
                self.pats_are_parts(from, pats@, to, pats2@);
            },
            (PatKind::Path(qself, path), PatKind::Path(qself2, path2)) => {
                let mid = choose|mid: S|
                    {
                        &&& #[trigger] between(mid)
                        &&& self.visited_optional_q_self(from, qself, mid, qself2)
                        &&& self.visited_path(mid, path, to, path2)
                    };
                self.optional_q_self_is_part(from, qself, mid, qself2);
                self.single_part(mid, Part::Path(path), to, Part::Path(path2));
                self.joined_parts(
                    from,
                    optional_q_self_parts(qself),
                    mid,
                    optional_q_self_parts(qself2),
                    seq![Part::Path(path)],
                    to,
                    seq![Part::Path(path2)],
                );
            },
            (PatKind::Tuple(pats), PatKind::Tuple(pats2)) => {
                self.pats_are_parts(from, pats@, to, pats2@);
            },
            (PatKind::Box(pat), PatKind::Box(pat2)) => {
                self.single_part(from, Part::Pat(*pat), to, Part::Pat(*pat2));
            },
            (PatKind::Ref(pat, _), PatKind::Ref(pat2, _)) => {
                self.single_part(from, Part::Pat(*pat), to, Part::Pat(*pat2));
            },
            (PatKind::Lit(expr), PatKind::Lit(expr2)) => {
                self.single_part(from, Part::Expr(*expr), to, Part::Expr(*expr2));
            },
            (PatKind::Range(left, right, _), PatKind::Range(left2, right2, _)) => {
                let mid = choose|mid: S|
                    {
                        &&& #[trigger] between(mid)
                        &&& self.visited_expr(from, *left, mid, *left2)
                        &&& self.visited_expr(mid, *right, to, *right2)
                    };
                self.single_part(from, Part::Expr(*left), mid, Part::Expr(*left2));
                self.single_part(mid, Part::Expr(*right), to, Part::Expr(*right2));
                self.joined_parts(
                    from,
                    seq![Part::Expr(*left)],
                    mid,
                    seq![Part::Expr(*left2)],
                    seq![Part::Expr(*right)],
                    to,
                    seq![Part::Expr(*right2)],
                );
            },
            (PatKind::Slice(pats), PatKind::Slice(pats2)) => {
                self.pats_are_parts(from, pats@, to, pats2@);
            },
            (PatKind::Paren(pat), PatKind::Paren(pat2)) => {
                self.single_part(from, Part::Pat(*pat), to, Part::Pat(*pat2));
            },
            (PatKind::Mac(mac), PatKind::Mac(mac2)) => {
                self.single_part(from, Part::Mac(mac), to, Part::Mac(mac2));
            },
            _ => {},
        }
    }

    /// A visitor whose calls can always be made can go through the form of a pattern.
    pub(crate) proof fn total_goes_through_pat_kind(self, node: PatKind)
        requires
            self.is_total(),
        ensures
            self.can_visit_pat_kind(node),
        decreases node,
    {
        match node {
            PatKind::Ident(_, _, pat) => {
                if let Some(x) = pat {
                    self.total_goes_through_pat(*x);
                }
            },
            PatKind::Struct(path, fields, _) => {
                self.total_goes_through_path(path);
                assert forall|i: int| 0 <= i < fields@.len() implies self.can_visit_field_pat(
                    #[trigger] fields@[i],
                ) by {
                    self.total_goes_through_field_pat(fields@[i]);
                }
            },
            PatKind::TupleStruct(path, pats) => {
                self.total_goes_through_path(path);
                assert forall|i: int| 0 <= i < pats@.len() implies self.can_visit_pat(
                    #[trigger] pats@[i],
                ) by {
                    self.total_goes_through_pat(pats@[i]);
                }
            },
            PatKind::Or(pats) => {
                assert forall|i: int| 0 <= i < pats@.len() implies self.can_visit_pat(
                    #[trigger] pats@[i],
                ) by {
                    self.total_goes_through_pat(pats@[i]);
                }
            },
            PatKind::Path(qself, path) => {
                if let Some(x) = qself {
                    self.total_goes_through_q_self(x);
                }
                self.total_goes_through_path(path);
            },
            PatKind::Tuple(pats) => {
                assert forall|i: int| 0 <= i < pats@.len() implies self.can_visit_pat(
                    #[trigger] pats@[i],
                ) by {
                    self.total_goes_through_pat(pats@[i]);
                }
            },
            PatKind::Box(pat) => {
                self.total_goes_through_pat(*pat);
            },
            PatKind::Ref(pat, _) => {
                self.total_goes_through_pat(*pat);
            },
            PatKind::Lit(expr) => {
                self.total_goes_through_expr(*expr);
            },
            PatKind::Range(left, right, _) => {
                self.total_goes_through_expr(*left);
                self.total_goes_through_expr(*right);
            },
            PatKind::Slice(pats) => {
                assert forall|i: int| 0 <= i < pats@.len() implies self.can_visit_pat(
                    #[trigger] pats@[i],
                ) by {
                    self.total_goes_through_pat(pats@[i]);
                }
            },
            PatKind::Paren(pat) => {
                self.total_goes_through_pat(*pat);
            },
            _ => {},
        }
    }
}

/// What is visited in the form of a pattern is what is visited in what it is made of, part by part.
pub proof fn visits_the_parts_of_pat_kind(node: PatKind)
    ensures
        nodes_in_pat_kind(node) == nodes_in_parts(parts_of_pat_kind(node)),
{
    match node {
        PatKind::Ident(_, _, pat) => {
            if let Some(x) = pat {
                nodes_in_one_part(Part::Pat(*x));
            }
        },
        PatKind::Struct(path, fields, _) => {
            nodes_in_one_part(Part::Path(path));
            nodes_in_field_pats_parts(fields@, fields@.len() as int);
            assert(fields@.take(fields@.len() as int) =~= fields@);
            nodes_in_joined_parts(seq![Part::Path(path)], field_pats_parts(fields@));
        },
        PatKind::TupleStruct(path, pats) => {
            nodes_in_one_part(Part::Path(path));
            nodes_in_pats_parts(pats@, pats@.len() as int);
            assert(pats@.take(pats@.len() as int) =~= pats@);
            nodes_in_joined_parts(seq![Part::Path(path)], pats_parts(pats@));
        },
        PatKind::Or(pats) => {
            nodes_in_pats_parts(pats@, pats@.len() as int);
            assert(pats@.take(pats@.len() as int) =~= pats@);
        },
        PatKind::Path(qself, path) => {
            if let Some(x) = qself {
                nodes_in_one_part(Part::QSelf(x));
            }
            nodes_in_one_part(Part::Path(path));
            nodes_in_joined_parts(optional_q_self_parts(qself), seq![Part::Path(path)]);
        },
        PatKind::Tuple(pats) => {
            nodes_in_pats_parts(pats@, pats@.len() as int);
            assert(pats@.take(pats@.len() as int) =~= pats@);
        },
        PatKind::Box(pat) => {
            nodes_in_one_part(Part::Pat(*pat));
        },
        PatKind::Ref(pat, _) => {
            nodes_in_one_part(Part::Pat(*pat));
        },
        PatKind::Lit(expr) => {
            nodes_in_one_part(Part::Expr(*expr));
        },
        PatKind::Range(left, right, _) => {
            nodes_in_one_part(Part::Expr(*left));
            nodes_in_one_part(Part::Expr(*right));
            nodes_in_joined_parts(seq![Part::Expr(*left)], seq![Part::Expr(*right)]);
        },
        PatKind::Slice(pats) => {
            nodes_in_pats_parts(pats@, pats@.len() as int);
            assert(pats@.take(pats@.len() as int) =~= pats@);
        },
        PatKind::Paren(pat) => {
            nodes_in_one_part(Part::Pat(*pat));
        },
        PatKind::Mac(mac) => {
            nodes_in_one_part(Part::Mac(mac));
        },
        _ => {},
    }
}

/// Every node that the form of a pattern holds in a field is a part of it.
pub proof fn fields_of_pat_kind_are_parts(node: PatKind)
    ensures
        node matches PatKind::Ident(
            _,
            _,
            pat,
        ) ==> (pat matches Some(x) ==> parts(Part::PatKind(node)).contains(Part::Pat(*x))),
        node matches PatKind::Struct(
            path,
            fields,
            _,
        ) ==> parts(
            Part::PatKind(node),
        ).contains(
            Part::Path(path),
        ) && (
            forall|i: int| 0 <= i < fields@.len() ==> parts(
                Part::PatKind(node),
            ).contains(Part::FieldPat(#[trigger] fields@[i]))
        ),
        node matches PatKind::TupleStruct(
            path,
            pats,
        ) ==> parts(
            Part::PatKind(node),
        ).contains(
            Part::Path(path),
        ) && (
            forall|i: int| 0 <= i < pats@.len() ==> parts(
                Part::PatKind(node),
            ).contains(Part::Pat(#[trigger] pats@[i]))
        ),
        node matches PatKind::Or(
            pats,
        ) ==> (
            forall|i: int| 0 <= i < pats@.len() ==> parts(
                Part::PatKind(node),
            ).contains(Part::Pat(#[trigger] pats@[i]))
        ),
        node matches PatKind::Path(
            qself,
            path,
        ) ==> (
            qself matches Some(x) ==> parts(Part::PatKind(node)).contains(Part::QSelf(x))
        ) && parts(Part::PatKind(node)).contains(Part::Path(path)),
        node matches PatKind::Tuple(
            pats,
        ) ==> (
            forall|i: int| 0 <= i < pats@.len() ==> parts(
                Part::PatKind(node),
            ).contains(Part::Pat(#[trigger] pats@[i]))
        ),
        node matches PatKind::Box(pat) ==> parts(Part::PatKind(node)).contains(Part::Pat(*pat)),
        node matches PatKind::Ref(pat, _) ==> parts(Part::PatKind(node)).contains(Part::Pat(*pat)),
        node matches PatKind::Lit(expr) ==> parts(Part::PatKind(node)).contains(Part::Expr(*expr)),
        node matches PatKind::Range(
            left,
            right,
            _,
        ) ==> parts(
            Part::PatKind(node),
        ).contains(Part::Expr(*left)) && parts(Part::PatKind(node)).contains(Part::Expr(*right)),
        node matches PatKind::Slice(
            pats,
        ) ==> (
            forall|i: int| 0 <= i < pats@.len() ==> parts(
                Part::PatKind(node),
            ).contains(Part::Pat(#[trigger] pats@[i]))
        ),
        node matches PatKind::Paren(pat) ==> parts(Part::PatKind(node)).contains(Part::Pat(*pat)),
        node matches PatKind::Mac(mac) ==> parts(Part::PatKind(node)).contains(Part::Mac(mac)),
{
    broadcast use group_contains;

    match node {
        PatKind::Struct(_, fields, _) => {
            assert forall|i: int| 0 <= i < fields@.len() implies field_pats_parts(fields@).contains(
                Part::FieldPat(#[trigger] fields@[i]),
            ) by {
                assert(field_pats_parts(fields@)[i] == Part::FieldPat(fields@[i]));
            }
        },
        PatKind::TupleStruct(_, pats) => {
            assert forall|i: int| 0 <= i < pats@.len() implies pats_parts(pats@).contains(
                Part::Pat(#[trigger] pats@[i]),
            ) by {
                assert(pats_parts(pats@)[i] == Part::Pat(pats@[i]));
            }
        },
        PatKind::Or(pats) => {
            assert forall|i: int| 0 <= i < pats@.len() implies pats_parts(pats@).contains(
                Part::Pat(#[trigger] pats@[i]),
            ) by {
                assert(pats_parts(pats@)[i] == Part::Pat(pats@[i]));
            }
        },
        PatKind::Tuple(pats) => {
            assert forall|i: int| 0 <= i < pats@.len() implies pats_parts(pats@).contains(
                Part::Pat(#[trigger] pats@[i]),
            ) by {
                assert(pats_parts(pats@)[i] == Part::Pat(pats@[i]));
            }
        },
        PatKind::Slice(pats) => {
            assert forall|i: int| 0 <= i < pats@.len() implies pats_parts(pats@).contains(
                Part::Pat(#[trigger] pats@[i]),
            ) by {
                assert(pats_parts(pats@)[i] == Part::Pat(pats@[i]));
            }
        },
        _ => {},
    }
}

/// The parts of the form of a pattern stand in the order of the text.
pub proof fn parts_of_pat_kind_stand_in_order(node: PatKind)
    ensures
        node matches PatKind::Struct(
            path,
            fields,
            _,
        ) ==> parts(
            Part::PatKind(node),
        ).len() == (
            fields@.len() as int
        ) + 1 && parts(
            Part::PatKind(node),
        )[0] == Part::Path(
            path,
        ) && (
            forall|i: int| 0 <= i < fields@.len() ==> parts(
                Part::PatKind(node),
            )[1 + i] == Part::FieldPat(#[trigger] fields@[i])
        ),
        node matches PatKind::TupleStruct(
            path,
            pats,
        ) ==> parts(
            Part::PatKind(node),
        ).len() == (
            pats@.len() as int
        ) + 1 && parts(
            Part::PatKind(node),
        )[0] == Part::Path(
            path,
        ) && (
            forall|i: int| 0 <= i < pats@.len() ==> parts(
                Part::PatKind(node),
            )[1 + i] == Part::Pat(#[trigger] pats@[i])
        ),
        node matches PatKind::Path(
            qself,
            path,
        ) ==> parts(
            Part::PatKind(node),
        ).len() == one_if(
            qself is Some,
        ) + 1 && (
            qself matches Some(x) ==> parts(Part::PatKind(node))[0] == Part::QSelf(x)
        ) && parts(Part::PatKind(node))[one_if(qself is Some)] == Part::Path(path),
        node matches PatKind::Range(
            left,
            right,
            _,
        ) ==> parts(
            Part::PatKind(node),
        ).len() == 2 && parts(
            Part::PatKind(node),
        )[0] == Part::Expr(*left) && parts(Part::PatKind(node))[1] == Part::Expr(*right),
{
}

/// What a pattern is made of, in the order of the text.
pub open spec fn parts_of_pat(node: Pat) -> Seq<Part> {
    seq![Part::PatKind(node.kind)]
}

/// Patterns as parts.
pub open spec fn pats_parts(list: Seq<Pat>) -> Seq<Part> {
    list.map_values(|x: Pat| Part::Pat(x))
}

/// A pattern as a part, where it is there.
pub open spec fn optional_pat_parts(node: Option<Box<Pat>>) -> Seq<Part> {
    match node {
        Some(x) => seq![Part::Pat(*x)],
        None => seq![],
    }
}

impl<
    S,
    F: Fn(&S, &str) -> (S, bool),
    G: Fn(&S, &Expr) -> (S, Expr),
    H: Fn(&S, &Mac) -> S,
> Rules<S, F, G, H> {
    /// Going through a pattern is going through what it is made of, part by part.
    pub proof fn goes_through_the_parts_of_pat(
        self,
        from: S,
        before: Pat,
        to: S,
        after: Pat,
    )
        requires
            self.visited_pat(from, before, to, after),
        ensures
            self.visited_parts(from, parts_of_pat(before), to, parts_of_pat(after)),
    {
        self.single_part(from, Part::PatKind(before.kind), to, Part::PatKind(after.kind));
    }

    /// A visitor whose calls can always be made can go through a pattern.
    pub(crate) proof fn total_goes_through_pat(self, node: Pat)
        requires
            self.is_total(),
        ensures
            self.can_visit_pat(node),
        decreases node,
    {
        self.total_goes_through_pat_kind(node.kind);
    }

    /// Going through a list of patterns is going through them one by one.
    pub(crate) proof fn pats_are_parts(
        self,
        from: S,
        before: Seq<Pat>,
        to: S,
        after: Seq<Pat>,
    )
        requires
            self.visited_pats(from, before, to, after),
        ensures
            self.visited_parts(from, pats_parts(before), to, pats_parts(after)),
        decreases before.len(),
    {
        if before.len() > 0 {
            let mid = choose|mid: S|
                {
                    &&& #[trigger] between(mid)
                    &&& self.visited_pats(from, before.drop_last(), mid, after.drop_last())
                    &&& self.visited_pat(mid, before.last(), to, after.last())
                };
            self.pats_are_parts(from, before.drop_last(), mid, after.drop_last());
            assert(pats_parts(before).drop_last() =~= pats_parts(before.drop_last()));
            assert(pats_parts(after).drop_last() =~= pats_parts(after.drop_last()));
        }
    }

    /// Going through what may be there is going through it as a part.
    pub(crate) proof fn optional_pat_is_part(
        self,
        from: S,
        before: Option<Box<Pat>>,
        to: S,
        after: Option<Box<Pat>>,
    )
        requires
            self.visited_optional_pat(from, before, to, after),
        ensures
            self.visited_parts(
                from,
                optional_pat_parts(before),
                to,
                optional_pat_parts(after),
            ),
    {
        if let (Some(x), Some(y)) = (before, after) {
            self.single_part(from, Part::Pat(*x), to, Part::Pat(*y));
        }
    }
}

/// What is visited in a pattern is what is visited in what it is made of, part by part.
pub proof fn visits_the_parts_of_pat(node: Pat)
    ensures
        nodes_in_pat(node) == nodes_in_parts(parts_of_pat(node)),
{
    nodes_in_one_part(Part::PatKind(node.kind));
}

/// What is visited in a list of patterns is what is visited in them one by one.
pub(crate) proof fn nodes_in_pats_parts(list: Seq<Pat>, count: int)
    requires
        0 <= count <= list.len(),
    ensures
        nodes_in_pats(list, count) == nodes_in_parts(pats_parts(list.take(count))),
    decreases count,
{
    if count > 0 {
        nodes_in_pats_parts(list, count - 1);
        assert(pats_parts(list.take(count)).drop_last() =~= pats_parts(list.take(count - 1)));
    }
}

/// Every node that a pattern holds in a field is a part of it.
pub proof fn fields_of_pat_are_parts(node: Pat)
    ensures
        parts(Part::Pat(node)).contains(Part::PatKind(node.kind)),
{
    broadcast use group_contains;

}

} // verus!
