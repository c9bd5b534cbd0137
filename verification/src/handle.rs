//! Handles on nodes, as scripts hold them.

use std::marker::PhantomData;

use vstd::prelude::*;

use crate::ast::expr::Expr;
use crate::walk::WalkAst;

verus! {

/// A place for a node, and how many handles lead to it.
struct Slot<T> {
    item: Option<T>,
    handles: usize,
}

/// The nodes that handles lead to.
///
/// A node stays in the table as long as there is a handle on it.
pub struct NodeTable<T> {
    slots: Vec<Slot<T>>,
}

/// A handle on a node. All handles on a node see the same node.
#[verifier::reject_recursive_types(T)]
pub struct LuaAstNode<T> {
    index: usize,
    node: PhantomData<T>,
}

impl<T> NodeTable<T> {
    /// The nodes in the table, by the places that handles lead to.
    pub closed spec fn nodes(self) -> Map<int, T> {
        Map::new(
            |place: int| 0 <= place < self.slots@.len() && self.slots@[place].item is Some,
            |place: int| self.slots@[place].item->0,
        )
    }

    /// How many handles lead to a place.
    pub closed spec fn handles(self, place: int) -> int {
        if 0 <= place < self.slots@.len() {
            self.slots@[place].handles as int
        } else {
            0
        }
    }

    /// The places that have ever been handed out are those below this one.
    pub closed spec fn next(self) -> int {
        self.slots@.len() as int
    }

    /// There is a node exactly where there is a handle.
    pub open spec fn wf(self) -> bool {
        &&& forall|place: int| #[trigger]
            self.nodes().contains_key(place) <==> self.handles(place) > 0
        &&& forall|place: int| self.handles(place) > 0 ==> 0 <= place < self.next()
    }

    /// The handle leads to a node of this table.
    pub open spec fn holds(self, handle: LuaAstNode<T>) -> bool {
        self.nodes().contains_key(handle.place())
    }

    /// The node that the handle leads to.
    pub open spec fn at(self, handle: LuaAstNode<T>) -> T {
        self.nodes()[handle.place()]
    }

    /// Both tables agree on every place but this one.
    pub open spec fn agrees_elsewhere(self, other: NodeTable<T>, place: int) -> bool {
        &&& forall|p: int|
            p != place ==> (#[trigger] self.nodes().contains_key(p)
                <==> other.nodes().contains_key(p))
        &&& forall|p: int| p != place ==> #[trigger] self.nodes()[p] == other.nodes()[p]
        &&& forall|p: int| p != place ==> #[trigger] self.handles(p) == other.handles(p)
    }

    /// A table without nodes.
    pub fn new() -> (table: NodeTable<T>)
        ensures
            table.wf(),
            table.nodes() == Map::<int, T>::empty(),
    {
        let table = NodeTable { slots: Vec::new() };
        assert(table.nodes() =~= Map::<int, T>::empty());
        table
    }
}

impl<T> LuaAstNode<T> {
    /// The place that the handle leads to.
    pub closed spec fn place(self) -> int {
        self.index as int
    }

    /// Puts a node in a place of its own and returns the only handle on it.
    pub fn new(item: T, table: &mut NodeTable<T>) -> (handle: LuaAstNode<T>)
        requires
            old(table).wf(),
        ensures
            final(table).wf(),
            !old(table).holds(handle),
            handle.place() == old(table).next(),
            final(table).next() == old(table).next() + 1,
            final(table).nodes() == old(table).nodes().insert(handle.place(), item),
            final(table).handles(handle.place()) == 1,
            final(table).agrees_elsewhere(*old(table), handle.place()),
    {
        let index: usize = table.slots.len();
        table.slots.push(Slot { item: Some(item), handles: 1 });
        let handle = LuaAstNode { index, node: PhantomData };
        proof {
            let before = *old(table);
            let after = *table;
            assert forall|p: int| p != index implies #[trigger] after.handles(p)
                == before.handles(p) by {}
            assert(after.nodes() =~= before.nodes().insert(index as int, item));
        }
        handle
    }

    /// How many handles there are on the node.
    pub fn handle_count(&self, table: &NodeTable<T>) -> (count: usize)
        requires
            table.holds(*self),
        ensures
            count == table.handles(self.place()),
    {
        table.slots[self.index].handles
    }

    /// Another handle on the same node.
    pub fn share(&self, table: &mut NodeTable<T>) -> (handle: LuaAstNode<T>)
        requires
            old(table).wf(),
            old(table).holds(*self),
            old(table).handles(self.place()) < usize::MAX,
        ensures
            final(table).wf(),
            handle == *self,
            final(table).nodes() == old(table).nodes(),
            final(table).handles(self.place()) == old(table).handles(self.place()) + 1,
            final(table).next() == old(table).next(),
            final(table).agrees_elsewhere(*old(table), self.place()),
    {
        let count: usize = table.slots[self.index].handles;
        table.slots[self.index].handles = count + 1;
        proof {
            lemma_only_counts_changed(*old(table), *table, self.place());
        }
        LuaAstNode { index: self.index, node: PhantomData }
    }

    /// The node, to be read.
    pub fn borrow<'a>(&self, table: &'a NodeTable<T>) -> (item: &'a T)
        requires
            table.holds(*self),
        ensures
            *item == table.at(*self),
    {
        match &table.slots[self.index].item {
            Some(item) => item,
            None => vstd::pervasive::unreached(),
        }
    }

    /// The node, to be changed.
    pub fn borrow_mut<'a>(&self, table: &'a mut NodeTable<T>) -> (item: &'a mut T)
        requires
            old(table).wf(),
            old(table).holds(*self),
        ensures
            *item == old(table).at(*self),
            final(table).wf(),
            final(table).nodes() == old(table).nodes().insert(self.place(), *final(item)),
            final(table).next() == old(table).next(),
            forall|p: int| #[trigger] final(table).handles(p) == old(table).handles(p),
    {
        let ghost after = *final(table);
        let item = match &mut table.slots[self.index].item {
            Some(item) => item,
            None => vstd::pervasive::unreached(),
        };
        proof {
            lemma_item_replaced(*old(table), after, self.place(), *final(item));
        }
        item
    }

    /// Lets `f` change the node.
    pub fn map<F: Fn(&mut T)>(&self, table: &mut NodeTable<T>, f: F)
        requires
            old(table).wf(),
            old(table).holds(*self),
            forall|item: &mut T|
                *item == old(table).at(*self) ==> #[trigger] call_requires(f, (item,)),
        ensures
            exists|item: &mut T|
                {
                    &&& *item == old(table).at(*self)
                    &&& #[trigger] call_ensures(f, (item,), ())
                    &&& final(table).nodes() == old(table).nodes().insert(
                        self.place(),
                        *final(item),
                    )
                },
            final(table).wf(),
            final(table).next() == old(table).next(),
            forall|p: int| #[trigger] final(table).handles(p) == old(table).handles(p),
    {
        f(self.borrow_mut(table));
    }

    /// Gives the handle up. The node goes with its last handle.
    pub fn release(self, table: &mut NodeTable<T>)
        requires
            old(table).wf(),
            old(table).holds(self),
        ensures
            final(table).wf(),
            final(table).handles(self.place()) == old(table).handles(self.place()) - 1,
            final(table).nodes() == (if old(table).handles(self.place()) == 1 {
                old(table).nodes().remove(self.place())
            } else {
                old(table).nodes()
            }),
            final(table).next() == old(table).next(),
            final(table).agrees_elsewhere(*old(table), self.place()),
    {
        let count: usize = table.slots[self.index].handles;
        table.slots[self.index].handles = count - 1;
        if count == 1 {
            table.slots[self.index].item = None;
            proof {
                lemma_removed(*old(table), *table, self.place());
            }
        } else {
            proof {
                lemma_only_counts_changed(*old(table), *table, self.place());
            }
        }
    }
}

impl<T: Clone> LuaAstNode<T> {
    /// Gives the handle up for the node: for the node itself where it is the last handle, for a
    /// copy where there are others.
    pub fn into_inner(self, table: &mut NodeTable<T>) -> (item: T)
        requires
            old(table).wf(),
            old(table).holds(self),
            old(table).handles(self.place()) > 1 ==> call_requires(
                T::clone,
                (&old(table).at(self),),
            ),
        ensures
            final(table).wf(),
            final(table).handles(self.place()) == old(table).handles(self.place()) - 1,
            if old(table).handles(self.place()) == 1 {
                &&& item == old(table).at(self)
                &&& final(table).nodes() == old(table).nodes().remove(self.place())
            } else {
                &&& call_ensures(T::clone, (&old(table).at(self),), item)
                &&& final(table).nodes() == old(table).nodes()
            },
            final(table).next() == old(table).next(),
            final(table).agrees_elsewhere(*old(table), self.place()),
    {
        let count: usize = table.slots[self.index].handles;
        table.slots[self.index].handles = count - 1;
        if count == 1 {
            let mut item: Option<T> = None;
            std::mem::swap(&mut item, &mut table.slots[self.index].item);
            proof {
                lemma_removed(*old(table), *table, self.place());
            }
            match item {
                Some(item) => item,
                None => vstd::pervasive::unreached(),
            }
        } else {
            proof {
                lemma_only_counts_changed(*old(table), *table, self.place());
            }
            self.borrow(table).clone()
        }
    }
}

impl<T> LuaAstNode<T> {
    /// Lets the visitor go through the node.
    pub fn walk<V>(&self, table: &mut NodeTable<T>, visitor: &mut V) where T: WalkAst<V>
        requires
            old(table).wf(),
            old(table).holds(*self),
            old(table).at(*self).can_walk(*old(visitor)),
        ensures
            old(table).at(*self).walked(
                *old(visitor),
                final(table).at(*self),
                *final(visitor),
            ),
            final(table).nodes() == old(table).nodes().insert(
                self.place(),
                final(table).at(*self),
            ),
            final(table).wf(),
            final(table).next() == old(table).next(),
            forall|p: int| #[trigger] final(table).handles(p) == old(table).handles(p),
    {
        self.borrow_mut(table).walk(visitor);
    }
}

/// What is written through one handle on a node is read through every handle on it.
pub proof fn write_is_seen_through_every_handle<T>(
    before: NodeTable<T>,
    after: NodeTable<T>,
    writer: LuaAstNode<T>,
    reader: LuaAstNode<T>,
    item: T,
)
    requires
        after.nodes() == before.nodes().insert(writer.place(), item),
        reader.place() == writer.place(),
    ensures
        after.holds(reader),
        after.at(reader) == item,
{
}

/// What is written through a handle changes no other node.
pub proof fn write_leaves_other_nodes<T>(
    before: NodeTable<T>,
    after: NodeTable<T>,
    writer: LuaAstNode<T>,
    reader: LuaAstNode<T>,
    item: T,
)
    requires
        after.nodes() == before.nodes().insert(writer.place(), item),
        reader.place() != writer.place(),
        before.holds(reader),
    ensures
        after.holds(reader),
        after.at(reader) == before.at(reader),
{
}

/// A new node is at a place to which no handle leads.
pub proof fn new_node_is_apart<T>(
    before: NodeTable<T>,
    handle: LuaAstNode<T>,
    earlier: LuaAstNode<T>,
)
    requires
        before.wf(),
        before.holds(earlier),
        handle.place() == before.next(),
    ensures
        handle.place() != earlier.place(),
{
}

/// A node stays as long as there is another handle on it.
pub proof fn node_outlives_all_but_its_last_handle<T>(
    before: NodeTable<T>,
    after: NodeTable<T>,
    handle: LuaAstNode<T>,
)
    requires
        before.wf(),
        after.wf(),
        after.handles(handle.place()) == before.handles(handle.place()) - 1,
    ensures
        before.handles(handle.place()) > 1 ==> after.holds(handle),
        before.handles(handle.place()) == 1 ==> !after.holds(handle),
{
}

/// Where two tables agree elsewhere, a node at another place is the same in both, and so is the
/// number of handles on it.
pub proof fn agreeing_tables_agree<T>(
    before: NodeTable<T>,
    after: NodeTable<T>,
    place: int,
    other: LuaAstNode<T>,
)
    requires
        after.agrees_elsewhere(before, place),
        other.place() != place,
    ensures
        after.holds(other) <==> before.holds(other),
        before.holds(other) ==> after.at(other) == before.at(other),
        after.handles(other.place()) == before.handles(other.place()),
{
}

/// There is a node at a place exactly where there is a handle on it.
pub proof fn nodes_are_where_handles_are<T>(table: NodeTable<T>, handle: LuaAstNode<T>)
    requires
        table.wf(),
    ensures
        table.holds(handle) <==> table.handles(handle.place()) > 0,
        table.holds(handle) ==> 0 <= handle.place() < table.next(),
        table.holds(handle) ==> table.at(handle) == table.nodes()[handle.place()],
{
}

/// Giving up a handle on an expression gives what the expression holds, whether it is the
/// expression itself or a copy.
pub proof fn handed_back_expression_is_the_same(
    before: NodeTable<Expr>,
    handle: LuaAstNode<Expr>,
    item: Expr,
)
    requires
        before.handles(handle.place()) == 1 ==> item == before.at(handle),
        before.handles(handle.place()) != 1 ==> call_ensures(
            Expr::clone,
            (&before.at(handle),),
            item,
        ),
    ensures
        before.at(handle).same(item),
{
    before.at(handle).same_as_itself();
}

/// Taking a node out with its last handle changes no other node.
proof fn lemma_removed<T>(before: NodeTable<T>, after: NodeTable<T>, place: int)
    requires
        before.wf(),
        before.nodes().contains_key(place),
        after.slots@ =~= before.slots@.update(place, Slot { item: None, handles: 0 }),
    ensures
        after.wf(),
        after.nodes() == before.nodes().remove(place),
        after.agrees_elsewhere(before, place),
{
    assert(after.nodes() =~= before.nodes().remove(place));
    assert forall|p: int| p != place implies #[trigger] after.handles(p) == before.handles(p) by {}
}

/// Changing how many handles lead to a node changes no node.
proof fn lemma_only_counts_changed<T>(before: NodeTable<T>, after: NodeTable<T>, place: int)
    requires
        before.wf(),
        before.nodes().contains_key(place),
        after.slots@.len() == before.slots@.len(),
        forall|p: int|
            0 <= p < before.slots@.len() && p != place ==> #[trigger] after.slots@[p]
                == before.slots@[p],
        after.slots@[place].item == before.slots@[place].item,
        after.slots@[place].handles > 0,
    ensures
        after.wf(),
        after.nodes() == before.nodes(),
        after.agrees_elsewhere(before, place),
{
    assert(after.nodes() =~= before.nodes());
    assert forall|p: int| p != place implies #[trigger] after.handles(p) == before.handles(p) by {}
}

/// Replacing a node changes no other node and no number of handles.
proof fn lemma_item_replaced<T>(before: NodeTable<T>, after: NodeTable<T>, place: int, item: T)
    requires
        before.wf(),
        before.nodes().contains_key(place),
        after.slots@ == before.slots@.update(
            place,
            Slot { item: Some(item), ..before.slots@[place] },
        ),
    ensures
        after.wf(),
        after.nodes() == before.nodes().insert(place, item),
        forall|p: int| #[trigger] after.handles(p) == before.handles(p),
{
    assert(after.nodes() =~= before.nodes().insert(place, item));
    assert forall|p: int| #[trigger] after.handles(p) == before.handles(p) by {}
}

} // verus!
