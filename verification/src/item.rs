//! The output data model: items, edges, and the graph accumulator.

use vstd::prelude::*;

use crate::kind::ItemKind;

verus! {

/// The stable identifier of an item: the zero-based position of its
/// compilation unit in file order, and the zero-based pre-order position
/// of its entry within that unit's depth-first traversal, counting from
/// (and excluding) the unit's own root entry.
#[derive(Clone, Copy, Debug, PartialEq, Eq, Hash, Structural)]
pub struct ItemId {
    pub unit_index: usize,
    pub entry_index: usize,
}

/// The mathematical value of an item.
pub ghost struct ItemView {
    pub id: ItemId,
    pub name: Seq<char>,
    pub size: u64,
    pub kind: ItemKind,
}

/// One classified, named and sized node of the output graph. Created once
/// and immutable afterwards.
#[derive(Debug, PartialEq, Eq)]
pub struct Item {
    pub id: ItemId,
    pub name: String,
    pub size: u64,
    pub kind: ItemKind,
}

impl View for Item {
    type V = ItemView;

    open spec fn view(&self) -> ItemView {
        ItemView { id: self.id, name: self.name@, size: self.size, kind: self.kind }
    }
}

impl DeepView for Item {
    type V = ItemView;

    open spec fn deep_view(&self) -> ItemView {
        self.view()
    }
}

impl Item {
    /// Assemble an item.
    pub fn new(id: ItemId, name: String, size: u64, kind: ItemKind) -> (r: Item)
        ensures
            r@ == (ItemView { id, name: name@, size, kind }),
    {
        Item { id, name, size, kind }
    }
}

/// The relation an edge asserts between two items.
#[derive(Clone, Copy, Debug, PartialEq, Eq, Structural)]
pub enum EdgeKind {
    /// The source depends on the target.
    Dependency,
    /// The source contains the target.
    Containment,
}

/// A dependency or containment relation between two items. The data model
/// declares edges, but producing them belongs to a later cross-reference
/// pass; this library's traversal emits none.
#[derive(Clone, Copy, Debug, PartialEq, Eq, Structural)]
pub struct Edge {
    pub from: ItemId,
    pub to: ItemId,
    pub kind: EdgeKind,
}

/// The graph accumulator. It exclusively owns the growing collections of
/// items and edges, and exposes nothing but append operations to the
/// traversal, preserving the single-writer discipline.
pub struct ItemsBuilder {
    items: Vec<Item>,
    edges: Vec<Edge>,
}

impl ItemsBuilder {
    /// The items accumulated so far, in append order.
    pub closed spec fn items_seq(&self) -> Seq<ItemView> {
        self.items.deep_view()
    }

    /// The edges accumulated so far, in append order.
    pub closed spec fn edges_seq(&self) -> Seq<Edge> {
        self.edges@
    }

    /// An empty accumulator.
    pub fn new() -> (r: ItemsBuilder)
        ensures
            r.items_seq() == Seq::<ItemView>::empty(),
            r.edges_seq() == Seq::<Edge>::empty(),
    {
        let r = ItemsBuilder { items: Vec::new(), edges: Vec::new() };
        proof {
            assert(r.items_seq() =~= Seq::<ItemView>::empty());
        }
        r
    }

    /// Append one item. Nothing is deduplicated: the identifier scheme
    /// already guarantees collision freedom.
    pub fn add_item(&mut self, item: Item)
        ensures
            final (self).items_seq() == old(self).items_seq().push(item@),
            final (self).edges_seq() == old(self).edges_seq(),
    {
        let ghost pre = self.items.deep_view();
        self.items.push(item);
        proof {
            assert(self.items.deep_view() =~= pre.push(item@));
        }
    }

    /// Append every item of `batch`, in order. This is the merge step of a
    /// per-unit traversal: a unit's privately accumulated items enter the
    /// shared graph at once.
    pub fn add_items(&mut self, batch: Vec<Item>)
        ensures
            final (self).items_seq() == old(self).items_seq() + batch.deep_view(),
            final (self).edges_seq() == old(self).edges_seq(),
    {
        let ghost pre = self.items.deep_view();
        let ghost all = batch.deep_view();
        let mut batch = batch;
        self.items.append(&mut batch);
        proof {
            assert(self.items.deep_view() =~= pre + all);
        }
    }

    /// Append one edge. Declared for the later cross-reference pass; the
    /// traversal in this library never calls it.
    pub fn add_edge(&mut self, edge: Edge)
        ensures
            final (self).edges_seq() == old(self).edges_seq().push(edge),
            final (self).items_seq() == old(self).items_seq(),
    {
        self.edges.push(edge);
    }

    /// Read the accumulated items.
    pub fn items(&self) -> (r: &Vec<Item>)
        ensures
            r.deep_view() == self.items_seq(),
    {
        &self.items
    }

    /// Read the accumulated edges.
    pub fn edges(&self) -> (r: &Vec<Edge>)
        ensures
            r@ == self.edges_seq(),
    {
        &self.edges
    }

    /// Hand the accumulated collections to the caller.
    pub fn finish(self) -> (r: (Vec<Item>, Vec<Edge>))
        ensures
            r.0.deep_view() == self.items_seq(),
            r.1@ == self.edges_seq(),
    {
        (self.items, self.edges)
    }
}

} // verus!
