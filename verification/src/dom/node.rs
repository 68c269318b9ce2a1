//! Nodes and the tree that they form.

use std::collections::VecDeque;
use vstd::prelude::*;

use crate::dom::document::{Document, DocumentImpl};
use crate::dom::element::{Element, ElementImpl};
use crate::dom::event_target::EventTarget;
use crate::dom::object::{Heap, HeapError, HostData, ObjectView, Object};

verus! {

/// <https://dom.spec.whatwg.org/#node>
#[derive(Clone, Copy, Debug)]
pub struct Node(pub Object);

impl Node {
    /// The identity of the node object.
    pub open spec fn id(&self) -> int {
        self.0.id()
    }
}

/// Implementation of actual `Node` object. It also contains data of types that inherit from `Node`
/// like `Document`, `Element`, `Attr`... etc. So it can also present as these types.
#[derive(Debug)]
pub struct NodeImpl {
    /// The event target that the node is.
    pub event_target: EventTarget,
    /// The parent.
    pub parent_node: Option<Node>,
    /// The children, first to last.
    pub child_nodes: VecDeque<Node>,
    /// The sibling before this node.
    pub previous_sibling: Option<Node>,
    /// The sibling after this node.
    pub next_sibling: Option<Node>,
    /// The node document.
    pub node_document: Option<Document>,
    /// The data of the kind of node.
    pub data: NodeTypeData,
}

/// What a `NodeImpl` is in contracts: its links as identities of objects,
/// and its data.
pub struct NodeView {
    /// The parent.
    pub parent: Option<int>,
    /// The children, first to last.
    pub children: Seq<int>,
    /// The sibling before this node.
    pub previous: Option<int>,
    /// The sibling after this node.
    pub next: Option<int>,
    /// The node document.
    pub document: Option<int>,
    /// The data of the kind of node.
    pub data: NodeTypeData,
}

impl View for NodeImpl {
    type V = NodeView;

    open spec fn view(&self) -> NodeView {
        NodeView {
            parent: match self.parent_node {
                Some(n) => Some(n.id()),
                None => None,
            },
            children: self.child_nodes@.map_values(|n: Node| n.id()),
            previous: match self.previous_sibling {
                Some(n) => Some(n.id()),
                None => None,
            },
            next: match self.next_sibling {
                Some(n) => Some(n.id()),
                None => None,
            },
            document: match self.node_document {
                Some(d) => Some(d.id()),
                None => None,
            },
            data: self.data,
        }
    }
}

/// The identity behind an optional node handle.
pub open spec fn node_option_id(node: Option<Node>) -> Option<int> {
    match node {
        Some(n) => Some(n.id()),
        None => None,
    }
}

/// The identity behind an optional document handle.
pub open spec fn document_option_id(document: Option<Document>) -> Option<int> {
    match document {
        Some(d) => Some(d.id()),
        None => None,
    }
}

/// Whether the object `id` of the heap `h` is a node.
pub open spec fn is_node(h: Map<int, ObjectView>, id: int) -> bool {
    h.contains_key(id) && h[id] is Node
}

/// The node that the object `id` of the heap `h` holds.
pub open spec fn node_of(h: Map<int, ObjectView>, id: int) -> NodeView {
    h[id]->Node_0
}

/// The heap `h` with `next` as the next sibling of the node `id`.
pub open spec fn with_next(h: Map<int, ObjectView>, id: int, next: Option<int>) -> Map<
    int,
    ObjectView,
> {
    h.insert(id, ObjectView::Node(NodeView { next, ..node_of(h, id) }))
}

/// The heap `h` with `previous` as the previous sibling of the node `id`.
pub open spec fn with_previous(h: Map<int, ObjectView>, id: int, previous: Option<int>) -> Map<
    int,
    ObjectView,
> {
    h.insert(id, ObjectView::Node(NodeView { previous, ..node_of(h, id) }))
}

/// The heap `h` with `document` as the node document of the node `id`.
pub open spec fn with_document(h: Map<int, ObjectView>, id: int, document: Option<int>) -> Map<
    int,
    ObjectView,
> {
    h.insert(id, ObjectView::Node(NodeView { document, ..node_of(h, id) }))
}

/// The heap `h` with `children` as the children of the node `id`.
pub open spec fn with_children(h: Map<int, ObjectView>, id: int, children: Seq<int>) -> Map<
    int,
    ObjectView,
> {
    h.insert(id, ObjectView::Node(NodeView { children, ..node_of(h, id) }))
}

/// The heap `h` after `node` was adopted into `document`: the node document
/// of `node` is `document`, and a heap that had it so is unchanged.
pub open spec fn adopted(h: Map<int, ObjectView>, node: int, document: Option<int>) -> Map<
    int,
    ObjectView,
> {
    if node_of(h, node).document == document {
        h
    } else {
        with_document(h, node, document)
    }
}

/// The heap `h` after `node` was appended to the children of `parent`: the
/// last child of `parent`, if there is one, and `node` point at each other,
/// and `node` is the new last child.
pub open spec fn appended(h: Map<int, ObjectView>, parent: int, node: int) -> Map<int, ObjectView> {
    let children = node_of(h, parent).children;
    let linked = if children.len() > 0 {
        with_previous(with_next(h, children.last(), Some(node)), node, Some(children.last()))
    } else {
        h
    };
    with_children(linked, parent, children.push(node))
}

/// The heap `h` after `node` was inserted at `index` into the children of
/// `parent`: the child before that place, if there is one, and `node` point
/// at each other, then `node` and the child at that place, if there is one,
/// and `node` is the child at `index`.
pub open spec fn inserted_at(h: Map<int, ObjectView>, parent: int, index: int, node: int) -> Map<
    int,
    ObjectView,
> {
    let children = node_of(h, parent).children;
    let before = if index > 0 {
        with_previous(with_next(h, children[index - 1], Some(node)), node, Some(children[index - 1]))
    } else {
        h
    };
    let after = if index < children.len() {
        with_previous(with_next(before, node, Some(children[index])), children[index], Some(node))
    } else {
        before
    };
    with_children(after, parent, children.insert(index, node))
}

/// How many children stand before the first occurrence of `id` in
/// `children`; the number of children where `id` is none of them.
pub open spec fn position(children: Seq<int>, id: int) -> int
    decreases children.len(),
{
    if children.len() > 0 && children[0] != id {
        1 + position(children.drop_first(), id)
    } else {
        0
    }
}

/// The heap `h` after `node` was inserted into `parent` before `child`:
/// `node` is adopted into the node document of `parent`, then appended where
/// there is no `child`, and inserted at the place of `child` where `child` is
/// a child of `parent`. Where it is none, the adoption is all that happens.
pub open spec fn inserted(h: Map<int, ObjectView>, parent: int, node: int, child: Option<int>) -> Map<
    int,
    ObjectView,
> {
    let adopted = adopted(h, node, node_of(h, parent).document);
    match child {
        None => appended(adopted, parent, node),
        Some(c) => {
            let index = position(node_of(adopted, parent).children, c);
            if index < node_of(adopted, parent).children.len() {
                inserted_at(adopted, parent, index, node)
            } else {
                adopted
            }
        },
    }
}

/// Whether `child` is given and is no child of `parent` in the heap `h`.
pub open spec fn is_missing_child(h: Map<int, ObjectView>, parent: int, child: Option<int>) -> bool {
    match child {
        None => false,
        Some(c) => !node_of(h, parent).children.contains(c),
    }
}

/// The child before which `pre_insert` inserts: `child`, but the next
/// sibling of `node` where `child` is `node` itself.
pub open spec fn reference_child(h: Map<int, ObjectView>, node: int, child: Option<int>) -> Option<
    int,
> {
    if child == Some(node) {
        node_of(h, node).next
    } else {
        child
    }
}

/// Whether every handle that a node of the heap `h` holds refers to a node
/// of `h`.
pub open spec fn links_closed(h: Map<int, ObjectView>) -> bool {
    forall|id: int| #[trigger] is_node(h, id) ==> links_within(h, node_of(h, id))
}

/// Whether every handle that the node `n` holds refers to a node of `h`.
pub open spec fn links_within(h: Map<int, ObjectView>, n: NodeView) -> bool {
    &&& n.parent is Some ==> is_node(h, n.parent.unwrap())
    &&& n.previous is Some ==> is_node(h, n.previous.unwrap())
    &&& n.next is Some ==> is_node(h, n.next.unwrap())
    &&& n.document is Some ==> is_node(h, n.document.unwrap())
    &&& forall|i: int| 0 <= i < n.children.len() ==> is_node(h, #[trigger] n.children[i])
}

/// A heap whose handles all refer to its nodes stays so when one of its
/// nodes is replaced by a node whose handles refer to its nodes.
pub proof fn lemma_links_closed_replace(h: Map<int, ObjectView>, id: int, n: NodeView)
    requires
        links_closed(h),
        is_node(h, id),
        links_within(h, n),
    ensures
        links_closed(h.insert(id, ObjectView::Node(n))),
        forall|x: int| is_node(h, x) <==> is_node(h.insert(id, ObjectView::Node(n)), x),
{
    let g = h.insert(id, ObjectView::Node(n));
    assert forall|x: int| is_node(h, x) <==> is_node(g, x) by {}
    assert forall|x: int| #[trigger] is_node(g, x) implies links_within(g, node_of(g, x)) by {
        assert(is_node(h, x));
        if x == id {
            assert(node_of(g, x) == n);
        } else {
            assert(node_of(g, x) == node_of(h, x));
        }
        let m = node_of(g, x);
        assert(links_within(h, m));
        assert forall|i: int| 0 <= i < m.children.len() implies is_node(
            g,
            #[trigger] m.children[i],
        ) by {
            assert(is_node(h, m.children[i]));
        }
    }
}

/// A heap with one more object, a node whose handles refer to nodes of the
/// heap or to itself, keeps its handles within its nodes.
pub proof fn lemma_links_closed_add(h: Map<int, ObjectView>, id: int, n: NodeView)
    requires
        links_closed(h),
        !h.contains_key(id),
        links_within(h.insert(id, ObjectView::Node(n)), n),
    ensures
        links_closed(h.insert(id, ObjectView::Node(n))),
{
    let g = h.insert(id, ObjectView::Node(n));
    assert forall|x: int| #[trigger] is_node(g, x) implies links_within(g, node_of(g, x)) by {
        if x != id {
            assert(is_node(h, x));
            let m = node_of(h, x);
            assert(node_of(g, x) == m);
            assert(links_within(h, m));
            assert forall|i: int| 0 <= i < m.children.len() implies is_node(
                g,
                #[trigger] m.children[i],
            ) by {
                assert(is_node(h, m.children[i]));
            }
        }
    }
}

/// Whether the node `p` of the heap `h` has a child at place `i`.
pub open spec fn has_child(h: Map<int, ObjectView>, p: int, i: int) -> bool {
    is_node(h, p) && 0 <= i < node_of(h, p).children.len()
}

/// The child at place `i` of the node `p` of the heap `h`.
pub open spec fn child_at(h: Map<int, ObjectView>, p: int, i: int) -> int {
    node_of(h, p).children[i]
}

/// Whether the child at place `i` of the node `p` is a node that points at
/// the children beside it: its previous sibling is the child before it, its
/// next sibling the child after it, and it has none where no child stands.
pub open spec fn child_linked(h: Map<int, ObjectView>, p: int, i: int) -> bool {
    let children = node_of(h, p).children;
    let c = children[i];
    &&& is_node(h, c)
    &&& node_of(h, c).previous == (if i > 0 {
        Some(children[i - 1])
    } else {
        None
    })
    &&& node_of(h, c).next == (if i + 1 < children.len() {
        Some(children[i + 1])
    } else {
        None
    })
}

/// Whether the sibling pointers of the heap `h` agree with its child
/// sequences: every child points at the children beside it, and no node stands
/// at two places.
pub open spec fn siblings_linked(h: Map<int, ObjectView>) -> bool {
    &&& forall|p: int, i: int| #[trigger] has_child(h, p, i) ==> child_linked(h, p, i)
    &&& forall|p: int, i: int, q: int, j: int|
        #[trigger] has_child(h, p, i) && #[trigger] has_child(h, q, j) && child_at(h, p, i)
            == child_at(h, q, j) ==> p == q && i == j
}

/// Whether `n` is a node of the heap `h` without siblings that is no child
/// of any node.
pub open spec fn detached(h: Map<int, ObjectView>, n: int) -> bool {
    &&& is_node(h, n)
    &&& node_of(h, n).previous is None
    &&& node_of(h, n).next is None
    &&& forall|p: int, i: int| #[trigger] has_child(h, p, i) ==> child_at(h, p, i) != n
}

/// Adopting a node changes no child sequence and no sibling pointer.
pub proof fn lemma_adopted_linked(h: Map<int, ObjectView>, node: int, document: Option<int>)
    requires
        is_node(h, node),
    ensures
        siblings_linked(h) ==> siblings_linked(adopted(h, node, document)),
        forall|n: int| detached(h, n) ==> detached(adopted(h, node, document), n),
        forall|x: int| is_node(h, x) <==> is_node(adopted(h, node, document), x),
        forall|x: int|
            is_node(h, x) ==> node_of(adopted(h, node, document), x).children == node_of(
                h,
                x,
            ).children,
{
    let g = adopted(h, node, document);
    assert forall|x: int| is_node(h, x) <==> is_node(g, x) by {}
    assert forall|p: int, i: int| has_child(g, p, i) <==> has_child(h, p, i) by {}
    assert forall|p: int, i: int| has_child(h, p, i) implies child_at(g, p, i) == child_at(
        h,
        p,
        i,
    ) by {}
    if siblings_linked(h) {
        assert forall|p: int, i: int| #[trigger] has_child(g, p, i) implies child_linked(
            g,
            p,
            i,
        ) by {
            assert(has_child(h, p, i));
            assert(child_linked(h, p, i));
        }
        assert forall|p: int, i: int, q: int, j: int|
            #[trigger] has_child(g, p, i) && #[trigger] has_child(g, q, j) && child_at(g, p, i)
                == child_at(g, q, j) implies p == q && i == j by {
            assert(has_child(h, p, i) && has_child(h, q, j));
        }
    }
    assert forall|n: int| detached(h, n) implies detached(g, n) by {
        assert forall|p: int, i: int| #[trigger] has_child(g, p, i) implies child_at(g, p, i)
            != n by {
            assert(has_child(h, p, i));
        }
    }
}

/// Appending a node that has no siblings and is no child of any node keeps
/// the sibling pointers in agreement with the child sequences.
pub proof fn lemma_appended_linked(h: Map<int, ObjectView>, parent: int, node: int)
    requires
        siblings_linked(h),
        is_node(h, parent),
        detached(h, node),
    ensures
        siblings_linked(appended(h, parent, node)),
{
    let children = node_of(h, parent).children;
    let len = children.len() as int;
    let g = appended(h, parent, node);
    if len > 0 {
        assert(has_child(h, parent, len - 1));
        assert(child_linked(h, parent, len - 1));
        assert(child_at(h, parent, len - 1) != node);
    }
    assert forall|x: int| is_node(h, x) <==> is_node(g, x) by {}
    assert forall|p: int, i: int| #[trigger] has_child(g, p, i) implies child_linked(g, p, i) by {
        if p == parent {
            if i < len {
                assert(has_child(h, p, i));
                assert(child_linked(h, p, i));
                assert(child_at(h, p, i) != node);
                if i < len - 1 {
                    assert(has_child(h, p, len - 1));
                    assert(child_at(h, p, i) != child_at(h, p, len - 1));
                }
            }
        } else {
            assert(has_child(h, p, i));
            assert(child_linked(h, p, i));
            assert(child_at(h, p, i) != node);
            if len > 0 {
                assert(has_child(h, parent, len - 1));
                assert(child_at(h, p, i) != child_at(h, parent, len - 1));
            }
        }
    }
    assert forall|p: int, i: int, q: int, j: int|
        #[trigger] has_child(g, p, i) && #[trigger] has_child(g, q, j) && child_at(g, p, i)
            == child_at(g, q, j) implies p == q && i == j by {
        let new_p = p == parent && i == len;
        let new_q = q == parent && j == len;
        if !new_p {
            assert(has_child(h, p, i));
            assert(child_at(g, p, i) == child_at(h, p, i));
        }
        if !new_q {
            assert(has_child(h, q, j));
            assert(child_at(g, q, j) == child_at(h, q, j));
        }
    }
}

/// Inserting a node that has no siblings and is no child of any node keeps
/// the sibling pointers in agreement with the child sequences.
pub proof fn lemma_inserted_at_linked(h: Map<int, ObjectView>, parent: int, index: int, node: int)
    requires
        siblings_linked(h),
        is_node(h, parent),
        detached(h, node),
        0 <= index <= node_of(h, parent).children.len(),
    ensures
        siblings_linked(inserted_at(h, parent, index, node)),
{
    let children = node_of(h, parent).children;
    let len = children.len() as int;
    let g = inserted_at(h, parent, index, node);
    let after = children.insert(index, node);
    if index > 0 {
        assert(has_child(h, parent, index - 1));
        assert(child_linked(h, parent, index - 1));
        assert(child_at(h, parent, index - 1) != node);
    }
    if index < len {
        assert(has_child(h, parent, index));
        assert(child_linked(h, parent, index));
        assert(child_at(h, parent, index) != node);
    }
    if 0 < index < len {
        assert(child_at(h, parent, index - 1) != child_at(h, parent, index));
    }
    assert forall|x: int| is_node(h, x) <==> is_node(g, x) by {}
    assert(node_of(g, parent).children == after);
    assert forall|p: int, i: int| #[trigger] has_child(g, p, i) implies child_linked(g, p, i) by {
        if p == parent {
            if i < index {
                assert(has_child(h, p, i));
                assert(child_linked(h, p, i));
                assert(child_at(h, p, i) != node);
                assert(after[i] == children[i]);
                if index < len {
                    assert(child_at(h, p, i) != child_at(h, parent, index));
                }
                if i < index - 1 {
                    assert(child_at(h, p, i) != child_at(h, parent, index - 1));
                    assert(after[i + 1] == children[i + 1]);
                }
            } else if i > index {
                assert(has_child(h, p, i - 1));
                assert(child_linked(h, p, i - 1));
                assert(child_at(h, p, i - 1) != node);
                assert(after[i] == children[i - 1]);
                if index > 0 {
                    assert(child_at(h, p, i - 1) != child_at(h, parent, index - 1));
                }
                if i > index + 1 {
                    assert(child_at(h, p, i - 1) != child_at(h, parent, index));
                    assert(after[i - 1] == children[i - 2]);
                }
                if i + 1 < after.len() {
                    assert(after[i + 1] == children[i]);
                }
            } else {
                assert(after[i] == node);
            }
        } else {
            assert(has_child(h, p, i));
            assert(child_linked(h, p, i));
            assert(child_at(h, p, i) != node);
            if index > 0 {
                assert(child_at(h, p, i) != child_at(h, parent, index - 1));
            }
            if index < len {
                assert(child_at(h, p, i) != child_at(h, parent, index));
            }
        }
    }
    assert forall|p: int, i: int, q: int, j: int|
        #[trigger] has_child(g, p, i) && #[trigger] has_child(g, q, j) && child_at(g, p, i)
            == child_at(g, q, j) implies p == q && i == j by {
        let pi = if p == parent && i > index {
            i - 1
        } else {
            i
        };
        let qj = if q == parent && j > index {
            j - 1
        } else {
            j
        };
        let new_p = p == parent && i == index;
        let new_q = q == parent && j == index;
        if !new_p {
            assert(has_child(h, p, pi));
            assert(child_at(g, p, i) == child_at(h, p, pi));
        }
        if !new_q {
            assert(has_child(h, q, qj));
            assert(child_at(g, q, j) == child_at(h, q, qj));
        }
    }
}

/// Inserting a node that has no siblings and is no child of any node keeps
/// the sibling pointers in agreement with the child sequences, wherever it is
/// inserted.
pub proof fn lemma_inserted_linked(
    h: Map<int, ObjectView>,
    parent: int,
    node: int,
    child: Option<int>,
)
    requires
        siblings_linked(h),
        is_node(h, parent),
        detached(h, node),
    ensures
        siblings_linked(inserted(h, parent, node, child)),
{
    let document = node_of(h, parent).document;
    let a = adopted(h, node, document);
    lemma_adopted_linked(h, node, document);
    match child {
        None => {
            lemma_appended_linked(a, parent, node);
        },
        Some(c) => {
            let index = position(node_of(a, parent).children, c);
            lemma_position_bounds(node_of(a, parent).children, c);
            if index < node_of(a, parent).children.len() {
                lemma_inserted_at_linked(a, parent, index, node);
            }
        },
    }
}

/// A node that has no siblings and is no child of any node has no next
/// sibling to insert before: `pre_insert` before the node itself appends it.
pub proof fn lemma_reference_child_of_detached(h: Map<int, ObjectView>, node: int)
    requires
        detached(h, node),
    ensures
        reference_child(h, node, Some(node)) is None,
{
}

/// Appending `b` and then `c` to a node `a` without children, where `b` and
/// `c` are two nodes without siblings, makes `b` and `c` the children of `a`
/// in that order, and they point at each other and at nothing else.
pub proof fn lemma_append_two(h: Map<int, ObjectView>, a: int, b: int, c: int)
    requires
        is_node(h, a),
        is_node(h, b),
        is_node(h, c),
        a != b,
        a != c,
        b != c,
        node_of(h, a).children.len() == 0,
        node_of(h, b).previous is None,
        node_of(h, b).next is None,
        node_of(h, c).previous is None,
        node_of(h, c).next is None,
    ensures
        ({
            let g = appended(appended(h, a, b), a, c);
            &&& node_of(g, a).children == seq![b, c]
            &&& node_of(g, b).previous is None
            &&& node_of(g, b).next == Some(c)
            &&& node_of(g, c).previous == Some(b)
            &&& node_of(g, c).next is None
        }),
{
    let g1 = appended(h, a, b);
    assert(node_of(g1, a).children =~= seq![b]);
    let g = appended(g1, a, c);
    assert(node_of(g, a).children =~= seq![b, c]);
}

/// Inserting a node `y` without siblings at place 1 of a node whose children
/// are `x` and `z` makes the children `x`, `y`, `z`, each pointing at the
/// children beside it.
pub proof fn lemma_insert_between(h: Map<int, ObjectView>, parent: int, x: int, y: int, z: int)
    requires
        siblings_linked(h),
        is_node(h, parent),
        node_of(h, parent).children == seq![x, z],
        detached(h, y),
    ensures
        ({
            let g = inserted_at(h, parent, 1, y);
            &&& node_of(g, parent).children == seq![x, y, z]
            &&& node_of(g, x).previous is None
            &&& node_of(g, x).next == Some(y)
            &&& node_of(g, y).previous == Some(x)
            &&& node_of(g, y).next == Some(z)
            &&& node_of(g, z).previous == Some(y)
            &&& node_of(g, z).next is None
        }),
{
    let g = inserted_at(h, parent, 1, y);
    assert(seq![x, z].insert(1, y) =~= seq![x, y, z]);
    lemma_inserted_at_linked(h, parent, 1, y);
    assert(node_of(g, parent).children == seq![x, y, z]);
    assert(is_node(g, parent));
    assert(node_of(g, parent).children.len() == 3);
    assert(has_child(g, parent, 0));
    assert(has_child(g, parent, 1));
    assert(has_child(g, parent, 2));
    assert(has_child(g, parent, 0) && child_linked(g, parent, 0));
    assert(has_child(g, parent, 1) && child_linked(g, parent, 1));
    assert(has_child(g, parent, 2) && child_linked(g, parent, 2));
}

/// Adopting a node into the document that it belongs to changes nothing, and
/// adopting it into a document a second time changes nothing more.
pub proof fn lemma_adopt_once(h: Map<int, ObjectView>, node: int, document: Option<int>)
    requires
        is_node(h, node),
    ensures
        adopted(h, node, node_of(h, node).document) == h,
        node_of(adopted(h, node, document), node).document == document,
        adopted(adopted(h, node, document), node, document) == adopted(h, node, document),
{
}

/// `position` lies between 0 and the number of children.
pub proof fn lemma_position_bounds(children: Seq<int>, id: int)
    ensures
        0 <= position(children, id) <= children.len(),
    decreases children.len(),
{
    if children.len() > 0 && children[0] != id {
        lemma_position_bounds(children.drop_first(), id);
    }
}

/// A node without parent, children, siblings and node document that holds
/// `data`.
pub open spec fn fresh_node(data: NodeTypeData) -> NodeView {
    NodeView {
        parent: None,
        children: Seq::empty(),
        previous: None,
        next: None,
        document: None,
        data,
    }
}

/// The heap `h` with one more object `id`: a node without parent, children,
/// siblings and node document that holds `data`.
pub open spec fn with_fresh(h: Map<int, ObjectView>, id: int, data: NodeTypeData) -> Map<
    int,
    ObjectView,
> {
    h.insert(id, ObjectView::Node(fresh_node(data)))
}

/// Whether the heap `g` has every object of the heap `h`, and each of them
/// as `h` has it.
pub open spec fn keeps(g: Map<int, ObjectView>, h: Map<int, ObjectView>) -> bool {
    forall|id: int| #[trigger] h.contains_key(id) ==> g.contains_key(id) && g[id] == h[id]
}

/// A new node without children and siblings leaves the sibling pointers of
/// a heap in agreement with its child sequences. It is no child of any node,
/// and the nodes that were no child of any node are none now.
pub proof fn lemma_new_node_linked(h: Map<int, ObjectView>, id: int, n: NodeView)
    requires
        links_closed(h),
        !h.contains_key(id),
        n.children.len() == 0,
        n.previous is None,
        n.next is None,
    ensures
        siblings_linked(h) ==> siblings_linked(h.insert(id, ObjectView::Node(n))),
        detached(h.insert(id, ObjectView::Node(n)), id),
        forall|x: int| detached(h, x) ==> detached(h.insert(id, ObjectView::Node(n)), x),
{
    let g = h.insert(id, ObjectView::Node(n));
    assert forall|p: int, i: int| #[trigger] has_child(g, p, i) implies has_child(h, p, i)
        && child_at(g, p, i) == child_at(h, p, i) && child_at(h, p, i) != id by {
        assert(p != id);
        assert(is_node(h, p));
        assert(links_within(h, node_of(h, p)));
        assert(is_node(h, node_of(h, p).children[i]));
    }
    if siblings_linked(h) {
        assert forall|p: int, i: int| #[trigger] has_child(g, p, i) implies child_linked(
            g,
            p,
            i,
        ) by {
            assert(has_child(h, p, i));
            assert(child_linked(h, p, i));
        }
        assert forall|p: int, i: int, q: int, j: int|
            #[trigger] has_child(g, p, i) && #[trigger] has_child(g, q, j) && child_at(g, p, i)
                == child_at(g, q, j) implies p == q && i == j by {
            assert(has_child(h, p, i) && has_child(h, q, j));
        }
    }
    assert forall|x: int| detached(h, x) implies detached(g, x) by {
        assert forall|p: int, i: int| #[trigger] has_child(g, p, i) implies child_at(g, p, i)
            != x by {
            assert(has_child(h, p, i));
        }
    }
}

/// A new window leaves the nodes of a heap as they are.
pub proof fn lemma_new_window_linked(h: Map<int, ObjectView>, id: int)
    requires
        !h.contains_key(id),
    ensures
        links_closed(h) ==> links_closed(h.insert(id, ObjectView::Window)),
        siblings_linked(h) ==> siblings_linked(h.insert(id, ObjectView::Window)),
        forall|x: int| detached(h, x) ==> detached(h.insert(id, ObjectView::Window), x),
{
    let g = h.insert(id, ObjectView::Window);
    assert forall|x: int| is_node(g, x) <==> is_node(h, x) by {}
    assert forall|p: int, i: int| has_child(g, p, i) <==> has_child(h, p, i) by {}
    if links_closed(h) {
        assert forall|x: int| #[trigger] is_node(g, x) implies links_within(g, node_of(g, x)) by {
            assert(is_node(h, x));
            let m = node_of(h, x);
            assert(links_within(h, m));
            assert forall|i: int| 0 <= i < m.children.len() implies is_node(
                g,
                #[trigger] m.children[i],
            ) by {
                assert(is_node(h, m.children[i]));
            }
        }
    }
    if siblings_linked(h) {
        assert forall|p: int, i: int| #[trigger] has_child(g, p, i) implies child_linked(
            g,
            p,
            i,
        ) by {
            assert(has_child(h, p, i));
            assert(child_linked(h, p, i));
        }
        assert forall|p: int, i: int, q: int, j: int|
            #[trigger] has_child(g, p, i) && #[trigger] has_child(g, q, j) && child_at(g, p, i)
                == child_at(g, q, j) implies p == q && i == j by {
            assert(has_child(h, p, i) && has_child(h, q, j));
        }
    }
    assert forall|x: int| detached(h, x) implies detached(g, x) by {
        assert forall|p: int, i: int| #[trigger] has_child(g, p, i) implies child_at(g, p, i)
            != x by {
            assert(has_child(h, p, i));
        }
    }
}

/// Inserting a node leaves every other node that has no siblings and is no
/// child of any node as it is.
pub proof fn lemma_inserted_keeps_detached(
    h: Map<int, ObjectView>,
    parent: int,
    node: int,
    child: Option<int>,
    other: int,
)
    requires
        is_node(h, parent),
        is_node(h, node),
        child is None,
        links_closed(h),
        detached(h, other),
        other != node,
    ensures
        detached(inserted(h, parent, node, child), other),
{
    let document = node_of(h, parent).document;
    let a = adopted(h, node, document);
    lemma_adopted_linked(h, node, document);
    let g = inserted(h, parent, node, child);
    let children = node_of(a, parent).children;
    assert(links_within(h, node_of(h, parent)));
    if children.len() > 0 {
        assert(is_node(h, children.last()));
        assert(is_node(a, children.last()));
    }
    assert forall|x: int| is_node(a, x) <==> is_node(g, x) by {}
    if children.len() > 0 {
        assert(has_child(a, parent, children.len() - 1));
        assert(child_at(a, parent, children.len() - 1) != other);
    }
    assert forall|p: int, i: int| #[trigger]
        has_child(g, p, i) implies child_at(g, p, i)
        != other by {
        if p == parent && i == children.len() {
        } else {
            assert(has_child(a, p, i));
            assert(child_at(g, p, i) == child_at(a, p, i));
        }
    }
}

/// Inserting a node changes the data of no node.
pub proof fn lemma_inserted_keeps_data(
    h: Map<int, ObjectView>,
    parent: int,
    node: int,
    child: Option<int>,
)
    requires
        is_node(h, parent),
        is_node(h, node),
        links_closed(h),
        child is None,
    ensures
        forall|x: int| #[trigger]
            is_node(h, x) ==> node_of(inserted(h, parent, node, child), x).data == node_of(
                h,
                x,
            ).data,
        forall|x: int|
            is_node(h, x) <==> is_node(
                inserted(h, parent, node, child),
                x,
            ),
{
    let document = node_of(h, parent).document;
    let a = adopted(h, node, document);
    let children = node_of(a, parent).children;
    assert(links_within(h, node_of(h, parent)));
    if children.len() > 0 {
        assert(is_node(h, children.last()));
    }
}

/// Replacing the data of a node changes no child sequence and no sibling
/// pointer.
pub proof fn lemma_replace_data_linked(h: Map<int, ObjectView>, id: int, data: NodeTypeData)
    requires
        is_node(h, id),
    ensures
        siblings_linked(h) ==> siblings_linked(
            h.insert(
                id,
                ObjectView::Node(NodeView { data, ..node_of(h, id) }),
            ),
        ),
{
    let g = h.insert(id, ObjectView::Node(NodeView { data, ..node_of(h, id) }));
    assert forall|x: int| is_node(h, x) <==> is_node(g, x) by {}
    assert forall|p: int, i: int|
        has_child(g, p, i) <==> has_child(h, p, i) by {}
    if siblings_linked(h) {
        assert forall|p: int, i: int| #[trigger]
            has_child(g, p, i) implies child_linked(
            g,
            p,
            i,
        ) by {
            assert(has_child(h, p, i));
            assert(child_linked(h, p, i));
        }
        assert forall|p: int, i: int, q: int, j: int|
            #[trigger] has_child(g, p, i) && #[trigger] has_child(
                g,
                q,
                j,
            ) && child_at(g, p, i) == child_at(g, q, j) implies p
            == q && i == j by {
            assert(has_child(h, p, i) && has_child(h, q, j));
        }
    }
}

/// `position` is the first place at which `id` stands.
pub proof fn lemma_position(children: Seq<int>, id: int, index: int)
    requires
        0 <= index <= children.len(),
        forall|j: int| 0 <= j < index ==> children[j] != id,
        index < children.len() ==> children[index] == id,
    ensures
        position(children, id) == index,
        index < children.len() <==> children.contains(id),
    decreases index,
{
    if index > 0 {
        let rest = children.drop_first();
        assert forall|j: int| 0 <= j < index - 1 implies rest[j] != id by {
            assert(rest[j] == children[j + 1]);
        }
        lemma_position(rest, id, index - 1);
    }
    if index < children.len() {
        assert(children[index] == id);
    }
}

impl Heap {
    /// Whether the object `id` of the heap is a node.
    pub open spec fn has_node(&self, id: int) -> bool {
        is_node(self@, id)
    }

    /// The node that the object `id` of the heap holds.
    pub open spec fn node(&self, id: int) -> NodeView {
        node_of(self@, id)
    }

    /// Whether every handle that a node of the heap holds refers to a node of
    /// the heap.
    pub open spec fn well_formed(&self) -> bool {
        links_closed(self@)
    }
}

impl From<Document> for Node {
    fn from(value: Document) -> (r: Node) {
        Node(value.0)
    }
}

impl vstd::std_specs::convert::FromSpecImpl<Document> for Node {
    open spec fn obeys_from_spec() -> bool {
        true
    }

    /// A document is the node with the same object.
    open spec fn from_spec(value: Document) -> Node {
        Node(value.0)
    }
}

impl From<Element> for Node {
    fn from(value: Element) -> (r: Node) {
        Node(value.0)
    }
}

impl vstd::std_specs::convert::FromSpecImpl<Element> for Node {
    open spec fn obeys_from_spec() -> bool {
        true
    }

    /// An element is the node with the same object.
    open spec fn from_spec(value: Element) -> Node {
        Node(value.0)
    }
}

impl Node {
    /// The data of the node, or the error that says that the object holds no
    /// node.
    pub fn try_data<'a>(&self, heap: &'a Heap) -> (r: Result<&'a NodeImpl, HeapError>)
        requires
            heap.contains(self.0),
        ensures
            match r {
                Ok(node) => heap.has_node(self.id()) && node@ == heap.node(self.id())
                    && heap.data()[self.id()] == HostData::Node(*node),
                Err(e) => !heap.has_node(self.id()) && e == HeapError::TypeMismatch,
            },
    {
        match self.0.data(heap) {
            HostData::Node(node) => Ok(node),
            HostData::Window(_) => Err(HeapError::TypeMismatch),
        }
    }

    /// The data of the node.
    pub fn data<'a>(&self, heap: &'a Heap) -> (r: &'a NodeImpl)
        requires
            heap.has_node(self.id()),
        ensures
            r@ == heap.node(self.id()),
            heap.data()[self.id()] == HostData::Node(*r),
    {
        match self.0.data(heap) {
            HostData::Node(node) => node,
            HostData::Window(_) => {
                proof {
                    assert(false);
                }
                vstd::pervasive::unreached()
            },
        }
    }

    /// The data of the node, to be written in place. What is written is what
    /// the node holds afterwards; no other object changes.
    pub fn data_mut<'a>(&self, heap: &'a mut Heap) -> (r: &'a mut NodeImpl)
        requires
            old(heap).has_node(self.id()),
        ensures
            r@ == old(heap).node(self.id()),
            old(heap).data()[self.id()] == HostData::Node(*r),
            final(heap).data() == old(heap).data().insert(self.id(), HostData::Node(*final(r))),
            final(heap)@ == old(heap)@.insert(self.id(), ObjectView::Node(final(r)@)),
    {
        let data = self.0.data_mut(heap);
        match data {
            HostData::Node(node) => {
                proof {
                    assert(old(heap).data().insert(
                        self.id(),
                        HostData::Node(*final(node)),
                    ).map_values(|data: HostData| data@) =~= old(heap)@.insert(
                        self.id(),
                        ObjectView::Node(final(node)@),
                    ));
                }
                node
            },
            HostData::Window(_) => {
                proof {
                    assert(false);
                }
                vstd::pervasive::unreached()
            },
        }
    }
}

/// What can go wrong when the tree is changed.
#[derive(Clone, Copy, Debug, PartialEq, Eq, Structural)]
pub enum NodeError {
    /// The node before which to insert is no child of the parent.
    NotAChild,
}

impl Node {
    /// Makes a node that holds `data`: a new object of the heap without
    /// parent, children, siblings and node document. On failure the heap is as
    /// it was.
    pub fn new(data: NodeTypeData, heap: &mut Heap) -> (r: Result<Node, HeapError>)
        requires
            old(heap).well_formed(),
        ensures
            final(heap).well_formed(),
            siblings_linked(old(heap)@) ==> siblings_linked(final(heap)@),
            forall|x: int| detached(old(heap)@, x) ==> detached(final(heap)@, x),
            match r {
                Ok(node) => {
                    &&& !old(heap)@.contains_key(node.id())
                    &&& final(heap)@ == with_fresh(old(heap)@, node.id(), data)
                    &&& detached(final(heap)@, node.id())
                },
                Err(e) => final(heap)@ == old(heap)@ && (e == HeapError::OutOfMemory || e
                    == HeapError::Allocation),
            },
    {
        let node = NodeImpl::new_with_type(data);
        match Object::new(heap, HostData::Node(node)) {
            Ok(object) => {
                proof {
                    assert(final(heap)@ =~= with_fresh(old(heap)@, object.id(), data));
                    lemma_links_closed_add(old(heap)@, object.id(), node@);
                    lemma_new_node_linked(old(heap)@, object.id(), node@);
                }
                Ok(Node(object))
            },
            Err(e) => {
                proof {
                    assert(final(heap)@ =~= old(heap)@);
                }
                Err(e)
            },
        }
    }

    /// <https://dom.spec.whatwg.org/#concept-node-append>
    ///
    /// To append a node to a parent, pre-insert node into parent before null.
    pub fn append(&self, node: Node, heap: &mut Heap)
        requires
            old(heap).well_formed(),
            old(heap).has_node(self.id()),
            old(heap).has_node(node.id()),
        ensures
            final(heap).well_formed(),
            final(heap)@ == inserted(old(heap)@, self.id(), node.id(), None),
            siblings_linked(old(heap)@) && detached(old(heap)@, node.id()) ==> siblings_linked(
                final(heap)@,
            ),
    {
        let _ = self.pre_insert(node, None, heap);
    }

    /// <https://dom.spec.whatwg.org/#concept-node-pre-insert>
    ///
    /// Inserts `node` into this node before `child`, or before the next
    /// sibling of `node` where `child` is `node` itself. Fails, with `node`
    /// adopted and nothing inserted, where the node to insert before is no
    /// child of this node.
    pub fn pre_insert(&self, node: Node, child: Option<&Node>, heap: &mut Heap) -> (r: Result<
        (),
        NodeError,
    >)
        requires
            old(heap).well_formed(),
            old(heap).has_node(self.id()),
            old(heap).has_node(node.id()),
            child is Some ==> old(heap).has_node(child.unwrap().id()),
        ensures
            final(heap).well_formed(),
            final(heap)@ == inserted(
                old(heap)@,
                self.id(),
                node.id(),
                reference_child(old(heap)@, node.id(), node_ref_option_id(child)),
            ),
            r is Err <==> is_missing_child(
                old(heap)@,
                self.id(),
                reference_child(old(heap)@, node.id(), node_ref_option_id(child)),
            ),
            r is Err ==> r == Err::<(), NodeError>(NodeError::NotAChild),
            siblings_linked(old(heap)@) && detached(old(heap)@, node.id()) ==> siblings_linked(
                final(heap)@,
            ),
    {
        proof {
            if siblings_linked(old(heap)@) && detached(old(heap)@, node.id()) {
                lemma_inserted_linked(
                    old(heap)@,
                    self.id(),
                    node.id(),
                    reference_child(old(heap)@, node.id(), node_ref_option_id(child)),
                );
            }
            assert(links_within(old(heap)@, old(heap).node(node.id())));
        }
        let reference: Option<Node> = match child {
            Some(c) => {
                if c.0.same(&node.0, heap) {
                    node.data(heap).next_sibling
                } else {
                    Some(*c)
                }
            },
            None => None,
        };
        match reference {
            Some(c) => self.insert(node, Some(&c), false, heap),
            None => self.insert(node, None, false, heap),
        }
    }

    /// <https://dom.spec.whatwg.org/#concept-node-insert>
    ///
    /// Adopts `node` into the node document of this node, then appends it to
    /// the children where there is no `child`, and inserts it at the place of
    /// `child` where there is one. Fails, with `node` adopted and nothing
    /// inserted, where `child` is no child of this node.
    pub fn insert(&self, node: Node, child: Option<&Node>, suppress: bool, heap: &mut Heap) -> (r:
        Result<(), NodeError>)
        requires
            old(heap).well_formed(),
            old(heap).has_node(self.id()),
            old(heap).has_node(node.id()),
            child is Some ==> old(heap).has_node(child.unwrap().id()),
        ensures
            final(heap).well_formed(),
            final(heap)@ == inserted(old(heap)@, self.id(), node.id(), node_ref_option_id(child)),
            r is Err <==> is_missing_child(old(heap)@, self.id(), node_ref_option_id(child)),
            r is Err ==> r == Err::<(), NodeError>(NodeError::NotAChild),
            siblings_linked(old(heap)@) && detached(old(heap)@, node.id()) ==> siblings_linked(
                final(heap)@,
            ),
    {
        proof {
            if siblings_linked(old(heap)@) && detached(old(heap)@, node.id()) {
                lemma_inserted_linked(
                    old(heap)@,
                    self.id(),
                    node.id(),
                    node_ref_option_id(child),
                );
            }
        }
        let document = self.data(heap).node_document;
        node.adopt(document, heap);
        match child {
            None => {
                self.append_child(node, heap);
                Ok(())
            },
            Some(c) => {
                let ghost adopted = heap@;
                let len: usize = self.data(heap).child_nodes.len();
                let mut index: usize = 0;
                let mut found = false;
                while index < len && !found
                    invariant
                        heap@ == adopted,
                        heap.well_formed(),
                        heap.has_node(self.id()),
                        heap.has_node(c.id()),
                        len == heap.node(self.id()).children.len(),
                        index <= len,
                        forall|j: int|
                            0 <= j < index ==> heap.node(self.id()).children[j] != c.id(),
                        found ==> index < len && heap.node(self.id()).children[index as int]
                            == c.id(),
                    decreases len - index + (if found { 0int } else { 1int }),
                {
                    let candidate = self.data(heap).child_nodes[index];
                    assert(heap.node(self.id()).children[index as int] == candidate.id());
                    assert(links_within(heap@, heap.node(self.id())));
                    if candidate.0.same(&c.0, heap) {
                        found = true;
                    } else {
                        index = index + 1;
                    }
                }
                proof {
                    lemma_position(heap.node(self.id()).children, c.id(), index as int);
                    assert(node_of(old(heap)@, self.id()).children == node_of(
                        adopted,
                        self.id(),
                    ).children);
                }
                if index < len {
                    self.insert_child(index, node, heap);
                    Ok(())
                } else {
                    Err(NodeError::NotAChild)
                }
            },
        }
    }

    /// <https://dom.spec.whatwg.org/#concept-node-adopt>
    ///
    /// Makes `document` the node document of this node. Documents are told
    /// apart by the identity of their objects, and where `document` is the
    /// node document already, the heap is not written to.
    pub fn adopt(&self, document: Option<Document>, heap: &mut Heap)
        requires
            old(heap).well_formed(),
            old(heap).has_node(self.id()),
            document is Some ==> old(heap).has_node(document.unwrap().id()),
        ensures
            final(heap).well_formed(),
            final(heap)@ == adopted(old(heap)@, self.id(), document_option_id(document)),
            old(heap).node(self.id()).document == document_option_id(document)
                ==> final(heap).data() == old(heap).data(),
            siblings_linked(old(heap)@) ==> siblings_linked(final(heap)@),
            forall|n: int| detached(old(heap)@, n) ==> detached(final(heap)@, n),
    {
        proof {
            lemma_adopted_linked(old(heap)@, self.id(), document_option_id(document));
        }
        let old_document = self.data(heap).node_document;
        let same = match (&document, &old_document) {
            (Some(d), Some(od)) => d.0.same(&od.0, heap),
            (None, None) => true,
            _ => false,
        };
        if !same {
            self.data_mut(heap).node_document = document;
            proof {
                let n = NodeView {
                    document: document_option_id(document),
                    ..old(heap).node(self.id())
                };
                assert(final(heap)@ =~= with_document(
                    old(heap)@,
                    self.id(),
                    document_option_id(document),
                ));
                assert(links_within(old(heap)@, old(heap).node(self.id())));
                lemma_links_closed_replace(old(heap)@, self.id(), n);
            }
        }
    }

    /// Append a child node to this node: the last child, if there is one, and
    /// `node` are made to point at each other, and `node` becomes the last
    /// child.
    pub fn append_child(&self, node: Node, heap: &mut Heap)
        requires
            old(heap).well_formed(),
            old(heap).has_node(self.id()),
            old(heap).has_node(node.id()),
        ensures
            final(heap).well_formed(),
            final(heap)@ == appended(old(heap)@, self.id(), node.id()),
            siblings_linked(old(heap)@) && detached(old(heap)@, node.id()) ==> siblings_linked(
                final(heap)@,
            ),
    {
        proof {
            if siblings_linked(old(heap)@) && detached(old(heap)@, node.id()) {
                lemma_appended_linked(old(heap)@, self.id(), node.id());
            }
        }
        let parent = self.data(heap);
        let len: usize = parent.child_nodes.len();
        if len > 0 {
            let last = parent.child_nodes[len - 1];
            assert(old(heap).node(self.id()).children.last() == last.id());
            last.set_next_sibling(Some(node), heap);
            node.set_previous_sibling(Some(last), heap);
        }
        let ghost linked = heap@;
        let ghost children = old(heap).node(self.id()).children;
        assert(heap.node(self.id()).children == children);
        self.set_children_push(node, heap);
        proof {
            assert(final(heap)@ == with_children(linked, self.id(), children.push(node.id())));
        }
    }

    /// Insert a child node to this node at `index`: the child before that
    /// place, if there is one, and `node` are made to point at each other,
    /// then `node` and the child at that place, if there is one, and `node`
    /// becomes the child at `index`.
    pub fn insert_child(&self, index: usize, node: Node, heap: &mut Heap)
        requires
            old(heap).well_formed(),
            old(heap).has_node(self.id()),
            old(heap).has_node(node.id()),
            index <= old(heap).node(self.id()).children.len(),
        ensures
            final(heap).well_formed(),
            final(heap)@ == inserted_at(old(heap)@, self.id(), index as int, node.id()),
            siblings_linked(old(heap)@) && detached(old(heap)@, node.id()) ==> siblings_linked(
                final(heap)@,
            ),
    {
        proof {
            if siblings_linked(old(heap)@) && detached(old(heap)@, node.id()) {
                lemma_inserted_at_linked(old(heap)@, self.id(), index as int, node.id());
            }
        }
        let ghost children = old(heap).node(self.id()).children;
        if index > 0 {
            let prev = self.data(heap).child_nodes[index - 1];
            assert(children[index - 1] == prev.id());
            prev.set_next_sibling(Some(node), heap);
            node.set_previous_sibling(Some(prev), heap);
        }
        assert(heap.node(self.id()).children == children);
        if index < self.data(heap).child_nodes.len() {
            let next = self.data(heap).child_nodes[index];
            assert(children[index as int] == next.id());
            node.set_next_sibling(Some(next), heap);
            next.set_previous_sibling(Some(node), heap);
        }
        assert(heap.node(self.id()).children == children);
        self.set_children_insert(index, node, heap);
    }

    /// Makes `node` the last child of this node.
    fn set_children_push(&self, node: Node, heap: &mut Heap)
        requires
            old(heap).well_formed(),
            old(heap).has_node(self.id()),
            old(heap).has_node(node.id()),
        ensures
            final(heap).well_formed(),
            final(heap)@ == with_children(
                old(heap)@,
                self.id(),
                old(heap).node(self.id()).children.push(node.id()),
            ),
    {
        let data = self.data_mut(heap);
        let ghost before = data.child_nodes@;
        data.child_nodes.push_back(node);
        proof {
            let children = old(heap).node(self.id()).children;
            assert(before.push(node).map_values(|n: Node| n.id()) =~= children.push(node.id()));
            let n = NodeView { children: children.push(node.id()), ..old(heap).node(self.id()) };
            assert(final(heap)@ =~= with_children(
                old(heap)@,
                self.id(),
                children.push(node.id()),
            ));
            assert(links_within(old(heap)@, old(heap).node(self.id())));
            lemma_links_closed_replace(old(heap)@, self.id(), n);
        }
    }

    /// Makes `node` the child at `index` of this node.
    fn set_children_insert(&self, index: usize, node: Node, heap: &mut Heap)
        requires
            old(heap).well_formed(),
            old(heap).has_node(self.id()),
            old(heap).has_node(node.id()),
            index <= old(heap).node(self.id()).children.len(),
        ensures
            final(heap).well_formed(),
            final(heap)@ == with_children(
                old(heap)@,
                self.id(),
                old(heap).node(self.id()).children.insert(index as int, node.id()),
            ),
    {
        let data = self.data_mut(heap);
        let ghost before = data.child_nodes@;
        data.child_nodes.insert(index, node);
        proof {
            let children = old(heap).node(self.id()).children;
            let after = children.insert(index as int, node.id());
            assert(before.insert(index as int, node).map_values(|n: Node| n.id()) =~= after);
            let n = NodeView { children: after, ..old(heap).node(self.id()) };
            assert(final(heap)@ =~= with_children(old(heap)@, self.id(), after));
            assert(links_within(old(heap)@, old(heap).node(self.id())));
            assert forall|i: int| 0 <= i < after.len() implies is_node(
                old(heap)@,
                #[trigger] after[i],
            ) by {
                if i < index {
                    assert(after[i] == children[i]);
                } else if i > index {
                    assert(after[i] == children[i - 1]);
                }
            }
            lemma_links_closed_replace(old(heap)@, self.id(), n);
        }
    }

    /// Makes `next` the next sibling of this node.
    fn set_next_sibling(&self, next: Option<Node>, heap: &mut Heap)
        requires
            old(heap).well_formed(),
            old(heap).has_node(self.id()),
            next is Some ==> old(heap).has_node(next.unwrap().id()),
        ensures
            final(heap).well_formed(),
            final(heap)@ == with_next(old(heap)@, self.id(), node_option_id(next)),
    {
        self.data_mut(heap).next_sibling = next;
        proof {
            let n = NodeView { next: node_option_id(next), ..old(heap).node(self.id()) };
            assert(final(heap)@ =~= with_next(old(heap)@, self.id(), node_option_id(next)));
            assert(links_within(old(heap)@, old(heap).node(self.id())));
            lemma_links_closed_replace(old(heap)@, self.id(), n);
        }
    }

    /// Makes `previous` the previous sibling of this node.
    fn set_previous_sibling(&self, previous: Option<Node>, heap: &mut Heap)
        requires
            old(heap).well_formed(),
            old(heap).has_node(self.id()),
            previous is Some ==> old(heap).has_node(previous.unwrap().id()),
        ensures
            final(heap).well_formed(),
            final(heap)@ == with_previous(old(heap)@, self.id(), node_option_id(previous)),
    {
        self.data_mut(heap).previous_sibling = previous;
        proof {
            let n = NodeView { previous: node_option_id(previous), ..old(heap).node(self.id()) };
            assert(final(heap)@ =~= with_previous(
                old(heap)@,
                self.id(),
                node_option_id(previous),
            ));
            assert(links_within(old(heap)@, old(heap).node(self.id())));
            lemma_links_closed_replace(old(heap)@, self.id(), n);
        }
    }
}

/// The identity behind an optional reference to a node handle.
pub open spec fn node_ref_option_id(node: Option<&Node>) -> Option<int> {
    match node {
        Some(n) => Some(n.id()),
        None => None,
    }
}

impl NodeImpl {
    /// Create an empty `NodeImpl`: a node without parent, children, siblings,
    /// node document and data.
    pub fn new() -> (r: Self)
        ensures
            r@ == fresh_node(NodeTypeData::Empty),
    {
        Self::new_with_type(NodeTypeData::Empty)
    }

    /// Create a `NodeImpl` with provided node type data: a node without
    /// parent, children, siblings and node document.
    pub fn new_with_type(data: NodeTypeData) -> (r: Self)
        ensures
            r@ == fresh_node(data),
    {
        let r = NodeImpl {
            event_target: EventTarget::new(),
            parent_node: None,
            child_nodes: VecDeque::new(),
            previous_sibling: None,
            next_sibling: None,
            node_document: None,
            data,
        };
        assert(r@.children =~= Seq::empty());
        r
    }

    /// Set Node's node document.
    pub fn set_node_document(&mut self, document: Option<Document>)
        ensures
            final(self)@ == (NodeView { document: document_option_id(document), ..old(self)@ }),
    {
        self.node_document = document;
    }

    /// Get last child of node's child nodes.
    pub fn last_child(&self) -> (r: Option<&Node>)
        ensures
            match r {
                Some(node) => self@.children.len() > 0 && node.id() == self@.children.last(),
                None => self@.children.len() == 0,
            },
    {
        let len: usize = self.child_nodes.len();
        if len > 0 {
            Some(&self.child_nodes[len - 1])
        } else {
            None
        }
    }
}

/// The actual implementation of each node type
#[derive(Debug)]
pub enum NodeTypeData {
    /// `ELEMENT_NODE`
    Element(ElementImpl),
    /// `DOCUMENT_NODE`
    Document(DocumentImpl),
    /// Similar to `Option::None`.
    Empty,
}

impl Default for NodeTypeData {
    fn default() -> (r: Self)
        ensures
            r is Empty,
    {
        NodeTypeData::Empty
    }
}

} // verus!
