use ohim::agent::{NameSpace, RealmID};
use ohim::browsing_context::{BrowsingContextID, SandboxingFlag};
use ohim::dom::document::{Document, DocumentMode};
use ohim::dom::element::{CustomElementState, Element, ElementLocal, ElementType};
use ohim::dom::html_element::{HTMLElementImpl, HTMLElementType};
use ohim::dom::node::{Node, NodeError, NodeImpl, NodeTypeData};
use ohim::dom::object::{AllocationFailure, Attempt, Heap, HeapError, HostData, Object};
use ohim::dom::window::Window;
use ohim::dom_url::ImmutableOrigin;
use ohim::string::DOMString;

fn new_node(heap: &mut Heap) -> Node {
    Node::new(NodeTypeData::Empty, heap).unwrap()
}

fn new_document(heap: &mut Heap) -> Document {
    Document::new(
        true,
        headers::ContentType::html(),
        DocumentMode::NoQuirks,
        ImmutableOrigin::new_opaque(),
        BrowsingContextID(0),
        false,
        SandboxingFlag::empty(),
        false,
        true,
        None,
        RealmID(0),
        true,
        heap,
    )
    .unwrap()
}

fn same(a: &Node, b: &Node, heap: &Heap) -> bool {
    a.0.same(&b.0, heap)
}

fn is(link: &Option<Node>, node: &Node, heap: &Heap) -> bool {
    match link {
        Some(n) => same(n, node, heap),
        None => false,
    }
}

fn children(parent: &Node, heap: &Heap) -> Vec<Node> {
    parent.data(heap).child_nodes.iter().copied().collect()
}

fn has_children(parent: &Node, expected: &[Node], heap: &Heap) -> bool {
    let got = children(parent, heap);
    got.len() == expected.len() && got.iter().zip(expected).all(|(a, b)| same(a, b, heap))
}

#[test]
fn objects_are_told_apart_by_identity() {
    let mut heap = Heap::new().unwrap();
    let a = new_node(&mut heap);
    let b = new_node(&mut heap);
    let copy = a;
    assert!(same(&a, &copy, &heap));
    assert!(same(&a, &a.clone(), &heap));
    assert!(!same(&a, &b, &heap));
}

#[test]
fn object_data_can_be_read_and_written() {
    let mut heap = Heap::new().unwrap();
    let a = new_node(&mut heap);
    let b = new_node(&mut heap);
    assert!(matches!(a.0.data(&heap), HostData::Node(_)));
    a.data_mut(&mut heap).next_sibling = Some(b);
    assert!(is(&a.data(&heap).next_sibling, &b, &heap));
    assert!(b.data(&heap).next_sibling.is_none());
    match a.0.data_mut(&mut heap) {
        HostData::Node(node) => node.next_sibling = None,
        HostData::Window(_) => unreachable!(),
    }
    assert!(a.data(&heap).next_sibling.is_none());
}

#[test]
fn window_is_no_node() {
    let mut heap = Heap::new().unwrap();
    let window = Window::new(&mut heap).unwrap();
    let other = Window::new(&mut heap).unwrap();
    assert!(!window.0.same(&other.0, &heap));
    assert!(matches!(window.0.data(&heap), HostData::Window(_)));
    assert_eq!(Node(window.0).try_data(&heap).err(), Some(HeapError::TypeMismatch));
    let node = new_node(&mut heap);
    assert!(node.try_data(&heap).is_ok());
}

#[test]
fn many_objects_fit_into_the_heap() {
    let mut heap = Heap::new().unwrap();
    let parent = new_node(&mut heap);
    let mut all = Vec::new();
    for _ in 0..20000 {
        let node = new_node(&mut heap);
        parent.append_child(node, &mut heap);
        all.push(node);
    }
    assert!(has_children(&parent, &all, &heap));
    assert!(is(&all[19998].data(&heap).next_sibling, &all[19999], &heap));
}

#[test]
fn object_new_stores_the_value() {
    let mut heap = Heap::new().unwrap();
    let mut data = NodeImpl::new();
    let child = new_node(&mut heap);
    data.child_nodes.push_back(child);
    let object = Object::new(&mut heap, HostData::Node(data)).unwrap();
    let stored = Node(object).data(&heap);
    assert_eq!(stored.child_nodes.len(), 1);
    assert!(same(&stored.child_nodes[0], &child, &heap));
    assert!(!object.same(&child.0, &heap));
}

#[test]
fn append_is_pre_insert_at_the_end() {
    let mut heap = Heap::new().unwrap();
    let document = new_document(&mut heap);
    let parent = Node::from(document);
    let a = new_node(&mut heap);
    let b = new_node(&mut heap);
    parent.append(a, &mut heap);
    parent.append(b, &mut heap);
    assert!(has_children(&parent, &[a, b], &heap));
    assert!(document.0.same(&b.data(&heap).node_document.unwrap().0, &heap));
}

#[test]
fn new_node_has_no_links() {
    let node = NodeImpl::new_with_type(NodeTypeData::default());
    assert!(node.parent_node.is_none());
    assert!(node.child_nodes.is_empty());
    assert!(node.previous_sibling.is_none());
    assert!(node.next_sibling.is_none());
    assert!(node.node_document.is_none());
    assert!(matches!(node.data, NodeTypeData::Empty));
    assert!(node.last_child().is_none());
}

#[test]
fn append_links_siblings() {
    let mut heap = Heap::new().unwrap();
    let a = new_node(&mut heap);
    let b = new_node(&mut heap);
    let c = new_node(&mut heap);
    a.append_child(b, &mut heap);
    assert!(has_children(&a, &[b], &heap));
    assert!(b.data(&heap).previous_sibling.is_none());
    assert!(b.data(&heap).next_sibling.is_none());
    a.append_child(c, &mut heap);
    assert!(has_children(&a, &[b, c], &heap));
    assert!(is(&b.data(&heap).next_sibling, &c, &heap));
    assert!(is(&c.data(&heap).previous_sibling, &b, &heap));
    assert!(b.data(&heap).previous_sibling.is_none());
    assert!(c.data(&heap).next_sibling.is_none());
    assert!(same(a.data(&heap).last_child().unwrap(), &c, &heap));
    assert!(a.data(&heap).previous_sibling.is_none() && a.data(&heap).next_sibling.is_none());
}

#[test]
fn insert_child_between_two() {
    let mut heap = Heap::new().unwrap();
    let parent = new_node(&mut heap);
    let x = new_node(&mut heap);
    let y = new_node(&mut heap);
    let z = new_node(&mut heap);
    parent.append_child(x, &mut heap);
    parent.append_child(z, &mut heap);
    parent.insert_child(1, y, &mut heap);
    assert!(has_children(&parent, &[x, y, z], &heap));
    assert!(is(&x.data(&heap).next_sibling, &y, &heap));
    assert!(is(&y.data(&heap).previous_sibling, &x, &heap));
    assert!(is(&y.data(&heap).next_sibling, &z, &heap));
    assert!(is(&z.data(&heap).previous_sibling, &y, &heap));
    assert!(x.data(&heap).previous_sibling.is_none());
    assert!(z.data(&heap).next_sibling.is_none());
}

#[test]
fn insert_child_at_the_ends() {
    let mut heap = Heap::new().unwrap();
    let parent = new_node(&mut heap);
    let only = new_node(&mut heap);
    parent.insert_child(0, only, &mut heap);
    assert!(has_children(&parent, &[only], &heap));
    assert!(only.data(&heap).previous_sibling.is_none());
    assert!(only.data(&heap).next_sibling.is_none());
    let first = new_node(&mut heap);
    parent.insert_child(0, first, &mut heap);
    assert!(has_children(&parent, &[first, only], &heap));
    assert!(first.data(&heap).previous_sibling.is_none());
    assert!(is(&first.data(&heap).next_sibling, &only, &heap));
    assert!(is(&only.data(&heap).previous_sibling, &first, &heap));
    let last = new_node(&mut heap);
    parent.insert_child(2, last, &mut heap);
    assert!(has_children(&parent, &[first, only, last], &heap));
    assert!(is(&only.data(&heap).next_sibling, &last, &heap));
    assert!(is(&last.data(&heap).previous_sibling, &only, &heap));
    assert!(last.data(&heap).next_sibling.is_none());
}

#[test]
fn adopt_into_the_same_document_changes_nothing() {
    let mut heap = Heap::new().unwrap();
    let document = new_document(&mut heap);
    let node = Node(document.0);
    // A document is its own node document.
    assert!(document.0.same(&node.data(&heap).node_document.unwrap().0, &heap));
    node.adopt(Some(document), &mut heap);
    assert!(document.0.same(&node.data(&heap).node_document.unwrap().0, &heap));
    let plain = new_node(&mut heap);
    plain.adopt(None, &mut heap);
    assert!(plain.data(&heap).node_document.is_none());
}

#[test]
fn adopt_into_another_document_sets_it() {
    let mut heap = Heap::new().unwrap();
    let first = new_document(&mut heap);
    let second = new_document(&mut heap);
    let node = new_node(&mut heap);
    node.adopt(Some(first), &mut heap);
    assert!(first.0.same(&node.data(&heap).node_document.unwrap().0, &heap));
    node.adopt(Some(second), &mut heap);
    assert!(second.0.same(&node.data(&heap).node_document.unwrap().0, &heap));
    node.adopt(Some(second), &mut heap);
    assert!(second.0.same(&node.data(&heap).node_document.unwrap().0, &heap));
    node.adopt(None, &mut heap);
    assert!(node.data(&heap).node_document.is_none());
    // Nothing else of the node changed.
    assert!(node.data(&heap).child_nodes.is_empty());
    assert!(node.data(&heap).next_sibling.is_none());
}

#[test]
fn insert_adopts_and_appends_or_inserts_before() {
    let mut heap = Heap::new().unwrap();
    let document = new_document(&mut heap);
    let parent = Node::from(document);
    let a = new_node(&mut heap);
    let b = new_node(&mut heap);
    let c = new_node(&mut heap);
    assert_eq!(parent.insert(a, None, false, &mut heap), Ok(()));
    assert_eq!(parent.insert(c, None, true, &mut heap), Ok(()));
    assert_eq!(parent.insert(b, Some(&c), false, &mut heap), Ok(()));
    assert!(has_children(&parent, &[a, b, c], &heap));
    for node in [a, b, c] {
        assert!(document.0.same(&node.data(&heap).node_document.unwrap().0, &heap));
    }
    assert!(is(&a.data(&heap).next_sibling, &b, &heap));
    assert!(is(&b.data(&heap).previous_sibling, &a, &heap));
    assert!(is(&b.data(&heap).next_sibling, &c, &heap));
    assert!(is(&c.data(&heap).previous_sibling, &b, &heap));
    let first = new_node(&mut heap);
    assert_eq!(parent.insert(first, Some(&a), false, &mut heap), Ok(()));
    assert!(has_children(&parent, &[first, a, b, c], &heap));
    assert!(is(&a.data(&heap).previous_sibling, &first, &heap));
}

#[test]
fn insert_before_a_stranger_fails_after_adopting() {
    let mut heap = Heap::new().unwrap();
    let document = new_document(&mut heap);
    let parent = Node::from(document);
    let child = new_node(&mut heap);
    parent.append_child(child, &mut heap);
    let stranger = new_node(&mut heap);
    let node = new_node(&mut heap);
    assert_eq!(
        parent.insert(node, Some(&stranger), false, &mut heap),
        Err(NodeError::NotAChild)
    );
    assert!(has_children(&parent, &[child], &heap));
    assert!(node.data(&heap).previous_sibling.is_none());
    assert!(node.data(&heap).next_sibling.is_none());
    assert!(document.0.same(&node.data(&heap).node_document.unwrap().0, &heap));
    assert_eq!(
        parent.pre_insert(node, Some(&stranger), &mut heap),
        Err(NodeError::NotAChild)
    );
}

#[test]
fn pre_insert_before_the_node_itself() {
    let mut heap = Heap::new().unwrap();
    let parent = new_node(&mut heap);
    let a = new_node(&mut heap);
    let b = new_node(&mut heap);
    assert_eq!(parent.pre_insert(a, None, &mut heap), Ok(()));
    assert_eq!(parent.pre_insert(b, Some(&a), &mut heap), Ok(()));
    assert!(has_children(&parent, &[b, a], &heap));
    // A node without next sibling that is inserted before itself is appended.
    let lone = new_node(&mut heap);
    assert_eq!(parent.pre_insert(lone, Some(&lone), &mut heap), Ok(()));
    assert!(has_children(&parent, &[b, a, lone], &heap));
    assert!(is(&a.data(&heap).next_sibling, &lone, &heap));
    assert!(is(&lone.data(&heap).previous_sibling, &a, &heap));
}

#[test]
fn element_interfaces() {
    let html = ElementType::get(&ElementLocal::Html, &NameSpace::HTML);
    assert!(matches!(html, ElementType::HTMLElement(_)));
    assert!(matches!(
        ElementType::get(&ElementLocal::Head, &NameSpace::HTML),
        ElementType::HTMLElement(_)
    ));
    assert!(matches!(
        ElementType::get(&ElementLocal::Body, &NameSpace::HTML),
        ElementType::HTMLElement(_)
    ));
    let custom = ElementLocal::Custom(DOMString::from_string(String::from("x-a")));
    assert!(matches!(ElementType::get(&custom, &NameSpace::HTML), ElementType::Unknown));
    assert!(matches!(custom.clone(), ElementLocal::Custom(name) if name.str() == "x-a"));
    for local in [ElementLocal::Html, ElementLocal::Head, ElementLocal::Body] {
        assert!(matches!(ElementType::get(&local, &NameSpace::Null), ElementType::Unknown));
    }
    assert!(matches!(ElementType::default(), ElementType::Unknown));
    assert_eq!(HTMLElementType::default(), HTMLElementType::Unknown);
    let _ = HTMLElementImpl::new(HTMLElementType::Body);
}

#[test]
fn new_element_belongs_to_its_document() {
    let mut heap = Heap::new().unwrap();
    let document = new_document(&mut heap);
    let is = Some(DOMString::from_string(String::from("x-b")));
    let element =
        Element::new(&document, ElementLocal::Body, NameSpace::HTML, is, &mut heap).unwrap();
    assert!(!element.has_attributes(&heap));
    let node = Node::from(element);
    let data = node.data(&heap);
    assert!(data.node_document.is_none());
    assert!(data.child_nodes.is_empty());
    let inner = data.as_element();
    assert!(inner.node_document.0.same(&document.0, &heap));
    assert_eq!(inner.name_space, NameSpace::HTML);
    assert_eq!(inner.state, CustomElementState::Uncustomized);
    assert!(matches!(inner.local_name, ElementLocal::Body));
    assert_eq!(inner.is.as_ref().unwrap().str(), "x-b");
    assert!(matches!(inner.element_type, ElementType::HTMLElement(_)));
    assert!(inner.attribute_list.is_empty());
}

#[test]
fn what_follows_an_attempt_to_allocate() {
    let mut heap = Heap::new().unwrap();
    let node = new_node(&mut heap);
    match Object::after_first_attempt(Ok(node.0)) {
        Attempt::Done(object) => assert!(object.same(&node.0, &heap)),
        _ => panic!("the object was made"),
    }
    let other = AllocationFailure::Other(wasmtime::Error::msg("no"));
    assert!(matches!(
        Object::after_first_attempt(Err(other)),
        Attempt::Failed(HeapError::Allocation)
    ));
    match Object::after_second_attempt(Ok(node.0)) {
        Ok(object) => assert!(object.same(&node.0, &heap)),
        Err(_) => panic!("the object was made"),
    }
    let other = AllocationFailure::Other(wasmtime::Error::msg("no"));
    assert!(matches!(
        Object::after_second_attempt(Err(other)),
        Err(HeapError::Allocation)
    ));
}
