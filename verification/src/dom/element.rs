//! Elements.

use vstd::prelude::*;

use crate::agent::NameSpace;
use crate::dom::document::Document;
use crate::dom::html_element::{HTMLElementImpl, HTMLElementType};
use crate::dom::node::{detached, siblings_linked, with_fresh, Node, NodeImpl, NodeTypeData};
use crate::dom::object::{Heap, HeapError, Object};
use crate::string::DOMString;

verus! {

/// <https://dom.spec.whatwg.org/#element>
#[derive(Clone, Copy, Debug)]
pub struct Element(pub Object);

impl Element {
    /// The identity of the element's node object.
    pub open spec fn id(&self) -> int {
        self.0.id()
    }

    /// <https://dom.spec.whatwg.org/#concept-create-element>
    ///
    /// The element is a new object of the heap: a node without parent,
    /// children, siblings and node document that holds an uncustomized
    /// element of `document` with the interface for `local` in `name_space`.
    /// On failure the heap is as it was.
    pub fn new(
        document: &Document,
        local: ElementLocal,
        name_space: NameSpace,
        is: Option<DOMString>,
        heap: &mut Heap,
    ) -> (r: Result<Self, HeapError>)
        requires
            old(heap).well_formed(),
        ensures
            final(heap).well_formed(),
            siblings_linked(old(heap)@) ==> siblings_linked(final(heap)@),
            forall|x: int| detached(old(heap)@, x) ==> detached(final(heap)@, x),
            match r {
                Ok(element) => {
                    &&& !old(heap)@.contains_key(element.id())
                    &&& final(heap).has_element(element.id())
                    &&& final(heap)@ == with_fresh(
                        old(heap)@,
                        element.id(),
                        final(heap).node(element.id()).data,
                    )
                    &&& final(heap).element(element.id()).is_new(*document, local, name_space, is)
                    &&& detached(final(heap)@, element.id())
                },
                Err(e) => final(heap)@ == old(heap)@ && (e == HeapError::OutOfMemory || e
                    == HeapError::Allocation),
            },
    {
        let data = ElementImpl::new(document, local, name_space, CustomElementState::Uncustomized, is);
        match Node::new(NodeTypeData::Element(data), heap) {
            Ok(node) => Ok(Element(node.0)),
            Err(e) => Err(e),
        }
    }

    /// <https://dom.spec.whatwg.org/#dom-element-hasattributes>
    pub fn has_attributes(&self, heap: &Heap) -> (b: bool)
        requires
            heap.has_element(self.id()),
        ensures
            b == (heap.element(self.id()).attribute_list@.len() > 0),
    {
        Node(self.0).data(heap).as_element().attribute_list.len() > 0
    }
}

impl Heap {
    /// Whether the object `id` of the heap is an element.
    pub open spec fn has_element(&self, id: int) -> bool {
        self.has_node(id) && self.node(id).data is Element
    }

    /// The element that the object `id` of the heap holds.
    pub open spec fn element(&self, id: int) -> ElementImpl {
        self.node(id).data->Element_0
    }
}

impl NodeImpl {
    /// Get `ElementImpl` shared reference.
    pub fn as_element(&self) -> (element: &ElementImpl)
        requires
            self@.data is Element,
        ensures
            *element == self@.data->Element_0,
    {
        match &self.data {
            NodeTypeData::Element(element) => element,
            _ => {
                proof {
                    assert(false);
                }
                vstd::pervasive::unreached()
            },
        }
    }
}

/// Implementation of actual `Element` object. This can be accessed from `NodeImpl`.
#[derive(Debug)]
pub struct ElementImpl {
    /// The namespace.
    pub name_space: NameSpace,
    /// The local name.
    pub local_name: ElementLocal,
    /// The custom element state.
    pub state: CustomElementState,
    /// The `is` value.
    pub is: Option<DOMString>,
    /// The node document that the element was created for.
    pub node_document: Document,
    /// The attributes.
    pub attribute_list: Vec<u8>,
    /// The element interface.
    pub element_type: ElementType,
}

impl ElementImpl {
    /// Whether this is the element that `new` makes of these arguments in
    /// the state `state`.
    pub open spec fn is_created(
        &self,
        document: Document,
        local: ElementLocal,
        name_space: NameSpace,
        state: CustomElementState,
        is: Option<DOMString>,
    ) -> bool {
        &&& self.name_space == name_space
        &&& self.local_name == local
        &&& self.state == state
        &&& self.is == is
        &&& self.node_document == document
        &&& self.attribute_list@.len() == 0
        &&& match ElementType::spec_html_type(local, name_space) {
            Some(kind) => self.element_type is HTMLElement
                && self.element_type->HTMLElement_0.html_type() == kind,
            None => self.element_type is Unknown,
        }
    }

    /// Whether this is the uncustomized element that `Element::new` makes of
    /// these arguments.
    pub open spec fn is_new(
        &self,
        document: Document,
        local: ElementLocal,
        name_space: NameSpace,
        is: Option<DOMString>,
    ) -> bool {
        self.is_created(document, local, name_space, CustomElementState::Uncustomized, is)
    }

    /// <https://dom.spec.whatwg.org/#create-an-element-internal>
    pub fn new(
        document: &Document,
        local: ElementLocal,
        name_space: NameSpace,
        state: CustomElementState,
        is: Option<DOMString>,
    ) -> (r: Self)
        ensures
            r.is_created(*document, local, name_space, state, is),
    {
        let element_type = ElementType::get(&local, &name_space);
        Self {
            node_document: *document,
            attribute_list: Vec::new(),
            name_space,
            local_name: local,
            state,
            is,
            element_type,
        }
    }
}

/// <https://dom.spec.whatwg.org/#concept-element-custom-element-state>
#[derive(Clone, Copy, Debug, PartialEq, Eq, Structural)]
pub enum CustomElementState {
    /// "undefined"
    Undefined,
    /// "failed"
    Failed,
    /// "uncustomized"
    Uncustomized,
    /// "precustomized"
    Precustomized,
    /// "custom"
    Custom,
}

/// The actual implementation of each element type
#[derive(Debug)]
pub enum ElementType {
    /// HTMLElement
    HTMLElement(HTMLElementImpl),
    /// Similar to `Option::None`.
    Unknown,
}

impl Default for ElementType {
    fn default() -> (r: Self)
        ensures
            r is Unknown,
    {
        ElementType::Unknown
    }
}

impl ElementType {
    /// The kind of HTML element that a local name stands for in a namespace,
    /// if it stands for one: `html`, `head` and `body` in the HTML namespace.
    pub open spec fn spec_html_type(local: ElementLocal, name_space: NameSpace) -> Option<
        HTMLElementType,
    > {
        match (name_space, local) {
            (NameSpace::HTML, ElementLocal::Html) => Some(HTMLElementType::Html),
            (NameSpace::HTML, ElementLocal::Head) => Some(HTMLElementType::Head),
            (NameSpace::HTML, ElementLocal::Body) => Some(HTMLElementType::Body),
            _ => None,
        }
    }

    /// The element interface for a local name in a namespace.
    pub fn get(local: &ElementLocal, name_space: &NameSpace) -> (r: Self)
        ensures
            match Self::spec_html_type(*local, *name_space) {
                Some(kind) => r is HTMLElement && r->HTMLElement_0.html_type() == kind,
                None => r is Unknown,
            },
    {
        match name_space {
            NameSpace::HTML => match local {
                ElementLocal::Html => {
                    ElementType::HTMLElement(HTMLElementImpl::new(HTMLElementType::Html))
                },
                ElementLocal::Head => {
                    ElementType::HTMLElement(HTMLElementImpl::new(HTMLElementType::Head))
                },
                ElementLocal::Body => {
                    ElementType::HTMLElement(HTMLElementImpl::new(HTMLElementType::Body))
                },
                _ => ElementType::Unknown,
            },
            NameSpace::Null => ElementType::Unknown,
        }
    }
}

/// Collection of local name to create an element.
#[derive(Debug)]
pub enum ElementLocal {
    /// "html"
    Html,
    /// "head"
    Head,
    /// "body"
    Body,
    /// "custom"
    Custom(DOMString),
}

impl Clone for ElementLocal {
    fn clone(&self) -> (copy: Self)
        ensures
            match (*self, copy) {
                (ElementLocal::Html, ElementLocal::Html) => true,
                (ElementLocal::Head, ElementLocal::Head) => true,
                (ElementLocal::Body, ElementLocal::Body) => true,
                (ElementLocal::Custom(a), ElementLocal::Custom(b)) => a@ == b@,
                _ => false,
            },
    {
        match self {
            ElementLocal::Html => ElementLocal::Html,
            ElementLocal::Head => ElementLocal::Head,
            ElementLocal::Body => ElementLocal::Body,
            ElementLocal::Custom(name) => ElementLocal::Custom(name.clone()),
        }
    }
}

} // verus!
