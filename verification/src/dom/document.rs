//! Documents.

use headers::ContentType;
use vstd::prelude::*;

use crate::agent::{NameSpace, RealmID};
use crate::browsing_context::{BrowsingContext, BrowsingContextID, SandboxingFlag};
use crate::dom::element::{Element, ElementLocal};
use crate::dom::node::{
    adopted,
    detached,
    fresh_node,
    inserted,
    is_node,
    keeps,
    lemma_inserted_keeps_data,
    lemma_inserted_keeps_detached,
    lemma_links_closed_add,
    lemma_links_closed_replace,
    lemma_new_node_linked,
    lemma_replace_data_linked,
    links_closed,
    links_within,
    node_of,
    siblings_linked,
    with_fresh,
    Node,
    NodeImpl,
    NodeTypeData,
    NodeView,
};
use crate::dom::object::{Heap, HeapError, HostData, ObjectView, Object};
use crate::dom_url::{url_parse, DOMUrl, ImmutableOrigin};
use crate::user_agent::UserAgent;

verus! {

/// The value of a `Content-Type` header, of the `headers` crate.
#[verifier::external_type_specification]
#[verifier::external_body]
pub struct ExContentType(ContentType);

/// Calls `ContentType::html`, which makes the header value for `text/html`.
#[verifier::external_body]
pub(crate) fn html_content_type() -> ContentType {
    ContentType::html()
}

/// Why a document could not be made.
#[derive(Clone, Copy, Debug, PartialEq, Eq, Structural)]
pub enum DocumentError {
    /// The URL parser refused `about:blank`.
    AboutBlank,
    /// The traced heap failed.
    Heap(HeapError),
}

/// The serialization of the URL of a new document, if the URL parser accepts
/// `about:blank`.
pub open spec fn about_blank() -> Option<Seq<char>> {
    url_parse("about:blank"@)
}

/// The views of an optional URL.
pub open spec fn url_option_view(url: Option<DOMUrl>) -> Option<Seq<char>> {
    match url {
        Some(u) => Some(u@),
        None => None,
    }
}

/// <https://dom.spec.whatwg.org/#document>
#[derive(Clone, Copy, Debug)]
pub struct Document(pub Object);

impl Heap {
    /// Whether the object `id` of the heap is a document.
    pub open spec fn has_document(&self, id: int) -> bool {
        self.has_node(id) && self.node(id).data is Document
    }

    /// The document that the object `id` of the heap holds.
    pub open spec fn document(&self, id: int) -> DocumentImpl {
        self.node(id).data->Document_0
    }
}

/// Whether `html`, `head` and `body` are three new element nodes of the heap
/// `g`, and `g` is the heap `h` with them, after `html` was inserted into
/// `document` and then `head` and `body` into `html`, each at the end.
pub open spec fn is_skeleton(
    h: Map<int, ObjectView>,
    g: Map<int, ObjectView>,
    document: Document,
    html: int,
    head: int,
    body: int,
) -> bool {
    let created = with_fresh(
        with_fresh(with_fresh(h, html, node_of_data(g, html)), head, node_of_data(g, head)),
        body,
        node_of_data(g, body),
    );
    &&& !h.contains_key(html)
    &&& !h.contains_key(head)
    &&& !h.contains_key(body)
    &&& html != head
    &&& html != body
    &&& head != body
    &&& is_new_element(g, html, document, ElementLocal::Html)
    &&& is_new_element(g, head, document, ElementLocal::Head)
    &&& is_new_element(g, body, document, ElementLocal::Body)
    &&& g == inserted(
        inserted(inserted(created, document.id(), html, None), html, head, None),
        html,
        body,
        None,
    )
}

/// The data of the node `id` of the heap `g`.
pub open spec fn node_of_data(g: Map<int, ObjectView>, id: int) -> NodeTypeData {
    g[id]->Node_0.data
}

/// Whether the object `id` of the heap `g` is an uncustomized element of
/// `document` in the HTML namespace with the local name `local`.
pub open spec fn is_new_element(
    g: Map<int, ObjectView>,
    id: int,
    document: Document,
    local: ElementLocal,
) -> bool {
    &&& g.contains_key(id)
    &&& g[id] is Node
    &&& node_of_data(g, id) is Element
    &&& node_of_data(g, id)->Element_0.is_new(document, local, NameSpace::HTML, None)
}

impl Document {
    /// The identity of the document's node object.
    pub open spec fn id(&self) -> int {
        self.0.id()
    }

    /// Create a `Document` object.
    ///
    /// The document is a new object of the heap: a node without parent,
    /// children and siblings that is its own node document and holds the
    /// document data made of the arguments, with the URL `about:blank`. On
    /// failure the heap is as it was.
    pub fn new(
        is_html: bool,
        content_type: ContentType,
        mode: DocumentMode,
        origin: ImmutableOrigin,
        browsing_context: BrowsingContextID,
        policy: bool,
        flags: SandboxingFlag,
        time_info: bool,
        is_blank: bool,
        base_url: Option<DOMUrl>,
        realm: RealmID,
        allow_shadow: bool,
        heap: &mut Heap,
    ) -> (r: Result<Self, DocumentError>)
        requires
            old(heap).well_formed(),
        ensures
            final(heap).well_formed(),
            siblings_linked(old(heap)@) ==> siblings_linked(final(heap)@),
            forall|x: int| detached(old(heap)@, x) ==> detached(final(heap)@, x),
            match r {
                Ok(document) => {
                    &&& about_blank() is Some
                    &&& !old(heap)@.contains_key(document.id())
                    &&& final(heap).has_document(document.id())
                    &&& final(heap)@ == old(heap)@.insert(
                        document.id(),
                        ObjectView::Node(
                            NodeView {
                                document: Some(document.id()),
                                ..fresh_node(final(heap).node(document.id()).data)
                            },
                        ),
                    )
                    &&& final(heap).document(document.id()).is_new(
                        is_html,
                        content_type,
                        mode,
                        origin,
                        browsing_context,
                        policy,
                        flags,
                        time_info,
                        is_blank,
                        base_url,
                        realm,
                        allow_shadow,
                    )
                    &&& detached(final(heap)@, document.id())
                },
                Err(DocumentError::AboutBlank) => about_blank() is None && final(heap)@ == old(
                    heap,
                )@,
                Err(DocumentError::Heap(e)) => about_blank() is Some && final(heap)@ == old(heap)@
                    && (e == HeapError::OutOfMemory || e == HeapError::Allocation),
            },
    {
        let data = match DocumentImpl::new(
            is_html,
            content_type,
            mode,
            origin,
            browsing_context,
            policy,
            flags,
            time_info,
            is_blank,
            base_url,
            realm,
            allow_shadow,
        ) {
            Some(data) => data,
            None => {
                return Err(DocumentError::AboutBlank);
            },
        };
        let node = NodeImpl::new_with_type(NodeTypeData::Document(data));
        let object = match Object::new(heap, HostData::Node(node)) {
            Ok(object) => object,
            Err(e) => {
                proof {
                    assert(heap@ =~= old(heap)@);
                }
                return Err(DocumentError::Heap(e));
            },
        };
        let document = Document(object);
        let ghost created = heap@;
        proof {
            assert(created =~= with_fresh(old(heap)@, object.id(), node@.data));
        }
        Node(object).data_mut(heap).set_node_document(Some(document));
        proof {
            let n = NodeView { document: Some(document.id()), ..fresh_node(node@.data) };
            assert(heap@ =~= old(heap)@.insert(document.id(), ObjectView::Node(n)));
            lemma_links_closed_add(old(heap)@, object.id(), n);
            lemma_new_node_linked(old(heap)@, object.id(), n);
        }
        Ok(document)
    }

    /// <https://dom.spec.whatwg.org/#concept-document-origin>
    pub fn origin(&self, heap: &Heap) -> (origin: ImmutableOrigin)
        requires
            heap.has_document(self.id()),
        ensures
            origin@ == heap.document(self.id()).origin@,
    {
        Node(self.0).data(heap).as_document().origin.clone()
    }

    /// <https://html.spec.whatwg.org/multipage/#concept-document-about-base-url>
    pub fn about_base_url(&self, heap: &Heap) -> (url: Option<DOMUrl>)
        requires
            heap.has_document(self.id()),
        ensures
            url_option_view(url) == url_option_view(heap.document(self.id()).about_base_url),
    {
        match &Node(self.0).data(heap).as_document().about_base_url {
            Some(url) => Some(url.clone()),
            None => None,
        }
    }

    /// <https://dom.spec.whatwg.org/#dom-document-url>
    pub fn url(&self, heap: &Heap) -> (url: DOMUrl)
        requires
            heap.has_document(self.id()),
        ensures
            url@ == heap.document(self.id()).url@,
    {
        Node(self.0).data(heap).as_document().url.clone()
    }

    /// <https://dom.spec.whatwg.org/#dom-document-documentelement>
    pub fn document_element(&self, heap: &Heap) -> (element: Option<Element>)
        requires
            heap.has_document(self.id()),
        ensures
            element == heap.document(self.id()).document_element,
    {
        // The documentElement getter steps are to return this's document element.
        Node(self.0).data(heap).as_document().document_element
    }

    /// The realm of the document.
    pub fn realm(&self, heap: &Heap) -> (realm: RealmID)
        requires
            heap.has_document(self.id()),
        ensures
            realm == heap.document(self.id()).realm,
    {
        Node(self.0).data(heap).as_document().realm
    }

    /// The visibility state of the document.
    pub fn visibility(&self, heap: &Heap) -> (visible: bool)
        requires
            heap.has_document(self.id()),
        ensures
            visible == heap.document(self.id()).visibility,
    {
        Node(self.0).data(heap).as_document().visibility
    }

    /// <https://html.spec.whatwg.org/multipage/#populate-with-html/head/body>
    ///
    /// Makes an `html`, a `head` and a `body` element of the document, and
    /// inserts `html` into the document and then `head` and `body` into
    /// `html`, each at the end. Where the heap fails, nothing is inserted,
    /// and the heap has what it had and the elements made before the failure.
    pub fn populate_hhb(&self, heap: &mut Heap) -> (r: Result<(), HeapError>)
        requires
            old(heap).well_formed(),
            old(heap).has_node(self.id()),
        ensures
            final(heap).well_formed(),
            siblings_linked(old(heap)@) ==> siblings_linked(final(heap)@),
            match r {
                Ok(_) => exists|html: int, head: int, body: int|
                    is_skeleton(old(heap)@, final(heap)@, *self, html, head, body),
                Err(e) => keeps(final(heap)@, old(heap)@) && (e == HeapError::OutOfMemory || e
                    == HeapError::Allocation),
            },
    {
        // Let html be the result of creating an element given document, "html", and the HTML namespace.
        let html = match Element::new(self, ElementLocal::Html, NameSpace::HTML, None, heap) {
            Ok(element) => Node(element.0),
            Err(e) => {
                return Err(e);
            },
        };
        let ghost h1 = heap@;
        // Let head be the result of creating an element given document, "head", and the HTML namespace.
        let head = match Element::new(self, ElementLocal::Head, NameSpace::HTML, None, heap) {
            Ok(element) => Node(element.0),
            Err(e) => {
                return Err(e);
            },
        };
        let ghost h2 = heap@;
        // Let body be the result of creating an element given document, "body", and the HTML namespace.
        let body = match Element::new(self, ElementLocal::Body, NameSpace::HTML, None, heap) {
            Ok(element) => Node(element.0),
            Err(e) => {
                return Err(e);
            },
        };
        let ghost h3 = heap@;
        let document = Node(self.0);
        // Append html to document.
        document.append(html, heap);
        let ghost h4 = heap@;
        assert(detached(h4, head.id()) && detached(h4, body.id())) by {
            lemma_inserted_keeps_detached(h3, document.id(), html.id(), None, head.id());
            lemma_inserted_keeps_detached(h3, document.id(), html.id(), None, body.id());
        }
        // Append head to html.
        html.append(head, heap);
        let ghost h5 = heap@;
        assert(detached(h5, body.id())) by {
            lemma_inserted_keeps_detached(h4, html.id(), head.id(), None, body.id());
        }
        // Append body to html.
        html.append(body, heap);
        proof {
            let g = heap@;
            lemma_inserted_keeps_data(h3, document.id(), html.id(), None);
            lemma_inserted_keeps_data(h4, html.id(), head.id(), None);
            lemma_inserted_keeps_data(h5, html.id(), body.id(), None);
            assert(node_of_data(g, html.id()) == node_of_data(h1, html.id()));
            assert(node_of_data(g, head.id()) == node_of_data(h2, head.id()));
            assert(node_of_data(g, body.id()) == node_of_data(h3, body.id()));
            assert(h3 == with_fresh(
                with_fresh(
                    with_fresh(old(heap)@, html.id(), node_of_data(g, html.id())),
                    head.id(),
                    node_of_data(g, head.id()),
                ),
                body.id(),
                node_of_data(g, body.id()),
            ));
            assert(is_skeleton(old(heap)@, g, *self, html.id(), head.id(), body.id()));
        }
        Ok(())
    }

    /// <https://html.spec.whatwg.org/multipage/#make-active>
    ///
    /// Makes the window of the document's realm the window of `context`,
    /// marks the realm's environment settings object as ready, and makes
    /// `visibility` the visibility state of the document. Where the
    /// document's realm is not registered, `context` gets no window.
    pub fn active(
        &self,
        context: &mut BrowsingContext,
        visibility: bool,
        ua: &mut UserAgent,
        heap: &mut Heap,
    )
        requires
            old(ua).wf(),
            old(heap).well_formed(),
            old(heap).has_document(self.id()),
        ensures
            final(ua).wf(),
            final(heap).well_formed(),
            final(ua).issued() == old(ua).issued(),
            final(ua).same_but_realm(*old(ua), old(heap).document(self.id()).realm),
            match old(ua).realm(old(heap).document(self.id()).realm) {
                Some(realm) => final(context).window() == realm.global_object()
                    && final(ua).realm(old(heap).document(self.id()).realm) == Some(
                    realm.made_ready(),
                ),
                None => final(context).window() is None
                    && final(ua).realm(old(heap).document(self.id()).realm) is None,
            },
            final(context).id() == old(context).id(),
            final(context).group() == old(context).group(),
            final(context).popup_flag() == old(context).popup_flag(),
            final(heap)@ == old(heap)@.insert(
                self.id(),
                ObjectView::Node(
                    NodeView {
                        data: NodeTypeData::Document(
                            DocumentImpl { visibility, ..old(heap).document(self.id()) },
                        ),
                        ..old(heap).node(self.id())
                    },
                ),
            ),
            siblings_linked(old(heap)@) ==> siblings_linked(final(heap)@),
    {
        let id = Node(self.0).data(heap).as_document().realm;
        // Let window be document's relevant global object, and set window's
        // relevant settings object's execution ready flag.
        let window = ua.make_realm_ready(id);
        // Set document's browsing context's WindowProxy's [[Window]] internal slot value to window.
        context.set_window(window);
        // Set document's visibility state.
        let node = Node(self.0).data_mut(heap);
        match &mut node.data {
            NodeTypeData::Document(document) => {
                document.visibility = visibility;
            },
            _ => {
                assert(false);
            },
        }
        proof {
            let n = NodeView {
                data: NodeTypeData::Document(
                    DocumentImpl { visibility, ..old(heap).document(self.id()) },
                ),
                ..old(heap).node(self.id())
            };
            assert(heap@ =~= old(heap)@.insert(self.id(), ObjectView::Node(n)));
            assert(links_within(old(heap)@, old(heap).node(self.id())));
            lemma_links_closed_replace(old(heap)@, self.id(), n);
            lemma_replace_data_linked(old(heap)@, self.id(), n.data);
        }
    }
}

/// The three elements of a document's skeleton are new, and every object
/// that the heap had before they were made and inserted is as it was, as
/// long as the document had no children.
pub proof fn lemma_skeleton_keeps(
    h: Map<int, ObjectView>,
    g: Map<int, ObjectView>,
    document: Document,
    html: int,
    head: int,
    body: int,
)
    requires
        is_skeleton(h, g, document, html, head, body),
        is_node(h, document.id()),
        node_of(h, document.id()).children.len() == 0,
    ensures
        forall|id: int|
            #[trigger] h.contains_key(id) && id != document.id() ==> g.contains_key(id) && g[id]
                == h[id],
        g.contains_key(document.id()),
        g[document.id()] is Node,
        node_of_data(g, document.id()) == node_of_data(h, document.id()),
{
    let d0 = node_of_data(g, html);
    let d1 = node_of_data(g, head);
    let d2 = node_of_data(g, body);
    let c = with_fresh(with_fresh(with_fresh(h, html, d0), head, d1), body, d2);
    let s1 = inserted(c, document.id(), html, None);
    assert(node_of(c, document.id()).children.len() == 0);
    let a1 = adopted(c, html, node_of(c, document.id()).document);
    assert(node_of(a1, document.id()).children.len() == 0);
    assert(node_of(s1, html).children.len() == 0);
    let s2 = inserted(s1, html, head, None);
    let a2 = adopted(s1, head, node_of(s1, html).document);
    assert(node_of(a2, html).children.len() == 0);
    assert(node_of(s2, html).children =~= seq![head]);
    let a3 = adopted(s2, body, node_of(s2, html).document);
    assert(node_of(a3, html).children.last() == head);
}

impl NodeImpl {
    /// Get `DocumentImpl` shared reference.
    pub fn as_document(&self) -> (document: &DocumentImpl)
        requires
            self@.data is Document,
        ensures
            *document == self@.data->Document_0,
    {
        match &self.data {
            NodeTypeData::Document(document) => document,
            _ => {
                proof {
                    assert(false);
                }
                vstd::pervasive::unreached()
            },
        }
    }
}

/// Implementation of actual `Document` object. This can be accessed from `NodeImpl`.
#[derive(Debug)]
pub struct DocumentImpl {
    /// <https://dom.spec.whatwg.org/#concept-document-type>
    pub is_html: bool,
    /// <https://dom.spec.whatwg.org/#concept-document-content-type>
    pub content_type: ContentType,
    /// <https://dom.spec.whatwg.org/#concept-document-mode>
    pub mode: DocumentMode,
    /// <https://dom.spec.whatwg.org/#concept-document-origin>
    pub origin: ImmutableOrigin,
    /// <https://html.spec.whatwg.org/multipage/#concept-document-bc>
    pub browsing_context: Option<BrowsingContextID>,
    /// <https://html.spec.whatwg.org/multipage/#concept-document-permissions-policy>
    pub policy: bool,
    /// <https://html.spec.whatwg.org/multipage/browsers.html#active-sandboxing-flag-set>
    pub flags: SandboxingFlag,
    /// <https://html.spec.whatwg.org/multipage/dom.html#load-timing-info>
    pub time_info: bool,
    /// <https://html.spec.whatwg.org/multipage/dom.html#is-initial-about:blank>
    pub is_blank: bool,
    /// <https://html.spec.whatwg.org/multipage/#concept-document-about-base-url>
    pub about_base_url: Option<DOMUrl>,
    /// <https://dom.spec.whatwg.org/#document-allow-declarative-shadow-roots>
    pub allow_shadow: bool,
    /// <https://dom.spec.whatwg.org/#document-custom-element-registry>
    pub custom_element: Option<bool>,
    /// <https://dom.spec.whatwg.org/#concept-document-url>
    pub url: DOMUrl,
    /// The realm of the document.
    pub realm: RealmID,
    /// <https://dom.spec.whatwg.org/#document-element>
    pub document_element: Option<Element>,
    /// Whether the document is visible.
    pub visibility: bool,
}

impl DocumentImpl {
    /// Whether this is the document data that `new` makes of these
    /// arguments.
    pub open spec fn is_new(
        &self,
        is_html: bool,
        content_type: ContentType,
        mode: DocumentMode,
        origin: ImmutableOrigin,
        browsing_context: BrowsingContextID,
        policy: bool,
        flags: SandboxingFlag,
        time_info: bool,
        is_blank: bool,
        base_url: Option<DOMUrl>,
        realm: RealmID,
        allow_shadow: bool,
    ) -> bool {
        &&& self.is_html == is_html
        &&& self.content_type == content_type
        &&& self.mode == mode
        &&& self.origin@ == origin@
        &&& self.browsing_context == Some(browsing_context)
        &&& self.policy == policy
        &&& self.flags == flags
        &&& self.time_info == time_info
        &&& self.is_blank == is_blank
        &&& url_option_view(self.about_base_url) == url_option_view(base_url)
        &&& self.allow_shadow == allow_shadow
        &&& self.custom_element is None
        &&& about_blank() == Some(self.url@)
        &&& self.realm == realm
        &&& self.document_element is None
        &&& !self.visibility
    }

    /// Create an empty `DocumentImpl`: the data of a document with the URL
    /// `about:blank`, without document element, that is not visible. `None`
    /// where the URL parser refuses `about:blank`.
    pub fn new(
        is_html: bool,
        content_type: ContentType,
        mode: DocumentMode,
        origin: ImmutableOrigin,
        browsing_context: BrowsingContextID,
        policy: bool,
        flags: SandboxingFlag,
        time_info: bool,
        is_blank: bool,
        base_url: Option<DOMUrl>,
        realm: RealmID,
        allow_shadow: bool,
    ) -> (r: Option<Self>)
        ensures
            match r {
                Some(data) => data.is_new(
                    is_html,
                    content_type,
                    mode,
                    origin,
                    browsing_context,
                    policy,
                    flags,
                    time_info,
                    is_blank,
                    base_url,
                    realm,
                    allow_shadow,
                ),
                None => about_blank() is None,
            },
    {
        let url = match DOMUrl::parse("about:blank") {
            Ok(url) => url,
            Err(_) => {
                return None;
            },
        };
        Some(
            DocumentImpl {
                is_html,
                content_type,
                mode,
                origin,
                browsing_context: Some(browsing_context),
                policy,
                flags,
                time_info,
                is_blank,
                about_base_url: base_url,
                allow_shadow,
                custom_element: None,
                url,
                realm,
                document_element: None,
                visibility: false,
            },
        )
    }
}

/// <https://dom.spec.whatwg.org/#concept-document-mode>
#[derive(Clone, Copy, Debug, PartialEq, Eq, Structural)]
pub enum DocumentMode {
    /// "no-quirks"
    NoQuirks,
    /// "quirks"
    Quirks,
    /// "limited-quirks"
    LimitedQuirks,
}

impl Default for DocumentMode {
    fn default() -> (r: Self)
        ensures
            r == DocumentMode::NoQuirks,
    {
        DocumentMode::NoQuirks
    }
}

} // verus!
