use ohim::agent::{Agent, NameSpace, Realm, RealmID};
use ohim::browsing_context::{BrowsingContext, BrowsingContextID, SandboxingFlag};
use ohim::dom::document::{Document, DocumentImpl, DocumentMode};
use ohim::dom::element::{ElementLocal, ElementType};
use ohim::dom::event_target::EventTarget;
use ohim::dom::node::{Node, NodeTypeData};
use ohim::dom::object::Heap;
use ohim::dom::window::{Window, WindowProxy};
use ohim::dom_url::{DOMUrl, ImmutableOrigin};
use ohim::user_agent::UserAgent;

fn new_document(origin: ImmutableOrigin, realm: RealmID, heap: &mut Heap) -> Document {
    Document::new(
        true,
        headers::ContentType::html(),
        DocumentMode::LimitedQuirks,
        origin,
        BrowsingContextID(5),
        true,
        SandboxingFlag::from_bits_retain(SandboxingFlag::MODALS),
        false,
        true,
        Some(DOMUrl::parse("https://base.example/").unwrap()),
        realm,
        false,
        heap,
    )
    .unwrap()
}

#[test]
fn document_data_holds_the_arguments() {
    let origin = DOMUrl::parse("https://example.com/").unwrap().origin();
    let data = DocumentImpl::new(
        false,
        headers::ContentType::json(),
        DocumentMode::Quirks,
        origin.clone(),
        BrowsingContextID(9),
        true,
        SandboxingFlag::from_bits_retain(3),
        true,
        false,
        None,
        RealmID(4),
        true,
    )
    .unwrap();
    assert!(!data.is_html);
    assert!(data.content_type == headers::ContentType::json());
    assert_eq!(data.mode, DocumentMode::Quirks);
    assert!(data.origin == origin);
    assert_eq!(data.browsing_context, Some(BrowsingContextID(9)));
    assert!(data.policy);
    assert_eq!(data.flags.bits(), 3);
    assert!(data.time_info);
    assert!(!data.is_blank);
    assert!(data.about_base_url.is_none());
    assert!(data.allow_shadow);
    assert!(data.custom_element.is_none());
    assert_eq!(data.url.as_str(), "about:blank");
    assert_eq!(data.realm, RealmID(4));
    assert!(data.document_element.is_none());
    assert!(!data.visibility);
    assert_eq!(DocumentMode::default(), DocumentMode::NoQuirks);
}

#[test]
fn new_document_is_its_own_node_document() {
    let mut heap = Heap::new().unwrap();
    let origin = DOMUrl::parse("https://example.com/").unwrap().origin();
    let document = new_document(origin.clone(), RealmID(3), &mut heap);
    assert!(document.origin(&heap) == origin);
    assert_eq!(document.url(&heap).as_str(), "about:blank");
    assert_eq!(document.about_base_url(&heap).unwrap().as_str(), "https://base.example/");
    assert!(document.document_element(&heap).is_none());
    assert_eq!(document.realm(&heap), RealmID(3));
    assert!(!document.visibility(&heap));
    let node = Node(document.0);
    let data = node.data(&heap);
    assert!(data.node_document.unwrap().0.same(&document.0, &heap));
    assert!(data.child_nodes.is_empty());
    assert!(data.parent_node.is_none());
    assert!(data.event_target == EventTarget::new());
    let inner = data.as_document();
    assert_eq!(inner.mode, DocumentMode::LimitedQuirks);
    assert_eq!(inner.flags.bits(), SandboxingFlag::MODALS);
    assert!(matches!(data.data, NodeTypeData::Document(_)));
}

#[test]
fn populate_makes_html_head_and_body() {
    let mut heap = Heap::new().unwrap();
    let document = new_document(ImmutableOrigin::new_opaque(), RealmID(0), &mut heap);
    assert_eq!(document.populate_hhb(&mut heap), Ok(()));
    let node = Node(document.0);
    assert_eq!(node.data(&heap).child_nodes.len(), 1);
    let html = node.data(&heap).child_nodes[0];
    let html_data = html.data(&heap);
    assert!(matches!(html_data.as_element().local_name, ElementLocal::Html));
    assert_eq!(html_data.as_element().name_space, NameSpace::HTML);
    assert!(matches!(html_data.as_element().element_type, ElementType::HTMLElement(_)));
    assert!(html_data.previous_sibling.is_none() && html_data.next_sibling.is_none());
    assert_eq!(html_data.child_nodes.len(), 2);
    let head = html_data.child_nodes[0];
    let body = html_data.child_nodes[1];
    assert!(matches!(head.data(&heap).as_element().local_name, ElementLocal::Head));
    assert!(matches!(body.data(&heap).as_element().local_name, ElementLocal::Body));
    assert!(head.data(&heap).next_sibling.unwrap().0.same(&body.0, &heap));
    assert!(body.data(&heap).previous_sibling.unwrap().0.same(&head.0, &heap));
    assert!(head.data(&heap).previous_sibling.is_none());
    assert!(body.data(&heap).next_sibling.is_none());
    for element in [html, head, body] {
        let data = element.data(&heap);
        assert!(data.node_document.unwrap().0.same(&document.0, &heap));
        assert!(data.as_element().node_document.0.same(&document.0, &heap));
    }
    assert!(head.data(&heap).child_nodes.is_empty());
    assert!(body.data(&heap).child_nodes.is_empty());
}

#[test]
fn active_hands_the_window_to_the_browsing_context() {
    let mut ua = UserAgent::new();
    let mut heap = Heap::new().unwrap();
    let agent = Agent::create(&mut ua, false);
    let window = Window::new(&mut heap).unwrap();
    let realm = Realm::create(&mut ua, agent, Some(window), Some(WindowProxy {}));
    let realm_id = realm.id();
    realm.set_window_settings_object(
        &mut ua,
        DOMUrl::parse("about:blank").unwrap(),
        DOMUrl::parse("about:blank").unwrap(),
        ImmutableOrigin::new_opaque(),
        None,
    );
    let document = new_document(ImmutableOrigin::new_opaque(), realm_id, &mut heap);
    let mut context = BrowsingContext::create(&mut ua);
    assert!(context.window_handle().is_none());
    document.active(&mut context, true, &mut ua, &mut heap);
    assert!(context.window_handle().unwrap().0.same(&window.0, &heap));
    assert!(ua.get_realm(realm_id).unwrap().settings().unwrap().is_ready());
    assert!(document.visibility(&heap));
    assert_eq!(document.realm(&heap), realm_id);
    assert_eq!(document.url(&heap).as_str(), "about:blank");
    document.active(&mut context, false, &mut ua, &mut heap);
    assert!(!document.visibility(&heap));
    assert!(context.window_handle().is_some());
}

#[test]
fn active_without_registered_realm_gives_no_window() {
    let mut ua = UserAgent::new();
    let mut heap = Heap::new().unwrap();
    let window = Window::new(&mut heap).unwrap();
    let document = new_document(ImmutableOrigin::new_opaque(), RealmID(77), &mut heap);
    let mut context = BrowsingContext::create(&mut ua);
    context.set_window(Some(window));
    document.active(&mut context, true, &mut ua, &mut heap);
    assert!(context.window_handle().is_none());
    assert!(document.visibility(&heap));
    assert!(ua.get_realm(RealmID(77)).is_none());
}
