use ohim::agent::AgentID;
use ohim::dom::node::Node;
use ohim::dom::object::Heap;
use ohim::dom_url::{DOMUrl, ImmutableOrigin};
use ohim::navigible::{DocumentState, Navigable, NavigableError, NavigableID};
use ohim::navigible::{NavigationHistoryBehavior, ReferrerPolicy, SessionHistoryID, Traversable};
use ohim::user_agent::UserAgent;

#[test]
fn top_traversable_has_one_entry_with_step_zero() {
    let mut ua = UserAgent::new();
    let mut heap = Heap::new().unwrap();
    let navigable =
        Navigable::create_top_traversable(None, String::from(""), None, &mut ua, &mut heap)
            .unwrap();
    assert_eq!(navigable.navigable_id(), NavigableID(0));
    let history = navigable.history().unwrap();
    assert_eq!(history.len(), 1);
    let entry_id = navigable.active_entry_id().unwrap();
    assert_eq!(entry_id, SessionHistoryID(0));
    assert_eq!(navigable.current_entry_id(), Some(entry_id));
    assert_eq!(navigable.parent_id(), None);
    let entry = history.get(entry_id).unwrap();
    assert_eq!(entry.id, entry_id);
    assert_eq!(entry.step, Some(0));
    assert_eq!(entry.url.as_str(), "about:blank");
    assert_eq!(entry.state.target, "");
    assert!(entry.state.initiator_origin.is_none());
    assert!(entry.state.about_base_url.is_none());
    let document = entry.state.document.unwrap();
    let origin = document.origin(&heap);
    assert!(!origin.is_tuple());
    assert!(entry.state.origin.as_ref().unwrap() == &origin);
    let children = &Node(document.0).data(&heap).child_nodes;
    assert_eq!(children.len(), 1);
    let html = children[0];
    assert_eq!(html.data(&heap).child_nodes.len(), 2);
    assert!(history.get(SessionHistoryID(1)).is_none());
}

#[test]
fn top_traversables_have_agents_of_their_own() {
    let mut ua = UserAgent::new();
    let mut heap = Heap::new().unwrap();
    let mut agents = Vec::new();
    for i in 0..3usize {
        let navigable = Navigable::create_top_traversable(
            None,
            String::from("target"),
            None,
            &mut ua,
            &mut heap,
        )
        .unwrap();
        assert_eq!(navigable.navigable_id(), NavigableID(i));
        let entry_id = navigable.active_entry_id().unwrap();
        assert_eq!(entry_id, SessionHistoryID(i));
        let entry = navigable.history().unwrap().get(entry_id).unwrap();
        assert_eq!(entry.state.target, "target");
        let document = entry.state.document.unwrap();
        let realm = ua.get_realm(document.realm(&heap)).unwrap();
        let agent = realm.agent_id();
        assert_eq!(agent, AgentID(i));
        assert_eq!(ua.get_agent(agent).unwrap().id(), agent);
        assert!(!agents.contains(&agent));
        agents.push(agent);
    }
}

#[test]
fn opener_is_not_implemented() {
    let mut ua = UserAgent::new();
    let mut heap = Heap::new().unwrap();
    let r = Navigable::create_top_traversable(Some(true), String::new(), None, &mut ua, &mut heap);
    assert!(matches!(r, Err(NavigableError::NotImplemented)));
    // Nothing was handed out.
    assert_eq!(ua.next_navigable_id(), NavigableID(0));
    assert_eq!(ua.next_agent_id(), AgentID(0));
}

#[test]
fn navigation_is_not_implemented() {
    let mut ua = UserAgent::new();
    let mut heap = Heap::new().unwrap();
    let navigable = Navigable::new(&mut ua);
    let r = navigable.navigate(
        DOMUrl::parse("https://example.com/").unwrap(),
        None,
        None,
        None,
        false,
        NavigationHistoryBehavior::Push,
        None,
        None,
        ReferrerPolicy::NoReferrer,
        None,
        None,
        true,
    );
    assert_eq!(r, Err(NavigableError::NotImplemented));
    let fresh = Navigable::create_fresh_top_traversable(
        DOMUrl::parse("https://example.com/").unwrap(),
        None,
        &mut ua,
        &mut heap,
    );
    assert!(matches!(fresh, Err(NavigableError::NotImplemented)));
    // The traversable was made before the navigation failed.
    assert_eq!(ua.next_navigable_id(), NavigableID(2));
    assert_eq!(ua.next_agent_id(), AgentID(1));
    assert!(ua.get_realm(ohim::agent::RealmID(0)).is_some());
    assert!(ua
        .get_browsing_context(ohim::browsing_context::BrowsingContextID(0))
        .is_some());
    assert_eq!(NavigationHistoryBehavior::default(), NavigationHistoryBehavior::Auto);
    assert_eq!(ReferrerPolicy::default(), ReferrerPolicy::StrictOriginWhenCrossOrigin);
}

#[test]
fn initialize_makes_an_entry_without_step() {
    let mut ua = UserAgent::new();
    let mut navigable = Navigable::new(&mut ua);
    assert!(navigable.current_entry_id().is_none());
    assert!(navigable.active_entry_id().is_none());
    assert!(navigable.history().is_none());
    let state = DocumentState {
        document: None,
        initiator_origin: Some(ImmutableOrigin::new_opaque()),
        origin: None,
        target: String::from("name"),
        about_base_url: None,
    };
    let url = DOMUrl::parse("https://example.com/").unwrap();
    let entry = navigable.initialize(&mut ua, state, url, Some(NavigableID(9)));
    assert_eq!(entry.id, SessionHistoryID(0));
    assert_eq!(entry.step, None);
    assert_eq!(entry.url.as_str(), "https://example.com/");
    assert_eq!(entry.state.target, "name");
    assert!(entry.state.document.is_none());
    assert!(entry.state.initiator_origin.is_some());
    assert_eq!(navigable.current_entry_id(), Some(entry.id));
    assert_eq!(navigable.active_entry_id(), Some(entry.id));
    assert_eq!(navigable.parent_id(), Some(NavigableID(9)));
    assert!(navigable.history().is_none());
    let state = DocumentState {
        document: None,
        initiator_origin: None,
        origin: None,
        target: String::new(),
        about_base_url: None,
    };
    let second = navigable.initialize(
        &mut ua,
        state,
        DOMUrl::parse("about:blank").unwrap(),
        None,
    );
    assert_eq!(second.id, SessionHistoryID(1));
    assert_eq!(second.step, None);
    assert_eq!(navigable.active_entry_id(), Some(SessionHistoryID(1)));
    assert_eq!(navigable.parent_id(), None);
}

#[test]
fn traversable_holds_entries_by_identifier() {
    let mut ua = UserAgent::new();
    let mut navigable = Navigable::new(&mut ua);
    let mut entries = Traversable::new();
    assert_eq!(entries.len(), 0);
    for i in 0..3usize {
        let state = DocumentState {
            document: None,
            initiator_origin: None,
            origin: None,
            target: String::new(),
            about_base_url: None,
        };
        let mut entry =
            navigable.initialize(&mut ua, state, DOMUrl::parse("about:blank").unwrap(), None);
        entry.step = Some(i);
        entries.append(entry);
    }
    assert_eq!(entries.len(), 3);
    assert_eq!(entries.get(SessionHistoryID(2)).unwrap().step, Some(2));
    assert!(entries.get(SessionHistoryID(3)).is_none());
}
