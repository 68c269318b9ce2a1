use ohim::agent::AgentID;
use ohim::browsing_context::{determin_origin, obtain_site, BrowsingContext};
use ohim::browsing_context::{BrowsingContextGroup, BrowsingContextID, IsolationMode};
use ohim::browsing_context::SandboxingFlag;
use ohim::dom::node::Node;
use ohim::dom::object::Heap;
use ohim::dom_url::{DOMUrl, Host, ImmutableOrigin, OpaqueOrigin};
use ohim::origin_map::OriginMap;
use ohim::user_agent::UserAgent;

fn origin(text: &str) -> ImmutableOrigin {
    DOMUrl::parse(text).unwrap().origin()
}

#[test]
fn flags_are_bits() {
    let empty = SandboxingFlag::empty();
    assert_eq!(empty.bits(), 0);
    assert!(empty.contains(0));
    assert!(!empty.contains(SandboxingFlag::ORIGIN_BROWSING_CONTEXT));
    assert_eq!(SandboxingFlag::NAVIGATION_BROWSING_CONTEXT, 1);
    assert_eq!(SandboxingFlag::ORIGIN_BROWSING_CONTEXT, 1 << 4);
    assert_eq!(SandboxingFlag::CUSTOM_PROTOCOLS_NAVIGATION_BROWSING_CONTEXT, 1 << 15);
    let flags = SandboxingFlag::from_bits_retain(
        SandboxingFlag::ORIGIN_BROWSING_CONTEXT | SandboxingFlag::MODALS,
    );
    assert!(flags.contains(SandboxingFlag::ORIGIN_BROWSING_CONTEXT));
    assert!(flags.contains(SandboxingFlag::MODALS));
    assert!(flags.contains(SandboxingFlag::ORIGIN_BROWSING_CONTEXT | SandboxingFlag::MODALS));
    assert!(!flags.contains(SandboxingFlag::FORMS_BROWSING_CONTEXT));
    assert!(!flags.contains(SandboxingFlag::MODALS | SandboxingFlag::FORMS_BROWSING_CONTEXT));
    let more = flags.union(SandboxingFlag::from_bits_retain(SandboxingFlag::FORMS_BROWSING_CONTEXT));
    assert_eq!(more.bits(), (1 << 4) | (1 << 11) | (1 << 5));
    assert!(more == SandboxingFlag::from_bits_retain(0x830));
}

#[test]
fn creation_sandbox_flags() {
    let mut ua = UserAgent::new();
    let mut context = BrowsingContext::create(&mut ua);
    assert_eq!(context.determine_creation_sandbox_flags(&None).bits(), 0);
    context.set_popup_flag(SandboxingFlag::from_bits_retain(SandboxingFlag::MODALS));
    assert_eq!(
        context.determine_creation_sandbox_flags(&None).bits(),
        SandboxingFlag::MODALS
    );
    assert_eq!(context.determine_creation_sandbox_flags(&Some(true)).bits(), 0);
    assert_eq!(context.determine_creation_sandbox_flags(&Some(false)).bits(), 0);
}

#[test]
fn site_replaces_the_port() {
    let o = origin("https://example.com:8443/");
    let site = obtain_site(&o);
    assert!(site == ImmutableOrigin::Tuple(
        String::from("https"),
        Host::Domain(String::from("example.com")),
        65535,
    ));
    assert!(obtain_site(&origin("https://example.com/")) == site);
    assert!(obtain_site(&origin("http://example.com/")) != site);
    assert!(obtain_site(&origin("https://other.example/")) != site);
    assert!(obtain_site(&site) == site);
    let opaque = ImmutableOrigin::Opaque(OpaqueOrigin::Opaque(3));
    assert!(obtain_site(&opaque) == opaque);
}

#[test]
fn determining_the_origin() {
    let blank = DOMUrl::parse("about:blank").unwrap();
    let srcdoc = DOMUrl::parse("about:srcdoc").unwrap();
    let http = DOMUrl::parse("http://example.com/").unwrap();
    let source = origin("https://source.example/");
    let none = SandboxingFlag::empty();
    let sandboxed = SandboxingFlag::from_bits_retain(SandboxingFlag::ORIGIN_BROWSING_CONTEXT);
    // The sandboxed origin flag gives a new opaque origin, whatever else is given.
    let o = determin_origin(Some(&http), sandboxed, Some(source.clone()));
    assert!(matches!(o, ImmutableOrigin::Opaque(OpaqueOrigin::Opaque(_))));
    // No URL gives a new opaque origin.
    assert!(!determin_origin(None, none, Some(source.clone())).is_tuple());
    assert!(!determin_origin(None, none, None).is_tuple());
    // about:blank and about:srcdoc inherit the source origin.
    assert!(determin_origin(Some(&blank), none, Some(source.clone())) == source);
    assert!(determin_origin(Some(&srcdoc), none, Some(source.clone())) == source);
    // Without a source origin they have their own, opaque origin.
    assert!(!determin_origin(Some(&blank), none, None).is_tuple());
    // Any other URL has its own origin.
    assert!(determin_origin(Some(&http), none, Some(source.clone())) == http.origin());
    assert!(determin_origin(Some(&http), none, None) == http.origin());
    // Other flags do not matter.
    let other = SandboxingFlag::from_bits_retain(SandboxingFlag::FORMS_BROWSING_CONTEXT);
    assert!(determin_origin(Some(&http), other, None) == http.origin());
}

#[test]
fn window_agent_is_stable() {
    let mut ua = UserAgent::new();
    let mut group = BrowsingContextGroup::create(&mut ua, IsolationMode::NotIsolated);
    let o = origin("https://example.com/");
    assert_eq!(group.agent_cluster_count(), 0);
    let first = group.window_agent(&mut ua, &o, false);
    assert_eq!(first, AgentID(0));
    assert_eq!(group.agent_cluster_count(), 1);
    let second = group.window_agent(&mut ua, &o, false);
    assert_eq!(second, first);
    assert_eq!(group.agent_cluster_count(), 1);
    // No agent was made the second time.
    assert!(ua.get_agent(AgentID(1)).is_none());
    assert!(!ua.get_agent(first).unwrap().blocks());
    let cluster = group.agent_cluster(&obtain_site(&o)).unwrap();
    assert_eq!(cluster.agent, first);
    assert!(!cluster.origin_keyed);
    assert_eq!(cluster.isolation_mode, IsolationMode::NotIsolated);
    assert!(group.historical_key(&o).unwrap() == &obtain_site(&o));
}

#[test]
fn window_agent_key_is_sticky() {
    let mut ua = UserAgent::new();
    let mut group = BrowsingContextGroup::create(&mut ua, IsolationMode::NotIsolated);
    let o = origin("https://example.com/");
    let site_keyed = group.window_agent(&mut ua, &o, false);
    // Asking for an origin-keyed cluster later gives the remembered key.
    assert_eq!(group.window_agent(&mut ua, &o, true), site_keyed);
    assert_eq!(group.agent_cluster_count(), 1);
    let mut other_group = BrowsingContextGroup::create(&mut ua, IsolationMode::NotIsolated);
    let origin_keyed = other_group.window_agent(&mut ua, &o, true);
    assert_eq!(other_group.window_agent(&mut ua, &o, false), origin_keyed);
    assert!(other_group.agent_cluster(&o).unwrap().origin_keyed);
    assert!(other_group.agent_cluster(&obtain_site(&o)).is_none());
    assert!(origin_keyed != site_keyed);
}

#[test]
fn isolated_groups_key_by_origin() {
    for mode in [IsolationMode::Logical, IsolationMode::Concrete] {
        let mut ua = UserAgent::new();
        let mut group = BrowsingContextGroup::create(&mut ua, mode);
        let o = origin("https://example.com/");
        let a = group.window_agent(&mut ua, &o, false);
        let b = group.window_agent(&mut ua, &o, true);
        assert_eq!(a, b);
        assert_eq!(group.agent_cluster_count(), 1);
        let cluster = group.agent_cluster(&o).unwrap();
        assert!(cluster.origin_keyed);
        assert_eq!(cluster.isolation_mode, mode);
        assert!(group.agent_cluster(&obtain_site(&o)).is_none());
        assert!(group.historical_key(&o).is_none());
        // Another port is another origin, so another agent.
        let other = group.window_agent(&mut ua, &origin("https://example.com:8443/"), false);
        assert!(other != a);
    }
}

#[test]
fn same_site_origins_share_an_agent_unless_origin_keyed() {
    let o1 = origin("https://example.com/");
    let o2 = origin("https://example.com:8443/");
    let mut ua = UserAgent::new();
    let mut group = BrowsingContextGroup::create(&mut ua, IsolationMode::NotIsolated);
    let a1 = group.window_agent(&mut ua, &o1, false);
    let a2 = group.window_agent(&mut ua, &o2, false);
    assert_eq!(a1, a2);
    assert_eq!(group.agent_cluster_count(), 1);
    let mut keyed = BrowsingContextGroup::create(&mut ua, IsolationMode::NotIsolated);
    let b1 = keyed.window_agent(&mut ua, &o1, true);
    let b2 = keyed.window_agent(&mut ua, &o2, true);
    assert!(b1 != b2);
    assert_eq!(keyed.agent_cluster_count(), 2);
    assert!(b1 != a1 && b2 != a1);
}

#[test]
fn origin_with_the_site_port_is_its_own_site() {
    let mut ua = UserAgent::new();
    let mut group = BrowsingContextGroup::create(&mut ua, IsolationMode::NotIsolated);
    let o = origin("https://example.com:65535/");
    let a = group.window_agent(&mut ua, &o, false);
    assert!(group.agent_cluster(&o).unwrap().origin_keyed);
    assert_eq!(group.window_agent(&mut ua, &origin("https://example.com/"), false), a);
}

#[test]
fn group_remembers_its_browsing_contexts() {
    let mut ua = UserAgent::new();
    let mut group = BrowsingContextGroup::create(&mut ua, IsolationMode::NotIsolated);
    assert!(!group.has_browsing_context(BrowsingContextID(3)));
    group.append(BrowsingContextID(3));
    group.append(BrowsingContextID(3));
    assert!(group.has_browsing_context(BrowsingContextID(3)));
    assert!(!group.has_browsing_context(BrowsingContextID(4)));
}

#[test]
fn new_browsing_context_makes_realm_and_document() {
    let mut ua = UserAgent::new();
    let mut heap = Heap::new().unwrap();
    let mut group = BrowsingContextGroup::create(&mut ua, IsolationMode::NotIsolated);
    let (context, document) =
        BrowsingContext::new_browsing_context(None, None, &mut group, &mut ua, &mut heap).unwrap();
    assert_eq!(context.id(), BrowsingContextID(0));
    assert_eq!(context.group_id(), None);
    assert!(context.window_handle().is_none());
    assert_eq!(context.determine_creation_sandbox_flags(&None).bits(), 0);
    let origin = document.origin(&heap);
    assert!(!origin.is_tuple());
    assert_eq!(document.url(&heap).as_str(), "about:blank");
    assert!(document.about_base_url(&heap).is_none());
    assert!(document.document_element(&heap).is_none());
    assert!(!document.visibility(&heap));
    // The group has one agent cluster, keyed by the document's origin.
    assert_eq!(group.agent_cluster_count(), 1);
    let cluster = group.agent_cluster(&origin).unwrap();
    assert!(cluster.origin_keyed);
    assert_eq!(cluster.agent, AgentID(0));
    // The document's realm is registered and bound to that agent.
    let realm = ua.get_realm(document.realm(&heap)).unwrap();
    assert_eq!(realm.agent_id(), cluster.agent);
    assert!(realm.window().is_some());
    let env = realm.settings().unwrap();
    assert!(!env.is_ready());
    assert_eq!(env.creation().as_str(), "about:blank");
    assert_eq!(env.top_level_url().unwrap().as_str(), "about:blank");
    assert!(env.top_level_origin().unwrap() == &origin);
    assert_eq!(env.target_browsing_context(), None);
    // The document holds html, which holds head and body.
    let node = Node(document.0);
    assert_eq!(node.data(&heap).child_nodes.len(), 1);
    // A second browsing context of the group gets another opaque origin and agent.
    let (second, other) =
        BrowsingContext::new_browsing_context(None, Some(true), &mut group, &mut ua, &mut heap)
            .unwrap();
    assert_eq!(second.id(), BrowsingContextID(1));
    assert!(other.origin(&heap) != origin);
    assert_eq!(group.agent_cluster_count(), 2);
    assert!(ua.get_realm(other.realm(&heap)).unwrap().agent_id() != cluster.agent);
}

#[test]
fn new_top_browsing_context_registers_group_and_context() {
    let mut ua = UserAgent::new();
    let mut heap = Heap::new().unwrap();
    let (group_id, context_id, document) =
        BrowsingContext::new_top_browsing_context(&mut ua, &mut heap).unwrap();
    let group = ua.get_browsing_context_group(group_id).unwrap();
    assert_eq!(group.id(), group_id);
    assert_eq!(group.isolation_mode(), IsolationMode::NotIsolated);
    assert!(group.has_browsing_context(context_id));
    assert_eq!(group.agent_cluster_count(), 1);
    let context = ua.get_browsing_context(context_id).unwrap();
    assert_eq!(context.id(), context_id);
    assert_eq!(context.group_id(), Some(group_id));
    let origin = document.origin(&heap);
    assert!(group.historical_key(&origin).unwrap() == &origin);
    assert_eq!(group.agent_cluster(&origin).unwrap().agent, AgentID(0));
    // A second top-level browsing context is in a group of its own.
    let (group2, context2, document2) =
        BrowsingContext::new_top_browsing_context(&mut ua, &mut heap).unwrap();
    assert!(group2 != group_id && context2 != context_id);
    assert!(!document2.0.same(&document.0, &heap));
    let agent2 = ua.get_realm(document2.realm(&heap)).unwrap().agent_id();
    assert_eq!(agent2, AgentID(1));
}

#[test]
fn group_and_document_are_not_registered_yet() {
    let mut ua = UserAgent::new();
    let mut heap = Heap::new().unwrap();
    let (group, context, _document) =
        BrowsingContextGroup::new_browsing_context_group_and_document(&mut ua, &mut heap).unwrap();
    assert!(group.has_browsing_context(context.id()));
    assert_eq!(context.group_id(), Some(group.id()));
    assert!(ua.get_browsing_context_group(group.id()).is_none());
    assert!(ua.get_browsing_context(context.id()).is_none());
}

#[test]
fn origin_map_replaces_a_mapped_value() {
    let a = origin("https://a.example/");
    let b = origin("https://b.example/");
    let mut map: OriginMap<u32> = OriginMap::new();
    assert_eq!(map.len(), 0);
    assert_eq!(map.insert(a.clone(), 1), None);
    assert_eq!(map.insert(b.clone(), 2), None);
    assert_eq!(map.len(), 2);
    assert_eq!(map.insert(a.clone(), 3), Some(1));
    assert_eq!(map.len(), 2);
    assert_eq!(map.get(&a), Some(&3));
    assert_eq!(map.get(&b), Some(&2));
    assert!(map.contains_key(&a));
    assert!(!map.contains_key(&origin("https://c.example/")));
    assert_eq!(map.get(&origin("https://c.example/")), None);
    assert_eq!(map.insert(b.clone(), 4), Some(2));
    assert_eq!(map.get(&a), Some(&3));
    assert_eq!(map.get(&b), Some(&4));
}

#[test]
fn isolated_group_gives_each_origin_its_agent() {
    let o1 = origin("https://example.com/");
    let o2 = origin("https://example.com:8443/");
    for mode in [IsolationMode::Logical, IsolationMode::Concrete] {
        let mut ua = UserAgent::new();
        let mut group = BrowsingContextGroup::create(&mut ua, mode);
        let a1 = group.window_agent(&mut ua, &o1, false);
        assert!(group.window_agent(&mut ua, &o2, false) != a1);
        assert_eq!(group.window_agent(&mut ua, &o1, true), a1);
        assert_eq!(group.agent_cluster_count(), 2);
    }
}
