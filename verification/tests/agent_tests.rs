use ohim::agent::{Agent, AgentID, Environment, EnvironmentID, Realm, RealmID};
use ohim::browsing_context::{BrowsingContext, BrowsingContextGroup, BrowsingContextID};
use ohim::browsing_context::{BrowsingContextGroupID, IsolationMode};
use ohim::dom::object::Heap;
use ohim::dom::window::{Window, WindowProxy};
use ohim::dom_url::{DOMUrl, ImmutableOrigin};
use ohim::navigible::{Navigable, NavigableID};
use ohim::user_agent::{IdCounter, UserAgent};

#[test]
fn counter_hands_out_increasing_numbers() {
    let mut counter = IdCounter::new();
    assert!(!counter.is_exhausted());
    assert!(counter.has_room(usize::MAX));
    let mut ids = Vec::new();
    for _ in 0..100 {
        ids.push(counter.issue());
    }
    for i in 0..100 {
        assert_eq!(ids[i], i);
        for j in 0..i {
            assert!(ids[j] < ids[i]);
        }
    }
    assert!(!counter.has_room(usize::MAX));
    assert!(counter.has_room(usize::MAX - 100));
}

#[test]
fn identifiers_of_every_kind_are_distinct_and_ordered() {
    let mut ua = UserAgent::new();
    assert!(ua.has_room_for(1));
    for i in 0..5usize {
        assert_eq!(ua.next_agent_id(), AgentID(i));
        assert_eq!(ua.next_realm_id(), RealmID(i));
        assert_eq!(ua.next_environment_id(), EnvironmentID(i));
        assert_eq!(ua.next_browsing_context_id(), BrowsingContextID(i));
        assert_eq!(ua.next_browsing_context_group_id(), BrowsingContextGroupID(i));
        assert_eq!(ua.next_navigable_id(), NavigableID(i));
    }
    // The kinds count independently.
    assert_eq!(ua.next_agent_id(), AgentID(5));
    assert_eq!(ua.next_agent_id(), AgentID(6));
    assert_eq!(ua.next_realm_id(), RealmID(5));
    assert_eq!(Navigable::new(&mut ua).navigable_id(), NavigableID(5));
    assert_eq!(BrowsingContext::create(&mut ua).id(), BrowsingContextID(5));
    assert_eq!(
        BrowsingContextGroup::create(&mut ua, IsolationMode::Logical).id(),
        BrowsingContextGroupID(5)
    );
}

#[test]
fn agents_are_registered_under_their_identifier() {
    let mut ua = UserAgent::new();
    assert!(ua.get_agent(AgentID(0)).is_none());
    let a = Agent::create(&mut ua, true);
    let b = Agent::create(&mut ua, false);
    assert_eq!(a, AgentID(0));
    assert_eq!(b, AgentID(1));
    assert_eq!(ua.get_agent(a).unwrap().id(), a);
    assert!(ua.get_agent(a).unwrap().blocks());
    assert_eq!(ua.get_agent(b).unwrap().id(), b);
    assert!(!ua.get_agent(b).unwrap().blocks());
    assert!(ua.get_agent(AgentID(2)).is_none());
}

#[test]
fn realm_is_registered_only_with_its_settings_object() {
    let mut ua = UserAgent::new();
    let mut heap = Heap::new().unwrap();
    let agent = Agent::create(&mut ua, false);
    let window = Window::new(&mut heap).unwrap();
    let realm = Realm::create(&mut ua, agent, Some(window), Some(WindowProxy {}));
    let id = realm.id();
    assert_eq!(id, RealmID(0));
    assert_eq!(realm.agent_id(), agent);
    assert!(realm.settings().is_none());
    assert!(realm.window().is_some());
    assert!(ua.get_realm(id).is_none());
    let blank = DOMUrl::parse("about:blank").unwrap();
    let top = DOMUrl::parse("https://top.example/").unwrap();
    let origin = top.origin();
    realm.set_window_settings_object(&mut ua, blank, top, origin.clone(), None);
    let registered = ua.get_realm(id).unwrap();
    assert_eq!(registered.id(), id);
    assert_eq!(registered.agent_id(), agent);
    assert!(registered.window().unwrap().0.same(&window.0, &heap));
    let env = registered.settings().unwrap();
    assert_eq!(env.environment_id(), EnvironmentID(0));
    assert_eq!(env.target_browsing_context(), None);
    assert_eq!(env.creation().as_str(), "about:blank");
    assert_eq!(env.top_level_url().unwrap().as_str(), "https://top.example/");
    assert!(env.top_level_origin().unwrap() == &origin);
    assert!(!env.is_ready());
    // A second realm gets the next identifiers.
    let second = Realm::create(&mut ua, agent, None, None);
    assert_eq!(second.id(), RealmID(1));
    assert!(second.window().is_none());
    second.set_window_settings_object(
        &mut ua,
        DOMUrl::parse("about:blank").unwrap(),
        DOMUrl::parse("about:blank").unwrap(),
        ImmutableOrigin::new_opaque(),
        None,
    );
    assert_eq!(
        ua.get_realm(RealmID(1)).unwrap().settings().unwrap().environment_id(),
        EnvironmentID(1)
    );
    assert_eq!(ua.get_realm(id).unwrap().settings().unwrap().environment_id(), EnvironmentID(0));
}

#[test]
fn reserved_environment_gives_identifier_and_browsing_context() {
    let mut ua = UserAgent::new();
    let agent = Agent::create(&mut ua, false);
    let _first = ua.next_environment_id();
    let reserved = Environment::reserve(
        &mut ua,
        DOMUrl::parse("https://reserved.example/").unwrap(),
        Some(BrowsingContextID(42)),
    );
    assert_eq!(reserved.environment_id(), EnvironmentID(1));
    assert!(reserved.top_level_url().is_none());
    assert!(reserved.top_level_origin().is_none());
    let realm = Realm::create(&mut ua, agent, None, None);
    let id = realm.id();
    realm.set_window_settings_object(
        &mut ua,
        DOMUrl::parse("https://creation.example/").unwrap(),
        DOMUrl::parse("https://top.example/").unwrap(),
        ImmutableOrigin::new_opaque(),
        Some(reserved),
    );
    let env_id = {
        let env = ua.get_realm(id).unwrap().settings().unwrap();
        assert_eq!(env.target_browsing_context(), Some(BrowsingContextID(42)));
        assert_eq!(env.creation().as_str(), "https://creation.example/");
        assert!(!env.is_ready());
        env.environment_id()
    };
    assert_eq!(env_id, EnvironmentID(1));
    // No identifier was handed out for the settings object.
    assert_eq!(ua.next_environment_id(), EnvironmentID(2));
}

#[test]
fn make_realm_ready_sets_the_flag_of_that_realm_only() {
    let mut ua = UserAgent::new();
    let mut heap = Heap::new().unwrap();
    let agent = Agent::create(&mut ua, false);
    let window = Window::new(&mut heap).unwrap();
    for with_window in [true, false] {
        let realm = Realm::create(
            &mut ua,
            agent,
            if with_window { Some(window) } else { None },
            None,
        );
        realm.set_window_settings_object(
            &mut ua,
            DOMUrl::parse("about:blank").unwrap(),
            DOMUrl::parse("about:blank").unwrap(),
            ImmutableOrigin::new_opaque(),
            None,
        );
    }
    assert!(ua.make_realm_ready(RealmID(7)).is_none());
    let got = ua.make_realm_ready(RealmID(0)).unwrap();
    assert!(got.0.same(&window.0, &heap));
    assert!(ua.get_realm(RealmID(0)).unwrap().settings().unwrap().is_ready());
    assert!(!ua.get_realm(RealmID(1)).unwrap().settings().unwrap().is_ready());
    assert!(ua.make_realm_ready(RealmID(1)).is_none());
    assert!(ua.get_realm(RealmID(1)).unwrap().settings().unwrap().is_ready());
    assert_eq!(ua.get_realm(RealmID(1)).unwrap().agent_id(), agent);
}

#[test]
fn registries_of_contexts_and_groups() {
    let mut ua = UserAgent::new();
    let mut context = BrowsingContext::create(&mut ua);
    let group = BrowsingContextGroup::create(&mut ua, IsolationMode::Concrete);
    context.set_group(group.id());
    let (cid, gid) = (context.id(), group.id());
    assert!(ua.get_browsing_context(cid).is_none());
    assert!(ua.get_browsing_context_group(gid).is_none());
    ua.register_browsing_context(context);
    ua.register_browsing_context_group(group);
    assert_eq!(ua.get_browsing_context(cid).unwrap().group_id(), Some(gid));
    assert_eq!(
        ua.get_browsing_context_group(gid).unwrap().isolation_mode(),
        IsolationMode::Concrete
    );
    assert!(ua.get_browsing_context(BrowsingContextID(1)).is_none());
}
