//! A browsing context is a programmatic representation of a series of
//! documents, multiple of which can live within a single navigable.

use std::collections::HashSet;
use vstd::prelude::*;

use crate::agent::{Agent, AgentCluster, AgentID, Realm, RealmID};
use crate::dom::document::{
    about_blank,
    html_content_type,
    is_skeleton,
    lemma_skeleton_keeps,
    Document,
    DocumentError,
    DocumentImpl,
    DocumentMode,
};
use crate::dom::node::{fresh_node, keeps, siblings_linked, NodeTypeData, NodeView};
use crate::dom::object::{Heap, ObjectView};
use crate::dom::window::{Window, WindowProxy};
use crate::dom_url::{
    url_origin,
    DOMUrl,
    HostView,
    ImmutableOrigin,
    OpaqueOrigin,
    OriginView,
};
use crate::origin_map::OriginMap;
use crate::string::str_equal;
use crate::user_agent::UserAgent;

verus! {

broadcast use vstd::std_specs::hash::group_hash_axioms;

/// <https://html.spec.whatwg.org/multipage/document-sequences.html#browsing-context>
#[derive(Debug)]
pub struct BrowsingContext {
    id: BrowsingContextID,
    group: Option<BrowsingContextGroupID>,
    /// <https://html.spec.whatwg.org/multipage/#popup-sandboxing-flag-set>
    popup_flag: SandboxingFlag,
    /// The window that the browsing context's `WindowProxy` stands for.
    window: Option<Window>,
}

/// Whether `data` is the data of the initial document of the browsing
/// context `context`, in the realm `realm`: an HTML document in quirks mode
/// with the URL `about:blank`, without sandboxing flags.
pub open spec fn is_initial_document(
    data: DocumentImpl,
    context: BrowsingContextID,
    realm: RealmID,
) -> bool {
    &&& data.is_html
    &&& data.mode == DocumentMode::Quirks
    &&& is_origin_of_url(data.origin@, about_blank().unwrap())
    &&& data.browsing_context == Some(context)
    &&& !data.policy
    &&& data.flags == SandboxingFlag::spec_empty()
    &&& !data.time_info
    &&& data.is_blank
    &&& data.about_base_url is None
    &&& data.allow_shadow
    &&& data.custom_element is None
    &&& about_blank() == Some(data.url@)
    &&& data.realm == realm
    &&& data.document_element is None
    &&& !data.visibility
}

/// Whether `realm` is the realm of the initial document of a browsing
/// context: a realm of `agent` whose global object is a window, with a new
/// environment settings object for `about:blank` and `origin` that has the
/// identifier `environment`, no browsing context, and is not ready.
pub open spec fn is_initial_realm(
    realm: Realm,
    id: RealmID,
    agent: AgentID,
    origin: OriginView,
    environment: nat,
) -> bool {
    &&& realm.id() == id
    &&& realm.agent() == agent
    &&& realm.global_object() is Some
    &&& realm.global_this() == Some(WindowProxy {  })
    &&& realm.settings_object() is Some
    &&& realm.settings_object().unwrap().id().0 == environment
    &&& Some(realm.settings_object().unwrap().creation_url()) == about_blank()
    &&& realm.settings_object().unwrap().top_url() == about_blank()
    &&& realm.settings_object().unwrap().top_origin() == Some(origin)
    &&& realm.settings_object().unwrap().browsing_context() is None
    &&& !realm.settings_object().unwrap().ready()
}

/// The heap `h` with a new window `window` and a new document `document`
/// that is its own node document and holds `data`.
pub open spec fn with_window_and_document(
    h: Map<int, ObjectView>,
    window: int,
    document: int,
    data: NodeTypeData,
) -> Map<int, ObjectView> {
    h.insert(window, ObjectView::Window).insert(
        document,
        ObjectView::Node(NodeView { document: Some(document), ..fresh_node(data) }),
    )
}

/// Whether the user agent `after`, the group `group_after` and the heap
/// `heap_after` are what `new_browsing_context` makes of `before`,
/// `group_before` and `heap_before` where it returns `context` and
/// `document`.
pub open spec fn is_new_browsing_context(
    before: UserAgent,
    after: UserAgent,
    group_before: GroupView,
    group_after: GroupView,
    heap_before: Map<int, ObjectView>,
    heap_after: Map<int, ObjectView>,
    context: BrowsingContext,
    document: Document,
) -> bool {
    let origin = heap_after[document.id()]->Node_0.data->Document_0.origin@;
    let fresh = AgentID(before.issued().agents as usize);
    let agent = group_before.window_agent(origin, false, fresh);
    let realm = RealmID(before.issued().realms as usize);
    &&& about_blank() is Some
    &&& context.id().0 == before.issued().browsing_contexts
    &&& context.group() is None
    &&& context.popup_flag() == SandboxingFlag::spec_empty()
    &&& context.window() is None
    &&& group_after == group_before.after_window_agent(origin, false, fresh)
    &&& after.issued().browsing_contexts == before.issued().browsing_contexts + 1
    &&& after.issued().realms == before.issued().realms + 1
    &&& after.issued().environments == before.issued().environments + 1
    &&& after.issued().agents == (if group_before.makes_agent(origin, false) {
        before.issued().agents + 1
    } else {
        before.issued().agents
    })
    &&& forall|a: AgentID| a != agent ==> #[trigger] after.agent(a) == before.agent(a)
    &&& group_before.makes_agent(origin, false) ==> agent == fresh && before.agent(agent) is None
        && after.agent(agent) is Some
    &&& !group_before.makes_agent(origin, false) ==> after.same_agents(before)
    &&& forall|r: RealmID| r != realm ==> #[trigger] after.realm(r) == before.realm(r)
    &&& after.same_browsing_contexts(before)
    &&& after.same_browsing_context_groups(before)
    &&& after.realm(realm) is Some
    &&& is_initial_realm(
        after.realm(realm).unwrap(),
        realm,
        agent,
        origin,
        before.issued().environments,
    )
    &&& !heap_before.contains_key(after.realm(realm).unwrap().global_object().unwrap().id())
    &&& !heap_before.contains_key(document.id())
    &&& heap_after.contains_key(document.id())
    &&& heap_after[document.id()] is Node
    &&& heap_after[document.id()]->Node_0.data is Document
    &&& is_initial_document(
        heap_after[document.id()]->Node_0.data->Document_0,
        context.id(),
        realm,
    )
    &&& exists|html: int, head: int, body: int|
        is_skeleton(
            with_window_and_document(
                heap_before,
                after.realm(realm).unwrap().global_object().unwrap().id(),
                document.id(),
                heap_after[document.id()]->Node_0.data,
            ),
            heap_after,
            document,
            html,
            head,
            body,
        )
}

/// No flag is in the empty set.
pub proof fn lemma_empty_contains_no_flag(flags: u32)
    requires
        flags != 0,
    ensures
        !SandboxingFlag::spec_empty().spec_contains(flags),
{
    SandboxingFlag::lemma_empty_bits();
    assert(0u32 & flags == 0u32) by (bit_vector);
}

impl BrowsingContext {
    /// <https://html.spec.whatwg.org/multipage/document-sequences.html#creating-a-new-top-level-browsing-context>
    ///
    /// Makes a new browsing context group with a new browsing context and its
    /// initial document, and registers the group and the browsing context
    /// with the user agent.
    pub fn new_top_browsing_context(ua: &mut UserAgent, heap: &mut Heap) -> (r: Result<
        (BrowsingContextGroupID, BrowsingContextID, Document),
        DocumentError,
    >)
        requires
            old(ua).wf(),
            old(ua).can_make_browsing_context(),
            old(ua).issued().browsing_context_groups < usize::MAX,
            old(heap).well_formed(),
        ensures
            final(ua).wf(),
            final(heap).well_formed(),
            final(ua).issued().at_least(old(ua).issued()),
            final(ua).issued().navigables == old(ua).issued().navigables,
            final(ua).issued().session_histories == old(ua).issued().session_histories,
            siblings_linked(old(heap)@) ==> siblings_linked(final(heap)@),
            keeps(final(heap)@, old(heap)@),
            match r {
                Ok((group_id, context_id, document)) => {
                    &&& group_id.0 == old(ua).issued().browsing_context_groups
                    &&& context_id.0 == old(ua).issued().browsing_contexts
                    &&& final(ua).browsing_context_group(group_id) is Some
                    &&& final(ua).browsing_context(context_id) is Some
                    &&& final(ua).issued().browsing_context_groups == old(
                        ua,
                    ).issued().browsing_context_groups + 1
                    &&& is_top_browsing_context(
                        *old(ua),
                        *final(ua),
                        old(heap)@,
                        final(heap)@,
                        final(ua).browsing_context_group(group_id).unwrap()@,
                        final(ua).browsing_context(context_id).unwrap(),
                        document,
                    )
                },
                Err(DocumentError::AboutBlank) => about_blank() is None,
                Err(DocumentError::Heap(_)) => about_blank() is Some,
            },
    {
        // Let group and document be the result of creating a new browsing context group and document.
        match BrowsingContextGroup::new_browsing_context_group_and_document(ua, heap) {
            Ok((group, context, document)) => {
                let group_id = group.id();
                let context_id = context.id();
                ua.register_browsing_context(context);
                ua.register_browsing_context_group(group);
                proof {
                    let g = group@;
                    assert(is_top_browsing_context(
                        *old(ua),
                        *ua,
                        old(heap)@,
                        heap@,
                        g,
                        context,
                        document,
                    ));
                }
                Ok((group_id, context_id, document))
            },
            Err(e) => Err(e),
        }
    }

    /// <https://html.spec.whatwg.org/multipage/document-sequences.html#creating-a-new-browsing-context>
    ///
    /// Makes a browsing context with the next identifier and its initial
    /// document: the origin of `about:blank` is determined, `group` gives the
    /// window agent for it, a realm of that agent is made with a new window
    /// and registered, and the document is made in that realm and populated
    /// with an `html`, a `head` and a `body` element.
    ///
    /// Fails where the URL parser refuses `about:blank` or the heap fails.
    /// Identifiers that were handed out by then stay handed out, and what was
    /// registered or put into the heap by then stays there.
    #[verifier::rlimit(60)]
    #[verifier::spinoff_prover]
    pub fn new_browsing_context(
        creator: Option<Document>,
        embedder: Option<bool>,
        group: &mut BrowsingContextGroup,
        ua: &mut UserAgent,
        heap: &mut Heap,
    ) -> (r: Result<(Self, Document), DocumentError>)
        requires
            old(group).wf(),
            old(group)@.agents_known(old(ua).issued().agents),
            old(ua).wf(),
            old(ua).can_make_browsing_context(),
            old(heap).well_formed(),
        ensures
            final(group).wf(),
            final(ua).wf(),
            final(heap).well_formed(),
            final(group)@.id == old(group)@.id,
            final(group)@.browsing_contexts == old(group)@.browsing_contexts,
            final(ua).issued().at_least(old(ua).issued()),
            final(ua).issued().browsing_context_groups == old(ua).issued().browsing_context_groups,
            final(ua).issued().navigables == old(ua).issued().navigables,
            final(ua).issued().session_histories == old(ua).issued().session_histories,
            final(ua).same_browsing_contexts(*old(ua)),
            final(ua).same_browsing_context_groups(*old(ua)),
            siblings_linked(old(heap)@) ==> siblings_linked(final(heap)@),
            keeps(final(heap)@, old(heap)@),
            final(group)@.agents_known(final(ua).issued().agents),
            match r {
                Ok((context, document)) => is_new_browsing_context(
                    *old(ua),
                    *final(ua),
                    old(group)@,
                    final(group)@,
                    old(heap)@,
                    final(heap)@,
                    context,
                    document,
                ),
                Err(DocumentError::AboutBlank) => about_blank() is None && final(heap)@ == old(
                    heap,
                )@ && final(group)@ == old(group)@ && final(ua).same_registries(*old(ua)),
                Err(DocumentError::Heap(_)) => about_blank() is Some,
            },
    {
        // Let browsingContext be a new browsing context.
        let context = BrowsingContext::create(ua);
        // Let creatorOrigin be null, and creatorBaseURL be null.
        let creator_origin: Option<ImmutableOrigin> = None;
        let creator_url: Option<DOMUrl> = None;
        // Let sandboxFlags be the result of determining the creation sandboxing flags given browsingContext and
        // embedder.
        let flags = context.determine_creation_sandbox_flags(&embedder);
        proof {
            lemma_empty_contains_no_flag(SandboxingFlag::ORIGIN_BROWSING_CONTEXT);
        }
        // Let origin be the result of determining the origin given about:blank, sandboxFlags, and creatorOrigin.
        let blank = match DOMUrl::parse("about:blank") {
            Ok(url) => url,
            Err(_) => {
                return Err(DocumentError::AboutBlank);
            },
        };
        let origin = determin_origin(Some(&blank), flags, creator_origin);
        // The permissions policy is not made yet.
        let policy = false;
        // Let agent be the result of obtaining a similar-origin window agent given origin, group, and false.
        let agent = group.window_agent(ua, &origin, false);
        // Let realm execution context be the result of creating a new realm given agent, with a new window as
        // the global object.
        let window = match Window::new(heap) {
            Ok(window) => window,
            Err(e) => {
                proof {
                    assert(keeps(heap@, old(heap)@));
                }
                return Err(DocumentError::Heap(e));
            },
        };
        let ghost with_window = heap@;
        let realm = Realm::create(ua, agent, Some(window), Some(WindowProxy {  }));
        let realm_id = realm.id();
        // Let topLevelCreationURL be about:blank, and topLevelOrigin be origin.
        let top_url = blank.clone();
        let top_origin = origin.clone();
        // Set up a window environment settings object with about:blank, realm execution context, null,
        // topLevelCreationURL, and topLevelOrigin.
        realm.set_window_settings_object(ua, blank, top_url, top_origin, None);
        // The load timing info is not made yet.
        let load_time_info = false;
        // Let document be a new Document.
        let document = match Document::new(
            true,
            html_content_type(),
            DocumentMode::Quirks,
            origin,
            context.id(),
            policy,
            flags,
            load_time_info,
            true,
            creator_url,
            realm_id,
            true,
            heap,
        ) {
            Ok(document) => document,
            Err(e) => {
                proof {
                    assert(keeps(heap@, old(heap)@));
                }
                return Err(e);
            },
        };
        let ghost with_document = heap@;
        // Populate with html/head/body given document.
        match document.populate_hhb(heap) {
            Ok(_) => {},
            Err(e) => {
                proof {
                    assert forall|id: int| #[trigger] old(heap)@.contains_key(id) implies heap@.contains_key(
                        id,
                    ) && heap@[id] == old(heap)@[id] by {
                        assert(with_window.contains_key(id));
                        assert(with_document.contains_key(id));
                    }
                }
                return Err(DocumentError::Heap(e));
            },
        }
        proof {
            let (html, head, body) = choose|html: int, head: int, body: int|
                is_skeleton(with_document, heap@, document, html, head, body);
            lemma_skeleton_keeps(
                with_document,
                heap@,
                document,
                html,
                head,
                body,
            );
            assert(with_document == with_window_and_document(
                old(heap)@,
                window.id(),
                document.id(),
                heap@[document.id()]->Node_0.data,
            ));
            assert forall|id: int| #[trigger] old(heap)@.contains_key(id) implies heap@.contains_key(
                id,
            ) && heap@[id] == old(heap)@[id] by {
                assert(with_window.contains_key(id));
                assert(with_document.contains_key(id));
            }
            let registered = ua.realm(realm_id).unwrap();
            assert(registered.global_object() == Some(window));
            assert(is_skeleton(
                with_window_and_document(
                    old(heap)@,
                    registered.global_object().unwrap().id(),
                    document.id(),
                    heap@[document.id()]->Node_0.data,
                ),
                heap@,
                document,
                html,
                head,
                body,
            ));
            assert(is_initial_realm(
                registered,
                realm_id,
                agent,
                origin@,
                old(ua).issued().environments,
            ));
            assert(is_initial_document(
                heap@[document.id()]->Node_0.data->Document_0,
                context.id(),
                realm_id,
            ));
            assert(heap@[document.id()]->Node_0.data->Document_0.origin@ == origin@);
        }
        // Return browsingContext and document.
        Ok((context, document))
    }

    /// The group that the browsing context belongs to, if it belongs to one.
    pub closed spec fn group(&self) -> Option<BrowsingContextGroupID> {
        self.group
    }

    /// <https://html.spec.whatwg.org/multipage/#popup-sandboxing-flag-set>
    pub closed spec fn popup_flag(&self) -> SandboxingFlag {
        self.popup_flag
    }

    /// The window that the browsing context's `WindowProxy` stands for.
    pub closed spec fn window(&self) -> Option<Window> {
        self.window
    }

    /// A browsing context with the next browsing context identifier, in no
    /// group, with no sandboxing flag and no window.
    pub fn create(ua: &mut UserAgent) -> (context: BrowsingContext)
        requires
            old(ua).wf(),
            old(ua).issued().browsing_contexts < usize::MAX,
        ensures
            final(ua).wf(),
            final(ua).issued() == old(ua).issued().with_browsing_context(),
            final(ua).same_registries(*old(ua)),
            context.id().0 == old(ua).issued().browsing_contexts,
            context.group() is None,
            context.popup_flag() == SandboxingFlag::spec_empty(),
            context.window() is None,
    {
        BrowsingContext {
            id: ua.next_browsing_context_id(),
            group: None,
            popup_flag: SandboxingFlag::empty(),
            window: None,
        }
    }

    /// The group that the browsing context belongs to, if it belongs to one.
    pub fn group_id(&self) -> (group: Option<BrowsingContextGroupID>)
        ensures
            group == self.group(),
    {
        self.group
    }

    /// The window that the browsing context's `WindowProxy` stands for.
    pub fn window_handle(&self) -> (window: Option<Window>)
        ensures
            window == self.window(),
    {
        self.window
    }

    /// Puts the browsing context into the group `group`.
    pub fn set_group(&mut self, group: BrowsingContextGroupID)
        ensures
            final(self).group() == Some(group),
            final(self).id() == old(self).id(),
            final(self).popup_flag() == old(self).popup_flag(),
            final(self).window() == old(self).window(),
    {
        self.group = Some(group);
    }

    /// Makes `window` the window that the browsing context's `WindowProxy`
    /// stands for.
    pub fn set_window(&mut self, window: Option<Window>)
        ensures
            final(self).window() == window,
            final(self).id() == old(self).id(),
            final(self).popup_flag() == old(self).popup_flag(),
            final(self).group() == old(self).group(),
    {
        self.window = window;
    }

    /// Sets the popup sandboxing flag set.
    pub fn set_popup_flag(&mut self, flags: SandboxingFlag)
        ensures
            final(self).popup_flag() == flags,
            final(self).id() == old(self).id(),
            final(self).group() == old(self).group(),
            final(self).window() == old(self).window(),
    {
        self.popup_flag = flags;
    }

    /// <https://html.spec.whatwg.org/multipage/browsers.html#determining-the-creation-sandboxing-flags>
    ///
    /// Without an embedder these are the flags of the browsing context's own
    /// popup sandboxing flag set; with one, no flag is set.
    pub fn determine_creation_sandbox_flags(&self, embedder: &Option<bool>) -> (flags:
        SandboxingFlag)
        ensures
            flags == match *embedder {
                None => self.popup_flag(),
                Some(_) => SandboxingFlag::spec_empty(),
            },
    {
        match embedder {
            None => self.popup_flag,
            Some(_) => SandboxingFlag::empty(),
        }
    }

    /// Get the ID of the BrowsingContext.
    #[verifier::when_used_as_spec(spec_id)]
    pub fn id(&self) -> (id: BrowsingContextID)
        ensures
            id == self.spec_id(),
    {
        self.id
    }

    /// The ID of the BrowsingContext.
    pub closed spec fn spec_id(&self) -> BrowsingContextID {
        self.id
    }
}


/// What a `BrowsingContextGroup` is in contracts.
pub struct GroupView {
    /// The identifier of the group.
    pub id: BrowsingContextGroupID,
    /// The browsing contexts of the group.
    pub browsing_contexts: Set<BrowsingContextID>,
    /// <https://html.spec.whatwg.org/multipage/#agent-cluster-map>
    pub clusters: Map<OriginView, AgentCluster>,
    /// <https://html.spec.whatwg.org/multipage/#historical-agent-cluster-key-map>
    pub historical: Map<OriginView, OriginView>,
    /// <https://html.spec.whatwg.org/multipage/document-sequences.html#bcg-cross-origin-isolation>
    pub isolation_mode: IsolationMode,
}

/// <https://html.spec.whatwg.org/multipage/#obtain-a-site>
///
/// An opaque origin is its own site. The site of a tuple origin has its
/// scheme and its host, and the port 65535 in place of its port.
pub open spec fn site(origin: OriginView) -> OriginView {
    match origin {
        OriginView::Opaque(_) => origin,
        OriginView::Tuple(scheme, host, _) => OriginView::Tuple(scheme, host, 0xffff),
    }
}

impl GroupView {
    /// The key computed for an origin that has no key yet: the origin itself
    /// where an origin-keyed agent cluster is asked for, else its site.
    pub open spec fn new_key(origin: OriginView, oac: bool) -> OriginView {
        if oac {
            origin
        } else {
            site(origin)
        }
    }

    /// Whether a key is computed and remembered for `origin`: the group is
    /// not isolated and has no key for `origin` yet.
    pub open spec fn remembers(self, origin: OriginView) -> bool {
        self.isolation_mode == IsolationMode::NotIsolated && !self.historical.contains_key(origin)
    }

    /// The key of the agent cluster for `origin`: the origin itself in an
    /// isolated group; else the key remembered for `origin`; else the key
    /// computed for it.
    pub open spec fn key(self, origin: OriginView, oac: bool) -> OriginView {
        if self.isolation_mode != IsolationMode::NotIsolated {
            origin
        } else if self.historical.contains_key(origin) {
            self.historical[origin]
        } else {
            Self::new_key(origin, oac)
        }
    }

    /// Whether a window agent for `origin` is made anew: the group has no
    /// agent cluster under the key yet.
    pub open spec fn makes_agent(self, origin: OriginView, oac: bool) -> bool {
        !self.clusters.contains_key(self.key(origin, oac))
    }

    /// The group after a window agent was obtained for `origin`, where
    /// `fresh` is the identifier that a new agent gets.
    pub open spec fn after_window_agent(self, origin: OriginView, oac: bool, fresh: AgentID) -> GroupView {
        let key = self.key(origin, oac);
        GroupView {
            historical: if self.remembers(origin) {
                self.historical.insert(origin, key)
            } else {
                self.historical
            },
            clusters: if self.makes_agent(origin, oac) {
                self.clusters.insert(
                    key,
                    AgentCluster {
                        isolation_mode: self.isolation_mode,
                        origin_keyed: key == origin,
                        agent: fresh,
                    },
                )
            } else {
                self.clusters
            },
            ..self
        }
    }

    /// The window agent obtained for `origin`, where `fresh` is the
    /// identifier that a new agent gets.
    pub open spec fn window_agent(self, origin: OriginView, oac: bool, fresh: AgentID) -> AgentID {
        self.after_window_agent(origin, oac, fresh).clusters[self.key(origin, oac)].agent
    }

    /// Whether the agents of the group's clusters have identifiers below
    /// `issued`, and no two clusters have the same agent.
    pub open spec fn agents_known(self, issued: nat) -> bool {
        &&& forall|k: OriginView| #[trigger]
            self.clusters.contains_key(k) ==> self.clusters[k].agent.0 < issued
        &&& forall|k1: OriginView, k2: OriginView|
            #[trigger] self.clusters.contains_key(k1) && #[trigger] self.clusters.contains_key(k2)
                && k1 != k2 ==> self.clusters[k1].agent != self.clusters[k2].agent
    }
}

/// In a group that is not isolated, the same origin gets the same window
/// agent twice, and the second time no agent cluster is made: the group is
/// then as it was.
pub proof fn lemma_window_agent_stable(
    group: GroupView,
    origin: OriginView,
    oac: bool,
    fresh1: AgentID,
    fresh2: AgentID,
)
    requires
        group.isolation_mode == IsolationMode::NotIsolated,
    ensures
        ({
            let once = group.after_window_agent(origin, oac, fresh1);
            &&& once.window_agent(origin, oac, fresh2) == group.window_agent(origin, oac, fresh1)
            &&& !once.makes_agent(origin, oac)
            &&& once.after_window_agent(origin, oac, fresh2) == once
        }),
{
    let once = group.after_window_agent(origin, oac, fresh1);
    assert(once.key(origin, oac) == group.key(origin, oac));
    assert(once.after_window_agent(origin, oac, fresh2).historical =~= once.historical);
    assert(once.after_window_agent(origin, oac, fresh2).clusters =~= once.clusters);
}

/// Once an origin has a window agent in a group that is not isolated, it
/// keeps it, whether or not an origin-keyed agent cluster is asked for later.
pub proof fn lemma_window_agent_sticky(
    group: GroupView,
    origin: OriginView,
    oac1: bool,
    oac2: bool,
    fresh1: AgentID,
    fresh2: AgentID,
)
    requires
        group.isolation_mode == IsolationMode::NotIsolated,
    ensures
        group.after_window_agent(origin, oac1, fresh1).window_agent(origin, oac2, fresh2)
            == group.window_agent(origin, oac1, fresh1),
{
    let once = group.after_window_agent(origin, oac1, fresh1);
    assert(once.key(origin, oac2) == group.key(origin, oac1));
}

/// In an isolated group the key for an origin is the origin itself, whether
/// or not an origin-keyed agent cluster is asked for, so both ways give the
/// same window agent and the same group.
pub proof fn lemma_isolated_key_is_origin(group: GroupView, origin: OriginView, fresh: AgentID)
    requires
        group.isolation_mode != IsolationMode::NotIsolated,
    ensures
        group.key(origin, false) == origin,
        group.key(origin, true) == origin,
        group.window_agent(origin, false, fresh) == group.window_agent(origin, true, fresh),
        group.after_window_agent(origin, false, fresh) == group.after_window_agent(
            origin,
            true,
            fresh,
        ),
        group.after_window_agent(origin, false, fresh).historical == group.historical,
{
}

/// Two tuple origins with the same scheme and host have the same site,
/// whatever their ports.
pub proof fn lemma_site_ignores_port(scheme: Seq<char>, host: HostView, port1: u16, port2: u16)
    ensures
        site(OriginView::Tuple(scheme, host, port1)) == site(
            OriginView::Tuple(scheme, host, port2),
        ),
{
}

/// In a group that is not isolated and has no key yet for either of two
/// origins with the same site, both get the same window agent where no
/// origin-keyed agent cluster is asked for.
pub proof fn lemma_same_site_same_agent(
    group: GroupView,
    origin1: OriginView,
    origin2: OriginView,
    fresh1: AgentID,
    fresh2: AgentID,
)
    requires
        group.isolation_mode == IsolationMode::NotIsolated,
        !group.historical.contains_key(origin1),
        !group.historical.contains_key(origin2),
        site(origin1) == site(origin2),
    ensures
        group.after_window_agent(origin1, false, fresh1).window_agent(origin2, false, fresh2)
            == group.window_agent(origin1, false, fresh1),
{
    let once = group.after_window_agent(origin1, false, fresh1);
    if origin1 != origin2 {
        assert(!once.historical.contains_key(origin2));
    }
    assert(once.key(origin2, false) == site(origin1));
}

/// In a group that is not isolated and has no key yet for either of two
/// different origins, the two get different window agents where an
/// origin-keyed agent cluster is asked for, as long as the second agent's
/// identifier has not been handed out before.
pub proof fn lemma_origin_keyed_agents_differ(
    group: GroupView,
    origin1: OriginView,
    origin2: OriginView,
    issued: nat,
)
    requires
        group.isolation_mode == IsolationMode::NotIsolated,
        !group.historical.contains_key(origin1),
        !group.historical.contains_key(origin2),
        origin1 != origin2,
        group.agents_known(issued),
        issued < usize::MAX,
    ensures
        ({
            let fresh1 = AgentID(issued as usize);
            let once = group.after_window_agent(origin1, true, fresh1);
            let later = if group.makes_agent(origin1, true) {
                issued + 1
            } else {
                issued
            };
            once.window_agent(origin2, true, AgentID(later as usize)) != group.window_agent(
                origin1,
                true,
                fresh1,
            )
        }),
{
    let fresh1 = AgentID(issued as usize);
    let once = group.after_window_agent(origin1, true, fresh1);
    assert(once.key(origin2, true) == origin2);
    assert(group.key(origin1, true) == origin1);
    assert(once.clusters.contains_key(origin1));
    if once.clusters.contains_key(origin2) {
        assert(group.clusters.contains_key(origin2));
        if group.clusters.contains_key(origin1) {
            assert(group.clusters[origin1].agent != group.clusters[origin2].agent);
        }
    }
}

/// In an isolated group two different origins get different window agents,
/// whether or not an origin-keyed agent cluster is asked for, as long as the
/// agents of the group's clusters have identifiers that were handed out and no
/// two clusters have the same agent.
pub proof fn lemma_isolated_agents_differ(
    group: GroupView,
    origin1: OriginView,
    origin2: OriginView,
    oac1: bool,
    oac2: bool,
    issued: nat,
)
    requires
        group.isolation_mode != IsolationMode::NotIsolated,
        origin1 != origin2,
        group.agents_known(issued),
        issued < usize::MAX,
    ensures
        ({
            let fresh1 = AgentID(issued as usize);
            let once = group.after_window_agent(origin1, oac1, fresh1);
            let later = if group.makes_agent(origin1, oac1) {
                issued + 1
            } else {
                issued
            };
            once.window_agent(origin2, oac2, AgentID(later as usize)) != group.window_agent(
                origin1,
                oac1,
                fresh1,
            )
        }),
{
    let fresh1 = AgentID(issued as usize);
    let once = group.after_window_agent(origin1, oac1, fresh1);
    assert(once.key(origin2, oac2) == origin2);
    assert(group.key(origin1, oac1) == origin1);
    assert(once.clusters.contains_key(origin1));
    if once.clusters.contains_key(origin2) {
        assert(group.clusters.contains_key(origin2));
        if group.clusters.contains_key(origin1) {
            assert(group.clusters[origin1].agent != group.clusters[origin2].agent);
        }
    }
}

/// Obtaining a window agent keeps the agents of the clusters known: a new
/// agent has the identifier `issued`, which no cluster had.
pub proof fn lemma_window_agent_keeps_agents_known(
    group: GroupView,
    origin: OriginView,
    oac: bool,
    issued: nat,
)
    requires
        group.agents_known(issued),
        issued < usize::MAX,
    ensures
        group.after_window_agent(origin, oac, AgentID(issued as usize)).agents_known(
            if group.makes_agent(origin, oac) {
                issued + 1
            } else {
                issued
            },
        ),
{
}

/// <https://html.spec.whatwg.org/multipage/document-sequences.html#browsing-context-group>
#[derive(Debug)]
pub struct BrowsingContextGroup {
    id: BrowsingContextGroupID,
    browsing_context: HashSet<usize>,
    agent_cluster: OriginMap<AgentCluster>,
    historical_agent_cluster: OriginMap<ImmutableOrigin>,
    isolation_mode: IsolationMode,
}

impl View for BrowsingContextGroup {
    type V = GroupView;

    closed spec fn view(&self) -> GroupView {
        GroupView {
            id: self.id,
            browsing_contexts: Set::new(
                |c: BrowsingContextID| self.browsing_context@.contains(c.0),
            ),
            clusters: self.agent_cluster@,
            historical: self.historical_agent_cluster@.map_values(|o: ImmutableOrigin| o@),
            isolation_mode: self.isolation_mode,
        }
    }
}

/// Whether the user agent `after` and the heap `heap_after` are what
/// `new_top_browsing_context` makes of `before` and `heap_before` where it
/// registers `group` and `context` and returns `document`: the group is new
/// and not isolated, `context` is its one browsing context, and the rest is
/// what `new_browsing_context` makes of the new group.
pub open spec fn is_top_browsing_context(
    before: UserAgent,
    after: UserAgent,
    heap_before: Map<int, ObjectView>,
    heap_after: Map<int, ObjectView>,
    group: GroupView,
    context: BrowsingContext,
    document: Document,
) -> bool {
    let origin = heap_after[document.id()]->Node_0.data->Document_0.origin@;
    let agent = AgentID(before.issued().agents as usize);
    let realm = RealmID(before.issued().realms as usize);
    let key = site(origin);
    &&& about_blank() is Some
    &&& group.id.0 == before.issued().browsing_context_groups
    &&& group.isolation_mode == IsolationMode::NotIsolated
    &&& group.browsing_contexts == set![context.id()]
    &&& group.historical == map![origin => key]
    &&& group.clusters == map![key => (AgentCluster {
        isolation_mode: IsolationMode::NotIsolated,
        origin_keyed: key == origin,
        agent,
    })]
    &&& context.id().0 == before.issued().browsing_contexts
    &&& context.group() == Some(group.id)
    &&& context.popup_flag() == SandboxingFlag::spec_empty()
    &&& context.window() is None
    &&& after.issued().browsing_context_groups == before.issued().browsing_context_groups + 1
    &&& after.issued().browsing_contexts == before.issued().browsing_contexts + 1
    &&& after.issued().agents == before.issued().agents + 1
    &&& after.issued().realms == before.issued().realms + 1
    &&& after.issued().environments == before.issued().environments + 1
    &&& before.agent(agent) is None
    &&& after.agent(agent) is Some
    &&& forall|a: AgentID| a != agent ==> #[trigger] after.agent(a) == before.agent(a)
    &&& forall|r: RealmID| r != realm ==> #[trigger] after.realm(r) == before.realm(r)
    &&& after.realm(realm) is Some
    &&& is_initial_realm(
        after.realm(realm).unwrap(),
        realm,
        agent,
        origin,
        before.issued().environments,
    )
    &&& !heap_before.contains_key(after.realm(realm).unwrap().global_object().unwrap().id())
    &&& !heap_before.contains_key(document.id())
    &&& heap_after.contains_key(document.id())
    &&& heap_after[document.id()] is Node
    &&& heap_after[document.id()]->Node_0.data is Document
    &&& is_initial_document(
        heap_after[document.id()]->Node_0.data->Document_0,
        context.id(),
        realm,
    )
    &&& exists|html: int, head: int, body: int|
        is_skeleton(
            with_window_and_document(
                heap_before,
                after.realm(realm).unwrap().global_object().unwrap().id(),
                document.id(),
                heap_after[document.id()]->Node_0.data,
            ),
            heap_after,
            document,
            html,
            head,
            body,
        )
}

impl BrowsingContextGroup {
    /// <https://html.spec.whatwg.org/multipage/document-sequences.html#creating-a-new-browsing-context-group-and-document>
    ///
    /// Makes a new group that is not isolated, and in it a new browsing
    /// context with its initial document. The browsing context is the one
    /// browsing context of the group. Neither is registered yet.
    pub fn new_browsing_context_group_and_document(ua: &mut UserAgent, heap: &mut Heap) -> (r:
        Result<(BrowsingContextGroup, BrowsingContext, Document), DocumentError>)
        requires
            old(ua).wf(),
            old(ua).can_make_browsing_context(),
            old(ua).issued().browsing_context_groups < usize::MAX,
            old(heap).well_formed(),
        ensures
            final(ua).wf(),
            final(heap).well_formed(),
            final(ua).issued().at_least(old(ua).issued()),
            final(ua).issued().navigables == old(ua).issued().navigables,
            final(ua).issued().session_histories == old(ua).issued().session_histories,
            final(ua).same_browsing_contexts(*old(ua)),
            final(ua).same_browsing_context_groups(*old(ua)),
            siblings_linked(old(heap)@) ==> siblings_linked(final(heap)@),
            keeps(final(heap)@, old(heap)@),
            match r {
                Ok((group, context, document)) => {
                    &&& group.wf()
                    &&& group@.agents_known(final(ua).issued().agents)
                    &&& final(ua).issued().browsing_context_groups == old(
                        ua,
                    ).issued().browsing_context_groups + 1
                    &&& is_top_browsing_context(
                        *old(ua),
                        *final(ua),
                        old(heap)@,
                        final(heap)@,
                        group@,
                        context,
                        document,
                    )
                },
                Err(DocumentError::AboutBlank) => about_blank() is None,
                Err(DocumentError::Heap(_)) => about_blank() is Some,
            },
    {
        // Let group be a new browsing context group.
        let mut group = BrowsingContextGroup::create(ua, IsolationMode::NotIsolated);
        let ghost with_group = *ua;
        let ghost empty = group@;
        // Let browsingContext and document be the result of creating a new browsing context and document with
        // null, null, and group.
        match BrowsingContext::new_browsing_context(None, None, &mut group, ua, heap) {
            Ok((context, document)) => {
                let mut context = context;
                // Append browsingContext to group.
                group.append(context.id());
                context.set_group(group.id());
                proof {
                    let origin = heap@[document.id()]->Node_0.data->Document_0.origin@;
                    let agent = AgentID(old(ua).issued().agents as usize);
                    assert(empty.key(origin, false) == site(origin));
                    assert(empty.makes_agent(origin, false));
                    assert(group@.browsing_contexts =~= set![context.id()]);
                    assert(group@.historical =~= map![origin => site(origin)]);
                    assert(group@.clusters =~= map![site(origin) => (AgentCluster {
                        isolation_mode: IsolationMode::NotIsolated,
                        origin_keyed: site(origin) == origin,
                        agent,
                    })]);
                    assert(with_group.agent(agent) == old(ua).agent(agent));
                }
                // Return group and document.
                Ok((group, context, document))
            },
            Err(e) => Err(e),
        }
    }

    /// The maps of the group hold each key once.
    pub closed spec fn wf(&self) -> bool {
        self.agent_cluster.wf() && self.historical_agent_cluster.wf()
    }

    /// A group with the next browsing context group identifier and the given
    /// isolation mode, without browsing contexts and agent clusters.
    pub fn create(ua: &mut UserAgent, isolation_mode: IsolationMode) -> (group: Self)
        requires
            old(ua).wf(),
            old(ua).issued().browsing_context_groups < usize::MAX,
        ensures
            final(ua).wf(),
            final(ua).issued() == old(ua).issued().with_browsing_context_group(),
            final(ua).same_registries(*old(ua)),
            group.wf(),
            group@ == (GroupView {
                id: BrowsingContextGroupID(old(ua).issued().browsing_context_groups as usize),
                browsing_contexts: Set::empty(),
                clusters: Map::empty(),
                historical: Map::empty(),
                isolation_mode,
            }),
    {
        let group = BrowsingContextGroup {
            id: ua.next_browsing_context_group_id(),
            browsing_context: HashSet::new(),
            agent_cluster: OriginMap::new(),
            historical_agent_cluster: OriginMap::new(),
            isolation_mode,
        };
        proof {
            assert(group@.browsing_contexts =~= Set::empty());
            assert(group@.historical =~= Map::empty());
        }
        group
    }

    /// Appends a browsing context to the group.
    pub fn append(&mut self, context: BrowsingContextID)
        requires
            old(self).wf(),
        ensures
            final(self).wf(),
            final(self)@ == (GroupView {
                browsing_contexts: old(self)@.browsing_contexts.insert(context),
                ..old(self)@
            }),
    {
        self.browsing_context.insert(context.0);
        proof {
            assert(final(self)@.browsing_contexts =~= old(self)@.browsing_contexts.insert(context));
        }
    }

    /// Whether `context` is a browsing context of the group.
    pub fn has_browsing_context(&self, context: BrowsingContextID) -> (b: bool)
        ensures
            b == self@.browsing_contexts.contains(context),
    {
        self.browsing_context.contains(&context.0)
    }

    /// The number of agent clusters of the group.
    pub fn agent_cluster_count(&self) -> (count: usize)
        requires
            self.wf(),
        ensures
            self@.clusters.dom().finite(),
            count == self@.clusters.dom().len(),
    {
        self.agent_cluster.len()
    }

    /// The agent cluster under the key `key`, if the group has one.
    pub fn agent_cluster(&self, key: &ImmutableOrigin) -> (cluster: Option<AgentCluster>)
        requires
            self.wf(),
        ensures
            match cluster {
                Some(c) => self@.clusters.contains_key(key@) && self@.clusters[key@] == c,
                None => !self@.clusters.contains_key(key@),
            },
    {
        match self.agent_cluster.get(key) {
            Some(cluster) => Some(*cluster),
            None => None,
        }
    }

    /// The key that the group remembers for `origin`, if it remembers one.
    pub fn historical_key(&self, origin: &ImmutableOrigin) -> (key: Option<&ImmutableOrigin>)
        requires
            self.wf(),
        ensures
            match key {
                Some(k) => self@.historical.contains_key(origin@) && self@.historical[origin@]
                    == k@,
                None => !self@.historical.contains_key(origin@),
            },
    {
        self.historical_agent_cluster.get(origin)
    }

    /// The isolation mode of the group.
    pub fn isolation_mode(&self) -> (mode: IsolationMode)
        ensures
            mode == self@.isolation_mode,
    {
        self.isolation_mode
    }

    /// <https://html.spec.whatwg.org/multipage/#obtain-similar-origin-window-agent>
    ///
    /// Returns the agent of the agent cluster for `origin`. The key of that
    /// cluster is `origin` in an isolated group, else the key remembered for
    /// `origin`, else `origin` or its site, as `oac` says, which is then
    /// remembered. Where the group has no cluster under the key, one is made,
    /// with a new agent that may not block; else the user agent is left as it
    /// was. The agents of the group's clusters are agents of `ua`, and no two
    /// clusters have the same agent.
    pub fn window_agent(&mut self, ua: &mut UserAgent, origin: &ImmutableOrigin, oac: bool) -> (agent:
        AgentID)
        requires
            old(self).wf(),
            old(self)@.agents_known(old(ua).issued().agents),
            old(ua).wf(),
            old(ua).issued().agents < usize::MAX,
        ensures
            final(self).wf(),
            final(ua).wf(),
            final(self)@.agents_known(final(ua).issued().agents),
            final(self)@ == old(self)@.after_window_agent(
                origin@,
                oac,
                AgentID(old(ua).issued().agents as usize),
            ),
            agent == old(self)@.window_agent(
                origin@,
                oac,
                AgentID(old(ua).issued().agents as usize),
            ),
            final(self)@.clusters.contains_key(old(self)@.key(origin@, oac)),
            if old(self)@.makes_agent(origin@, oac) {
                &&& agent.0 == old(ua).issued().agents
                &&& final(ua).issued() == old(ua).issued().with_agent()
                &&& old(ua).agent(agent) is None
                &&& final(ua).agent(agent) is Some
                &&& final(ua).agent(agent).unwrap().id() == agent
                &&& !final(ua).agent(agent).unwrap().can_block()
                &&& final(ua).same_but_agent(*old(ua), agent)
            } else {
                &&& final(ua).issued() == old(ua).issued()
                &&& final(ua).same_registries(*old(ua))
            },
    {
        proof {
            lemma_window_agent_keeps_agents_known(
                old(self)@,
                origin@,
                oac,
                old(ua).issued().agents,
            );
        }
        // If group's cross-origin isolation mode is not "none", then set key to origin.
        let key: ImmutableOrigin = if !self.is_not_isolated() {
            origin.clone()
        } else {
            // Otherwise, if group's historical agent cluster key map[origin] exists,
            // then set key to group's historical agent cluster key map[origin].
            match self.historical_agent_cluster.get(origin) {
                Some(k) => k.clone(),
                None => {
                    // If requestsOAC is true, then set key to origin; else to the
                    // site of origin.
                    let k = if oac {
                        origin.clone()
                    } else {
                        obtain_site(origin)
                    };
                    // Set group's historical agent cluster key map[origin] to key.
                    let _ = self.historical_agent_cluster.insert(origin.clone(), k.clone());
                    proof {
                        assert(self@.historical =~= old(self)@.historical.insert(origin@, k@));
                    }
                    k
                },
            }
        };
        assert(key@ == old(self)@.key(origin@, oac));
        // If group's agent cluster map[key] does not exist, then make a new agent
        // cluster with a new agent.
        match self.agent_cluster.get(&key) {
            Some(cluster) => cluster.agent,
            None => {
                let agent = Agent::create(ua, false);
                let agent_cluster = AgentCluster {
                    isolation_mode: self.isolation_mode,
                    origin_keyed: key.same(origin),
                    agent,
                };
                let _ = self.agent_cluster.insert(key, agent_cluster);
                agent
            },
        }
    }

    /// Whether the isolation mode is "none".
    fn is_not_isolated(&self) -> (b: bool)
        ensures
            b == (self@.isolation_mode == IsolationMode::NotIsolated),
    {
        match self.isolation_mode {
            IsolationMode::NotIsolated => true,
            _ => false,
        }
    }

    /// Get the ID of the `BrowsingContextGroup`.
    #[verifier::when_used_as_spec(spec_id)]
    pub fn id(&self) -> (id: BrowsingContextGroupID)
        ensures
            id == self.spec_id(),
            id == self@.id,
    {
        self.id
    }

    /// The ID of the `BrowsingContextGroup`.
    pub closed spec fn spec_id(&self) -> BrowsingContextGroupID {
        self.id
    }
}

/// ID of `BrowsingContext`.
#[derive(Clone, Copy, Debug, PartialEq, Eq, Structural, PartialOrd, Ord, Hash)]
pub struct BrowsingContextID(pub usize);

/// ID of `BrowsingContextGroup`.
#[derive(Clone, Copy, Debug, PartialEq, Eq, Structural, PartialOrd, Ord, Hash)]
pub struct BrowsingContextGroupID(pub usize);

/// <https://html.spec.whatwg.org/multipage/document-sequences.html#cross-origin-isolation-mode>
#[derive(Clone, Copy, Debug, PartialEq, Eq, Structural)]
pub enum IsolationMode {
    /// "none"
    NotIsolated,
    /// "logical"
    Logical,
    /// "concrete"
    Concrete,
}

impl Default for IsolationMode {
    fn default() -> (mode: Self)
        ensures
            mode == IsolationMode::NotIsolated,
    {
        IsolationMode::NotIsolated
    }
}

/// <https://html.spec.whatwg.org/multipage/#sandboxing-flag-set>
///
/// A set of flags, each of them one bit of a 32-bit word. The constants name
/// the bits.
#[derive(Clone, Copy, Debug, PartialEq, Eq, Structural)]
pub struct SandboxingFlag(u32);

impl SandboxingFlag {
    /// <https://html.spec.whatwg.org/multipage/#sandboxed-navigation-browsing-context-flag>
    pub const NAVIGATION_BROWSING_CONTEXT: u32 = 0x0001;

    /// <https://html.spec.whatwg.org/multipage/#sandboxed-auxiliary-navigation-browsing-context-flag>
    pub const AUXILIARY_NAVIGATION_BROWSING_CONTEXT: u32 = 0x0002;

    /// <https://html.spec.whatwg.org/multipage/#sandboxed-top-level-navigation-without-user-activation-browsing-context-flag>
    pub const TOP_LEVEL_NAVIGATION_WITHOUT_USER_ACTIVATION_BROWSING_CONTEXT: u32 = 0x0004;

    /// <https://html.spec.whatwg.org/multipage/#sandboxed-top-level-navigation-with-user-activation-browsing-context-flag>
    pub const TOP_LEVEL_NAVIGATION_WITH_USER_ACTIVATION_BROWSING_CONTEXT: u32 = 0x0008;

    /// <https://html.spec.whatwg.org/multipage/#sandboxed-origin-browsing-context-flag>
    pub const ORIGIN_BROWSING_CONTEXT: u32 = 0x0010;

    /// <https://html.spec.whatwg.org/multipage/#sandboxed-forms-browsing-context-flag>
    pub const FORMS_BROWSING_CONTEXT: u32 = 0x0020;

    /// <https://html.spec.whatwg.org/multipage/#sandboxed-pointer-lock-browsing-context-flag>
    pub const POINTER_LOCK_BROWSING_CONTEXT: u32 = 0x0040;

    /// <https://html.spec.whatwg.org/multipage/#sandboxed-scripts-browsing-context-flag>
    pub const SCRIPTS_BROWSING_CONTEXT: u32 = 0x0080;

    /// <https://html.spec.whatwg.org/multipage/#sandboxed-automatic-features-browsing-context-flag>
    pub const AUTOMATIC_FEATURES_BROWSING_CONTEXT: u32 = 0x0100;

    /// <https://html.spec.whatwg.org/multipage/#sandboxed-document.domain-browsing-context-flag>
    pub const DOCUMENT_DOMAIN_BROWSING_CONTEXT: u32 = 0x0200;

    /// <https://html.spec.whatwg.org/multipage/#sandbox-propagates-to-auxiliary-browsing-contexts-flag>
    pub const PROPAGATES_TO_AUXILIARY_BROWSING_CONTEXT: u32 = 0x0400;

    /// <https://html.spec.whatwg.org/multipage/#sandboxed-modals-flag>
    pub const MODALS: u32 = 0x0800;

    /// <https://html.spec.whatwg.org/multipage/#sandboxed-orientation-lock-browsing-context-flag>
    pub const ORIENTATION_LOCK_BROWSING_CONTEXT: u32 = 0x1000;

    /// <https://html.spec.whatwg.org/multipage/#sandboxed-presentation-browsing-context-flag>
    pub const PRESENTATION_BROWSING_CONTEXT: u32 = 0x2000;

    /// <https://html.spec.whatwg.org/multipage/#sandboxed-downloads-browsing-context-flag>
    pub const DOWNLOADS_BROWSING_CONTEXT: u32 = 0x4000;

    /// <https://html.spec.whatwg.org/multipage/#sandboxed-custom-protocols-navigation-browsing-context-flag>
    pub const CUSTOM_PROTOCOLS_NAVIGATION_BROWSING_CONTEXT: u32 = 0x8000;

    /// The word whose bits are the flags of the set.
    #[verifier::when_used_as_spec(spec_bits)]
    pub fn bits(&self) -> (bits: u32)
        ensures
            bits == self.spec_bits(),
    {
        self.0
    }

    /// The word whose bits are the flags of the set.
    pub closed spec fn spec_bits(&self) -> u32 {
        self.0
    }

    /// The word of the empty set is 0.
    pub proof fn lemma_empty_bits()
        ensures
            Self::spec_empty().spec_bits() == 0,
    {
    }

    /// The set with no flag.
    pub open spec fn spec_empty() -> SandboxingFlag {
        SandboxingFlag::spec_from_bits_retain(0)
    }

    /// The set whose flags are the bits of `bits`.
    pub closed spec fn spec_from_bits_retain(bits: u32) -> SandboxingFlag {
        SandboxingFlag(bits)
    }

    /// Whether every flag among the bits `flags` is in the set.
    pub open spec fn spec_contains(&self, flags: u32) -> bool {
        self.spec_bits() & flags == flags
    }

    /// The set with no flag.
    #[verifier::when_used_as_spec(spec_empty)]
    pub fn empty() -> (flags: SandboxingFlag)
        ensures
            flags == Self::spec_empty(),
            flags.bits() == 0,
    {
        SandboxingFlag(0)
    }

    /// The set whose flags are the bits of `bits`.
    #[verifier::when_used_as_spec(spec_from_bits_retain)]
    pub fn from_bits_retain(bits: u32) -> (flags: SandboxingFlag)
        ensures
            flags == Self::spec_from_bits_retain(bits),
            flags.bits() == bits,
    {
        SandboxingFlag(bits)
    }

    /// Whether every flag among the bits `flags` is in the set.
    #[verifier::when_used_as_spec(spec_contains)]
    pub fn contains(&self, flags: u32) -> (b: bool)
        ensures
            b == self.spec_contains(flags),
    {
        self.0 & flags == flags
    }

    /// The flags of both sets.
    pub fn union(self, other: SandboxingFlag) -> (flags: SandboxingFlag)
        ensures
            flags.bits() == self.bits() | other.bits(),
    {
        SandboxingFlag(self.0 | other.0)
    }
}

/// Whether `origin` is the origin that a URL with the serialization `text`
/// has: the tuple that the `url` crate gives it, or a new opaque origin
/// where that crate gives it an opaque one.
pub open spec fn is_origin_of_url(origin: OriginView, text: Seq<char>) -> bool {
    match url_origin(text) {
        Some((scheme, host, port)) => origin == OriginView::Tuple(scheme, host, port),
        None => origin is Opaque && origin->Opaque_0 is Opaque,
    }
}

/// Whether `text` is the serialization of `about:blank` or `about:srcdoc`.
pub open spec fn inherits_origin(text: Seq<char>) -> bool {
    text == "about:srcdoc"@ || text == "about:blank"@
}

/// <https://html.spec.whatwg.org/multipage/#determining-the-origin>
///
/// A new opaque origin where the sandboxed origin flag is set or there is no
/// URL; the source origin for `about:blank` and `about:srcdoc`, where there is
/// one; else the origin of the URL.
pub fn determin_origin(
    url: Option<&DOMUrl>,
    flags: SandboxingFlag,
    origin: Option<ImmutableOrigin>,
) -> (r: ImmutableOrigin)
    ensures
        if flags.spec_contains(SandboxingFlag::ORIGIN_BROWSING_CONTEXT) || url is None {
            r@ is Opaque && r@->Opaque_0 is Opaque
        } else if origin is Some && inherits_origin(url.unwrap()@) {
            r@ == origin.unwrap()@
        } else {
            is_origin_of_url(r@, url.unwrap()@)
        },
{
    // If sandboxFlags has its sandboxed origin browsing context flag set, then return a new opaque origin.
    if flags.contains(SandboxingFlag::ORIGIN_BROWSING_CONTEXT) {
        return ImmutableOrigin::new_opaque();
    }
    match (url, origin) {
        // If url is null, then return a new opaque origin.
        (None, _) => ImmutableOrigin::new_opaque(),
        // If url is about:srcdoc, or matches about:blank, and sourceOrigin is
        // non-null, then return sourceOrigin.
        (Some(u), Some(o)) => {
            if str_equal(u.as_str(), "about:srcdoc") || str_equal(u.as_str(), "about:blank") {
                o
            } else {
                // Return url's origin.
                u.origin()
            }
        },
        // Return url's origin.
        (Some(u), None) => u.origin(),
    }
}

/// <https://html.spec.whatwg.org/multipage/#obtain-a-site>
pub fn obtain_site(origin: &ImmutableOrigin) -> (r: ImmutableOrigin)
    ensures
        r@ == site(origin@),
{
    // If origin is an opaque origin, then return origin.
    match origin {
        ImmutableOrigin::Opaque(_) => origin.clone(),
        ImmutableOrigin::Tuple(scheme, host, _) => {
            // Return (origin's scheme, origin's host), with the port that
            // stands for every port.
            ImmutableOrigin::Tuple(scheme.clone(), host.clone(), u16::MAX)
        },
    }
}

} // verus!
