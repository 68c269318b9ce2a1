//! The user agent: the one owner of every agent, realm, browsing context and
//! browsing context group, and the source of their identifiers.

use std::collections::HashMap;
use vstd::prelude::*;

use crate::agent::{Agent, AgentID, EnvironmentID, Realm, RealmID};
use crate::browsing_context::{
    BrowsingContext,
    BrowsingContextGroup,
    BrowsingContextGroupID,
    BrowsingContextID,
};
use crate::dom::window::Window;
use crate::navigible::{NavigableID, SessionHistoryID};

verus! {

broadcast use vstd::std_specs::hash::group_hash_axioms;

/// A source of identifiers of one kind. It hands out 0, 1, 2, ... in that
/// order and never the same number twice.
#[derive(Debug)]
pub struct IdCounter {
    next: usize,
}

impl IdCounter {
    /// How many identifiers have been handed out so far.
    pub closed spec fn issued(&self) -> nat {
        self.next as nat
    }

    /// Whether every number of the machine word has been handed out.
    pub open spec fn exhausted(&self) -> bool {
        self.issued() >= usize::MAX
    }

    /// A counter that has handed out nothing.
    pub fn new() -> (counter: Self)
        ensures
            counter.issued() == 0,
    {
        IdCounter { next: 0 }
    }

    /// Whether `issue` can no longer be called.
    pub fn is_exhausted(&self) -> (b: bool)
        ensures
            b == self.exhausted(),
    {
        self.next == usize::MAX
    }

    /// Whether `issue` can still be called `need` times.
    pub fn has_room(&self, need: usize) -> (b: bool)
        ensures
            b == (self.issued() + need <= usize::MAX),
    {
        need <= usize::MAX - self.next
    }

    /// Hands out the next identifier: the number of identifiers handed out
    /// before this call.
    pub fn issue(&mut self) -> (id: usize)
        requires
            !old(self).exhausted(),
        ensures
            id == old(self).issued(),
            final(self).issued() == old(self).issued() + 1,
    {
        let id: usize = self.next;
        self.next = id + 1;
        id
    }
}

/// The identifiers that a counter hands out in `count` calls of `issue`,
/// starting from a counter that had handed out `start` of them.
pub open spec fn issued_ids(start: nat, count: nat) -> Seq<nat> {
    Seq::new(count, |i: int| (start + i) as nat)
}

/// Identifiers handed out by one counter are pairwise distinct, and a later
/// one is never smaller than an earlier one.
pub proof fn lemma_issued_ids_distinct_and_ordered(start: nat, count: nat)
    ensures
        issued_ids(start, count).len() == count,
        forall|i: int, j: int|
            0 <= i < j < count ==> #[trigger] issued_ids(start, count)[i] < #[trigger] issued_ids(
                start,
                count,
            )[j],
        forall|i: int, j: int|
            0 <= i < count && 0 <= j < count && i != j ==> #[trigger] issued_ids(start, count)[i]
                != #[trigger] issued_ids(start, count)[j],
{
}

/// How many identifiers of each kind have been handed out.
pub struct Issued {
    /// Agent identifiers.
    pub agents: nat,
    /// Realm identifiers.
    pub realms: nat,
    /// Environment identifiers.
    pub environments: nat,
    /// Browsing context identifiers.
    pub browsing_contexts: nat,
    /// Browsing context group identifiers.
    pub browsing_context_groups: nat,
    /// Navigable identifiers.
    pub navigables: nat,
    /// Session history identifiers.
    pub session_histories: nat,
}

impl Issued {
    /// One more agent identifier.
    pub open spec fn with_agent(self) -> Issued {
        Issued { agents: self.agents + 1, ..self }
    }

    /// One more realm identifier.
    pub open spec fn with_realm(self) -> Issued {
        Issued { realms: self.realms + 1, ..self }
    }

    /// One more environment identifier.
    pub open spec fn with_environment(self) -> Issued {
        Issued { environments: self.environments + 1, ..self }
    }

    /// One more browsing context identifier.
    pub open spec fn with_browsing_context(self) -> Issued {
        Issued { browsing_contexts: self.browsing_contexts + 1, ..self }
    }

    /// One more browsing context group identifier.
    pub open spec fn with_browsing_context_group(self) -> Issued {
        Issued { browsing_context_groups: self.browsing_context_groups + 1, ..self }
    }

    /// One more navigable identifier.
    pub open spec fn with_navigable(self) -> Issued {
        Issued { navigables: self.navigables + 1, ..self }
    }

    /// One more session history identifier.
    pub open spec fn with_session_history(self) -> Issued {
        Issued { session_histories: self.session_histories + 1, ..self }
    }

    /// Whether at least as many identifiers of every kind have been handed
    /// out as in `before`.
    pub open spec fn at_least(self, before: Issued) -> bool {
        &&& self.agents >= before.agents
        &&& self.realms >= before.realms
        &&& self.environments >= before.environments
        &&& self.browsing_contexts >= before.browsing_contexts
        &&& self.browsing_context_groups >= before.browsing_context_groups
        &&& self.navigables >= before.navigables
        &&& self.session_histories >= before.session_histories
    }
}

/// The process-wide state of the user agent.
#[derive(Debug)]
pub struct UserAgent {
    agent_ids: IdCounter,
    realm_ids: IdCounter,
    environment_ids: IdCounter,
    browsing_context_ids: IdCounter,
    browsing_context_group_ids: IdCounter,
    navigable_ids: IdCounter,
    session_history_ids: IdCounter,
    /// <https://html.spec.whatwg.org/multipage/#relevant-agent>
    agents: HashMap<usize, Agent>,
    /// <https://html.spec.whatwg.org/multipage/#concept-relevant-realm>
    realms: HashMap<usize, Realm>,
    /// <https://html.spec.whatwg.org/multipage/#browsing-context-set>
    browsing_contexts: HashMap<usize, BrowsingContext>,
    /// <https://html.spec.whatwg.org/multipage/#browsing-context-group-set>
    browsing_context_groups: HashMap<usize, BrowsingContextGroup>,
}

impl UserAgent {
    /// The agent registered under `id`, if there is one.
    pub closed spec fn agent(&self, id: AgentID) -> Option<Agent> {
        if self.agents@.contains_key(id.0) {
            Some(self.agents@[id.0])
        } else {
            None
        }
    }

    /// The realm registered under `id`, if there is one.
    pub closed spec fn realm(&self, id: RealmID) -> Option<Realm> {
        if self.realms@.contains_key(id.0) {
            Some(self.realms@[id.0])
        } else {
            None
        }
    }

    /// The browsing context registered under `id`, if there is one.
    pub closed spec fn browsing_context(&self, id: BrowsingContextID) -> Option<BrowsingContext> {
        if self.browsing_contexts@.contains_key(id.0) {
            Some(self.browsing_contexts@[id.0])
        } else {
            None
        }
    }

    /// The browsing context group registered under `id`, if there is one.
    pub closed spec fn browsing_context_group(&self, id: BrowsingContextGroupID) -> Option<
        BrowsingContextGroup,
    > {
        if self.browsing_context_groups@.contains_key(id.0) {
            Some(self.browsing_context_groups@[id.0])
        } else {
            None
        }
    }

    /// How many identifiers of each kind have been handed out.
    pub closed spec fn issued(&self) -> Issued {
        Issued {
            agents: self.agent_ids.issued(),
            realms: self.realm_ids.issued(),
            environments: self.environment_ids.issued(),
            browsing_contexts: self.browsing_context_ids.issued(),
            browsing_context_groups: self.browsing_context_group_ids.issued(),
            navigables: self.navigable_ids.issued(),
            session_histories: self.session_history_ids.issued(),
        }
    }

    /// Everything that is registered is stored under its own identifier, and
    /// that identifier has been handed out. The agents of the clusters of a
    /// registered group have identifiers that have been handed out.
    pub closed spec fn wf(&self) -> bool {
        &&& forall|k: usize| #[trigger]
            self.agents@.contains_key(k) ==> self.agents@[k].id() == AgentID(k) && k
                < self.agent_ids.issued()
        &&& forall|k: usize| #[trigger]
            self.realms@.contains_key(k) ==> self.realms@[k].id() == RealmID(k) && k
                < self.realm_ids.issued()
        &&& forall|k: usize| #[trigger]
            self.browsing_contexts@.contains_key(k) ==> self.browsing_contexts@[k].id()
                == BrowsingContextID(k) && k < self.browsing_context_ids.issued()
        &&& forall|k: usize| #[trigger]
            self.browsing_context_groups@.contains_key(k) ==> self.browsing_context_groups@[k].id()
                == BrowsingContextGroupID(k) && k < self.browsing_context_group_ids.issued()
                && self.browsing_context_groups@[k].wf()
    }

    /// Whether `need` more identifiers of every kind can be handed out.
    pub open spec fn has_room(&self, need: nat) -> bool {
        &&& self.issued().agents + need <= usize::MAX
        &&& self.issued().realms + need <= usize::MAX
        &&& self.issued().environments + need <= usize::MAX
        &&& self.issued().browsing_contexts + need <= usize::MAX
        &&& self.issued().browsing_context_groups + need <= usize::MAX
        &&& self.issued().navigables + need <= usize::MAX
        &&& self.issued().session_histories + need <= usize::MAX
    }

    /// Whether an agent, a realm, an environment and a browsing context can
    /// still get an identifier.
    pub open spec fn can_make_browsing_context(&self) -> bool {
        &&& self.issued().agents < usize::MAX
        &&& self.issued().realms < usize::MAX
        &&& self.issued().environments < usize::MAX
        &&& self.issued().browsing_contexts < usize::MAX
    }

    /// The same agents are registered as in `other`.
    pub open spec fn same_agents(&self, other: UserAgent) -> bool {
        forall|id: AgentID| #[trigger] self.agent(id) == other.agent(id)
    }

    /// The same realms are registered as in `other`.
    pub open spec fn same_realms(&self, other: UserAgent) -> bool {
        forall|id: RealmID| #[trigger] self.realm(id) == other.realm(id)
    }

    /// The same browsing contexts are registered as in `other`.
    pub open spec fn same_browsing_contexts(&self, other: UserAgent) -> bool {
        forall|id: BrowsingContextID| #[trigger]
            self.browsing_context(id) == other.browsing_context(id)
    }

    /// The same browsing context groups are registered as in `other`.
    pub open spec fn same_browsing_context_groups(&self, other: UserAgent) -> bool {
        forall|id: BrowsingContextGroupID| #[trigger]
            self.browsing_context_group(id) == other.browsing_context_group(id)
    }

    /// Everything that is registered is as in `other`.
    pub open spec fn same_registries(&self, other: UserAgent) -> bool {
        &&& self.same_agents(other)
        &&& self.same_realms(other)
        &&& self.same_browsing_contexts(other)
        &&& self.same_browsing_context_groups(other)
    }

    /// Everything that is registered is as in `other`, but for the agent
    /// registered under `id`.
    pub open spec fn same_but_agent(&self, other: UserAgent, id: AgentID) -> bool {
        &&& forall|a: AgentID| a != id ==> #[trigger] self.agent(a) == other.agent(a)
        &&& self.same_realms(other)
        &&& self.same_browsing_contexts(other)
        &&& self.same_browsing_context_groups(other)
    }

    /// Everything that is registered is as in `other`, but for the realm
    /// registered under `id`.
    pub open spec fn same_but_realm(&self, other: UserAgent, id: RealmID) -> bool {
        &&& self.same_agents(other)
        &&& forall|r: RealmID| r != id ==> #[trigger] self.realm(r) == other.realm(r)
        &&& self.same_browsing_contexts(other)
        &&& self.same_browsing_context_groups(other)
    }

    /// A user agent that owns nothing and has handed out no identifier.
    pub fn new() -> (ua: Self)
        ensures
            ua.wf(),
            ua.issued() == (Issued {
                agents: 0,
                realms: 0,
                environments: 0,
                browsing_contexts: 0,
                browsing_context_groups: 0,
                navigables: 0,
                session_histories: 0,
            }),
            forall|id: AgentID| ua.agent(id) is None,
            forall|id: RealmID| ua.realm(id) is None,
            forall|id: BrowsingContextID| ua.browsing_context(id) is None,
            forall|id: BrowsingContextGroupID| ua.browsing_context_group(id) is None,
    {
        UserAgent {
            agent_ids: IdCounter::new(),
            realm_ids: IdCounter::new(),
            environment_ids: IdCounter::new(),
            browsing_context_ids: IdCounter::new(),
            browsing_context_group_ids: IdCounter::new(),
            navigable_ids: IdCounter::new(),
            session_history_ids: IdCounter::new(),
            agents: HashMap::new(),
            realms: HashMap::new(),
            browsing_contexts: HashMap::new(),
            browsing_context_groups: HashMap::new(),
        }
    }

    /// Whether `need` more identifiers of every kind can be handed out.
    pub fn has_room_for(&self, need: usize) -> (b: bool)
        ensures
            b == self.has_room(need as nat),
    {
        self.agent_ids.has_room(need) && self.realm_ids.has_room(need)
            && self.environment_ids.has_room(need) && self.browsing_context_ids.has_room(need)
            && self.browsing_context_group_ids.has_room(need) && self.navigable_ids.has_room(need)
            && self.session_history_ids.has_room(need)
    }

    /// Hands out the next agent identifier.
    pub fn next_agent_id(&mut self) -> (id: AgentID)
        requires
            old(self).wf(),
            old(self).issued().agents < usize::MAX,
        ensures
            final(self).wf(),
            id.0 == old(self).issued().agents,
            final(self).issued() == old(self).issued().with_agent(),
            final(self).same_registries(*old(self)),
            old(self).agent(id) is None,
            forall|earlier: AgentID| #[trigger]
                old(self).agent(earlier) is Some ==> earlier.0 < id.0,
    {
        AgentID(self.agent_ids.issue())
    }

    /// Hands out the next realm identifier.
    pub fn next_realm_id(&mut self) -> (id: RealmID)
        requires
            old(self).wf(),
            old(self).issued().realms < usize::MAX,
        ensures
            final(self).wf(),
            id.0 == old(self).issued().realms,
            final(self).issued() == old(self).issued().with_realm(),
            final(self).same_registries(*old(self)),
            old(self).realm(id) is None,
            forall|earlier: RealmID| #[trigger]
                old(self).realm(earlier) is Some ==> earlier.0 < id.0,
    {
        RealmID(self.realm_ids.issue())
    }

    /// Hands out the next environment identifier.
    pub fn next_environment_id(&mut self) -> (id: EnvironmentID)
        requires
            old(self).wf(),
            old(self).issued().environments < usize::MAX,
        ensures
            final(self).wf(),
            id.0 == old(self).issued().environments,
            final(self).issued() == old(self).issued().with_environment(),
            final(self).same_registries(*old(self)),
    {
        EnvironmentID(self.environment_ids.issue())
    }

    /// Hands out the next browsing context identifier.
    pub fn next_browsing_context_id(&mut self) -> (id: BrowsingContextID)
        requires
            old(self).wf(),
            old(self).issued().browsing_contexts < usize::MAX,
        ensures
            final(self).wf(),
            id.0 == old(self).issued().browsing_contexts,
            final(self).issued() == old(self).issued().with_browsing_context(),
            final(self).same_registries(*old(self)),
            old(self).browsing_context(id) is None,
            forall|earlier: BrowsingContextID| #[trigger]
                old(self).browsing_context(earlier) is Some ==> earlier.0 < id.0,
    {
        BrowsingContextID(self.browsing_context_ids.issue())
    }

    /// Hands out the next browsing context group identifier.
    pub fn next_browsing_context_group_id(&mut self) -> (id: BrowsingContextGroupID)
        requires
            old(self).wf(),
            old(self).issued().browsing_context_groups < usize::MAX,
        ensures
            final(self).wf(),
            id.0 == old(self).issued().browsing_context_groups,
            final(self).issued() == old(self).issued().with_browsing_context_group(),
            final(self).same_registries(*old(self)),
            old(self).browsing_context_group(id) is None,
            forall|earlier: BrowsingContextGroupID| #[trigger]
                old(self).browsing_context_group(earlier) is Some ==> earlier.0 < id.0,
    {
        BrowsingContextGroupID(self.browsing_context_group_ids.issue())
    }

    /// Hands out the next navigable identifier.
    pub fn next_navigable_id(&mut self) -> (id: NavigableID)
        requires
            old(self).wf(),
            old(self).issued().navigables < usize::MAX,
        ensures
            final(self).wf(),
            id.0 == old(self).issued().navigables,
            final(self).issued() == old(self).issued().with_navigable(),
            final(self).same_registries(*old(self)),
    {
        NavigableID(self.navigable_ids.issue())
    }

    /// Hands out the next session history identifier.
    pub fn next_session_history_id(&mut self) -> (id: SessionHistoryID)
        requires
            old(self).wf(),
            old(self).issued().session_histories < usize::MAX,
        ensures
            final(self).wf(),
            id.0 == old(self).issued().session_histories,
            final(self).issued() == old(self).issued().with_session_history(),
            final(self).same_registries(*old(self)),
    {
        SessionHistoryID(self.session_history_ids.issue())
    }

    /// Stores `agent` under its own identifier.
    pub fn register_agent(&mut self, agent: Agent)
        requires
            old(self).wf(),
            agent.id().0 < old(self).issued().agents,
        ensures
            final(self).wf(),
            final(self).issued() == old(self).issued(),
            final(self).agent(agent.id()) == Some(agent),
            final(self).same_but_agent(*old(self), agent.id()),
    {
        let key: usize = agent.id().0;
        self.agents.insert(key, agent);
    }

    /// Stores `realm` under its own identifier.
    pub fn register_realm(&mut self, realm: Realm)
        requires
            old(self).wf(),
            realm.id().0 < old(self).issued().realms,
        ensures
            final(self).wf(),
            final(self).issued() == old(self).issued(),
            final(self).realm(realm.id()) == Some(realm),
            final(self).same_but_realm(*old(self), realm.id()),
    {
        let key: usize = realm.id().0;
        self.realms.insert(key, realm);
    }

    /// Stores `context` under its own identifier.
    pub fn register_browsing_context(&mut self, context: BrowsingContext)
        requires
            old(self).wf(),
            context.id().0 < old(self).issued().browsing_contexts,
        ensures
            final(self).wf(),
            final(self).issued() == old(self).issued(),
            final(self).browsing_context(context.id()) == Some(context),
            forall|c: BrowsingContextID|
                c != context.id() ==> #[trigger] final(self).browsing_context(c) == old(
                    self,
                ).browsing_context(c),
            final(self).same_agents(*old(self)),
            final(self).same_realms(*old(self)),
            final(self).same_browsing_context_groups(*old(self)),
    {
        let key: usize = context.id().0;
        self.browsing_contexts.insert(key, context);
    }

    /// Stores `group` under its own identifier.
    pub fn register_browsing_context_group(&mut self, group: BrowsingContextGroup)
        requires
            old(self).wf(),
            group.wf(),
            group.id().0 < old(self).issued().browsing_context_groups,
        ensures
            final(self).wf(),
            final(self).issued() == old(self).issued(),
            final(self).browsing_context_group(group.id()) == Some(group),
            forall|g: BrowsingContextGroupID|
                g != group.id() ==> #[trigger] final(self).browsing_context_group(g) == old(
                    self,
                ).browsing_context_group(g),
            final(self).same_agents(*old(self)),
            final(self).same_realms(*old(self)),
            final(self).same_browsing_contexts(*old(self)),
    {
        let key: usize = group.id().0;
        self.browsing_context_groups.insert(key, group);
    }

    /// Looks up the agent registered under `id`.
    pub fn get_agent(&self, id: AgentID) -> (found: Option<&Agent>)
        ensures
            match found {
                Some(a) => self.agent(id) == Some(*a),
                None => self.agent(id) is None,
            },
    {
        self.agents.get(&id.0)
    }

    /// Looks up the realm registered under `id`.
    pub fn get_realm(&self, id: RealmID) -> (found: Option<&Realm>)
        ensures
            match found {
                Some(r) => self.realm(id) == Some(*r),
                None => self.realm(id) is None,
            },
    {
        self.realms.get(&id.0)
    }

    /// Looks up the browsing context registered under `id`.
    pub fn get_browsing_context(&self, id: BrowsingContextID) -> (found: Option<&BrowsingContext>)
        ensures
            match found {
                Some(c) => self.browsing_context(id) == Some(*c),
                None => self.browsing_context(id) is None,
            },
    {
        self.browsing_contexts.get(&id.0)
    }

    /// Looks up the browsing context group registered under `id`.
    pub fn get_browsing_context_group(&self, id: BrowsingContextGroupID) -> (found: Option<
        &BrowsingContextGroup,
    >)
        ensures
            match found {
                Some(g) => self.browsing_context_group(id) == Some(*g),
                None => self.browsing_context_group(id) is None,
            },
    {
        self.browsing_context_groups.get(&id.0)
    }

    /// Marks the environment settings object of the realm registered under
    /// `id` as ready and returns the realm's global object. Where no realm is
    /// registered under `id`, nothing changes and there is no global object.
    pub fn make_realm_ready(&mut self, id: RealmID) -> (window: Option<Window>)
        requires
            old(self).wf(),
        ensures
            final(self).wf(),
            final(self).issued() == old(self).issued(),
            final(self).same_but_realm(*old(self), id),
            match old(self).realm(id) {
                Some(realm) => window == realm.global_object() && final(self).realm(id) == Some(
                    realm.made_ready(),
                ),
                None => window is None && final(self).realm(id) is None,
            },
    {
        match self.realms.remove(&id.0) {
            Some(realm) => {
                let mut realm = realm;
                let window = realm.window();
                realm.make_ready();
                self.realms.insert(id.0, realm);
                window
            },
            None => None,
        }
    }
}

} // verus!
