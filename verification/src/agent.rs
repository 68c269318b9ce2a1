//! Agents, realms and environment settings objects.

use vstd::prelude::*;

use crate::browsing_context::{BrowsingContextID, IsolationMode};
use crate::dom::window::{Window, WindowProxy};
use crate::dom_url::{DOMUrl, ImmutableOrigin, OriginView};
use crate::user_agent::UserAgent;

verus! {

/// <https://tc39.es/ecma262/#sec-agent-clusters>
#[derive(Clone, Copy, Debug, PartialEq, Eq, Structural)]
pub struct AgentCluster {
    /// <https://html.spec.whatwg.org/multipage/#agent-cluster-cross-origin-isolation>
    pub isolation_mode: IsolationMode,
    /// <https://html.spec.whatwg.org/multipage/#is-origin-keyed>
    pub origin_keyed: bool,
    /// The one agent of the cluster.
    pub agent: AgentID,
}

/// <https://tc39.es/ecma262/#sec-agents>
#[derive(Clone, Copy, Debug, PartialEq, Eq, Structural)]
pub struct Agent {
    id: AgentID,
    block: bool,
}

impl Agent {
    /// Whether the agent may block.
    pub closed spec fn can_block(&self) -> bool {
        self.block
    }

    /// <https://html.spec.whatwg.org/multipage/#create-an-agent>
    ///
    /// The new agent gets the next agent identifier and is registered with the
    /// user agent under it; nothing else of the user agent changes.
    pub fn create(ua: &mut UserAgent, block: bool) -> (id: AgentID)
        requires
            old(ua).wf(),
            old(ua).issued().agents < usize::MAX,
        ensures
            final(ua).wf(),
            id.0 == old(ua).issued().agents,
            final(ua).issued() == old(ua).issued().with_agent(),
            old(ua).agent(id) is None,
            forall|earlier: AgentID| #[trigger] old(ua).agent(earlier) is Some ==> earlier.0 < id.0,
            final(ua).agent(id) is Some,
            final(ua).agent(id).unwrap().id() == id,
            final(ua).agent(id).unwrap().can_block() == block,
            final(ua).same_but_agent(*old(ua), id),
    {
        let id = ua.next_agent_id();
        let agent = Agent { id, block };
        ua.register_agent(agent);
        id
    }

    /// The identifier of the agent.
    #[verifier::when_used_as_spec(spec_id)]
    pub fn id(&self) -> (id: AgentID)
        ensures
            id == self.spec_id(),
    {
        self.id
    }

    /// The identifier of the agent.
    pub closed spec fn spec_id(&self) -> AgentID {
        self.id
    }

    /// Whether the agent may block.
    pub fn blocks(&self) -> (block: bool)
        ensures
            block == self.can_block(),
    {
        self.block
    }
}

/// Identifier of an `Agent`.
#[derive(Clone, Copy, Debug, PartialEq, Eq, Structural, PartialOrd, Ord, Hash)]
pub struct AgentID(pub usize);

/// <https://tc39.es/ecma262/#sec-code-realms>
#[derive(Debug)]
pub struct Realm {
    id: RealmID,
    agent: AgentID,
    global_object: Option<Window>,
    global_this: Option<WindowProxy>,
    settings_object: Option<Environment>,
}

impl Realm {
    /// The agent that the realm is bound to.
    pub closed spec fn agent(&self) -> AgentID {
        self.agent
    }

    /// The global object.
    pub closed spec fn global_object(&self) -> Option<Window> {
        self.global_object
    }

    /// The global this binding.
    pub closed spec fn global_this(&self) -> Option<WindowProxy> {
        self.global_this
    }

    /// The environment settings object.
    pub closed spec fn settings_object(&self) -> Option<Environment> {
        self.settings_object
    }

    /// The realm with `settings` as its environment settings object.
    pub closed spec fn with_settings(self, settings: Option<Environment>) -> Realm {
        Realm { settings_object: settings, ..self }
    }

    /// The realm's environment settings object marked as ready, where the
    /// realm has one.
    pub open spec fn made_ready(self) -> Realm {
        match self.settings_object() {
            Some(env) => self.with_settings(Some(env.made_ready())),
            None => self,
        }
    }

    /// Marking the environment settings object as ready changes nothing else
    /// of the realm: it keeps its identifier, its agent and its global object.
    pub proof fn lemma_made_ready(self)
        ensures
            self.made_ready().id() == self.id(),
            self.made_ready().agent() == self.agent(),
            self.made_ready().global_object() == self.global_object(),
            self.made_ready().global_this() == self.global_this(),
            self.made_ready().settings_object() == (match self.settings_object() {
                Some(env) => Some(env.made_ready()),
                None => None,
            }),
    {
    }

    /// <https://html.spec.whatwg.org/multipage/#creating-a-new-javascript-realm>
    ///
    /// The realm gets the next realm identifier and has no environment
    /// settings object yet. It is not registered, so no realm stands under its
    /// identifier: that is done by `set_window_settings_object`.
    pub fn create(
        ua: &mut UserAgent,
        agent: AgentID,
        global_object: Option<Window>,
        global_this: Option<WindowProxy>,
    ) -> (realm: Realm)
        requires
            old(ua).wf(),
            old(ua).issued().realms < usize::MAX,
        ensures
            final(ua).wf(),
            realm.id().0 == old(ua).issued().realms,
            final(ua).issued() == old(ua).issued().with_realm(),
            final(ua).same_registries(*old(ua)),
            final(ua).realm(realm.id()) is None,
            realm.agent() == agent,
            realm.global_object() == global_object,
            realm.global_this() == global_this,
            realm.settings_object() is None,
    {
        let id = ua.next_realm_id();
        Self { id, agent, global_object, global_this, settings_object: None }
    }

    /// Get the ID of the `Realm`.
    #[verifier::when_used_as_spec(spec_id)]
    pub fn id(&self) -> (id: RealmID)
        ensures
            id == self.spec_id(),
    {
        self.id
    }

    /// The ID of the `Realm`.
    pub closed spec fn spec_id(&self) -> RealmID {
        self.id
    }

    /// The agent that the realm is bound to.
    pub fn agent_id(&self) -> (agent: AgentID)
        ensures
            agent == self.agent(),
    {
        self.agent
    }

    /// The environment settings object, if the realm has one.
    pub fn settings(&self) -> (settings: Option<&Environment>)
        ensures
            match settings {
                Some(env) => self.settings_object() == Some(*env),
                None => self.settings_object() is None,
            },
    {
        self.settings_object.as_ref()
    }

    /// The window that is the global object, if there is one.
    pub fn window(&self) -> (window: Option<Window>)
        ensures
            window == self.global_object(),
    {
        self.global_object
    }

    /// Marks the environment settings object as ready, where there is one.
    pub fn make_ready(&mut self)
        ensures
            *final(self) == old(self).made_ready(),
            final(self).id() == old(self).id(),
    {
        match &mut self.settings_object {
            Some(env) => {
                env.ready = true;
            },
            None => {},
        }
    }

    /// <https://html.spec.whatwg.org/multipage/#set-up-a-window-environment-settings-object>
    ///
    /// Gives the realm its environment settings object and registers the
    /// realm with the user agent under its identifier. The settings object
    /// takes identifier and browsing context from `environment` where one is
    /// given; else it gets the next environment identifier and no browsing
    /// context. It is not ready.
    pub fn set_window_settings_object(
        self,
        ua: &mut UserAgent,
        creation_url: DOMUrl,
        top_url: DOMUrl,
        top_origin: ImmutableOrigin,
        environment: Option<Environment>,
    )
        requires
            old(ua).wf(),
            environment is None ==> old(ua).issued().environments < usize::MAX,
            self.id().0 < old(ua).issued().realms,
        ensures
            final(ua).wf(),
            final(ua).issued() == (match environment {
                Some(_) => old(ua).issued(),
                None => old(ua).issued().with_environment(),
            }),
            final(ua).same_but_realm(*old(ua), self.id()),
            final(ua).realm(self.id()) is Some,
            ({
                let realm = final(ua).realm(self.id()).unwrap();
                &&& realm.id() == self.id()
                &&& realm.agent() == self.agent()
                &&& realm.global_object() == self.global_object()
                &&& realm.global_this() == self.global_this()
                &&& realm.settings_object() is Some
                &&& realm.settings_object().unwrap().is_settings_for(
                    *old(ua),
                    creation_url,
                    top_url,
                    top_origin,
                    environment,
                )
            }),
    {
        let (id, browsing_context) = match environment {
            // If reservedEnvironment is non-null, the settings object takes
            // its identifier and its target browsing context.
            Some(e) => (e.id, e.browsing_context),
            // Otherwise it gets a new identifier and no browsing context.
            None => (ua.next_environment_id(), None),
        };
        let settings_object = Environment {
            id,
            creation_url,
            top_url: Some(top_url),
            top_origin: Some(top_origin),
            browsing_context,
            ready: false,
        };
        let mut realm = self;
        realm.settings_object = Some(settings_object);
        ua.register_realm(realm);
    }
}

/// Identifier of a `Realm`.
#[derive(Clone, Copy, Debug, PartialEq, Eq, Structural, PartialOrd, Ord, Hash)]
pub struct RealmID(pub usize);

/// <https://html.spec.whatwg.org/multipage/#environment>
#[derive(Debug)]
pub struct Environment {
    id: EnvironmentID,
    creation_url: DOMUrl,
    top_url: Option<DOMUrl>,
    top_origin: Option<ImmutableOrigin>,
    browsing_context: Option<BrowsingContextID>,
    ready: bool,
}

impl Environment {
    /// The identifier of the environment.
    pub closed spec fn id(&self) -> EnvironmentID {
        self.id
    }

    /// The serialization of the creation URL.
    pub closed spec fn creation_url(&self) -> Seq<char> {
        self.creation_url@
    }

    /// The serialization of the top-level creation URL.
    pub closed spec fn top_url(&self) -> Option<Seq<char>> {
        match self.top_url {
            Some(url) => Some(url@),
            None => None,
        }
    }

    /// The top-level origin.
    pub closed spec fn top_origin(&self) -> Option<OriginView> {
        match self.top_origin {
            Some(origin) => Some(origin@),
            None => None,
        }
    }

    /// The target browsing context.
    pub closed spec fn browsing_context(&self) -> Option<BrowsingContextID> {
        self.browsing_context
    }

    /// The execution ready flag.
    pub closed spec fn ready(&self) -> bool {
        self.ready
    }

    /// The environment with its execution ready flag set.
    pub closed spec fn made_ready(self) -> Environment {
        Environment { ready: true, ..self }
    }

    /// Setting the execution ready flag changes nothing else.
    pub proof fn lemma_made_ready(self)
        ensures
            self.made_ready().ready(),
            self.made_ready().id() == self.id(),
            self.made_ready().creation_url() == self.creation_url(),
            self.made_ready().top_url() == self.top_url(),
            self.made_ready().top_origin() == self.top_origin(),
            self.made_ready().browsing_context() == self.browsing_context(),
    {
    }

    /// Whether this is the environment settings object that a realm gets from
    /// `set_window_settings_object` with these arguments, by a user agent in
    /// the state `ua`.
    pub open spec fn is_settings_for(
        &self,
        ua: UserAgent,
        creation_url: DOMUrl,
        top_url: DOMUrl,
        top_origin: ImmutableOrigin,
        environment: Option<Environment>,
    ) -> bool {
        &&& self.creation_url() == creation_url@
        &&& self.top_url() == Some(top_url@)
        &&& self.top_origin() == Some(top_origin@)
        &&& !self.ready()
        &&& match environment {
            Some(reserved) => self.id() == reserved.id() && self.browsing_context()
                == reserved.browsing_context(),
            None => self.id().0 == ua.issued().environments && self.browsing_context() is None,
        }
    }

    /// A reserved environment with the next environment identifier and the
    /// given target browsing context.
    pub fn reserve(
        ua: &mut UserAgent,
        creation_url: DOMUrl,
        browsing_context: Option<BrowsingContextID>,
    ) -> (env: Environment)
        requires
            old(ua).wf(),
            old(ua).issued().environments < usize::MAX,
        ensures
            final(ua).wf(),
            final(ua).issued() == old(ua).issued().with_environment(),
            final(ua).same_registries(*old(ua)),
            env.id().0 == old(ua).issued().environments,
            env.creation_url() == creation_url@,
            env.top_url() is None,
            env.top_origin() is None,
            env.browsing_context() == browsing_context,
            !env.ready(),
    {
        let id = ua.next_environment_id();
        Environment {
            id,
            creation_url,
            top_url: None,
            top_origin: None,
            browsing_context,
            ready: false,
        }
    }

    /// The identifier of the environment.
    pub fn environment_id(&self) -> (id: EnvironmentID)
        ensures
            id == self.id(),
    {
        self.id
    }

    /// The target browsing context.
    pub fn target_browsing_context(&self) -> (context: Option<BrowsingContextID>)
        ensures
            context == self.browsing_context(),
    {
        self.browsing_context
    }

    /// The creation URL.
    pub fn creation(&self) -> (url: &DOMUrl)
        ensures
            url@ == self.creation_url(),
    {
        &self.creation_url
    }

    /// The top-level creation URL.
    pub fn top_level_url(&self) -> (url: Option<&DOMUrl>)
        ensures
            match url {
                Some(u) => self.top_url() == Some(u@),
                None => self.top_url() is None,
            },
    {
        self.top_url.as_ref()
    }

    /// The top-level origin.
    pub fn top_level_origin(&self) -> (origin: Option<&ImmutableOrigin>)
        ensures
            match origin {
                Some(o) => self.top_origin() == Some(o@),
                None => self.top_origin() is None,
            },
    {
        self.top_origin.as_ref()
    }

    /// Whether the execution ready flag is set.
    pub fn is_ready(&self) -> (ready: bool)
        ensures
            ready == self.ready(),
    {
        self.ready
    }
}

/// Identifier of an `Environment`.
#[derive(Clone, Copy, Debug, PartialEq, Eq, Structural, PartialOrd, Ord, Hash)]
pub struct EnvironmentID(pub usize);

/// <https://infra.spec.whatwg.org/#namespaces>
#[derive(Clone, Copy, Debug, PartialEq, Eq, Structural)]
pub enum NameSpace {
    /// <https://infra.spec.whatwg.org/#html-namespace>
    HTML,
    /// The null namespace.
    Null,
}

} // verus!
