//! A navigable presents a Document to the user via its active session history entry.

use std::collections::HashMap;
use vstd::prelude::*;

use crate::browsing_context::{
    is_top_browsing_context,
    BrowsingContext,
    BrowsingContextGroupID,
    BrowsingContextID,
};
use crate::dom::document::{about_blank, url_option_view, Document, DocumentError};
use crate::dom::element::Element;
use crate::dom::node::{keeps, siblings_linked};
use crate::dom::object::{Heap, ObjectView};
use crate::dom_url::{DOMUrl, ImmutableOrigin, OriginView};
use crate::user_agent::UserAgent;

verus! {

broadcast use vstd::std_specs::hash::group_hash_axioms;

/// Why a navigable could not be made or navigated.
#[derive(Clone, Copy, Debug, PartialEq, Eq, Structural)]
pub enum NavigableError {
    /// The initial document could not be made.
    Document(DocumentError),
    /// The algorithm that was asked for is not part of this library yet.
    NotImplemented,
}

/// The session history entries of a top-level navigable.
#[derive(Debug)]
pub struct Traversable {
    history_entries: HashMap<usize, SessionHistory>,
}

impl View for Traversable {
    type V = Map<SessionHistoryID, SessionHistory>;

    /// The session history entries by identifier.
    closed spec fn view(&self) -> Map<SessionHistoryID, SessionHistory> {
        Map::new(
            |id: SessionHistoryID| self.history_entries@.contains_key(id.0),
            |id: SessionHistoryID| self.history_entries@[id.0],
        )
    }
}

impl Traversable {
    /// A traversable without session history entries.
    pub fn new() -> (r: Self)
        ensures
            r@ == Map::<SessionHistoryID, SessionHistory>::empty(),
    {
        let r = Traversable { history_entries: HashMap::new() };
        assert(r@ =~= Map::<SessionHistoryID, SessionHistory>::empty());
        r
    }

    /// Appends `entry` to the session history entries, under its identifier.
    pub fn append(&mut self, entry: SessionHistory)
        ensures
            final(self)@ == old(self)@.insert(entry.id, entry),
    {
        let key: usize = entry.id.0;
        self.history_entries.insert(key, entry);
        assert(final(self)@ =~= old(self)@.insert(entry.id, entry));
    }

    /// The session history entry with the identifier `id`, if there is one.
    pub fn get(&self, id: SessionHistoryID) -> (entry: Option<&SessionHistory>)
        ensures
            match entry {
                Some(e) => self@.contains_key(id) && self@[id] == *e,
                None => !self@.contains_key(id),
            },
    {
        self.history_entries.get(&id.0)
    }

    /// The number of session history entries.
    pub fn len(&self) -> (len: usize)
        ensures
            self@.dom().finite(),
            len == self@.dom().len(),
    {
        proof {
            self.lemma_size();
        }
        self.history_entries.len()
    }

    /// There are as many entries as identifiers of entries.
    proof fn lemma_size(&self)
        ensures
            self@.dom().finite(),
            self@.dom().len() == self.history_entries@.dom().len(),
    {
        let keys = self.history_entries@.dom();
        let ids = self@.dom();
        assert(ids =~= keys.map(|k: usize| SessionHistoryID(k))) by {
            assert forall|id: SessionHistoryID| ids.contains(id) implies keys.map(
                |k: usize| SessionHistoryID(k),
            ).contains(id) by {
                assert(keys.contains(id.0));
                assert(SessionHistoryID(id.0) == id);
            }
        }
        vstd::set_lib::lemma_map_size(keys, ids, |k: usize| SessionHistoryID(k));
    }
}

/// <https://html.spec.whatwg.org/multipage/document-sequences.html#navigable>
#[derive(Debug)]
pub struct Navigable {
    id: NavigableID,
    parent: Option<NavigableID>,
    current_entry: Option<SessionHistoryID>,
    active_entry: Option<SessionHistoryID>,
    traversable: Option<Traversable>,
}

/// Whether `entry` is the session history entry that `initialize` makes of
/// `state` and `url` with the identifier `id`: one without a step.
pub open spec fn is_initial_entry(
    entry: SessionHistory,
    id: SessionHistoryID,
    state: DocumentState,
    url: DOMUrl,
) -> bool {
    &&& entry.id == id
    &&& entry.step is None
    &&& entry.url == url
    &&& entry.state == state
}

/// Whether `state` is the document state of the initial document `document`
/// of a new top-level traversable with the target name `target`.
pub open spec fn is_initial_state(
    state: DocumentState,
    document: Document,
    origin: OriginView,
    target: Seq<char>,
) -> bool {
    &&& state.document == Some(document)
    &&& state.initiator_origin is None
    &&& state.origin is Some
    &&& state.origin.unwrap()@ == origin
    &&& state.target@ == target
    &&& state.about_base_url is None
}

impl Navigable {
    /// The identifier of the navigable.
    pub closed spec fn id(&self) -> NavigableID {
        self.id
    }

    /// The parent.
    pub closed spec fn parent(&self) -> Option<NavigableID> {
        self.parent
    }

    /// The current session history entry.
    pub closed spec fn current_entry(&self) -> Option<SessionHistoryID> {
        self.current_entry
    }

    /// The active session history entry.
    pub closed spec fn active_entry(&self) -> Option<SessionHistoryID> {
        self.active_entry
    }

    /// The session history entries, where the navigable is a top-level
    /// traversable.
    pub closed spec fn traversable(&self) -> Option<Traversable> {
        self.traversable
    }

    /// A navigable with the next navigable identifier, without parent,
    /// session history entries and traversable.
    pub fn new(ua: &mut UserAgent) -> (r: Self)
        requires
            old(ua).wf(),
            old(ua).issued().navigables < usize::MAX,
        ensures
            final(ua).wf(),
            final(ua).issued() == old(ua).issued().with_navigable(),
            final(ua).same_registries(*old(ua)),
            r.id().0 == old(ua).issued().navigables,
            r.parent() is None,
            r.current_entry() is None,
            r.active_entry() is None,
            r.traversable() is None,
    {
        Navigable {
            id: ua.next_navigable_id(),
            parent: None,
            current_entry: None,
            active_entry: None,
            traversable: None,
        }
    }

    /// <https://html.spec.whatwg.org/multipage/document-sequences.html#create-a-fresh-top-level-traversable>
    ///
    /// Makes a new top-level traversable with the empty target name and
    /// navigates it to `url`. Navigation is not part of this library yet, so
    /// every call fails: with `NotImplemented` where the traversable was made,
    /// which leaves the user agent and the heap as `create_top_traversable`
    /// leaves them, and else with the error of the initial document.
    pub fn create_fresh_top_traversable(
        url: DOMUrl,
        resource: Option<bool>,
        ua: &mut UserAgent,
        heap: &mut Heap,
    ) -> (r: Result<Self, NavigableError>)
        requires
            old(ua).wf(),
            old(ua).has_room(1),
            old(heap).well_formed(),
        ensures
            final(ua).wf(),
            final(heap).well_formed(),
            final(ua).issued().at_least(old(ua).issued()),
            siblings_linked(old(heap)@) ==> siblings_linked(final(heap)@),
            keeps(final(heap)@, old(heap)@),
            match r {
                Ok(_) => false,
                Err(NavigableError::NotImplemented) => exists|made: Navigable|
                    is_top_traversable(
                        *old(ua),
                        *final(ua),
                        old(heap)@,
                        *final(heap),
                        made,
                        ""@,
                    ),
                Err(NavigableError::Document(e)) => is_failed_top_traversable(
                    *old(ua),
                    *final(ua),
                    e,
                ),
            },
    {
        // Let traversable be the result of creating a new top-level traversable given null and the empty string.
        let traversable = match Navigable::create_top_traversable(
            None,
            String::from_str(""),
            None,
            ua,
            heap,
        ) {
            Ok(traversable) => traversable,
            Err(e) => {
                return Err(e);
            },
        };
        // Navigate traversable to initialNavigationURL using traversable's active document.
        match traversable.navigate(
            url,
            None,
            resource,
            None,
            false,
            NavigationHistoryBehavior::Auto,
            None,
            None,
            ReferrerPolicy::Empty,
            None,
            None,
            false,
        ) {
            Ok(_) => Ok(traversable),
            Err(e) => Err(e),
        }
    }

    /// <https://html.spec.whatwg.org/multipage/document-sequences.html#creating-a-new-top-level-traversable>
    ///
    /// Without an opener, makes a new top-level browsing context with its
    /// initial document, and a navigable whose one session history entry, with
    /// the step 0, holds that document, its origin and `target`. That entry is
    /// the current and the active entry. With an opener, which stands for an
    /// auxiliary browsing context, the algorithm is not part of this library
    /// yet, and nothing changes.
    pub fn create_top_traversable(
        opener: Option<bool>,
        target: String,
        navigable: Option<Navigable>,
        ua: &mut UserAgent,
        heap: &mut Heap,
    ) -> (r: Result<Self, NavigableError>)
        requires
            old(ua).wf(),
            old(ua).has_room(1),
            old(heap).well_formed(),
        ensures
            final(ua).wf(),
            final(heap).well_formed(),
            final(ua).issued().at_least(old(ua).issued()),
            siblings_linked(old(heap)@) ==> siblings_linked(final(heap)@),
            keeps(final(heap)@, old(heap)@),
            opener is Some ==> r == Err::<Self, NavigableError>(NavigableError::NotImplemented)
                && *final(ua) == *old(ua) && final(heap)@ == old(heap)@,
            r is Err && opener is None ==> r->Err_0 is Document && is_failed_top_traversable(
                *old(ua),
                *final(ua),
                r->Err_0->Document_0,
            ),
            r is Ok ==> opener is None && is_top_traversable(
                *old(ua),
                *final(ua),
                old(heap)@,
                *final(heap),
                r->Ok_0,
                target@,
            ),
    {
        if opener.is_some() {
            return Err(NavigableError::NotImplemented);
        }
        // Let traversable be a new traversable navigable.
        let mut traversable = Navigable::new(ua);
        let ghost with_navigable = *ua;
        // If opener is null, then set document to the second return value of creating a new top-level browsing
        // context and document.
        let (group_id, context_id, document) = match BrowsingContext::new_top_browsing_context(
            ua,
            heap,
        ) {
            Ok(made) => made,
            Err(e) => {
                return Err(NavigableError::Document(e));
            },
        };
        let ghost with_context = *ua;
        // Let documentState be a new document state, with no initiator origin,
        // as there is no opener.
        let url = document.url(heap);
        let state = DocumentState {
            initiator_origin: None,
            origin: Some(document.origin(heap)),
            target,
            about_base_url: document.about_base_url(heap),
            document: Some(document),
        };
        // Initialize the navigable traversable given documentState, and let initialHistoryEntry be
        // traversable's active session history entry.
        let mut initial_entry = traversable.initialize(ua, state, url, None);
        // Set initialHistoryEntry's step to 0.
        initial_entry.step = Some(0);
        // Append initialHistoryEntry to traversable's session history entries.
        let mut entries = Traversable::new();
        entries.append(initial_entry);
        traversable.traversable = Some(entries);
        proof {
            let entry_id = SessionHistoryID(old(ua).issued().session_histories as usize);
            assert(entries@.dom() =~= set![entry_id]);
            assert(is_top_browsing_context(
                *old(ua),
                *ua,
                old(heap)@,
                heap@,
                ua.browsing_context_group(group_id).unwrap()@,
                ua.browsing_context(context_id).unwrap(),
                document,
            )) by {
                assert(is_top_browsing_context(
                    with_navigable,
                    with_context,
                    old(heap)@,
                    heap@,
                    with_context.browsing_context_group(group_id).unwrap()@,
                    with_context.browsing_context(context_id).unwrap(),
                    document,
                ));
            }
        }
        // Return traversable.
        Ok(traversable)
    }

    /// <https://html.spec.whatwg.org/multipage/#initialize-the-navigable>
    ///
    /// Makes a session history entry of `state` and `url` with the next
    /// session history identifier and without a step, makes it the current
    /// and the active entry of the navigable, and makes `parent` the parent.
    pub fn initialize(
        &mut self,
        ua: &mut UserAgent,
        state: DocumentState,
        url: DOMUrl,
        parent: Option<NavigableID>,
    ) -> (entry: SessionHistory)
        requires
            old(ua).wf(),
            old(ua).issued().session_histories < usize::MAX,
        ensures
            final(ua).wf(),
            final(ua).issued() == old(ua).issued().with_session_history(),
            final(ua).same_registries(*old(ua)),
            is_initial_entry(
                entry,
                SessionHistoryID(old(ua).issued().session_histories as usize),
                state,
                url,
            ),
            final(self).current_entry() == Some(entry.id),
            final(self).active_entry() == Some(entry.id),
            final(self).parent() == parent,
            final(self).id() == old(self).id(),
            final(self).traversable() == old(self).traversable(),
    {
        // Let entry be a new session history entry.
        let entry = SessionHistory { id: ua.next_session_history_id(), step: None, url, state };
        // Set navigable's current session history entry to entry.
        self.current_entry = Some(entry.id);
        // Set navigable's active session history entry to entry.
        self.active_entry = Some(entry.id);
        // Set navigable's parent to parent.
        self.parent = parent;
        entry
    }

    /// <https://html.spec.whatwg.org/multipage/#navigate>
    ///
    /// Navigation is not part of this library yet: every call fails and says
    /// so.
    pub fn navigate(
        &self,
        url: DOMUrl,
        document: Option<Document>,
        resource: Option<bool>,
        response: Option<bool>,
        exception: bool,
        history_handling: NavigationHistoryBehavior,
        api_state: Option<bool>,
        entry_list: Option<bool>,
        referer_policy: ReferrerPolicy,
        involvement: Option<bool>,
        element: Option<Element>,
        initial_insertion: bool,
    ) -> (r: Result<(), NavigableError>)
        ensures
            r == Err::<(), NavigableError>(NavigableError::NotImplemented),
    {
        Err(NavigableError::NotImplemented)
    }

    /// Get the ID of the `Navigable`.
    pub fn navigable_id(&self) -> (id: NavigableID)
        ensures
            id == self.id(),
    {
        self.id
    }

    /// The parent of the navigable.
    pub fn parent_id(&self) -> (parent: Option<NavigableID>)
        ensures
            parent == self.parent(),
    {
        self.parent
    }

    /// The current session history entry.
    pub fn current_entry_id(&self) -> (entry: Option<SessionHistoryID>)
        ensures
            entry == self.current_entry(),
    {
        self.current_entry
    }

    /// The active session history entry.
    pub fn active_entry_id(&self) -> (entry: Option<SessionHistoryID>)
        ensures
            entry == self.active_entry(),
    {
        self.active_entry
    }

    /// The session history entries, where the navigable is a top-level
    /// traversable.
    pub fn history(&self) -> (entries: Option<&Traversable>)
        ensures
            match entries {
                Some(t) => self.traversable() == Some(*t),
                None => self.traversable() is None,
            },
    {
        self.traversable.as_ref()
    }
}

/// Whether `after` is the user agent that `create_top_traversable` leaves of
/// `before` where the initial document could not be made and `error` says
/// why: the identifier of the navigable was handed out, no session history
/// entry was made, and the error is `AboutBlank` exactly if the URL parser
/// refuses `about:blank`.
pub open spec fn is_failed_top_traversable(
    before: UserAgent,
    after: UserAgent,
    error: DocumentError,
) -> bool {
    &&& after.issued().navigables == before.issued().navigables + 1
    &&& after.issued().session_histories == before.issued().session_histories
    &&& error is AboutBlank <==> about_blank() is None
}

/// Whether `traversable` is the navigable that `create_top_traversable`
/// makes, with the target name `target`, of a user agent in the state
/// `before` and a heap that holds `heap_before`, leaving them as `after` and
/// `heap_after`: a navigable with the next navigable identifier and without
/// parent, whose one session history entry has the next session history
/// identifier and the step 0, is the current and the active entry, and holds
/// the initial document of a new top-level browsing context.
pub open spec fn is_top_traversable(
    before: UserAgent,
    after: UserAgent,
    heap_before: Map<int, ObjectView>,
    heap_after: Heap,
    traversable: Navigable,
    target: Seq<char>,
) -> bool {
    let entry_id = SessionHistoryID(before.issued().session_histories as usize);
    let group_id = BrowsingContextGroupID(before.issued().browsing_context_groups as usize);
    let context_id = BrowsingContextID(before.issued().browsing_contexts as usize);
    &&& traversable.id().0 == before.issued().navigables
    &&& traversable.parent() is None
    &&& traversable.current_entry() == Some(entry_id)
    &&& traversable.active_entry() == Some(entry_id)
    &&& traversable.traversable() is Some
    &&& traversable.traversable().unwrap()@.dom() == set![entry_id]
    &&& after.issued().navigables == before.issued().navigables + 1
    &&& after.issued().session_histories == before.issued().session_histories + 1
    &&& after.browsing_context_group(group_id) is Some
    &&& after.browsing_context(context_id) is Some
    &&& {
        let entry = traversable.traversable().unwrap()@[entry_id];
        &&& entry.id == entry_id
        &&& entry.step == Some(0usize)
        &&& entry.state.document is Some
        &&& {
            let document = entry.state.document.unwrap();
            &&& heap_after.has_document(document.id())
            &&& Some(entry.url@) == about_blank()
            &&& is_initial_state(
                entry.state,
                document,
                heap_after.document(document.id()).origin@,
                target,
            )
            &&& is_top_browsing_context(
                before,
                after,
                heap_before,
                heap_after@,
                after.browsing_context_group(group_id).unwrap()@,
                after.browsing_context(context_id).unwrap(),
                document,
            )
        }
    }
}

/// ID of `Navigable`.
#[derive(Clone, Copy, Debug, PartialEq, Eq, Structural, PartialOrd, Ord, Hash)]
pub struct NavigableID(pub usize);

/// <https://html.spec.whatwg.org/multipage/#session-history-entry>
#[derive(Debug)]
pub struct SessionHistory {
    /// The identifier of the entry.
    pub id: SessionHistoryID,
    /// <https://html.spec.whatwg.org/multipage/#she-step>
    pub step: Option<usize>,
    /// <https://html.spec.whatwg.org/multipage/#she-url>
    pub url: DOMUrl,
    /// <https://html.spec.whatwg.org/multipage/#she-document-state>
    pub state: DocumentState,
}

/// ID of `SessionHistory`.
#[derive(Clone, Copy, Debug, PartialEq, Eq, Structural, PartialOrd, Ord, Hash)]
pub struct SessionHistoryID(pub usize);

/// <https://html.spec.whatwg.org/multipage/browsing-the-web.html#document-state-2>
#[derive(Debug)]
pub struct DocumentState {
    /// <https://html.spec.whatwg.org/multipage/#document-state-document>
    pub document: Option<Document>,
    /// <https://html.spec.whatwg.org/multipage/#document-state-initiator-origin>
    pub initiator_origin: Option<ImmutableOrigin>,
    /// <https://html.spec.whatwg.org/multipage/#document-state-origin>
    pub origin: Option<ImmutableOrigin>,
    /// <https://html.spec.whatwg.org/multipage/#document-state-nav-target-name>
    pub target: String,
    /// <https://html.spec.whatwg.org/multipage/#document-state-about-base-url>
    pub about_base_url: Option<DOMUrl>,
}

/// <https://html.spec.whatwg.org/multipage/#navigationhistorybehavior>
#[derive(Clone, Copy, Debug, PartialEq, Eq, Structural)]
pub enum NavigationHistoryBehavior {
    /// "auto"
    Auto,
    /// "push"
    Push,
    /// "replace"
    Replace,
}

impl Default for NavigationHistoryBehavior {
    fn default() -> (r: Self)
        ensures
            r == NavigationHistoryBehavior::Auto,
    {
        NavigationHistoryBehavior::Auto
    }
}

/// <https://w3c.github.io/webappsec-referrer-policy/#referrer-policy>
#[derive(Clone, Copy, Debug, PartialEq, Eq, Structural)]
pub enum ReferrerPolicy {
    /// ""
    Empty,
    /// "no-referrer"
    NoReferrer,
    /// "no-referrer-when-downgrade"
    NoReferrerWhenDowngrade,
    /// "same-origin"
    SameOrigin,
    /// "origin"
    Origin,
    /// "strict-origin"
    StrictOrigin,
    /// "origin-when-cross-origin"
    OriginWhenCrossOrigin,
    /// "strict-origin-when-cross-origin"
    StrictOriginWhenCrossOrigin,
    /// "unsafe-url"
    UnsafeUrl,
}

impl Default for ReferrerPolicy {
    fn default() -> (r: Self)
        ensures
            r == ReferrerPolicy::StrictOriginWhenCrossOrigin,
    {
        ReferrerPolicy::StrictOriginWhenCrossOrigin
    }
}

} // verus!
