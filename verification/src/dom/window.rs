//! Windows.

use vstd::prelude::*;

use crate::dom::node::{detached, lemma_new_window_linked, links_closed, siblings_linked};
use crate::dom::object::{Heap, HeapError, HostData, ObjectView, Object};

verus! {

/// <https://html.spec.whatwg.org/multipage/#window>
#[derive(Clone, Copy, Debug)]
pub struct Window(pub Object);

impl Window {
    /// The identity of the window object.
    pub open spec fn id(&self) -> int {
        self.0.id()
    }

    /// Create a `Window` object: a new object of the heap that holds a
    /// window. The heap changes in nothing else, and not at all on failure.
    pub fn new(heap: &mut Heap) -> (r: Result<Self, HeapError>)
        ensures
            match r {
                Ok(window) => !old(heap)@.contains_key(window.id()) && final(heap)@ == old(
                    heap,
                )@.insert(window.id(), ObjectView::Window),
                Err(e) => final(heap)@ == old(heap)@ && (e == HeapError::OutOfMemory || e
                    == HeapError::Allocation),
            },
            links_closed(old(heap)@) ==> links_closed(final(heap)@),
            siblings_linked(old(heap)@) ==> siblings_linked(final(heap)@),
            forall|x: int| detached(old(heap)@, x) ==> detached(final(heap)@, x),
    {
        match Object::new(heap, HostData::Window(WindowImpl {  })) {
            Ok(object) => {
                proof {
                    assert(final(heap)@ =~= old(heap)@.insert(object.id(), ObjectView::Window));
                    lemma_new_window_linked(old(heap)@, object.id());
                }
                Ok(Window(object))
            },
            Err(e) => {
                proof {
                    assert(final(heap)@ =~= old(heap)@);
                }
                Err(e)
            },
        }
    }
}

/// Implementation of actual `Window` object.
#[derive(Debug)]
pub struct WindowImpl {}

/// <https://html.spec.whatwg.org/multipage/#windowproxy>
#[derive(Clone, Copy, Debug, PartialEq, Eq, Structural)]
pub struct WindowProxy {}

} // verus!
