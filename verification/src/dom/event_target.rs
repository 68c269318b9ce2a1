//! Event targets.

use vstd::prelude::*;

verus! {

/// <https://dom.spec.whatwg.org/#eventtarget>
///
/// No listener can be registered yet, so an event target holds nothing.
#[derive(Clone, Copy, Debug, PartialEq, Eq, Structural)]
pub struct EventTarget {}

impl EventTarget {
    /// Create an `EventTarget` with empty `EventListener`.
    pub fn new() -> (r: Self)
        ensures
            r == (EventTarget {  }),
    {
        EventTarget {  }
    }
}

impl Default for EventTarget {
    fn default() -> (r: Self)
        ensures
            r == (EventTarget {  }),
    {
        EventTarget {  }
    }
}

} // verus!
