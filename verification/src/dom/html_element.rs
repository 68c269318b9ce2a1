//! HTML elements.

use vstd::prelude::*;

use crate::dom::object::Object;

verus! {

/// <https://html.spec.whatwg.org/multipage/#htmlelement>
#[derive(Clone, Copy, Debug)]
pub struct HTMLElement(pub Object);

impl HTMLElement {
    /// The identity of the element's node object.
    pub open spec fn id(&self) -> int {
        self.0.id()
    }
}

/// Implementation of actual `HTMLElement` object. This can be accessed from `NodeImpl`.
#[derive(Debug)]
pub struct HTMLElementImpl {
    html_type: HTMLElementType,
}

impl HTMLElementImpl {
    /// The kind of HTML element.
    pub closed spec fn html_type(&self) -> HTMLElementType {
        self.html_type
    }

    /// Create an `HTMLElementImpl` with provided node type data.
    pub fn new(data: HTMLElementType) -> (r: Self)
        ensures
            r.html_type() == data,
    {
        Self { html_type: data }
    }
}

/// The actual implementation of each HTMLElement type
#[derive(Clone, Copy, Debug, PartialEq, Eq, Structural)]
pub enum HTMLElementType {
    /// HTMLHtmlElement
    Html,
    /// HTMLHeadElement
    Head,
    /// HTMLBodyElement
    Body,
    /// Similar to `Option::None`.
    Unknown,
}

impl Default for HTMLElementType {
    fn default() -> (r: Self)
        ensures
            r == HTMLElementType::Unknown,
    {
        HTMLElementType::Unknown
    }
}

} // verus!
