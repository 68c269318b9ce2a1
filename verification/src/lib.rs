//! Identity and lifecycle core of a sandboxed web-document runtime: agents,
//! realms and browsing contexts, how they are keyed by origin, how session
//! history is represented, and the node tree that a document owns.

pub mod agent;
pub mod browsing_context;
pub mod dom;
pub mod dom_url;
pub mod navigible;
pub mod origin_map;
pub mod string;
pub mod user_agent;


pub use dom::{
    AllocationFailure,
    Attempt,
    CustomElementState,
    Document,
    DocumentError,
    DocumentImpl,
    DocumentMode,
    Element,
    ElementImpl,
    ElementLocal,
    ElementType,
    EventTarget,
    HTMLElement,
    HTMLElementImpl,
    HTMLElementType,
    Heap,
    HeapError,
    HostData,
    Node,
    NodeError,
    NodeImpl,
    NodeTypeData,
    NodeView,
    Object,
    ObjectView,
    Window,
    WindowImpl,
    WindowProxy,
};
