//! DOM standard implementation

pub mod document;
pub mod element;
pub mod event_target;
pub mod html_element;
pub mod node;
pub mod object;
pub mod window;

pub use document::{Document, DocumentError, DocumentImpl, DocumentMode};
pub use element::{CustomElementState, Element, ElementImpl, ElementLocal, ElementType};
pub use event_target::EventTarget;
pub use html_element::{HTMLElement, HTMLElementImpl, HTMLElementType};
pub use node::{Node, NodeError, NodeImpl, NodeTypeData, NodeView};
pub use object::{AllocationFailure, Attempt, Heap, HeapError, HostData, Object, ObjectView};
pub use window::{Window, WindowImpl, WindowProxy};
