//! Guard expressions for hardware assignments: a boolean and comparison
//! algebra over port references, with simplifying constructors, a leaf
//! rewriting traversal and a shape-only canonical order.

pub mod port;

pub use port::Port;
pub mod guard;

pub use guard::Guard;
pub mod compare;
pub mod sugar;
pub mod laws;
