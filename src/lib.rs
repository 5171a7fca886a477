//! A retained-mode UI core: the attribute cascade that resolves each node's
//! computed style, and the positional reconciler that keeps long-lived peers
//! (windows) in step with the children of each new frame.
pub mod attribute;
pub mod element;
pub mod lifecycle;
pub mod node;
pub mod outer_join;
pub mod span;
pub mod style;
