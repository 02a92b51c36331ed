//! State: the untyped container, the reactive contracts and the store.
pub mod template_state;
pub mod pss;
pub mod rx_state;
