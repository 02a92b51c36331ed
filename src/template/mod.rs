//! Templates and capsules: what each declares about where its state comes
//! from, and the decisions that follow from it.
pub mod entity;
pub mod widget_component;
