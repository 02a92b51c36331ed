//! State resolution and widget composition for a server-rendering framework:
//! paths and their locales, the page/widget state store, the render-mode
//! state machine with its build-time and request-time resolvers, and the
//! contracts that reactive state types follow.

pub mod driver;
pub mod error_views;
pub mod errors;
pub mod keyed;
pub mod path;
pub mod reactor;
pub mod render;
pub mod state;
pub mod template;
