//! The error taxonomy: client invariant violations, server errors that carry
//! a status and a message, store errors and state deserialization errors.
use vstd::prelude::*;

verus! {

#[verifier::external_type_specification]
#[verifier::external_body]
pub struct ExJsonError(serde_json::Error);

/// States that the resolution protocol should never reach. They are always
/// surfaced, never recovered from.
#[derive(Debug)]
pub enum ClientInvariantError {
    /// A template or widget that takes state was given none.
    NoState,
    /// The state could not be read as the type that the template declared.
    InvalidState { source: serde_json::Error },
    /// A widget's store entry claimed a document head, which widgets never
    /// have.
    InvalidWidgetPssEntry,
    /// The router did not match a widget path to the capsule that renders it.
    BadWidgetRouteMatch { path: String },
    /// State was registered for a path already declared to take none, or the
    /// other way round.
    IllegalStateRegistration,
}

/// Errors that the client side surfaces.
#[derive(Debug)]
pub enum ClientError {
    Panic(String),
    InvariantError(ClientInvariantError),
    /// An error that the server transmitted, with its HTTP status.
    ServerError { status: u16, message: String },
}

/// Errors of the store of build artifacts.
#[derive(Debug)]
pub enum StoreError {
    /// No artifact is stored under this name.
    NotFound { name: String },
    /// The artifact exists but could not be read.
    ReadFailed { name: String, source: String },
}

/// Errors that the build and request pipelines surface.
#[derive(Debug)]
pub enum ServerError {
    ClientError(ClientError),
    StoreError(StoreError),
    /// Stored state that is not valid JSON.
    InvalidPageState { source: serde_json::Error },
    /// A page needed request-time state in one of its widgets, and its
    /// template does not allow it to be rescheduled to request time.
    CannotReschedule { template_name: String },
    /// A widget path that neither the render configuration nor incremental
    /// generation could resolve.
    UnresolvedWidget { path: String },
    /// Widget resolution was still finding new widgets when the pass limit
    /// was reached, as a self-referential widget graph would.
    PassLimitReached { passes: usize },
}

impl ClientError {
    /// The error that a widget's server-side failure becomes on the client.
    pub open spec fn is_server_error_with(self, status: u16, message: Seq<char>) -> bool {
        match self {
            ClientError::ServerError { status: s, message: m } => s == status && m@ == message,
            _ => false,
        }
    }
}

} // verus!
