//! What the error handler is told about an error: the context it is rendered
//! in, where it is shown, and the data that a server error carries.
use crate::errors::{ClientError, ClientInvariantError};
use crate::state::template_state::{null_text, TemplateState};
use vstd::prelude::*;

verus! {

/// How much of the app's machinery is available while an error is rendered.
#[derive(Debug, Clone, Copy, PartialEq, Eq, Structural)]
pub enum ErrorContext {
    /// Nothing: the error came before the app could start.
    Static,
    /// The reactor exists, but no translator.
    WithReactor,
    /// Everything but the global state (engine-side rendering).
    FullNoGlobal,
    /// Everything.
    Full,
}

/// Where an error view is shown.
#[derive(Debug, Clone, Copy, PartialEq, Eq, Structural)]
pub enum ErrorPosition {
    /// It takes up the whole page.
    Page,
    /// It takes the place of one widget.
    Widget,
    /// It floats over the page that was already shown.
    Popup,
}

/// The status and message of an error that the server sends instead of
/// state.
#[derive(Clone, Debug)]
pub struct ServerErrorData {
    pub status: u16,
    pub msg: String,
}

impl ServerErrorData {
    pub fn new(status: u16, msg: String) -> (r: ServerErrorData)
        ensures
            r.status == status,
            r.msg == msg,
    {
        ServerErrorData { status, msg }
    }

    pub fn status(&self) -> (r: u16)
        ensures
            r == self.status,
    {
        self.status
    }

    pub fn msg(&self) -> (r: &String)
        ensures
            r == &self.msg,
    {
        &self.msg
    }

    /// The client error that this data is surfaced as.
    pub fn to_client_error(&self) -> (r: ClientError)
        ensures
            r.is_server_error_with(self.status, self.msg@),
    {
        ClientError::ServerError { status: self.status, message: self.msg.clone() }
    }
}

/// The context of an error shown in the browser, from whether a reactor has
/// been set up and whether it has a translator yet.
pub fn browser_error_context(has_reactor: bool, has_translator: bool) -> (r: ErrorContext)
    ensures
        r == (if !has_reactor {
            ErrorContext::Static
        } else if has_translator {
            ErrorContext::Full
        } else {
            ErrorContext::WithReactor
        }),
{
    if !has_reactor {
        ErrorContext::Static
    } else if has_translator {
        ErrorContext::Full
    } else {
        ErrorContext::WithReactor
    }
}

/// The context of an error page rendered on the engine side: there is
/// always a reactor, but no global state.
pub fn engine_error_context(has_translator: bool) -> (r: ErrorContext)
    ensures
        r == (if has_translator {
            ErrorContext::FullNoGlobal
        } else {
            ErrorContext::WithReactor
        }),
{
    if has_translator {
        ErrorContext::FullNoGlobal
    } else {
        ErrorContext::WithReactor
    }
}

/// The default rule for errors on subsequent loads: server errors take up
/// the whole page, everything else is shown as a popup.
pub fn default_takes_full_page(err: &ClientError) -> (r: bool)
    ensures
        r == (*err is ServerError),
{
    match err {
        ClientError::ServerError { .. } => true,
        _ => false,
    }
}

/// Whether `needle` occurs in `hay`.
pub open spec fn occurs_in(hay: Seq<char>, needle: Seq<char>) -> bool {
    exists|i: int| 0 <= i && i + needle.len() <= hay.len() && #[trigger] hay.subrange(i, i + needle.len()) == needle
}

/// Whether `needle` occurs in `hay`.
pub fn contains_text(hay: &str, needle: &str) -> (r: bool)
    ensures
        r == occurs_in(hay@, needle@),
{
    let n = hay.unicode_len();
    let m = needle.unicode_len();
    if m > n {
        return false;
    }
    let target = String::from_str(needle);
    let mut i: usize = 0;
    loop
        invariant
            n == hay@.len(),
            m == needle@.len(),
            m <= n,
            i <= n - m,
            target@ == needle@,
            forall|j: int| 0 <= j < i ==> #[trigger] hay@.subrange(j, j + m) != needle@,
        decreases n - m + 1 - i,
    {
        let window = String::from_str(hay.substring_char(i, i + m));
        if window == target {
            return true;
        }
        if i == n - m {
            return false;
        }
        i = i + 1;
    }
}

/// The message of a panic that came from replacing the panic hook while
/// panicking (as hot state reloading can do).
pub open spec fn hook_panic_text() -> Seq<char> {
    "cannot modify the panic hook from a panicking thread"@
}

/// Which of the default error views an error gets.
#[derive(Debug, Clone, Copy, PartialEq, Eq, Structural)]
pub enum DefaultErrorView {
    /// A server error with status 404.
    NotFound,
    /// A panic; with a hint to reload where the panic hook itself was hit.
    Panic { hook_overridden: bool },
    /// Anything else, shown with its message.
    General,
}

/// Picks the default (unlocalized, development) error view for `err`.
pub fn default_error_view(err: &ClientError) -> (r: DefaultErrorView)
    ensures
        r == (match *err {
            ClientError::ServerError { status, .. } if status == 404 => DefaultErrorView::NotFound,
            ClientError::Panic(msg) => DefaultErrorView::Panic {
                hook_overridden: occurs_in(msg@, hook_panic_text()),
            },
            _ => DefaultErrorView::General,
        }),
{
    match err {
        ClientError::ServerError { status, .. } if *status == 404 => DefaultErrorView::NotFound,
        ClientError::Panic(msg) => {
            let hook = "cannot modify the panic hook from a panicking thread";
            DefaultErrorView::Panic { hook_overridden: contains_text(msg.as_str(), hook) }
        },
        _ => DefaultErrorView::General,
    }
}

/// Checks that a head or header function, which needs state, was given
/// some: the empty state is an invariant violation.
pub fn require_state(state: TemplateState) -> (r: Result<TemplateState, ClientError>)
    ensures
        state@ == null_text() ==> r matches Err(
            ClientError::InvariantError(ClientInvariantError::NoState),
        ),
        state@ != null_text() ==> r == Ok::<TemplateState, ClientError>(state),
{
    if state.is_empty() {
        Err(ClientError::InvariantError(ClientInvariantError::NoState))
    } else {
        Ok(state)
    }
}

} // verus!
