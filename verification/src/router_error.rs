//! Errors of the byte router.

use vstd::prelude::*;

verus! {

/// The kinds of router errors.
#[derive(Debug, Clone, Copy, PartialEq, Eq, Structural)]
pub enum RouterErrorKind {
    NoAgentAtRoute,
    ConnectionFailure,
    RouterDropped,
    Resolution,
}

/// An error of the router: its kind and, optionally, a description of the
/// error that caused it.
#[derive(Debug)]
pub struct RouterError {
    pub kind: RouterErrorKind,
    pub cause: Option<String>,
}

impl RouterError {
    /// An error of the given kind, without a cause.
    pub fn new(kind: RouterErrorKind) -> (res: RouterError)
        ensures
            res.kind == kind,
            res.cause is None,
    {
        RouterError { kind, cause: None }
    }

    /// An error of the given kind, caused by an error with the given description.
    pub fn with_cause(kind: RouterErrorKind, cause: String) -> (res: RouterError)
        ensures
            res.kind == kind,
            res.cause == Some(cause),
    {
        RouterError { kind, cause: Some(cause) }
    }

    /// A failed resolution: the cause's description is kept.
    pub fn from_resolution_error(description: String) -> (res: RouterError)
        ensures
            res.kind == RouterErrorKind::Resolution,
            res.cause == Some(description),
    {
        RouterError::with_cause(RouterErrorKind::Resolution, description)
    }

    /// Whether the error arose while resolving a route.
    pub fn is_resolution(&self) -> (res: bool)
        ensures
            res == (self.kind == RouterErrorKind::NoAgentAtRoute || self.kind == RouterErrorKind::Resolution),
    {
        matches!(self.kind, RouterErrorKind::NoAgentAtRoute | RouterErrorKind::Resolution)
    }
}

} // verus!
