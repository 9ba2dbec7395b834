//! The connection pool's messages, errors and its decision on whether a
//! connection to a host must be (re)opened.

use vstd::prelude::*;

verus! {

/// Declaration of `tungstenite::Error`, which is carried through opaquely.
#[verifier::external_type_specification]
#[verifier::external_body]
pub struct ExTungsteniteError(tungstenite::Error);

/// A message received from a remote host by a connection in the pool.
#[derive(Debug)]
pub struct ConnectionPoolMessage {
    /// The URL of the remote host.
    pub host: String,
    /// The message from the remote host.
    pub message: String,
}

/// Connection error types returned by the connection pool and the connections.
#[derive(Debug, PartialEq, Clone)]
pub enum ConnectionError {
    /// Error that occurred when connecting to a remote host. With an optional error message.
    ConnectError(Option<String>),
    /// Error that occurred when sending messages.
    SendMessageError,
    /// Error that occurred when receiving messages.
    ReceiveMessageError,
    /// Error that occurred when closing down connections.
    ClosedError,
    /// A transient, possibly recoverable error that has occured. Used to signal that reopening or
    /// attempting a request again may resolve correctly.
    Transient,
}

/// The variants of `tungstenite::Error`, one kind each.
#[derive(Debug, PartialEq, Eq, Clone, Copy)]
pub enum WsErrorKind {
    ConnectionClosed,
    AlreadyClosed,
    Io,
    Tls,
    Capacity,
    Protocol,
    WriteBufferFull,
    Utf8,
    AttackAttempt,
    Url,
    Http,
    HttpFormat,
}

/// The pool's error for each kind of WebSocket error: a closed connection is
/// a closing error, an HTTP or TLS failure is a connection error and anything
/// else is a receive error.
pub open spec fn spec_error_for_ws_kind(kind: WsErrorKind) -> ConnectionError {
    match kind {
        WsErrorKind::ConnectionClosed | WsErrorKind::AlreadyClosed => ConnectionError::ClosedError,
        WsErrorKind::Http | WsErrorKind::HttpFormat | WsErrorKind::Tls => ConnectionError::ConnectError(None),
        _ => ConnectionError::ReceiveMessageError,
    }
}

/// The variant of a `tungstenite::Error`. It depends on the error alone.
pub uninterp spec fn ws_kind_of(e: tungstenite::Error) -> WsErrorKind;

/// Reads which variant a `tungstenite::Error` is, by a match with one arm per
/// variant of the enum. The contract names the result after the error it was
/// read from.
#[verifier::external_body]
fn ws_error_kind(e: &tungstenite::Error) -> (res: WsErrorKind)
    ensures
        res == ws_kind_of(*e),
{
    match e {
        tungstenite::Error::ConnectionClosed => WsErrorKind::ConnectionClosed,
        tungstenite::Error::AlreadyClosed => WsErrorKind::AlreadyClosed,
        tungstenite::Error::Io(_) => WsErrorKind::Io,
        tungstenite::Error::Tls(_) => WsErrorKind::Tls,
        tungstenite::Error::Capacity(_) => WsErrorKind::Capacity,
        tungstenite::Error::Protocol(_) => WsErrorKind::Protocol,
        tungstenite::Error::WriteBufferFull(_) => WsErrorKind::WriteBufferFull,
        tungstenite::Error::Utf8(_) => WsErrorKind::Utf8,
        tungstenite::Error::AttackAttempt => WsErrorKind::AttackAttempt,
        tungstenite::Error::Url(_) => WsErrorKind::Url,
        tungstenite::Error::Http(_) => WsErrorKind::Http,
        tungstenite::Error::HttpFormat(_) => WsErrorKind::HttpFormat,
    }
}

impl ConnectionError {
    /// The error that stands for a WebSocket error of the given kind.
    pub fn for_ws_error_kind(kind: WsErrorKind) -> (res: ConnectionError)
        ensures
            res == spec_error_for_ws_kind(kind),
    {
        match kind {
            WsErrorKind::ConnectionClosed | WsErrorKind::AlreadyClosed => ConnectionError::ClosedError,
            WsErrorKind::Http | WsErrorKind::HttpFormat | WsErrorKind::Tls => {
                ConnectionError::ConnectError(None)
            },
            _ => ConnectionError::ReceiveMessageError,
        }
    }

    /// Converts a WebSocket error into a pool error: the error for the kind of
    /// the WebSocket error, which the `tungstenite` crate's variants decide.
    pub fn from_ws_error(e: &tungstenite::Error) -> (res: ConnectionError)
        ensures
            res == spec_error_for_ws_kind(ws_kind_of(*e)),
    {
        let kind = ws_error_kind(e);
        Self::for_ws_error_kind(kind)
    }

    /// A failed request closes the connection.
    pub fn from_request_error() -> (res: ConnectionError)
        ensures
            res == ConnectionError::ClosedError,
    {
        ConnectionError::ClosedError
    }

    /// A task that failed to join is a connection error.
    pub fn from_join_error() -> (res: ConnectionError)
        ensures
            res == ConnectionError::ConnectError(None),
    {
        ConnectionError::ConnectError(None)
    }

    /// An aborted task closes the connection.
    pub fn from_aborted() -> (res: ConnectionError)
        ensures
            res == ConnectionError::ClosedError,
    {
        ConnectionError::ClosedError
    }
}

/// Whether a request for a connection must open a new one: when the existing
/// connection has stopped, when there is none, or when recreation was asked for.
/// `existing` is `None` when the pool holds no connection to the host, else
/// `Some(stopped)`.
pub open spec fn spec_must_open(recreate: bool, existing: Option<bool>) -> bool {
    match existing {
        Some(stopped) => stopped || recreate,
        None => true,
    }
}

/// Decides whether the pool opens a new connection for a request.
pub fn must_open_connection(recreate: bool, existing: Option<bool>) -> (res: bool)
    ensures
        res == spec_must_open(recreate, existing),
{
    match (recreate, existing) {
        (_, Some(stopped)) if stopped => true,
        (false, None) => true,
        (false, Some(_)) => false,
        (true, _) => true,
    }
}

/// Whether a pooled connection is kept by the pruning pass: it must have been
/// accessed more recently than the timeout.
pub fn keep_on_prune(elapsed_millis: u64, timeout_millis: u64) -> (res: bool)
    ensures
        res == (elapsed_millis < timeout_millis),
{
    elapsed_millis < timeout_millis
}

} // verus!
