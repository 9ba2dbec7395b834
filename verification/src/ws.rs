//! Errors raised by WebSocket connections.

use vstd::prelude::*;

verus! {

/// Declaration of `http::uri::InvalidUri`, which is carried through opaquely.
#[verifier::external_type_specification]
#[verifier::external_body]
pub struct ExInvalidUri(http::uri::InvalidUri);

/// Declaration of `http::Error`, which is carried through opaquely.
#[verifier::external_type_specification]
#[verifier::external_body]
pub struct ExHttpError(http::Error);

/// A WebSocket error.
#[derive(Debug, PartialEq, Eq, Clone)]
pub enum WebSocketError {
    /// An invalid URL was supplied.
    Url(String),
    /// A protocol error occurred.
    Protocol,
    /// A TLS error occurred.
    Tls(String),
    Message(String),
}

/// Errors produced by connections to remote hosts.
#[derive(Debug, PartialEq, Eq, Clone)]
pub enum ConnectionError {
    /// Error that occurred when connecting to a remote host.
    ConnectError,
    /// A WebSocket error.
    SocketError(WebSocketError),
    /// Error that occurred when sending messages.
    SendMessageError,
    /// Error that occurred when receiving messages.
    ReceiveMessageError,
    /// Error that occurred when closing down connections.
    AlreadyClosedError,
    /// The connection was refused by the host.
    ConnectionRefused,
    /// Not an error. Closed event by the WebSocket
    Closed,
}

/// The text of a WebSocket error.
pub open spec fn spec_ws_error_text(e: WebSocketError) -> Seq<char> {
    match e {
        WebSocketError::Url(url) => "An invalid URL ("@ + url@ + ") was supplied"@,
        WebSocketError::Protocol => "A protocol error occurred."@,
        WebSocketError::Tls(msg) => "A TLS error occurred: "@ + msg@,
        WebSocketError::Message(msg) => msg@,
    }
}

impl WebSocketError {
    /// The text of the error.
    pub fn message(&self) -> (res: String)
        ensures
            res@ == spec_ws_error_text(*self),
    {
        match self {
            WebSocketError::Url(url) => {
                let mut s = String::from_str("An invalid URL (");
                s.append(url.as_str());
                s.append(") was supplied");
                s
            },
            WebSocketError::Protocol => String::from_str("A protocol error occurred."),
            WebSocketError::Tls(msg) => {
                let mut s = String::from_str("A TLS error occurred: ");
                s.append(msg.as_str());
                s
            },
            WebSocketError::Message(msg) => String::from_str(msg.as_str()),
        }
    }
}

/// The text of a connection error.
pub open spec fn spec_connection_error_text(e: ConnectionError) -> Seq<char> {
    match e {
        ConnectionError::ConnectError => "An error was produced during a connection."@,
        ConnectionError::SocketError(wse) => "An error was produced by the web socket: "@ + spec_ws_error_text(wse),
        ConnectionError::SendMessageError => "An error occured when sending a message."@,
        ConnectionError::ReceiveMessageError => "An error occured when receiving a message."@,
        ConnectionError::AlreadyClosedError => "An error occured when closing down connections."@,
        ConnectionError::Closed => "The WebSocket closed successfully."@,
        ConnectionError::ConnectionRefused => "The connection was refused by the host"@,
    }
}

/// Whether an error is deemed transient: every error but a socket error is.
pub open spec fn spec_is_transient(e: ConnectionError) -> bool {
    !(e is SocketError)
}

impl ConnectionError {
    /// Returns whether or not the error kind is deemed to be transient.
    pub fn is_transient(&self) -> (res: bool)
        ensures
            res == spec_is_transient(*self),
    {
        match self {
            ConnectionError::SocketError(_) => false,
            ConnectionError::ConnectionRefused => true,
            _ => true,
        }
    }

    /// The text of the error.
    pub fn message(&self) -> (res: String)
        ensures
            res@ == spec_connection_error_text(*self),
    {
        match self {
            ConnectionError::ConnectError => String::from_str("An error was produced during a connection."),
            ConnectionError::SocketError(wse) => {
                let mut s = String::from_str("An error was produced by the web socket: ");
                let inner = wse.message();
                s.append(inner.as_str());
                s
            },
            ConnectionError::SendMessageError => String::from_str("An error occured when sending a message."),
            ConnectionError::ReceiveMessageError => String::from_str("An error occured when receiving a message."),
            ConnectionError::AlreadyClosedError => String::from_str("An error occured when closing down connections."),
            ConnectionError::Closed => String::from_str("The WebSocket closed successfully."),
            ConnectionError::ConnectionRefused => String::from_str("The connection was refused by the host"),
        }
    }

    /// Wraps a WebSocket error.
    pub fn from_web_socket_error(e: WebSocketError) -> (res: ConnectionError)
        ensures
            res == ConnectionError::SocketError(e),
    {
        ConnectionError::SocketError(e)
    }

    /// A failed request becomes a connection error.
    pub fn from_request_error() -> (res: ConnectionError)
        ensures
            res == ConnectionError::ConnectError,
    {
        ConnectionError::ConnectError
    }

    /// A failed task becomes a connection error.
    pub fn from_task_error() -> (res: ConnectionError)
        ensures
            res == ConnectionError::ConnectError,
    {
        ConnectionError::ConnectError
    }

    /// An HTTP error becomes a socket error that carries the HTTP error's
    /// message (the message itself is produced by the `http` crate).
    pub fn from_http_error(e: &http::Error) -> (res: ConnectionError)
        ensures
            res matches ConnectionError::SocketError(WebSocketError::Url(s)) && s@ == http_error_text_of(*e),
    {
        ConnectionError::SocketError(WebSocketError::Url(http_error_text(e)))
    }

    /// An invalid URI becomes a socket error that carries the URI error's message
    /// (the message itself is produced by the `http` crate).
    pub fn from_invalid_uri(e: &http::uri::InvalidUri) -> (res: ConnectionError)
        ensures
            res matches ConnectionError::SocketError(WebSocketError::Url(s)) && s@ == invalid_uri_text_of(*e),
    {
        ConnectionError::SocketError(WebSocketError::Url(invalid_uri_text(e)))
    }
}

/// The text that the `Display` impl of `http::uri::InvalidUri` writes for an
/// error: a fixed description of its kind, so it depends on the error alone.
pub uninterp spec fn invalid_uri_text_of(e: http::uri::InvalidUri) -> Seq<char>;

/// Renders an `http::uri::InvalidUri` with its `Display` impl (`to_string`);
/// the contract names the text after the error it was written for.
#[verifier::external_body]
fn invalid_uri_text(e: &http::uri::InvalidUri) -> (res: String)
    ensures
        res@ == invalid_uri_text_of(*e),
{
    e.to_string()
}

/// The text that the `Display` impl of `http::Error` writes for an error:
/// that of the error it wraps, so it depends on the error alone.
pub uninterp spec fn http_error_text_of(e: http::Error) -> Seq<char>;

/// Renders an `http::Error` with its `Display` impl (`to_string`); the
/// contract names the text after the error it was written for.
#[verifier::external_body]
fn http_error_text(e: &http::Error) -> (res: String)
    ensures
        res@ == http_error_text_of(*e),
{
    e.to_string()
}

} // verus!
