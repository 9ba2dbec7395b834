//! Errors of the simple WebSocket client connections.

use vstd::prelude::*;

verus! {

/// An error of a client connection.
#[derive(Debug, Clone, Copy, PartialEq, Eq, Structural)]
pub enum ConnectionError {
    /// The URL could not be parsed.
    ParseError,
    /// The connection could not be made.
    ConnectError,
    /// A message could not be sent.
    SendMessageError,
}

/// The text of an error.
pub open spec fn spec_error_text(e: ConnectionError) -> Seq<char> {
    match e {
        ConnectionError::ParseError => "Parse error!"@,
        ConnectionError::ConnectError => "Connect error!"@,
        ConnectionError::SendMessageError => "Send message error!"@,
    }
}

impl ConnectionError {
    /// The text of the error.
    pub fn message(&self) -> (res: String)
        ensures
            res@ == spec_error_text(*self),
    {
        match self {
            ConnectionError::ParseError => String::from_str("Parse error!"),
            ConnectionError::ConnectError => String::from_str("Connect error!"),
            ConnectionError::SendMessageError => String::from_str("Send message error!"),
        }
    }

    /// A WebSocket error means that the connection could not be made.
    pub fn from_ws_error(_e: tungstenite::Error) -> (res: ConnectionError)
        ensures
            res == ConnectionError::ConnectError,
    {
        ConnectionError::ConnectError
    }
}

} // verus!
