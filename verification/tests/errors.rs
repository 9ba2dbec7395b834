use swim_core::connections::ConnectionError as ClientConnectionError;
use swim_core::pool::{keep_on_prune, must_open_connection, ConnectionError as PoolError, WsErrorKind};
use swim_core::router_error::{RouterError, RouterErrorKind};
use swim_core::routing::{connection_failure_reply, RoutingError};
use swim_core::ws::{ConnectionError, WebSocketError};

#[test]
fn web_socket_error_texts() {
    assert_eq!(WebSocketError::Url("x".to_string()).message(), "An invalid URL (x) was supplied");
    assert_eq!(WebSocketError::Protocol.message(), "A protocol error occurred.");
    assert_eq!(WebSocketError::Tls("bad cert".to_string()).message(), "A TLS error occurred: bad cert");
    assert_eq!(WebSocketError::Message("m".to_string()).message(), "m");
}

#[test]
fn connection_error_texts() {
    assert_eq!(ConnectionError::ConnectError.message(), "An error was produced during a connection.");
    assert_eq!(
        ConnectionError::SocketError(WebSocketError::Protocol).message(),
        "An error was produced by the web socket: A protocol error occurred."
    );
    assert_eq!(ConnectionError::SendMessageError.message(), "An error occured when sending a message.");
    assert_eq!(ConnectionError::ReceiveMessageError.message(), "An error occured when receiving a message.");
    assert_eq!(ConnectionError::AlreadyClosedError.message(), "An error occured when closing down connections.");
    assert_eq!(ConnectionError::Closed.message(), "The WebSocket closed successfully.");
    assert_eq!(ConnectionError::ConnectionRefused.message(), "The connection was refused by the host");
}

#[test]
fn only_socket_errors_are_not_transient() {
    assert!(!ConnectionError::SocketError(WebSocketError::Protocol).is_transient());
    assert!(ConnectionError::ConnectionRefused.is_transient());
    assert!(ConnectionError::Closed.is_transient());
    assert!(ConnectionError::ConnectError.is_transient());
}

#[test]
fn connection_error_conversions() {
    assert_eq!(
        ConnectionError::from_web_socket_error(WebSocketError::Protocol),
        ConnectionError::SocketError(WebSocketError::Protocol)
    );
    assert_eq!(ConnectionError::from_request_error(), ConnectionError::ConnectError);
    let uri_err = "http://[::1".parse::<http::Uri>().unwrap_err();
    let converted = ConnectionError::from_invalid_uri(&uri_err);
    assert_eq!(
        converted,
        ConnectionError::SocketError(WebSocketError::Url(uri_err.to_string()))
    );
}

#[test]
fn pool_errors_from_web_socket_errors() {
    assert_eq!(PoolError::from_ws_error(&tungstenite::Error::ConnectionClosed), PoolError::ClosedError);
    assert_eq!(PoolError::from_ws_error(&tungstenite::Error::AlreadyClosed), PoolError::ClosedError);
    assert_eq!(PoolError::from_ws_error(&tungstenite::Error::AttackAttempt), PoolError::ReceiveMessageError);
    assert_eq!(
        PoolError::from_ws_error(&tungstenite::Error::Utf8("x".to_string())),
        PoolError::ReceiveMessageError
    );
    let http_err = http::Request::builder().method("bad method").body(()).unwrap_err();
    assert_eq!(PoolError::from_ws_error(&tungstenite::Error::HttpFormat(http_err)), PoolError::ConnectError(None));
    assert_eq!(PoolError::for_ws_error_kind(WsErrorKind::Tls), PoolError::ConnectError(None));
    assert_eq!(PoolError::for_ws_error_kind(WsErrorKind::Http), PoolError::ConnectError(None));
    assert_eq!(PoolError::for_ws_error_kind(WsErrorKind::Protocol), PoolError::ReceiveMessageError);
    assert_eq!(PoolError::for_ws_error_kind(WsErrorKind::Io), PoolError::ReceiveMessageError);
    assert_eq!(PoolError::for_ws_error_kind(WsErrorKind::Url), PoolError::ReceiveMessageError);
}

#[test]
fn pool_error_conversions() {
    assert_eq!(PoolError::from_request_error(), PoolError::ClosedError);
    assert_eq!(PoolError::from_join_error(), PoolError::ConnectError(None));
    assert_eq!(PoolError::from_aborted(), PoolError::ClosedError);
}

#[test]
fn pool_decisions() {
    assert!(must_open_connection(false, None));
    assert!(must_open_connection(true, None));
    assert!(must_open_connection(false, Some(true)));
    assert!(!must_open_connection(false, Some(false)));
    assert!(must_open_connection(true, Some(false)));
    assert!(keep_on_prune(10, 20));
    assert!(!keep_on_prune(20, 20));
}

#[test]
fn routing_errors() {
    assert!(RoutingError::RouterDropped.is_fatal());
    assert!(RoutingError::ConnectionError.is_fatal());
    assert!(!RoutingError::Transient.is_fatal());
    assert!(RoutingError::Transient.is_transient());
    assert_eq!(RoutingError::RouterDropped.message(), "Router was dropped.");
    assert_eq!(RoutingError::ConnectionError.message(), "Connection error.");
    assert_eq!(RoutingError::Transient.message(), "Transient error");
    assert_eq!(RoutingError::from_send_error(), RoutingError::RouterDropped);
}

#[test]
fn connection_failures_are_answered() {
    assert_eq!(connection_failure_reply(&PoolError::Transient), (RoutingError::Transient, false));
    assert_eq!(connection_failure_reply(&PoolError::ClosedError), (RoutingError::ConnectionError, true));
    assert_eq!(connection_failure_reply(&PoolError::ConnectError(None)), (RoutingError::ConnectionError, true));
}

#[test]
fn client_connection_errors() {
    assert_eq!(ClientConnectionError::ParseError.message(), "Parse error!");
    assert_eq!(ClientConnectionError::ConnectError.message(), "Connect error!");
    assert_eq!(ClientConnectionError::SendMessageError.message(), "Send message error!");
    assert_eq!(
        ClientConnectionError::from_ws_error(tungstenite::Error::ConnectionClosed),
        ClientConnectionError::ConnectError
    );
}

#[test]
fn router_errors() {
    let e = RouterError::new(RouterErrorKind::ConnectionFailure);
    assert_eq!(e.kind, RouterErrorKind::ConnectionFailure);
    assert!(e.cause.is_none());
    assert!(!e.is_resolution());
    let e = RouterError::from_resolution_error("no such host".to_string());
    assert!(e.is_resolution());
    assert_eq!(e.cause.as_deref(), Some("no such host"));
    assert!(RouterError::with_cause(RouterErrorKind::NoAgentAtRoute, "x".to_string()).is_resolution());
}

#[test]
fn connection_errors_from_tasks_and_http() {
    assert_eq!(ConnectionError::from_task_error(), ConnectionError::ConnectError);
    let http_err = http::Request::builder().method("bad method").body(()).unwrap_err();
    let text = http_err.to_string();
    assert!(!text.is_empty());
    assert_eq!(
        ConnectionError::from_http_error(&http_err),
        ConnectionError::SocketError(WebSocketError::Url(text))
    );
}
