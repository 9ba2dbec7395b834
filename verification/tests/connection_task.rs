use swim_core::connection_task::{
    after_dispatch_failure, close_reason, dropped_report, CloseCode, CloseReason, Completion,
    ConnectionDropped, FailureClass, RetryDecision,
};
use swim_core::remote_router::{route_resolver, sender_resolver, Delegate};

#[test]
fn close_reasons() {
    assert_eq!(
        close_reason(&Completion::StoppedLocally),
        Some(CloseReason { code: CloseCode::GoingAway, description: "Stopped locally".to_string() })
    );
    assert_eq!(
        close_reason(&Completion::Failed(FailureClass::Warp(Some("bad envelope".to_string())))),
        Some(CloseReason { code: CloseCode::ProtocolError, description: "bad envelope".to_string() })
    );
    assert_eq!(
        close_reason(&Completion::Failed(FailureClass::Warp(None))),
        Some(CloseReason { code: CloseCode::ProtocolError, description: "WARP error".to_string() })
    );
    assert_eq!(close_reason(&Completion::Failed(FailureClass::Other)), None);
    assert_eq!(close_reason(&Completion::TimedOut), None);
    assert_eq!(close_reason(&Completion::StoppedRemotely), None);
}

#[test]
fn dropped_reports() {
    assert_eq!(dropped_report(Completion::Failed("e"), 10, "remote"), ConnectionDropped::Failed("e"));
    assert_eq!(dropped_report(Completion::TimedOut, 10, "remote"), ConnectionDropped::TimedOut(10));
    assert_eq!(dropped_report(Completion::StoppedRemotely, 10, "remote"), ConnectionDropped::Failed("remote"));
    assert_eq!(dropped_report(Completion::StoppedLocally, 10, "remote"), ConnectionDropped::Closed);
}

#[test]
fn dispatch_retries() {
    assert_eq!(after_dispatch_failure(true, Some(Some(5))), RetryDecision::GiveUp);
    assert_eq!(after_dispatch_failure(false, Some(Some(5))), RetryDecision::RetryAfter(5));
    assert_eq!(after_dispatch_failure(false, Some(None)), RetryDecision::RetryNow);
    assert_eq!(after_dispatch_failure(false, None), RetryDecision::GiveUp);
}

#[test]
fn remote_router_delegates() {
    assert_eq!(sender_resolver(true, true), Delegate::RemoteConnections);
    assert_eq!(sender_resolver(false, true), Delegate::ClientRouter);
    assert_eq!(sender_resolver(false, false), Delegate::PlaneRouter);
    assert_eq!(route_resolver(true, false), Delegate::RemoteConnections);
    assert_eq!(route_resolver(false, true), Delegate::ClientRouter);
    assert_eq!(route_resolver(false, false), Delegate::PlaneRouter);
}
