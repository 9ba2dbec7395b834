//! The decisions of a remote connection task once its loop ends: how the
//! WebSocket is closed and how the end of the connection is reported; and
//! whether a failed dispatch of an envelope is tried again.

use vstd::prelude::*;

verus! {

/// Why the loop of a connection task ended.
#[derive(Debug, Clone, PartialEq, Eq)]
pub enum Completion<E> {
    /// The connection failed with an error.
    Failed(E),
    /// Nothing happened on the connection for longer than the activity timeout.
    TimedOut,
    /// The remote end closed the connection.
    StoppedRemotely,
    /// The task was asked to stop.
    StoppedLocally,
}

/// What a failure means for closing the socket: a violation of the Warp
/// protocol, with its cause if one is known, or anything else.
#[derive(Debug, Clone, PartialEq, Eq)]
pub enum FailureClass {
    Warp(Option<String>),
    Other,
}

/// The code of a close frame.
#[derive(Debug, Clone, Copy, PartialEq, Eq, Structural)]
pub enum CloseCode {
    GoingAway,
    ProtocolError,
}

/// The reason sent in a close frame.
#[derive(Debug, Clone, PartialEq, Eq)]
pub struct CloseReason {
    pub code: CloseCode,
    pub description: String,
}

/// The text of a close reason, if one is sent: a task stopped locally goes
/// away; a Warp violation is a protocol error, described by its cause or
/// else as a Warp error; for any other end no close frame is sent.
pub open spec fn spec_close_reason(completion: Completion<FailureClass>) -> Option<(CloseCode, Seq<char>)> {
    match completion {
        Completion::StoppedLocally => Some((CloseCode::GoingAway, "Stopped locally"@)),
        Completion::Failed(FailureClass::Warp(cause)) => Some((CloseCode::ProtocolError, match cause {
            Some(c) => c@,
            None => "WARP error"@,
        })),
        _ => None,
    }
}

/// The reason to close the socket with, if any.
pub fn close_reason(completion: &Completion<FailureClass>) -> (res: Option<CloseReason>)
    ensures
        match spec_close_reason(*completion) {
            Some((code, text)) => res matches Some(r) && r.code == code && r.description@ == text,
            None => res is None,
        },
{
    match completion {
        Completion::StoppedLocally => Some(CloseReason {
            code: CloseCode::GoingAway,
            description: String::from_str("Stopped locally"),
        }),
        Completion::Failed(FailureClass::Warp(cause)) => {
            let description = match cause {
                Some(c) => String::from_str(c.as_str()),
                None => String::from_str("WARP error"),
            };
            Some(CloseReason { code: CloseCode::ProtocolError, description })
        },
        _ => None,
    }
}

/// How the end of a connection is reported to the router.
#[derive(Debug, Clone, PartialEq, Eq)]
pub enum ConnectionDropped<E> {
    /// The connection failed with an error.
    Failed(E),
    /// The connection timed out after the given number of milliseconds.
    TimedOut(u64),
    /// The connection was closed from this end.
    Closed,
}

/// The report of how a connection ended: a failure is reported with its
/// error, a remote close as the error `closed_remotely`, a timeout with the
/// activity timeout, and a local stop as a close.
pub fn dropped_report<E>(completion: Completion<E>, activity_timeout_millis: u64, closed_remotely: E)
    -> (res: ConnectionDropped<E>)
    ensures
        res == match completion {
            Completion::Failed(e) => ConnectionDropped::Failed(e),
            Completion::TimedOut => ConnectionDropped::TimedOut(activity_timeout_millis),
            Completion::StoppedRemotely => ConnectionDropped::Failed(closed_remotely),
            Completion::StoppedLocally => ConnectionDropped::<E>::Closed,
        },
{
    match completion {
        Completion::Failed(e) => ConnectionDropped::Failed(e),
        Completion::TimedOut => ConnectionDropped::TimedOut(activity_timeout_millis),
        Completion::StoppedRemotely => ConnectionDropped::Failed(closed_remotely),
        Completion::StoppedLocally => ConnectionDropped::Closed,
    }
}

/// What to do after an envelope could not be dispatched.
#[derive(Debug, Clone, Copy, PartialEq, Eq, Structural)]
pub enum RetryDecision {
    /// Try again after the given number of milliseconds.
    RetryAfter(u64),
    /// Try again at once.
    RetryNow,
    /// Give up and report the envelope as not found.
    GiveUp,
}

/// The decision after a failed dispatch: a fatal error gives up; else the
/// retry strategy decides (`next_delay` is what it yields next: `None` when
/// it is exhausted, `Some(None)` to retry at once, `Some(Some(d))` to wait
/// `d` milliseconds first).
pub fn after_dispatch_failure(fatal: bool, next_delay: Option<Option<u64>>) -> (res: RetryDecision)
    ensures
        fatal ==> res == RetryDecision::GiveUp,
        !fatal ==> res == match next_delay {
            Some(Some(d)) => RetryDecision::RetryAfter(d),
            Some(None) => RetryDecision::RetryNow,
            None => RetryDecision::GiveUp,
        },
{
    if fatal {
        return RetryDecision::GiveUp;
    }
    match next_delay {
        Some(Some(d)) => RetryDecision::RetryAfter(d),
        Some(None) => RetryDecision::RetryNow,
        None => RetryDecision::GiveUp,
    }
}

} // verus!
