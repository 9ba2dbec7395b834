//! Routing errors and the router's configuration.

use vstd::prelude::*;
use crate::pool::ConnectionError;

verus! {

/// Errors raised by the router.
#[derive(Copy, Clone, Debug, PartialEq, Eq)]
pub enum RoutingError {
    Transient,
    RouterDropped,
    ConnectionError,
}

/// A routing error is fatal unless it is transient.
pub open spec fn spec_routing_is_fatal(e: RoutingError) -> bool {
    !(e is Transient)
}

/// What the connection request task does when the pool could not open a
/// connection: the error it answers the request with, and whether it also
/// reports the host as failed. A transient failure is answered as such and
/// not reported, as it may resolve itself; any other is a connection error
/// and is reported.
pub fn connection_failure_reply(e: &ConnectionError) -> (res: (RoutingError, bool))
    ensures
        res == (if *e is Transient { (RoutingError::Transient, false) } else { (RoutingError::ConnectionError, true) }),
{
    match e {
        ConnectionError::Transient => (RoutingError::Transient, false),
        _ => (RoutingError::ConnectionError, true),
    }
}

/// The text of a routing error.
pub open spec fn spec_routing_error_text(e: RoutingError) -> Seq<char> {
    match e {
        RoutingError::RouterDropped => "Router was dropped."@,
        RoutingError::ConnectionError => "Connection error."@,
        RoutingError::Transient => "Transient error"@,
    }
}

impl RoutingError {
    /// The text of the error.
    pub fn message(&self) -> (res: String)
        ensures
            res@ == spec_routing_error_text(*self),
    {
        match self {
            RoutingError::RouterDropped => String::from_str("Router was dropped."),
            RoutingError::ConnectionError => String::from_str("Connection error."),
            RoutingError::Transient => String::from_str("Transient error"),
        }
    }

    /// Whether the error cannot be recovered from by retrying.
    pub fn is_fatal(&self) -> (res: bool)
        ensures
            res == spec_routing_is_fatal(*self),
    {
        !matches!(self, RoutingError::Transient)
    }

    /// Whether the error may be recovered from by retrying.
    pub fn is_transient(&self) -> (res: bool)
        ensures
            res == !spec_routing_is_fatal(*self),
    {
        matches!(self, RoutingError::Transient)
    }

    /// A failure to send into a channel means that the router was dropped.
    pub fn from_send_error() -> (res: RoutingError)
        ensures
            res == RoutingError::RouterDropped,
    {
        RoutingError::RouterDropped
    }
}

} // verus!

verus! {

/// The configuration of the router: its retry strategy, the timeout after
/// which idle connections are closed and the size of its buffers.
#[derive(Clone, Copy, Debug)]
pub struct RouterConfig<R> {
    retry_strategy: R,
    idle_timeout: usize,
    buffer_size: usize,
}

impl<R: Copy> RouterConfig<R> {
    /// The retry strategy.
    pub closed spec fn spec_retry_strategy(&self) -> R {
        self.retry_strategy
    }

    /// The idle timeout.
    pub closed spec fn spec_idle_timeout(&self) -> usize {
        self.idle_timeout
    }

    /// The buffer size.
    pub closed spec fn spec_buffer_size(&self) -> usize {
        self.buffer_size
    }

    /// Both sizes of a configuration are positive.
    pub closed spec fn wf(&self) -> bool {
        self.idle_timeout > 0 && self.buffer_size > 0
    }

    /// The size of the router's buffers (positive).
    pub fn buffer_size(&self) -> (res: usize)
        requires
            self.wf(),
        ensures
            res == self.spec_buffer_size(),
            res > 0,
    {
        self.buffer_size
    }

    /// The retry strategy of the router.
    pub fn retry_strategy(&self) -> (res: R)
        ensures
            res == self.spec_retry_strategy(),
    {
        self.retry_strategy
    }

    /// The timeout after which idle connections are closed (positive).
    pub fn idle_timeout(&self) -> (res: usize)
        requires
            self.wf(),
        ensures
            res == self.spec_idle_timeout(),
            res > 0,
    {
        self.idle_timeout
    }
}

/// A builder of router configurations.
pub struct RouterConfigBuilder<R> {
    pub retry_strategy: Option<R>,
    pub idle_timeout: Option<usize>,
    pub buffer_size: Option<usize>,
}

impl<R: Copy> RouterConfigBuilder<R> {
    /// A builder with nothing set.
    pub fn new() -> (res: Self)
        ensures
            res.retry_strategy is None,
            res.idle_timeout is None,
            res.buffer_size is None,
    {
        RouterConfigBuilder { retry_strategy: None, idle_timeout: None, buffer_size: None }
    }

    /// Whether `build` succeeds: a retry strategy and a positive idle timeout
    /// must have been given.
    pub open spec fn can_build(&self) -> bool {
        &&& self.retry_strategy is Some
        &&& self.idle_timeout matches Some(t) && t > 0
    }

    /// Builds the configuration. Its buffer size is the idle timeout; the
    /// buffer size given to the builder is not read.
    pub fn build(self) -> (res: RouterConfig<R>)
        requires
            self.can_build(),
        ensures
            res.wf(),
            res.spec_retry_strategy() == self.retry_strategy.unwrap(),
            res.spec_idle_timeout() == self.idle_timeout.unwrap(),
            res.spec_buffer_size() == self.idle_timeout.unwrap(),
    {
        let retry_strategy = self.retry_strategy.unwrap();
        let idle_timeout = self.idle_timeout.unwrap();
        RouterConfig { retry_strategy, idle_timeout, buffer_size: idle_timeout }
    }

    /// Sets the buffer size.
    pub fn with_buffer_size(self, buffer_size: usize) -> (res: RouterConfigBuilder<R>)
        ensures
            res == (RouterConfigBuilder { buffer_size: Some(buffer_size), ..self }),
    {
        let mut b = self;
        b.buffer_size = Some(buffer_size);
        b
    }

    /// Sets the idle timeout.
    pub fn with_idle_timeout(self, idle_timeout: usize) -> (res: RouterConfigBuilder<R>)
        ensures
            res == (RouterConfigBuilder { idle_timeout: Some(idle_timeout), ..self }),
    {
        let mut b = self;
        b.idle_timeout = Some(idle_timeout);
        b
    }

    /// Sets the retry strategy.
    pub fn with_retry_stategy(self, retry_strategy: R) -> (res: RouterConfigBuilder<R>)
        ensures
            res == (RouterConfigBuilder { retry_strategy: Some(retry_strategy), ..self }),
    {
        let mut b = self;
        b.retry_strategy = Some(retry_strategy);
        b
    }
}

} // verus!
