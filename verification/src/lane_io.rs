//! The decisions of a lane's IO task: how incoming envelopes are dispatched,
//! when failures of its uplinks stop the lane, what error the task ends with,
//! and how many times an uplink is started before giving up.

use vstd::prelude::*;

verus! {

/// The path of a lane: its node and its name.
#[derive(Debug, Clone, PartialEq, Eq)]
pub struct RelativePath {
    pub node: String,
    pub lane: String,
}

/// The address of an endpoint of the router.
#[derive(Debug, Clone, Copy, PartialEq, Eq, Hash, Structural)]
pub struct RoutingAddr(pub u64);

/// A failure of an uplink, as far as the lane task reads it: whether the
/// uplink could not be started after some attempts, or another failure
/// with its description and whether it is fatal.
#[derive(Debug, Clone, PartialEq, Eq)]
pub enum UplinkError {
    FailedToStart(usize),
    Failed { description: String, fatal: bool },
}

/// Whether an uplink failure is fatal: failing to start always is.
pub open spec fn spec_uplink_error_fatal(e: UplinkError) -> bool {
    match e {
        UplinkError::FailedToStart(_) => true,
        UplinkError::Failed { fatal, .. } => fatal,
    }
}

impl UplinkError {
    /// Whether the failure is fatal.
    pub fn is_fatal(&self) -> (res: bool)
        ensures
            res == spec_uplink_error_fatal(*self),
    {
        match self {
            UplinkError::FailedToStart(_) => true,
            UplinkError::Failed { fatal, .. } => *fatal,
        }
    }
}

/// The failure of the uplink to a remote endpoint.
#[derive(Debug, Clone, PartialEq, Eq)]
pub struct UplinkErrorReport {
    pub error: UplinkError,
    pub addr: RoutingAddr,
}

impl UplinkErrorReport {
    /// A report of a failure of the uplink to `addr`.
    pub fn new(error: UplinkError, addr: RoutingAddr) -> (res: UplinkErrorReport)
        ensures
            res == (UplinkErrorReport { error, addr }),
    {
        UplinkErrorReport { error, addr }
    }
}

/// The failures of the IO tasks of a lane: of its update task (described)
/// and of its uplinks.
#[derive(Debug)]
pub struct LaneIoError {
    pub route: RelativePath,
    pub update_error: Option<String>,
    pub uplink_errors: Vec<UplinkErrorReport>,
}

impl LaneIoError {
    /// A failure of the update task alone.
    pub fn for_update_err(route: RelativePath, err: String) -> (res: Self)
        ensures
            res.route == route,
            res.update_error == Some(err),
            res.uplink_errors@.len() == 0,
    {
        LaneIoError { route, update_error: Some(err), uplink_errors: Vec::new() }
    }

    /// Failures of uplinks alone; there must be at least one.
    pub fn for_uplink_errors(route: RelativePath, errs: Vec<UplinkErrorReport>) -> (res: Self)
        requires
            errs@.len() > 0,
        ensures
            res.route == route,
            res.update_error is None,
            res.uplink_errors@ == errs@,
    {
        LaneIoError { route, update_error: None, uplink_errors: errs }
    }

    /// A failure of the update task together with failures of uplinks.
    pub fn new(route: RelativePath, upd: String, upl: Vec<UplinkErrorReport>) -> (res: Self)
        ensures
            res.route == route,
            res.update_error == Some(upd),
            res.uplink_errors@ == upl@,
    {
        LaneIoError { route, update_error: Some(upd), uplink_errors: upl }
    }
}

/// The actions that an uplink is asked to perform.
#[derive(Debug, Clone, Copy, PartialEq, Eq, Structural)]
pub enum UplinkAction {
    Link,
    Sync,
    Unlink,
}

/// The kind of an envelope that arrives at a lane.
#[derive(Debug, Clone, Copy, PartialEq, Eq, Structural)]
pub enum EnvelopeKind {
    Link,
    Sync,
    Unlink,
    Command,
    /// Any envelope that is not addressed to an uplink of the lane.
    Other,
}

/// What the lane does with an envelope: forward an action to the uplink of
/// its sender, pass a command to the update task, or ignore it.
#[derive(Debug, Clone, PartialEq, Eq)]
pub enum EnvelopeDispatch<B> {
    Uplink(UplinkAction),
    Command(B),
    Ignore,
}

/// The dispatch of an envelope of a given kind; a command without a body
/// carries the given absent value.
pub open spec fn spec_dispatch<B>(kind: EnvelopeKind, body: Option<B>, absent: B) -> EnvelopeDispatch<B> {
    match kind {
        EnvelopeKind::Link => EnvelopeDispatch::Uplink(UplinkAction::Link),
        EnvelopeKind::Sync => EnvelopeDispatch::Uplink(UplinkAction::Sync),
        EnvelopeKind::Unlink => EnvelopeDispatch::Uplink(UplinkAction::Unlink),
        EnvelopeKind::Command => EnvelopeDispatch::Command(match body {
            Some(b) => b,
            None => absent,
        }),
        EnvelopeKind::Other => EnvelopeDispatch::Ignore,
    }
}

/// Decides what the lane does with an incoming envelope.
pub fn dispatch_envelope<B>(kind: EnvelopeKind, body: Option<B>, absent: B) -> (res: EnvelopeDispatch<B>)
    ensures
        res == spec_dispatch(kind, body, absent),
{
    match kind {
        EnvelopeKind::Link => EnvelopeDispatch::Uplink(UplinkAction::Link),
        EnvelopeKind::Sync => EnvelopeDispatch::Uplink(UplinkAction::Sync),
        EnvelopeKind::Unlink => EnvelopeDispatch::Uplink(UplinkAction::Unlink),
        EnvelopeKind::Command => EnvelopeDispatch::Command(match body {
            Some(b) => b,
            None => absent,
        }),
        EnvelopeKind::Other => EnvelopeDispatch::Ignore,
    }
}

/// The uplink failures that the envelope task of a lane has collected, and
/// how many of them were fatal.
#[derive(Debug)]
pub struct UplinkFailures {
    pub errors: Vec<UplinkErrorReport>,
    pub num_fatal: usize,
}

/// The number of fatal failures in a sequence of reports.
pub open spec fn count_fatal(reports: Seq<UplinkErrorReport>) -> nat
    decreases reports.len(),
{
    if reports.len() == 0 {
        0
    } else {
        count_fatal(reports.drop_last()) + if spec_uplink_error_fatal(reports.last().error) { 1nat } else { 0nat }
    }
}

impl UplinkFailures {
    /// No failures yet.
    pub fn new() -> (res: Self)
        ensures
            res.errors@.len() == 0,
            res.num_fatal == 0,
            res.wf(),
    {
        UplinkFailures { errors: Vec::new(), num_fatal: 0 }
    }

    /// The count of fatal failures is that of the collected reports.
    pub open spec fn wf(&self) -> bool {
        self.num_fatal == count_fatal(self.errors@)
    }

    /// Collects a report; answers whether the lane must now stop because more
    /// fatal failures than allowed occurred.
    pub fn record(&mut self, report: UplinkErrorReport, max_fatal: usize) -> (stop: bool)
        requires
            old(self).wf(),
            old(self).errors@.len() < usize::MAX,
        ensures
            final(self).wf(),
            final(self).errors@ == old(self).errors@.push(report),
            stop == (final(self).num_fatal > max_fatal),
    {
        proof {
            lemma_count_fatal_bound(self.errors@);
            assert(self.errors@.push(report).drop_last() =~= self.errors@);
        }
        if report.error.is_fatal() {
            self.num_fatal = self.num_fatal + 1;
        }
        self.errors.push(report);
        self.num_fatal > max_fatal
    }
}

/// A failure counts towards stopping the lane exactly when it is fatal: a
/// report adds one to the count of fatal failures if its error is fatal, and
/// nothing else.
pub proof fn only_fatal_failures_count(reports: Seq<UplinkErrorReport>, report: UplinkErrorReport)
    ensures
        count_fatal(reports.push(report)) == count_fatal(reports) + if spec_uplink_error_fatal(report.error) {
            1nat
        } else {
            0nat
        },
{
    assert(reports.push(report).drop_last() =~= reports);
}

proof fn lemma_count_fatal_bound(reports: Seq<UplinkErrorReport>)
    ensures
        count_fatal(reports) <= reports.len(),
    decreases reports.len(),
{
    if reports.len() > 0 {
        lemma_count_fatal_bound(reports.drop_last());
    }
}

/// The outcome of a lane's IO: the update task's failure, if any, comes with
/// all uplink failures; else a failed envelope task with at least one uplink
/// failure fails; else the lane ends normally.
pub fn lane_io_result(
    route: RelativePath,
    update_result: Result<(), String>,
    failed: bool,
    uplink_errors: Vec<UplinkErrorReport>,
) -> (res: Result<(), LaneIoError>)
    ensures
        match update_result {
            Err(e) => res matches Err(err) && err.route == route && err.update_error == Some(e)
                && err.uplink_errors@ == uplink_errors@,
            Ok(_) => if failed && uplink_errors@.len() > 0 {
                res matches Err(err) && err.route == route && err.update_error is None
                    && err.uplink_errors@ == uplink_errors@
            } else {
                res is Ok
            },
        },
{
    match update_result {
        Err(upd_err) => Err(LaneIoError::new(route, upd_err, uplink_errors)),
        Ok(_) => {
            if failed && uplink_errors.len() > 0 {
                Err(LaneIoError::for_uplink_errors(route, uplink_errors))
            } else {
                Ok(())
            }
        },
    }
}

/// After an action could not be sent to the uplink of an endpoint: the new
/// count of start attempts and, once the count reaches the limit, the report
/// that the uplink failed to start (the spawner then gives up on the action).
pub fn after_failed_send(attempts: usize, max_start_attempts: usize, addr: RoutingAddr)
    -> (res: (usize, Option<UplinkErrorReport>))
    requires
        attempts < max_start_attempts,
    ensures
        res.0 == attempts + 1,
        res.1 == (if attempts + 1 >= max_start_attempts {
            Some(UplinkErrorReport { error: UplinkError::FailedToStart((attempts + 1) as usize), addr })
        } else {
            None
        }),
{
    let attempts = attempts + 1;
    if attempts >= max_start_attempts {
        (attempts, Some(UplinkErrorReport::new(UplinkError::FailedToStart(attempts), addr)))
    } else {
        (attempts, None)
    }
}

/// The message handler of a map lane: the lane, a counter that numbers the
/// uplinks it makes, and the factory of retry managers for transactions.
pub struct MapLaneMessageHandler<L, F> {
    pub lane: L,
    pub uplink_counter: u64,
    pub retries: F,
}

impl<L, F> MapLaneMessageHandler<L, F> {
    /// The next number that an uplink will get.
    pub open spec fn spec_counter(&self) -> u64 {
        self.uplink_counter
    }

    /// A handler whose first uplink is numbered 1.
    pub fn new(lane: L, retries: F) -> (res: Self)
        ensures
            res.lane == lane,
            res.retries == retries,
            res.spec_counter() == 1,
    {
        MapLaneMessageHandler { lane, uplink_counter: 1, retries }
    }

    /// Hands out the number of a new uplink; numbers wrap around.
    pub fn next_uplink_id(&mut self) -> (res: u64)
        ensures
            res == old(self).spec_counter(),
            final(self).spec_counter() == (if old(self).spec_counter() == u64::MAX {
                0
            } else {
                (old(self).spec_counter() + 1) as u64
            }),
            final(self).lane == old(self).lane,
            final(self).retries == old(self).retries,
    {
        let id = self.uplink_counter;
        self.uplink_counter = if id == u64::MAX { 0 } else { id + 1 };
        id
    }
}

} // verus!
