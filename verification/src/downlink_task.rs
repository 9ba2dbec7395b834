//! The decisions of the task that runs a downlink: which of its inputs it
//! reads next, what it does when the state machine rejects an operation,
//! and when it stops, with which result.
//!
//! The task itself waits on its inputs and sends events and commands; each
//! of its decisions is a function here, from the task's flags and what
//! happened to what it does next.

use vstd::prelude::*;
use crate::configuration::OnInvalidMessage;
use crate::downlink::{DownlinkError, DownlinkState, Operation, is_from_routing};
use crate::routing::RoutingError;

verus! {

/// An input of the downlink task: an operation, the end of the stream of
/// local actions, or the end of the stream of operations.
#[derive(Debug)]
pub enum TaskInput<M, A> {
    Op(Operation<M, A>),
    ActTerminated,
    Terminated,
}

impl<M, A> TaskInput<M, A> {
    /// A local action, or the end of the actions.
    pub fn from_action(maybe_action: Option<A>) -> (res: TaskInput<M, A>)
        ensures
            match maybe_action {
                Some(a) => res == TaskInput::<M, A>::Op(Operation::Action(a)),
                None => res == TaskInput::<M, A>::ActTerminated,
            },
    {
        match maybe_action {
            Some(a) => TaskInput::Op(Operation::Action(a)),
            _ => TaskInput::ActTerminated,
        }
    }

    /// An operation, or the end of the operations.
    pub fn from_operation(maybe_op: Option<Operation<M, A>>) -> (res: TaskInput<M, A>)
        ensures
            match maybe_op {
                Some(op) => res == TaskInput::<M, A>::Op(op),
                None => res == TaskInput::<M, A>::Terminated,
            },
    {
        match maybe_op {
            Some(op) => TaskInput::Op(op),
            _ => TaskInput::Terminated,
        }
    }
}

/// Which inputs the task waits on next.
#[derive(Debug, Clone, Copy, PartialEq, Eq, Structural)]
pub enum InputSelection {
    /// Only the operations from the remote lane.
    OperationsOnly,
    /// Both, preferring the operations.
    OperationsFirst,
    /// Both, preferring the local actions.
    ActionsFirst,
}

/// The flags of a running downlink task.
#[derive(Debug, Clone, Copy, PartialEq, Eq, Structural)]
pub struct DownlinkTaskState {
    /// The stream of local actions has ended.
    pub act_terminated: bool,
    /// The receiver of events has gone away.
    pub events_terminated: bool,
    /// The local actions are preferred the next time both inputs are read.
    pub read_act: bool,
    /// The number of inputs handled, modulo the word size.
    pub iteration_count: usize,
}

/// What the task does after a rejected operation, under the policy for
/// invalid messages: `None` to skip the operation, else the error it stops
/// with. A panic in the state machine always stops the task.
pub open spec fn spec_on_operation_error(e: DownlinkError, on_invalid: OnInvalidMessage) -> Option<DownlinkError> {
    if e is TaskPanic {
        Some(e)
    } else {
        match on_invalid {
            OnInvalidMessage::Ignore => None,
            OnInvalidMessage::Terminate => Some(e),
        }
    }
}

/// The decision on an operation the state machine rejected.
pub fn on_operation_error(e: DownlinkError, on_invalid: OnInvalidMessage) -> (res: Option<DownlinkError>)
    ensures
        res == spec_on_operation_error(e, on_invalid),
{
    if matches!(e, DownlinkError::TaskPanic(_)) {
        return Some(e);
    }
    match on_invalid {
        OnInvalidMessage::Ignore => None,
        OnInvalidMessage::Terminate => Some(e),
    }
}

/// The inputs to wait on, and the task's flags afterwards.
pub open spec fn spec_select(s: DownlinkTaskState, dl_state: DownlinkState, start_state: DownlinkState)
    -> (DownlinkTaskState, InputSelection)
{
    if dl_state == start_state && !s.act_terminated {
        (DownlinkTaskState { read_act: !s.read_act, ..s },
            if s.read_act { InputSelection::ActionsFirst } else { InputSelection::OperationsFirst })
    } else {
        (s, InputSelection::OperationsOnly)
    }
}

/// While the downlink stays in the state where it takes actions, and
/// actions can still come, two waits in a row prefer different inputs, so
/// that neither starves the other; after them the flags are as before.
pub proof fn selection_alternates(s: DownlinkTaskState, dl_state: DownlinkState, start_state: DownlinkState)
    requires
        dl_state == start_state,
        !s.act_terminated,
    ensures
        spec_select(s, dl_state, start_state).1 != spec_select(spec_select(s, dl_state, start_state).0, dl_state, start_state).1,
        spec_select(s, dl_state, start_state).1 != InputSelection::OperationsOnly,
        spec_select(spec_select(s, dl_state, start_state).0, dl_state, start_state).0 == s,
{
}

impl DownlinkTaskState {
    /// A task that has handled nothing.
    pub fn new() -> (res: DownlinkTaskState)
        ensures
            res == (DownlinkTaskState { act_terminated: false, events_terminated: false, read_act: false, iteration_count: 0 }),
    {
        DownlinkTaskState { act_terminated: false, events_terminated: false, read_act: false, iteration_count: 0 }
    }

    /// The inputs to wait on: both while the downlink is in the state where
    /// its machine accepts actions and actions can still come, alternating
    /// which is preferred; else only the operations.
    pub fn select_inputs(&mut self, dl_state: DownlinkState, start_state: DownlinkState) -> (res: InputSelection)
        ensures
            (*final(self), res) == spec_select(*old(self), dl_state, start_state),
    {
        if dl_state == start_state && !self.act_terminated {
            if self.read_act {
                self.read_act = false;
                InputSelection::ActionsFirst
            } else {
                self.read_act = true;
                InputSelection::OperationsFirst
            }
        } else {
            InputSelection::OperationsOnly
        }
    }

    /// Whether an event is still to be sent to its receiver.
    pub fn sends_events(&self) -> (res: bool)
        ensures
            res == !self.events_terminated,
    {
        !self.events_terminated
    }

    /// Records the outcome of sending an event: a failed send means the
    /// receiver has gone away.
    pub fn event_sent(&mut self, ok: bool)
        ensures
            *final(self) == (DownlinkTaskState { events_terminated: old(self).events_terminated || !ok, ..*old(self) }),
    {
        if !ok {
            self.events_terminated = true;
        }
    }

    /// After an operation was handled and its event and command sent:
    /// `Some` with the task's result where it stops. A fatal transition
    /// error stops it with a transition error; a request to terminate or a
    /// failed command stops it with the outcome of the command; else it stops
    /// cleanly once both the actions and the receiver of events are gone.
    pub fn after_response(&self, error_fatal: bool, terminate: bool, command_result: Result<(), RoutingError>)
        -> (res: Option<Result<(), DownlinkError>>)
        ensures
            error_fatal ==> res == Some(Err::<(), DownlinkError>(DownlinkError::TransitionError)),
            !error_fatal && (terminate || command_result is Err) ==> match command_result {
                Ok(()) => res == Some(Ok::<(), DownlinkError>(())),
                Err(e) => res matches Some(Err(d)) && is_from_routing(e, d),
            },
            !error_fatal && !terminate && command_result is Ok ==> res == (if self.act_terminated
                && self.events_terminated {
                Some(Ok::<(), DownlinkError>(()))
            } else {
                None
            }),
    {
        if error_fatal {
            Some(Err(DownlinkError::TransitionError))
        } else if terminate || command_result.is_err() {
            match command_result {
                Ok(()) => Some(Ok(())),
                Err(e) => Some(Err(DownlinkError::from_routing_error(e))),
            }
        } else if self.act_terminated && self.events_terminated {
            Some(Ok(()))
        } else {
            None
        }
    }

    /// The stream of actions ended: the task stops cleanly if the receiver of
    /// events is gone too. Answers whether it stops.
    pub fn actions_ended(&mut self) -> (stop: bool)
        ensures
            *final(self) == (DownlinkTaskState { act_terminated: true, ..*old(self) }),
            stop == old(self).events_terminated,
    {
        self.act_terminated = true;
        self.events_terminated
    }

    /// Counts a handled input; answers whether the task yields to the
    /// runtime now, which it does every `yield_after` inputs.
    pub fn count_iteration(&mut self, yield_after: usize) -> (yield_now: bool)
        requires
            yield_after > 0,
        ensures
            final(self).iteration_count == (if old(self).iteration_count == usize::MAX {
                0
            } else {
                old(self).iteration_count + 1
            }),
            final(self).act_terminated == old(self).act_terminated,
            final(self).events_terminated == old(self).events_terminated,
            final(self).read_act == old(self).read_act,
            yield_now == (final(self).iteration_count % yield_after == 0),
    {
        self.iteration_count = self.iteration_count.wrapping_add(1);
        self.iteration_count % yield_after == 0
    }
}

} // verus!
