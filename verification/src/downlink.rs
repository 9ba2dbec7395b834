//! The client's downlink model: messages, commands, events, errors and the
//! state machine that drives a downlink through the standard
//! link / sync protocol.

use vstd::prelude::*;
use crate::pool::ConnectionError;
use crate::routing::{RoutingError, spec_routing_is_fatal};

verus! {

/// Errors raised by a downlink.
#[derive(Clone, PartialEq, Debug)]
pub enum DownlinkError {
    DroppedChannel,
    TaskPanic(String),
    TransitionError,
    MalformedMessage,
    InvalidAction,
    /// A value (first) that did not match a schema (second), both rendered as text.
    SchemaViolation(String, String),
    ConnectionFailure(String),
    ConnectionPoolFailure(ConnectionError),
    ClosingFailure,
}

/// The message of the connection failure that a lost connection becomes.
pub open spec fn lost_connection_message() -> Seq<char> {
    seq!['T', 'h', 'e', ' ', 'c', 'o', 'n', 'n', 'e', 'c', 't', 'i', 'o', 'n', ' ', 'h', 'a', 's',
        ' ', 'b', 'e', 'e', 'n', ' ', 'l', 'o', 's', 't']
}

/// Whether `d` is the downlink error that the routing error `e` becomes: a
/// dropped router drops the downlink's channel and any other routing error is
/// a lost connection.
pub open spec fn is_from_routing(e: RoutingError, d: DownlinkError) -> bool {
    match e {
        RoutingError::RouterDropped => d == DownlinkError::DroppedChannel,
        _ => d matches DownlinkError::ConnectionFailure(m) && m@ == lost_connection_message(),
    }
}

impl DownlinkError {
    /// The downlink error that a routing error becomes.
    pub fn from_routing_error(e: RoutingError) -> (res: DownlinkError)
        ensures
            is_from_routing(e, res),
    {
        match e {
            RoutingError::RouterDropped => DownlinkError::DroppedChannel,
            _ => {
                let m = "The connection has been lost";
                proof {
                    reveal_strlit("The connection has been lost");
                    assert(m@ =~= lost_connection_message());
                }
                DownlinkError::ConnectionFailure(m.to_owned())
            },
        }
    }
}


/// The state of a downlink with respect to its remote lane.
#[derive(Clone, Copy, PartialEq, Eq, Debug, Structural)]
pub enum DownlinkState {
    Unlinked,
    Linked,
    Synced,
}

/// A message received from the remote lane.
#[derive(Clone, PartialEq, Eq, Debug)]
pub enum Message<M> {
    Linked,
    Synced,
    Action(M),
    Unlinked,
    BadEnvelope(String),
}

/// A command sent to the remote lane.
#[derive(Clone, PartialEq, Eq, Debug)]
pub enum Command<A> {
    Sync,
    Link,
    Action(A),
    Unlink,
}

/// An event observed on the downlink, either caused locally or received remotely.
#[derive(Clone, PartialEq, Eq, Debug)]
pub enum Event<A> {
    Local(A),
    Remote(A),
}

impl<A> Event<A> {
    /// The payload of the event, whatever its origin.
    pub fn get_inner(self) -> (res: A)
        ensures
            res == match self {
                Event::Local(a) => a,
                Event::Remote(a) => a,
            },
    {
        match self {
            Event::Local(inner) => inner,
            Event::Remote(inner) => inner,
        }
    }

    /// Maps an event to another through a fallible transformation of its
    /// payload, keeping its origin; an error of the transformation is returned.
    pub fn try_transform<B, E, Func>(self, func: Func) -> (res: Result<Event<B>, E>)
        where
            Func: FnOnce(A) -> Result<B, E>,
        requires
            call_requires(func, (self.spec_inner(),)),
        ensures
            match res {
                Ok(Event::Local(b)) => self is Local && call_ensures(func, (self.spec_inner(),), Ok(b)),
                Ok(Event::Remote(b)) => self is Remote && call_ensures(func, (self.spec_inner(),), Ok(b)),
                Err(e) => call_ensures(func, (self.spec_inner(),), Err(e)),
            },
    {
        match self {
            Event::Local(value) => {
                match func(value) {
                    Ok(b) => Ok(Event::Local(b)),
                    Err(e) => Err(e),
                }
            },
            Event::Remote(value) => {
                match func(value) {
                    Ok(b) => Ok(Event::Remote(b)),
                    Err(e) => Err(e),
                }
            },
        }
    }

    /// The payload of the event.
    pub open spec fn spec_inner(self) -> A {
        match self {
            Event::Local(a) => a,
            Event::Remote(a) => a,
        }
    }
}

/// An input to the downlink state machine.
#[derive(Clone, PartialEq, Debug)]
pub enum Operation<M, A> {
    Start,
    Message(Message<M>),
    Action(A),
    Error(RoutingError),
}

/// An error raised by a state transition.
#[derive(Clone, PartialEq, Eq, Debug)]
pub enum TransitionError {
    ReceiverDropped,
    SideEffectFailed,
    IllegalTransition(String),
}

/// A failed update of a downlink's state.
#[derive(Clone, PartialEq, Eq, Debug)]
pub struct UpdateFailure(pub String);

impl TransitionError {
    /// On encountering a fatal transition error, a downlink will terminate.
    pub fn is_fatal(&self) -> (res: bool)
        ensures
            res == (*self is IllegalTransition),
    {
        matches!(self, TransitionError::IllegalTransition(_))
    }
}

/// Merges a number of different channel send error types.
#[derive(Clone, Copy, PartialEq, Eq, Debug)]
pub struct DroppedError;

impl DroppedError {
    /// The text of the error.
    pub fn message(&self) -> (res: String)
        ensures
            res@ == "Channel dropped."@,
    {
        String::from_str("Channel dropped.")
    }
}

/// The output of a transition of the downlink state machine.
#[derive(Clone, PartialEq, Eq, Debug)]
pub struct Response<Ev, Cmd> {
    pub event: Option<Event<Ev>>,
    pub command: Option<Command<Cmd>>,
    pub error: Option<TransitionError>,
    pub terminate: bool,
}

/// A response with nothing in it.
pub open spec fn spec_none<Ev, Cmd>() -> Response<Ev, Cmd> {
    Response { event: None, command: None, error: None, terminate: false }
}

/// A response that only carries an event.
pub open spec fn spec_for_event<Ev, Cmd>(event: Event<Ev>) -> Response<Ev, Cmd> {
    Response { event: Some(event), command: None, error: None, terminate: false }
}

/// A response that only carries a command.
pub open spec fn spec_for_command<Ev, Cmd>(command: Command<Cmd>) -> Response<Ev, Cmd> {
    Response { event: None, command: Some(command), error: None, terminate: false }
}

impl<Ev, Cmd> Response<Ev, Cmd> {
    /// A response with no event, command or error, that does not terminate.
    pub fn none() -> (res: Response<Ev, Cmd>)
        ensures
            res == spec_none::<Ev, Cmd>(),
    {
        Response { event: None, command: None, error: None, terminate: false }
    }

    /// A response that only carries an event.
    pub fn for_event(event: Event<Ev>) -> (res: Response<Ev, Cmd>)
        ensures
            res == spec_for_event::<Ev, Cmd>(event),
    {
        Response { event: Some(event), command: None, error: None, terminate: false }
    }

    /// A response that only carries a command.
    pub fn for_command(command: Command<Cmd>) -> (res: Response<Ev, Cmd>)
        ensures
            res == spec_for_command::<Ev, Cmd>(command),
    {
        Response { event: None, command: Some(command), error: None, terminate: false }
    }

    /// The same response, marked to terminate the downlink.
    pub fn then_terminate(self) -> (res: Self)
        ensures
            res == (Response { terminate: true, ..self }),
    {
        let mut r = self;
        r.terminate = true;
        r
    }
}

/// The response of a local action of a downlink.
#[derive(Clone, PartialEq, Eq, Debug)]
pub struct BasicResponse<Ev, Cmd> {
    pub event: Option<Ev>,
    pub command: Option<Cmd>,
    pub error: Option<TransitionError>,
}

/// The full response that a basic response becomes: its event is local and
/// its command is an action.
pub open spec fn spec_from_basic<Ev, Cmd>(basic: BasicResponse<Ev, Cmd>) -> Response<Ev, Cmd> {
    Response {
        event: match basic.event {
            Some(e) => Some(Event::Local(e)),
            None => None,
        },
        command: match basic.command {
            Some(c) => Some(Command::Action(c)),
            None => None,
        },
        error: basic.error,
        terminate: false,
    }
}

impl<Ev, Cmd> BasicResponse<Ev, Cmd> {
    /// A response with nothing in it.
    pub fn none() -> (res: Self)
        ensures
            res == (BasicResponse::<Ev, Cmd> { event: None, command: None, error: None }),
    {
        BasicResponse { event: None, command: None, error: None }
    }

    /// A response with an event and a command.
    pub fn of(event: Ev, command: Cmd) -> (res: Self)
        ensures
            res == (BasicResponse { event: Some(event), command: Some(command), error: None }),
    {
        BasicResponse { event: Some(event), command: Some(command), error: None }
    }

    /// The same response, with an error.
    pub fn with_error(self, err: TransitionError) -> (res: Self)
        ensures
            res == (BasicResponse { error: Some(err), ..self }),
    {
        let mut r = self;
        r.error = Some(err);
        r
    }

    /// The full response that this response becomes.
    pub fn into_response(self) -> (res: Response<Ev, Cmd>)
        ensures
            res == spec_from_basic(self),
    {
        let BasicResponse { event, command, error } = self;
        Response {
            event: match event {
                Some(e) => Some(Event::Local(e)),
                None => None,
            },
            command: match command {
                Some(c) => Some(Command::Action(c)),
                None => None,
            },
            error,
            terminate: false,
        }
    }
}

/// The interface of a simple, stateful downlink that follows the standard
/// synchronization model. Each operation is described by a spec function that
/// gives its outcome on the state it reads.
pub trait SyncStateMachine<State, M, A> {
    /// Type of events that will be issued to the owner of the downlink.
    type Ev;
    /// Type of commands that will be sent out to the Warp connection.
    type Cmd;

    /// The initial state.
    spec fn spec_init(&self) -> State;

    /// The event issued on entering the synced state.
    spec fn spec_on_sync(&self, state: State) -> Self::Ev;

    /// The new state and the result of a message received before synchronization.
    spec fn spec_unsynced(&self, state: State, message: M) -> (State, Result<(), DownlinkError>);

    /// The new state and the result of a message received once synced.
    spec fn spec_synced(&self, state: State, message: M) -> (State, Result<Option<Self::Ev>, DownlinkError>);

    /// The new state and the response to a local action.
    spec fn spec_action(&self, state: State, action: A) -> (State, BasicResponse<Self::Ev, Self::Cmd>);

    /// The initial value of the state.
    fn init(&self) -> (res: State)
        ensures
            res == self.spec_init();

    /// Generate the initial event when the downlink enters the synced state.
    fn on_sync(&self, state: &State) -> (res: Self::Ev)
        ensures
            res == self.spec_on_sync(*state);

    /// Update the state with a message, received between linking and synchronization.
    fn handle_message_unsynced(&self, state: &mut State, message: M) -> (res: Result<(), DownlinkError>)
        ensures
            (*final(state), res) == self.spec_unsynced(*old(state), message);

    /// Update the state with a message when synced, potentially generating an event.
    fn handle_message(&self, state: &mut State, message: M) -> (res: Result<Option<Self::Ev>, DownlinkError>)
        ensures
            (*final(state), res) == self.spec_synced(*old(state), message);

    /// Handle a local action potentially generating an event and/or a command and/or an error.
    fn handle_action(&self, state: &mut State, action: A) -> (res: BasicResponse<Self::Ev, Self::Cmd>)
        ensures
            (*final(state), res) == self.spec_action(*old(state), action);
}

/// The simplest machine that follows the protocol: the downlink holds the
/// latest value of its lane. A message replaces the value (and, once synced,
/// is reported); a local action sets the value, is reported and is sent to
/// the lane.
#[derive(Debug, Clone, Copy, PartialEq, Eq)]
pub struct ValueMachine<T> {
    /// The value before anything was received.
    pub initial: T,
}

impl<T: Copy> SyncStateMachine<T, T, T> for ValueMachine<T> {
    type Ev = T;
    type Cmd = T;

    open spec fn spec_init(&self) -> T {
        self.initial
    }

    open spec fn spec_on_sync(&self, state: T) -> T {
        state
    }

    open spec fn spec_unsynced(&self, state: T, message: T) -> (T, Result<(), DownlinkError>) {
        (message, Ok(()))
    }

    open spec fn spec_synced(&self, state: T, message: T) -> (T, Result<Option<T>, DownlinkError>) {
        (message, Ok(Some(message)))
    }

    open spec fn spec_action(&self, state: T, action: T) -> (T, BasicResponse<T, T>) {
        (action, BasicResponse { event: Some(action), command: Some(action), error: None })
    }

    fn init(&self) -> (res: T) {
        self.initial
    }

    fn on_sync(&self, state: &T) -> (res: T) {
        *state
    }

    fn handle_message_unsynced(&self, state: &mut T, message: T) -> (res: Result<(), DownlinkError>) {
        *state = message;
        Ok(())
    }

    fn handle_message(&self, state: &mut T, message: T) -> (res: Result<Option<T>, DownlinkError>) {
        *state = message;
        Ok(Some(message))
    }

    fn handle_action(&self, state: &mut T, action: T) -> (res: BasicResponse<T, T>) {
        *state = action;
        BasicResponse::of(action, action)
    }
}

/// The downlink state after an operation.
pub open spec fn spec_next_dl_state<M, A>(dl: DownlinkState, op: Operation<M, A>) -> DownlinkState {
    match op {
        Operation::Message(Message::Linked) => DownlinkState::Linked,
        Operation::Message(Message::Synced) => DownlinkState::Synced,
        Operation::Message(Message::Unlinked) => DownlinkState::Unlinked,
        Operation::Error(e) => if spec_routing_is_fatal(e) { dl } else { DownlinkState::Unlinked },
        _ => dl,
    }
}

/// The outcome of an operation on the data state of a downlink, and the
/// result, when that result does not stem from a routing error: `None`
/// stands for the error that a fatal routing error becomes.
pub open spec fn spec_operation<State, M, A, B: SyncStateMachine<State, M, A>>(
    machine: B,
    dl: DownlinkState,
    data: State,
    op: Operation<M, A>,
) -> (State, Option<Result<Response<B::Ev, B::Cmd>, DownlinkError>>) {
    match op {
        Operation::Start => (data, Some(Ok(
            if dl == DownlinkState::Synced { spec_none() } else { spec_for_command(Command::Sync) },
        ))),
        Operation::Message(message) => match message {
            Message::Linked => (data, Some(Ok(spec_none()))),
            Message::Synced => (data, Some(Ok(
                if dl == DownlinkState::Synced {
                    spec_none()
                } else {
                    spec_for_event(Event::Remote(machine.spec_on_sync(data)))
                },
            ))),
            Message::Action(m) => match dl {
                DownlinkState::Unlinked => (data, Some(Ok(spec_none()))),
                DownlinkState::Linked => {
                    let (next, r) = machine.spec_unsynced(data, m);
                    (next, Some(match r {
                        Ok(_) => Ok(spec_none()),
                        Err(e) => Err(e),
                    }))
                },
                DownlinkState::Synced => {
                    let (next, r) = machine.spec_synced(data, m);
                    (next, Some(match r {
                        Ok(Some(ev)) => Ok(spec_for_event(Event::Remote(ev))),
                        Ok(None) => Ok(spec_none()),
                        Err(e) => Err(e),
                    }))
                },
            },
            Message::Unlinked => (data, Some(Ok(Response { terminate: true, ..spec_none() }))),
            Message::BadEnvelope(_) => (data, Some(Err(DownlinkError::MalformedMessage))),
        },
        Operation::Action(a) => {
            let (next, basic) = machine.spec_action(data, a);
            (next, Some(Ok(spec_from_basic(basic))))
        },
        Operation::Error(e) => if spec_routing_is_fatal(e) {
            (data, None)
        } else {
            (data, Some(Ok(spec_for_command(Command::Sync))))
        },
    }
}

/// A downlink that is already synced passes over a further synced message:
/// no event, no command, and its state and data stay as they are.
pub proof fn synced_again_is_silent<State, M, A, B: SyncStateMachine<State, M, A>>(machine: B, data: State)
    ensures
        spec_operation(machine, DownlinkState::Synced, data, Operation::<M, A>::Message(Message::Synced))
            == (data, Some(Ok::<Response<B::Ev, B::Cmd>, DownlinkError>(spec_none()))),
        spec_next_dl_state(DownlinkState::Synced, Operation::<M, A>::Message(Message::Synced)) == DownlinkState::Synced,
{
}

/// On entering the synced state, the downlink reports its data through the
/// machine's synchronization event.
pub proof fn first_sync_reports_state<State, M, A, B: SyncStateMachine<State, M, A>>(
    machine: B,
    dl: DownlinkState,
    data: State,
)
    requires
        dl != DownlinkState::Synced,
    ensures
        spec_operation(machine, dl, data, Operation::<M, A>::Message(Message::Synced))
            == (data, Some(Ok::<Response<B::Ev, B::Cmd>, DownlinkError>(spec_for_event(Event::Remote(machine.spec_on_sync(data)))))),
        spec_next_dl_state(dl, Operation::<M, A>::Message(Message::Synced)) == DownlinkState::Synced,
{
}

/// An unlinked message ends the downlink, whatever its state: the state
/// becomes unlinked and the response asks the task to terminate.
pub proof fn unlinked_terminates<State, M, A, B: SyncStateMachine<State, M, A>>(
    machine: B,
    dl: DownlinkState,
    data: State,
)
    ensures
        spec_operation(machine, dl, data, Operation::<M, A>::Message(Message::Unlinked))
            == (data, Some(Ok::<Response<B::Ev, B::Cmd>, DownlinkError>(Response { terminate: true, ..spec_none() }))),
        spec_next_dl_state(dl, Operation::<M, A>::Message(Message::Unlinked)) == DownlinkState::Unlinked,
{
}

/// A routing error that is not fatal resets the downlink: it becomes
/// unlinked and asks to synchronize again. A fatal one leaves the state and
/// fails the downlink.
pub proof fn routing_errors_resync_or_fail<State, M, A, B: SyncStateMachine<State, M, A>>(
    machine: B,
    dl: DownlinkState,
    data: State,
    e: RoutingError,
)
    ensures
        !spec_routing_is_fatal(e) ==> spec_operation(machine, dl, data, Operation::<M, A>::Error(e))
            == (data, Some(Ok::<Response<B::Ev, B::Cmd>, DownlinkError>(spec_for_command(Command::Sync))))
            && spec_next_dl_state(dl, Operation::<M, A>::Error(e)) == DownlinkState::Unlinked,
        spec_routing_is_fatal(e) ==> spec_operation(machine, dl, data, Operation::<M, A>::Error(e)).1 is None
            && spec_next_dl_state(dl, Operation::<M, A>::Error(e)) == dl,
{
}

/// Before it is linked, the downlink passes over the messages of its lane:
/// its data stays as it is and nothing is emitted.
pub proof fn unlinked_ignores_messages<State, M, A, B: SyncStateMachine<State, M, A>>(machine: B, data: State, m: M)
    ensures
        spec_operation(machine, DownlinkState::Unlinked, data, Operation::<M, A>::Message(Message::Action(m)))
            == (data, Some(Ok::<Response<B::Ev, B::Cmd>, DownlinkError>(spec_none()))),
        spec_next_dl_state(DownlinkState::Unlinked, Operation::<M, A>::Message(Message::Action(m))) == DownlinkState::Unlinked,
{
}

/// A malformed envelope fails the downlink with a malformed-message error in
/// every protocol state, and leaves its state and data as they are.
pub proof fn bad_envelope_fails_in_every_state<State, M, A, B: SyncStateMachine<State, M, A>>(
    machine: B,
    dl: DownlinkState,
    data: State,
    text: String,
)
    ensures
        spec_operation(machine, dl, data, Operation::<M, A>::Message(Message::BadEnvelope(text)))
            == (data, Some(Err::<Response<B::Ev, B::Cmd>, DownlinkError>(DownlinkError::MalformedMessage))),
        spec_next_dl_state(dl, Operation::<M, A>::Message(Message::BadEnvelope(text))) == dl,
{
}

/// Starting a downlink asks to synchronize it unless it is already synced;
/// its state and data stay as they are.
pub proof fn start_requests_sync<State, M, A, B: SyncStateMachine<State, M, A>>(
    machine: B,
    dl: DownlinkState,
    data: State,
)
    ensures
        spec_operation(machine, dl, data, Operation::<M, A>::Start) == (data, Some(Ok::<Response<B::Ev, B::Cmd>, DownlinkError>(
            if dl == DownlinkState::Synced { spec_none() } else { spec_for_command(Command::Sync) },
        ))),
        spec_next_dl_state(dl, Operation::<M, A>::Start) == dl,
{
}

/// A linked message links the downlink, whatever its state, with its data
/// unchanged and nothing emitted.
pub proof fn linked_message_links<State, M, A, B: SyncStateMachine<State, M, A>>(
    machine: B,
    dl: DownlinkState,
    data: State,
)
    ensures
        spec_operation(machine, dl, data, Operation::<M, A>::Message(Message::Linked))
            == (data, Some(Ok::<Response<B::Ev, B::Cmd>, DownlinkError>(spec_none()))),
        spec_next_dl_state(dl, Operation::<M, A>::Message(Message::Linked)) == DownlinkState::Linked,
{
}

/// The initial data state of a downlink driven by a simple state machine.
pub fn init_state<State, M, A, B: SyncStateMachine<State, M, A>>(machine: &B) -> (res: State)
    ensures
        res == machine.spec_init(),
{
    machine.init()
}

/// The downlink state at which a simple state machine starts to process
/// updates and actions.
pub fn dl_start_state() -> (res: DownlinkState)
    ensures
        res == DownlinkState::Synced,
{
    DownlinkState::Synced
}

/// For an operation on the downlink, generate output messages.
pub fn handle_operation<State, M, A, B: SyncStateMachine<State, M, A>>(
    machine: &B,
    state: &mut DownlinkState,
    data_state: &mut State,
    op: Operation<M, A>,
) -> (res: Result<Response<B::Ev, B::Cmd>, DownlinkError>)
    ensures
        ({
            let (next_data, outcome) = spec_operation(*machine, *old(state), *old(data_state), op);
            &&& *final(data_state) == next_data
            &&& match outcome {
                Some(r) => res == r && *final(state) == spec_next_dl_state(*old(state), op),
                None => op matches Operation::Error(e) && res matches Err(d) && is_from_routing(e, d)
                    && *final(state) == *old(state),
            }
        }),
{
    let response = match op {
        Operation::Start => {
            if *state == DownlinkState::Synced {
                Response::none()
            } else {
                Response::for_command(Command::Sync)
            }
        },
        Operation::Message(message) => match message {
            Message::Linked => {
                *state = DownlinkState::Linked;
                Response::none()
            },
            Message::Synced => {
                let old_state = *state;
                *state = DownlinkState::Synced;
                if old_state == DownlinkState::Synced {
                    Response::none()
                } else {
                    Response::for_event(Event::Remote(machine.on_sync(data_state)))
                }
            },
            Message::Action(msg) => match *state {
                DownlinkState::Unlinked => Response::none(),
                DownlinkState::Linked => {
                    match machine.handle_message_unsynced(data_state, msg) {
                        Ok(_) => Response::none(),
                        Err(e) => {
                            return Err(e);
                        },
                    }
                },
                DownlinkState::Synced => match machine.handle_message(data_state, msg) {
                    Ok(Some(ev)) => Response::for_event(Event::Remote(ev)),
                    Ok(None) => Response::none(),
                    Err(e) => {
                        return Err(e);
                    },
                },
            },
            Message::Unlinked => {
                *state = DownlinkState::Unlinked;
                Response::none().then_terminate()
            },
            Message::BadEnvelope(_) => {
                return Err(DownlinkError::MalformedMessage);
            },
        },
        Operation::Action(action) => machine.handle_action(data_state, action).into_response(),
        Operation::Error(e) => {
            if e.is_fatal() {
                return Err(DownlinkError::from_routing_error(e));
            } else {
                *state = DownlinkState::Unlinked;
                Response::for_command(Command::Sync)
            }
        },
    };
    Ok(response)
}

} // verus!
