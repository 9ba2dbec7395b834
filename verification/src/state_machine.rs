//! The state machine interface of a downlink task and its standard
//! implementation for downlinks that follow the link / sync protocol.

use vstd::prelude::*;
use crate::downlink::{Command, DownlinkError, DownlinkState, Message};

verus! {

/// The result of handling an event: an optional report, or an error, and
/// whether the downlink must terminate.
#[derive(Debug)]
pub struct EventResult<T> {
    pub result: Result<Option<T>, DownlinkError>,
    pub terminate: bool,
}

impl<T> EventResult<T> {
    /// A result that reports nothing and terminates the downlink.
    pub fn terminate() -> (res: EventResult<T>)
        ensures
            res == (EventResult::<T> { result: Ok(None), terminate: true }),
    {
        EventResult { result: Ok(None), terminate: true }
    }

    /// A result that fails with an error and terminates the downlink.
    pub fn fail(err: DownlinkError) -> (res: EventResult<T>)
        ensures
            res == (EventResult::<T> { result: Err(err), terminate: true }),
    {
        EventResult { result: Err(err), terminate: true }
    }

    /// A result that reports a value and keeps the downlink running.
    pub fn of(value: T) -> (res: EventResult<T>)
        ensures
            res == (EventResult { result: Ok(Some(value)), terminate: false }),
    {
        EventResult { result: Ok(Some(value)), terminate: false }
    }

    /// A result that reports nothing and keeps the downlink running.
    pub fn default_result() -> (res: EventResult<T>)
        ensures
            res == (EventResult::<T> { result: Ok(None), terminate: false }),
    {
        EventResult { result: Ok(None), terminate: false }
    }

    /// Wraps a result; the downlink terminates exactly on an error.
    pub fn from_result(result: Result<Option<T>, DownlinkError>) -> (res: EventResult<T>)
        ensures
            res == (EventResult { result: result, terminate: result is Err }),
    {
        let terminate = result.is_err();
        EventResult { result, terminate }
    }

    /// Wraps a result without a report; the downlink terminates exactly on an error.
    pub fn from_unit_result(result: Result<(), DownlinkError>) -> (res: EventResult<T>)
        ensures
            res == spec_from_unit::<T>(result),
    {
        let terminate = result.is_err();
        EventResult {
            result: match result {
                Ok(_) => Ok(None),
                Err(e) => Err(e),
            },
            terminate,
        }
    }
}

/// The event result of a result without a report.
pub open spec fn spec_from_unit<T>(result: Result<(), DownlinkError>) -> EventResult<T> {
    EventResult {
        result: match result {
            Ok(_) => Ok(None),
            Err(e) => Err(e),
        },
        terminate: result is Err,
    }
}

/// The response to a local request: an optional event and an optional command.
#[derive(PartialEq, Eq, Debug)]
pub struct Response<E, C> {
    pub event: Option<E>,
    pub command: Option<Command<C>>,
}

impl<E, C> Response<E, C> {
    /// A response that only sends a command action.
    pub fn command(cmd: C) -> (res: Self)
        ensures
            res == (Response::<E, C> { event: None, command: Some(Command::Action(cmd)) }),
    {
        Response { event: None, command: Some(Command::Action(cmd)) }
    }

    /// A response with an event and a command action.
    pub fn from_pair(event: E, cmd: C) -> (res: Self)
        ensures
            res == (Response { event: Some(event), command: Some(Command::Action(cmd)) }),
    {
        Response { event: Some(event), command: Some(Command::Action(cmd)) }
    }

    /// A response with neither event nor command.
    pub fn empty() -> (res: Self)
        ensures
            res == (Response::<E, C> { event: None, command: None }),
    {
        Response { event: None, command: None }
    }
}

/// Whether violations of a schema are ignored or reported.
#[derive(Eq, PartialEq, Clone, Copy, Debug, Hash, Structural)]
pub enum SchemaViolations {
    Ignore,
    Report,
}

impl SchemaViolations {
    /// Violations are reported by default.
    pub fn default_mode() -> (res: SchemaViolations)
        ensures
            res == SchemaViolations::Report,
    {
        SchemaViolations::Report
    }
}

/// The interface of a simple, stateful downlink that follows the standard
/// synchronization model. Each operation is described by a spec function that
/// gives its outcome on the state it reads.
pub trait SyncStateMachine<Event, Request> {
    /// State type of the downlink.
    type State;
    /// Type of commands that will be sent out to the Warp connection.
    type Command;
    /// Type of events that will be issued to the owner of the downlink.
    type Report;

    /// The initial state.
    spec fn spec_init(&self) -> Self::State;

    /// The report issued on entering the synced state.
    spec fn spec_on_sync(&self, state: Self::State) -> Self::Report;

    /// The new state and the result of a message received before synchronization.
    spec fn spec_unsynced(&self, state: Self::State, message: Event) -> (Self::State, Result<(), DownlinkError>);

    /// The new state and the result of a message received once synced.
    spec fn spec_synced(&self, state: Self::State, message: Event) -> (Self::State, Result<Option<Self::Report>, DownlinkError>);

    /// The new state and the response to a request.
    spec fn spec_request(&self, state: Self::State, request: Request) -> (Self::State, Result<Response<Self::Report, Self::Command>, DownlinkError>);

    /// The initial value of the state.
    fn init(&self) -> (res: Self::State)
        ensures
            res == self.spec_init();

    /// Generate the initial event when the downlink enters the synced state.
    fn on_sync(&self, state: &Self::State) -> (res: Self::Report)
        ensures
            res == self.spec_on_sync(*state);

    /// Update the state with a message, received between linking and synchronization.
    fn handle_message_unsynced(&self, state: &mut Self::State, message: Event) -> (res: Result<(), DownlinkError>)
        ensures
            (*final(state), res) == self.spec_unsynced(*old(state), message);

    /// Update the state with a message when synced, potentially generating an event.
    fn handle_message(&self, state: &mut Self::State, message: Event) -> (res: Result<Option<Self::Report>, DownlinkError>)
        ensures
            (*final(state), res) == self.spec_synced(*old(state), message);

    /// Apply a request to the state of the downlink, potentially generating
    /// outgoing events and commands.
    fn apply_request(&self, state: &mut Self::State, req: Request) -> (res: Result<Response<Self::Report, Self::Command>, DownlinkError>)
        ensures
            (*final(state), res) == self.spec_request(*old(state), req);
}

/// The simplest machine that follows the protocol: the downlink holds the
/// latest value of its lane. A message replaces the value (and, once synced,
/// is reported); a request sets the value, is reported and is sent to the
/// lane.
#[derive(Debug, Clone, Copy, PartialEq, Eq)]
pub struct ValueMachine<T> {
    /// The value before anything was received.
    pub initial: T,
}

impl<T: Copy> SyncStateMachine<T, T> for ValueMachine<T> {
    type State = T;
    type Command = T;
    type Report = T;

    open spec fn spec_init(&self) -> T {
        self.initial
    }

    open spec fn spec_on_sync(&self, state: T) -> T {
        state
    }

    open spec fn spec_unsynced(&self, state: T, message: T) -> (T, Result<(), DownlinkError>) {
        (message, Ok(()))
    }

    open spec fn spec_synced(&self, state: T, message: T) -> (T, Result<Option<T>, DownlinkError>) {
        (message, Ok(Some(message)))
    }

    open spec fn spec_request(&self, state: T, request: T) -> (T, Result<Response<T, T>, DownlinkError>) {
        (request, Ok(Response { event: Some(request), command: Some(Command::Action(request)) }))
    }

    fn init(&self) -> (res: T) {
        self.initial
    }

    fn on_sync(&self, state: &T) -> (res: T) {
        *state
    }

    fn handle_message_unsynced(&self, state: &mut T, message: T) -> (res: Result<(), DownlinkError>) {
        *state = message;
        Ok(())
    }

    fn handle_message(&self, state: &mut T, message: T) -> (res: Result<Option<T>, DownlinkError>) {
        *state = message;
        Ok(Some(message))
    }

    fn apply_request(&self, state: &mut T, req: T) -> (res: Result<Response<T, T>, DownlinkError>) {
        *state = req;
        Ok(Response::from_pair(req, req))
    }
}

/// The state of a downlink driven by a simple state machine, and the result of
/// a message received in a given protocol state.
pub open spec fn spec_handle_event<Event, Request, B: SyncStateMachine<Event, Request>>(
    machine: B,
    dl: DownlinkState,
    data: B::State,
    event: Message<Event>,
) -> (DownlinkState, B::State, EventResult<B::Report>) {
    match event {
        Message::Linked => (DownlinkState::Linked, data, EventResult { result: Ok(None), terminate: false }),
        Message::Synced => (DownlinkState::Synced, data,
            if dl == DownlinkState::Synced {
                EventResult { result: Ok(None), terminate: false }
            } else {
                EventResult { result: Ok(Some(machine.spec_on_sync(data))), terminate: false }
            }),
        Message::Action(m) => match dl {
            DownlinkState::Unlinked => (dl, data, EventResult { result: Ok(None), terminate: false }),
            DownlinkState::Linked => {
                let (next, r) = machine.spec_unsynced(data, m);
                (dl, next, spec_from_unit(r))
            },
            DownlinkState::Synced => {
                let (next, r) = machine.spec_synced(data, m);
                (dl, next, EventResult { result: r, terminate: r is Err })
            },
        },
        Message::Unlinked => (DownlinkState::Unlinked, data, EventResult { result: Ok(None), terminate: true }),
        Message::BadEnvelope(_) => (dl, data, EventResult { result: Err(DownlinkError::MalformedMessage), terminate: true }),
    }
}

/// An unlinked message ends the downlink, whatever its state: it becomes
/// unlinked, its data stays, and the result asks to terminate.
pub proof fn unlinked_event_terminates<Event, Request, B: SyncStateMachine<Event, Request>>(
    machine: B,
    dl: DownlinkState,
    data: B::State,
)
    ensures
        spec_handle_event(machine, dl, data, Message::<Event>::Unlinked)
            == (DownlinkState::Unlinked, data, EventResult::<B::Report> { result: Ok(None), terminate: true }),
{
}

/// A malformed envelope fails the downlink without changing its state.
pub proof fn bad_envelope_fails<Event, Request, B: SyncStateMachine<Event, Request>>(
    machine: B,
    dl: DownlinkState,
    data: B::State,
    text: String,
)
    ensures
        spec_handle_event(machine, dl, data, Message::<Event>::BadEnvelope(text))
            == (dl, data, EventResult::<B::Report> { result: Err(DownlinkError::MalformedMessage), terminate: true }),
{
}

/// Before it is linked, a downlink passes over the messages of its lane: its
/// protocol state and data stay as they are, nothing is reported and it does
/// not terminate.
pub proof fn action_before_link_is_ignored<Event, Request, B: SyncStateMachine<Event, Request>>(
    machine: B,
    data: B::State,
    m: Event,
)
    ensures
        spec_handle_event(machine, DownlinkState::Unlinked, data, Message::Action(m))
            == (DownlinkState::Unlinked, data, EventResult::<B::Report> { result: Ok(None), terminate: false }),
{
}

/// A message of the lane never changes the protocol state: once linked, the
/// data changes only as the machine says, before synchronization by its
/// unsynced update and afterwards by its synced one.
pub proof fn action_keeps_protocol_state<Event, Request, B: SyncStateMachine<Event, Request>>(
    machine: B,
    dl: DownlinkState,
    data: B::State,
    m: Event,
)
    ensures
        spec_handle_event(machine, dl, data, Message::Action(m)).0 == dl,
        dl == DownlinkState::Unlinked ==> spec_handle_event(machine, dl, data, Message::Action(m)).1 == data,
        dl == DownlinkState::Linked ==> spec_handle_event(machine, dl, data, Message::Action(m)).1
            == machine.spec_unsynced(data, m).0,
        dl == DownlinkState::Synced ==> spec_handle_event(machine, dl, data, Message::Action(m)).1
            == machine.spec_synced(data, m).0,
{
}

/// A linked message links the downlink, whatever its state, without changing
/// its data, reporting anything or terminating.
pub proof fn linked_event_links<Event, Request, B: SyncStateMachine<Event, Request>>(
    machine: B,
    dl: DownlinkState,
    data: B::State,
)
    ensures
        spec_handle_event(machine, dl, data, Message::<Event>::Linked)
            == (DownlinkState::Linked, data, EventResult::<B::Report> { result: Ok(None), terminate: false }),
{
}

/// A downlink terminates on a message exactly when the message unlinks it,
/// is malformed, or makes the machine fail; a failure is the result exactly
/// then, but for an unlinking.
pub proof fn terminates_on_failure_or_unlink<Event, Request, B: SyncStateMachine<Event, Request>>(
    machine: B,
    dl: DownlinkState,
    data: B::State,
    event: Message<Event>,
)
    ensures
        spec_handle_event(machine, dl, data, event).2.terminate
            == (event is Unlinked || spec_handle_event(machine, dl, data, event).2.result is Err),
        event is Unlinked ==> spec_handle_event(machine, dl, data, event).2.result is Ok,
{
}

/// A synced downlink passes over a further synced message; a downlink that
/// becomes synced reports its data.
pub proof fn synced_reports_once<Event, Request, B: SyncStateMachine<Event, Request>>(
    machine: B,
    dl: DownlinkState,
    data: B::State,
)
    ensures
        dl == DownlinkState::Synced ==> spec_handle_event(machine, dl, data, Message::<Event>::Synced)
            == (DownlinkState::Synced, data, EventResult::<B::Report> { result: Ok(None), terminate: false }),
        dl != DownlinkState::Synced ==> spec_handle_event(machine, dl, data, Message::<Event>::Synced)
            == (DownlinkState::Synced, data, EventResult { result: Ok(Some(machine.spec_on_sync(data))), terminate: false }),
{
}

/// Create the initial state of a downlink: unlinked, with the machine's
/// initial data, and a request to synchronize.
pub fn initialize<Event, Request, B: SyncStateMachine<Event, Request>>(machine: &B)
    -> (res: ((DownlinkState, B::State), Option<Command<B::Command>>))
    ensures
        res == ((DownlinkState::Unlinked, machine.spec_init()), Some(Command::<B::Command>::Sync)),
{
    ((DownlinkState::Unlinked, machine.init()), Some(Command::Sync))
}

/// Actions are processed only once the downlink is synced.
pub fn handle_actions(dl_state: DownlinkState) -> (res: bool)
    ensures
        res == (dl_state == DownlinkState::Synced),
{
    dl_state == DownlinkState::Synced
}

/// Handle an incoming Warp message.
pub fn handle_event<Event, Request, B: SyncStateMachine<Event, Request>>(
    machine: &B,
    dl_state: &mut DownlinkState,
    data: &mut B::State,
    event: Message<Event>,
) -> (res: EventResult<B::Report>)
    ensures
        (*final(dl_state), *final(data), res) == spec_handle_event(*machine, *old(dl_state), *old(data), event),
{
    match event {
        Message::Linked => {
            *dl_state = DownlinkState::Linked;
            EventResult::default_result()
        },
        Message::Synced => {
            let old = *dl_state;
            *dl_state = DownlinkState::Synced;
            if old == DownlinkState::Synced {
                EventResult::default_result()
            } else {
                EventResult::of(machine.on_sync(data))
            }
        },
        Message::Action(ev) => match *dl_state {
            DownlinkState::Unlinked => EventResult::default_result(),
            DownlinkState::Linked => EventResult::from_unit_result(machine.handle_message_unsynced(data, ev)),
            DownlinkState::Synced => EventResult::from_result(machine.handle_message(data, ev)),
        },
        Message::Unlinked => {
            *dl_state = DownlinkState::Unlinked;
            EventResult::terminate()
        },
        Message::BadEnvelope(_) => EventResult::fail(DownlinkError::MalformedMessage),
    }
}

/// Handle a local request: the machine's response, with the protocol state unchanged.
pub fn handle_request<Event, Request, B: SyncStateMachine<Event, Request>>(
    machine: &B,
    data: &mut B::State,
    request: Request,
) -> (res: Result<Response<B::Report, B::Command>, DownlinkError>)
    ensures
        (*final(data), res) == machine.spec_request(*old(data), request),
{
    machine.apply_request(data, request)
}

/// The command to dispatch when the downlink stops: unlink when linked or synced.
pub fn finalize<C>(dl_state: DownlinkState) -> (res: Option<Command<C>>)
    ensures
        res == (if dl_state == DownlinkState::Linked || dl_state == DownlinkState::Synced {
            Some(Command::<C>::Unlink)
        } else {
            None
        }),
{
    if dl_state == DownlinkState::Linked || dl_state == DownlinkState::Synced {
        Some(Command::Unlink)
    } else {
        None
    }
}


/// The interface that the task of a downlink drives: the state of the
/// downlink, what it does with messages from the remote lane and with local
/// requests, and what it sends when it starts and stops.
pub trait DownlinkStateMachine<Event, Request> {
    /// State type of the downlink.
    type State;
    /// Type of commands that will be sent out to the Warp connection.
    type Update;
    /// Type of events that will be issued to the owner of the downlink.
    type Report;

    /// Create the initial value of the state and any command that should be sent
    /// at initialization.
    fn initialize(&self) -> (Self::State, Option<Command<Self::Update>>);

    /// Determines whether actions should be processed, based on the current state.
    fn handle_actions(&self, state: &Self::State) -> (res: bool)
        default_ensures
            res,
    {
        true
    }

    /// Handle an incoming Warp message.
    fn handle_event(&self, state: &mut Self::State, event: Message<Event>) -> EventResult<Self::Report>;

    /// Handle a local request.
    fn handle_request(&self, state: &mut Self::State, request: Request)
        -> Result<Response<Self::Report, Self::Update>, DownlinkError>;

    /// A command to attempt to dispatch when the downlink stops.
    fn finalize(&self, state: &Self::State) -> (res: Option<Command<Self::Update>>)
        default_ensures
            res is None,
    {
        None
    }
}

impl<Basic, Event, Request> DownlinkStateMachine<Event, Request> for Basic where
    Basic: SyncStateMachine<Event, Request>,
 {
    type State = (DownlinkState, Basic::State);
    type Update = Basic::Command;
    type Report = Basic::Report;

    fn initialize(&self) -> (res: (Self::State, Option<Command<Self::Update>>))
        ensures
            res == ((DownlinkState::Unlinked, self.spec_init()), Some(Command::<Basic::Command>::Sync)),
    {
        initialize(self)
    }

    fn handle_actions(&self, state: &Self::State) -> (res: bool)
        ensures
            res == (state.0 == DownlinkState::Synced),
    {
        handle_actions(state.0)
    }

    fn handle_event(&self, state: &mut Self::State, event: Message<Event>) -> (res: EventResult<Self::Report>)
        ensures
            ((*final(state)).0, (*final(state)).1, res) == spec_handle_event(*self, (*old(state)).0, (*old(state)).1, event),
    {
        let (dl_state, data) = state;
        handle_event(self, dl_state, data, event)
    }

    fn handle_request(&self, state: &mut Self::State, request: Request)
        -> (res: Result<Response<Self::Report, Self::Update>, DownlinkError>)
        ensures
            (*final(state)).0 == (*old(state)).0,
            ((*final(state)).1, res) == self.spec_request((*old(state)).1, request),
    {
        let (_, data) = state;
        handle_request(self, data, request)
    }

    fn finalize(&self, state: &Self::State) -> (res: Option<Command<Self::Update>>)
        ensures
            res == (if state.0 == DownlinkState::Linked || state.0 == DownlinkState::Synced {
                Some(Command::<Basic::Command>::Unlink)
            } else {
                None
            }),
    {
        finalize(state.0)
    }
}

} // verus!
