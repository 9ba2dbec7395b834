use swim_core::downlink::{
    dl_start_state, handle_operation, init_state, BasicResponse, Command, DownlinkError,
    DownlinkState, DroppedError, Event, Message, Operation, Response, TransitionError,
    ValueMachine,
};
use swim_core::routing::RoutingError;

type Op = Operation<i64, i64>;
type Resp = Response<i64, i64>;

fn machine() -> ValueMachine<i64> {
    ValueMachine { initial: 0 }
}

#[test]
fn value_machine_starts_with_its_initial_value() {
    assert_eq!(init_state(&ValueMachine { initial: 7i64 }), 7);
    assert_eq!(dl_start_state(), DownlinkState::Synced);
}

#[test]
fn start_asks_to_sync_unless_synced() {
    let m = machine();
    let mut data = 0i64;
    let mut state = DownlinkState::Unlinked;
    let r: Result<Resp, DownlinkError> = handle_operation(&m, &mut state, &mut data, Op::Start);
    assert_eq!(r, Ok(Response::for_command(Command::Sync)));
    assert_eq!(state, DownlinkState::Unlinked);

    let mut state = DownlinkState::Synced;
    let r: Result<Resp, DownlinkError> = handle_operation(&m, &mut state, &mut data, Op::Start);
    assert_eq!(r, Ok(Response::none()));
}

#[test]
fn link_then_sync_reports_the_value() {
    let m = machine();
    let mut data = 0i64;
    let mut state = DownlinkState::Unlinked;

    let r = handle_operation(&m, &mut state, &mut data, Op::Message(Message::Linked));
    assert_eq!(r, Ok(Response::none()));
    assert_eq!(state, DownlinkState::Linked);

    let r = handle_operation(&m, &mut state, &mut data, Op::Message(Message::Action(5)));
    assert_eq!(r, Ok(Response::none()));
    assert_eq!(data, 5);

    let r = handle_operation(&m, &mut state, &mut data, Op::Message(Message::Synced));
    assert_eq!(r, Ok(Response::for_event(Event::Remote(5))));
    assert_eq!(state, DownlinkState::Synced);

    // Once synced, each message is reported.
    let r = handle_operation(&m, &mut state, &mut data, Op::Message(Message::Action(6)));
    assert_eq!(r, Ok(Response::for_event(Event::Remote(6))));
    assert_eq!(data, 6);
}

#[test]
fn second_synced_message_is_silent() {
    let m = machine();
    let mut data = 3i64;
    let mut state = DownlinkState::Synced;
    let r = handle_operation(&m, &mut state, &mut data, Op::Message(Message::Synced));
    assert_eq!(r, Ok(Response::none()));
    assert_eq!(state, DownlinkState::Synced);
    assert_eq!(data, 3);
}

#[test]
fn unlinked_message_terminates() {
    for start in [DownlinkState::Unlinked, DownlinkState::Linked, DownlinkState::Synced] {
        let m = machine();
        let mut data = 3i64;
        let mut state = start;
        let r = handle_operation(&m, &mut state, &mut data, Op::Message(Message::Unlinked));
        assert_eq!(r, Ok(Response::none().then_terminate()));
        assert_eq!(state, DownlinkState::Unlinked);
        assert_eq!(data, 3);
    }
}

#[test]
fn messages_before_link_are_ignored() {
    let m = machine();
    let mut data = 3i64;
    let mut state = DownlinkState::Unlinked;
    let r = handle_operation(&m, &mut state, &mut data, Op::Message(Message::Action(9)));
    assert_eq!(r, Ok(Response::none()));
    assert_eq!(data, 3);
}

#[test]
fn bad_envelope_is_malformed() {
    let m = machine();
    let mut data = 0i64;
    let mut state = DownlinkState::Synced;
    let r = handle_operation(
        &m,
        &mut state,
        &mut data,
        Op::Message(Message::BadEnvelope("oops".to_string())),
    );
    assert_eq!(r, Err(DownlinkError::MalformedMessage));
    assert_eq!(state, DownlinkState::Synced);
}

#[test]
fn action_sets_value_and_sends_command() {
    let m = machine();
    let mut data = 0i64;
    let mut state = DownlinkState::Synced;
    let r = handle_operation(&m, &mut state, &mut data, Op::Action(4));
    assert_eq!(
        r,
        Ok(Response {
            event: Some(Event::Local(4)),
            command: Some(Command::Action(4)),
            error: None,
            terminate: false,
        })
    );
    assert_eq!(data, 4);
    assert_eq!(state, DownlinkState::Synced);
}

#[test]
fn routing_errors_resync_or_fail() {
    let m = machine();
    let mut data = 0i64;
    let mut state = DownlinkState::Synced;
    let r = handle_operation(&m, &mut state, &mut data, Op::Error(RoutingError::Transient));
    assert_eq!(r, Ok(Response::for_command(Command::Sync)));
    assert_eq!(state, DownlinkState::Unlinked);

    let mut state = DownlinkState::Synced;
    let r = handle_operation(&m, &mut state, &mut data, Op::Error(RoutingError::RouterDropped));
    assert_eq!(r, Err(DownlinkError::DroppedChannel));
    assert_eq!(state, DownlinkState::Synced);

    let r = handle_operation(&m, &mut state, &mut data, Op::Error(RoutingError::ConnectionError));
    assert_eq!(
        r,
        Err(DownlinkError::ConnectionFailure("The connection has been lost".to_string()))
    );
}

#[test]
fn routing_error_conversion() {
    assert_eq!(
        DownlinkError::from_routing_error(RoutingError::RouterDropped),
        DownlinkError::DroppedChannel
    );
    assert_eq!(
        DownlinkError::from_routing_error(RoutingError::Transient),
        DownlinkError::ConnectionFailure("The connection has been lost".to_string())
    );
}

#[test]
fn event_payloads_and_transforms() {
    assert_eq!(Event::Local(3).get_inner(), 3);
    assert_eq!(Event::Remote(4).get_inner(), 4);
    let ok: Result<Event<String>, ()> = Event::Remote(5).try_transform(|n: i32| Ok(n.to_string()));
    assert_eq!(ok, Ok(Event::Remote("5".to_string())));
    let ok: Result<Event<i32>, ()> = Event::Local(5).try_transform(|n: i32| Ok(n + 1));
    assert_eq!(ok, Ok(Event::Local(6)));
    let err: Result<Event<i32>, String> = Event::Local(5).try_transform(|_| Err("bad".to_string()));
    assert_eq!(err, Err("bad".to_string()));
}

#[test]
fn responses() {
    let r: Resp = Response::for_event(Event::Local(1));
    assert_eq!(r.event, Some(Event::Local(1)));
    assert_eq!(r.command, None);
    assert!(!r.terminate);
    let r: Resp = Response::for_command(Command::Link).then_terminate();
    assert_eq!(r.command, Some(Command::Link));
    assert!(r.terminate);

    let b: BasicResponse<i64, i64> = BasicResponse::of(1, 2).with_error(TransitionError::SideEffectFailed);
    assert_eq!(b.error, Some(TransitionError::SideEffectFailed));
    let full = b.into_response();
    assert_eq!(full.event, Some(Event::Local(1)));
    assert_eq!(full.command, Some(Command::Action(2)));
    assert_eq!(full.error, Some(TransitionError::SideEffectFailed));
    assert!(!full.terminate);
    let none: BasicResponse<i64, i64> = BasicResponse::none();
    assert_eq!(none.into_response(), Response::none());
}

#[test]
fn transition_errors_fatality() {
    assert!(TransitionError::IllegalTransition("x".to_string()).is_fatal());
    assert!(!TransitionError::ReceiverDropped.is_fatal());
    assert!(!TransitionError::SideEffectFailed.is_fatal());
}

#[test]
fn dropped_error_text() {
    assert_eq!(DroppedError.message(), "Channel dropped.");
}
