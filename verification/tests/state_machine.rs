use swim_core::downlink::{Command, DownlinkError, DownlinkState, Message};
use swim_core::state_machine::{
    finalize, handle_actions, handle_event, handle_request, initialize, DownlinkStateMachine,
    EventResult, Response, SchemaViolations, ValueMachine,
};

#[test]
fn initialize_requests_sync() {
    let m = ValueMachine { initial: 1i64 };
    let ((state, data), cmd) = initialize(&m);
    assert_eq!(state, DownlinkState::Unlinked);
    assert_eq!(data, 1);
    assert_eq!(cmd, Some(Command::Sync));
}

#[test]
fn actions_only_when_synced() {
    assert!(handle_actions(DownlinkState::Synced));
    assert!(!handle_actions(DownlinkState::Linked));
    assert!(!handle_actions(DownlinkState::Unlinked));
}

#[test]
fn events_follow_the_protocol() {
    let m = ValueMachine { initial: 0i64 };
    let mut state = DownlinkState::Unlinked;
    let mut data = 0i64;

    let r = handle_event(&m, &mut state, &mut data, Message::Linked);
    assert!(matches!(r, EventResult { result: Ok(None), terminate: false }));
    assert_eq!(state, DownlinkState::Linked);

    let r = handle_event(&m, &mut state, &mut data, Message::Action(8));
    assert!(matches!(r, EventResult { result: Ok(None), terminate: false }));
    assert_eq!(data, 8);

    let r = handle_event(&m, &mut state, &mut data, Message::Synced);
    assert!(matches!(r, EventResult { result: Ok(Some(8)), terminate: false }));
    assert_eq!(state, DownlinkState::Synced);

    // A second synced message reports nothing.
    let r = handle_event(&m, &mut state, &mut data, Message::Synced);
    assert!(matches!(r, EventResult { result: Ok(None), terminate: false }));

    let r = handle_event(&m, &mut state, &mut data, Message::Action(9));
    assert!(matches!(r, EventResult { result: Ok(Some(9)), terminate: false }));

    let r = handle_event(&m, &mut state, &mut data, Message::Unlinked);
    assert!(matches!(r, EventResult { result: Ok(None), terminate: true }));
    assert_eq!(state, DownlinkState::Unlinked);
}

#[test]
fn bad_envelope_fails_and_terminates() {
    let m = ValueMachine { initial: 0i64 };
    let mut state = DownlinkState::Synced;
    let mut data = 0i64;
    let r = handle_event(&m, &mut state, &mut data, Message::BadEnvelope("x".to_string()));
    assert!(matches!(
        r,
        EventResult { result: Err(DownlinkError::MalformedMessage), terminate: true }
    ));
    assert_eq!(state, DownlinkState::Synced);
}

#[test]
fn requests_set_the_value() {
    let m = ValueMachine { initial: 0i64 };
    let mut data = 0i64;
    let r = handle_request(&m, &mut data, 3);
    assert_eq!(r, Ok(Response { event: Some(3), command: Some(Command::Action(3)) }));
    assert_eq!(data, 3);
}

#[test]
fn finalize_unlinks_when_linked() {
    assert_eq!(finalize::<i64>(DownlinkState::Linked), Some(Command::Unlink));
    assert_eq!(finalize::<i64>(DownlinkState::Synced), Some(Command::Unlink));
    assert_eq!(finalize::<i64>(DownlinkState::Unlinked), None);
}

#[test]
fn blanket_machine_drives_the_basic_one() {
    let m = ValueMachine { initial: 2i64 };
    let (mut state, cmd) = DownlinkStateMachine::<i64, i64>::initialize(&m);
    assert_eq!(state, (DownlinkState::Unlinked, 2));
    assert_eq!(cmd, Some(Command::Sync));
    assert!(!DownlinkStateMachine::<i64, i64>::handle_actions(&m, &state));
    let r = DownlinkStateMachine::<i64, i64>::handle_event(&m, &mut state, Message::Linked);
    assert!(matches!(r, EventResult { result: Ok(None), terminate: false }));
    let r = DownlinkStateMachine::<i64, i64>::handle_event(&m, &mut state, Message::Synced);
    assert!(matches!(r, EventResult { result: Ok(Some(2)), terminate: false }));
    assert!(DownlinkStateMachine::<i64, i64>::handle_actions(&m, &state));
    let r = DownlinkStateMachine::<i64, i64>::handle_request(&m, &mut state, 5);
    assert_eq!(r, Ok(Response::from_pair(5, 5)));
    assert_eq!(state, (DownlinkState::Synced, 5));
    assert_eq!(DownlinkStateMachine::<i64, i64>::finalize(&m, &state), Some(Command::Unlink));
}

#[test]
fn event_results() {
    assert!(matches!(EventResult::<i32>::terminate(), EventResult { result: Ok(None), terminate: true }));
    assert!(matches!(
        EventResult::<i32>::fail(DownlinkError::InvalidAction),
        EventResult { result: Err(DownlinkError::InvalidAction), terminate: true }
    ));
    assert!(matches!(EventResult::of(3), EventResult { result: Ok(Some(3)), terminate: false }));
    assert!(matches!(EventResult::<i32>::default_result(), EventResult { result: Ok(None), terminate: false }));
    assert!(matches!(
        EventResult::<i32>::from_result(Err(DownlinkError::TransitionError)),
        EventResult { result: Err(DownlinkError::TransitionError), terminate: true }
    ));
    assert!(matches!(EventResult::from_result(Ok(Some(1))), EventResult { result: Ok(Some(1)), terminate: false }));
    assert!(matches!(
        EventResult::<i32>::from_unit_result(Err(DownlinkError::ClosingFailure)),
        EventResult { result: Err(DownlinkError::ClosingFailure), terminate: true }
    ));
    assert!(matches!(EventResult::<i32>::from_unit_result(Ok(())), EventResult { result: Ok(None), terminate: false }));
}

#[test]
fn state_machine_responses() {
    let r: Response<i32, i32> = Response::command(4);
    assert_eq!(r, Response { event: None, command: Some(Command::Action(4)) });
    let r: Response<i32, i32> = Response::empty();
    assert_eq!(r, Response { event: None, command: None });
    assert_eq!(SchemaViolations::default_mode(), SchemaViolations::Report);
}
