use swim_core::agent::{AgentConfig, Instruction, SendError, UplinkKind};
use swim_core::lane_io::{
    after_failed_send, dispatch_envelope, lane_io_result, EnvelopeDispatch, EnvelopeKind,
    LaneIoError, MapLaneMessageHandler, RelativePath, RoutingAddr, UplinkAction, UplinkError,
    UplinkErrorReport, UplinkFailures,
};
use swim_core::open_downlink::{Address, DownlinkKind, OpenDownlinkAction, OpenStep};
use swim_core::routing::RouterConfigBuilder;
use swim_core::value_store::{EventHandlerError, StepResult, ValueStore, ValueStoreGet, ValueStoreSet};

fn route() -> RelativePath {
    RelativePath { node: "node".to_string(), lane: "lane".to_string() }
}

fn report(fatal: bool) -> UplinkErrorReport {
    UplinkErrorReport::new(UplinkError::Failed { description: "x".to_string(), fatal }, RoutingAddr(1))
}

#[test]
fn envelopes_are_dispatched() {
    assert_eq!(dispatch_envelope(EnvelopeKind::Link, None, 0), EnvelopeDispatch::Uplink(UplinkAction::Link));
    assert_eq!(dispatch_envelope(EnvelopeKind::Sync, Some(3), 0), EnvelopeDispatch::Uplink(UplinkAction::Sync));
    assert_eq!(dispatch_envelope(EnvelopeKind::Unlink, None, 0), EnvelopeDispatch::Uplink(UplinkAction::Unlink));
    assert_eq!(dispatch_envelope(EnvelopeKind::Command, Some(3), 0), EnvelopeDispatch::Command(3));
    assert_eq!(dispatch_envelope(EnvelopeKind::Command, None, 0), EnvelopeDispatch::Command(0));
    assert_eq!(dispatch_envelope(EnvelopeKind::Other, Some(3), 0), EnvelopeDispatch::Ignore);
}

#[test]
fn only_fatal_failures_count() {
    let mut failures = UplinkFailures::new();
    assert!(!failures.record(report(false), 0));
    assert_eq!(failures.num_fatal, 0);
    assert!(!failures.record(report(true), 1));
    assert_eq!(failures.num_fatal, 1);
    assert!(failures.record(UplinkErrorReport::new(UplinkError::FailedToStart(3), RoutingAddr(2)), 1));
    assert_eq!(failures.num_fatal, 2);
    assert_eq!(failures.errors.len(), 3);
    assert!(UplinkError::FailedToStart(1).is_fatal());
    assert!(!report(false).error.is_fatal());
}

#[test]
fn lane_io_outcomes() {
    match lane_io_result(route(), Err("update failed".to_string()), false, vec![report(true)]) {
        Err(LaneIoError { route: r, update_error: Some(e), uplink_errors }) => {
            assert_eq!(r, route());
            assert_eq!(e, "update failed");
            assert_eq!(uplink_errors, vec![report(true)]);
        }
        _ => panic!("expected an update failure"),
    }
    match lane_io_result(route(), Ok(()), true, vec![report(true)]) {
        Err(LaneIoError { update_error: None, uplink_errors, .. }) => assert_eq!(uplink_errors.len(), 1),
        _ => panic!("expected uplink failures"),
    }
    assert!(lane_io_result(route(), Ok(()), true, vec![]).is_ok());
    assert!(lane_io_result(route(), Ok(()), false, vec![report(true)]).is_ok());
    let e = LaneIoError::for_update_err(route(), "u".to_string());
    assert!(e.uplink_errors.is_empty());
    let e = LaneIoError::for_uplink_errors(route(), vec![report(false)]);
    assert!(e.update_error.is_none());
    let e = LaneIoError::new(route(), "u".to_string(), vec![]);
    assert_eq!(e.update_error.as_deref(), Some("u"));
}

#[test]
fn uplinks_give_up_after_the_last_attempt() {
    assert_eq!(after_failed_send(0, 3, RoutingAddr(4)), (1, None));
    assert_eq!(after_failed_send(1, 3, RoutingAddr(4)), (2, None));
    assert_eq!(
        after_failed_send(2, 3, RoutingAddr(4)),
        (3, Some(UplinkErrorReport::new(UplinkError::FailedToStart(3), RoutingAddr(4))))
    );
}

#[test]
fn uplink_ids_count_up() {
    let mut handler = MapLaneMessageHandler::new("lane", ());
    assert_eq!(handler.next_uplink_id(), 1);
    assert_eq!(handler.next_uplink_id(), 2);
    handler.uplink_counter = u64::MAX;
    assert_eq!(handler.next_uplink_id(), u64::MAX);
    assert_eq!(handler.next_uplink_id(), 0);
}

#[test]
fn value_store_keeps_previous_and_dirty_flag() {
    let mut store = ValueStore::new(3, 10);
    assert_eq!(store.id(), 3);
    assert!(!store.has_data_to_write());
    assert_eq!(store.read(|v: &i32| *v), 10);
    store.set(11);
    assert!(store.has_data_to_write());
    assert_eq!(store.read_with_prev(|p: Option<i32>, v: &i32| (p, *v)), (Some(10), 11));
    assert_eq!(store.read_with_prev(|p: Option<i32>, v: &i32| (p, *v)), (None, 11));
    let mut seen = None;
    assert!(store.consume(|v: &i32| seen = Some(*v)));
    assert_eq!(seen, Some(11));
    assert!(!store.consume(|_: &i32| {}));
    store.init(12);
    assert!(!store.has_data_to_write());
    store.set(13);
    assert_eq!(store.write_out(), Some(&13));
    assert_eq!(store.write_out(), None);
}

#[test]
fn value_store_handlers_run_once() {
    let mut store = ValueStore::new(5, 1);
    let mut get = ValueStoreGet::new();
    assert_eq!(get.step(&store), StepResult::Complete { modified_item: None, result: 1 });
    assert_eq!(get.step(&store), StepResult::Fail(EventHandlerError::SteppedAfterComplete));
    let mut set = ValueStoreSet::new(2);
    assert_eq!(set.step(&mut store), StepResult::Complete { modified_item: Some(5), result: () });
    assert_eq!(store.read(|v: &i32| *v), 2);
    assert_eq!(set.step(&mut store), StepResult::Fail(EventHandlerError::SteppedAfterComplete));
    assert_eq!(store.read(|v: &i32| *v), 2);
}

#[test]
fn open_downlink_hands_over_once() {
    let address = Address { host: None, node: "node".to_string(), lane: "lane".to_string() };
    let mut action = OpenDownlinkAction::open_value(address.clone(), "lifecycle", 7u32);
    match action.step() {
        OpenStep::Open { address: a, lifecycle, config, kind } => {
            assert_eq!(a, address);
            assert_eq!(lifecycle, "lifecycle");
            assert_eq!(config, 7);
            assert_eq!(kind, DownlinkKind::Value);
        }
        OpenStep::Fail(_) => panic!("expected to open"),
    }
    assert!(matches!(action.step(), OpenStep::Fail(EventHandlerError::SteppedAfterComplete)));
    let mut map = OpenDownlinkAction::open_map(address.clone(), (), 0u8);
    assert!(matches!(map.step(), OpenStep::Open { kind: DownlinkKind::MapLane, .. }));
    let mut event = OpenDownlinkAction::open_event(address, (), 0u8);
    assert!(matches!(event.step(), OpenStep::Open { kind: DownlinkKind::Event, .. }));
}

#[test]
fn router_config_builder() {
    let config = RouterConfigBuilder::new()
        .with_retry_stategy(3u8)
        .with_idle_timeout(60)
        .with_buffer_size(100)
        .build();
    assert_eq!(config.retry_strategy(), 3);
    assert_eq!(config.idle_timeout(), 60);
    // The buffer size is taken from the idle timeout.
    assert_eq!(config.buffer_size(), 60);
}

#[test]
fn agent_types() {
    assert_ne!(UplinkKind::Value, UplinkKind::MapLane);
    assert_eq!(AgentConfig {}, AgentConfig {});
    assert_eq!(SendError {}, SendError {});
    let i = Instruction::SetValue { key: "k".to_string(), value: 3 };
    assert_eq!(i.clone(), i);
    assert_ne!(Instruction::Wake, Instruction::Stop);
}
