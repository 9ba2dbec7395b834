use swim_core::links::{Links, TriggerUnlink};
use swim_core::read_task::{FeedOutcome, LaneOp, ReadAction, ReadStep, ReadTaskState};
use swim_core::write_task::{
    discard_error, on_inactivity, InactivityOutcome, LaneResponseKind, RawLaneResponse, UplinkResponse,
    DisconnectionReason, EventRoute, LaneRegistry, LinkOutcome, TaskMessageResult, TimeoutStep,
    UnlinkOutcome, WriteTaskState, WriteVote, Writes, select_write_event, WriteTaskEvent,
};

fn name(s: &str) -> String {
    s.to_string()
}

#[test]
fn links_insert_and_remove() {
    let mut links = Links::new();
    assert!(!links.is_linked(7, 1));
    links.insert(1, 7);
    links.insert(1, 7);
    assert!(links.is_linked(7, 1));
    assert!(links.has_links(7));
    assert_eq!(links.all_links(), vec![(1, 7)]);
    // Unlinking undoes linking.
    let t = links.remove(1, 7);
    assert_eq!(t, TriggerUnlink { remote_id: 7, schedule_prune: true });
    assert_eq!(t.into_option(), Some(7));
    assert!(!links.is_linked(7, 1));
    assert!(links.all_links().is_empty());
}

#[test]
fn remove_lane_and_remote() {
    let mut links = Links::new();
    links.insert(1, 7);
    links.insert(2, 7);
    links.insert(1, 8);
    let mut from_one = links.linked_from(1);
    from_one.sort();
    assert_eq!(from_one, vec![7, 8]);

    let mut triggers = links.remove_lane(1);
    triggers.sort_by_key(|t| t.remote_id);
    assert_eq!(
        triggers,
        vec![
            TriggerUnlink { remote_id: 7, schedule_prune: false },
            TriggerUnlink { remote_id: 8, schedule_prune: true },
        ]
    );
    assert!(links.linked_from(1).is_empty());
    assert!(links.is_linked(7, 2));

    links.remove_remote(7);
    assert!(!links.has_links(7));
    assert!(links.all_links().is_empty());
}

#[test]
fn lane_registry_numbers_lanes() {
    let mut reg = LaneRegistry::new();
    let a = reg.add_endpoint(name("a"));
    let b = reg.add_endpoint(name("b"));
    assert_ne!(a, b);
    assert_eq!(reg.id_for(&name("a")), Some(a));
    assert_eq!(reg.id_for(&name("b")), Some(b));
    reg.remove_lane(a);
    assert_eq!(reg.id_for(&name("a")), None);
    assert_eq!(reg.id_for(&name("b")), Some(b));
}

#[test]
fn write_task_links_and_routes() {
    let mut state = WriteTaskState::new();
    let lane = state.lanes.add_endpoint(name("lane"));
    assert_eq!(state.handle_link(9, &name("lane")), LinkOutcome::NoRemote);
    assert_eq!(state.handle_link(9, &name("other")), LinkOutcome::NoLane);
    state.add_remote(9);
    assert!(state.has_remote(9));
    assert!(state.has_remotes());
    assert_eq!(state.handle_link(9, &name("lane")), LinkOutcome::Linked(lane));

    assert_eq!(state.route_event(lane, None, false), EventRoute::Broadcast(vec![9]));
    assert_eq!(state.route_event(lane, Some(9), true), EventRoute::Send(9));

    assert_eq!(
        state.handle_unlink(9, &name("lane")),
        UnlinkOutcome::Unlinked { lane_id: lane, schedule_prune: Some(9) }
    );
    assert_eq!(state.handle_unlink(9, &name("lane")), UnlinkOutcome::NotLinked);
    assert_eq!(state.route_event(lane, None, false), EventRoute::Discard);

    // A synced event to a remote that is not linked links it first.
    assert_eq!(state.route_event(lane, Some(9), true), EventRoute::LinkThenSend(9));
    assert_eq!(state.unlink_all(), vec![(lane, 9)]);
}

#[test]
fn write_task_removes_remotes_and_lanes() {
    let mut state = WriteTaskState::new();
    let lane = state.lanes.add_endpoint(name("lane"));
    state.add_remote(1);
    state.add_remote(2);
    state.handle_link(1, &name("lane"));
    // A remote with links is not idle.
    assert!(!state.remove_remote_if_idle(1));
    assert!(state.remove_remote_if_idle(2));
    assert!(!state.has_remote(2));

    let triggers = state.remove_lane(lane);
    assert_eq!(triggers, vec![TriggerUnlink { remote_id: 1, schedule_prune: true }]);
    assert_eq!(state.lanes.id_for(&name("lane")), None);

    state.remove_remote(1);
    assert!(!state.has_remotes());
}

#[test]
fn dispose_of_remotes_reports_each() {
    let mut state = WriteTaskState::new();
    state.add_remote(1);
    state.add_remote(2);
    state.add_remote(2);
    let mut reports = state.dispose_of_remotes(DisconnectionReason::AgentTimedOut);
    reports.sort_by_key(|r| r.0);
    assert_eq!(
        reports,
        vec![(1, DisconnectionReason::AgentTimedOut), (2, DisconnectionReason::AgentTimedOut)]
    );
}

#[test]
fn task_message_results() {
    assert!(matches!(
        TaskMessageResult::<u8, ()>::from_write(Some(3)),
        TaskMessageResult::ScheduleWrite { write: 3, schedule_prune: None }
    ));
    assert!(matches!(TaskMessageResult::<u8, ()>::from_write(None), TaskMessageResult::Nothing));
    assert!(matches!(
        TaskMessageResult::<u8, ()>::after_unlink(Some(3), Some(5)),
        TaskMessageResult::ScheduleWrite { write: 3, schedule_prune: Some(5) }
    ));
    assert!(matches!(TaskMessageResult::<u8, ()>::after_unlink(None, Some(5)), TaskMessageResult::AddPruneTimeout(5)));
    assert!(matches!(TaskMessageResult::<u8, ()>::after_unlink(None, None), TaskMessageResult::Nothing));
}

#[test]
fn writes_are_handed_out_in_order() {
    let mut w = Writes::from_pair(Some(1), Some(2));
    assert_eq!(w.next(), Some(1));
    assert_eq!(w.next(), Some(2));
    assert_eq!(w.next(), None);
    let mut w = Writes::from_pair(None, Some(2));
    assert_eq!(w.next(), Some(2));
    assert_eq!(w.next(), None);
    let mut w = Writes::from_option(Some(4));
    assert_eq!(w.next(), Some(4));
    assert_eq!(Writes::<u8>::from_option(None).next(), None);
}

#[test]
fn write_task_votes() {
    let mut v = WriteVote::new();
    assert_eq!(v.on_timeout(false, false), TimeoutStep::StopNoRemotes);
    assert_eq!(v.on_timeout(true, false), TimeoutStep::Continue);
    assert!(v.voted && !v.timeout_enabled);
    assert!(!v.on_activity(false));
    assert_eq!(v, WriteVote::new());
    assert_eq!(v.on_timeout(true, true), TimeoutStep::StopVoted);
    assert!(v.on_activity(true));
}

#[test]
fn read_task_dispatches_envelopes() {
    let mut state = ReadTaskState::new();
    let a = state.register_lane(name("a"));
    let b = state.register_lane(name("b"));
    assert_eq!(state.lookup(&name("a")), Some(a));
    assert_eq!(state.lookup(&name("c")), None);

    assert_eq!(
        state.on_envelope(&name("a"), LaneOp::Command),
        ReadStep { flush_first: None, action: ReadAction::FeedCommand(a) }
    );
    state.command_fed(a);
    // A command for another lane flushes the first one.
    assert_eq!(
        state.on_envelope(&name("b"), LaneOp::Link),
        ReadStep { flush_first: Some(a), action: ReadAction::ForwardLink(b) }
    );
    assert_eq!(
        state.on_envelope(&name("b"), LaneOp::Sync),
        ReadStep { flush_first: None, action: ReadAction::StartSync(b) }
    );
    assert_eq!(
        state.on_envelope(&name("b"), LaneOp::Unlink),
        ReadStep { flush_first: None, action: ReadAction::ForwardUnlink(b) }
    );
    state.command_fed(b);
    assert_eq!(
        state.on_envelope(&name("zzz"), LaneOp::Command),
        ReadStep { flush_first: Some(b), action: ReadAction::UnknownLane }
    );
    state.command_fed(a);
    assert_eq!(state.take_flush(), Some(a));
    assert_eq!(state.take_flush(), None);
}

#[test]
fn read_task_failed_lanes() {
    let mut state = ReadTaskState::new();
    let a = state.register_lane(name("a"));
    state.flush_failed(a);
    assert_eq!(
        state.on_envelope(&name("a"), LaneOp::Command),
        ReadStep { flush_first: None, action: ReadAction::Ignore }
    );
    state.lane_failed(&name("a"));
    assert_eq!(state.lookup(&name("a")), None);
    // The name can be registered again, as a new lane.
    let a2 = state.register_lane(name("a"));
    assert_ne!(a, a2);
    assert_eq!(state.lookup(&name("a")), Some(a2));
}

#[test]
fn read_task_votes() {
    let mut state = ReadTaskState::new();
    assert!(!state.must_rescind());
    assert!(!state.on_timeout(false));
    assert!(state.must_rescind());
    assert!(!state.on_rescind(false));
    assert!(!state.must_rescind());
    assert!(state.on_timeout(true));
}

#[test]
fn inactivity_stops_without_lanes() {
    assert_eq!(on_inactivity(true), InactivityOutcome::Stop);
    assert_eq!(on_inactivity(false), InactivityOutcome::Timeout);
}

#[test]
fn lane_responses_are_routed() {
    let r = RawLaneResponse::from_value_event(LaneResponseKind::StandardEvent, 1);
    assert_eq!(r, RawLaneResponse::broadcast(UplinkResponse::Value(1)));
    let r = RawLaneResponse::from_value_event(LaneResponseKind::SyncEvent(9), 1);
    assert_eq!(r, RawLaneResponse::targetted(9, UplinkResponse::SyncedValue(1)));
    assert!(r.response.is_synced());
    let r = RawLaneResponse::from_map_event(LaneResponseKind::SyncEvent(9), 2);
    assert_eq!(r, RawLaneResponse { target: Some(9), response: UplinkResponse::MapEvent(2) });
    assert!(!r.response.is_synced());
    let done: RawLaneResponse<u8> = RawLaneResponse::map_sync_complete(9);
    assert!(done.response.is_synced());

    let mut state = WriteTaskState::new();
    let lane = state.lanes.add_endpoint(name("lane"));
    state.add_remote(9);
    // A map event for a remote that is not linked is sent as it is; the end
    // of its synchronization links it first.
    assert_eq!(state.route_response(lane, &r), EventRoute::Send(9));
    assert_eq!(state.route_response(lane, &done), EventRoute::LinkThenSend(9));
    assert_eq!(state.route_response(lane, &RawLaneResponse::broadcast(UplinkResponse::Value(3))), EventRoute::Broadcast(vec![9]));
    assert_eq!(discard_error::<u8, &str>("bad key"), None);
}

#[test]
fn read_task_command_outcomes() {
    let mut state = ReadTaskState::new();
    let a = state.register_lane(name("a"));
    let b = state.register_lane(name("b"));
    // A refused envelope is reported and changes nothing.
    assert!(state.after_command(a, &name("a"), FeedOutcome::Invalid));
    assert_eq!(state.take_flush(), None);
    // A taken command leaves the lane waiting to be flushed.
    assert!(!state.after_command(a, &name("a"), FeedOutcome::Taken));
    assert_eq!(state.take_flush(), Some(a));
    // A failed write drops the lane.
    assert!(!state.after_command(b, &name("b"), FeedOutcome::Failed));
    assert_eq!(state.lookup(&name("b")), None);
    assert_eq!(state.lookup(&name("a")), Some(a));
}

#[test]
fn attaching_a_remote_schedules_a_prune() {
    let mut state = WriteTaskState::new();
    let res: TaskMessageResult<u8, u8> = state.attach_remote(7);
    assert!(matches!(res, TaskMessageResult::AddPruneTimeout(7)));
    assert!(state.has_remote(7));
}

#[test]
fn read_task_does_not_flush_a_dead_lane() {
    let mut state = ReadTaskState::new();
    let a = state.register_lane(name("a"));
    let b = state.register_lane(name("b"));
    state.command_fed(a);
    state.flush_failed(a);
    assert_eq!(
        state.on_envelope(&name("b"), LaneOp::Sync),
        ReadStep { flush_first: None, action: ReadAction::StartSync(b) }
    );
    state.command_fed(b);
    state.lane_failed(&name("b"));
    assert_eq!(
        state.on_envelope(&name("zzz"), LaneOp::Command),
        ReadStep { flush_first: None, action: ReadAction::UnknownLane }
    );
}

type Ev = WriteTaskEvent<&'static str, u8, char>;

#[test]
fn write_task_event_precedence() {
    // Everything ready: the prune timeout wins.
    let (ev, reset) = select_write_event(Some(9), Some(Some("m")), true, Some(1u8), Some(Ok((3, 'e'))), true, false);
    assert_eq!(ev, Some(Ev::PruneRemote(9)));
    assert!(!reset);
    // Then a message; it restarts the timer when it counts as activity.
    let (ev, reset) = select_write_event(None, Some(Some("m")), true, Some(1u8), Some(Ok((3, 'e'))), true, false);
    assert_eq!(ev, Some(Ev::Message("m")));
    assert!(reset);
    let (_, reset) = select_write_event::<&str, u8, char>(None, Some(Some("m")), false, None, None, false, false);
    assert!(!reset);
    // The end of the message stream stops the task.
    let (ev, _) = select_write_event::<&str, u8, char>(None, Some(None), true, Some(1), None, false, false);
    assert_eq!(ev, Some(Ev::Stop));
    // Then a completed write.
    let (ev, reset) = select_write_event(None, None, true, Some(1u8), Some(Ok((3, 'e'))), true, false);
    assert_eq!(ev, Some(Ev::WriteDone(1)));
    assert!(!reset);
    // Then a lane's event, which restarts the timer, or its failure.
    let (ev, reset) = select_write_event::<&str, u8, char>(None, None, true, None, Some(Ok((3, 'e'))), true, false);
    assert_eq!(ev, Some(Ev::Event { id: 3, response: 'e' }));
    assert!(reset);
    let (ev, reset) = select_write_event::<&str, u8, char>(None, None, true, None, Some(Err(4)), true, false);
    assert_eq!(ev, Some(Ev::LaneFailed(4)));
    assert!(!reset);
    // Last the timer: a timeout, or a stop when no lane is left.
    let (ev, _) = select_write_event::<&str, u8, char>(None, None, true, None, None, true, false);
    assert_eq!(ev, Some(Ev::Timeout));
    let (ev, _) = select_write_event::<&str, u8, char>(None, None, true, None, None, true, true);
    assert_eq!(ev, Some(Ev::Stop));
    let (ev, _) = select_write_event::<&str, u8, char>(None, None, true, None, None, false, true);
    assert_eq!(ev, None);
}
