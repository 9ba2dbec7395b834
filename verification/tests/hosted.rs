use swim_core::hosted_map::{
    DlState, HostedMapDownlink, LifecycleCall, MapDownlinkConfig, MapMessage, MapNotification,
};
use swim_core::hosted_value::{HostedValueDownlink, ValueLifecycleCall, ValueNotification};
use swim_core::map_dl_state::MapDlEvent;

const CONFIG: MapDownlinkConfig = MapDownlinkConfig { events_when_not_synced: false, terminate_on_unlinked: true };
const EAGER: MapDownlinkConfig = MapDownlinkConfig { events_when_not_synced: true, terminate_on_unlinked: false };

#[test]
fn map_downlink_lifecycle_order() {
    let mut dl: HostedMapDownlink<i32> = HostedMapDownlink::new(CONFIG);
    assert!(matches!(dl.next_event(MapNotification::Linked), Some(LifecycleCall::OnLinked)));
    assert_eq!(dl.dl_state, DlState::Linked);
    // Before sync, changes are applied but not reported.
    assert!(dl.next_event(MapNotification::Event(MapMessage::Update { key: 1, value: 10 })).is_none());
    assert!(matches!(dl.next_event(MapNotification::Synced), Some(LifecycleCall::OnSynced)));
    match dl.next_event(MapNotification::Event(MapMessage::Update { key: 1, value: 11 })) {
        Some(LifecycleCall::OnChanges(es)) => {
            assert_eq!(es.len(), 1);
            assert!(matches!(es[0], MapDlEvent::Update { key: 1, old: Some(10) }));
        }
        _ => panic!("expected changes"),
    }
    match dl.next_event(MapNotification::Event(MapMessage::Remove { key: 1 })) {
        Some(LifecycleCall::OnChanges(es)) => assert!(matches!(es[0], MapDlEvent::Remove { key: 1, value: 11 })),
        _ => panic!("expected changes"),
    }
    // Removing an absent key reports nothing.
    assert!(dl.next_event(MapNotification::Event(MapMessage::Remove { key: 1 })).is_none());
    assert!(matches!(dl.next_event(MapNotification::Unlinked), Some(LifecycleCall::OnUnlinked)));
    assert_eq!(dl.dl_state, DlState::Stopped);
    assert!(!dl.receiving);
}

#[test]
fn map_downlink_take_and_drop() {
    let mut dl: HostedMapDownlink<i32> = HostedMapDownlink::new(EAGER);
    for k in 1..=5u64 {
        dl.next_event(MapNotification::Event(MapMessage::Update { key: k, value: k as i32 }));
    }
    match dl.next_event(MapNotification::Event(MapMessage::Take(3))) {
        Some(LifecycleCall::OnChanges(es)) => assert_eq!(es.len(), 2),
        _ => panic!("expected changes"),
    }
    match dl.next_event(MapNotification::Event(MapMessage::Drop(1))) {
        Some(LifecycleCall::OnChanges(es)) => assert!(matches!(es[0], MapDlEvent::Remove { key: 1, value: 1 })),
        _ => panic!("expected changes"),
    }
    let mut keys: Vec<u64> = dl.state.map().keys().copied().collect();
    keys.sort();
    assert_eq!(keys, vec![2, 3]);
    // Taking more than there is reports nothing.
    assert!(dl.next_event(MapNotification::Event(MapMessage::Take(10))).is_none());
    match dl.next_event(MapNotification::Event(MapMessage::Clear)) {
        Some(LifecycleCall::OnChanges(es)) => assert!(matches!(&es[0], MapDlEvent::Clear(m) if m.len() == 2)),
        _ => panic!("expected changes"),
    }
    assert!(matches!(dl.next_event(MapNotification::Failed), Some(LifecycleCall::OnFailed)));
    assert_eq!(dl.dl_state, DlState::Unlinked);
    assert!(dl.receiving);
}

#[test]
fn value_downlink_lifecycle_order() {
    let mut dl: HostedValueDownlink<i32> = HostedValueDownlink::new(CONFIG);
    assert_eq!(dl.next_event(ValueNotification::Linked), Some(ValueLifecycleCall::OnLinked));
    assert_eq!(dl.next_event(ValueNotification::Event(1)), None);
    assert_eq!(dl.value, Some(1));
    assert_eq!(dl.next_event(ValueNotification::Synced), Some(ValueLifecycleCall::OnSynced));
    assert_eq!(
        dl.next_event(ValueNotification::Event(2)),
        Some(ValueLifecycleCall::OnEventThenSet { previous: Some(1) })
    );
    assert_eq!(dl.next_event(ValueNotification::Unlinked), Some(ValueLifecycleCall::OnUnlinked));
    assert_eq!(dl.value, None);
    assert_eq!(dl.dl_state, DlState::Stopped);
}

#[test]
fn value_downlink_synced_without_value_is_silent() {
    let mut dl: HostedValueDownlink<i32> = HostedValueDownlink::new(EAGER);
    assert_eq!(dl.next_event(ValueNotification::Synced), None);
    assert_eq!(
        dl.next_event(ValueNotification::Event(5)),
        Some(ValueLifecycleCall::OnEventThenSet { previous: None })
    );
    assert_eq!(dl.next_event(ValueNotification::Failed), Some(ValueLifecycleCall::OnFailed));
    assert_eq!(dl.dl_state, DlState::Unlinked);
    assert!(dl.receiving);
}
