use std::collections::HashMap;
use swim_core::map_store::{MapEventQueue, MapLaneEvent, MapOperation, MapStoreInner, OperationQueue};

type Store = MapStoreInner<i32, OperationQueue>;

fn content(store: &Store) -> HashMap<u64, i32> {
    store.get_map(|m: &HashMap<u64, i32>| m.clone())
}

#[test]
fn read_gives_back_update() {
    let mut store = Store::new(HashMap::new());
    store.update(1, 10);
    store.update(2, 20);
    assert_eq!(store.get(&1, |v: Option<&i32>| v.copied()), Some(10));
    store.update(1, 11);
    assert_eq!(store.get(&1, |v: Option<&i32>| v.copied()), Some(11));
    assert_eq!(store.get(&2, |v: Option<&i32>| v.copied()), Some(20));
    assert_eq!(store.get(&3, |v: Option<&i32>| v.copied()), None);
}

#[test]
fn changes_are_recorded_once() {
    let mut store = Store::new(HashMap::new());
    store.update(1, 10);
    let prev = store.read_with_prev(|p: Option<MapLaneEvent<i32>>, _m: &HashMap<u64, i32>| p);
    assert!(matches!(prev, Some(MapLaneEvent::Update(1, None))));
    let prev = store.read_with_prev(|p: Option<MapLaneEvent<i32>>, _m: &HashMap<u64, i32>| p);
    assert!(prev.is_none());
    store.update(1, 12);
    let prev = store.read_with_prev(|p: Option<MapLaneEvent<i32>>, _m: &HashMap<u64, i32>| p);
    assert!(matches!(prev, Some(MapLaneEvent::Update(1, Some(10)))));
}

#[test]
fn remove_undoes_update() {
    let mut initial = HashMap::new();
    initial.insert(7, 70);
    let mut store = Store::new(initial.clone());
    store.update(1, 10);
    store.remove(&1);
    assert_eq!(content(&store), initial);
    let prev = store.read_with_prev(|p: Option<MapLaneEvent<i32>>, _m: &HashMap<u64, i32>| p);
    assert!(matches!(prev, Some(MapLaneEvent::Remove(1, 10))));
    // Removing an absent key changes nothing and queues nothing more.
    store.remove(&1);
    let prev = store.read_with_prev(|p: Option<MapLaneEvent<i32>>, _m: &HashMap<u64, i32>| p);
    assert!(prev.is_none());
}

#[test]
fn clear_records_entries() {
    let mut store = Store::new(HashMap::new());
    store.update(1, 10);
    store.update(2, 20);
    store.clear();
    assert!(content(&store).is_empty());
    let prev = store.read_with_prev(|p: Option<MapLaneEvent<i32>>, _m: &HashMap<u64, i32>| p);
    match prev {
        Some(MapLaneEvent::Clear(m)) => assert_eq!(m.len(), 2),
        _ => panic!("expected a clear"),
    }
}

#[test]
fn queued_operations_come_out_in_order_with_current_values() {
    let mut store = Store::new(HashMap::new());
    store.update(1, 10);
    store.update(2, 20);
    store.update(1, 11);
    store.remove(&2);
    assert_eq!(store.pop_operation(), Some(MapOperation::Update { key: 1, value: 11 }));
    // The update of key 2 is passed over as the key is gone.
    assert_eq!(store.pop_operation(), Some(MapOperation::Update { key: 1, value: 11 }));
    assert_eq!(store.pop_operation(), Some(MapOperation::Remove { key: 2 }));
    assert_eq!(store.pop_operation(), None);
    store.clear();
    assert!(!MapEventQueue::<i32>::is_empty(store.queue()));
    assert_eq!(store.pop_operation(), Some(MapOperation::Clear));
    assert!(MapEventQueue::<i32>::is_empty(store.queue()));
}

#[test]
fn init_replaces_content_without_queueing() {
    let mut store = Store::new(HashMap::new());
    let mut m = HashMap::new();
    m.insert(3, 30);
    store.init(m.clone());
    assert_eq!(content(&store), m);
    assert_eq!(store.pop_operation(), None);
}

#[test]
fn operation_queue_direct_use() {
    let mut q = OperationQueue::default();
    let mut content = HashMap::new();
    content.insert(4u64, 40i32);
    MapEventQueue::<i32>::push(&mut q, MapOperation::Update { key: 4, value: () });
    MapEventQueue::<i32>::push(&mut q, MapOperation::Remove { key: 4 });
    assert_eq!(q.pop(&content), Some(MapOperation::Update { key: 4, value: 40 }));
    assert_eq!(q.pop(&content), Some(MapOperation::Remove { key: 4 }));
    assert_eq!(q.pop(&content), None);
}
