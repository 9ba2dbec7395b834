use std::collections::HashMap;
use swim_core::map_dl_state::{MapDlEvent, MapDlState};

fn keys(state: &MapDlState<&'static str>) -> Vec<u64> {
    let mut k: Vec<u64> = state.map().keys().copied().collect();
    k.sort();
    k
}

fn filled(ks: &[u64]) -> MapDlState<&'static str> {
    let mut s = MapDlState::new();
    for k in ks {
        s.update(*k, "v");
    }
    s
}

#[test]
fn update_reports_previous_value() {
    let mut s = MapDlState::new();
    assert!(matches!(s.update(1, "a"), MapDlEvent::Update { key: 1, old: None }));
    assert!(matches!(s.update(1, "b"), MapDlEvent::Update { key: 1, old: Some("a") }));
    assert_eq!(s.map().get(&1), Some(&"b"));
}

#[test]
fn remove_reports_value() {
    let mut s = filled(&[1, 2]);
    assert!(matches!(s.remove(1), Some(MapDlEvent::Remove { key: 1, value: "v" })));
    assert!(s.remove(1).is_none());
    assert_eq!(keys(&s), vec![2]);
}

#[test]
fn clear_hands_back_entries() {
    let mut s = filled(&[1, 2]);
    let old = s.clear();
    let mut expected = HashMap::new();
    expected.insert(1, "v");
    expected.insert(2, "v");
    assert_eq!(old, expected);
    assert!(s.map().is_empty());
}

#[test]
fn take_keeps_smallest_keys() {
    let mut s = filled(&[5, 1, 4, 2, 3]);
    let events = s.take(2);
    assert_eq!(keys(&s), vec![1, 2]);
    let removed: Vec<u64> = events
        .iter()
        .map(|e| match e {
            MapDlEvent::Remove { key, .. } => *key,
            _ => panic!("unexpected event"),
        })
        .collect();
    assert_eq!(removed, vec![3, 4, 5]);
    // Taking more than there is changes nothing.
    assert!(s.take(10).is_empty());
    assert_eq!(keys(&s), vec![1, 2]);
}

#[test]
fn drop_removes_smallest_keys() {
    let mut s = filled(&[5, 1, 4, 2, 3]);
    let events = s.drop(2);
    assert_eq!(keys(&s), vec![3, 4, 5]);
    let removed: Vec<u64> = events
        .iter()
        .map(|e| match e {
            MapDlEvent::Remove { key, .. } => *key,
            _ => panic!("unexpected event"),
        })
        .collect();
    assert_eq!(removed, vec![1, 2]);
}

#[test]
fn drop_of_everything_clears() {
    let mut s = filled(&[1, 2]);
    let events = s.drop(2);
    assert_eq!(events.len(), 1);
    assert!(matches!(&events[0], MapDlEvent::Clear(m) if m.len() == 2));
    assert!(s.map().is_empty());
}

#[test]
fn new_keys_join_the_ordering() {
    // The ordered set of keys made by the first drop is kept up to date with
    // the map: keys added afterwards are in it, so a later take keeps the
    // smallest keys of the whole map.
    let mut s = filled(&[1, 2]);
    s.drop(1);
    s.update(5, "v");
    s.update(6, "v");
    let events = s.take(1);
    let removed: Vec<u64> = events
        .iter()
        .map(|e| match e {
            MapDlEvent::Remove { key, .. } => *key,
            _ => panic!("unexpected event"),
        })
        .collect();
    assert_eq!(removed, vec![5, 6]);
    assert_eq!(keys(&s), vec![2]);
}

#[test]
fn removed_keys_leave_the_ordering() {
    let mut s = filled(&[1, 2, 3, 4]);
    s.drop(1);
    s.remove(3);
    s.update(0, "v");
    let events = s.drop(2);
    let removed: Vec<u64> = events
        .iter()
        .map(|e| match e {
            MapDlEvent::Remove { key, .. } => *key,
            _ => panic!("unexpected event"),
        })
        .collect();
    assert_eq!(removed, vec![0, 2]);
    assert_eq!(keys(&s), vec![4]);
}
