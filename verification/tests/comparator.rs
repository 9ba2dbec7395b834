use swim_core::comparator::{
    incremental_compare, EventStream, NumericValue, ParseError, ReadEvent, ValueValidator, Fed,
};

fn text(s: &str) -> ReadEvent {
    ReadEvent::TextValue(s.to_string())
}

fn int_event(n: i64) -> ReadEvent {
    ReadEvent::Number(NumericValue::Int(n))
}

fn attr(s: &str) -> ReadEvent {
    ReadEvent::StartAttribute(s.to_string())
}

fn stream(events: Vec<ReadEvent>) -> EventStream {
    EventStream::new(events.into_iter().map(Ok).collect())
}

/// The events of `@name(a: 1, b: 2, c: 3)` with the values of the slots given.
fn name_slots(a: i64, b: i64, c: i64) -> Vec<ReadEvent> {
    vec![
        attr("name"),
        text("a"),
        ReadEvent::Slot,
        int_event(a),
        text("b"),
        ReadEvent::Slot,
        int_event(b),
        text("c"),
        ReadEvent::Slot,
        int_event(c),
        ReadEvent::EndAttribute,
        ReadEvent::StartBody,
        ReadEvent::EndRecord,
    ]
}

#[test]
fn cmp_early_termination_invalid() {
    let first = vec![Ok(ReadEvent::Slot)];
    let second = vec![Ok(ReadEvent::Slot)];

    let mut first_iter = EventStream::new(first);
    let mut second_iter = EventStream::new(second);

    assert!(!incremental_compare(&mut first_iter, &mut second_iter));
}

#[test]
fn same_records_compare_equal() {
    let mut first = stream(name_slots(1, 2, 3));
    let mut second = stream(name_slots(1, 2, 3));
    assert!(incremental_compare(&mut first, &mut second));
    assert_eq!(first.next(), None);
    assert_eq!(second.next(), None);
}

#[test]
fn cmp_early_termination_simple() {
    // The events of "@name(a: 1, b: 2, c: 3)" and "@name(a:1, b: 4, c: 3)".
    let first_iter = &mut stream(name_slots(1, 2, 3));
    let second_iter = &mut stream(name_slots(1, 4, 3));

    assert!(!incremental_compare(first_iter, second_iter));
    assert_eq!(first_iter.next(), Some(Ok(ReadEvent::TextValue("c".to_string()))));
    assert_eq!(second_iter.next(), Some(Ok(ReadEvent::TextValue("c".to_string()))));
}

#[test]
fn cmp_early_termination_complex() {
    // The events of "@name(a: 1, b: 2)" and "@name(   {a: 3, b: 2}    )".
    let first = vec![
        attr("name"),
        text("a"),
        ReadEvent::Slot,
        int_event(1),
        text("b"),
        ReadEvent::Slot,
        int_event(2),
        ReadEvent::EndAttribute,
        ReadEvent::StartBody,
        ReadEvent::EndRecord,
    ];
    let second = vec![
        attr("name"),
        ReadEvent::StartBody,
        text("a"),
        ReadEvent::Slot,
        int_event(3),
        text("b"),
        ReadEvent::Slot,
        int_event(2),
        ReadEvent::EndRecord,
        ReadEvent::EndAttribute,
        ReadEvent::StartBody,
        ReadEvent::EndRecord,
    ];
    let first_iter = &mut stream(first);
    let second_iter = &mut stream(second);

    assert!(!incremental_compare(first_iter, second_iter));
    assert_eq!(first_iter.next(), Some(Ok(ReadEvent::TextValue("b".to_string()))));
    assert_eq!(second_iter.next(), Some(Ok(ReadEvent::TextValue("b".to_string()))));
}

#[test]
fn record_alone_in_attribute_is_flattened() {
    // @name(a: 1, b: 2) against @name({a: 1, b: 2})
    let first = vec![
        attr("name"),
        text("a"),
        ReadEvent::Slot,
        int_event(1),
        text("b"),
        ReadEvent::Slot,
        int_event(2),
        ReadEvent::EndAttribute,
        ReadEvent::StartBody,
        ReadEvent::EndRecord,
    ];
    let second = vec![
        attr("name"),
        ReadEvent::StartBody,
        text("a"),
        ReadEvent::Slot,
        int_event(1),
        text("b"),
        ReadEvent::Slot,
        int_event(2),
        ReadEvent::EndRecord,
        ReadEvent::EndAttribute,
        ReadEvent::StartBody,
        ReadEvent::EndRecord,
    ];
    assert!(incremental_compare(&mut stream(first), &mut stream(second)));
}

#[test]
fn record_beside_other_items_is_not_flattened() {
    // @name({a: 1}, 2) against @name(a: 1, 2)
    let first = vec![
        attr("name"),
        ReadEvent::StartBody,
        text("a"),
        ReadEvent::Slot,
        int_event(1),
        ReadEvent::EndRecord,
        int_event(2),
        ReadEvent::EndAttribute,
        ReadEvent::StartBody,
        ReadEvent::EndRecord,
    ];
    let second = vec![
        attr("name"),
        text("a"),
        ReadEvent::Slot,
        int_event(1),
        int_event(2),
        ReadEvent::EndAttribute,
        ReadEvent::StartBody,
        ReadEvent::EndRecord,
    ];
    assert!(!incremental_compare(&mut stream(first.clone()), &mut stream(second)));
    assert!(incremental_compare(&mut stream(first.clone()), &mut stream(first)));
}

#[test]
fn primitives_compare_by_value() {
    assert!(incremental_compare(&mut stream(vec![int_event(7)]), &mut stream(vec![int_event(7)])));
    assert!(!incremental_compare(&mut stream(vec![int_event(7)]), &mut stream(vec![int_event(8)])));
    assert!(!incremental_compare(
        &mut stream(vec![ReadEvent::Number(NumericValue::UInt(7))]),
        &mut stream(vec![int_event(7)])
    ));
    assert!(incremental_compare(
        &mut stream(vec![ReadEvent::Blob(vec![1, 2])]),
        &mut stream(vec![ReadEvent::Blob(vec![1, 2])])
    ));
    assert!(!incremental_compare(
        &mut stream(vec![ReadEvent::Blob(vec![1, 2])]),
        &mut stream(vec![ReadEvent::Blob(vec![1, 3])])
    ));
    assert!(incremental_compare(&mut stream(vec![text("x")]), &mut stream(vec![text("x")])));
    assert!(!incremental_compare(&mut stream(vec![text("x")]), &mut stream(vec![text("y")])));
}

#[test]
fn errors_and_truncated_streams_compare_unequal() {
    let mut first = EventStream::new(vec![Err(ParseError { offset: 3 })]);
    let mut second = EventStream::new(vec![Err(ParseError { offset: 3 })]);
    assert!(!incremental_compare(&mut first, &mut second));

    let truncated = vec![ReadEvent::StartBody, int_event(1)];
    assert!(!incremental_compare(&mut stream(truncated.clone()), &mut stream(truncated)));
}

#[test]
fn validator_rejects_misplaced_events() {
    let mut v = ValueValidator::new();
    assert_eq!(v.feed(&ReadEvent::EndRecord), Fed::Invalid);
    assert_eq!(v.feed(&ReadEvent::StartBody), Fed::Token(false));
    assert_eq!(v.feed(&ReadEvent::Slot), Fed::Invalid);
    assert_eq!(v.feed(&text("a")), Fed::Token(false));
    assert_eq!(v.feed(&ReadEvent::Slot), Fed::Token(false));
    assert_eq!(v.feed(&ReadEvent::EndRecord), Fed::Token(false));
    assert!(v.is_done());
    assert_eq!(v.feed(&int_event(1)), Fed::Invalid);
}

#[test]
fn comparison_is_symmetric() {
    let a = vec![attr("name"), text("a"), ReadEvent::Slot, int_event(1), ReadEvent::EndAttribute, ReadEvent::StartBody, ReadEvent::EndRecord];
    let b = vec![attr("name"), text("a"), ReadEvent::Slot, int_event(2), ReadEvent::EndAttribute, ReadEvent::StartBody, ReadEvent::EndRecord];
    let (mut a1, mut b1) = (stream(a.clone()), stream(b.clone()));
    let (mut b2, mut a2) = (stream(b), stream(a));
    assert_eq!(incremental_compare(&mut a1, &mut b1), incremental_compare(&mut b2, &mut a2));
    assert_eq!(a1.next(), a2.next());
    assert_eq!(b1.next(), b2.next());
}

#[test]
fn comparison_with_itself() {
    let valid = name_slots(1, 2, 3);
    assert!(incremental_compare(&mut stream(valid.clone()), &mut stream(valid)));
    let invalid = vec![ReadEvent::StartBody, ReadEvent::EndAttribute];
    assert!(!incremental_compare(&mut stream(invalid.clone()), &mut stream(invalid)));
}
