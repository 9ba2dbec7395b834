//! Incremental comparison of two Recon values, given as the streams of read
//! events that a parser produces for them.
//!
//! Each stream is checked by a validator as it is read, and the two streams
//! are compared item by item: the comparison stops at the first difference,
//! so that the events after it are left unread. A record that stands alone in
//! the body of an attribute, as in `@name({a: 1})`, is the same value as its
//! items written directly in the attribute, as in `@name(a: 1)`.

use vstd::prelude::*;

verus! {

/// A number read from a value.
#[derive(Debug, Clone, Copy, PartialEq, Eq, Structural)]
pub enum NumericValue {
    Int(i64),
    UInt(u64),
}

/// An event of the structural reading of a value.
#[derive(Debug, Clone, PartialEq)]
pub enum ReadEvent {
    Extant,
    TextValue(String),
    Number(NumericValue),
    Boolean(bool),
    Blob(Vec<u8>),
    StartAttribute(String),
    EndAttribute,
    StartBody,
    Slot,
    EndRecord,
}

/// A read event, with its text and bytes as sequences.
pub enum EventView {
    Extant,
    TextValue(Seq<char>),
    Number(NumericValue),
    Boolean(bool),
    Blob(Seq<u8>),
    StartAttribute(Seq<char>),
    EndAttribute,
    StartBody,
    Slot,
    EndRecord,
}

impl View for ReadEvent {
    type V = EventView;

    open spec fn view(&self) -> EventView {
        match self {
            ReadEvent::Extant => EventView::Extant,
            ReadEvent::TextValue(s) => EventView::TextValue(s@),
            ReadEvent::Number(n) => EventView::Number(*n),
            ReadEvent::Boolean(b) => EventView::Boolean(*b),
            ReadEvent::Blob(b) => EventView::Blob(b@),
            ReadEvent::StartAttribute(s) => EventView::StartAttribute(s@),
            ReadEvent::EndAttribute => EventView::EndAttribute,
            ReadEvent::StartBody => EventView::StartBody,
            ReadEvent::Slot => EventView::Slot,
            ReadEvent::EndRecord => EventView::EndRecord,
        }
    }
}

/// An error of the parser that produces the events, at an offset of its input.
#[derive(Debug, Clone, Copy, PartialEq, Eq, Structural)]
pub struct ParseError {
    pub offset: usize,
}

/// The events that a parser produces, read one at a time.
pub struct EventStream {
    /// The unread events, the next one last.
    pending: Vec<Result<ReadEvent, ParseError>>,
}

impl EventStream {
    /// The events that are still to be read, in order.
    pub closed spec fn remaining(&self) -> Seq<Result<ReadEvent, ParseError>> {
        Seq::new(self.pending@.len(), |i: int| self.pending@[self.pending@.len() - 1 - i])
    }

    /// A stream of the given events, in their order.
    pub fn new(events: Vec<Result<ReadEvent, ParseError>>) -> (res: EventStream)
        ensures
            res.remaining() == events@,
    {
        let ghost orig = events@;
        let mut events = events;
        let mut pending: Vec<Result<ReadEvent, ParseError>> = Vec::new();
        while events.len() > 0
            invariant
                events@.len() + pending@.len() == orig.len(),
                events@ == orig.take(events@.len() as int),
                forall|j: int|
                    0 <= j < pending@.len() ==> #[trigger] pending@[j] == orig[orig.len() - 1 - j],
            decreases events@.len(),
        {
            let ev = events.pop().unwrap();
            pending.push(ev);
            proof {
                assert(events@ =~= orig.take(events@.len() as int));
            }
        }
        let res = EventStream { pending };
        assert(res.remaining() =~= orig);
        res
    }

    /// The next event, if any is left.
    pub fn next(&mut self) -> (res: Option<Result<ReadEvent, ParseError>>)
        ensures
            old(self).remaining().len() == 0 ==> res is None && final(self).remaining() == old(self).remaining(),
            old(self).remaining().len() > 0 ==> res == Some(old(self).remaining()[0])
                && final(self).remaining() == old(self).remaining().drop_first(),
    {
        let res = self.pending.pop();
        proof {
            assert(self.remaining() =~= old(self).remaining().drop_first() || old(self).remaining().len() == 0);
            assert(old(self).remaining().len() == 0 ==> self.remaining() =~= old(self).remaining());
        }
        res
    }
}

/// What a validator has seen of the items of the frame it is in.
#[derive(Debug, Clone, Copy, PartialEq, Eq, Structural)]
pub enum ItemState {
    /// An attribute was just opened: nothing is in it yet.
    Fresh,
    /// The last item is complete, or there is none.
    Start,
    /// A value was read: it is an item, or the key of a slot if one follows.
    Value,
    /// A slot was read: its value is due.
    Slot,
}

/// A frame of a value that is being read.
#[derive(Debug, Clone, Copy, PartialEq, Eq, Structural)]
pub enum Frame {
    /// Between the attributes of a record and its body.
    Header,
    /// In the body of an attribute.
    Attr(ItemState),
    /// In the body of a record.
    Body(ItemState),
    /// In a record body opened first thing in an attribute: its items count
    /// as those of the attribute.
    Flat(ItemState),
}

/// The state of a validator: its open frames, whether a whole value was read,
/// and whether the last event closed a record body opened first thing in an
/// attribute.
pub struct ValidatorState {
    pub stack: Seq<Frame>,
    pub done: bool,
    pub after_flat: bool,
}

/// The state of a validator that has read nothing.
pub open spec fn initial_state() -> ValidatorState {
    ValidatorState { stack: Seq::empty(), done: false, after_flat: false }
}

/// The item state of a frame.
pub open spec fn item_of(f: Frame) -> ItemState {
    match f {
        Frame::Header => ItemState::Start,
        Frame::Attr(i) => i,
        Frame::Body(i) => i,
        Frame::Flat(i) => i,
    }
}

/// A frame with another item state.
pub open spec fn with_item(f: Frame, i: ItemState) -> Frame {
    match f {
        Frame::Header => Frame::Header,
        Frame::Attr(_) => Frame::Attr(i),
        Frame::Body(_) => Frame::Body(i),
        Frame::Flat(_) => Frame::Flat(i),
    }
}

/// The item state after a value: the value of a slot completes it, any other
/// value is an item of its own (or the key of a slot).
pub open spec fn after_value(i: ItemState) -> ItemState {
    match i {
        ItemState::Slot => ItemState::Start,
        _ => ItemState::Value,
    }
}

/// The state after a whole value was read in the innermost frame.
pub open spec fn value_done(stack: Seq<Frame>, after_flat: bool) -> ValidatorState {
    if stack.len() == 0 {
        ValidatorState { stack, done: true, after_flat }
    } else {
        ValidatorState {
            stack: stack.update(stack.len() - 1, with_item(stack.last(), after_value(item_of(stack.last())))),
            done: false,
            after_flat,
        }
    }
}

/// Whether a value may start here: at the top before any value, or in the
/// body of an attribute or of a record.
pub open spec fn value_may_start(stack: Seq<Frame>) -> bool {
    stack.len() == 0 || !(stack.last() is Header)
}

/// Whether an event starts and ends a value of its own.
pub open spec fn is_primitive(ev: EventView) -> bool {
    ev is Extant || ev is TextValue || ev is Number || ev is Boolean || ev is Blob
}

/// One event read by a validator: `None` where the event cannot stand here;
/// else the next state, and whether the event counts in the comparison
/// (`Some`) or not (`None`, for the brace that opens a record body first
/// thing in an attribute, and the one that closes it). An event that counts
/// carries a flag that is set when it follows such a closed body without
/// closing the attribute: the record was not the only item of the attribute.
pub open spec fn step(st: ValidatorState, ev: EventView) -> Option<(ValidatorState, Option<bool>)> {
    let s = st.stack;
    let n = s.len();
    let flag = st.after_flat && !(ev is EndAttribute);
    if st.done {
        None
    } else if is_primitive(ev) {
        if value_may_start(s) {
            Some((value_done(s, false), Some(flag)))
        } else {
            None
        }
    } else {
        match ev {
            EventView::StartAttribute(_) => {
                if n > 0 && s.last() is Header {
                    Some((ValidatorState { stack: s.push(Frame::Attr(ItemState::Fresh)), done: false, after_flat: false }, Some(flag)))
                } else {
                    Some((ValidatorState {
                        stack: s.push(Frame::Header).push(Frame::Attr(ItemState::Fresh)),
                        done: false,
                        after_flat: false,
                    }, Some(flag)))
                }
            },
            EventView::EndAttribute => {
                if n > 0 && s.last() is Attr {
                    Some((ValidatorState { stack: s.drop_last(), done: false, after_flat: false }, Some(flag)))
                } else {
                    None
                }
            },
            EventView::StartBody => {
                if n > 0 && s.last() == Frame::Attr(ItemState::Fresh) {
                    Some((ValidatorState { stack: s.push(Frame::Flat(ItemState::Start)), done: false, after_flat: false }, None))
                } else if n > 0 && s.last() is Header {
                    Some((ValidatorState { stack: s.update(n - 1, Frame::Body(ItemState::Start)), done: false, after_flat: false }, Some(flag)))
                } else {
                    Some((ValidatorState { stack: s.push(Frame::Body(ItemState::Start)), done: false, after_flat: false }, Some(flag)))
                }
            },
            EventView::Slot => {
                if n > 0 && !(s.last() is Header) && item_of(s.last()) == ItemState::Value {
                    Some((ValidatorState {
                        stack: s.update(n - 1, with_item(s.last(), ItemState::Slot)),
                        done: false,
                        after_flat: false,
                    }, Some(flag)))
                } else {
                    None
                }
            },
            EventView::EndRecord => {
                if n > 0 && s.last() is Body {
                    Some((value_done(s.drop_last(), false), Some(flag)))
                } else if n > 0 && s.last() is Flat {
                    Some((value_done(s.drop_last(), true), None))
                } else {
                    None
                }
            },
            _ => None,
        }
    }
}

/// What a validator made of an event.
#[derive(Debug, Clone, Copy, PartialEq, Eq, Structural)]
pub enum Fed {
    /// The event cannot stand here.
    Invalid,
    /// The event was accepted and does not count in the comparison.
    Dropped,
    /// The event was accepted and counts in the comparison, with the flag.
    Token(bool),
}

/// Checks that a stream of events describes a value, one event at a time.
pub struct ValueValidator {
    pub stack: Vec<Frame>,
    pub done: bool,
    pub after_flat: bool,
}

impl View for ValueValidator {
    type V = ValidatorState;

    open spec fn view(&self) -> ValidatorState {
        ValidatorState { stack: self.stack@, done: self.done, after_flat: self.after_flat }
    }
}

fn same_bytes(a: &Vec<u8>, b: &Vec<u8>) -> (res: bool)
    ensures
        res == (a@ == b@),
{
    if a.len() != b.len() {
        return false;
    }
    let mut i: usize = 0;
    while i < a.len()
        invariant
            a@.len() == b@.len(),
            i <= a@.len(),
            forall|j: int| 0 <= j < i ==> a@[j] == b@[j],
        decreases a@.len() - i,
    {
        if a[i] != b[i] {
            return false;
        }
        i += 1;
    }
    assert(a@ =~= b@);
    true
}

fn same_text(a: &String, b: &String) -> (res: bool)
    ensures
        res == (a@ == b@),
{
    a.eq(b)
}

/// Whether two events are the same.
pub fn same_event(a: &ReadEvent, b: &ReadEvent) -> (res: bool)
    ensures
        res == (a@ == b@),
{
    match (a, b) {
        (ReadEvent::Extant, ReadEvent::Extant) => true,
        (ReadEvent::TextValue(x), ReadEvent::TextValue(y)) => same_text(x, y),
        (ReadEvent::Number(x), ReadEvent::Number(y)) => *x == *y,
        (ReadEvent::Boolean(x), ReadEvent::Boolean(y)) => *x == *y,
        (ReadEvent::Blob(x), ReadEvent::Blob(y)) => same_bytes(x, y),
        (ReadEvent::StartAttribute(x), ReadEvent::StartAttribute(y)) => same_text(x, y),
        (ReadEvent::EndAttribute, ReadEvent::EndAttribute) => true,
        (ReadEvent::StartBody, ReadEvent::StartBody) => true,
        (ReadEvent::Slot, ReadEvent::Slot) => true,
        (ReadEvent::EndRecord, ReadEvent::EndRecord) => true,
        _ => false,
    }
}

impl ValueValidator {
    /// A validator that has read nothing.
    pub fn new() -> (res: ValueValidator)
        ensures
            res@ == initial_state(),
    {
        ValueValidator { stack: Vec::new(), done: false, after_flat: false }
    }

    /// Whether a whole value was read.
    pub fn is_done(&self) -> (res: bool)
        ensures
            res == self@.done,
    {
        self.done
    }

    fn complete_value(&mut self, after_flat: bool)
        ensures
            final(self)@ == value_done(old(self).stack@, after_flat),
    {
        let n = self.stack.len();
        if n == 0 {
            self.done = true;
        } else {
            let top = self.stack[n - 1];
            let item = match top {
                Frame::Header => ItemState::Start,
                Frame::Attr(i) => i,
                Frame::Body(i) => i,
                Frame::Flat(i) => i,
            };
            let next = match item {
                ItemState::Slot => ItemState::Start,
                _ => ItemState::Value,
            };
            let frame = match top {
                Frame::Header => Frame::Header,
                Frame::Attr(_) => Frame::Attr(next),
                Frame::Body(_) => Frame::Body(next),
                Frame::Flat(_) => Frame::Flat(next),
            };
            self.stack.set(n - 1, frame);
            self.done = false;
        }
        self.after_flat = after_flat;
        proof {
            if n > 0 {
                assert(self.stack@ =~= old(self).stack@.update(n - 1, with_item(old(self).stack@.last(), after_value(item_of(old(self).stack@.last())))));
            }
        }
    }

    /// Reads one event.
    pub fn feed(&mut self, ev: &ReadEvent) -> (res: Fed)
        ensures
            match step(old(self)@, ev@) {
                None => res == Fed::Invalid,
                Some((st, tok)) => final(self)@ == st && match tok {
                    None => res == Fed::Dropped,
                    Some(flag) => res == Fed::Token(flag),
                },
            },
    {
        let n = self.stack.len();
        let ends_attr = match ev {
            ReadEvent::EndAttribute => true,
            _ => false,
        };
        let flag = self.after_flat && !ends_attr;
        if self.done {
            return Fed::Invalid;
        }
        let header_on_top = n > 0 && self.stack[n - 1] == Frame::Header;
        match ev {
            ReadEvent::Extant | ReadEvent::TextValue(_) | ReadEvent::Number(_) | ReadEvent::Boolean(_) | ReadEvent::Blob(_) => {
                if header_on_top {
                    Fed::Invalid
                } else {
                    self.complete_value(false);
                    Fed::Token(flag)
                }
            },
            ReadEvent::StartAttribute(_) => {
                if !header_on_top {
                    self.stack.push(Frame::Header);
                }
                self.stack.push(Frame::Attr(ItemState::Fresh));
                self.after_flat = false;
                Fed::Token(flag)
            },
            ReadEvent::EndAttribute => {
                if n > 0 && matches!(self.stack[n - 1], Frame::Attr(_)) {
                    self.stack.pop();
                    self.after_flat = false;
                    Fed::Token(flag)
                } else {
                    Fed::Invalid
                }
            },
            ReadEvent::StartBody => {
                if n > 0 && self.stack[n - 1] == Frame::Attr(ItemState::Fresh) {
                    self.stack.push(Frame::Flat(ItemState::Start));
                    self.after_flat = false;
                    Fed::Dropped
                } else if header_on_top {
                    self.stack.set(n - 1, Frame::Body(ItemState::Start));
                    self.after_flat = false;
                    Fed::Token(flag)
                } else {
                    self.stack.push(Frame::Body(ItemState::Start));
                    self.after_flat = false;
                    Fed::Token(flag)
                }
            },
            ReadEvent::Slot => {
                if n == 0 || header_on_top {
                    return Fed::Invalid;
                }
                let top = self.stack[n - 1];
                match top {
                    Frame::Attr(ItemState::Value) => {
                        self.stack.set(n - 1, Frame::Attr(ItemState::Slot));
                    },
                    Frame::Body(ItemState::Value) => {
                        self.stack.set(n - 1, Frame::Body(ItemState::Slot));
                    },
                    Frame::Flat(ItemState::Value) => {
                        self.stack.set(n - 1, Frame::Flat(ItemState::Slot));
                    },
                    _ => {
                        return Fed::Invalid;
                    },
                }
                self.after_flat = false;
                Fed::Token(flag)
            },
            ReadEvent::EndRecord => {
                if n > 0 && matches!(self.stack[n - 1], Frame::Body(_)) {
                    self.stack.pop();
                    self.complete_value(false);
                    Fed::Token(flag)
                } else if n > 0 && matches!(self.stack[n - 1], Frame::Flat(_)) {
                    self.stack.pop();
                    self.complete_value(true);
                    Fed::Dropped
                } else {
                    Fed::Invalid
                }
            },
        }
    }
}

/// The next event of a stream that counts in the comparison, with its flag,
/// read by a validator from the given state: `None` where the stream ends,
/// holds an error, or holds an event that cannot stand where it is. Also
/// gives the number of events read and the validator's state afterwards.
pub open spec fn pull(s: Seq<Result<ReadEvent, ParseError>>, st: ValidatorState) -> (Option<(bool, EventView)>, nat, ValidatorState)
    decreases s.len(),
{
    if s.len() == 0 {
        (None, 0, st)
    } else {
        match s[0] {
            Err(_) => (None, 1, st),
            Ok(ev) => match step(st, ev@) {
                None => (None, 1, st),
                Some((next, Some(flag))) => (Some((flag, ev@)), 1, next),
                Some((next, None)) => {
                    let r = pull(s.drop_first(), next);
                    (r.0, r.1 + 1, r.2)
                },
            },
        }
    }
}

/// The comparison of two streams from the given validator states: whether
/// both describe the same value, and the numbers of events read from each.
/// It stops at the first pair of counted events that differ, or that do not
/// both end a value; at an error, at an event that cannot stand where it is,
/// and where a stream ends before its value does.
pub open spec fn compare_from(
    s1: Seq<Result<ReadEvent, ParseError>>,
    s2: Seq<Result<ReadEvent, ParseError>>,
    st1: ValidatorState,
    st2: ValidatorState,
) -> (bool, nat, nat)
    decreases s1.len(),
{
    let (p1, k1, n1) = pull(s1, st1);
    let (p2, k2, n2) = pull(s2, st2);
    match (p1, p2) {
        (Some((f1, e1)), Some((f2, e2))) => {
            if f1 == f2 && e1 == e2 {
                if n1.done && n2.done {
                    (true, k1, k2)
                } else if n1.done || n2.done {
                    (false, k1, k2)
                } else if 0 < k1 <= s1.len() {
                    let r = compare_from(s1.skip(k1 as int), s2.skip(k2 as int), n1, n2);
                    (r.0, k1 + r.1, k2 + r.2)
                } else {
                    (false, k1, k2)
                }
            } else {
                (false, k1, k2)
            }
        },
        _ => (false, k1, k2),
    }
}

/// The comparison of two whole streams.
pub open spec fn spec_compare(
    s1: Seq<Result<ReadEvent, ParseError>>,
    s2: Seq<Result<ReadEvent, ParseError>>,
) -> (bool, nat, nat) {
    compare_from(s1, s2, initial_state(), initial_state())
}

proof fn lemma_pull_bounds(s: Seq<Result<ReadEvent, ParseError>>, st: ValidatorState)
    ensures
        pull(s, st).1 <= s.len(),
        pull(s, st).0 is Some ==> 0 < pull(s, st).1,
    decreases s.len(),
{
    if s.len() > 0 {
        match s[0] {
            Ok(ev) => match step(st, ev@) {
                Some((next, None)) => lemma_pull_bounds(s.drop_first(), next),
                _ => {},
            },
            Err(_) => {},
        }
    }
}

proof fn lemma_compare_symmetric(
    s1: Seq<Result<ReadEvent, ParseError>>,
    s2: Seq<Result<ReadEvent, ParseError>>,
    st1: ValidatorState,
    st2: ValidatorState,
)
    ensures
        compare_from(s1, s2, st1, st2).0 == compare_from(s2, s1, st2, st1).0,
        compare_from(s1, s2, st1, st2).1 == compare_from(s2, s1, st2, st1).2,
        compare_from(s1, s2, st1, st2).2 == compare_from(s2, s1, st2, st1).1,
    decreases s1.len(),
{
    lemma_pull_bounds(s1, st1);
    lemma_pull_bounds(s2, st2);
    let (p1, k1, n1) = pull(s1, st1);
    let (p2, k2, n2) = pull(s2, st2);
    if p1 is Some && p2 is Some && p1 == p2 && !n1.done && !n2.done {
        lemma_compare_symmetric(s1.skip(k1 as int), s2.skip(k2 as int), n1, n2);
    }
}

/// The comparison is symmetric: two streams compare as they do the other
/// way round, and each is read as far.
pub proof fn comparison_is_symmetric(s1: Seq<Result<ReadEvent, ParseError>>, s2: Seq<Result<ReadEvent, ParseError>>)
    ensures
        spec_compare(s1, s2).0 == spec_compare(s2, s1).0,
        spec_compare(s1, s2).1 == spec_compare(s2, s1).2,
        spec_compare(s1, s2).2 == spec_compare(s2, s1).1,
{
    lemma_compare_symmetric(s1, s2, initial_state(), initial_state());
}

/// Whether a stream, read by a validator from the given state, goes on to
/// end a whole value without an error or a misplaced event.
pub open spec fn describes_value(s: Seq<Result<ReadEvent, ParseError>>, st: ValidatorState) -> bool
    decreases s.len(),
{
    let (p, k, n) = pull(s, st);
    match p {
        Some(_) => if n.done {
            true
        } else if 0 < k <= s.len() {
            describes_value(s.skip(k as int), n)
        } else {
            false
        },
        None => false,
    }
}

proof fn lemma_compare_self(s: Seq<Result<ReadEvent, ParseError>>, st: ValidatorState)
    ensures
        compare_from(s, s, st, st).0 == describes_value(s, st),
    decreases s.len(),
{
    let (p, k, n) = pull(s, st);
    if p is Some && !n.done && 0 < k <= s.len() {
        lemma_compare_self(s.skip(k as int), n);
    }
}

/// A stream compares equal to itself exactly when it describes a whole
/// value.
pub proof fn comparison_with_itself(s: Seq<Result<ReadEvent, ParseError>>)
    ensures
        spec_compare(s, s).0 == describes_value(s, initial_state()),
{
    lemma_compare_self(s, initial_state());
}

/// Whether an event always counts in the comparison where it is accepted:
/// a primitive value, or the start of an attribute with its name.
pub open spec fn always_counts(ev: EventView) -> bool {
    is_primitive(ev) || ev is StartAttribute
}

/// Whether two streams agree up to position `i`, where they hold two
/// different events that always count: values, or attributes' names.
pub open spec fn first_difference_counts(
    s1: Seq<Result<ReadEvent, ParseError>>,
    s2: Seq<Result<ReadEvent, ParseError>>,
    i: int,
) -> bool {
    &&& 0 <= i < s1.len()
    &&& i < s2.len()
    &&& s1.take(i) == s2.take(i)
    &&& s1[i] matches Ok(x) && s2[i] matches Ok(y) && always_counts(x@) && always_counts(y@) && x@ != y@
}

/// Reading the next counted event of two streams that first differ in events
/// that always count, from the same state: if it stops before the
/// difference, both give the same; else it does not give the same counted
/// event for both.
proof fn lemma_pull_first_difference(
    s1: Seq<Result<ReadEvent, ParseError>>,
    s2: Seq<Result<ReadEvent, ParseError>>,
    st: ValidatorState,
    i: int,
)
    requires
        first_difference_counts(s1, s2, i),
    ensures
        pull(s1, st).1 <= i ==> pull(s1, st) == pull(s2, st),
        pull(s1, st).1 > i ==> !(pull(s1, st).0 is Some && pull(s1, st).0 == pull(s2, st).0),
    decreases s1.len(),
{
    if i == 0 {
        assert(s1[0] is Ok);
    } else {
        assert(s1[0] == s1.take(i)[0]);
        assert(s2[0] == s2.take(i)[0]);
        assert(s1[0] == s2[0]);
        match s1[0] {
            Ok(ev) => match step(st, ev@) {
                Some((next, None)) => {
                    let t1 = s1.drop_first();
                    let t2 = s2.drop_first();
                    assert(t1.take(i - 1) =~= s1.take(i).drop_first());
                    assert(t2.take(i - 1) =~= s2.take(i).drop_first());
                    assert(t1[i - 1] == s1[i]);
                    assert(t2[i - 1] == s2[i]);
                    lemma_pull_first_difference(t1, t2, next, i - 1);
                },
                _ => {},
            },
            Err(_) => {},
        }
    }
}

proof fn lemma_compare_first_difference(
    s1: Seq<Result<ReadEvent, ParseError>>,
    s2: Seq<Result<ReadEvent, ParseError>>,
    st: ValidatorState,
    i: int,
)
    requires
        first_difference_counts(s1, s2, i),
    ensures
        compare_from(s1, s2, st, st).0 ==> compare_from(s1, s2, st, st).1 <= i,
    decreases s1.len(),
{
    lemma_pull_first_difference(s1, s2, st, i);
    let (p1, k1, n1) = pull(s1, st);
    let (p2, k2, n2) = pull(s2, st);
    if k1 <= i && p1 is Some && !n1.done && 0 < k1 <= s1.len() {
        let t1 = s1.skip(k1 as int);
        let t2 = s2.skip(k2 as int);
        let j = i - k1;
        assert(t1.take(j) =~= s1.take(i).skip(k1 as int));
        assert(t2.take(j) =~= s2.take(i).skip(k1 as int));
        assert(t1[j] == s1[i]);
        assert(t2[j] == s2[i]);
        lemma_compare_first_difference(t1, t2, n1, j);
    }
}

/// Attribute names and primitive values count in the comparison: two streams
/// that agree up to a point where they hold different values or attributes
/// of different names compare equal only when both values ended before it,
/// so that the comparison did not read that far. In particular, two values
/// that open with attributes of different names, or that are different
/// primitive values, are never equal.
pub proof fn differing_values_and_names_differ(
    s1: Seq<Result<ReadEvent, ParseError>>,
    s2: Seq<Result<ReadEvent, ParseError>>,
    i: int,
)
    requires
        first_difference_counts(s1, s2, i),
    ensures
        spec_compare(s1, s2).0 ==> spec_compare(s1, s2).1 <= i,
        i == 0 ==> !spec_compare(s1, s2).0,
{
    lemma_compare_first_difference(s1, s2, initial_state(), i);
    lemma_pull_bounds(s1, initial_state());
}

fn pull_token(events: &mut EventStream, v: &mut ValueValidator) -> (res: Option<(bool, ReadEvent)>)
    ensures
        final(events).remaining() == old(events).remaining().skip(pull(old(events).remaining(), old(v)@).1 as int),
        pull(old(events).remaining(), old(v)@).0 is Some ==> final(v)@ == pull(old(events).remaining(), old(v)@).2,
        match pull(old(events).remaining(), old(v)@).0 {
            None => res is None,
            Some((f, e)) => res matches Some((g, x)) && g == f && x@ == e,
        },
{
    let ghost s0 = events.remaining();
    let ghost st0 = v@;
    let ghost mut read: nat = 0;
    loop
        invariant
            s0 == old(events).remaining(),
            st0 == old(v)@,
            read <= s0.len(),
            events.remaining() == s0.skip(read as int),
            pull(s0, st0).0 == pull(events.remaining(), v@).0,
            pull(s0, st0).1 == read + pull(events.remaining(), v@).1,
            pull(s0, st0).2 == pull(events.remaining(), v@).2,
        decreases s0.len() - read,
    {
        let ghost before = events.remaining();
        let next = events.next();
        match next {
            None => {
                return None;
            },
            Some(Err(_)) => {
                proof {
                    assert(events.remaining() =~= s0.skip(read + 1 as int));
                }
                return None;
            },
            Some(Ok(ev)) => {
                match v.feed(&ev) {
                    Fed::Invalid => {
                        proof {
                            assert(events.remaining() =~= s0.skip(read + 1 as int));
                        }
                        return None;
                    },
                    Fed::Token(flag) => {
                        proof {
                            assert(events.remaining() =~= s0.skip(read + 1 as int));
                        }
                        return Some((flag, ev));
                    },
                    Fed::Dropped => {
                        proof {
                            assert(events.remaining() =~= before.drop_first());
                            assert(events.remaining() =~= s0.skip(read + 1 as int));
                            read = read + 1;
                        }
                    },
                }
            },
        }
    }
}

/// Compares the values that two event streams describe, reading both only as
/// far as needed: returns `false` at the first difference, and leaves the
/// events after it unread.
pub fn incremental_compare(first: &mut EventStream, second: &mut EventStream) -> (res: bool)
    ensures
        ({
            let r = spec_compare(old(first).remaining(), old(second).remaining());
            &&& res == r.0
            &&& final(first).remaining() == old(first).remaining().skip(r.1 as int)
            &&& final(second).remaining() == old(second).remaining().skip(r.2 as int)
        }),
{
    let ghost s1 = first.remaining();
    let ghost s2 = second.remaining();
    assert(s1 == old(first).remaining());
    assert(s2 == old(second).remaining());
    let ghost mut c1: nat = 0;
    let ghost mut c2: nat = 0;
    let mut v1 = ValueValidator::new();
    let mut v2 = ValueValidator::new();
    loop
        invariant
            s1 == old(first).remaining(),
            s2 == old(second).remaining(),
            c1 <= s1.len(),
            c2 <= s2.len(),
            first.remaining() == s1.skip(c1 as int),
            second.remaining() == s2.skip(c2 as int),
            spec_compare(s1, s2).0 == compare_from(first.remaining(), second.remaining(), v1@, v2@).0,
            spec_compare(s1, s2).1 == c1 + compare_from(first.remaining(), second.remaining(), v1@, v2@).1,
            spec_compare(s1, s2).2 == c2 + compare_from(first.remaining(), second.remaining(), v1@, v2@).2,
        decreases s1.len() - c1,
    {
        let ghost r1 = first.remaining();
        let ghost r2 = second.remaining();
        let ghost st1 = v1@;
        let ghost st2 = v2@;
        proof {
            lemma_pull_bounds(r1, st1);
            lemma_pull_bounds(r2, st2);
        }
        let t1 = pull_token(first, &mut v1);
        let t2 = pull_token(second, &mut v2);
        proof {
            let k1 = pull(r1, st1).1;
            let k2 = pull(r2, st2).1;
            assert(s1.skip(c1 as int).skip(k1 as int) =~= s1.skip((c1 + k1) as int));
            assert(s2.skip(c2 as int).skip(k2 as int) =~= s2.skip((c2 + k2) as int));
        }
        match (t1, t2) {
            (Some((f1, e1)), Some((f2, e2))) => {
                if f1 != f2 || !same_event(&e1, &e2) {
                    return false;
                }
                let d1 = v1.is_done();
                let d2 = v2.is_done();
                if d1 && d2 {
                    return true;
                }
                if d1 || d2 {
                    return false;
                }
                proof {
                    let k1 = pull(r1, st1).1;
                    let k2 = pull(r2, st2).1;
                    c1 = c1 + k1;
                    c2 = c2 + k2;
                }
            },
            _ => {
                return false;
            },
        }
    }
}

} // verus!
