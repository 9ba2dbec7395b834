//! The store behind a map lane: its content, the event of the last change
//! and a queue of operations that are waiting to be sent to the lane's uplinks.

use vstd::prelude::*;
use std::collections::HashMap;

verus! {

broadcast use vstd::std_specs::hash::group_hash_axioms;

/// An operation on a map.
#[derive(Debug, Clone, PartialEq, Eq)]
pub enum MapOperation<K, V> {
    Update { key: K, value: V },
    Remove { key: K },
    Clear,
}

/// A change of the content of a map lane, with what the change replaced.
#[derive(Debug)]
pub enum MapLaneEvent<V> {
    /// The map was cleared; holds the entries it had.
    Clear(HashMap<u64, V>),
    /// A key was updated; holds its previous value, if any.
    Update(u64, Option<V>),
    /// A key was removed; holds its value.
    Remove(u64, V),
}

/// The queue of operations that a map store keeps for its uplinks. The spec
/// functions relate the queue before an operation to the queue after it.
pub trait MapEventQueue<V>: Default {
    /// What the queue hands out.
    type Output;

    /// Whether `after` is the queue after `action` was pushed.
    spec fn spec_pushed(&self, action: MapOperation<u64, ()>, after: Self) -> bool;

    /// Whether the queue is empty.
    spec fn spec_is_empty(&self) -> bool;

    /// Whether `after` is the queue after popping `out`, given the map's content.
    spec fn spec_popped(&self, content: Map<u64, V>, after: Self, out: Option<Self::Output>) -> bool;

    fn push(&mut self, action: MapOperation<u64, ()>)
        ensures
            old(self).spec_pushed(action, *final(self));

    fn is_empty(&self) -> (res: bool)
        ensures
            res == self.spec_is_empty();

    fn pop(&mut self, content: &HashMap<u64, V>) -> (res: Option<Self::Output>)
        ensures
            old(self).spec_popped(content@, *final(self), res);
}

/// A queue that hands out the operations in the order they were pushed. An
/// update is handed out with the value that its key has when it is popped;
/// an update of a key that is no longer in the map is passed over.
#[derive(Debug)]
pub struct OperationQueue {
    ops: Vec<MapOperation<u64, ()>>,
}

impl View for OperationQueue {
    type V = Seq<MapOperation<u64, ()>>;

    closed spec fn view(&self) -> Seq<MapOperation<u64, ()>> {
        self.ops@
    }
}

impl Default for OperationQueue {
    fn default() -> (res: Self)
        ensures
            res@ == Seq::<MapOperation<u64, ()>>::empty(),
    {
        OperationQueue { ops: Vec::new() }
    }
}

/// The operations left, and the one handed out, when popping from the given
/// operations with the given content.
pub open spec fn pop_from<V>(ops: Seq<MapOperation<u64, ()>>, content: Map<u64, V>)
    -> (Seq<MapOperation<u64, ()>>, Option<MapOperation<u64, V>>)
    decreases ops.len(),
{
    if ops.len() == 0 {
        (ops, None)
    } else {
        match ops[0] {
            MapOperation::Update { key, .. } => if content.contains_key(key) {
                (ops.drop_first(), Some(MapOperation::Update { key, value: content[key] }))
            } else {
                pop_from(ops.drop_first(), content)
            },
            MapOperation::Remove { key } => (ops.drop_first(), Some(MapOperation::Remove { key })),
            MapOperation::Clear => (ops.drop_first(), Some(MapOperation::Clear)),
        }
    }
}

/// Operations come out in the order they went in: pushing an operation at
/// the back changes nothing of what is popped first, when something is;
/// the pushed operation stays at the back.
pub proof fn push_keeps_front<V>(ops: Seq<MapOperation<u64, ()>>, op: MapOperation<u64, ()>, content: Map<u64, V>)
    requires
        pop_from(ops, content).1 is Some,
    ensures
        pop_from(ops.push(op), content).1 == pop_from(ops, content).1,
        pop_from(ops.push(op), content).0 == pop_from(ops, content).0.push(op),
    decreases ops.len(),
{
    assert(ops.push(op).drop_first() =~= ops.drop_first().push(op));
    match ops[0] {
        MapOperation::Update { key, .. } => {
            if !content.contains_key(key) {
                push_keeps_front(ops.drop_first(), op, content);
            }
        },
        _ => {},
    }
}

impl<V: Copy> MapEventQueue<V> for OperationQueue {
    type Output = MapOperation<u64, V>;

    open spec fn spec_pushed(&self, action: MapOperation<u64, ()>, after: Self) -> bool {
        after@ == self@.push(action)
    }

    open spec fn spec_is_empty(&self) -> bool {
        self@.len() == 0
    }

    open spec fn spec_popped(&self, content: Map<u64, V>, after: Self, out: Option<MapOperation<u64, V>>) -> bool {
        (after@, out) == pop_from(self@, content)
    }

    fn push(&mut self, action: MapOperation<u64, ()>) {
        self.ops.push(action);
    }

    fn is_empty(&self) -> (res: bool) {
        self.ops.len() == 0
    }

    fn pop(&mut self, content: &HashMap<u64, V>) -> (res: Option<MapOperation<u64, V>>) {
        let ghost orig = self.ops@;
        while self.ops.len() > 0
            invariant
                orig == old(self).ops@,
                pop_from(orig, content@) == pop_from(self.ops@, content@),
            decreases self.ops@.len(),
        {
            let ghost before = self.ops@;
            let op = self.ops.remove(0);
            proof {
                assert(self.ops@ =~= before.drop_first());
            }
            match op {
                MapOperation::Update { key, .. } => {
                    match content.get(&key) {
                        Some(v) => {
                            return Some(MapOperation::Update { key, value: *v });
                        },
                        None => {},
                    }
                },
                MapOperation::Remove { key } => {
                    return Some(MapOperation::Remove { key });
                },
                MapOperation::Clear => {
                    return Some(MapOperation::Clear);
                },
            }
        }
        None
    }
}

/// The content of a map lane, the event of its last change and the queue of
/// operations for its uplinks.
#[derive(Debug)]
pub struct MapStoreInner<V, Q> {
    content: HashMap<u64, V>,
    previous: Option<MapLaneEvent<V>>,
    queue: Q,
}

impl<V, Q> MapStoreInner<V, Q> {
    /// The entries of the store.
    pub closed spec fn spec_content(&self) -> Map<u64, V> {
        self.content@
    }

    /// The map that holds the entries of the store.
    pub closed spec fn spec_content_map(&self) -> HashMap<u64, V> {
        self.content
    }

    /// The event of the last change that was not read yet.
    pub closed spec fn spec_previous(&self) -> Option<MapLaneEvent<V>> {
        self.previous
    }

    /// The queue of operations.
    pub closed spec fn spec_queue(&self) -> Q {
        self.queue
    }
}

/// Whether an event records a clear of the given entries.
pub open spec fn is_clear_of<V>(event: Option<MapLaneEvent<V>>, entries: Map<u64, V>) -> bool {
    event matches Some(MapLaneEvent::Clear(m)) && m@ == entries
}

impl<V, Q: MapEventQueue<V>> MapStoreInner<V, Q> {
    /// A store with the given content, no recorded change and the queue's
    /// default value.
    pub fn new(content: HashMap<u64, V>) -> (res: Self)
        ensures
            res.spec_content() == content@,
            res.spec_previous() is None,
            call_ensures(Q::default, (), res.spec_queue()),
    {
        let queue = Q::default();
        MapStoreInner { content, previous: None, queue }
    }

    /// Replaces the content of the store.
    pub fn init(&mut self, map: HashMap<u64, V>)
        ensures
            final(self).spec_content() == map@,
            final(self).spec_previous() == old(self).spec_previous(),
            final(self).spec_queue() == old(self).spec_queue(),
    {
        self.content = map;
    }

    /// Sets the value of a key, records the update with the value it replaced
    /// and queues the update.
    pub fn update(&mut self, key: u64, value: V)
        ensures
            final(self).spec_content() == old(self).spec_content().insert(key, value),
            final(self).spec_previous() == Some(MapLaneEvent::Update(key,
                if old(self).spec_content().contains_key(key) {
                    Some(old(self).spec_content()[key])
                } else {
                    None
                })),
            old(self).spec_queue().spec_pushed(MapOperation::Update { key, value: () }, final(self).spec_queue()),
    {
        let prev = self.content.insert(key, value);
        self.previous = Some(MapLaneEvent::Update(key, prev));
        self.queue.push(MapOperation::Update { key, value: () });
    }

    /// Removes a key; if it was present, records the removal with its value and
    /// queues the removal, else changes nothing.
    pub fn remove(&mut self, key: &u64)
        ensures
            final(self).spec_content() == old(self).spec_content().remove(*key),
            old(self).spec_content().contains_key(*key) ==> {
                &&& final(self).spec_previous() == Some(MapLaneEvent::Remove(*key, old(self).spec_content()[*key]))
                &&& old(self).spec_queue().spec_pushed(MapOperation::Remove { key: *key }, final(self).spec_queue())
            },
            !old(self).spec_content().contains_key(*key) ==> {
                &&& final(self).spec_previous() == old(self).spec_previous()
                &&& final(self).spec_queue() == old(self).spec_queue()
            },
    {
        let prev = self.content.remove(key);
        if let Some(prev) = prev {
            self.previous = Some(MapLaneEvent::Remove(*key, prev));
            self.queue.push(MapOperation::Remove { key: *key });
        }
    }

    /// Empties the store, records the clear with the entries it had and
    /// queues the clear.
    pub fn clear(&mut self)
        ensures
            final(self).spec_content() == Map::<u64, V>::empty(),
            is_clear_of(final(self).spec_previous(), old(self).spec_content()),
            old(self).spec_queue().spec_pushed(MapOperation::Clear, final(self).spec_queue()),
    {
        let mut old_content = HashMap::new();
        std::mem::swap(&mut old_content, &mut self.content);
        self.previous = Some(MapLaneEvent::Clear(old_content));
        self.queue.push(MapOperation::Clear);
    }

    /// Applies a function to the value of a key, if present.
    pub fn get<F, R>(&self, key: &u64, f: F) -> (res: R)
        where
            F: FnOnce(Option<&V>) -> R,
        requires
            forall|o: Option<&V>| call_requires(f, (o,)),
        ensures
            call_ensures(f, (
                if self.spec_content().contains_key(*key) {
                    Some(&self.spec_content()[*key])
                } else {
                    None
                },
            ), res),
    {
        let value = self.content.get(key);
        f(value)
    }

    /// Applies a function to the whole content.
    pub fn get_map<F, R>(&self, f: F) -> (res: R)
        where
            F: FnOnce(&HashMap<u64, V>) -> R,
        requires
            forall|m: &HashMap<u64, V>| call_requires(f, (m,)),
        ensures
            self.spec_content_map()@ == self.spec_content(),
            call_ensures(f, (&self.spec_content_map(),), res),
    {
        f(&self.content)
    }

    /// Applies a function to the recorded change, which is consumed, and to
    /// the content.
    pub fn read_with_prev<F, R>(&mut self, f: F) -> (res: R)
        where
            F: FnOnce(Option<MapLaneEvent<V>>, &HashMap<u64, V>) -> R,
        requires
            forall|p: Option<MapLaneEvent<V>>, m: &HashMap<u64, V>| call_requires(f, (p, m)),
        ensures
            final(self).spec_content() == old(self).spec_content(),
            final(self).spec_previous() is None,
            final(self).spec_queue() == old(self).spec_queue(),
            old(self).spec_content_map()@ == old(self).spec_content(),
            call_ensures(f, (old(self).spec_previous(), &old(self).spec_content_map()), res),
    {
        let prev = self.previous.take();
        f(prev, &self.content)
    }

    /// Mutable access to the queue of operations.
    pub fn queue(&mut self) -> (res: &mut Q)
        ensures
            *res == old(self).spec_queue(),
            final(self).spec_content() == old(self).spec_content(),
            final(self).spec_previous() == old(self).spec_previous(),
            final(self).spec_queue() == *final(res),
    {
        &mut self.queue
    }

    /// Pops the next operation from the queue, given the current content.
    pub fn pop_operation(&mut self) -> (res: Option<Q::Output>)
        ensures
            final(self).spec_content() == old(self).spec_content(),
            final(self).spec_previous() == old(self).spec_previous(),
            old(self).spec_queue().spec_popped(old(self).spec_content(), final(self).spec_queue(), res),
    {
        self.queue.pop(&self.content)
    }
}

/// A read of a key gives back what the last update of that key wrote, and
/// the other keys keep their entries.
pub proof fn read_gives_back_update<V, Q>(before: MapStoreInner<V, Q>, after: MapStoreInner<V, Q>, key: u64, value: V)
    requires
        after.spec_content() == before.spec_content().insert(key, value),
    ensures
        after.spec_content().contains_key(key),
        after.spec_content()[key] == value,
        forall|k: u64| k != key ==> (#[trigger] after.spec_content().contains_key(k) == before.spec_content().contains_key(k))
            && (before.spec_content().contains_key(k) ==> after.spec_content()[k] == before.spec_content()[k]),
{
}

/// Removing a key that an update added gives back the entries from before
/// the update.
pub proof fn remove_undoes_update<V, Q>(
    before: MapStoreInner<V, Q>,
    updated: MapStoreInner<V, Q>,
    after: MapStoreInner<V, Q>,
    key: u64,
    value: V,
)
    requires
        !before.spec_content().contains_key(key),
        updated.spec_content() == before.spec_content().insert(key, value),
        after.spec_content() == updated.spec_content().remove(key),
    ensures
        after.spec_content() == before.spec_content(),
{
    assert(after.spec_content() =~= before.spec_content());
}

} // verus!
