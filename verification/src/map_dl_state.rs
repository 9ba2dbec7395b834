//! The state of a map downlink hosted by an agent: its entries and, once
//! needed, the ordered set of its keys that `drop` and `take` operations use.

use vstd::prelude::*;
use std::collections::BTreeSet;
use std::collections::HashMap;
use vstd::std_specs::iter::IteratorSpec;

verus! {

broadcast use vstd::std_specs::hash::group_hash_axioms;

/// Whether a sequence of keys is strictly ascending.
pub open spec fn strictly_sorted(s: Seq<u64>) -> bool {
    forall|i: int, j: int| 0 <= i < j < s.len() ==> s[i] < s[j]
}

/// The set of the keys of a map.
fn key_set<V>(map: &HashMap<u64, V>) -> (res: BTreeSet<u64>)
    ensures
        res@ == map@.dom(),
{
    let mut keys: BTreeSet<u64> = BTreeSet::new();
    for k in it: map.keys()
        invariant
            it.seq() == vstd::std_specs::hash::spec_keys_iter(map).remaining(),
            forall|x: u64| #[trigger] keys@.contains(x) <==> exists|i: int| 0 <= i < it.index() && *it.seq()[i] == x,
    {
        let ghost idx = it.index();
        keys.insert(*k);
        proof {
            assert forall|x: u64| #[trigger] keys@.contains(x) <==> exists|i: int| 0 <= i < idx + 1 && *it.seq()[i] == x by {
                if x == *k {
                    assert(*it.seq()[idx] == x);
                }
            }
        }
    }
    proof {
        let rem = vstd::std_specs::hash::spec_keys_iter(map).remaining();
        assert forall|x: u64| #[trigger] keys@.contains(x) <==> map@.dom().contains(x) by {
            assert(rem.unref().to_set().contains(x) == rem.unref().contains(x));
            if keys@.contains(x) {
                let i = choose|i: int| 0 <= i < rem.len() && *rem[i] == x;
                assert(rem.unref()[i] == x);
            }
            if rem.unref().contains(x) {
                let i = choose|i: int| 0 <= i < rem.unref().len() && rem.unref()[i] == x;
                assert(*rem[i] == x);
            }
        }
        assert(keys@ =~= map@.dom());
    }
    keys
}

/// The keys that an ordered set hands out, in the order it hands them out,
/// ascend.
proof fn lemma_increasing_keys(rem: Seq<&u64>)
    requires
        vstd::std_specs::btree::increasing_seq(rem),
    ensures
        forall|i: int, j: int| 0 <= i < j < rem.len() ==> *rem[i] < *rem[j],
{
    assert(vstd::laws_cmp::obeys_cmp::<u64>());
    assert(vstd::laws_cmp::obeys_cmp::<&u64>());
    assert forall|i: int, j: int| 0 <= i < j < rem.len() implies *rem[i] < *rem[j] by {
        assert(vstd::std_specs::cmp::OrdSpec::cmp_spec(&rem[i], &rem[j]) is Less);
    }
}

/// The keys of an ordered set, in ascending order.
fn ascending(set: &BTreeSet<u64>) -> (res: Vec<u64>)
    ensures
        res@ == sorted_seq_of(set@),
        strictly_sorted(res@),
        res@.to_set() == set@,
{
    let mut keys: Vec<u64> = Vec::new();
    for k in it: set.iter()
        invariant
            it.seq() == vstd::std_specs::btree::spec_btree_keys_iter(set).remaining(),
            keys@.len() == it.index(),
            forall|i: int| 0 <= i < it.index() ==> keys@[i] == *it.seq()[i],
    {
        keys.push(*k);
    }
    proof {
        let rem = vstd::std_specs::btree::spec_btree_keys_iter(set).remaining();
        assert(keys@ =~= rem.unref());
        lemma_increasing_keys(rem);
        assert forall|i: int, j: int| 0 <= i < j < keys@.len() implies keys@[i] < keys@[j] by {
            assert(keys@[i] == *rem[i]);
            assert(keys@[j] == *rem[j]);
        }
        lemma_sorted_seq_of(keys@);
    }
    keys
}

/// The strictly ascending sequence that holds exactly the keys of a set.
pub open spec fn sorted_seq_of(s: Set<u64>) -> Seq<u64> {
    choose|q: Seq<u64>| strictly_sorted(q) && q.to_set() == s
}

/// Two strictly ascending sequences with the same elements are equal.
pub proof fn lemma_sorted_unique(a: Seq<u64>, b: Seq<u64>)
    requires
        strictly_sorted(a),
        strictly_sorted(b),
        a.to_set() == b.to_set(),
    ensures
        a == b,
    decreases a.len(),
{
    if a.len() == 0 {
        if b.len() > 0 {
            assert(b.to_set().contains(b[0]));
            assert(!a.to_set().contains(b[0]));
        }
        assert(a =~= b);
    } else {
        assert(a.to_set().contains(a[0]));
        assert(b.to_set().contains(a[0]));
        assert(b.len() > 0);
        assert(b.to_set().contains(b[0]));
        assert(a.to_set().contains(b[0]));
        let ja = choose|j: int| 0 <= j < a.len() && a[j] == b[0];
        let jb = choose|j: int| 0 <= j < b.len() && b[j] == a[0];
        assert(a[0] <= a[ja]);
        assert(b[0] <= b[jb]);
        assert(a[0] == b[0]);
        let a1 = a.drop_first();
        let b1 = b.drop_first();
        assert forall|x: u64| #[trigger] a1.to_set().contains(x) <==> b1.to_set().contains(x) by {
            assert(a1.to_set().contains(x) == a1.contains(x));
            assert(b1.to_set().contains(x) == b1.contains(x));
            if a1.contains(x) {
                let i = choose|i: int| 0 <= i < a1.len() && a1[i] == x;
                assert(a[i + 1] == x);
                assert(a.to_set().contains(x));
                assert(b.contains(x));
                let k = choose|k: int| 0 <= k < b.len() && b[k] == x;
                assert(a[0] < x);
                assert(k != 0);
                assert(b1[k - 1] == x);
            }
            if b1.contains(x) {
                let i = choose|i: int| 0 <= i < b1.len() && b1[i] == x;
                assert(b[i + 1] == x);
                assert(b.to_set().contains(x));
                assert(a.contains(x));
                let k = choose|k: int| 0 <= k < a.len() && a[k] == x;
                assert(b[0] < x);
                assert(k != 0);
                assert(a1[k - 1] == x);
            }
        }
        assert(a1.to_set() =~= b1.to_set());
        lemma_sorted_unique(a1, b1);
        assert(a.len() == b.len());
        assert forall|i: int| 0 <= i < a.len() implies a[i] == b[i] by {
            if i > 0 {
                assert(a1[i - 1] == b1[i - 1]);
            }
        }
        assert(a =~= b);
    }
}

/// A sorted sequence is the sorted sequence of its elements.
pub proof fn lemma_sorted_seq_of(q: Seq<u64>)
    requires
        strictly_sorted(q),
    ensures
        sorted_seq_of(q.to_set()) == q,
{
    let s = q.to_set();
    assert(exists|p: Seq<u64>| strictly_sorted(p) && p.to_set() == s);
    let p = sorted_seq_of(s);
    lemma_sorted_unique(p, q);
}

/// Every finite set of keys has a strictly ascending sequence of its keys,
/// as long as the set.
proof fn lemma_sorted_seq_exists(s: Set<u64>)
    requires
        s.finite(),
    ensures
        strictly_sorted(sorted_seq_of(s)),
        sorted_seq_of(s).to_set() == s,
        sorted_seq_of(s).len() == s.len(),
    decreases s.len(),
{
    if s.len() == 0 {
        let q = Seq::<u64>::empty();
        assert(s =~= Set::<u64>::empty()) by {
            if exists|x: u64| s.contains(x) {
                let x = choose|x: u64| s.contains(x);
                assert(s.remove(x).len() < s.len());
            }
        }
        assert(q.to_set() =~= s);
        assert(strictly_sorted(q) && q.to_set() == s);
    } else {
        let r = |a: u64, b: u64| a <= b;
        assert(vstd::relations::total_ordering(r));
        s.find_unique_minimal_ensures(r);
        let m = s.find_unique_minimal(r);
        let rest = s.remove(m);
        lemma_sorted_seq_exists(rest);
        let q0 = sorted_seq_of(rest);
        let q = seq![m] + q0;
        assert forall|i: int, j: int| 0 <= i < j < q.len() implies q[i] < q[j] by {
            if i == 0 {
                assert(q[j] == q0[j - 1]);
                assert(q0.to_set().contains(q0[j - 1]));
                assert(rest.contains(q[j]));
                assert(s.contains(q[j]) && q[j] != m);
                assert(vstd::relations::is_minimal(r, m, s));
                assert(r(m, q[j]) || r(q[j], m));
                assert(m <= q[j]);
            } else {
                assert(q[i] == q0[i - 1]);
                assert(q[j] == q0[j - 1]);
            }
        }
        assert forall|x: u64| #[trigger] q.to_set().contains(x) <==> s.contains(x) by {
            assert(q.to_set().contains(x) == q.contains(x));
            assert(q0.to_set().contains(x) == q0.contains(x));
            if q.contains(x) {
                let i = choose|i: int| 0 <= i < q.len() && q[i] == x;
                if i > 0 {
                    assert(q0[i - 1] == x);
                }
            }
            if s.contains(x) && x != m {
                assert(rest.contains(x));
                let i = choose|i: int| 0 <= i < q0.len() && q0[i] == x;
                assert(q[i + 1] == x);
            }
            if x == m {
                assert(q[0] == m);
            }
        }
        assert(q.to_set() =~= s);
        assert(strictly_sorted(q) && q.to_set() == s);
    }
    let p = sorted_seq_of(s);
    assert(p.no_duplicates());
    p.unique_seq_to_set();
}

/// The keys of a strictly ascending sequence that are not among its first `n`
/// are those after them.
proof fn lemma_split_sorted(q: Seq<u64>, n: int)
    requires
        strictly_sorted(q),
        0 <= n <= q.len(),
    ensures
        q.to_set().difference(q.skip(n).to_set()) == q.take(n).to_set(),
        q.to_set().difference(q.take(n).to_set()) == q.skip(n).to_set(),
        q.take(n).to_set().len() == n,
        q.skip(n).to_set().len() == q.len() - n,
        forall|a: u64, b: u64| #[trigger] q.take(n).to_set().contains(a) && #[trigger] q.skip(n).to_set().contains(b) ==> a < b,
{
    assert forall|x: u64| #[trigger] q.to_set().difference(q.skip(n).to_set()).contains(x) <==> q.take(n).to_set().contains(x) by {
        assert(q.to_set().contains(x) == q.contains(x));
        assert(q.skip(n).to_set().contains(x) == q.skip(n).contains(x));
        assert(q.take(n).to_set().contains(x) == q.take(n).contains(x));
        if q.contains(x) {
            let i = choose|i: int| 0 <= i < q.len() && q[i] == x;
            if i < n {
                assert(q.take(n)[i] == x);
                if q.skip(n).contains(x) {
                    let j = choose|j: int| 0 <= j < q.skip(n).len() && q.skip(n)[j] == x;
                    assert(q[n + j] == x);
                }
            } else {
                assert(q.skip(n)[i - n] == x);
            }
        }
        if q.take(n).contains(x) {
            let i = choose|i: int| 0 <= i < n && q.take(n)[i] == x;
            assert(q[i] == x);
        }
    }
    assert(q.to_set().difference(q.skip(n).to_set()) =~= q.take(n).to_set());
    assert forall|x: u64| #[trigger] q.to_set().difference(q.take(n).to_set()).contains(x) <==> q.skip(n).to_set().contains(x) by {
        assert(q.to_set().contains(x) == q.contains(x));
        assert(q.skip(n).to_set().contains(x) == q.skip(n).contains(x));
        assert(q.take(n).to_set().contains(x) == q.take(n).contains(x));
        if q.contains(x) {
            let i = choose|i: int| 0 <= i < q.len() && q[i] == x;
            if i < n {
                assert(q.take(n)[i] == x);
            } else {
                assert(q.skip(n)[i - n] == x);
                if q.take(n).contains(x) {
                    let j = choose|j: int| 0 <= j < n && q.take(n)[j] == x;
                    assert(q[j] == x);
                }
            }
        }
        if q.skip(n).contains(x) {
            let i = choose|i: int| 0 <= i < q.skip(n).len() && q.skip(n)[i] == x;
            assert(q[n + i] == x);
        }
    }
    assert(q.to_set().difference(q.take(n).to_set()) =~= q.skip(n).to_set());
    assert(q.take(n).no_duplicates());
    q.take(n).unique_seq_to_set();
    assert(q.skip(n).no_duplicates());
    q.skip(n).unique_seq_to_set();
    assert forall|a: u64, b: u64| #[trigger] q.take(n).to_set().contains(a) && #[trigger] q.skip(n).to_set().contains(b) implies a < b by {
        assert(q.take(n).to_set().contains(a) == q.take(n).contains(a));
        assert(q.skip(n).to_set().contains(b) == q.skip(n).contains(b));
        let i = choose|i: int| 0 <= i < n && q.take(n)[i] == a;
        let j = choose|j: int| 0 <= j < q.skip(n).len() && q.skip(n)[j] == b;
        assert(q[i] == a);
        assert(q[n + j] == b);
    }
}


/// How `drop(n)` changes a state and what events it hands back: when `n`
/// covers the map, the map is cleared (one clear event with all entries);
/// else its `n` smallest keys are removed, one removal event each in
/// ascending order, and the ordered set holds the keys that are left.
pub open spec fn drop_relation<V>(pre: MapDlState<V>, post: MapDlState<V>, n: usize, events: Seq<MapDlEvent<V>>) -> bool {
    if n >= pre.spec_map().len() {
        &&& post.spec_map() == Map::<u64, V>::empty()
        &&& post.spec_order() is None
        &&& events.len() == 1
        &&& events[0] matches MapDlEvent::Clear(m) && m@ == pre.spec_map()
    } else {
        let q = pre.spec_keys_in_order();
        &&& post.spec_map() == pre.spec_map().remove_keys(q.take(n as int).to_set())
        &&& post.spec_order() == Some(q.skip(n as int).to_set())
        &&& events.len() == n
        &&& forall|i: int| 0 <= i < n ==> #[trigger] events[i] == (MapDlEvent::Remove {
            key: q[i],
            value: pre.spec_map()[q[i]],
        })
    }
}

/// How `take(n)` changes a state and what events it hands back: nothing
/// happens when the map holds at most `n` keys; else all keys but the `n`
/// smallest are removed, one removal event each in ascending order, and the
/// ordered set holds the keys that are left.
pub open spec fn take_relation<V>(pre: MapDlState<V>, post: MapDlState<V>, n: usize, events: Seq<MapDlEvent<V>>) -> bool {
    if pre.spec_map().len() <= n {
        &&& post.spec_map() == pre.spec_map()
        &&& post.spec_order() == pre.spec_order()
        &&& events.len() == 0
    } else {
        let q = pre.spec_keys_in_order();
        &&& post.spec_map() == pre.spec_map().remove_keys(q.skip(n as int).to_set())
        &&& post.spec_order() == Some(q.take(n as int).to_set())
        &&& events.len() == pre.spec_map().len() - n
        &&& forall|i: int| 0 <= i < pre.spec_map().len() - n ==> #[trigger] events[i] == (MapDlEvent::Remove {
            key: q[n + i],
            value: pre.spec_map()[q[n + i]],
        })
    }
}

/// A call that a map downlink's lifecycle is to receive after a change of
/// the state, with what the change replaced.
#[derive(Debug)]
pub enum MapDlEvent<V> {
    /// A key was updated; holds its previous value, if any.
    Update { key: u64, old: Option<V> },
    /// A key was removed; holds its value.
    Remove { key: u64, value: V },
    /// The map was cleared; holds the entries it had.
    Clear(HashMap<u64, V>),
}

/// The entries of a map downlink and, once a `drop` or `take` needed it, the
/// ordered set of its keys, which is then kept up to date with the map.
#[derive(Debug)]
pub struct MapDlState<V> {
    map: HashMap<u64, V>,
    order: Option<BTreeSet<u64>>,
}

impl<V> MapDlState<V> {
    /// The entries.
    pub closed spec fn spec_map(&self) -> Map<u64, V> {
        self.map@
    }

    /// The ordered set of keys, if one was made.
    pub closed spec fn spec_order(&self) -> Option<Set<u64>> {
        match self.order {
            Some(o) => Some(o@),
            None => None,
        }
    }

    /// The ordered set of keys, where there is one, holds exactly the keys of
    /// the map.
    pub open spec fn wf(&self) -> bool {
        self.spec_order() matches Some(o) ==> o == self.spec_map().dom()
    }

    /// The keys in the order that `drop` and `take` use: ascending.
    pub open spec fn spec_keys_in_order(&self) -> Seq<u64> {
        sorted_seq_of(self.spec_map().dom())
    }

    /// An empty state, with no ordered set of keys.
    pub fn new() -> (res: Self)
        ensures
            res.spec_map() == Map::<u64, V>::empty(),
            res.spec_order() is None,
            res.wf(),
    {
        MapDlState { map: HashMap::new(), order: None }
    }

    /// The entries, as the lifecycle of the downlink reads them.
    pub fn map(&self) -> (res: &HashMap<u64, V>)
        ensures
            res@ == self.spec_map(),
    {
        &self.map
    }

    /// Resets the state to an empty one and hands back the entries it had.
    pub fn clear(&mut self) -> (res: HashMap<u64, V>)
        ensures
            res@ == old(self).spec_map(),
            final(self).spec_map() == Map::<u64, V>::empty(),
            final(self).spec_order() is None,
            final(self).wf(),
    {
        let mut old_map = HashMap::new();
        std::mem::swap(&mut old_map, &mut self.map);
        self.order = None;
        old_map
    }

    /// Sets the value of a key; the key also joins the ordered set of keys,
    /// if there is one.
    pub fn update(&mut self, key: u64, value: V) -> (res: MapDlEvent<V>)
        requires
            old(self).wf(),
        ensures
            final(self).wf(),
            final(self).spec_map() == old(self).spec_map().insert(key, value),
            res == (MapDlEvent::Update {
                key,
                old: if old(self).spec_map().contains_key(key) { Some(old(self).spec_map()[key]) } else { None },
            }),
            final(self).spec_order() == match old(self).spec_order() {
                Some(o) => Some(o.insert(key)),
                None => None::<Set<u64>>,
            },
    {
        let ghost old_dom = self.map@.dom();
        let old = self.map.insert(key, value);
        let order = self.order.take();
        self.order = match order {
            Some(mut ord) => {
                ord.insert(key);
                Some(ord)
            },
            None => None,
        };
        proof {
            assert(self.map@.dom() =~= old_dom.insert(key));
        }
        MapDlEvent::Update { key, old }
    }

    /// Removes a key. When it was present, it also leaves the ordered set of
    /// keys and its value is handed back in a removal event.
    pub fn remove(&mut self, key: u64) -> (res: Option<MapDlEvent<V>>)
        requires
            old(self).wf(),
        ensures
            final(self).wf(),
            final(self).spec_map() == old(self).spec_map().remove(key),
            old(self).spec_map().contains_key(key) ==> {
                &&& res == Some(MapDlEvent::Remove { key, value: old(self).spec_map()[key] })
                &&& final(self).spec_order() == match old(self).spec_order() {
                    Some(o) => Some(o.remove(key)),
                    None => None::<Set<u64>>,
                }
            },
            !old(self).spec_map().contains_key(key) ==> {
                &&& res is None
                &&& final(self).spec_order() == old(self).spec_order()
            },
    {
        let ghost old_dom = self.map@.dom();
        match self.map.remove(&key) {
            Some(old) => {
                let order = self.order.take();
                self.order = match order {
                    Some(mut ord) => {
                        ord.remove(&key);
                        Some(ord)
                    },
                    None => None,
                };
                proof {
                    assert(self.map@.dom() =~= old_dom.remove(key));
                }
                Some(MapDlEvent::Remove { key, value: old })
            },
            None => {
                proof {
                    assert(self.map@.dom() =~= old_dom);
                }
                None
            },
        }
    }

    /// The ordered set of keys, or a new one made from the map, taken out of
    /// the state.
    fn take_order(&mut self) -> (res: BTreeSet<u64>)
        requires
            old(self).wf(),
        ensures
            res@ == old(self).spec_map().dom(),
            final(self).spec_map() == old(self).spec_map(),
            final(self).spec_order() is None,
    {
        match self.order.take() {
            Some(o) => o,
            None => key_set(&self.map),
        }
    }

    /// Removes the keys `keys[from..to]` from the map and from the ordered set,
    /// in that order, and hands back a removal event for each.
    fn remove_range(&mut self, ord: &mut BTreeSet<u64>, keys: &Vec<u64>, from: usize, to: usize) -> (res: Vec<MapDlEvent<V>>)
        requires
            from <= to <= keys@.len(),
            strictly_sorted(keys@),
            forall|i: int| 0 <= i < keys@.len() ==> #[trigger] old(self).spec_map().contains_key(keys@[i]),
            old(self).spec_order() is None,
        ensures
            final(self).spec_order() is None,
            final(self).spec_map() == old(self).spec_map().remove_keys(keys@.subrange(from as int, to as int).to_set()),
            final(ord)@ == old(ord)@.difference(keys@.subrange(from as int, to as int).to_set()),
            res@.len() == to - from,
            forall|i: int| 0 <= i < to - from ==> #[trigger] res@[i] == (MapDlEvent::Remove {
                key: keys@[from + i],
                value: old(self).spec_map()[keys@[from + i]],
            }),
    {
        let ghost m0 = self.spec_map();
        let ghost s0 = ord@;
        let mut events: Vec<MapDlEvent<V>> = Vec::new();
        let mut i = from;
        while i < to
            invariant
                from <= i <= to <= keys@.len(),
                strictly_sorted(keys@),
                forall|j: int| 0 <= j < keys@.len() ==> #[trigger] m0.contains_key(keys@[j]),
                self.spec_order() is None,
                self.map@ == m0.remove_keys(keys@.subrange(from as int, i as int).to_set()),
                ord@ == s0.difference(keys@.subrange(from as int, i as int).to_set()),
                events@.len() == i - from,
                forall|j: int| 0 <= j < i - from ==> #[trigger] events@[j] == (MapDlEvent::Remove {
                    key: keys@[from + j],
                    value: m0[keys@[from + j]],
                }),
            decreases to - i,
        {
            let k = keys[i];
            let ghost done = keys@.subrange(from as int, i as int);
            proof {
                if done.to_set().contains(k) {
                    let j = choose|j: int| 0 <= j < done.len() && done[j] == k;
                    assert(keys@[from + j] == k);
                    assert(keys@[from + j] < keys@[i as int]);
                }
                assert(self.map@.contains_key(k));
            }
            ord.remove(&k);
            let removed = self.map.remove(&k);
            match removed {
                Some(v) => {
                    events.push(MapDlEvent::Remove { key: k, value: v });
                },
                None => {},
            }
            i += 1;
            proof {
                let next = keys@.subrange(from as int, i as int);
                assert(next.to_set() =~= done.to_set().insert(k)) by {
                    assert forall|x: u64| #[trigger] next.to_set().contains(x) <==> done.to_set().insert(k).contains(x) by {
                        assert(next.to_set().contains(x) == next.contains(x));
                        assert(done.to_set().contains(x) == done.contains(x));
                        if next.contains(x) {
                            let j = choose|j: int| 0 <= j < next.len() && next[j] == x;
                            if j < done.len() {
                                assert(done[j] == x);
                            }
                        }
                        if done.contains(x) {
                            let j = choose|j: int| 0 <= j < done.len() && done[j] == x;
                            assert(next[j] == x);
                        }
                        if x == k {
                            assert(next[next.len() - 1] == k);
                        }
                    }
                }
                assert(self.map@ =~= m0.remove_keys(next.to_set()));
                assert(ord@ =~= s0.difference(next.to_set()));
            }
        }
        events
    }

    /// Removes the `n` smallest keys; when `n` covers the whole map, the map
    /// is cleared instead and the ordered set of keys dropped.
    pub fn drop(&mut self, n: usize) -> (res: Vec<MapDlEvent<V>>)
        requires
            old(self).wf(),
        ensures
            final(self).wf(),
            drop_relation(*old(self), *final(self), n, res@),
    {
        if n >= self.map.len() {
            let old_map = self.clear();
            let mut events: Vec<MapDlEvent<V>> = Vec::new();
            events.push(MapDlEvent::Clear(old_map));
            return events;
        }
        let ghost m0 = self.map@;
        let mut ord = self.take_order();
        let keys = ascending(&ord);
        proof {
            assert(m0.dom().finite());
            lemma_sorted_seq_exists(m0.dom());
            assert forall|i: int| 0 <= i < keys@.len() implies #[trigger] m0.contains_key(keys@[i]) by {
                assert(keys@.to_set().contains(keys@[i]));
            }
            lemma_split_sorted(keys@, n as int);
        }
        let events = self.remove_range(&mut ord, &keys, 0, n);
        proof {
            assert(keys@.subrange(0, n as int) =~= keys@.take(n as int));
            assert(ord@ =~= keys@.skip(n as int).to_set());
            assert(self.map@.dom() =~= keys@.skip(n as int).to_set());
        }
        self.order = Some(ord);
        events
    }

    /// Keeps the `n` smallest keys and removes the others, the smallest of
    /// them first; nothing changes when the map holds at most `n` keys.
    pub fn take(&mut self, n: usize) -> (res: Vec<MapDlEvent<V>>)
        requires
            old(self).wf(),
        ensures
            final(self).wf(),
            take_relation(*old(self), *final(self), n, res@),
    {
        let len = self.map.len();
        if len <= n {
            return Vec::new();
        }
        let ghost m0 = self.map@;
        let mut ord = self.take_order();
        let keys = ascending(&ord);
        proof {
            assert(m0.dom().finite());
            lemma_sorted_seq_exists(m0.dom());
            assert forall|i: int| 0 <= i < keys@.len() implies #[trigger] m0.contains_key(keys@[i]) by {
                assert(keys@.to_set().contains(keys@[i]));
            }
            lemma_split_sorted(keys@, n as int);
        }
        let events = self.remove_range(&mut ord, &keys, n, keys.len());
        proof {
            assert(keys@.subrange(n as int, keys@.len() as int) =~= keys@.skip(n as int));
            assert(ord@ =~= keys@.take(n as int).to_set());
            assert(self.map@.dom() =~= keys@.take(n as int).to_set());
        }
        self.order = Some(ord);
        events
    }
}

/// `take(n)` keeps the `n` smallest keys, with their values, and removes the
/// others; a map with at most `n` keys is left as it is.
pub proof fn take_keeps_smallest_keys<V>(pre: MapDlState<V>, post: MapDlState<V>, n: usize, events: Seq<MapDlEvent<V>>)
    requires
        pre.wf(),
        take_relation(pre, post, n, events),
    ensures
        post.spec_map().dom().len() == (if pre.spec_map().dom().len() <= n { pre.spec_map().dom().len() } else { n as nat }),
        post.spec_map().dom().subset_of(pre.spec_map().dom()),
        forall|k: u64| #[trigger] post.spec_map().contains_key(k) ==> post.spec_map()[k] == pre.spec_map()[k],
        forall|a: u64, b: u64|
            #[trigger] post.spec_map().contains_key(a) && #[trigger] pre.spec_map().contains_key(b) && !post.spec_map().contains_key(b)
                ==> a < b,
{
    let dom = pre.spec_map().dom();
    assert(dom.finite());
    lemma_sorted_seq_exists(dom);
    let q = pre.spec_keys_in_order();
    if dom.len() > n {
        let start = n as int;
        lemma_split_sorted(q, start);
        assert(post.spec_map().dom() =~= q.take(start).to_set());
        assert forall|a: u64, b: u64|
            #[trigger] post.spec_map().contains_key(a) && #[trigger] pre.spec_map().contains_key(b) && !post.spec_map().contains_key(b)
            implies a < b by {
            assert(q.to_set().difference(q.take(start).to_set()).contains(b));
            assert(q.take(start).to_set().contains(a) && q.skip(start).to_set().contains(b));
        }
    }
}

/// `drop(n)` removes the `n` smallest keys and keeps the others, with their
/// values; when `n` covers the map, it empties it.
pub proof fn drop_removes_smallest_keys<V>(pre: MapDlState<V>, post: MapDlState<V>, n: usize, events: Seq<MapDlEvent<V>>)
    requires
        pre.wf(),
        drop_relation(pre, post, n, events),
    ensures
        post.spec_map().dom().len() == (if pre.spec_map().dom().len() <= n { 0 } else { (pre.spec_map().dom().len() - n) as nat }),
        post.spec_map().dom().subset_of(pre.spec_map().dom()),
        forall|k: u64| #[trigger] post.spec_map().contains_key(k) ==> post.spec_map()[k] == pre.spec_map()[k],
        forall|a: u64, b: u64|
            #[trigger] post.spec_map().contains_key(a) && #[trigger] pre.spec_map().contains_key(b) && !post.spec_map().contains_key(b)
                ==> b < a,
{
    let dom = pre.spec_map().dom();
    assert(dom.finite());
    lemma_sorted_seq_exists(dom);
    let q = pre.spec_keys_in_order();
    if dom.len() > n {
        let r = n as int;
        lemma_split_sorted(q, r);
        assert(post.spec_map().dom() =~= q.skip(r).to_set());
        assert forall|a: u64, b: u64|
            #[trigger] post.spec_map().contains_key(a) && #[trigger] pre.spec_map().contains_key(b) && !post.spec_map().contains_key(b)
            implies b < a by {
            assert(q.to_set().difference(q.skip(r).to_set()).contains(b));
            assert(q.take(r).to_set().contains(b) && q.skip(r).to_set().contains(a));
        }
    } else {
        assert(post.spec_map().dom() =~= Set::<u64>::empty());
    }
}

} // verus!
