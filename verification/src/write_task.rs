//! The decisions of an agent's write task: links requested by remotes,
//! routing of lane events to remotes, removal of lanes and remotes, and when
//! the task votes to stop.

use vstd::prelude::*;
use crate::links::{Links, Link, TriggerUnlink, remote_has_links};
use crate::read_task::name_view;
use std::collections::HashSet;
use vstd::std_specs::iter::IteratorSpec;

verus! {

broadcast use vstd::std_specs::hash::group_hash_axioms;

/// The lanes of the agent, by identifier: each name maps to at most one lane.
#[derive(Debug)]
pub struct LaneRegistry {
    names: Vec<Option<String>>,
}

impl LaneRegistry {
    /// The identifier of the lane that a name maps to.
    pub closed spec fn spec_id_for(&self, name: Seq<char>) -> Option<u64> {
        if exists|i: int| 0 <= i < self.names@.len() && name_view(#[trigger] self.names@[i]) == Some(name) {
            Some((choose|i: int| 0 <= i < self.names@.len() && name_view(#[trigger] self.names@[i]) == Some(name)) as u64)
        } else {
            None
        }
    }

    /// The identifier that the next lane gets.
    pub closed spec fn spec_next_id(&self) -> nat {
        self.names@.len()
    }

    /// Each name maps to at most one lane.
    pub closed spec fn wf(&self) -> bool {
        &&& self.names@.len() < u64::MAX
        &&& forall|i: int, j: int|
            0 <= i < self.names@.len() && 0 <= j < self.names@.len()
                && (#[trigger] self.names@[i]) is Some && name_view(self.names@[i]) == name_view(#[trigger] self.names@[j])
                ==> i == j
    }

    /// No lanes.
    pub fn new() -> (res: LaneRegistry)
        ensures
            res.wf(),
            res.spec_next_id() == 0,
            forall|name: Seq<char>| res.spec_id_for(name) is None,
    {
        LaneRegistry { names: Vec::new() }
    }

    /// The identifier of the lane that a name maps to.
    pub fn id_for(&self, name: &String) -> (res: Option<u64>)
        requires
            self.wf(),
        ensures
            res == self.spec_id_for(name@),
    {
        let mut i: usize = 0;
        while i < self.names.len()
            invariant
                i <= self.names@.len(),
                self.wf(),
                forall|j: int| 0 <= j < i ==> name_view(#[trigger] self.names@[j]) != Some(name@),
            decreases self.names@.len() - i,
        {
            match &self.names[i] {
                Some(n) => {
                    if n.eq(name) {
                        proof {
                            assert(name_view(self.names@[i as int]) == Some(name@));
                            let c = choose|k: int| 0 <= k < self.names@.len() && name_view(#[trigger] self.names@[k]) == Some(name@);
                            assert(self.names@[c] is Some);
                            assert(c == i);
                        }
                        return Some(i as u64);
                    }
                },
                None => {},
            }
            i += 1;
        }
        None
    }

    /// Registers a lane under a name, which then maps to it; answers its identifier.
    pub fn add_endpoint(&mut self, name: String) -> (id: u64)
        requires
            old(self).wf(),
            old(self).spec_next_id() + 1 < u64::MAX,
        ensures
            final(self).wf(),
            id == old(self).spec_next_id(),
            final(self).spec_next_id() == old(self).spec_next_id() + 1,
            final(self).spec_id_for(name@) == Some(id),
            forall|other: Seq<char>| other != name@ ==> final(self).spec_id_for(other) == old(self).spec_id_for(other),
    {
        let ghost nv = name@;
        let ghost before = self.names@;
        match self.id_for(&name) {
            Some(old_id) => {
                let n = self.names.len();
                proof {
                    let c = choose|k: int| 0 <= k < before.len() && name_view(#[trigger] before[k]) == Some(nv);
                    assert(old_id < n);
                }
                self.names.set(old_id as usize, None);
            },
            None => {},
        }
        let ghost mid = self.names@;
        let id = self.names.len() as u64;
        self.names.push(Some(name));
        proof {
            assert forall|i: int, j: int|
                0 <= i < self.names@.len() && 0 <= j < self.names@.len()
                    && (#[trigger] self.names@[i]) is Some && name_view(self.names@[i]) == name_view(#[trigger] self.names@[j])
                    implies i == j by {
                if i < mid.len() && j < mid.len() {
                } else if i < mid.len() {
                    assert(name_view(mid[i]) == Some(nv));
                } else if j < mid.len() {
                    assert(name_view(mid[j]) == Some(nv));
                }
            }
            assert(name_view(self.names@[id as int]) == Some(nv));
            assert forall|other: Seq<char>| other != nv implies self.spec_id_for(other) == old(self).spec_id_for(other) by {
                if exists|i: int| 0 <= i < self.names@.len() && name_view(#[trigger] self.names@[i]) == Some(other) {
                    let i = choose|i: int| 0 <= i < self.names@.len() && name_view(#[trigger] self.names@[i]) == Some(other);
                    assert(name_view(before[i]) == Some(other));
                }
                if exists|i: int| 0 <= i < before.len() && name_view(#[trigger] before[i]) == Some(other) {
                    let i = choose|i: int| 0 <= i < before.len() && name_view(#[trigger] before[i]) == Some(other);
                    assert(name_view(self.names@[i]) == Some(other));
                }
            }
        }
        id
    }

    /// Removes the lane with an identifier: no name maps to it any more.
    pub fn remove_lane(&mut self, id: u64)
        requires
            old(self).wf(),
        ensures
            final(self).wf(),
            final(self).spec_next_id() == old(self).spec_next_id(),
            forall|name: Seq<char>| final(self).spec_id_for(name) == (if old(self).spec_id_for(name) == Some(id) {
                None
            } else {
                old(self).spec_id_for(name)
            }),
    {
        let n = self.names.len();
        if id < n as u64 {
            let ghost before = self.names@;
            let idx = id as usize;
            self.names.set(idx, None);
            proof {
                assert forall|name: Seq<char>| #[trigger] self.spec_id_for(name) == (if old(self).spec_id_for(name) == Some(id) {
                    None
                } else {
                    old(self).spec_id_for(name)
                }) by {
                    let ex_new = exists|i: int| 0 <= i < self.names@.len() && name_view(#[trigger] self.names@[i]) == Some(name);
                    let ex_old = exists|i: int| 0 <= i < before.len() && name_view(#[trigger] before[i]) == Some(name);
                    if ex_old {
                        let i = choose|i: int| 0 <= i < before.len() && name_view(#[trigger] before[i]) == Some(name);
                        if i == idx as int {
                            if ex_new {
                                let k = choose|k: int| 0 <= k < self.names@.len() && name_view(#[trigger] self.names@[k]) == Some(name);
                                assert(name_view(before[k]) == Some(name));
                                assert(before[k] is Some);
                                assert(k == i);
                            }
                        } else {
                            assert(name_view(self.names@[i]) == Some(name));
                        }
                    }
                    if ex_new {
                        let k = choose|k: int| 0 <= k < self.names@.len() && name_view(#[trigger] self.names@[k]) == Some(name);
                        assert(name_view(before[k]) == Some(name));
                    }
                }
            }
        }
    }
}

/// The outcome of a request of a remote to link a lane.
#[derive(Debug, Clone, Copy, PartialEq, Eq, Structural)]
pub enum LinkOutcome {
    /// The lane with this identifier is now linked to the remote.
    Linked(u64),
    /// The lane exists but the remote is not attached.
    NoRemote,
    /// There is no lane with that name.
    NoLane,
}

/// The outcome of a request of a remote to unlink a lane.
#[derive(Debug, Clone, Copy, PartialEq, Eq, Structural)]
pub enum UnlinkOutcome {
    /// The link was removed; the remote is to be pruned when it has no link left.
    Unlinked { lane_id: u64, schedule_prune: Option<u128> },
    /// The lane was not linked to the remote.
    NotLinked,
    /// There is no lane with that name.
    NoLane,
}

/// Where an event of a lane goes.
#[derive(Debug, Clone, PartialEq, Eq)]
pub enum EventRoute {
    /// To its target, which is first told that it is now linked.
    LinkThenSend(u128),
    /// To its target.
    Send(u128),
    /// To all remotes linked from the lane.
    Broadcast(Vec<u128>),
    /// Nowhere.
    Discard,
}

/// The links, lanes and attached remotes of an agent's write task.
#[derive(Debug)]
pub struct WriteTaskState {
    pub links: Links,
    pub lanes: LaneRegistry,
    pub remotes: HashSet<u128>,
}

impl WriteTaskState {
    /// The attached remotes.
    pub open spec fn spec_remotes(&self) -> Set<u128> {
        self.remotes@
    }

    /// The parts are well formed.
    pub open spec fn wf(&self) -> bool {
        self.links.wf() && self.lanes.wf()
    }

    /// No lanes, links or remotes.
    pub fn new() -> (res: WriteTaskState)
        ensures
            res.wf(),
            res.links.view() == Set::<Link>::empty(),
            res.spec_remotes() == Set::<u128>::empty(),
            res.lanes.spec_next_id() == 0,
            forall|name: Seq<char>| res.lanes.spec_id_for(name) is None,
    {
        WriteTaskState { links: Links::new(), lanes: LaneRegistry::new(), remotes: HashSet::new() }
    }

    /// Whether a remote is attached.
    pub fn has_remote(&self, remote: u128) -> (res: bool)
        ensures
            res == self.spec_remotes().contains(remote),
    {
        self.remotes.contains(&remote)
    }

    /// Whether any remote is attached.
    pub fn has_remotes(&self) -> (res: bool)
        ensures
            res == (self.spec_remotes() != Set::<u128>::empty()),
    {
        let empty = self.remotes.is_empty();
        proof {
            if empty {
                assert(self.remotes@ =~= Set::<u128>::empty());
            }
        }
        !empty
    }

    /// Attaches a remote.
    pub fn add_remote(&mut self, remote: u128)
        requires
            old(self).wf(),
        ensures
            final(self).wf(),
            final(self).spec_remotes() == old(self).spec_remotes().insert(remote),
            final(self).links.view() == old(self).links.view(),
            final(self).lanes == old(self).lanes,
    {
        self.remotes.insert(remote);
    }

    /// Attaches a remote and schedules it to be pruned should it stay idle.
    pub fn attach_remote<W, L>(&mut self, remote: u128) -> (res: TaskMessageResult<W, L>)
        requires
            old(self).wf(),
        ensures
            final(self).wf(),
            final(self).spec_remotes() == old(self).spec_remotes().insert(remote),
            final(self).links.view() == old(self).links.view(),
            final(self).lanes == old(self).lanes,
            res == TaskMessageResult::<W, L>::AddPruneTimeout(remote),
    {
        self.add_remote(remote);
        TaskMessageResult::AddPruneTimeout(remote)
    }

    /// Handles a request of a remote to link the lane with a name: the link is
    /// made when both the lane and the remote exist.
    pub fn handle_link(&mut self, origin: u128, lane: &String) -> (res: LinkOutcome)
        requires
            old(self).wf(),
        ensures
            final(self).wf(),
            final(self).lanes == old(self).lanes,
            final(self).spec_remotes() == old(self).spec_remotes(),
            match old(self).lanes.spec_id_for(lane@) {
                Some(id) => if old(self).spec_remotes().contains(origin) {
                    &&& res == LinkOutcome::Linked(id)
                    &&& final(self).links.view() == old(self).links.view().insert((id, origin))
                } else {
                    &&& res == LinkOutcome::NoRemote
                    &&& final(self).links.view() == old(self).links.view()
                },
                None => {
                    &&& res == LinkOutcome::NoLane
                    &&& final(self).links.view() == old(self).links.view()
                },
            },
    {
        match self.lanes.id_for(lane) {
            Some(id) => {
                if self.has_remote(origin) {
                    self.links.insert(id, origin);
                    LinkOutcome::Linked(id)
                } else {
                    LinkOutcome::NoRemote
                }
            },
            None => LinkOutcome::NoLane,
        }
    }

    /// Handles a request of a remote to unlink the lane with a name.
    pub fn handle_unlink(&mut self, origin: u128, lane: &String) -> (res: UnlinkOutcome)
        requires
            old(self).wf(),
        ensures
            final(self).wf(),
            final(self).lanes == old(self).lanes,
            final(self).spec_remotes() == old(self).spec_remotes(),
            match old(self).lanes.spec_id_for(lane@) {
                Some(id) => if old(self).links.view().contains((id, origin)) {
                    &&& final(self).links.view() == old(self).links.view().remove((id, origin))
                    &&& res == UnlinkOutcome::Unlinked {
                        lane_id: id,
                        schedule_prune: if remote_has_links(final(self).links.view(), origin) {
                            None
                        } else {
                            Some(origin)
                        },
                    }
                } else {
                    &&& res == UnlinkOutcome::NotLinked
                    &&& final(self).links.view() == old(self).links.view()
                },
                None => {
                    &&& res == UnlinkOutcome::NoLane
                    &&& final(self).links.view() == old(self).links.view()
                },
            },
    {
        match self.lanes.id_for(lane) {
            Some(lane_id) => {
                if self.links.is_linked(origin, lane_id) {
                    let trigger = self.links.remove(lane_id, origin);
                    UnlinkOutcome::Unlinked { lane_id, schedule_prune: trigger.into_option() }
                } else {
                    UnlinkOutcome::NotLinked
                }
            },
            None => UnlinkOutcome::NoLane,
        }
    }

    /// Routes an event of a lane: to its target, if it has one (linking it
    /// first when the event completes a synchronization and the target was
    /// not linked), else to all remotes linked from the lane.
    pub fn route_event(&mut self, lane_id: u64, target: Option<u128>, is_synced: bool) -> (res: EventRoute)
        requires
            old(self).wf(),
        ensures
            final(self).wf(),
            final(self).lanes == old(self).lanes,
            final(self).spec_remotes() == old(self).spec_remotes(),
            match target {
                Some(remote) => if is_synced && !old(self).links.view().contains((lane_id, remote)) {
                    &&& res == EventRoute::LinkThenSend(remote)
                    &&& final(self).links.view() == old(self).links.view().insert((lane_id, remote))
                } else {
                    &&& res == EventRoute::Send(remote)
                    &&& final(self).links.view() == old(self).links.view()
                },
                None => {
                    &&& final(self).links.view() == old(self).links.view()
                    &&& if exists|r: u128| old(self).links.view().contains((lane_id, r)) {
                        res matches EventRoute::Broadcast(rs) && rs@.no_duplicates()
                            && forall|r: u128| #[trigger] rs@.contains(r) <==> old(self).links.view().contains((lane_id, r))
                    } else {
                        res == EventRoute::Discard
                    }
                },
            },
    {
        match target {
            Some(remote) => {
                if is_synced && !self.links.is_linked(remote, lane_id) {
                    self.links.insert(lane_id, remote);
                    EventRoute::LinkThenSend(remote)
                } else {
                    EventRoute::Send(remote)
                }
            },
            None => {
                let targets = self.links.linked_from(lane_id);
                if targets.len() > 0 {
                    proof {
                        assert(targets@.contains(targets@[0]));
                    }
                    EventRoute::Broadcast(targets)
                } else {
                    proof {
                        if exists|r: u128| self.links.view().contains((lane_id, r)) {
                            let r = choose|r: u128| self.links.view().contains((lane_id, r));
                            assert(targets@.contains(r));
                        }
                    }
                    EventRoute::Discard
                }
            },
        }
    }

    /// Detaches a remote and removes its links.
    pub fn remove_remote(&mut self, remote: u128)
        requires
            old(self).wf(),
        ensures
            final(self).wf(),
            final(self).lanes == old(self).lanes,
            final(self).spec_remotes() == old(self).spec_remotes().remove(remote),
            final(self).links.view() == old(self).links.view().filter(|l: Link| l.1 != remote),
    {
        self.links.remove_remote(remote);
        self.remotes.remove(&remote);
    }

    /// Detaches a remote when it has no link left; answers whether it did.
    pub fn remove_remote_if_idle(&mut self, remote: u128) -> (removed: bool)
        requires
            old(self).wf(),
        ensures
            final(self).wf(),
            final(self).lanes == old(self).lanes,
            removed == !remote_has_links(old(self).links.view(), remote),
            removed ==> final(self).spec_remotes() == old(self).spec_remotes().remove(remote),
            removed ==> final(self).links.view() == old(self).links.view(),
            !removed ==> final(self).spec_remotes() == old(self).spec_remotes(),
            !removed ==> final(self).links.view() == old(self).links.view(),
    {
        if !self.links.has_links(remote) {
            self.remove_remote(remote);
            proof {
                assert(self.links.view() =~= old(self).links.view()) by {
                    assert forall|l: Link| old(self).links.view().contains(l) implies l.1 != remote by {
                        if l.1 == remote {
                            assert(l == (l.0, remote));
                            assert(old(self).links.view().contains((l.0, remote)));
                            assert(remote_has_links(old(self).links.view(), remote));
                        }
                    }
                }
            }
            true
        } else {
            false
        }
    }

    /// Removes a lane that failed, with its links; says, for each remote that
    /// was linked from it, whether that remote has no link left.
    pub fn remove_lane(&mut self, lane_id: u64) -> (res: Vec<TriggerUnlink>)
        requires
            old(self).wf(),
        ensures
            final(self).wf(),
            final(self).spec_remotes() == old(self).spec_remotes(),
            final(self).links.view() == old(self).links.view().filter(|l: Link| l.0 != lane_id),
            forall|name: Seq<char>| final(self).lanes.spec_id_for(name) == (if old(self).lanes.spec_id_for(name) == Some(lane_id) {
                None
            } else {
                old(self).lanes.spec_id_for(name)
            }),
            forall|r: u128| old(self).links.view().contains((lane_id, r)) <==>
                exists|i: int| 0 <= i < res@.len() && #[trigger] res@[i].remote_id == r,
            forall|i: int, j: int| 0 <= i < j < res@.len() ==> #[trigger] res@[i].remote_id != #[trigger] res@[j].remote_id,
            forall|i: int| 0 <= i < res@.len() ==>
                #[trigger] res@[i].schedule_prune == !remote_has_links(final(self).links.view(), res@[i].remote_id),
    {
        self.lanes.remove_lane(lane_id);
        self.links.remove_lane(lane_id)
    }

    /// All links, to be unlinked on shutdown.
    pub fn unlink_all(&self) -> (res: Vec<Link>)
        requires
            self.wf(),
        ensures
            res@.no_duplicates(),
            res@.to_set() == self.links.view(),
    {
        self.links.all_links()
    }
}

/// Why the connection to a remote was closed.
#[derive(Debug, Clone, Copy, PartialEq, Eq, Structural)]
pub enum DisconnectionReason {
    /// The agent was stopped from outside.
    AgentStoppedExternally,
    /// The agent stopped after every task voted that it was idle.
    AgentTimedOut,
    /// The remote stayed without links for too long.
    RemoteTimedOut,
    /// Writing to the remote failed.
    ChannelClosed,
}

impl WriteTaskState {
    /// Disposes of the state on shutdown: each remote that is still attached
    /// is to be told why it is disconnected.
    pub fn dispose_of_remotes(self, reason: DisconnectionReason) -> (res: Vec<(u128, DisconnectionReason)>)
        ensures
            res@.len() == self.spec_remotes().len(),
            forall|i: int, j: int| 0 <= i < j < res@.len() ==> #[trigger] res@[i].0 != #[trigger] res@[j].0,
            forall|i: int| 0 <= i < res@.len() ==> #[trigger] res@[i].1 == reason,
            forall|r: u128| self.spec_remotes().contains(r) <==> exists|i: int| 0 <= i < res@.len() && #[trigger] res@[i].0 == r,
    {
        let mut res: Vec<(u128, DisconnectionReason)> = Vec::new();
        for r in it: self.remotes.iter()
            invariant
                it.seq() == vstd::std_specs::hash::spec_hash_keys_iter(&self.remotes).remaining(),
                res@.len() == it.index(),
                forall|i: int| 0 <= i < it.index() ==> #[trigger] res@[i] == (*it.seq()[i], reason),
        {
            res.push((*r, reason));
        }
        proof {
            let rem = vstd::std_specs::hash::spec_hash_keys_iter(&self.remotes).remaining();
            assert forall|i: int, j: int| 0 <= i < j < res@.len() implies #[trigger] res@[i].0 != #[trigger] res@[j].0 by {
                assert(rem[i] != rem[j]);
            }
            assert forall|r: u128| self.spec_remotes().contains(r) <==> exists|i: int| 0 <= i < res@.len() && #[trigger] res@[i].0 == r by {
                assert(rem.unref().to_set().contains(r) == rem.unref().contains(r));
                if self.spec_remotes().contains(r) {
                    let i = choose|i: int| 0 <= i < rem.unref().len() && rem.unref()[i] == r;
                    assert(res@[i].0 == r);
                }
                if exists|i: int| 0 <= i < res@.len() && #[trigger] res@[i].0 == r {
                    let i = choose|i: int| 0 <= i < res@.len() && #[trigger] res@[i].0 == r;
                    assert(rem.unref()[i] == r);
                }
            }
        }
        res
    }
}

/// What handling a message means for the write task: a lane to read events
/// from, a write to schedule (and maybe a remote to prune), a remote to prune,
/// or nothing.
#[derive(Debug)]
pub enum TaskMessageResult<W, L> {
    AddLane(L),
    ScheduleWrite { write: W, schedule_prune: Option<u128> },
    AddPruneTimeout(u128),
    Nothing,
}

impl<W, L> TaskMessageResult<W, L> {
    /// A write to schedule, if any.
    pub fn from_write(opt: Option<W>) -> (res: Self)
        ensures
            match opt {
                Some(w) => res == (TaskMessageResult::<W, L>::ScheduleWrite { write: w, schedule_prune: None }),
                None => res == TaskMessageResult::<W, L>::Nothing,
            },
    {
        match opt {
            Some(write) => TaskMessageResult::ScheduleWrite { write, schedule_prune: None },
            None => TaskMessageResult::Nothing,
        }
    }

    /// After an unlink: the write that tells the remote, with the remote to
    /// prune; or only the remote to prune; or nothing.
    pub fn after_unlink(maybe_write: Option<W>, schedule_prune: Option<u128>) -> (res: Self)
        ensures
            match maybe_write {
                Some(w) => res == (TaskMessageResult::<W, L>::ScheduleWrite { write: w, schedule_prune }),
                None => match schedule_prune {
                    Some(r) => res == TaskMessageResult::<W, L>::AddPruneTimeout(r),
                    None => res == TaskMessageResult::<W, L>::Nothing,
                },
            },
    {
        match maybe_write {
            Some(write) => TaskMessageResult::ScheduleWrite { write, schedule_prune },
            None => match schedule_prune {
                Some(remote_id) => TaskMessageResult::AddPruneTimeout(remote_id),
                None => TaskMessageResult::Nothing,
            },
        }
    }
}

/// Zero, one or two writes, handed out in order.
#[derive(Debug)]
pub enum Writes<W> {
    Zero,
    Single(W),
    Two(W, W),
}

/// The writes, in the order they are handed out.
pub open spec fn writes_seq<W>(w: Writes<W>) -> Seq<W> {
    match w {
        Writes::Zero => Seq::empty(),
        Writes::Single(a) => seq![a],
        Writes::Two(a, b) => seq![a, b],
    }
}

impl<W> Writes<W> {
    /// One write, if any.
    pub fn from_option(opt: Option<W>) -> (res: Self)
        ensures
            writes_seq(res) == match opt {
                Some(w) => seq![w],
                None => Seq::<W>::empty(),
            },
    {
        match opt {
            Some(w) => Writes::Single(w),
            None => Writes::Zero,
        }
    }

    /// The writes that are present, in order.
    pub fn from_pair(first: Option<W>, second: Option<W>) -> (res: Self)
        ensures
            writes_seq(res) == (match first {
                Some(w) => seq![w],
                None => Seq::<W>::empty(),
            }) + (match second {
                Some(w) => seq![w],
                None => Seq::<W>::empty(),
            }),
    {
        let res = match (first, second) {
            (Some(w1), Some(w2)) => Writes::Two(w1, w2),
            (Some(w), None) => Writes::Single(w),
            (None, Some(w)) => Writes::Single(w),
            (None, None) => Writes::Zero,
        };
        proof {
            assert(writes_seq(res) =~= (match first {
                Some(w) => seq![w],
                None => Seq::<W>::empty(),
            }) + (match second {
                Some(w) => seq![w],
                None => Seq::<W>::empty(),
            }));
        }
        res
    }

    /// Hands out the next write.
    pub fn next(&mut self) -> (res: Option<W>)
        ensures
            writes_seq(*old(self)).len() == 0 ==> res is None && writes_seq(*final(self)).len() == 0,
            writes_seq(*old(self)).len() > 0 ==> res == Some(writes_seq(*old(self))[0])
                && writes_seq(*final(self)) == writes_seq(*old(self)).drop_first(),
    {
        let mut current = Writes::Zero;
        std::mem::swap(&mut current, self);
        match current {
            Writes::Two(w1, w2) => {
                *self = Writes::Single(w2);
                proof {
                    assert(writes_seq(*self) =~= seq![w1, w2].drop_first());
                }
                Some(w1)
            },
            Writes::Single(w) => {
                proof {
                    assert(writes_seq(*self) =~= seq![w].drop_first());
                }
                Some(w)
            },
            Writes::Zero => None,
        }
    }
}

/// The write task's vote to stop, and whether its inactivity timeout is armed.
#[derive(Debug, Clone, Copy, PartialEq, Eq, Structural)]
pub struct WriteVote {
    pub voted: bool,
    pub timeout_enabled: bool,
}

/// What the write task does when its inactivity timeout fires.
#[derive(Debug, Clone, Copy, PartialEq, Eq, Structural)]
pub enum TimeoutStep {
    /// Stop, as no remote is attached.
    StopNoRemotes,
    /// Stop, as every task has voted.
    StopVoted,
    /// Keep running with the timeout disarmed until activity resumes.
    Continue,
}

impl WriteVote {
    /// Not voted, timeout armed.
    pub fn new() -> (res: WriteVote)
        ensures
            res == (WriteVote { voted: false, timeout_enabled: true }),
    {
        WriteVote { voted: false, timeout_enabled: true }
    }

    /// The timeout fired: with no remote the task stops; else it votes to stop
    /// and disarms the timeout, and stops if every task has voted.
    pub fn on_timeout(&mut self, has_remotes: bool, all_voted: bool) -> (res: TimeoutStep)
        ensures
            !has_remotes ==> res == TimeoutStep::StopNoRemotes && *final(self) == *old(self),
            has_remotes ==> *final(self) == (WriteVote { voted: true, timeout_enabled: false })
                && res == (if all_voted { TimeoutStep::StopVoted } else { TimeoutStep::Continue }),
    {
        if !has_remotes {
            return TimeoutStep::StopNoRemotes;
        }
        self.voted = true;
        self.timeout_enabled = false;
        if all_voted {
            TimeoutStep::StopVoted
        } else {
            TimeoutStep::Continue
        }
    }

    /// Activity after a vote: the vote was rescinded and `all_voted` tells
    /// whether every task had already voted, in which case the task stops;
    /// else the timeout is armed again. Answers whether to stop.
    pub fn on_activity(&mut self, all_voted: bool) -> (stop: bool)
        requires
            old(self).voted,
        ensures
            stop == all_voted,
            !all_voted ==> *final(self) == (WriteVote { voted: false, timeout_enabled: true }),
            all_voted ==> *final(self) == *old(self),
    {
        if all_voted {
            true
        } else {
            self.timeout_enabled = true;
            self.voted = false;
            false
        }
    }
}

/// What the write task makes of its inactivity timer firing.
#[derive(Debug, Clone, Copy, PartialEq, Eq, Structural)]
pub enum InactivityOutcome {
    /// Stop, as no lane is left to produce events.
    Stop,
    /// A timeout, which leads to a vote to stop.
    Timeout,
}

/// The outcome of the inactivity timer firing: the task stops when it has no
/// lane left; else it is a timeout.
pub fn on_inactivity(lanes_empty: bool) -> (res: InactivityOutcome)
    ensures
        res == (if lanes_empty { InactivityOutcome::Stop } else { InactivityOutcome::Timeout }),
{
    if lanes_empty {
        InactivityOutcome::Stop
    } else {
        InactivityOutcome::Timeout
    }
}

/// The next event of the write task.
#[derive(Debug, PartialEq, Eq)]
pub enum WriteTaskEvent<M, R, E> {
    /// A message from the other tasks.
    Message(M),
    /// An event of a lane, to route to remotes.
    Event { id: u64, response: E },
    /// A pending write completed.
    WriteDone(R),
    /// A lane failed.
    LaneFailed(u64),
    /// The prune timeout of a remote fired.
    PruneRemote(u128),
    /// The inactivity timer fired while lanes remain.
    Timeout,
    /// The task is to stop.
    Stop,
}

/// The event that the write task takes when it looks at its sources in the
/// order it gives them: a prune timeout, then a message (or the end of the
/// message stream), then a completed write, then a lane's event or failure,
/// then its inactivity timer.
pub open spec fn spec_select_write_event<M, R, E>(
    prune: Option<u128>,
    message: Option<Option<M>>,
    write_done: Option<R>,
    lane: Option<Result<(u64, E), u64>>,
    timer_fired: bool,
    lanes_empty: bool,
) -> Option<WriteTaskEvent<M, R, E>> {
    if let Some(remote) = prune {
        Some(WriteTaskEvent::PruneRemote(remote))
    } else if let Some(msg) = message {
        match msg {
            Some(m) => Some(WriteTaskEvent::Message(m)),
            None => Some(WriteTaskEvent::Stop),
        }
    } else if let Some(r) = write_done {
        Some(WriteTaskEvent::WriteDone(r))
    } else if let Some(l) = lane {
        match l {
            Ok((id, response)) => Some(WriteTaskEvent::Event { id, response }),
            Err(id) => Some(WriteTaskEvent::LaneFailed(id)),
        }
    } else if timer_fired {
        Some(if lanes_empty { WriteTaskEvent::Stop } else { WriteTaskEvent::Timeout })
    } else {
        None
    }
}

/// Chooses the write task's next event among the sources that are ready
/// (`None`: that source has nothing yet): a fired prune timeout, a message
/// or the end of the message stream, a completed write, a lane's event or
/// failure, the inactivity timer (when enabled); the first ready one in that
/// order wins. Also answers whether the inactivity timer restarts: after a
/// message that counts as activity (`message_is_activity`) or a lane's event.
pub fn select_write_event<M, R, E>(
    prune: Option<u128>,
    message: Option<Option<M>>,
    message_is_activity: bool,
    write_done: Option<R>,
    lane: Option<Result<(u64, E), u64>>,
    timer_fired: bool,
    lanes_empty: bool,
) -> (res: (Option<WriteTaskEvent<M, R, E>>, bool))
    ensures
        res.0 == spec_select_write_event(prune, message, write_done, lane, timer_fired, lanes_empty),
        res.1 == (match res.0 {
            Some(WriteTaskEvent::Message(_)) => message_is_activity,
            Some(WriteTaskEvent::Event { .. }) => true,
            _ => false,
        }),
{
    if let Some(remote) = prune {
        (Some(WriteTaskEvent::PruneRemote(remote)), false)
    } else if let Some(msg) = message {
        match msg {
            Some(m) => (Some(WriteTaskEvent::Message(m)), message_is_activity),
            None => (Some(WriteTaskEvent::Stop), false),
        }
    } else if let Some(r) = write_done {
        (Some(WriteTaskEvent::WriteDone(r)), false)
    } else if let Some(l) = lane {
        match l {
            Ok((id, response)) => (Some(WriteTaskEvent::Event { id, response }), true),
            Err(id) => (Some(WriteTaskEvent::LaneFailed(id)), false),
        }
    } else if timer_fired {
        match on_inactivity(lanes_empty) {
            InactivityOutcome::Stop => (Some(WriteTaskEvent::Stop), false),
            InactivityOutcome::Timeout => (Some(WriteTaskEvent::Timeout), false),
        }
    } else {
        (None, false)
    }
}

/// A response of a lane to its uplinks.
#[derive(Debug, Clone, PartialEq, Eq)]
pub enum UplinkResponse<B> {
    /// A new value of a value lane.
    Value(B),
    /// The value of a value lane that completes a synchronization.
    SyncedValue(B),
    /// An operation on a map lane.
    MapEvent(B),
    /// The end of the synchronization of a map lane.
    SyncedMap,
}

impl<B> UplinkResponse<B> {
    /// Whether the response completes a synchronization.
    pub fn is_synced(&self) -> (res: bool)
        ensures
            res == (*self is SyncedValue || *self is SyncedMap),
    {
        matches!(self, UplinkResponse::SyncedValue(_) | UplinkResponse::SyncedMap)
    }
}

/// Whether an event of a lane goes to all its uplinks or to the one that
/// asked for a synchronization.
#[derive(Debug, Clone, Copy, PartialEq, Eq, Structural)]
pub enum LaneResponseKind {
    StandardEvent,
    SyncEvent(u128),
}

/// A response of a lane, with the remote it is meant for, if only one.
#[derive(Debug, Clone, PartialEq, Eq)]
pub struct RawLaneResponse<B> {
    pub target: Option<u128>,
    pub response: UplinkResponse<B>,
}

impl<B> RawLaneResponse<B> {
    /// A response for one remote.
    pub fn targetted(id: u128, response: UplinkResponse<B>) -> (res: Self)
        ensures
            res == (RawLaneResponse { target: Some(id), response }),
    {
        RawLaneResponse { target: Some(id), response }
    }

    /// A response for all the remotes linked from the lane.
    pub fn broadcast(response: UplinkResponse<B>) -> (res: Self)
        ensures
            res == (RawLaneResponse { target: None, response }),
    {
        RawLaneResponse { target: None, response }
    }

    /// The response to an event of a value lane: a standard event goes to
    /// all, a synchronization event to its remote as the synced value.
    pub fn from_value_event(kind: LaneResponseKind, value: B) -> (res: Self)
        ensures
            res == match kind {
                LaneResponseKind::StandardEvent => RawLaneResponse { target: None, response: UplinkResponse::Value(value) },
                LaneResponseKind::SyncEvent(id) => RawLaneResponse { target: Some(id), response: UplinkResponse::SyncedValue(value) },
            },
    {
        match kind {
            LaneResponseKind::StandardEvent => RawLaneResponse::broadcast(UplinkResponse::Value(value)),
            LaneResponseKind::SyncEvent(id) => RawLaneResponse::targetted(id, UplinkResponse::SyncedValue(value)),
        }
    }

    /// The response to an event of a map lane: a standard event goes to
    /// all, a synchronization event to its remote.
    pub fn from_map_event(kind: LaneResponseKind, operation: B) -> (res: Self)
        ensures
            res == match kind {
                LaneResponseKind::StandardEvent => RawLaneResponse { target: None, response: UplinkResponse::MapEvent(operation) },
                LaneResponseKind::SyncEvent(id) => RawLaneResponse { target: Some(id), response: UplinkResponse::MapEvent(operation) },
            },
    {
        match kind {
            LaneResponseKind::StandardEvent => RawLaneResponse::broadcast(UplinkResponse::MapEvent(operation)),
            LaneResponseKind::SyncEvent(id) => RawLaneResponse::targetted(id, UplinkResponse::MapEvent(operation)),
        }
    }

    /// The end of the synchronization of a map lane, for its remote.
    pub fn map_sync_complete(id: u128) -> (res: Self)
        ensures
            res == (RawLaneResponse::<B> { target: Some(id), response: UplinkResponse::SyncedMap }),
    {
        RawLaneResponse::targetted(id, UplinkResponse::SyncedMap)
    }
}

impl WriteTaskState {
    /// Routes a response of a lane: see `route_event`, with the response's
    /// target and whether it completes a synchronization.
    pub fn route_response<B>(&mut self, lane_id: u64, response: &RawLaneResponse<B>) -> (res: EventRoute)
        requires
            old(self).wf(),
        ensures
            final(self).wf(),
            final(self).lanes == old(self).lanes,
            final(self).spec_remotes() == old(self).spec_remotes(),
            match response.target {
                Some(remote) => if (response.response is SyncedValue || response.response is SyncedMap)
                    && !old(self).links.view().contains((lane_id, remote)) {
                    &&& res == EventRoute::LinkThenSend(remote)
                    &&& final(self).links.view() == old(self).links.view().insert((lane_id, remote))
                } else {
                    &&& res == EventRoute::Send(remote)
                    &&& final(self).links.view() == old(self).links.view()
                },
                None => {
                    &&& final(self).links.view() == old(self).links.view()
                    &&& if exists|r: u128| old(self).links.view().contains((lane_id, r)) {
                        res matches EventRoute::Broadcast(rs) && rs@.no_duplicates()
                            && forall|r: u128| #[trigger] rs@.contains(r) <==> old(self).links.view().contains((lane_id, r))
                    } else {
                        res == EventRoute::Discard
                    }
                },
            },
    {
        let synced = response.response.is_synced();
        self.route_event(lane_id, response.target, synced)
    }
}

/// A write of a map lane event whose key could not be read is passed over.
pub fn discard_error<W, E>(_error: E) -> (res: Option<W>)
    ensures
        res is None,
{
    None
}

} // verus!
