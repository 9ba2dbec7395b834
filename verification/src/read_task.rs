//! The decisions of an agent's read task: which lane an incoming envelope is
//! for, what is done with it, when lanes are flushed and when the task votes
//! to stop.

use vstd::prelude::*;

verus! {

/// The operation of an envelope addressed to a lane.
#[derive(Debug, Clone, Copy, PartialEq, Eq, Structural)]
pub enum LaneOp {
    Link,
    Sync,
    Command,
    Unlink,
}

/// What the read task does with an envelope.
#[derive(Debug, Clone, Copy, PartialEq, Eq, Structural)]
pub enum ReadAction {
    /// Ask the write task to link the lane to the sender.
    ForwardLink(u64),
    /// Ask the lane to synchronize the sender.
    StartSync(u64),
    /// Pass the command to the lane.
    FeedCommand(u64),
    /// Ask the write task to unlink the lane from the sender.
    ForwardUnlink(u64),
    /// Tell the write task that the lane does not exist.
    UnknownLane,
    /// The lane is registered but can no longer be written to.
    Ignore,
}

/// What became of a command fed to a lane.
#[derive(Debug, Clone, Copy, PartialEq, Eq, Structural)]
pub enum FeedOutcome {
    /// The lane took the command.
    Taken,
    /// The lane refused the envelope as invalid.
    Invalid,
    /// Writing to the lane failed.
    Failed,
}

/// The steps for an envelope: a lane to flush first, then the action.
#[derive(Debug, Clone, Copy, PartialEq, Eq, Structural)]
pub struct ReadStep {
    pub flush_first: Option<u64>,
    pub action: ReadAction,
}

/// The text of an optional name.
pub open spec fn name_view(o: Option<String>) -> Option<Seq<char>> {
    match o {
        Some(n) => Some(n@),
        None => None,
    }
}

/// The lanes known to the read task (indexed by identifier: the lane's name,
/// or `None` once the name no longer maps to it, and whether the lane can
/// still be written to), the lane whose commands wait to be flushed, and
/// whether the task voted to stop.
#[derive(Debug)]
pub struct ReadTaskState {
    names: Vec<Option<String>>,
    live: Vec<bool>,
    needs_flush: Option<u64>,
    voted: bool,
}

impl ReadTaskState {
    /// The identifier of the lane that a name maps to.
    pub closed spec fn spec_id_for(&self, name: Seq<char>) -> Option<u64> {
        if exists|i: int| 0 <= i < self.names@.len() && name_view(#[trigger] self.names@[i]) == Some(name) {
            Some((choose|i: int| 0 <= i < self.names@.len() && name_view(#[trigger] self.names@[i]) == Some(name)) as u64)
        } else {
            None
        }
    }

    /// The name that maps to the lane with an identifier, if any.
    pub closed spec fn spec_name_at(&self, id: u64) -> Option<Seq<char>> {
        if id < self.names@.len() { name_view(self.names@[id as int]) } else { None }
    }

    /// Whether the lane with an identifier can be written to.
    pub closed spec fn spec_is_live(&self, id: u64) -> bool {
        id < self.live@.len() && self.live@[id as int]
    }

    /// The identifier that the next lane gets.
    pub closed spec fn spec_next_id(&self) -> nat {
        self.names@.len()
    }

    /// The lane whose commands wait to be flushed.
    pub closed spec fn spec_needs_flush(&self) -> Option<u64> {
        self.needs_flush
    }

    /// The lane that waits to be flushed, if it can still be written to.
    pub open spec fn spec_live_flush(&self) -> Option<u64> {
        match self.spec_needs_flush() {
            Some(id) => if self.spec_is_live(id) { Some(id) } else { None },
            None => None,
        }
    }

    /// Whether the task voted to stop.
    pub closed spec fn spec_voted(&self) -> bool {
        self.voted
    }

    /// Each name maps to at most one lane.
    pub closed spec fn wf(&self) -> bool {
        &&& self.names@.len() == self.live@.len()
        &&& self.names@.len() < u64::MAX
        &&& forall|i: int, j: int|
            0 <= i < self.names@.len() && 0 <= j < self.names@.len()
                && (#[trigger] self.names@[i]) is Some && name_view(self.names@[i]) == name_view(#[trigger] self.names@[j])
                ==> i == j
    }

    /// No lanes, nothing to flush and no vote.
    pub fn new() -> (res: ReadTaskState)
        ensures
            res.wf(),
            res.spec_next_id() == 0,
            forall|name: Seq<char>| res.spec_id_for(name) is None,
            res.spec_needs_flush() is None,
            !res.spec_voted(),
    {
        ReadTaskState { names: Vec::new(), live: Vec::new(), needs_flush: None, voted: false }
    }

    /// The identifier of the lane a name maps to.
    pub fn lookup(&self, name: &String) -> (res: Option<u64>)
        requires
            self.wf(),
        ensures
            res == self.spec_id_for(name@),
            res matches Some(id) ==> id < self.spec_next_id() && self.spec_name_at(id) == Some(name@),
    {
        let mut i: usize = 0;
        while i < self.names.len()
            invariant
                i <= self.names@.len(),
                self.wf(),
                forall|j: int| 0 <= j < i ==> name_view(#[trigger] self.names@[j]) != Some(name@),
            decreases self.names@.len() - i,
        {
            match &self.names[i] {
                Some(n) => {
                    if n.eq(name) {
                        proof {
                            assert(name_view(self.names@[i as int]) == Some(name@));
                            let c = choose|k: int| 0 <= k < self.names@.len() && name_view(#[trigger] self.names@[k]) == Some(name@);
                            assert(self.names@[c] is Some);
                            assert(c == i);
                        }
                        return Some(i as u64);
                    }
                },
                None => {},
            }
            i += 1;
        }
        None
    }

    /// Registers a lane under a name; the name then maps to the new lane,
    /// which can be written to. Answers the lane's identifier.
    pub fn register_lane(&mut self, name: String) -> (id: u64)
        requires
            old(self).wf(),
            old(self).spec_next_id() + 1 < u64::MAX,
        ensures
            final(self).wf(),
            id == old(self).spec_next_id(),
            final(self).spec_next_id() == old(self).spec_next_id() + 1,
            final(self).spec_id_for(name@) == Some(id),
            forall|other: Seq<char>| other != name@ ==> final(self).spec_id_for(other) == old(self).spec_id_for(other),
            final(self).spec_is_live(id),
            forall|i: u64| i != id ==> final(self).spec_is_live(i) == old(self).spec_is_live(i),
            final(self).spec_needs_flush() == old(self).spec_needs_flush(),
            final(self).spec_voted() == old(self).spec_voted(),
    {
        let ghost nv = name@;
        match self.lookup(&name) {
            Some(old_id) => {
                self.names.set(old_id as usize, None);
            },
            None => {},
        }
        let ghost mid = self.names@;
        let id = self.names.len() as u64;
        self.names.push(Some(name));
        self.live.push(true);
        proof {
            assert forall|i: int, j: int|
                0 <= i < self.names@.len() && 0 <= j < self.names@.len()
                    && (#[trigger] self.names@[i]) is Some && name_view(self.names@[i]) == name_view(#[trigger] self.names@[j])
                    implies i == j by {
                if i < mid.len() && j < mid.len() {
                    assert(old(self).names@[i] == mid[i] || mid[i] is None);
                } else if i < mid.len() {
                    assert(name_view(mid[i]) == Some(nv));
                } else if j < mid.len() {
                    assert(name_view(mid[j]) == Some(nv));
                }
            }
            assert(name_view(self.names@[id as int]) == Some(nv));
            assert forall|other: Seq<char>| other != nv implies self.spec_id_for(other) == old(self).spec_id_for(other) by {
                if exists|i: int| 0 <= i < self.names@.len() && name_view(#[trigger] self.names@[i]) == Some(other) {
                    let i = choose|i: int| 0 <= i < self.names@.len() && name_view(#[trigger] self.names@[i]) == Some(other);
                    assert(name_view(old(self).names@[i]) == Some(other));
                }
                if exists|i: int| 0 <= i < old(self).names@.len() && name_view(#[trigger] old(self).names@[i]) == Some(other) {
                    let i = choose|i: int| 0 <= i < old(self).names@.len() && name_view(#[trigger] old(self).names@[i]) == Some(other);
                    assert(name_view(self.names@[i]) == Some(other));
                }
            }
        }
        id
    }

    /// Takes the lane that waits to be flushed, if it can still be written to.
    pub fn take_flush(&mut self) -> (res: Option<u64>)
        requires
            old(self).wf(),
        ensures
            final(self).wf(),
            final(self).spec_needs_flush() is None,
            res == old(self).spec_live_flush(),
            forall|name: Seq<char>| final(self).spec_id_for(name) == old(self).spec_id_for(name),
            forall|i: u64| final(self).spec_is_live(i) == old(self).spec_is_live(i),
            final(self).spec_next_id() == old(self).spec_next_id(),
            final(self).spec_voted() == old(self).spec_voted(),
    {
        match self.needs_flush.take() {
            Some(id) => {
                if id < self.live.len() as u64 && self.live[id as usize] {
                    Some(id)
                } else {
                    None
                }
            },
            None => None,
        }
    }

    /// Decides what to do with an envelope for the lane with a given name. A
    /// known lane is flushed first if another lane waits to be flushed; for an
    /// unknown lane, any waiting lane is flushed. A waiting lane that can no
    /// longer be written to is dropped from waiting, not flushed.
    pub fn on_envelope(&mut self, lane: &String, op: LaneOp) -> (res: ReadStep)
        requires
            old(self).wf(),
        ensures
            final(self).wf(),
            forall|name: Seq<char>| final(self).spec_id_for(name) == old(self).spec_id_for(name),
            forall|i: u64| final(self).spec_is_live(i) == old(self).spec_is_live(i),
            final(self).spec_next_id() == old(self).spec_next_id(),
            final(self).spec_voted() == old(self).spec_voted(),
            match old(self).spec_id_for(lane@) {
                Some(id) => {
                    let flush = old(self).spec_needs_flush() matches Some(i) && i != id;
                    &&& res.flush_first == (if flush { old(self).spec_live_flush() } else { None })
                    &&& final(self).spec_needs_flush() == (if flush { None } else { old(self).spec_needs_flush() })
                    &&& res.action == (if !old(self).spec_is_live(id) {
                        ReadAction::Ignore
                    } else {
                        match op {
                            LaneOp::Link => ReadAction::ForwardLink(id),
                            LaneOp::Sync => ReadAction::StartSync(id),
                            LaneOp::Command => ReadAction::FeedCommand(id),
                            LaneOp::Unlink => ReadAction::ForwardUnlink(id),
                        }
                    })
                },
                None => {
                    &&& res.flush_first == old(self).spec_live_flush()
                    &&& final(self).spec_needs_flush() is None
                    &&& res.action == ReadAction::UnknownLane
                },
            },
    {
        match self.lookup(lane) {
            Some(id) => {
                let flush_first = match self.needs_flush {
                    Some(i) => if i != id {
                        self.take_flush()
                    } else {
                        None
                    },
                    None => None,
                };
                let live = id < self.live.len() as u64 && self.live[id as usize];
                let action = if !live {
                    ReadAction::Ignore
                } else {
                    match op {
                        LaneOp::Link => ReadAction::ForwardLink(id),
                        LaneOp::Sync => ReadAction::StartSync(id),
                        LaneOp::Command => ReadAction::FeedCommand(id),
                        LaneOp::Unlink => ReadAction::ForwardUnlink(id),
                    }
                };
                ReadStep { flush_first, action }
            },
            None => {
                let flush_first = self.take_flush();
                ReadStep { flush_first, action: ReadAction::UnknownLane }
            },
        }
    }

    /// A command was fed to a lane: the lane now waits to be flushed.
    pub fn command_fed(&mut self, id: u64)
        requires
            old(self).wf(),
        ensures
            final(self).wf(),
            final(self).spec_needs_flush() == Some(id),
            forall|name: Seq<char>| final(self).spec_id_for(name) == old(self).spec_id_for(name),
            forall|i: u64| final(self).spec_is_live(i) == old(self).spec_is_live(i),
            final(self).spec_next_id() == old(self).spec_next_id(),
            final(self).spec_voted() == old(self).spec_voted(),
    {
        self.needs_flush = Some(id);
    }

    /// Writing to the lane with a name failed: the name no longer maps to a
    /// lane and that lane can no longer be written to.
    pub fn lane_failed(&mut self, name: &String)
        requires
            old(self).wf(),
        ensures
            final(self).wf(),
            final(self).spec_id_for(name@) is None,
            forall|other: Seq<char>| other != name@ ==> final(self).spec_id_for(other) == old(self).spec_id_for(other),
            forall|i: u64| final(self).spec_is_live(i) == (old(self).spec_is_live(i)
                && old(self).spec_id_for(name@) != Some(i)),
            final(self).spec_needs_flush() == old(self).spec_needs_flush(),
            final(self).spec_next_id() == old(self).spec_next_id(),
            final(self).spec_voted() == old(self).spec_voted(),
    {
        match self.lookup(name) {
            Some(id) => {
                let ghost before = self.names@;
                let n = self.names.len();
                proof {
                    assert(name_view(before[id as int]) == Some(name@));
                    assert(id < n);
                }
                let idx = id as usize;
                self.names.set(idx, None);
                self.live.set(idx, false);
                proof {
                    assert forall|other: Seq<char>| other != name@ implies self.spec_id_for(other) == old(self).spec_id_for(other) by {
                        if exists|i: int| 0 <= i < self.names@.len() && name_view(#[trigger] self.names@[i]) == Some(other) {
                            let i = choose|i: int| 0 <= i < self.names@.len() && name_view(#[trigger] self.names@[i]) == Some(other);
                            assert(name_view(before[i]) == Some(other));
                        }
                        if exists|i: int| 0 <= i < before.len() && name_view(#[trigger] before[i]) == Some(other) {
                            let i = choose|i: int| 0 <= i < before.len() && name_view(#[trigger] before[i]) == Some(other);
                            assert(name_view(before[id as int]) == Some(name@));
                            assert(i != id as int);
                            assert(self.names@[i] == before[i]);
                            assert(name_view(self.names@[i]) == Some(other));
                        }
                    }
                    if exists|i: int| 0 <= i < self.names@.len() && name_view(#[trigger] self.names@[i]) == Some(name@) {
                        let i = choose|i: int| 0 <= i < self.names@.len() && name_view(#[trigger] self.names@[i]) == Some(name@);
                        assert(name_view(before[i]) == Some(name@));
                    }
                }
            },
            None => {},
        }
    }

    /// What became of a command fed to the lane with a name (and identifier
    /// `id`): taken, the lane now waits to be flushed; refused as an invalid
    /// envelope, the write task is to be told (`true`) and nothing changes;
    /// failed, the lane is dropped as by `lane_failed`.
    pub fn after_command(&mut self, id: u64, name: &String, outcome: FeedOutcome) -> (report_bad_envelope: bool)
        requires
            old(self).wf(),
        ensures
            final(self).wf(),
            report_bad_envelope == (outcome == FeedOutcome::Invalid),
            final(self).spec_next_id() == old(self).spec_next_id(),
            final(self).spec_voted() == old(self).spec_voted(),
            match outcome {
                FeedOutcome::Taken => {
                    &&& final(self).spec_needs_flush() == Some(id)
                    &&& forall|n: Seq<char>| final(self).spec_id_for(n) == old(self).spec_id_for(n)
                    &&& forall|i: u64| final(self).spec_is_live(i) == old(self).spec_is_live(i)
                },
                FeedOutcome::Invalid => {
                    &&& final(self).spec_needs_flush() == old(self).spec_needs_flush()
                    &&& forall|n: Seq<char>| final(self).spec_id_for(n) == old(self).spec_id_for(n)
                    &&& forall|i: u64| final(self).spec_is_live(i) == old(self).spec_is_live(i)
                },
                FeedOutcome::Failed => {
                    &&& final(self).spec_needs_flush() == old(self).spec_needs_flush()
                    &&& final(self).spec_id_for(name@) is None
                    &&& forall|other: Seq<char>| other != name@ ==> final(self).spec_id_for(other) == old(self).spec_id_for(other)
                    &&& forall|i: u64| final(self).spec_is_live(i) == (old(self).spec_is_live(i)
                        && old(self).spec_id_for(name@) != Some(i))
                },
            },
    {
        match outcome {
            FeedOutcome::Taken => {
                self.command_fed(id);
                false
            },
            FeedOutcome::Invalid => true,
            FeedOutcome::Failed => {
                self.lane_failed(name);
                false
            },
        }
    }

    /// Flushing a lane failed: it can no longer be written to.
    pub fn flush_failed(&mut self, id: u64)
        requires
            old(self).wf(),
        ensures
            final(self).wf(),
            forall|name: Seq<char>| final(self).spec_id_for(name) == old(self).spec_id_for(name),
            forall|i: u64| final(self).spec_is_live(i) == (old(self).spec_is_live(i) && i != id),
            final(self).spec_needs_flush() == old(self).spec_needs_flush(),
            final(self).spec_next_id() == old(self).spec_next_id(),
            final(self).spec_voted() == old(self).spec_voted(),
    {
        if id < self.live.len() as u64 {
            self.live.set(id as usize, false);
        }
    }

    /// No envelope arrived in time and the task voted to stop; `all_voted`
    /// tells whether every task has now voted. Answers whether to stop.
    pub fn on_timeout(&mut self, all_voted: bool) -> (stop: bool)
        requires
            old(self).wf(),
        ensures
            final(self).wf(),
            stop == all_voted,
            final(self).spec_voted() == (old(self).spec_voted() || !all_voted),
            forall|name: Seq<char>| final(self).spec_id_for(name) == old(self).spec_id_for(name),
            forall|i: u64| final(self).spec_is_live(i) == old(self).spec_is_live(i),
            final(self).spec_needs_flush() == old(self).spec_needs_flush(),
            final(self).spec_next_id() == old(self).spec_next_id(),
    {
        if all_voted {
            true
        } else {
            self.voted = true;
            false
        }
    }

    /// Whether an envelope must first rescind the task's vote to stop.
    pub fn must_rescind(&self) -> (res: bool)
        ensures
            res == self.spec_voted(),
    {
        self.voted
    }

    /// The vote was rescinded; `all_voted` tells whether every task had
    /// already voted, in which case the task stops. Answers whether to stop.
    pub fn on_rescind(&mut self, all_voted: bool) -> (stop: bool)
        requires
            old(self).wf(),
        ensures
            final(self).wf(),
            stop == all_voted,
            final(self).spec_voted() == (old(self).spec_voted() && all_voted),
            forall|name: Seq<char>| final(self).spec_id_for(name) == old(self).spec_id_for(name),
            forall|i: u64| final(self).spec_is_live(i) == old(self).spec_is_live(i),
            final(self).spec_needs_flush() == old(self).spec_needs_flush(),
            final(self).spec_next_id() == old(self).spec_next_id(),
    {
        if all_voted {
            true
        } else {
            self.voted = false;
            false
        }
    }
}

} // verus!
