//! The links between the lanes of an agent and the remote endpoints attached
//! to it, as the agent's write task tracks them.

use vstd::prelude::*;

verus! {

/// A link from a lane (by its identifier) to a remote endpoint (by its identifier).
pub type Link = (u64, u128);

/// What removing a link means for its remote: whether the remote has no
/// link left, so that it may be pruned after a delay.
#[derive(Debug, Clone, Copy, PartialEq, Eq, Structural)]
pub struct TriggerUnlink {
    pub remote_id: u128,
    pub schedule_prune: bool,
}

impl TriggerUnlink {
    /// The remote to prune, if the remote has no link left.
    pub fn into_option(self) -> (res: Option<u128>)
        ensures
            res == (if self.schedule_prune { Some(self.remote_id) } else { None::<u128> }),
    {
        if self.schedule_prune {
            Some(self.remote_id)
        } else {
            None
        }
    }
}

/// The set of links of an agent.
#[derive(Debug)]
pub struct Links {
    links: Vec<Link>,
}

/// Whether a remote has a link in a set of links.
pub open spec fn remote_has_links(s: Set<Link>, remote: u128) -> bool {
    exists|lane: u64| s.contains((lane, remote))
}

impl Links {
    /// The links, as a set.
    pub closed spec fn view(&self) -> Set<Link> {
        self.links@.to_set()
    }

    /// No link is recorded twice.
    pub closed spec fn wf(&self) -> bool {
        self.links@.no_duplicates()
    }

    /// No links.
    pub fn new() -> (res: Links)
        ensures
            res.view() == Set::<Link>::empty(),
            res.wf(),
    {
        let res = Links { links: Vec::new() };
        proof {
            assert(res.links@.to_set() =~= Set::<Link>::empty());
        }
        res
    }

    fn position(&self, lane: u64, remote: u128) -> (res: Option<usize>)
        ensures
            match res {
                Some(i) => i < self.links@.len() && self.links@[i as int] == (lane, remote),
                None => !self.view().contains((lane, remote)),
            },
    {
        let mut i: usize = 0;
        while i < self.links.len()
            invariant
                i <= self.links@.len(),
                forall|j: int| 0 <= j < i ==> self.links@[j] != (lane, remote),
            decreases self.links@.len() - i,
        {
            let (l, r) = self.links[i];
            if l == lane && r == remote {
                return Some(i);
            }
            i += 1;
        }
        proof {
            if self.links@.to_set().contains((lane, remote)) {
                let j = choose|j: int| 0 <= j < self.links@.len() && self.links@[j] == (lane, remote);
            }
        }
        None
    }

    /// Whether a lane is linked to a remote.
    pub fn is_linked(&self, remote: u128, lane: u64) -> (res: bool)
        ensures
            res == self.view().contains((lane, remote)),
    {
        self.position(lane, remote).is_some()
    }

    /// Links a lane to a remote.
    pub fn insert(&mut self, lane: u64, remote: u128)
        requires
            old(self).wf(),
        ensures
            final(self).wf(),
            final(self).view() == old(self).view().insert((lane, remote)),
    {
        if self.position(lane, remote).is_none() {
            let ghost before = self.links@;
            self.links.push((lane, remote));
            proof {
                assert(self.links@.to_set() =~= before.to_set().insert((lane, remote))) by {
                    assert forall|x: Link| #[trigger] self.links@.contains(x) <==> before.contains(x) || x == (lane, remote) by {
                        if self.links@.contains(x) {
                            let j = choose|j: int| 0 <= j < self.links@.len() && self.links@[j] == x;
                            if j < before.len() {
                                assert(before[j] == x);
                            }
                        }
                        if before.contains(x) {
                            let j = choose|j: int| 0 <= j < before.len() && before[j] == x;
                            assert(self.links@[j] == x);
                        }
                        if x == (lane, remote) {
                            assert(self.links@[before.len() as int] == x);
                        }
                    }
                }
                assert forall|a: int, b: int| 0 <= a < b < self.links@.len() implies self.links@[a] != self.links@[b] by {
                    if b == before.len() {
                        assert(before.contains(before[a]));
                    }
                }
            }
        } else {
            proof {
                assert(self.links@.to_set().insert((lane, remote)) =~= self.links@.to_set());
            }
        }
    }

    /// Whether a remote has any link.
    pub fn has_links(&self, remote: u128) -> (res: bool)
        ensures
            res == remote_has_links(self.view(), remote),
    {
        let mut i: usize = 0;
        while i < self.links.len()
            invariant
                i <= self.links@.len(),
                forall|j: int| 0 <= j < i ==> self.links@[j].1 != remote,
            decreases self.links@.len() - i,
        {
            if self.links[i].1 == remote {
                proof {
                    assert(self.links@.to_set().contains((self.links@[i as int].0, remote)));
                }
                return true;
            }
            i += 1;
        }
        proof {
            if remote_has_links(self.view(), remote) {
                let lane = choose|lane: u64| self.links@.to_set().contains((lane, remote));
                let j = choose|j: int| 0 <= j < self.links@.len() && self.links@[j] == (lane, remote);
            }
        }
        false
    }

    /// Keeps the links that satisfy `keep`, which is given as the lane (if
    /// `Some`) and/or the remote (if `Some`) that the removed links have.
    fn retain_not_matching(&mut self, lane: Option<u64>, remote: Option<u128>)
        requires
            old(self).wf(),
        ensures
            final(self).wf(),
            final(self).view() == old(self).view().filter(|l: Link| !matches_link(lane, remote, l)),
    {
        let ghost before = self.links@;
        let mut kept: Vec<Link> = Vec::new();
        let mut i: usize = 0;
        while i < self.links.len()
            invariant
                i <= self.links@.len(),
                self.links@ == before,
                before.no_duplicates(),
                kept@.no_duplicates(),
                forall|x: Link| #[trigger] kept@.contains(x) <==>
                    (exists|j: int| 0 <= j < i && before[j] == x) && !matches_link(lane, remote, x),
            decreases self.links@.len() - i,
        {
            let l = self.links[i];
            let matched = match (lane, remote) {
                (Some(ln), Some(rm)) => l.0 == ln && l.1 == rm,
                (Some(ln), None) => l.0 == ln,
                (None, Some(rm)) => l.1 == rm,
                (None, None) => true,
            };
            let ghost kept_before = kept@;
            if !matched {
                proof {
                    if kept_before.contains(l) {
                        let j = choose|j: int| 0 <= j < i && before[j] == l;
                        assert(before[j] == before[i as int]);
                    }
                }
                kept.push(l);
                proof {
                    assert forall|a: int, b: int| 0 <= a < b < kept@.len() implies kept@[a] != kept@[b] by {
                        if b == kept_before.len() {
                            assert(kept_before.contains(kept_before[a]));
                        }
                    }
                }
            }
            proof {
                assert forall|x: Link| #[trigger] kept@.contains(x) <==>
                    (exists|j: int| 0 <= j < i + 1 && before[j] == x) && !matches_link(lane, remote, x) by {
                    if kept@.contains(x) && !kept_before.contains(x) {
                        let j = choose|j: int| 0 <= j < kept@.len() && kept@[j] == x;
                        assert(j == kept_before.len());
                        assert(before[i as int] == x);
                    }
                    if kept@.contains(x) && kept_before.contains(x) {
                    }
                    if (exists|j: int| 0 <= j < i + 1 && before[j] == x) && !matches_link(lane, remote, x) {
                        let j = choose|j: int| 0 <= j < i + 1 && before[j] == x;
                        if j == i {
                            assert(kept@[kept@.len() - 1] == x);
                        } else {
                            assert(kept_before.contains(x));
                            let k = choose|k: int| 0 <= k < kept_before.len() && kept_before[k] == x;
                            assert(kept@[k] == x);
                        }
                    }
                }
            }
            i += 1;
        }
        self.links = kept;
        proof {
            assert(self.links@.to_set() =~= before.to_set().filter(|l: Link| !matches_link(lane, remote, l))) by {
                assert forall|x: Link| #[trigger] self.links@.to_set().contains(x) <==>
                    before.to_set().filter(|l: Link| !matches_link(lane, remote, l)).contains(x) by {
                    if before.contains(x) {
                        let j = choose|j: int| 0 <= j < before.len() && before[j] == x;
                    }
                }
            }
        }
    }

    /// Removes the link of a lane to a remote; the remote is to be pruned
    /// when it has no link left.
    pub fn remove(&mut self, lane: u64, remote: u128) -> (res: TriggerUnlink)
        requires
            old(self).wf(),
        ensures
            final(self).wf(),
            final(self).view() == old(self).view().remove((lane, remote)),
            res.remote_id == remote,
            res.schedule_prune == !remote_has_links(final(self).view(), remote),
    {
        self.retain_not_matching(Some(lane), Some(remote));
        proof {
            assert(self.view() =~= old(self).view().remove((lane, remote)));
        }
        let schedule_prune = !self.has_links(remote);
        TriggerUnlink { remote_id: remote, schedule_prune }
    }

    /// Removes every link of a remote.
    pub fn remove_remote(&mut self, remote: u128)
        requires
            old(self).wf(),
        ensures
            final(self).wf(),
            final(self).view() == old(self).view().filter(|l: Link| l.1 != remote),
    {
        self.retain_not_matching(None, Some(remote));
        proof {
            assert(self.view() =~= old(self).view().filter(|l: Link| l.1 != remote));
        }
    }

    /// The remotes linked from a lane, each once.
    pub fn linked_from(&self, lane: u64) -> (res: Vec<u128>)
        requires
            self.wf(),
        ensures
            res@.no_duplicates(),
            forall|r: u128| #[trigger] res@.contains(r) <==> self.view().contains((lane, r)),
    {
        let mut out: Vec<u128> = Vec::new();
        let mut i: usize = 0;
        while i < self.links.len()
            invariant
                i <= self.links@.len(),
                self.links@.no_duplicates(),
                out@.no_duplicates(),
                forall|r: u128| #[trigger] out@.contains(r) <==> exists|j: int| 0 <= j < i && self.links@[j] == (lane, r),
            decreases self.links@.len() - i,
        {
            let (l, r) = self.links[i];
            let ghost before = out@;
            if l == lane {
                proof {
                    if before.contains(r) {
                        let j = choose|j: int| 0 <= j < i && self.links@[j] == (lane, r);
                        assert(self.links@[j] == self.links@[i as int]);
                    }
                }
                out.push(r);
                proof {
                    assert forall|a: int, b: int| 0 <= a < b < out@.len() implies out@[a] != out@[b] by {
                        if b == before.len() {
                            assert(before.contains(before[a]));
                        }
                    }
                }
            }
            proof {
                assert forall|x: u128| #[trigger] out@.contains(x) <==> exists|j: int| 0 <= j < i + 1 && self.links@[j] == (lane, x) by {
                    if out@.contains(x) && !before.contains(x) {
                        let j = choose|j: int| 0 <= j < out@.len() && out@[j] == x;
                        assert(j == before.len());
                        assert(self.links@[i as int] == (lane, x));
                    }
                    if exists|j: int| 0 <= j < i + 1 && self.links@[j] == (lane, x) {
                        let j = choose|j: int| 0 <= j < i + 1 && self.links@[j] == (lane, x);
                        if j == i {
                            assert(out@[out@.len() - 1] == x);
                        } else {
                            assert(before.contains(x));
                            let k = choose|k: int| 0 <= k < before.len() && before[k] == x;
                            assert(out@[k] == x);
                        }
                    }
                }
            }
            i += 1;
        }
        proof {
            assert forall|r: u128| #[trigger] out@.contains(r) <==> self.view().contains((lane, r)) by {
                if self.links@.to_set().contains((lane, r)) {
                    let j = choose|j: int| 0 <= j < self.links@.len() && self.links@[j] == (lane, r);
                }
            }
        }
        out
    }

    /// Removes every link of a lane and says, for each remote that was
    /// linked from it, whether that remote has no link left.
    pub fn remove_lane(&mut self, lane: u64) -> (res: Vec<TriggerUnlink>)
        requires
            old(self).wf(),
        ensures
            final(self).wf(),
            final(self).view() == old(self).view().filter(|l: Link| l.0 != lane),
            forall|r: u128| old(self).view().contains((lane, r)) <==>
                exists|i: int| 0 <= i < res@.len() && #[trigger] res@[i].remote_id == r,
            forall|i: int, j: int| 0 <= i < j < res@.len() ==> #[trigger] res@[i].remote_id != #[trigger] res@[j].remote_id,
            forall|i: int| 0 <= i < res@.len() ==>
                #[trigger] res@[i].schedule_prune == !remote_has_links(final(self).view(), res@[i].remote_id),
    {
        let remotes = self.linked_from(lane);
        self.retain_not_matching(Some(lane), None);
        proof {
            assert(self.view() =~= old(self).view().filter(|l: Link| l.0 != lane));
        }
        let mut out: Vec<TriggerUnlink> = Vec::new();
        let mut i: usize = 0;
        while i < remotes.len()
            invariant
                i <= remotes@.len(),
                self.wf(),
                out@.len() == i,
                forall|j: int| 0 <= j < i ==> #[trigger] out@[j].remote_id == remotes@[j],
                forall|j: int| 0 <= j < i ==>
                    #[trigger] out@[j].schedule_prune == !remote_has_links(self.view(), out@[j].remote_id),
            decreases remotes@.len() - i,
        {
            let r = remotes[i];
            let prune = !self.has_links(r);
            out.push(TriggerUnlink { remote_id: r, schedule_prune: prune });
            i += 1;
        }
        proof {
            assert forall|r: u128| old(self).view().contains((lane, r)) <==>
                exists|k: int| 0 <= k < out@.len() && #[trigger] out@[k].remote_id == r by {
                if remotes@.contains(r) {
                    let k = choose|k: int| 0 <= k < remotes@.len() && remotes@[k] == r;
                    assert(out@[k].remote_id == r);
                }
                if exists|k: int| 0 <= k < out@.len() && #[trigger] out@[k].remote_id == r {
                    let k = choose|k: int| 0 <= k < out@.len() && #[trigger] out@[k].remote_id == r;
                    assert(remotes@[k] == r);
                }
            }
        }
        out
    }

    /// All links.
    pub fn all_links(&self) -> (res: Vec<Link>)
        requires
            self.wf(),
        ensures
            res@.no_duplicates(),
            res@.to_set() == self.view(),
    {
        let mut out: Vec<Link> = Vec::new();
        let mut i: usize = 0;
        while i < self.links.len()
            invariant
                i <= self.links@.len(),
                out@ == self.links@.take(i as int),
            decreases self.links@.len() - i,
        {
            out.push(self.links[i]);
            i += 1;
            proof {
                assert(out@ =~= self.links@.take(i as int));
            }
        }
        proof {
            assert(out@ =~= self.links@);
        }
        out
    }
}

/// Unlinking a lane from a remote undoes linking them, when they were not
/// linked before.
pub proof fn unlink_undoes_link(links: Set<Link>, lane: u64, remote: u128)
    requires
        !links.contains((lane, remote)),
    ensures
        links.insert((lane, remote)).remove((lane, remote)) == links,
{
    assert(links.insert((lane, remote)).remove((lane, remote)) =~= links);
}

/// The links without those of a remote, as `remove_remote` leaves them.
pub open spec fn without_remote(links: Set<Link>, remote: u128) -> Set<Link> {
    links.filter(|l: Link| l.1 != remote)
}

/// The links without those of a lane, as `remove_lane` leaves them.
pub open spec fn without_lane(links: Set<Link>, lane: u64) -> Set<Link> {
    links.filter(|l: Link| l.0 != lane)
}

/// Once a remote is removed it has no link left, and the links of the other
/// remotes are kept.
pub proof fn removed_remote_has_no_links(links: Set<Link>, remote: u128)
    ensures
        !remote_has_links(without_remote(links, remote), remote),
        forall|l: Link| l.1 != remote ==> (#[trigger] without_remote(links, remote).contains(l) == links.contains(l)),
{
}

/// Once a lane is removed, no remote is linked from it, and the links of the
/// other lanes are kept.
pub proof fn removed_lane_has_no_links(links: Set<Link>, lane: u64)
    ensures
        forall|r: u128| !(#[trigger] without_lane(links, lane).contains((lane, r))),
        forall|l: Link| l.0 != lane ==> (#[trigger] without_lane(links, lane).contains(l) == links.contains(l)),
{
}

/// Whether a link has the given lane (if `Some`) and the given remote (if `Some`).
pub open spec fn matches_link(lane: Option<u64>, remote: Option<u128>, l: Link) -> bool {
    &&& (lane matches Some(ln) ==> l.0 == ln)
    &&& (remote matches Some(rm) ==> l.1 == rm)
}

} // verus!
