//! The event handling of a map downlink hosted by an agent: how each
//! notification from the remote lane changes the downlink's state and which
//! call of the downlink's lifecycle it leads to.

use vstd::prelude::*;
use crate::map_dl_state::{MapDlState, MapDlEvent, drop_relation, take_relation};

verus! {

/// The state of a hosted downlink with respect to its remote lane.
#[derive(Debug, Clone, Copy, PartialEq, Eq, Structural)]
pub enum DlState {
    Unlinked,
    Linked,
    Synced,
    Stopped,
}

/// A change of a remote map.
#[derive(Debug, Clone, PartialEq, Eq)]
pub enum MapMessage<V> {
    Update { key: u64, value: V },
    Remove { key: u64 },
    Clear,
    Take(u64),
    Drop(u64),
}

/// A notification from the remote lane of a map downlink.
#[derive(Debug, Clone, PartialEq, Eq)]
pub enum MapNotification<V> {
    Linked,
    Synced,
    Event(MapMessage<V>),
    Unlinked,
    /// Reading from the remote lane failed.
    Failed,
}

/// A call of the downlink's lifecycle.
#[derive(Debug)]
pub enum LifecycleCall<V> {
    OnLinked,
    OnSynced,
    /// The changes of the map, in order, for the lifecycle's update, remove
    /// and clear handlers.
    OnChanges(Vec<MapDlEvent<V>>),
    OnUnlinked,
    OnFailed,
}

/// The configuration of a map downlink that its event handling reads.
#[derive(Debug, Clone, Copy, PartialEq, Eq, Structural)]
pub struct MapDownlinkConfig {
    /// Whether the lifecycle sees changes before the downlink is synced.
    pub events_when_not_synced: bool,
    /// Whether the downlink stops when it is unlinked or fails.
    pub terminate_on_unlinked: bool,
}

/// A hosted map downlink: its protocol state, its map, its configuration and
/// whether it still reads from the remote lane.
#[derive(Debug)]
pub struct HostedMapDownlink<V> {
    pub dl_state: DlState,
    pub state: MapDlState<V>,
    pub config: MapDownlinkConfig,
    pub receiving: bool,
}

/// Whether the lifecycle sees changes in a protocol state.
pub open spec fn spec_notifies(dl: DlState, config: MapDownlinkConfig) -> bool {
    dl == DlState::Synced || config.events_when_not_synced
}

/// The protocol state after being unlinked or failing.
pub open spec fn spec_after_unlink(config: MapDownlinkConfig) -> DlState {
    if config.terminate_on_unlinked { DlState::Stopped } else { DlState::Unlinked }
}

/// Whether a lifecycle call hands over exactly the given changes.
pub open spec fn is_changes<V>(call: Option<LifecycleCall<V>>, changes: Seq<MapDlEvent<V>>) -> bool {
    call matches Some(LifecycleCall::OnChanges(es)) && es@ == changes
}

impl<V> HostedMapDownlink<V> {
    /// A new downlink: unlinked, empty, reading from its lane.
    pub fn new(config: MapDownlinkConfig) -> (res: Self)
        ensures
            res.dl_state == DlState::Unlinked,
            res.state.spec_map() == Map::<u64, V>::empty(),
            res.state.spec_order() is None,
            res.state.wf(),
            res.config == config,
            res.receiving,
    {
        HostedMapDownlink { dl_state: DlState::Unlinked, state: MapDlState::new(), config, receiving: true }
    }

    /// Handles the next notification of the remote lane. The number of entries
    /// of a `Take` or `Drop` must fit in a `usize`.
    pub fn next_event(&mut self, notification: MapNotification<V>) -> (res: Option<LifecycleCall<V>>)
        requires
            old(self).state.wf(),
            notification matches MapNotification::Event(MapMessage::Take(n)) ==> n <= usize::MAX,
            notification matches MapNotification::Event(MapMessage::Drop(n)) ==> n <= usize::MAX,
        ensures
            final(self).state.wf(),
            final(self).config == old(self).config,
            match notification {
                MapNotification::Linked => {
                    &&& final(self).dl_state == (if old(self).dl_state == DlState::Unlinked {
                        DlState::Linked
                    } else {
                        old(self).dl_state
                    })
                    &&& final(self).state == old(self).state
                    &&& final(self).receiving == old(self).receiving
                    &&& res matches Some(LifecycleCall::OnLinked)
                },
                MapNotification::Synced => {
                    &&& final(self).dl_state == DlState::Synced
                    &&& final(self).state == old(self).state
                    &&& final(self).receiving == old(self).receiving
                    &&& res matches Some(LifecycleCall::OnSynced)
                },
                MapNotification::Unlinked | MapNotification::Failed => {
                    &&& final(self).dl_state == spec_after_unlink(old(self).config)
                    &&& final(self).receiving == (old(self).receiving && !old(self).config.terminate_on_unlinked)
                    &&& final(self).state.spec_map() == Map::<u64, V>::empty()
                    &&& final(self).state.spec_order() is None
                    &&& if notification is Unlinked {
                        res matches Some(LifecycleCall::OnUnlinked)
                    } else {
                        res matches Some(LifecycleCall::OnFailed)
                    }
                },
                MapNotification::Event(message) => {
                    let pre = old(self).state;
                    let notify = spec_notifies(old(self).dl_state, old(self).config);
                    &&& final(self).dl_state == old(self).dl_state
                    &&& final(self).receiving == old(self).receiving
                    &&& match message {
                        MapMessage::Update { key, value } => {
                            &&& final(self).state.spec_map() == pre.spec_map().insert(key, value)
                            &&& if notify {
                                is_changes(res, seq![MapDlEvent::Update {
                                    key,
                                    old: if pre.spec_map().contains_key(key) { Some(pre.spec_map()[key]) } else { None },
                                }])
                            } else {
                                res is None
                            }
                        },
                        MapMessage::Remove { key } => {
                            &&& final(self).state.spec_map() == pre.spec_map().remove(key)
                            &&& if notify && pre.spec_map().contains_key(key) {
                                is_changes(res, seq![MapDlEvent::Remove { key, value: pre.spec_map()[key] }])
                            } else {
                                res is None
                            }
                        },
                        MapMessage::Clear => {
                            &&& final(self).state.spec_map() == Map::<u64, V>::empty()
                            &&& final(self).state.spec_order() is None
                            &&& if notify {
                                res matches Some(LifecycleCall::OnChanges(es)) && es@.len() == 1
                                    && (es@[0] matches MapDlEvent::Clear(m) && m@ == pre.spec_map())
                            } else {
                                res is None
                            }
                        },
                        MapMessage::Take(n) => exists|es: Seq<MapDlEvent<V>>| {
                            &&& take_relation(pre, final(self).state, n as usize, es)
                            &&& if notify && es.len() > 0 { is_changes(res, es) } else { res is None }
                        },
                        MapMessage::Drop(n) => exists|es: Seq<MapDlEvent<V>>| {
                            &&& drop_relation(pre, final(self).state, n as usize, es)
                            &&& if notify && es.len() > 0 { is_changes(res, es) } else { res is None }
                        },
                    }
                },
            },
    {
        match notification {
            MapNotification::Linked => {
                if self.dl_state == DlState::Unlinked {
                    self.dl_state = DlState::Linked;
                }
                Some(LifecycleCall::OnLinked)
            },
            MapNotification::Synced => {
                self.dl_state = DlState::Synced;
                Some(LifecycleCall::OnSynced)
            },
            MapNotification::Event(message) => {
                let notify = self.dl_state == DlState::Synced || self.config.events_when_not_synced;
                match message {
                    MapMessage::Update { key, value } => {
                        let event = self.state.update(key, value);
                        if notify {
                            let mut es: Vec<MapDlEvent<V>> = Vec::new();
                            es.push(event);
                            proof {
                                assert(es@ =~= seq![event]);
                            }
                            Some(LifecycleCall::OnChanges(es))
                        } else {
                            None
                        }
                    },
                    MapMessage::Remove { key } => {
                        match self.state.remove(key) {
                            Some(event) => {
                                if notify {
                                    let mut es: Vec<MapDlEvent<V>> = Vec::new();
                                    es.push(event);
                                    proof {
                                        assert(es@ =~= seq![event]);
                                    }
                                    Some(LifecycleCall::OnChanges(es))
                                } else {
                                    None
                                }
                            },
                            None => None,
                        }
                    },
                    MapMessage::Clear => {
                        let old_map = self.state.clear();
                        if notify {
                            let mut es: Vec<MapDlEvent<V>> = Vec::new();
                            es.push(MapDlEvent::Clear(old_map));
                            Some(LifecycleCall::OnChanges(es))
                        } else {
                            None
                        }
                    },
                    MapMessage::Take(n) => {
                        let es = self.state.take(n as usize);
                        if notify && es.len() > 0 {
                            Some(LifecycleCall::OnChanges(es))
                        } else {
                            None
                        }
                    },
                    MapMessage::Drop(n) => {
                        let es = self.state.drop(n as usize);
                        if notify && es.len() > 0 {
                            Some(LifecycleCall::OnChanges(es))
                        } else {
                            None
                        }
                    },
                }
            },
            MapNotification::Unlinked => {
                self.after_unlink();
                Some(LifecycleCall::OnUnlinked)
            },
            MapNotification::Failed => {
                self.after_unlink();
                Some(LifecycleCall::OnFailed)
            },
        }
    }

    /// Stops or unlinks the downlink, per its configuration, and clears its map.
    fn after_unlink(&mut self)
        requires
            old(self).state.wf(),
        ensures
            final(self).state.wf(),
            final(self).config == old(self).config,
            final(self).dl_state == spec_after_unlink(old(self).config),
            final(self).receiving == (old(self).receiving && !old(self).config.terminate_on_unlinked),
            final(self).state.spec_map() == Map::<u64, V>::empty(),
            final(self).state.spec_order() is None,
    {
        if self.config.terminate_on_unlinked {
            self.receiving = false;
            self.dl_state = DlState::Stopped;
        } else {
            self.dl_state = DlState::Unlinked;
        }
        let _ = self.state.clear();
    }
}

} // verus!
