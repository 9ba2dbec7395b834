//! The event handling of a value downlink hosted by an agent: how each
//! notification from the remote lane changes the downlink's value and which
//! call of the downlink's lifecycle it leads to.

use vstd::prelude::*;
use crate::hosted_map::{DlState, MapDownlinkConfig, spec_after_unlink, spec_notifies};

verus! {

/// A notification from the remote lane of a value downlink.
#[derive(Debug, Clone, PartialEq, Eq)]
pub enum ValueNotification<T> {
    Linked,
    Synced,
    Event(T),
    Unlinked,
    /// Reading from the remote lane failed.
    Failed,
}

/// A call of the downlink's lifecycle.
#[derive(Debug, Clone, PartialEq, Eq)]
pub enum ValueLifecycleCall<T> {
    OnLinked,
    /// The downlink synced while holding a value (the current one).
    OnSynced,
    /// A value arrived (the current one), followed by the set handler with
    /// the value it replaced.
    OnEventThenSet { previous: Option<T> },
    OnUnlinked,
    OnFailed,
}

/// A hosted value downlink: its protocol state, its current value, its
/// configuration and whether it still reads from the remote lane.
#[derive(Debug)]
pub struct HostedValueDownlink<T> {
    pub dl_state: DlState,
    pub value: Option<T>,
    pub config: MapDownlinkConfig,
    pub receiving: bool,
}

impl<T> HostedValueDownlink<T> {
    /// A new downlink: unlinked, without a value, reading from its lane.
    pub fn new(config: MapDownlinkConfig) -> (res: Self)
        ensures
            res == (HostedValueDownlink::<T> { dl_state: DlState::Unlinked, value: None, config, receiving: true }),
    {
        HostedValueDownlink { dl_state: DlState::Unlinked, value: None, config, receiving: true }
    }

    /// Handles the next notification of the remote lane.
    pub fn next_event(&mut self, notification: ValueNotification<T>) -> (res: Option<ValueLifecycleCall<T>>)
        ensures
            final(self).config == old(self).config,
            match notification {
                ValueNotification::Linked => {
                    &&& *final(self) == (HostedValueDownlink::<T> {
                        dl_state: if old(self).dl_state == DlState::Unlinked { DlState::Linked } else { old(self).dl_state },
                        ..*old(self)
                    })
                    &&& res == Some(ValueLifecycleCall::<T>::OnLinked)
                },
                ValueNotification::Synced => {
                    &&& *final(self) == (HostedValueDownlink { dl_state: DlState::Synced, ..*old(self) })
                    &&& res == (if old(self).value is Some { Some(ValueLifecycleCall::<T>::OnSynced) } else { None })
                },
                ValueNotification::Event(body) => {
                    &&& *final(self) == (HostedValueDownlink { value: Some(body), ..*old(self) })
                    &&& res == (if spec_notifies(old(self).dl_state, old(self).config) {
                        Some(ValueLifecycleCall::OnEventThenSet { previous: old(self).value })
                    } else {
                        None
                    })
                },
                ValueNotification::Unlinked | ValueNotification::Failed => {
                    &&& *final(self) == (HostedValueDownlink::<T> {
                        dl_state: spec_after_unlink(old(self).config),
                        value: None,
                        receiving: old(self).receiving && !old(self).config.terminate_on_unlinked,
                        config: old(self).config,
                    })
                    &&& res == (if notification is Unlinked {
                        Some(ValueLifecycleCall::<T>::OnUnlinked)
                    } else {
                        Some(ValueLifecycleCall::<T>::OnFailed)
                    })
                },
            },
    {
        match notification {
            ValueNotification::Linked => {
                if self.dl_state == DlState::Unlinked {
                    self.dl_state = DlState::Linked;
                }
                Some(ValueLifecycleCall::OnLinked)
            },
            ValueNotification::Synced => {
                self.dl_state = DlState::Synced;
                if self.value.is_some() {
                    Some(ValueLifecycleCall::OnSynced)
                } else {
                    None
                }
            },
            ValueNotification::Event(body) => {
                let previous = self.value.take();
                let notify = self.dl_state == DlState::Synced || self.config.events_when_not_synced;
                self.value = Some(body);
                if notify {
                    Some(ValueLifecycleCall::OnEventThenSet { previous })
                } else {
                    None
                }
            },
            ValueNotification::Unlinked => {
                self.after_unlink();
                Some(ValueLifecycleCall::OnUnlinked)
            },
            ValueNotification::Failed => {
                self.after_unlink();
                Some(ValueLifecycleCall::OnFailed)
            },
        }
    }

    /// Clears the value, then stops or unlinks the downlink per its configuration.
    fn after_unlink(&mut self)
        ensures
            *final(self) == (HostedValueDownlink::<T> {
                dl_state: spec_after_unlink(old(self).config),
                value: None,
                receiving: old(self).receiving && !old(self).config.terminate_on_unlinked,
                config: old(self).config,
            }),
    {
        self.value = None;
        if self.config.terminate_on_unlinked {
            self.receiving = false;
            self.dl_state = DlState::Stopped;
        } else {
            self.dl_state = DlState::Unlinked;
        }
    }
}

} // verus!
