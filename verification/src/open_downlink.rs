//! The event handlers that open a downlink from an agent: the first step
//! hands the request over to be opened, any later step fails.

use vstd::prelude::*;
use crate::value_store::EventHandlerError;

verus! {

/// The kind of a downlink.
#[derive(Debug, Clone, Copy, PartialEq, Eq, Structural)]
pub enum DownlinkKind {
    Value,
    MapLane,
    Event,
}

/// The address of a lane: its host, if it is remote, its node and its name.
#[derive(Debug, Clone, PartialEq, Eq)]
pub struct Address {
    pub host: Option<String>,
    pub node: String,
    pub lane: String,
}

/// What a step of the handler does: open the downlink to the address with
/// the lifecycle and configuration, or fail.
#[derive(Debug)]
pub enum OpenStep<L, C> {
    Open { address: Address, lifecycle: L, config: C, kind: DownlinkKind },
    Fail(EventHandlerError),
}

/// A handler that opens a downlink of some kind, once.
#[derive(Debug)]
pub struct OpenDownlinkAction<L, C> {
    /// The request that is still to be handed over.
    pub request: Option<(Address, L)>,
    pub config: C,
    pub kind: DownlinkKind,
}

impl<L, C: Copy> OpenDownlinkAction<L, C> {
    /// A handler for a downlink of the given kind.
    pub fn new(address: Address, lifecycle: L, config: C, kind: DownlinkKind) -> (res: Self)
        ensures
            res.request == Some((address, lifecycle)),
            res.config == config,
            res.kind == kind,
    {
        OpenDownlinkAction { request: Some((address, lifecycle)), config, kind }
    }

    /// A handler for a value downlink.
    pub fn open_value(address: Address, lifecycle: L, config: C) -> (res: Self)
        ensures
            res.request == Some((address, lifecycle)),
            res.config == config,
            res.kind == DownlinkKind::Value,
    {
        Self::new(address, lifecycle, config, DownlinkKind::Value)
    }

    /// A handler for a map downlink.
    pub fn open_map(address: Address, lifecycle: L, config: C) -> (res: Self)
        ensures
            res.request == Some((address, lifecycle)),
            res.config == config,
            res.kind == DownlinkKind::MapLane,
    {
        Self::new(address, lifecycle, config, DownlinkKind::MapLane)
    }

    /// A handler for an event downlink.
    pub fn open_event(address: Address, lifecycle: L, config: C) -> (res: Self)
        ensures
            res.request == Some((address, lifecycle)),
            res.config == config,
            res.kind == DownlinkKind::Event,
    {
        Self::new(address, lifecycle, config, DownlinkKind::Event)
    }

    /// The first step hands the request over, with the configuration and
    /// kind; any later step fails.
    pub fn step(&mut self) -> (res: OpenStep<L, C>)
        ensures
            final(self).request is None,
            final(self).config == old(self).config,
            final(self).kind == old(self).kind,
            match old(self).request {
                Some((address, lifecycle)) => res == OpenStep::Open {
                    address,
                    lifecycle,
                    config: old(self).config,
                    kind: old(self).kind,
                },
                None => res == OpenStep::<L, C>::Fail(EventHandlerError::SteppedAfterComplete),
            },
    {
        match self.request.take() {
            Some((address, lifecycle)) => OpenStep::Open { address, lifecycle, config: self.config, kind: self.kind },
            None => OpenStep::Fail(EventHandlerError::SteppedAfterComplete),
        }
    }
}

} // verus!
