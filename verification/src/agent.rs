//! Plain types shared by agents and the clients that talk to them.

use vstd::prelude::*;

verus! {

/// The kind of uplink that a lane of an agent serves.
#[derive(Debug, Clone, Copy, PartialEq, Eq, Structural)]
pub enum UplinkKind {
    Value,
    MapLane,
}

/// The configuration with which an agent is run (it has no parameters yet).
#[derive(Debug, Clone, Copy, PartialEq, Eq, Structural)]
pub struct AgentConfig {}

/// The error of a sink whose receiver has gone away.
#[derive(Debug, Clone, Copy, PartialEq, Eq, Structural)]
pub struct SendError {}

/// An instruction to the agent of the map store example: wake up, set a
/// value or a temporary value under a key, or stop.
#[derive(Debug, Clone, PartialEq, Eq)]
pub enum Instruction {
    Wake,
    SetValue { key: String, value: i32 },
    SetTemp { key: String, value: i32 },
    Stop,
}

} // verus!
