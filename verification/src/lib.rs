//! Verified core logic of a streaming agent platform: downlink state
//! machines, map stores, WebSocket frame headers, configuration builders and
//! the decision logic of the agent runtime tasks.

pub mod ws;
pub mod pool;
pub mod routing;
pub mod downlink;
pub mod state_machine;
pub mod map_store;
pub mod map_dl_state;
pub mod frame;
pub mod router_error;
pub mod lane_io;
pub mod links;
pub mod hosted_map;
pub mod read_task;
pub mod write_task;
pub mod hosted_value;
pub mod configuration;
pub mod comparator;
pub mod downlink_task;
pub mod agent;
pub mod connections;
pub mod value_store;
pub mod open_downlink;
pub mod connection_task;
pub mod remote_router;
