# swim_core

The decision logic of a streaming agent platform (agents with value and map
lanes, downlinks between agents and clients, a WebSocket transport), written
in Verus: each function states what it does in its contract, and Verus proves
that the code meets it. The tasks that move bytes between channels and sockets
are not part of the library; they call it for every decision they make.

## Layout

- `src/` — the verified library.
  - Downlinks: `downlink` (protocol state machine of client downlinks),
    `state_machine` (its interface for the downlink task), `downlink_task`
    (input selection, error policy and termination of the task),
    `configuration` (per-lane, per-host and default configurations).
  - Hosted downlinks and stores of an agent: `map_dl_state`, `hosted_map`,
    `hosted_value`, `map_store`, `value_store`, `open_downlink`.
  - Agent runtime: `read_task`, `write_task`, `links`, `lane_io`, `agent`.
  - Transport and routing: `frame` (WebSocket frame headers and masking),
    `ws`, `pool`, `routing`, `router_error`, `remote_router`,
    `connection_task`, `connections`.
  - Values: `comparator` (incremental comparison of Recon event streams).
- `tests/` — tests of the library on concrete values.
- `app/` — code around the library: the frame header in the shape codecs
  take it, and a driver that runs a downlink task over channels.

Properties that span several calls (what a read gives back of a write, which
configuration a lane gets, what `take` and `drop` keep, that masking is its own
inverse, …) are stated and proved as public proof functions beside the code
they are about.
