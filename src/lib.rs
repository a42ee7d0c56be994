//! Relaying byte streams between UDP unicast, UDP multicast and TCP endpoints.
//!
//! The library holds the decisions of the relay engine as verified code:
//! the address model, the socket set-up plans (which options, joins, binds
//! and connects a listen or send handle goes through), the bounded search for
//! an IPv6 multicast interface, the relay loop that turns each read into the
//! writes it owes, and the admission of bridge sessions. Performing those
//! steps on real sockets is left to the caller.
pub mod addr;
pub mod bridge;
pub mod guarantees;
pub mod plan;
pub mod probe;
pub mod relay;
pub mod routes;

pub use addr::{AddressError, Endpoint, Family, IpAddress, resolution, select_first};
pub use bridge::{DEFAULT_SESSION_LIMIT, SessionGate};
pub use guarantees::{
    each_target_written_once, empty_read_ends_file_input, file_bytes_reach_listener_log,
    listen_plan_joins_once, lone_line_feed_skipped, tee_matches_targets,
};
pub use plan::{Platform, SocketOp, default_interface, listen_plan, sender_plan};
pub use probe::{
    AttemptOutcome, INTERFACE_SEARCH_LIMIT, InterfaceSearch, SearchStatus, interface_candidates,
};
pub use relay::{
    DEFAULT_BUFFER_SIZE, Delivery, LINE_FEED, ReadDecision, RelayLoop, RelayState, Sink,
    SourceKind, TargetPool, Termination, decide_read,
};
pub use routes::{GatewayArgs, RelayRoute, copy_endpoints, relay_routes};
