//! Verified core of a LAN survey-data relay: a UDP announce/discover
//! protocol and an HTTP ingestion endpoint over a shared service lifecycle.
//!
//! The crate holds the logic of the network module: the lifecycle of the two
//! services (at most one live instance of each, idempotent start and stop),
//! the registry of discovered peers, the discovery wire messages, and the
//! ingestion decisions around the persistence gateway. Sockets, timers, the
//! HTTP server and the gateway itself live with the caller, which feeds this
//! crate plain values and performs the actions it decides.
use vstd::prelude::*;

pub mod addr;
pub mod ingest;
pub mod json;
pub mod lifecycle;
pub mod messages;
pub mod registry;

verus! {

/// Default UDP port the discovery listener binds to.
pub const DEFAULT_DISCOVERY_PORT: u16 = 9090;

/// Fixed UDP port that announce broadcasts are sent to; peers listen here,
/// so the broadcaster never receives its own packets.
pub const ANNOUNCE_TARGET_PORT: u16 = 9091;

/// Default TCP port of the HTTP ingestion server.
pub const DEFAULT_HTTP_PORT: u16 = 8080;

} // verus!
