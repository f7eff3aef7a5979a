//! Message routing and connection lifecycle for a room-based chat server.
//!
//! The crate holds the decisions of the server and none of its I/O: the
//! registry that tracks which session is in which room, the state machine of
//! one connection, the liveness check that reaps silent connections, and the
//! wire format of the frames exchanged with clients. Every function carries a
//! contract, and Verus proves that the function keeps it.

pub mod agreement;
pub mod config;
pub mod heartbeat;
pub mod json;
pub mod message;
pub mod protocol;
pub mod registry;
pub mod session;
