//! Client library for a stateful, event-driven remote gateway reached over a
//! persistent socket. The heart of the crate is the per-shard protocol engine:
//! a pure state machine that performs the handshake, exchanges heartbeats,
//! decides between resuming a session and identifying afresh after a drop,
//! applies reconnection backoff, and hands decoded events to a dispatcher.
//! All I/O (sockets, timers, HTTP) lives outside this crate; callers feed the
//! engine events and carry out the actions it returns.

pub mod builder;
pub mod dispatch;
pub mod envelope;
pub mod error;
pub mod heartbeat;
pub mod ids;
pub mod laws;
pub mod machine;
pub mod model;
pub mod payload;
pub mod presence;
pub mod reconnect;
pub mod session;
pub mod stage;
