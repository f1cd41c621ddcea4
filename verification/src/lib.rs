//! Real-time two-peer state synchronization: the wire codec for commands and
//! state snapshots, bounded handoff channels between the network task and its
//! collaborators, the per-role synchronization engines, and a model of the
//! datagram receive path.

pub mod channel;
pub mod codec;
pub mod engine;
pub mod transport;
