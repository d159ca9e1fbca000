//! Replication orchestrator core: a checkpointed poller over an anchor feed
//! and the request/reply protocol used to drive the network actor.

pub mod checkpoint;
pub mod decimal;
pub mod feed;
pub mod protocol;
