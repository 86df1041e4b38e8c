//! The transport side of the replicated state: the pool of channels to the
//! peers, the connections that the consensus engine calls through, and the
//! course that a call takes, down to how its failure is reported.

pub mod network;
pub mod raft_client;
pub mod typ;
