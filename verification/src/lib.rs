//! A Raft consensus core: votes, log ids, quorums, elections, membership and the
//! bookkeeping of a storage adapter, each with a verified contract.

pub mod acceptor;
pub mod config;
pub mod entry;
pub mod error_source;
pub mod errors;
pub mod log_id;
pub mod log_io;
pub mod membership;
pub mod node;
pub mod quorum;
pub mod replication;
pub mod storage;
pub mod storage_io;
pub mod text;
pub mod type_config;
pub mod vote;
pub mod voting;
