//! Peer-set and protocol-identity subsystem of a peer-to-peer blockchain node.
//!
//! The crate decides, for each logical category of peer traffic, which
//! wire-level protocol names exist, how they map to protocol versions, how
//! those names are derived from chain identity, and what connection-slot
//! policy applies to peers in that category.  It also carries a small
//! deterministic in-memory staking and delegation ledger used to exercise
//! nomination-pool accounting.

pub mod encoding;
pub mod peer_set;
pub mod protocol_names;
pub mod staking_mock;
pub mod delegate_mock;
pub mod pool_mock;
