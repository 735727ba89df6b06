//! Validation and replication core of an agent-centric DHT node.
//!
//! The crate holds the decisions of such a node: which evidence a validator
//! needs, how a validation result is classified, which aspects of an entry
//! are published where, and how the node's protocol maps onto the relay's
//! wire protocol. Network and storage I/O stay with the caller.
pub mod text;
pub mod entry;
pub mod error;
pub mod chain_pair;
pub mod validation;
pub mod protocol;
pub mod entry_aspect;
pub mod network_state;
pub mod reducers;
pub mod workflows;
pub mod build_from_dht;
pub mod wire;
pub mod sim2h_worker;
