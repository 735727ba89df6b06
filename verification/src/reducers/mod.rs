//! The reducers that turn actions of the node into messages for the network.
pub mod publish;
pub mod respond_get_links;
